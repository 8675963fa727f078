//! The string arena: one append-only byte buffer that every name of the
//! registry model points into.

use vstd::prelude::*;
use vstd::string::StringSliceAdditionalSpecFns;

verus! {

/// A reference to a run of bytes inside a [`StringArena`], or the null
/// reference that marks a name that has not been set.
#[derive(Clone, Copy, Debug, PartialEq, Eq, Structural, Hash)]
pub enum InternedRef {
    /// No text: the name has not been set.
    Null,
    /// The bytes `start .. start + len` of the arena.
    Span { start: usize, len: usize },
}

/// Whether `r` lies inside a buffer that holds `buf`.
pub open spec fn span_in(buf: Seq<u8>, r: InternedRef) -> bool {
    match r {
        InternedRef::Null => false,
        InternedRef::Span { start, len } => start + len <= buf.len(),
    }
}

/// The bytes that `r` denotes in a buffer that holds `buf`; empty for the null
/// reference and for a reference that reaches outside the buffer.
pub open spec fn span_text(buf: Seq<u8>, r: InternedRef) -> Seq<u8> {
    match r {
        InternedRef::Null => Seq::empty(),
        InternedRef::Span { start, len } => if start + len <= buf.len() {
            buf.subrange(start as int, start + len)
        } else {
            Seq::empty()
        },
    }
}

/// The buffer after each text of `items` was appended to `buf` in turn.
pub open spec fn after_interns(buf: Seq<u8>, items: Seq<Seq<u8>>) -> Seq<u8>
    decreases items.len(),
{
    if items.len() == 0 {
        buf
    } else {
        after_interns(buf + items[0], items.drop_first())
    }
}

/// The offset at which the text `items[i]` is placed when the texts of `items`
/// are appended to a buffer of `base` bytes in turn.
pub open spec fn intern_offset(base: nat, items: Seq<Seq<u8>>, i: int) -> nat
    decreases items.len(),
{
    if items.len() == 0 || i <= 0 {
        base
    } else {
        intern_offset(base + items[0].len(), items.drop_first(), i - 1)
    }
}

impl InternedRef {
    /// The null reference.
    pub fn null() -> (r: Self)
        ensures
            r == InternedRef::Null,
    {
        InternedRef::Null
    }

    /// Whether this is the null reference.
    pub fn is_null(&self) -> (b: bool)
        ensures
            b == (*self == InternedRef::Null),
    {
        match self {
            InternedRef::Null => true,
            InternedRef::Span { .. } => false,
        }
    }
}

/// An append-only byte buffer with a capacity fixed at creation.
pub struct StringArena {
    buf: Vec<u8>,
    cap: usize,
}

impl View for StringArena {
    type V = Seq<u8>;

    closed spec fn view(&self) -> Seq<u8> {
        self.buf@
    }
}

impl StringArena {
    /// The number of bytes that the arena was created for.
    pub closed spec fn capacity(&self) -> nat {
        self.cap as nat
    }

    /// The bytes that `r` denotes in this arena.
    pub open spec fn text(&self, r: InternedRef) -> Seq<u8> {
        span_text(self@, r)
    }

    /// An empty arena that can take `capacity` bytes.
    pub fn with_capacity(capacity: usize) -> (arena: Self)
        ensures
            arena@ == Seq::<u8>::empty(),
            arena.capacity() == capacity,
    {
        StringArena { buf: Vec::with_capacity(capacity), cap: capacity }
    }

    /// The number of bytes interned so far.
    pub fn len(&self) -> (n: usize)
        ensures
            n == self@.len(),
    {
        self.buf.len()
    }

    /// The capacity that the arena was created with.
    pub fn buffer_cap(&self) -> (n: usize)
        ensures
            n == self.capacity(),
    {
        self.cap
    }

    /// Whether `bytes` more bytes fit.
    pub fn has_room(&self, bytes: usize) -> (b: bool)
        ensures
            b == (self@.len() + bytes <= self.capacity()),
    {
        self.buf.len() <= self.cap && bytes <= self.cap - self.buf.len()
    }

    /// Appends the bytes of `s` and returns the reference to them. Nothing
    /// that was interned before moves.
    pub fn intern_bytes(&mut self, s: &[u8]) -> (r: InternedRef)
        requires
            old(self)@.len() + s@.len() <= old(self).capacity(),
        ensures
            final(self)@ == old(self)@ + s@,
            final(self).capacity() == old(self).capacity(),
            r == (InternedRef::Span { start: old(self)@.len() as usize, len: s@.len() as usize }),
            final(self).text(r) == s@,
            span_in(final(self)@, r),
    {
        let start = self.buf.len();
        let n = s.len();
        let mut i: usize = 0;
        while i < n
            invariant
                i <= n,
                n == s@.len(),
                start + n <= self.cap,
                self.cap == old(self).cap,
                self.buf@ == old(self).buf@ + s@.subrange(0, i as int),
                start == old(self).buf@.len(),
            decreases n - i,
        {
            self.buf.push(s[i]);
            i += 1;
            assert(s@.subrange(0, i as int) == s@.subrange(0, i - 1).push(s@[i - 1]));
        }
        assert(s@.subrange(0, n as int) == s@);
        assert(self.buf@.subrange(start as int, start + n) == s@);
        InternedRef::Span { start, len: n }
    }

    /// Appends `s` and returns the reference to its bytes.
    pub fn intern(&mut self, s: &str) -> (r: InternedRef)
        requires
            old(self)@.len() + s.spec_bytes().len() <= old(self).capacity(),
        ensures
            final(self)@ == old(self)@ + s.spec_bytes(),
            final(self).capacity() == old(self).capacity(),
            r == (InternedRef::Span {
                start: old(self)@.len() as usize,
                len: s.spec_bytes().len() as usize,
            }),
            final(self).text(r) == s.spec_bytes(),
    {
        self.intern_bytes(s.as_bytes())
    }

    /// Interns `s` where it fits; where it does not, leaves the arena as it is.
    pub fn try_intern(&mut self, s: &[u8]) -> (r: Option<InternedRef>)
        ensures
            final(self).capacity() == old(self).capacity(),
            old(self)@.len() + s@.len() <= old(self).capacity() ==> r == Some(
                InternedRef::Span { start: old(self)@.len() as usize, len: s@.len() as usize },
            ) && final(self)@ == old(self)@ + s@,
            old(self)@.len() + s@.len() > old(self).capacity() ==> r.is_none() && final(self)@
                == old(self)@,
            r matches Some(x) ==> final(self).text(x) == s@ && span_in(final(self)@, x),
    {
        if self.has_room(s.len()) {
            Some(self.intern_bytes(s))
        } else {
            None
        }
    }

    /// The bytes that `r` denotes: empty for the null reference and for one
    /// that reaches outside the arena.
    pub fn get(&self, r: InternedRef) -> (bytes: &[u8])
        ensures
            bytes@ == self.text(r),
    {
        match r {
            InternedRef::Null => vstd::slice::slice_subrange(self.buf.as_slice(), 0, 0),
            InternedRef::Span { start, len } => {
                let total = self.buf.len();
                if start <= total && len <= total - start {
                    vstd::slice::slice_subrange(self.buf.as_slice(), start, start + len)
                } else {
                    vstd::slice::slice_subrange(self.buf.as_slice(), 0, 0)
                }
            },
        }
    }
}

/// Appending to a buffer leaves every reference into it reading the same
/// bytes.
pub proof fn lemma_append_keeps_text(buf: Seq<u8>, more: Seq<u8>, r: InternedRef)
    requires
        span_in(buf, r),
    ensures
        span_in(buf + more, r),
        span_text(buf + more, r) == span_text(buf, r),
{
    assert(span_text(buf + more, r) =~= span_text(buf, r));
}

/// Interning a run of texts only appends: the buffer before is a prefix of the
/// buffer after.
pub proof fn lemma_interns_extend(buf: Seq<u8>, items: Seq<Seq<u8>>)
    ensures
        buf.len() <= after_interns(buf, items).len(),
        after_interns(buf, items).subrange(0, buf.len() as int) == buf,
    decreases items.len(),
{
    if items.len() == 0 {
        assert(buf.subrange(0, buf.len() as int) =~= buf);
    } else {
        lemma_interns_extend(buf + items[0], items.drop_first());
        let end = after_interns(buf, items);
        assert(end.subrange(0, buf.len() as int) =~= end.subrange(
            0,
            (buf + items[0]).len() as int,
        ).subrange(0, buf.len() as int));
        assert((buf + items[0]).subrange(0, buf.len() as int) =~= buf);
    }
}

/// Arena stability: after any run of interns, each byte of each interned text
/// is still found at the offset that its intern returned.
pub proof fn lemma_arena_stability(buf: Seq<u8>, items: Seq<Seq<u8>>, i: int, k: int)
    requires
        0 <= i < items.len(),
        0 <= k < items[i].len(),
    ensures
        intern_offset(buf.len(), items, i) + k < after_interns(buf, items).len(),
        after_interns(buf, items)[intern_offset(buf.len(), items, i) + k] == items[i][k],
    decreases items.len(),
{
    let next = buf + items[0];
    if i == 0 {
        lemma_interns_extend(next, items.drop_first());
        let end = after_interns(buf, items);
        assert(end.subrange(0, next.len() as int)[buf.len() + k] == next[buf.len() + k]);
    } else {
        lemma_arena_stability(next, items.drop_first(), i - 1, k);
    }
}

} // verus!
