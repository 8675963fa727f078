//! The reading of the declaration of a function pointer, which the registry
//! gives as the text of a C `typedef`: the return type, and the type of each
//! parameter.

use crate::text::count_byte;
use crate::text::count_of;
use crate::text::find_byte;
use crate::text::first_byte;
use crate::text::is_space;
use crate::text::is_space_byte;
use crate::text::is_word;
use vstd::prelude::*;
use vstd::string::StringSliceAdditionalSpecFns;

verus! {

/// What a phrase of C says of a type: whether it is `const`, the name of the
/// type, and the number of `*` after it.
pub struct PhraseView {
    pub konst: bool,
    pub name: Seq<u8>,
    pub stars: nat,
}

/// What a phrase of C says of a type.
#[derive(Clone, Debug, PartialEq, Eq)]
pub struct Phrase {
    pub konst: bool,
    pub name: Vec<u8>,
    pub stars: usize,
}

impl View for Phrase {
    type V = PhraseView;

    open spec fn view(&self) -> PhraseView {
        PhraseView { konst: self.konst, name: self.name@, stars: self.stars as nat }
    }
}

/// The views of the phrases of `v`.
pub open spec fn phrases_view(v: Seq<Phrase>) -> Seq<PhraseView> {
    Seq::new(v.len(), |i: int| v[i]@)
}

/// Whether `b` stands between words: white space, `*`, a bracket, `,` or
/// `;`.
pub open spec fn gap_byte(b: u8) -> bool {
    is_space(b) || b == 42 || b == 40 || b == 41 || b == 44 || b == 59
}

/// The number of bytes between words at the start of `s`.
pub open spec fn gap_len(s: Seq<u8>) -> nat
    decreases s.len(),
{
    if s.len() > 0 && gap_byte(s[0]) {
        1 + gap_len(s.drop_first())
    } else {
        0
    }
}

/// The length of the word at the start of `s`.
pub open spec fn word_len(s: Seq<u8>) -> nat
    decreases s.len(),
{
    if s.len() > 0 && !gap_byte(s[0]) {
        1 + word_len(s.drop_first())
    } else {
        0
    }
}

/// Whether the word `w` says nothing of which type is meant.
pub open spec fn filler(w: Seq<u8>) -> bool {
    w == "const".spec_bytes() || w == "struct".spec_bytes() || w == "typedef".spec_bytes()
}

proof fn lemma_lens(s: Seq<u8>)
    ensures
        gap_len(s) <= s.len(),
        word_len(s) <= s.len(),
        gap_len(s) < s.len() ==> !gap_byte(s[gap_len(s) as int]),
        s.len() > 0 && !gap_byte(s[0]) ==> word_len(s) >= 1,
    decreases s.len(),
{
    if s.len() > 0 {
        lemma_lens(s.drop_first());
        if gap_byte(s[0]) && gap_len(s) < s.len() {
            assert(s.drop_first()[gap_len(s.drop_first()) as int] == s[gap_len(s) as int]);
        }
    }
}

/// The first word of `s` that is no filler: the name of the type that the
/// phrase means. Empty where there is none.
pub open spec fn type_word(s: Seq<u8>) -> Seq<u8>
    decreases s.len(),
    via type_word_decreases
{
    let t = s.skip(gap_len(s) as int);
    if gap_len(s) >= s.len() {
        Seq::empty()
    } else if filler(t.take(word_len(t) as int)) {
        type_word(t.skip(word_len(t) as int))
    } else {
        t.take(word_len(t) as int)
    }
}

#[via_fn]
proof fn type_word_decreases(s: Seq<u8>) {
    lemma_lens(s);
    if gap_len(s) < s.len() {
        let t = s.skip(gap_len(s) as int);
        lemma_lens(t);
    }
}

/// Whether the word `const` stands before the name of the type.
pub open spec fn const_first(s: Seq<u8>) -> bool
    decreases s.len(),
    via const_first_decreases
{
    let t = s.skip(gap_len(s) as int);
    if gap_len(s) >= s.len() {
        false
    } else if t.take(word_len(t) as int) == "const".spec_bytes() {
        true
    } else if filler(t.take(word_len(t) as int)) {
        const_first(t.skip(word_len(t) as int))
    } else {
        false
    }
}

#[via_fn]
proof fn const_first_decreases(s: Seq<u8>) {
    lemma_lens(s);
    if gap_len(s) < s.len() {
        let t = s.skip(gap_len(s) as int);
        lemma_lens(t);
    }
}

/// What the phrase `s` says of a type.
pub open spec fn phrase(s: Seq<u8>) -> PhraseView {
    PhraseView { konst: const_first(s), name: type_word(s), stars: count_byte(s, 42) }
}

/// Whether the phrase names a parameter: it names a type, and is not `void`
/// alone, which stands for no parameter.
pub open spec fn names_parameter(p: PhraseView) -> bool {
    p.name.len() > 0 && !(p.name == "void".spec_bytes() && p.stars == 0)
}

/// The parameters that the text `region` declares, one between each two
/// commas.
pub open spec fn parameters(region: Seq<u8>) -> Seq<PhraseView>
    decreases region.len(),
    via parameters_decreases
{
    let head = match first_byte(region, 44) {
        Some(i) => phrase(region.take(i)),
        None => phrase(region),
    };
    let one = if names_parameter(head) {
        seq![head]
    } else {
        Seq::empty()
    };
    match first_byte(region, 44) {
        Some(i) => one + parameters(region.skip(i + 1)),
        None => one,
    }
}

/// The first byte `b` of `s`, where there is one, is a place of `s`.
pub proof fn lemma_first_byte_in_range(s: Seq<u8>, b: u8)
    ensures
        first_byte(s, b) matches Some(i) ==> 0 <= i < s.len() && s[i] == b,
    decreases s.len(),
{
    if s.len() > 0 && s[0] != b {
        lemma_first_byte_in_range(s.drop_first(), b);
    }
}

#[via_fn]
proof fn parameters_decreases(region: Seq<u8>) {
    lemma_first_byte_in_range(region, 44);
}

/// What the text of the declaration of a function pointer says: first of the
/// return type, which stands before the first `(`, then of each parameter,
/// which stand after the second `(`.
pub open spec fn signature(text: Seq<u8>) -> Seq<PhraseView> {
    match first_byte(text, 40) {
        None => seq![phrase(text)],
        Some(p) => {
            let rest = text.skip(p + 1);
            match first_byte(rest, 40) {
                None => seq![phrase(text.take(p))],
                Some(q) => seq![phrase(text.take(p))] + parameters(rest.skip(q + 1)),
            }
        },
    }
}

fn is_gap(b: u8) -> (r: bool)
    ensures
        r == gap_byte(b),
{
    is_space_byte(b) || b == 42 || b == 40 || b == 41 || b == 44 || b == 59
}

proof fn lemma_gap_len_run(s: Seq<u8>, n: int)
    requires
        0 <= n <= s.len(),
        forall|j: int| 0 <= j < n ==> gap_byte(s[j]),
        n < s.len() ==> !gap_byte(s[n]),
    ensures
        gap_len(s) == n,
    decreases n,
{
    if n > 0 {
        lemma_gap_len_run(s.drop_first(), n - 1);
    }
}

proof fn lemma_word_len_run(s: Seq<u8>, n: int)
    requires
        0 <= n <= s.len(),
        forall|j: int| 0 <= j < n ==> !gap_byte(s[j]),
        n < s.len() ==> gap_byte(s[n]),
    ensures
        word_len(s) == n,
    decreases n,
{
    if n > 0 {
        lemma_word_len_run(s.drop_first(), n - 1);
    }
}

fn gap_end(s: &[u8], from: usize) -> (to: usize)
    requires
        from <= s@.len(),
    ensures
        from <= to <= s@.len(),
        to - from == gap_len(s@.skip(from as int)),
{
    let n = s.len();
    let mut to = from;
    while to < n && is_gap(s[to])
        invariant
            from <= to <= n,
            n == s@.len(),
            forall|j: int| from <= j < to ==> gap_byte(s@[j]),
        decreases n - to,
    {
        to += 1;
    }
    proof {
        lemma_gap_len_run(s@.skip(from as int), to - from);
    }
    to
}

fn word_end(s: &[u8], from: usize) -> (to: usize)
    requires
        from <= s@.len(),
    ensures
        from <= to <= s@.len(),
        to - from == word_len(s@.skip(from as int)),
{
    let n = s.len();
    let mut to = from;
    while to < n && !is_gap(s[to])
        invariant
            from <= to <= n,
            n == s@.len(),
            forall|j: int| from <= j < to ==> !gap_byte(s@[j]),
        decreases n - to,
    {
        to += 1;
    }
    proof {
        lemma_word_len_run(s@.skip(from as int), to - from);
    }
    to
}

/// What the phrase `s` says of a type.
pub fn phrase_of(s: &[u8]) -> (p: Phrase)
    ensures
        p@ == phrase(s@),
{
    let n = s.len();
    let mut konst = false;
    let mut name: Vec<u8> = Vec::new();
    let mut at: usize = 0;
    let mut done = false;
    assert(s@.skip(0) =~= s@);
    while !done
        invariant
            at <= n,
            n == s@.len(),
            !done ==> name@.len() == 0,
            !done ==> type_word(s@.skip(at as int)) == type_word(s@),
            !done && !konst ==> const_first(s@.skip(at as int)) == const_first(s@),
            konst ==> const_first(s@),
            done ==> name@ == type_word(s@),
            done && !konst ==> !const_first(s@),
        decreases n - at, if done { 0int } else { 1int },
    {
        let ghost rest = s@.skip(at as int);
        let start = gap_end(s, at);
        if start >= n {
            done = true;
        } else {
            let end = word_end(s, start);
            let word = vstd::slice::slice_subrange(s, start, end);
            proof {
                let t = rest.skip(gap_len(rest) as int);
                assert(t =~= s@.skip(start as int));
                assert(word@ =~= t.take(word_len(t) as int));
                assert(t.skip(word_len(t) as int) =~= s@.skip(end as int));
                lemma_lens(t);
                lemma_lens(rest);
            }
            if is_word(word, "const") {
                konst = true;
                at = end;
            } else if is_word(word, "struct") || is_word(word, "typedef") {
                at = end;
            } else {
                name = vstd::slice::slice_to_vec(word);
                done = true;
            }
        }
    }
    Phrase { konst, name, stars: count_of(s, 42) }
}

fn is_parameter(p: &Phrase) -> (r: bool)
    ensures
        r == names_parameter(p@),
{
    p.name.len() > 0 && !(is_word(p.name.as_slice(), "void") && p.stars == 0)
}

/// What the text of the declaration of a function pointer says of its return
/// type and of each of its parameters.
pub fn signature_of(text: &[u8]) -> (out: Vec<Phrase>)
    ensures
        phrases_view(out@) == signature(text@),
        out@.len() >= 1,
{
    let n = text.len();
    let mut out: Vec<Phrase> = Vec::new();
    let p = match find_byte(text, 40) {
        None => {
            out.push(phrase_of(text));
            assert(phrases_view(out@) =~= signature(text@));
            return out;
        },
        Some(p) => p,
    };
    let head = vstd::slice::slice_subrange(text, 0, p);
    assert(head@ =~= text@.take(p as int));
    out.push(phrase_of(head));
    let rest = vstd::slice::slice_subrange(text, p + 1, n);
    assert(rest@ =~= text@.skip(p + 1));
    let q = match find_byte(rest, 40) {
        None => {
            assert(phrases_view(out@) =~= signature(text@));
            return out;
        },
        Some(q) => q,
    };
    let mut region = vstd::slice::slice_subrange(rest, q + 1, rest.len());
    assert(region@ =~= rest@.skip(q + 1));
    let ghost whole = region@;
    let ghost first = phrases_view(out@);
    assert(first =~= seq![phrase(text@.take(p as int))]);
    let mut more = true;
    while more
        invariant
            out@.len() >= 1,
            more ==> phrases_view(out@) + parameters(region@) == first + parameters(whole),
            !more ==> phrases_view(out@) == first + parameters(whole),
        decreases region@.len(), if more { 1int } else { 0int },
    {
        let ghost before = phrases_view(out@);
        let ghost given = region@;
        let len = region.len();
        match find_byte(region, 44) {
            Some(i) => {
                let piece = vstd::slice::slice_subrange(region, 0, i);
                assert(piece@ =~= region@.take(i as int));
                let ph = phrase_of(piece);
                if is_parameter(&ph) {
                    out.push(ph);
                    assert(phrases_view(out@) =~= before + seq![phrase(given.take(i as int))]);
                }
                let next = vstd::slice::slice_subrange(region, i + 1, len);
                assert(next@ =~= given.skip(i + 1));
                region = next;
                assert(phrases_view(out@) + parameters(region@) =~= before + parameters(given));
            },
            None => {
                let ph = phrase_of(region);
                if is_parameter(&ph) {
                    out.push(ph);
                    assert(phrases_view(out@) =~= before + seq![phrase(given)]);
                }
                assert(phrases_view(out@) =~= before + parameters(given));
                more = false;
            },
        }
    }
    assert(signature(text@) =~= first + parameters(whole));
    out
}

} // verus!
