//! The rewriting of identifiers: prefixes are taken off and the casing is
//! changed to what the target language is used to.

use crate::text::bytes_eq;
use vstd::prelude::*;
use vstd::string::StringSliceAdditionalSpecFns;

verus! {

/// Whether `b` is an upper-case letter.
pub open spec fn is_upper(b: u8) -> bool {
    65 <= b <= 90
}

/// Whether `b` is a lower-case letter.
pub open spec fn is_lower(b: u8) -> bool {
    97 <= b <= 122
}

/// Whether `b` is a decimal digit.
pub open spec fn is_digit(b: u8) -> bool {
    48 <= b <= 57
}

/// The lower-case form of `b`.
pub open spec fn lower(b: u8) -> u8 {
    if is_upper(b) {
        (b + 32) as u8
    } else {
        b
    }
}

/// The upper-case form of `b`.
pub open spec fn upper(b: u8) -> u8 {
    if is_lower(b) {
        (b - 32) as u8
    } else {
        b
    }
}

/// Whether `s` starts with `p`.
pub open spec fn starts_with(s: Seq<u8>, p: Seq<u8>) -> bool {
    p.len() <= s.len() && s.take(p.len() as int) == p
}

/// `s` without the prefix `p`, where it starts with it and is longer.
pub open spec fn without_prefix(s: Seq<u8>, p: Seq<u8>) -> Seq<u8> {
    if starts_with(s, p) && p.len() < s.len() {
        s.skip(p.len() as int)
    } else {
        s
    }
}

/// The snake-case form of a camel-case name: each upper-case letter becomes
/// lower case, with an underscore before it where it follows a lower-case
/// letter or a digit.
pub open spec fn snake(s: Seq<u8>) -> Seq<u8>
    decreases s.len(),
{
    if s.len() == 0 {
        s
    } else {
        let head = snake(s.drop_last());
        let b = s.last();
        if is_upper(b) && s.len() >= 2 && (is_lower(s[s.len() - 2]) || is_digit(s[s.len() - 2])) {
            head.push(95).push(lower(b))
        } else {
            head.push(lower(b))
        }
    }
}

/// The upper-case form of `s`.
pub open spec fn shout(s: Seq<u8>) -> Seq<u8> {
    Seq::new(s.len(), |i: int| upper(s[i]))
}

/// The camel-case form of an upper-case name with underscores: the
/// underscores go, the first letter of each part stays upper case and the
/// others become lower case.
pub open spec fn camel(s: Seq<u8>) -> Seq<u8>
    decreases s.len(),
{
    if s.len() == 0 {
        s
    } else {
        let head = camel(s.drop_last());
        let b = s.last();
        if b == 95 {
            head
        } else if s.len() == 1 || s[s.len() - 2] == 95 {
            head.push(upper(b))
        } else {
            head.push(lower(b))
        }
    }
}

/// The prefix that the variants of the enum named `owner` have by the
/// naming rules: the name in upper case with underscores, and one more
/// underscore.
pub open spec fn derived_prefix(owner: Seq<u8>) -> Seq<u8> {
    shout(snake(owner)).push(95)
}

/// The number of bytes at the start of `a` that `b` starts with too.
pub open spec fn common_len(a: Seq<u8>, b: Seq<u8>) -> nat
    decreases a.len(),
{
    if a.len() == 0 || b.len() == 0 || a[0] != b[0] {
        0
    } else {
        1 + common_len(a.drop_first(), b.drop_first())
    }
}

/// The number of bytes that the first `upto` names of `names` (which is not
/// empty) have in common at their start.
pub open spec fn shared_len(names: Seq<Seq<u8>>, upto: int) -> nat
    decreases upto,
{
    if upto <= 0 || upto > names.len() {
        if names.len() > 0 {
            names[0].len()
        } else {
            0
        }
    } else {
        let rest = shared_len(names, upto - 1);
        let here = common_len(names[0], names[upto - 1]);
        if here < rest {
            here
        } else {
            rest
        }
    }
}

/// The length of the longest prefix of `s` of at most `n` bytes that is
/// empty or ends in an underscore.
pub open spec fn cut_at_underscore(s: Seq<u8>, n: int) -> int
    decreases n,
{
    if n <= 0 || n > s.len() {
        0
    } else if s[n - 1] == 95 {
        n
    } else {
        cut_at_underscore(s, n - 1)
    }
}

/// The length of the prefix that the names of the variants of a bitmask
/// share: what they have in common at their start, up to the last
/// underscore in it.
pub open spec fn shared_prefix_len(names: Seq<Seq<u8>>) -> int {
    if names.len() == 0 {
        0
    } else {
        cut_at_underscore(names[0], shared_len(names, names.len() as int) as int)
    }
}

/// Whether `s` can stand as an identifier: it is not empty and does not
/// start with a digit.
pub open spec fn usable(s: Seq<u8>) -> bool {
    s.len() > 0 && !is_digit(s[0])
}

/// A name that is a keyword of the target language gets an underscore at its
/// end.
pub open spec fn escaped(s: Seq<u8>) -> Seq<u8> {
    if s == "type".spec_bytes() {
        s.push(95)
    } else {
        s
    }
}

pub fn is_upper_byte(b: u8) -> (r: bool)
    ensures
        r == is_upper(b),
{
    65 <= b && b <= 90
}

pub fn is_lower_byte(b: u8) -> (r: bool)
    ensures
        r == is_lower(b),
{
    97 <= b && b <= 122
}

pub fn is_digit_byte(b: u8) -> (r: bool)
    ensures
        r == is_digit(b),
{
    48 <= b && b <= 57
}

pub fn lower_byte(b: u8) -> (r: u8)
    ensures
        r == lower(b),
{
    if 65 <= b && b <= 90 {
        b + 32
    } else {
        b
    }
}

pub fn upper_byte(b: u8) -> (r: u8)
    ensures
        r == upper(b),
{
    if 97 <= b && b <= 122 {
        b - 32
    } else {
        b
    }
}

/// Whether `s` starts with `p`.
pub fn has_prefix(s: &[u8], p: &[u8]) -> (r: bool)
    ensures
        r == starts_with(s@, p@),
{
    if p.len() > s.len() {
        return false;
    }
    let head = vstd::slice::slice_subrange(s, 0, p.len());
    assert(head@ =~= s@.take(p@.len() as int));
    bytes_eq(head, p)
}

/// `s` without the prefix `p`, where it starts with it and is longer.
pub fn strip_prefix<'a>(s: &'a [u8], p: &[u8]) -> (out: &'a [u8])
    ensures
        out@ == without_prefix(s@, p@),
{
    if has_prefix(s, p) && p.len() < s.len() {
        let out = vstd::slice::slice_subrange(s, p.len(), s.len());
        assert(out@ =~= s@.skip(p@.len() as int));
        out
    } else {
        s
    }
}

/// The snake-case form of `s`.
pub fn snake_case(s: &[u8]) -> (out: Vec<u8>)
    ensures
        out@ == snake(s@),
{
    let mut out: Vec<u8> = Vec::new();
    let n = s.len();
    let mut i: usize = 0;
    while i < n
        invariant
            i <= n,
            n == s@.len(),
            out@ == snake(s@.take(i as int)),
        decreases n - i,
    {
        let b = s[i];
        let ghost next = s@.take(i + 1);
        assert(next.drop_last() =~= s@.take(i as int));
        assert(next.last() == b);
        if is_upper_byte(b) && i >= 1 && (is_lower_byte(s[i - 1]) || is_digit_byte(s[i - 1])) {
            assert(next[next.len() - 2] == s@[i - 1]);
            out.push(95);
            out.push(lower_byte(b));
        } else {
            assert(i >= 1 ==> next[next.len() - 2] == s@[i - 1]);
            out.push(lower_byte(b));
        }
        i += 1;
    }
    assert(s@.take(n as int) =~= s@);
    out
}

/// The upper-case form of `s`.
pub fn shout_case(s: &[u8]) -> (out: Vec<u8>)
    ensures
        out@ == shout(s@),
{
    let mut out: Vec<u8> = Vec::new();
    let n = s.len();
    let mut i: usize = 0;
    while i < n
        invariant
            i <= n,
            n == s@.len(),
            out@ == shout(s@.take(i as int)),
        decreases n - i,
    {
        out.push(upper_byte(s[i]));
        i += 1;
        assert(out@ =~= shout(s@.take(i as int)));
    }
    assert(s@.take(n as int) =~= s@);
    out
}

/// The camel-case form of `s`.
pub fn camel_case(s: &[u8]) -> (out: Vec<u8>)
    ensures
        out@ == camel(s@),
{
    let mut out: Vec<u8> = Vec::new();
    let n = s.len();
    let mut i: usize = 0;
    while i < n
        invariant
            i <= n,
            n == s@.len(),
            out@ == camel(s@.take(i as int)),
        decreases n - i,
    {
        let b = s[i];
        let ghost next = s@.take(i + 1);
        assert(next.drop_last() =~= s@.take(i as int));
        assert(next.last() == b);
        assert(i >= 1 ==> next[next.len() - 2] == s@[i - 1]);
        if b == 95 {
        } else if i == 0 || s[i - 1] == 95 {
            out.push(upper_byte(b));
        } else {
            out.push(lower_byte(b));
        }
        i += 1;
    }
    assert(s@.take(n as int) =~= s@);
    out
}

/// The prefix that the variants of the enum named `owner` have by the
/// naming rules.
pub fn derived_prefix_of(owner: &[u8]) -> (out: Vec<u8>)
    ensures
        out@ == derived_prefix(owner@),
{
    let lowered = snake_case(owner);
    let mut out = shout_case(lowered.as_slice());
    out.push(95);
    out
}

proof fn lemma_common_len_step(a: Seq<u8>, b: Seq<u8>, i: int)
    requires
        0 <= i <= a.len(),
        i <= b.len(),
        forall|j: int| 0 <= j < i ==> a[j] == b[j],
    ensures
        common_len(a, b) == i + common_len(a.skip(i), b.skip(i)),
    decreases i,
{
    if i == 0 {
        assert(a.skip(0) =~= a);
        assert(b.skip(0) =~= b);
    } else {
        lemma_common_len_step(a.drop_first(), b.drop_first(), i - 1);
        assert(a.drop_first().skip(i - 1) =~= a.skip(i));
        assert(b.drop_first().skip(i - 1) =~= b.skip(i));
    }
}

/// The number of bytes at the start of `a` that `b` starts with too.
pub fn common_len_of(a: &[u8], b: &[u8]) -> (n: usize)
    ensures
        n == common_len(a@, b@),
        n <= a@.len(),
        n <= b@.len(),
{
    let la = a.len();
    let lb = b.len();
    let mut i: usize = 0;
    while i < la && i < lb && a[i] == b[i]
        invariant
            i <= la,
            i <= lb,
            la == a@.len(),
            lb == b@.len(),
            forall|j: int| 0 <= j < i ==> a@[j] == b@[j],
        decreases la - i,
    {
        i += 1;
    }
    proof {
        lemma_common_len_step(a@, b@, i as int);
        if i < la && i < lb {
            assert(a@.skip(i as int)[0] == a@[i as int]);
            assert(b@.skip(i as int)[0] == b@[i as int]);
        }
    }
    i
}

/// The views of the names of `v`.
pub open spec fn names_of(v: Seq<Vec<u8>>) -> Seq<Seq<u8>> {
    Seq::new(v.len(), |i: int| v[i]@)
}

/// The length of the prefix that the names `names` share, up to the last
/// underscore in it.
pub fn shared_prefix(names: &Vec<Vec<u8>>) -> (n: usize)
    ensures
        n == shared_prefix_len(names_of(names@)),
        names@.len() > 0 ==> n <= names@[0]@.len(),
{
    let count = names.len();
    if count == 0 {
        return 0;
    }
    let first = names[0].as_slice();
    let ghost all = names_of(names@);
    assert(all[0] == names@[0]@);
    let mut shared: usize = first.len();
    let mut i: usize = 0;
    while i < count
        invariant
            i <= count,
            count == names@.len(),
            count > 0,
            all == names_of(names@),
            first@ == names@[0]@,
            shared == shared_len(all, i as int),
            shared <= first@.len(),
        decreases count - i,
    {
        assert(all[i as int] == names@[i as int]@);
        let here = common_len_of(first, names[i].as_slice());
        if here < shared {
            shared = here;
        }
        i += 1;
    }
    let mut cut: usize = shared;
    while cut > 0 && first[cut - 1] != 95
        invariant
            cut <= shared,
            shared <= first@.len(),
            cut_at_underscore(first@, cut as int) == cut_at_underscore(first@, shared as int),
        decreases cut,
    {
        cut -= 1;
    }
    cut
}

/// Whether `s` can stand as an identifier.
pub fn is_usable(s: &[u8]) -> (r: bool)
    ensures
        r == usable(s@),
{
    s.len() > 0 && !is_digit_byte(s[0])
}

/// Appends an underscore to a name that is a keyword of the target language.
pub fn escape(s: Vec<u8>) -> (out: Vec<u8>)
    ensures
        out@ == escaped(s@),
{
    let mut s = s;
    if crate::text::is_word(s.as_slice(), "type") {
        s.push(95);
    }
    s
}

} // verus!
