//! Byte-level helpers: comparison with keywords, trimming, and the reading of
//! integer literals.

use vstd::prelude::*;
use vstd::string::StringSliceAdditionalSpecFns;

verus! {

/// Whether `b` is one of the four white-space bytes of XML.
pub open spec fn is_space(b: u8) -> bool {
    b == 32 || b == 9 || b == 10 || b == 13
}

/// `s` without the white space at its start.
pub open spec fn trim_start(s: Seq<u8>) -> Seq<u8>
    decreases s.len(),
{
    if s.len() > 0 && is_space(s[0]) {
        trim_start(s.drop_first())
    } else {
        s
    }
}

/// `s` without the white space at its end.
pub open spec fn trim_end(s: Seq<u8>) -> Seq<u8>
    decreases s.len(),
{
    if s.len() > 0 && is_space(s.last()) {
        trim_end(s.drop_last())
    } else {
        s
    }
}

/// `s` without the white space at either end.
pub open spec fn trimmed(s: Seq<u8>) -> Seq<u8> {
    trim_end(trim_start(s))
}

/// The value of the digit `b` in base `radix`, where it is one.
pub open spec fn digit_value(b: u8, radix: nat) -> Option<nat> {
    let v: Option<nat> = if 48 <= b <= 57 {
        Some((b - 48) as nat)
    } else if 97 <= b <= 102 {
        Some((b - 87) as nat)
    } else if 65 <= b <= 70 {
        Some((b - 55) as nat)
    } else {
        None
    };
    match v {
        Some(d) => if d < radix {
            Some(d)
        } else {
            None
        },
        None => None,
    }
}

/// Whether every byte of `s` is a digit of base `radix`.
pub open spec fn all_digits(s: Seq<u8>, radix: nat) -> bool {
    forall|i: int| 0 <= i < s.len() ==> (#[trigger] digit_value(s[i], radix)).is_some()
}

/// The number that the digits `s` write in base `radix`.
pub open spec fn digits_value(s: Seq<u8>, radix: nat) -> nat
    decreases s.len(),
{
    if s.len() == 0 {
        0
    } else {
        digits_value(s.drop_last(), radix) * radix + match digit_value(s.last(), radix) {
            Some(d) => d,
            None => 0,
        }
    }
}

/// The number that `s` writes without a sign: decimal digits, or `0x` and
/// hexadecimal digits.
pub open spec fn unsigned_literal(s: Seq<u8>) -> Option<nat> {
    if s.len() > 2 && s[0] == 48 && (s[1] == 120 || s[1] == 88) {
        if all_digits(s.skip(2), 16) {
            Some(digits_value(s.skip(2), 16))
        } else {
            None
        }
    } else if s.len() > 0 && all_digits(s, 10) {
        Some(digits_value(s, 10))
    } else {
        None
    }
}

/// The integer that `s` writes: an unsigned literal, or `-` and one.
pub open spec fn int_literal(s: Seq<u8>) -> Option<int> {
    if s.len() > 0 && s[0] == 45 {
        match unsigned_literal(s.skip(1)) {
            Some(v) => Some(-(v as int)),
            None => None,
        }
    } else {
        match unsigned_literal(s) {
            Some(v) => Some(v as int),
            None => None,
        }
    }
}

/// Whether two runs of bytes are the same.
pub fn bytes_eq(a: &[u8], b: &[u8]) -> (same: bool)
    ensures
        same == (a@ == b@),
{
    if a.len() != b.len() {
        return false;
    }
    let n = a.len();
    let mut i: usize = 0;
    while i < n
        invariant
            i <= n,
            n == a@.len(),
            n == b@.len(),
            forall|j: int| 0 <= j < i ==> a@[j] == b@[j],
        decreases n - i,
    {
        if a[i] != b[i] {
            return false;
        }
        i += 1;
    }
    assert(a@ =~= b@);
    true
}

/// Whether `a` spells the keyword `word`.
pub fn is_word(a: &[u8], word: &str) -> (same: bool)
    ensures
        same == (a@ == word.spec_bytes()),
{
    bytes_eq(a, word.as_bytes())
}

proof fn lemma_trim_start_skip(s: Seq<u8>, i: int)
    requires
        0 <= i <= s.len(),
        forall|j: int| 0 <= j < i ==> is_space(s[j]),
    ensures
        trim_start(s) == trim_start(s.skip(i)),
    decreases i,
{
    if i == 0 {
        assert(s.skip(0) =~= s);
    } else {
        lemma_trim_start_skip(s.drop_first(), i - 1);
        assert(s.drop_first().skip(i - 1) =~= s.skip(i));
    }
}

proof fn lemma_trim_end_take(s: Seq<u8>, i: int)
    requires
        0 <= i <= s.len(),
        forall|j: int| i <= j < s.len() ==> is_space(s[j]),
    ensures
        trim_end(s) == trim_end(s.take(i)),
    decreases s.len() - i,
{
    if i == s.len() {
        assert(s.take(i) =~= s);
    } else {
        lemma_trim_end_take(s.drop_last(), i);
        assert(s.drop_last().take(i) =~= s.take(i));
    }
}

/// The bytes of `s` between the white space at its two ends.
pub fn trim(s: &[u8]) -> (out: &[u8])
    ensures
        out@ == trimmed(s@),
{
    let n = s.len();
    let mut start: usize = 0;
    while start < n && is_space_byte(s[start])
        invariant
            start <= n,
            n == s@.len(),
            forall|j: int| 0 <= j < start ==> is_space(s@[j]),
        decreases n - start,
    {
        start += 1;
    }
    let mut end: usize = n;
    while end > start && is_space_byte(s[end - 1])
        invariant
            start <= end <= n,
            n == s@.len(),
            forall|j: int| end <= j < n ==> is_space(s@[j]),
        decreases end,
    {
        end -= 1;
    }
    proof {
        lemma_trim_start_skip(s@, start as int);
        let rest = s@.skip(start as int);
        assert(trim_start(rest) == rest);
        assert forall|j: int| end - start <= j < rest.len() implies is_space(rest[j]) by {
            assert(rest[j] == s@[j + start]);
        }
        lemma_trim_end_take(rest, end - start);
        let core = rest.take(end - start);
        assert(core =~= s@.subrange(start as int, end as int));
        assert(trim_end(core) == core) by {
            if core.len() > 0 {
                assert(core.last() == s@[end - 1]);
            }
        }
    }
    vstd::slice::slice_subrange(s, start, end)
}

/// Whether `b` is a white-space byte.
pub fn is_space_byte(b: u8) -> (r: bool)
    ensures
        r == is_space(b),
{
    b == 32 || b == 9 || b == 10 || b == 13
}

fn digit_of(b: u8, radix: u64) -> (d: Option<u64>)
    requires
        radix == 10 || radix == 16,
    ensures
        d.is_some() == digit_value(b, radix as nat).is_some(),
        d matches Some(v) ==> digit_value(b, radix as nat) == Some(v as nat) && v < radix,
{
    let v: u64 = if 48 <= b && b <= 57 {
        (b - 48) as u64
    } else if 97 <= b && b <= 102 {
        (b - 87) as u64
    } else if 65 <= b && b <= 70 {
        (b - 55) as u64
    } else {
        return None;
    };
    if v < radix {
        Some(v)
    } else {
        None
    }
}

proof fn lemma_digits_prefix_le(s: Seq<u8>, radix: nat, i: int)
    requires
        0 <= i <= s.len(),
        radix >= 1,
    ensures
        digits_value(s.take(i), radix) <= digits_value(s, radix),
    decreases s.len() - i,
{
    if i == s.len() {
        assert(s.take(i) =~= s);
    } else {
        lemma_digits_prefix_le(s.drop_last(), radix, i);
        assert(s.drop_last().take(i) =~= s.take(i));
        assert(digits_value(s.drop_last(), radix) * radix >= digits_value(s.drop_last(), radix))
            by (nonlinear_arith)
            requires
                radix >= 1,
        ;
    }
}

/// Reads `s` as a run of digits of base `radix`; gives the number where every
/// byte is a digit and the number is at most `limit`.
fn read_digits(s: &[u8], radix: u64, limit: u128) -> (out: Option<u128>)
    requires
        radix == 10 || radix == 16,
        limit < 0x1000_0000_0000_0000_0000_0000_0000_0000,
    ensures
        out == (if all_digits(s@, radix as nat) && digits_value(s@, radix as nat) <= limit {
            Some(digits_value(s@, radix as nat) as u128)
        } else {
            None
        }),
{
    let n = s.len();
    let mut acc: u128 = 0;
    let mut i: usize = 0;
    while i < n
        invariant
            i <= n,
            n == s@.len(),
            radix == 10 || radix == 16,
            limit < 0x1000_0000_0000_0000_0000_0000_0000_0000,
            acc == digits_value(s@.take(i as int), radix as nat),
            acc <= limit,
            all_digits(s@.take(i as int), radix as nat),
        decreases n - i,
    {
        let d = match digit_of(s[i], radix) {
            Some(d) => d,
            None => {
                return None;
            },
        };
        assert(s@.take(i + 1).drop_last() =~= s@.take(i as int));
        assert(s@.take(i + 1).last() == s@[i as int]);
        assert(acc * radix + d <= limit * 16 + 15) by (nonlinear_arith)
            requires
                acc <= limit,
                radix <= 16,
                d < 16,
        ;
        let next: u128 = acc * (radix as u128) + (d as u128);
        assert(next == digits_value(s@.take(i + 1), radix as nat));
        if next > limit {
            proof {
                lemma_digits_prefix_le(s@, radix as nat, i + 1);
            }
            return None;
        }
        assert forall|j: int| 0 <= j < i + 1 implies (#[trigger] digit_value(
            s@.take(i + 1)[j],
            radix as nat,
        )).is_some() by {
            if j < i {
                assert(s@.take(i + 1)[j] == s@.take(i as int)[j]);
            }
        }
        acc = next;
        i += 1;
    }
    assert(s@.take(n as int) =~= s@);
    Some(acc)
}

/// The position of the first byte `b` in `s`.
pub open spec fn first_byte(s: Seq<u8>, b: u8) -> Option<int>
    decreases s.len(),
{
    if s.len() == 0 {
        None
    } else if s[0] == b {
        Some(0)
    } else {
        match first_byte(s.drop_first(), b) {
            Some(i) => Some(i + 1),
            None => None,
        }
    }
}

proof fn lemma_first_byte(s: Seq<u8>, b: u8, i: int)
    requires
        0 <= i <= s.len(),
        forall|j: int| 0 <= j < i ==> s[j] != b,
        i < s.len() ==> s[i] == b,
    ensures
        first_byte(s, b) == (if i < s.len() {
            Some(i)
        } else {
            None
        }),
    decreases i,
{
    if i > 0 {
        lemma_first_byte(s.drop_first(), b, i - 1);
    }
}

/// The position of the first byte `b` in `s`, if there is one.
pub fn find_byte(s: &[u8], b: u8) -> (at: Option<usize>)
    ensures
        at.is_some() == first_byte(s@, b).is_some(),
        at matches Some(i) ==> first_byte(s@, b) == Some(i as int) && i < s@.len(),
{
    let n = s.len();
    let mut i: usize = 0;
    while i < n
        invariant
            i <= n,
            n == s@.len(),
            forall|j: int| 0 <= j < i ==> s@[j] != b,
        decreases n - i,
    {
        if s[i] == b {
            proof {
                lemma_first_byte(s@, b, i as int);
            }
            return Some(i);
        }
        i += 1;
    }
    proof {
        lemma_first_byte(s@, b, n as int);
    }
    None
}

/// The number of bytes `b` in `s`.
pub open spec fn count_byte(s: Seq<u8>, b: u8) -> nat
    decreases s.len(),
{
    if s.len() == 0 {
        0
    } else {
        count_byte(s.drop_last(), b) + if s.last() == b {
            1nat
        } else {
            0nat
        }
    }
}

/// The number of bytes `b` in `s`.
pub fn count_of(s: &[u8], b: u8) -> (n: usize)
    ensures
        n == count_byte(s@, b),
{
    let len = s.len();
    let mut n: usize = 0;
    let mut i: usize = 0;
    while i < len
        invariant
            i <= len,
            len == s@.len(),
            n <= i,
            n == count_byte(s@.take(i as int), b),
        decreases len - i,
    {
        assert(s@.take(i + 1).drop_last() =~= s@.take(i as int));
        if s[i] == b {
            n += 1;
        }
        i += 1;
    }
    assert(s@.take(len as int) =~= s@);
    n
}

/// The number that `s` writes in decimal digits, where it is nothing else.
pub open spec fn decimal_literal(s: Seq<u8>) -> Option<nat> {
    if s.len() > 0 && all_digits(s, 10) {
        Some(digits_value(s, 10))
    } else {
        None
    }
}

/// Reads a run of decimal digits that writes a number of at most `limit`.
pub fn parse_decimal(s: &[u8], limit: u64) -> (out: Option<u64>)
    ensures
        out == (match decimal_literal(s@) {
            Some(v) => if v <= limit {
                Some(v as u64)
            } else {
                None
            },
            None => None,
        }),
{
    if s.len() > 0 {
        match read_digits(s, 10, limit as u128) {
            Some(v) => Some(v as u64),
            None => None,
        }
    } else {
        None
    }
}

/// Reads an unsigned literal that is at most `limit`, which leaves room for
/// one more digit in 128 bits.
pub fn parse_wide(s: &[u8], limit: u128) -> (out: Option<u128>)
    requires
        limit < 0x1000_0000_0000_0000_0000_0000_0000_0000,
    ensures
        out == (match unsigned_literal(s@) {
            Some(v) => if v <= limit {
                Some(v as u128)
            } else {
                None
            },
            None => None,
        }),
{
    let n = s.len();
    if n > 2 && s[0] == 48 && (s[1] == 120 || s[1] == 88) {
        let rest = vstd::slice::slice_subrange(s, 2, n);
        assert(rest@ =~= s@.skip(2));
        read_digits(rest, 16, limit)
    } else if n > 0 {
        read_digits(s, 10, limit)
    } else {
        None
    }
}

/// Reads an unsigned literal that is at most `limit`.
pub fn parse_unsigned(s: &[u8], limit: u64) -> (out: Option<u64>)
    ensures
        out == (match unsigned_literal(s@) {
            Some(v) => if v <= limit {
                Some(v as u64)
            } else {
                None
            },
            None => None,
        }),
{
    match parse_wide(s, limit as u128) {
        Some(v) => Some(v as u64),
        None => None,
    }
}

/// Reads an integer literal that fits an `isize`.
pub fn parse_int(s: &[u8]) -> (out: Option<isize>)
    ensures
        out == (match int_literal(s@) {
            Some(v) => if isize::MIN <= v <= isize::MAX {
                Some(v as isize)
            } else {
                None
            },
            None => None,
        }),
{
    let n = s.len();
    if n > 0 && s[0] == 45 {
        let rest = vstd::slice::slice_subrange(s, 1, n);
        assert(rest@ =~= s@.skip(1));
        match parse_unsigned(rest, isize::MAX as u64 + 1) {
            Some(v) => {
                if v == isize::MAX as u64 + 1 {
                    Some(isize::MIN)
                } else {
                    Some(-(v as isize))
                }
            },
            None => None,
        }
    } else {
        match parse_unsigned(s, isize::MAX as u64) {
            Some(v) => Some(v as isize),
            None => None,
        }
    }
}

} // verus!
