//! The wrapper that is emitted around a bitmask, for a flag word of 32 bits:
//! a set of flags, with the flags that the bitmask has.

use core::ops::BitAnd;
use core::ops::BitOr;
use core::ops::BitXor;
use core::ops::Not;
use core::ops::Sub;
use vstd::prelude::*;
use vstd::std_specs::ops::BitAndSpec;
use vstd::std_specs::ops::BitAndSpecImpl;
use vstd::std_specs::ops::BitOrSpec;
use vstd::std_specs::ops::BitXorSpec;
use vstd::std_specs::ops::NotSpec;
use vstd::std_specs::ops::SubSpec;
use vstd::std_specs::ops::BitOrSpecImpl;
use vstd::std_specs::ops::BitXorSpecImpl;
use vstd::std_specs::ops::NotSpecImpl;
use vstd::std_specs::ops::SubSpecImpl;

verus! {

/// A set of flags of a bitmask.
#[derive(Clone, Copy, Debug, PartialEq, Eq, Structural, Hash)]
pub struct WrappedFlags {
    flags: u32,
    all: u32,
}

/// Whether the bit at `i` is set in `word`.
pub open spec fn has_bit(word: u32, i: u32) -> bool {
    (word >> i) & 1 == 1
}

impl WrappedFlags {
    /// The flag word.
    pub closed spec fn word(self) -> u32 {
        self.flags
    }

    /// The flags that the bitmask has.
    pub closed spec fn known(self) -> u32 {
        self.all
    }

    /// No flag, of a bitmask that has the flags `all`.
    pub fn empty(all: u32) -> (out: Self)
        ensures
            out.word() == 0,
            out.known() == all,
    {
        WrappedFlags { flags: 0, all }
    }

    /// Every flag of a bitmask that has the flags `all`.
    pub fn all(all: u32) -> (out: Self)
        ensures
            out.word() == all,
            out.known() == all,
    {
        WrappedFlags { flags: all, all }
    }

    /// The flag word.
    pub fn flags(self) -> (word: u32)
        ensures
            word == self.word(),
    {
        self.flags
    }

    /// The flags of `flags`, unless it holds a bit that is no flag of the
    /// bitmask.
    pub fn from_flags(flags: u32, all: u32) -> (out: Option<Self>)
        ensures
            out.is_some() == (flags & !all == 0),
            out matches Some(f) ==> f.word() == flags && f.known() == all,
    {
        if flags & !all == 0 {
            Some(WrappedFlags { flags, all })
        } else {
            None
        }
    }

    /// The flags of `flags` that are flags of the bitmask.
    pub fn from_flags_truncate(flags: u32, all: u32) -> (out: Self)
        ensures
            out.word() == flags & all,
            out.known() == all,
    {
        WrappedFlags { flags: flags & all, all }
    }

    /// Whether no flag is set.
    pub fn is_empty(self) -> (b: bool)
        ensures
            b == (self.word() == 0),
    {
        self.flags == 0
    }

    /// Whether every flag of the bitmask is set.
    pub fn is_all(self) -> (b: bool)
        ensures
            b == (self.word() & self.known() == self.known()),
    {
        self.flags & self.all == self.all
    }

    /// Whether a flag of `other` is set.
    pub fn intersects(self, other: Self) -> (b: bool)
        ensures
            b == (self.word() & other.word() != 0),
    {
        self.flags & other.flags != 0
    }

    /// Whether every flag of `other` is set.
    pub fn subset(self, other: Self) -> (b: bool)
        ensures
            b == (self.word() & other.word() == other.word()),
    {
        self.flags & other.flags == other.flags
    }
}

impl BitOr for WrappedFlags {
    type Output = WrappedFlags;

    fn bitor(self, rhs: WrappedFlags) -> (out: WrappedFlags) {
        WrappedFlags { flags: self.flags | rhs.flags, all: self.all }
    }
}

impl BitOrSpecImpl for WrappedFlags {
    open spec fn obeys_bitor_spec() -> bool {
        true
    }

    open spec fn bitor_req(self, rhs: WrappedFlags) -> bool {
        true
    }

    closed spec fn bitor_spec(self, rhs: WrappedFlags) -> WrappedFlags {
        WrappedFlags { flags: self.flags | rhs.flags, all: self.all }
    }
}

impl BitAnd for WrappedFlags {
    type Output = WrappedFlags;

    fn bitand(self, rhs: WrappedFlags) -> (out: WrappedFlags) {
        WrappedFlags { flags: self.flags & rhs.flags, all: self.all }
    }
}

impl BitAndSpecImpl for WrappedFlags {
    open spec fn obeys_bitand_spec() -> bool {
        true
    }

    open spec fn bitand_req(self, rhs: WrappedFlags) -> bool {
        true
    }

    closed spec fn bitand_spec(self, rhs: WrappedFlags) -> WrappedFlags {
        WrappedFlags { flags: self.flags & rhs.flags, all: self.all }
    }
}

impl BitXor for WrappedFlags {
    type Output = WrappedFlags;

    fn bitxor(self, rhs: WrappedFlags) -> (out: WrappedFlags) {
        WrappedFlags { flags: self.flags ^ rhs.flags, all: self.all }
    }
}

impl BitXorSpecImpl for WrappedFlags {
    open spec fn obeys_bitxor_spec() -> bool {
        true
    }

    open spec fn bitxor_req(self, rhs: WrappedFlags) -> bool {
        true
    }

    closed spec fn bitxor_spec(self, rhs: WrappedFlags) -> WrappedFlags {
        WrappedFlags { flags: self.flags ^ rhs.flags, all: self.all }
    }
}

impl Sub for WrappedFlags {
    type Output = WrappedFlags;

    fn sub(self, rhs: WrappedFlags) -> (out: WrappedFlags) {
        WrappedFlags { flags: self.flags & !rhs.flags, all: self.all }
    }
}

impl SubSpecImpl for WrappedFlags {
    open spec fn obeys_sub_spec() -> bool {
        true
    }

    open spec fn sub_req(self, rhs: WrappedFlags) -> bool {
        true
    }

    closed spec fn sub_spec(self, rhs: WrappedFlags) -> WrappedFlags {
        WrappedFlags { flags: self.flags & !rhs.flags, all: self.all }
    }
}

impl Not for WrappedFlags {
    type Output = WrappedFlags;

    fn not(self) -> (out: WrappedFlags) {
        WrappedFlags { flags: self.flags ^ self.all, all: self.all }
    }
}

impl NotSpecImpl for WrappedFlags {
    open spec fn obeys_not_spec() -> bool {
        true
    }

    open spec fn not_req(self) -> bool {
        true
    }

    closed spec fn not_spec(self) -> WrappedFlags {
        WrappedFlags { flags: self.flags ^ self.all, all: self.all }
    }
}

/// What the operators give, on the flag words: `|` gives the bits of either
/// operand, `&` the bits of both, `^` the bits of one of them alone, `-` the
/// bits of the first that the second lacks, and `!` the flags of the bitmask
/// that the operand lacks.
pub proof fn lemma_operators(a: WrappedFlags, b: WrappedFlags)
    ensures
        BitOrSpec::bitor_spec(a, b).word() == a.word() | b.word(),
        BitAndSpec::bitand_spec(a, b).word() == a.word() & b.word(),
        BitXorSpec::bitxor_spec(a, b).word() == a.word() ^ b.word(),
        SubSpec::sub_spec(a, b).word() == a.word() & !b.word(),
        NotSpec::not_spec(a).word() == a.word() ^ a.known(),
        BitOrSpec::bitor_spec(a, b).known() == a.known(),
        SubSpec::sub_spec(a, b).known() == a.known(),
{
}

/// The operators on single flags: a flag is set in `a | b` where it is set
/// in `a` or in `b`, and in `a - b` where it is set in `a` and not in `b`.
pub proof fn lemma_union_and_difference(
    a: WrappedFlags,
    b: WrappedFlags,
    i: u32,
)
    requires
        i < 32,
    ensures
        has_bit(BitOrSpec::bitor_spec(a, b).word(), i) == (has_bit(a.word(), i) || has_bit(b.word(), i)),
        has_bit(SubSpec::sub_spec(a, b).word(), i) == (has_bit(a.word(), i) && !has_bit(b.word(), i)),
{
    let x = a.word();
    let y = b.word();
    assert(((x | y) >> i) & 1 == 1 <==> ((x >> i) & 1 == 1 || (y >> i) & 1 == 1)) by (bit_vector)
        requires
            i < 32,
    ;
    assert(((x & !y) >> i) & 1 == 1 <==> ((x >> i) & 1 == 1 && !((y >> i) & 1 == 1)))
        by (bit_vector)
        requires
            i < 32,
    ;
}

} // verus!
