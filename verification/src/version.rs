//! Versions of the core API.

use crate::text::decimal_literal;
use crate::text::find_byte;
use crate::text::first_byte;
use crate::text::parse_decimal;
use vstd::prelude::*;
use vstd::string::StringSliceAdditionalSpecFns;

verus! {

/// A version of the core API: major, then minor.
#[derive(Clone, Copy, Debug, PartialEq, Eq, Structural, Hash)]
pub struct VkVersion(pub u16, pub u16);

/// The number that one component of a version writes: decimal digits, with
/// or without a `+` before them, that give a number of 16 bits.
pub open spec fn version_component(s: Seq<u8>) -> Option<u16> {
    let digits = if s.len() > 0 && s[0] == 43 {
        s.skip(1)
    } else {
        s
    };
    match decimal_literal(digits) {
        Some(v) => if v <= u16::MAX {
            Some(v as u16)
        } else {
            None
        },
        None => None,
    }
}

/// The version that `s` writes: a major number alone, which leaves the minor
/// number zero, or a major and a minor number with one `.` between them.
pub open spec fn version_literal(s: Seq<u8>) -> Option<VkVersion> {
    match first_byte(s, 46) {
        None => match version_component(s) {
            Some(major) => Some(VkVersion(major, 0)),
            None => None,
        },
        Some(dot) => match (version_component(s.take(dot)), version_component(s.skip(dot + 1))) {
            (Some(major), Some(minor)) => Some(VkVersion(major, minor)),
            _ => None,
        },
    }
}

fn parse_component(s: &[u8]) -> (out: Option<u16>)
    ensures
        out == version_component(s@),
{
    let n = s.len();
    let digits = if n > 0 && s[0] == 43 {
        vstd::slice::slice_subrange(s, 1, n)
    } else {
        s
    };
    assert(n > 0 && s@[0] == 43 ==> digits@ =~= s@.skip(1));
    match parse_decimal(digits, 65535) {
        Some(v) => Some(v as u16),
        None => None,
    }
}

impl VkVersion {
    /// Reads a version from its bytes, where they write one.
    pub fn parse(num: &[u8]) -> (out: Option<VkVersion>)
        ensures
            out == version_literal(num@),
    {
        match find_byte(num, 46) {
            None => match parse_component(num) {
                Some(major) => Some(VkVersion(major, 0)),
                None => None,
            },
            Some(dot) => {
                let n = num.len();
                let head = vstd::slice::slice_subrange(num, 0, dot);
                let tail = vstd::slice::slice_subrange(num, dot + 1, n);
                assert(head@ =~= num@.take(dot as int));
                assert(tail@ =~= num@.skip(dot + 1));
                match (parse_component(head), parse_component(tail)) {
                    (Some(major), Some(minor)) => Some(VkVersion(major, minor)),
                    _ => None,
                }
            },
        }
    }

    /// Reads the version that `num` writes, such as `1.0`.
    pub fn from_str(num: &str) -> (out: Self)
        requires
            version_literal(num.spec_bytes()).is_some(),
        ensures
            Some(out) == version_literal(num.spec_bytes()),
    {
        match VkVersion::parse(num.as_bytes()) {
            Some(v) => v,
            None => VkVersion(0, 0),
        }
    }

    /// Whether this version is no later than `other`.
    pub open spec fn at_most(self, other: VkVersion) -> bool {
        self.0 < other.0 || (self.0 == other.0 && self.1 <= other.1)
    }

    /// Whether this version is no later than `other`.
    pub fn le(&self, other: &VkVersion) -> (b: bool)
        ensures
            b == self.at_most(*other),
    {
        self.0 < other.0 || (self.0 == other.0 && self.1 <= other.1)
    }
}

} // verus!
