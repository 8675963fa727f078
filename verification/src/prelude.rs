//! The fixed text of the emitted source: what every output starts with, and
//! the frame of the loader.

use vstd::prelude::*;

verus! {

/// The declarations that every output starts with: the function that an
/// empty slot points to, and the wrappers for handles and for bitmasks.
pub const COMMON: &'static str = "#[allow(unused_imports)]\nuse std::fmt;\n#[allow(unused_imports)]\nuse std::ops::*;\n\n#[doc(hidden)]\n#[allow(dead_code)]\npub fn unloaded_function_panic() -> ! {\n    panic!(\"Attempted to run unloaded vulkan function\")\n}\n\n#[allow(unused_macros)]\nmacro_rules! handle_nondispatchable {\n    ($name: ident) => {\n        #[repr(C)]\n        #[derive(Eq, PartialEq, Ord, PartialOrd, Clone, Copy, Hash)]\n        pub struct $name (uint64_t);\n\n        impl fmt::Pointer for $name {\n            fn fmt(&self, f: &mut fmt::Formatter) -> ::std::result::Result<(), fmt::Error> {\n                write!(f, \"0x{:x}\", self.0)\n            }\n        }\n\n        impl fmt::Debug for $name {\n            fn fmt(&self, f: &mut fmt::Formatter) -> ::std::result::Result<(), fmt::Error> {\n                write!(f, \"0x{:x}\", self.0)\n            }\n        }\n    }\n}\n\n#[allow(unused_macros)]\nmacro_rules! vk_bitflags_wrapped {\n    ($name: ident, $all: expr, $flag_type: ty) => {\n        #[repr(C)]\n        #[derive(Clone, Copy, PartialEq, Eq, PartialOrd, Ord, Hash)]\n        pub struct $name {flags: $flag_type}\n\n        impl fmt::Debug for $name {\n            fn fmt(&self, f: &mut fmt::Formatter) -> ::std::result::Result<(), fmt::Error> {\n                write!(f, \"{}({:b})\", stringify!($name), self.flags)\n            }\n        }\n\n        impl $name {\n            #[inline]\n            pub fn empty() -> Self {\n                $name {flags: 0}\n            }\n\n            #[inline]\n            pub fn all() -> Self {\n                $name {flags: $all}\n            }\n\n            #[inline]\n            pub fn flags(self) -> $flag_type {\n                self.flags\n            }\n\n            #[inline]\n            pub fn from_flags(flags: $flag_type) -> Option<Self> {\n                if flags & !$all == 0 {\n                    Some($name {flags: flags})\n                } else {\n                    None\n                }\n            }\n\n            #[inline]\n            pub fn from_flags_truncate(flags: $flag_type) -> Self {\n                $name {flags: flags & $all}\n            }\n\n            #[inline]\n            pub fn is_empty(self) -> bool {\n                self == Self::empty()\n            }\n\n            #[inline]\n            pub fn is_all(self) -> bool {\n                self & Self::all() == Self::all()\n            }\n\n            #[inline]\n            pub fn intersects(self, other: $name) -> bool {\n                self & other != Self::empty()\n            }\n\n            /// Returns true of `other` is a subset of `self`\n            #[inline]\n            pub fn subset(self, other: $name) -> bool {\n                self & other == other\n            }\n        }\n\n        impl BitOr for $name {\n            type Output = $name;\n\n            #[inline]\n            fn bitor(self, rhs: $name) -> Self {\n                $name {flags: self.flags | rhs.flags }\n            }\n        }\n\n        impl BitOrAssign for $name {\n            #[inline]\n            fn bitor_assign(&mut self, rhs: Self) {\n                *self = *self | rhs\n            }\n        }\n\n        impl BitAnd for $name {\n            type Output = Self;\n\n            #[inline]\n            fn bitand(self, rhs: Self) -> Self {\n                $name {flags: self.flags & rhs.flags}\n            }\n        }\n\n        impl BitAndAssign for $name {\n            #[inline]\n            fn bitand_assign(&mut self, rhs: Self) {\n                *self = *self & rhs\n            }\n        }\n\n        impl BitXor for $name {\n            type Output = $name;\n\n            #[inline]\n            fn bitxor(self, rhs: Self) -> Self {\n                $name {flags: self.flags ^ rhs.flags}\n            }\n        }\n\n        impl BitXorAssign for $name {\n            #[inline]\n            fn bitxor_assign(&mut self, rhs: Self) {\n                *self = *self ^ rhs\n            }\n        }\n\n        impl Sub for $name {\n            type Output = Self;\n\n            #[inline]\n            fn sub(self, rhs: Self) -> Self {\n                self & !rhs\n            }\n        }\n\n        impl SubAssign for $name {\n            #[inline]\n            fn sub_assign(&mut self, rhs: Self) {\n                *self = *self - rhs\n            }\n        }\n\n        impl Not for $name {\n            type Output = Self;\n\n            #[inline]\n            fn not(self) -> Self {\n                self ^ Self::all()\n            }\n        }\n    }\n}\n";

/// The bodies of the defines of the registry, which are not parsed.
pub const DEFINES: &'static str = "#[allow(unused_macros)]\nmacro_rules! vk_make_version {\n    ($major: expr, $minor: expr, $patch: expr) => ((($major as u32) << 22) | (($minor as u32) << 12) | $patch as u32)\n}\n\n#[allow(unused_macros)]\nmacro_rules! vk_version_major {\n    ($major: expr) => (($major as u32) >> 22)\n}\n\n#[allow(unused_macros)]\nmacro_rules! vk_version_minor {\n    ($minor: expr) => ((($minor as u32) >> 12) & 0x3ff)\n}\n\n#[allow(unused_macros)]\nmacro_rules! vk_version_patch {\n    ($minor: expr) => (($minor as u32) & 0xfff)\n}\n";

/// The types of C, taken from the platform's library.
pub const LIBC_TYPES: &'static str = "#[allow(unused_imports)]\nuse libc::{c_void, c_char, c_float, c_double, c_int, int32_t, int64_t, uint8_t, uint16_t, uint32_t, uint64_t, size_t};\n";

/// The types of C, spelled out.
pub const PLAIN_TYPES: &'static str = "#[allow(non_camel_case_types, dead_code)]\npub type c_void = ::std::os::raw::c_void;\n#[allow(non_camel_case_types, dead_code)]\npub type c_char = ::std::os::raw::c_char;\n#[allow(non_camel_case_types, dead_code)]\npub type c_float = f32;\n#[allow(non_camel_case_types, dead_code)]\npub type c_double = f64;\n#[allow(non_camel_case_types, dead_code)]\npub type c_int = i32;\n#[allow(non_camel_case_types, dead_code)]\npub type int32_t = i32;\n#[allow(non_camel_case_types, dead_code)]\npub type int64_t = i64;\n#[allow(non_camel_case_types, dead_code)]\npub type uint8_t = u8;\n#[allow(non_camel_case_types, dead_code)]\npub type uint16_t = u16;\n#[allow(non_camel_case_types, dead_code)]\npub type uint32_t = u32;\n#[allow(non_camel_case_types, dead_code)]\npub type uint64_t = u64;\n#[allow(non_camel_case_types, dead_code)]\npub type size_t = usize;\n";

/// The start of the loader of the global emitter.
pub const GLOBAL_LOADER_HEAD: &'static str = "pub fn load_with<F: FnMut(&str) -> *const ()>(mut load_fn: F) -> ::std::result::Result<(), Vec<&'static str>> {\n    let mut unloaded: Vec<&'static str> = Vec::new();\n    unsafe {\n";

/// The end of the loader of the global emitter.
pub const GLOBAL_LOADER_TAIL: &'static str = "    }\n    if unloaded.is_empty() { Ok(()) } else { Err(unloaded) }\n}\n";

/// The start of the loader of the struct emitter.
pub const STRUCT_LOADER_HEAD: &'static str = "    pub fn load_with<F: FnMut(&str) -> *const ()>(&mut self, mut load_fn: F) -> ::std::result::Result<(), Vec<&'static str>> {\n        let mut unloaded: Vec<&'static str> = Vec::new();\n";

/// The end of the loader of the struct emitter.
pub const STRUCT_LOADER_TAIL: &'static str = "        if unloaded.is_empty() { Ok(()) } else { Err(unloaded) }\n    }\n";

} // verus!
