//! The options of the generator.

use vstd::prelude::*;

verus! {

/// What is done with the part of a variant's name that repeats the name of
/// its enum.
#[derive(Clone, Copy, Debug, PartialEq, Eq, Structural)]
pub enum VariantPaddingConfig {
    /// It stays.
    Keep,
    /// It is taken off.
    RemovePrefix,
}

/// The options of the generator. Each has a default.
#[derive(Clone, Copy, Debug, PartialEq, Eq, Structural)]
pub struct GenConfig {
    /// Take the `Vk` off the names of types.
    pub remove_type_prefix: bool,
    /// Take the `VK_` off the variants of `VkResult`.
    pub remove_vk_result_prefix: bool,
    /// Take the `vk` off the names of commands.
    pub remove_command_prefix: bool,
    /// Take off what the names of the variants of a bitmask share at their
    /// start.
    pub remove_bitmask_prefix: bool,
    /// Take the `VK_` off the names of constants.
    pub remove_const_prefix: bool,
    /// What to do with the part of a variant's name that its enum gives.
    pub variant_padding: VariantPaddingConfig,
    /// Write the names of commands in snake case.
    pub snake_case_commands: bool,
    /// Write the names of variants in camel case.
    pub camel_case_variants: bool,
    /// Write the names of members and parameters in snake case.
    pub snake_case_members: bool,
    /// Emit an enum as an enum of the target language, not as integer
    /// constants.
    pub use_native_enums: bool,
    /// Emit a union with public fields, not with accessors.
    pub use_native_unions: bool,
    /// Emit a bitmask as a wrapper with operators, not as a bare integer.
    pub wrap_bitmasks: bool,
    /// Emit a handle that is not dispatchable as a wrapper, not as a bare
    /// integer.
    pub wrap_non_dispatchable_handles: bool,
    /// Take the C types from the platform's library, not from the preamble.
    pub use_libc_types: bool,
}

impl GenConfig {
    /// The options that hold where nothing else is asked for.
    pub open spec fn defaults() -> GenConfig {
        GenConfig {
            remove_type_prefix: false,
            remove_vk_result_prefix: true,
            remove_command_prefix: true,
            remove_bitmask_prefix: true,
            remove_const_prefix: true,
            variant_padding: VariantPaddingConfig::RemovePrefix,
            snake_case_commands: true,
            camel_case_variants: true,
            snake_case_members: true,
            use_native_enums: true,
            use_native_unions: false,
            wrap_bitmasks: true,
            wrap_non_dispatchable_handles: true,
            use_libc_types: false,
        }
    }

    /// The default options.
    pub fn new() -> (config: Self)
        ensures
            config == GenConfig::defaults(),
    {
        GenConfig {
            remove_type_prefix: false,
            remove_vk_result_prefix: true,
            remove_command_prefix: true,
            remove_bitmask_prefix: true,
            remove_const_prefix: true,
            variant_padding: VariantPaddingConfig::RemovePrefix,
            snake_case_commands: true,
            camel_case_variants: true,
            snake_case_members: true,
            use_native_enums: true,
            use_native_unions: false,
            wrap_bitmasks: true,
            wrap_non_dispatchable_handles: true,
            use_libc_types: false,
        }
    }
}

impl Default for GenConfig {
    fn default() -> (config: Self)
        ensures
            config == GenConfig::defaults(),
    {
        GenConfig::new()
    }
}

} // verus!
