//! The lowering of names: what each identifier of the selection is called in
//! the emitted text under a given configuration.

use crate::config::GenConfig;
use crate::config::VariantPaddingConfig;
use crate::names::camel;
use crate::names::camel_case;
use crate::names::derived_prefix;
use crate::names::derived_prefix_of;
use crate::names::escape;
use crate::names::escaped;
use crate::names::is_usable;
use crate::names::names_of;
use crate::names::shared_prefix;
use crate::names::shared_prefix_len;
use crate::names::snake;
use crate::names::snake_case;
use crate::names::strip_prefix;
use crate::names::usable;
use crate::names::without_prefix;
use crate::text::bytes_eq;
use crate::text::is_word;
use vstd::prelude::*;
use vstd::string::StringSliceAdditionalSpecFns;

verus! {

/// The name under which a type is emitted.
pub open spec fn type_ident(config: GenConfig, name: Seq<u8>) -> Seq<u8> {
    if config.remove_type_prefix {
        without_prefix(name, "Vk".spec_bytes())
    } else {
        name
    }
}

/// The name under which a command is emitted.
pub open spec fn command_ident(config: GenConfig, name: Seq<u8>) -> Seq<u8> {
    let bare = if config.remove_command_prefix {
        without_prefix(name, "vk".spec_bytes())
    } else {
        name
    };
    if config.snake_case_commands {
        escaped(snake(bare))
    } else {
        escaped(bare)
    }
}

/// The name under which a member or a parameter is emitted.
pub open spec fn member_ident(config: GenConfig, name: Seq<u8>) -> Seq<u8> {
    if config.snake_case_members {
        escaped(snake(name))
    } else {
        escaped(name)
    }
}

/// The name under which a constant is emitted.
pub open spec fn const_ident(config: GenConfig, name: Seq<u8>) -> Seq<u8> {
    if config.remove_const_prefix && usable(without_prefix(name, "VK_".spec_bytes())) {
        without_prefix(name, "VK_".spec_bytes())
    } else {
        name
    }
}

/// The name of a variant with its casing changed, where that is asked for.
pub open spec fn cased(config: GenConfig, name: Seq<u8>) -> Seq<u8> {
    if config.camel_case_variants {
        camel(name)
    } else {
        name
    }
}

/// The name of the variant `name` of the enum or bitmask `owner` without its
/// prefix: `VK_` for a variant of `VkResult`, the first `shared` bytes for
/// one of a bitmask, the prefix that the name of the enum gives for any
/// other, each where the configuration asks for it. Where nothing usable is
/// left the name stays whole.
pub open spec fn stripped_variant(
    config: GenConfig,
    owner: Seq<u8>,
    bitmask: bool,
    shared: int,
    name: Seq<u8>,
) -> Seq<u8> {
    let bare = if owner == "VkResult".spec_bytes() {
        if config.remove_vk_result_prefix {
            without_prefix(name, "VK_".spec_bytes())
        } else {
            name
        }
    } else if bitmask {
        if config.remove_bitmask_prefix && 0 <= shared <= name.len() {
            name.skip(shared)
        } else {
            name
        }
    } else if config.variant_padding == VariantPaddingConfig::RemovePrefix {
        without_prefix(name, derived_prefix(owner))
    } else {
        name
    };
    if usable(bare) {
        bare
    } else {
        name
    }
}

/// The names that the variants `names` would get if none collided.
pub open spec fn candidates(config: GenConfig, owner: Seq<u8>, bitmask: bool, names: Seq<Seq<u8>>) -> Seq<
    Seq<u8>,
> {
    Seq::new(
        names.len(),
        |i: int| cased(config, stripped_variant(config, owner, bitmask, shared_prefix_len(names), names[i])),
    )
}

/// Whether the `i`-th name of `names` stands at another place too.
pub open spec fn collides(names: Seq<Seq<u8>>, i: int) -> bool {
    exists|j: int| 0 <= j < names.len() && j != i && names[j] == names[i]
}

/// The names under which the variants `names` of the enum or bitmask `owner`
/// are emitted: each without its prefix and with its casing changed, as the
/// configuration asks; the variants whose names would then collide keep
/// their prefix.
pub open spec fn variant_idents(config: GenConfig, owner: Seq<u8>, bitmask: bool, names: Seq<Seq<u8>>) -> Seq<
    Seq<u8>,
> {
    let wanted = candidates(config, owner, bitmask, names);
    Seq::new(
        names.len(),
        |i: int| if collides(wanted, i) {
            cased(config, names[i])
        } else {
            wanted[i]
        },
    )
}

fn to_vec(s: &[u8]) -> (out: Vec<u8>)
    ensures
        out@ == s@,
{
    vstd::slice::slice_to_vec(s)
}

/// The name under which the type `name` is emitted.
pub fn lower_type_name(config: &GenConfig, name: &[u8]) -> (out: Vec<u8>)
    ensures
        out@ == type_ident(*config, name@),
{
    if config.remove_type_prefix {
        to_vec(strip_prefix(name, "Vk".as_bytes()))
    } else {
        to_vec(name)
    }
}

/// The name under which the command `name` is emitted.
pub fn lower_command_name(config: &GenConfig, name: &[u8]) -> (out: Vec<u8>)
    ensures
        out@ == command_ident(*config, name@),
{
    let bare = if config.remove_command_prefix {
        strip_prefix(name, "vk".as_bytes())
    } else {
        name
    };
    if config.snake_case_commands {
        escape(snake_case(bare))
    } else {
        escape(to_vec(bare))
    }
}

/// The name under which the member or parameter `name` is emitted.
pub fn lower_member_name(config: &GenConfig, name: &[u8]) -> (out: Vec<u8>)
    ensures
        out@ == member_ident(*config, name@),
{
    if config.snake_case_members {
        escape(snake_case(name))
    } else {
        escape(to_vec(name))
    }
}

/// The name under which the constant `name` is emitted.
pub fn lower_const_name(config: &GenConfig, name: &[u8]) -> (out: Vec<u8>)
    ensures
        out@ == const_ident(*config, name@),
{
    if config.remove_const_prefix {
        let bare = strip_prefix(name, "VK_".as_bytes());
        if is_usable(bare) {
            return to_vec(bare);
        }
    }
    to_vec(name)
}

fn case_variant(config: &GenConfig, name: &[u8]) -> (out: Vec<u8>)
    ensures
        out@ == cased(*config, name@),
{
    if config.camel_case_variants {
        camel_case(name)
    } else {
        to_vec(name)
    }
}

fn strip_variant<'a>(
    config: &GenConfig,
    owner: &[u8],
    prefix: &[u8],
    bitmask: bool,
    shared: usize,
    name: &'a [u8],
) -> (out: &'a [u8])
    requires
        prefix@ == derived_prefix(owner@),
    ensures
        out@ == stripped_variant(*config, owner@, bitmask, shared as int, name@),
{
    let bare = if is_word(owner, "VkResult") {
        if config.remove_vk_result_prefix {
            strip_prefix(name, "VK_".as_bytes())
        } else {
            name
        }
    } else if bitmask {
        if config.remove_bitmask_prefix && shared <= name.len() {
            let rest = vstd::slice::slice_subrange(name, shared, name.len());
            assert(rest@ =~= name@.skip(shared as int));
            rest
        } else {
            name
        }
    } else {
        match config.variant_padding {
            VariantPaddingConfig::RemovePrefix => strip_prefix(name, prefix),
            VariantPaddingConfig::Keep => name,
        }
    };
    if is_usable(bare) {
        bare
    } else {
        name
    }
}

fn collides_at(names: &Vec<Vec<u8>>, i: usize) -> (r: bool)
    requires
        i < names@.len(),
    ensures
        r == collides(names_of(names@), i as int),
{
    let n = names.len();
    let ghost all = names_of(names@);
    let mut j: usize = 0;
    while j < n
        invariant
            j <= n,
            n == names@.len(),
            i < n,
            all == names_of(names@),
            forall|k: int| 0 <= k < j && k != i ==> all[k] != all[i as int],
        decreases n - j,
    {
        assert(all[j as int] == names@[j as int]@);
        assert(all[i as int] == names@[i as int]@);
        if j != i && bytes_eq(names[j].as_slice(), names[i].as_slice()) {
            return true;
        }
        j += 1;
    }
    false
}

/// The names under which the variants `names` of the enum or bitmask `owner`
/// are emitted.
pub fn lower_variant_names(config: &GenConfig, owner: &[u8], bitmask: bool, names: &Vec<Vec<u8>>) -> (out:
    Vec<Vec<u8>>)
    ensures
        names_of(out@) == variant_idents(*config, owner@, bitmask, names_of(names@)),
        out@.len() == names@.len(),
{
    let ghost given = names_of(names@);
    let shared = shared_prefix(names);
    let prefix = derived_prefix_of(owner);
    let n = names.len();
    let mut wanted: Vec<Vec<u8>> = Vec::new();
    let mut i: usize = 0;
    while i < n
        invariant
            i <= n,
            n == names@.len(),
            given == names_of(names@),
            shared == shared_prefix_len(given),
            prefix@ == derived_prefix(owner@),
            wanted@.len() == i,
            forall|k: int|
                0 <= k < i ==> (#[trigger] wanted@[k])@ == candidates(
                    *config,
                    owner@,
                    bitmask,
                    given,
                )[k],
        decreases n - i,
    {
        assert(given[i as int] == names@[i as int]@);
        let bare = strip_variant(
            config,
            owner,
            prefix.as_slice(),
            bitmask,
            shared,
            names[i].as_slice(),
        );
        wanted.push(case_variant(config, bare));
        i += 1;
    }
    assert(names_of(wanted@) =~= candidates(*config, owner@, bitmask, given));
    let mut out: Vec<Vec<u8>> = Vec::new();
    let mut i: usize = 0;
    while i < n
        invariant
            i <= n,
            n == names@.len(),
            n == wanted@.len(),
            given == names_of(names@),
            names_of(wanted@) == candidates(*config, owner@, bitmask, given),
            out@.len() == i,
            forall|k: int|
                0 <= k < i ==> (#[trigger] out@[k])@ == variant_idents(
                    *config,
                    owner@,
                    bitmask,
                    given,
                )[k],
        decreases n - i,
    {
        assert(given[i as int] == names@[i as int]@);
        assert(names_of(wanted@)[i as int] == wanted@[i as int]@);
        if collides_at(&wanted, i) {
            out.push(case_variant(config, names[i].as_slice()));
        } else {
            out.push(to_vec(wanted[i].as_slice()));
        }
        i += 1;
    }
    assert(names_of(out@) =~= variant_idents(*config, owner@, bitmask, given));
    out
}

} // verus!
