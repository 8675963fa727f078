//! The emitters: they serialise what was selected as source text.

use crate::arena::InternedRef;
use crate::config::GenConfig;
use crate::eltype::VkElType;
use crate::emit_model::accessor_line;
use crate::emit_model::accessor_lines;
use crate::emit_model::all_bits;
use crate::emit_model::all_load_lines;
use crate::emit_model::bitmask_text;
use crate::emit_model::c_name;
use crate::emit_model::command_fn;
use crate::emit_model::command_fns;
use crate::emit_model::commands_text;
use crate::emit_model::const_def_decls;
use crate::emit_model::const_form;
use crate::emit_model::const_text;
use crate::emit_model::const_variant_line;
use crate::emit_model::const_variant_lines;
use crate::emit_model::digits;
use crate::emit_model::el_text;
use crate::emit_model::emitted;
use crate::emit_model::enum_text;
use crate::emit_model::extern_text;
use crate::emit_model::field_line;
use crate::emit_model::field_lines;
use crate::emit_model::float_literal;
use crate::emit_model::funcpointer_text;
use crate::emit_model::global_slot;
use crate::emit_model::group_decls;
use crate::emit_model::group_of;
use crate::emit_model::Group;
use crate::emit_model::global_slots;
use crate::emit_model::handle_text;
use crate::emit_model::int_text;
use crate::emit_model::join;
use crate::emit_model::lit;
use crate::emit_model::load_lines;
use crate::emit_model::native_variant_line;
use crate::emit_model::native_variant_lines;
use crate::emit_model::param_decls;
use crate::emit_model::param_names;
use crate::emit_model::param_text;
use crate::emit_model::param_types;
use crate::emit_model::picked_commands;
use crate::emit_model::preamble;
use crate::emit_model::repeated;
use crate::emit_model::struct_inits;
use crate::emit_model::struct_slots;
use crate::emit_model::struct_text;
use crate::emit_model::type_decl;
use crate::emit_model::type_decls;
use crate::emit_model::type_list;
use crate::emit_model::type_text;
use crate::emit_model::union_text;
use crate::emit_model::variant_names;
use crate::emit_model::variant_value;
use crate::emit_model::ConstForm;
use crate::emit_model::Flavor;
use crate::lowering::lower_command_name;
use crate::lowering::lower_const_name;
use crate::lowering::lower_member_name;
use crate::lowering::lower_type_name;
use crate::lowering::lower_variant_names;
use crate::model::VkCommand;
use crate::model::VkMember;
use crate::model::VkParam;
use crate::model::VkType;
use crate::model::VkVariant;
use crate::names::names_of;
use crate::registry::commands_view;
use crate::registry::types_view;
use crate::registry::VkRegistry;
use crate::selection::final_variants_of;
use crate::selection::names_view;
use crate::selection::select;
use crate::selection::Selection;
use crate::selection_model::selected;
use crate::selection_model::SelectError;
use crate::text::all_digits;
use crate::text::digit_value;
use crate::text::find_byte;
use crate::text::is_word;
use crate::version::VkVersion;
use vstd::arithmetic::power2::lemma2_to64;
use vstd::arithmetic::power2::lemma2_to64_rest;
use vstd::arithmetic::power2::lemma_pow2_strictly_increases;
use vstd::arithmetic::power2::lemma_pow2_unfold;
use vstd::arithmetic::power2::pow2;
use vstd::prelude::*;
use vstd::string::StringSliceAdditionalSpecFns;

verus! {

fn put_bytes(out: &mut Vec<u8>, s: &[u8])
    ensures
        final(out)@ == old(out)@ + s@,
{
    let n = s.len();
    let mut i: usize = 0;
    while i < n
        invariant
            i <= n,
            n == s@.len(),
            out@ == old(out)@ + s@.take(i as int),
        decreases n - i,
    {
        out.push(s[i]);
        i += 1;
        assert(out@ =~= old(out)@ + s@.take(i as int));
    }
    assert(s@.take(n as int) =~= s@);
}

fn put(out: &mut Vec<u8>, s: &str)
    ensures
        final(out)@ == old(out)@ + lit(s),
{
    put_bytes(out, s.as_bytes());
}

fn put_nat(out: &mut Vec<u8>, n: u128)
    ensures
        final(out)@ == old(out)@ + digits(n as nat),
    decreases n,
{
    if n >= 10 {
        put_nat(out, n / 10);
        out.push(48 + (n % 10) as u8);
        assert(out@ =~= old(out)@ + digits(n as nat));
    } else {
        out.push(48 + n as u8);
        assert(out@ =~= old(out)@ + digits(n as nat));
    }
}

fn put_int(out: &mut Vec<u8>, x: i128)
    requires
        x > i128::MIN,
    ensures
        final(out)@ == old(out)@ + int_text(x as int),
{
    if x < 0 {
        out.push(45);
        put_nat(out, (-x) as u128);
        assert(out@ =~= old(out)@ + int_text(x as int));
    } else {
        put_nat(out, x as u128);
    }
}

fn put_repeated(out: &mut Vec<u8>, s: &str, n: u8)
    ensures
        final(out)@ == old(out)@ + repeated(lit(s), n as nat),
{
    let mut i: u8 = 0;
    assert(out@ =~= old(out)@ + repeated(lit(s), 0));
    while i < n
        invariant
            i <= n,
            out@ == old(out)@ + repeated(lit(s), i as nat),
        decreases n - i,
    {
        put(out, s);
        i += 1;
        assert(out@ =~= old(out)@ + repeated(lit(s), i as nat));
    }
}

/// The parts of `parts` one after the other.
pub fn join_all(parts: &Vec<Vec<u8>>) -> (out: Vec<u8>)
    ensures
        out@ == join(names_of(parts@)),
{
    let mut out: Vec<u8> = Vec::new();
    let n = parts.len();
    let ghost all = names_of(parts@);
    let mut i: usize = 0;
    while i < n
        invariant
            i <= n,
            n == parts@.len(),
            all == names_of(parts@),
            out@ == join(all.take(i as int)),
        decreases n - i,
    {
        assert(all.take(i + 1).drop_last() =~= all.take(i as int));
        assert(all.take(i + 1).last() == parts@[i as int]@);
        put_bytes(&mut out, parts[i].as_slice());
        i += 1;
    }
    assert(all.take(n as int) =~= all);
    out
}

/// The integer that is emitted for a variant.
pub fn variant_number(v: &VkVariant) -> (out: Option<i128>)
    ensures
        match variant_value(*v) {
            Some(x) => out == Some(x as i128) && -0x8000_0000_0000_0000 <= x
                <= 0x8000_0000_0000_0000,
            None => out.is_none(),
        },
{
    match *v {
        VkVariant::Value { value, .. } => Some(value as i128),
        VkVariant::Bitpos { bitpos, .. } => {
            if bitpos >= 64 {
                return None;
            }
            let mut x: i128 = 1;
            let mut i: u32 = 0;
            proof {
                lemma2_to64();
                lemma2_to64_rest();
            }
            while i < bitpos
                invariant
                    i <= bitpos,
                    bitpos < 64,
                    x == pow2(i as nat),
                    pow2(63) == 0x8000_0000_0000_0000,
                decreases bitpos - i,
            {
                proof {
                    lemma_pow2_unfold((i + 1) as nat);
                    if i < 63 {
                        lemma_pow2_strictly_increases(i as nat, 63);
                    }
                }
                x = x * 2;
                i += 1;
            }
            proof {
                if bitpos < 63 {
                    lemma_pow2_strictly_increases(bitpos as nat, 63);
                }
            }
            Some(x)
        },
    }
}

fn c_name_of(name: Vec<u8>) -> (out: Vec<u8>)
    ensures
        out@ == c_name(name@),
{
    let s = name.as_slice();
    if is_word(s, "void") || is_word(s, "char") || is_word(s, "float") || is_word(s, "double")
        || is_word(s, "int") {
        let mut out: Vec<u8> = Vec::new();
        put(&mut out, "c_");
        put_bytes(&mut out, s);
        assert(out@ =~= c_name(name@));
        out
    } else {
        name
    }
}

fn type_text_of(registry: &VkRegistry, config: &GenConfig, name: InternedRef) -> (out: Vec<u8>)
    ensures
        out@ == type_text(registry@, *config, name),
{
    if name.is_null() {
        let mut out: Vec<u8> = Vec::new();
        put(&mut out, "c_void");
        assert(out@ =~= lit("c_void"));
        out
    } else {
        c_name_of(lower_type_name(config, registry.text(name)))
    }
}

fn array_text(registry: &VkRegistry, config: &GenConfig, t: InternedRef, n: usize) -> (out: Vec<u8>)
    ensures
        out@ == lit("[") + type_text(registry@, *config, t) + lit("; ") + int_text(n as int) + lit(
            "]",
        ),
{
    let mut out: Vec<u8> = Vec::new();
    put(&mut out, "[");
    put_bytes(&mut out, type_text_of(registry, config, t).as_slice());
    put(&mut out, "; ");
    put_int(&mut out, n as i128);
    put(&mut out, "]");
    assert(out@ =~= lit("[") + type_text(registry@, *config, t) + lit("; ") + int_text(n as int)
        + lit("]"));
    out
}

fn named_array_text(registry: &VkRegistry, config: &GenConfig, t: InternedRef, e: InternedRef) -> (out:
    Vec<u8>)
    ensures
        out@ == lit("[") + type_text(registry@, *config, t) + lit("; ")
            + crate::lowering::const_ident(*config, registry@.text(e)) + lit(" as usize]"),
{
    let mut out: Vec<u8> = Vec::new();
    put(&mut out, "[");
    put_bytes(&mut out, type_text_of(registry, config, t).as_slice());
    put(&mut out, "; ");
    put_bytes(&mut out, lower_const_name(config, registry.text(e)).as_slice());
    put(&mut out, " as usize]");
    assert(out@ =~= lit("[") + type_text(registry@, *config, t) + lit("; ")
        + crate::lowering::const_ident(*config, registry@.text(e)) + lit(" as usize]"));
    out
}

/// The emitted type of an element.
pub fn el_text_of(registry: &VkRegistry, config: &GenConfig, el: &VkElType) -> (out: Vec<u8>)
    ensures
        out@ == el_text(registry@, *config, *el),
{
    match *el {
        VkElType::Var(t) => type_text_of(registry, config, t),
        VkElType::Const(t) => type_text_of(registry, config, t),
        VkElType::ConstPtr(t, n) => {
            let mut out: Vec<u8> = Vec::new();
            put_repeated(&mut out, "*const ", n);
            put_bytes(&mut out, type_text_of(registry, config, t).as_slice());
            assert(out@ =~= el_text(registry@, *config, *el));
            out
        },
        VkElType::MutPtr(t, n) => {
            let mut out: Vec<u8> = Vec::new();
            put_repeated(&mut out, "*mut ", n);
            put_bytes(&mut out, type_text_of(registry, config, t).as_slice());
            assert(out@ =~= el_text(registry@, *config, *el));
            out
        },
        VkElType::ConstArray(t, n) => array_text(registry, config, t, n),
        VkElType::MutArray(t, n) => array_text(registry, config, t, n),
        VkElType::ConstArrayEnum(t, e) => named_array_text(registry, config, t, e),
        VkElType::MutArrayEnum(t, e) => named_array_text(registry, config, t, e),
        VkElType::Void | VkElType::Unknown => {
            let mut out: Vec<u8> = Vec::new();
            put(&mut out, "()");
            assert(out@ =~= lit("()"));
            out
        },
    }
}

fn param_text_of(registry: &VkRegistry, config: &GenConfig, el: &VkElType) -> (out: Vec<u8>)
    ensures
        out@ == param_text(registry@, *config, *el),
{
    let array = match *el {
        VkElType::ConstArray(_, _) | VkElType::MutArray(_, _) | VkElType::ConstArrayEnum(_, _)
        | VkElType::MutArrayEnum(_, _) => true,
        _ => false,
    };
    if array {
        let mut out: Vec<u8> = Vec::new();
        put(&mut out, "*const ");
        put_bytes(&mut out, el_text_of(registry, config, el).as_slice());
        assert(out@ =~= param_text(registry@, *config, *el));
        out
    } else {
        el_text_of(registry, config, el)
    }
}

fn field_line_of(registry: &VkRegistry, config: &GenConfig, m: &VkMember, public: bool) -> (out:
    Vec<u8>)
    ensures
        out@ == field_line(registry@, *config, *m, public),
{
    let mut out: Vec<u8> = Vec::new();
    if public {
        put(&mut out, "    pub ");
    } else {
        put(&mut out, "    ");
    }
    put_bytes(&mut out, lower_member_name(config, registry.text(m.field_name)).as_slice());
    put(&mut out, ": ");
    put_bytes(&mut out, el_text_of(registry, config, &m.field_type).as_slice());
    put(&mut out, ",\n");
    assert(out@ =~= field_line(registry@, *config, *m, public));
    out
}

fn accessor_line_of(registry: &VkRegistry, config: &GenConfig, m: &VkMember) -> (out: Vec<u8>)
    ensures
        out@ == accessor_line(registry@, *config, *m),
{
    let mut out: Vec<u8> = Vec::new();
    let ident = lower_member_name(config, registry.text(m.field_name));
    put(&mut out, "    pub unsafe fn ");
    put_bytes(&mut out, ident.as_slice());
    put(&mut out, "(&self) -> &");
    put_bytes(&mut out, el_text_of(registry, config, &m.field_type).as_slice());
    put(&mut out, " { &self.");
    put_bytes(&mut out, ident.as_slice());
    put(&mut out, " }\n");
    assert(out@ =~= accessor_line(registry@, *config, *m));
    out
}

fn fields_of(registry: &VkRegistry, config: &GenConfig, fields: &Vec<VkMember>, public: bool) -> (out:
    Vec<u8>)
    ensures
        out@ == join(field_lines(registry@, *config, fields@, public)),
{
    let mut lines: Vec<Vec<u8>> = Vec::new();
    let n = fields.len();
    let mut i: usize = 0;
    while i < n
        invariant
            i <= n,
            n == fields@.len(),
            lines@.len() == i,
            forall|k: int|
                0 <= k < i ==> (#[trigger] lines@[k])@ == field_line(
                    registry@,
                    *config,
                    fields@[k],
                    public,
                ),
        decreases n - i,
    {
        lines.push(field_line_of(registry, config, &fields[i], public));
        i += 1;
    }
    assert(names_of(lines@) =~= field_lines(registry@, *config, fields@, public));
    join_all(&lines)
}

fn accessors_of(registry: &VkRegistry, config: &GenConfig, fields: &Vec<VkMember>) -> (out: Vec<u8>)
    ensures
        out@ == join(accessor_lines(registry@, *config, fields@)),
{
    let mut lines: Vec<Vec<u8>> = Vec::new();
    let n = fields.len();
    let mut i: usize = 0;
    while i < n
        invariant
            i <= n,
            n == fields@.len(),
            lines@.len() == i,
            forall|k: int|
                0 <= k < i ==> (#[trigger] lines@[k])@ == accessor_line(
                    registry@,
                    *config,
                    fields@[k],
                ),
        decreases n - i,
    {
        lines.push(accessor_line_of(registry, config, &fields[i]));
        i += 1;
    }
    assert(names_of(lines@) =~= accessor_lines(registry@, *config, fields@));
    join_all(&lines)
}

fn struct_text_of(registry: &VkRegistry, config: &GenConfig, name: &[u8], fields: &Vec<VkMember>) -> (out:
    Vec<u8>)
    ensures
        out@ == struct_text(registry@, *config, name@, fields@),
{
    let mut out: Vec<u8> = Vec::new();
    put(&mut out, "#[repr(C)]\n#[derive(Clone, Copy)]\npub struct ");
    put_bytes(&mut out, name);
    put(&mut out, " {\n");
    put_bytes(&mut out, fields_of(registry, config, fields, true).as_slice());
    put(&mut out, "}\n");
    assert(out@ =~= struct_text(registry@, *config, name@, fields@));
    out
}

fn union_text_of(registry: &VkRegistry, config: &GenConfig, name: &[u8], fields: &Vec<VkMember>) -> (out:
    Vec<u8>)
    ensures
        out@ == union_text(registry@, *config, name@, fields@),
{
    let mut out: Vec<u8> = Vec::new();
    put(&mut out, "#[repr(C)]\n#[derive(Clone, Copy)]\npub union ");
    put_bytes(&mut out, name);
    put(&mut out, " {\n");
    if config.use_native_unions {
        put_bytes(&mut out, fields_of(registry, config, fields, true).as_slice());
        put(&mut out, "}\n");
    } else {
        put_bytes(&mut out, fields_of(registry, config, fields, false).as_slice());
        put(&mut out, "}\nimpl ");
        put_bytes(&mut out, name);
        put(&mut out, " {\n");
        put_bytes(&mut out, accessors_of(registry, config, fields).as_slice());
        put(&mut out, "}\n");
    }
    assert(out@ =~= union_text(registry@, *config, name@, fields@));
    out
}

fn native_variant_line_of(ident: &[u8], v: &VkVariant) -> (out: Vec<u8>)
    ensures
        out@ == native_variant_line(ident@, *v),
{
    let mut out: Vec<u8> = Vec::new();
    match variant_number(v) {
        Some(x) => {
            put(&mut out, "    ");
            put_bytes(&mut out, ident);
            put(&mut out, " = ");
            put_int(&mut out, x);
            put(&mut out, ",\n");
            assert(out@ =~= native_variant_line(ident@, *v));
        },
        None => {},
    }
    out
}

fn const_variant_line_of(owner: &[u8], ident: &[u8], v: &VkVariant, wrapped: bool) -> (out: Vec<u8>)
    ensures
        out@ == const_variant_line(owner@, ident@, *v, wrapped),
{
    let mut out: Vec<u8> = Vec::new();
    match variant_number(v) {
        Some(x) => {
            if wrapped {
                put(&mut out, "    pub const ");
            } else {
                put(&mut out, "pub const ");
            }
            put_bytes(&mut out, ident);
            put(&mut out, ": ");
            put_bytes(&mut out, owner);
            put(&mut out, " = ");
            if wrapped {
                put_bytes(&mut out, owner);
                put(&mut out, " { flags: ");
                put_int(&mut out, x);
                put(&mut out, " };\n");
            } else {
                put_int(&mut out, x);
                put(&mut out, ";\n");
            }
            assert(out@ =~= const_variant_line(owner@, ident@, *v, wrapped));
        },
        None => {},
    }
    out
}

fn native_variants_of(idents: &Vec<Vec<u8>>, vs: &Vec<VkVariant>) -> (out: Vec<u8>)
    requires
        idents@.len() == vs@.len(),
    ensures
        out@ == join(native_variant_lines(names_of(idents@), vs@)),
{
    let mut lines: Vec<Vec<u8>> = Vec::new();
    let n = vs.len();
    let mut i: usize = 0;
    while i < n
        invariant
            i <= n,
            n == vs@.len(),
            n == idents@.len(),
            lines@.len() == i,
            forall|k: int|
                0 <= k < i ==> (#[trigger] lines@[k])@ == native_variant_line(
                    idents@[k]@,
                    vs@[k],
                ),
        decreases n - i,
    {
        lines.push(native_variant_line_of(idents[i].as_slice(), &vs[i]));
        i += 1;
    }
    assert(names_of(lines@) =~= native_variant_lines(names_of(idents@), vs@));
    join_all(&lines)
}

fn const_variants_of(owner: &[u8], idents: &Vec<Vec<u8>>, vs: &Vec<VkVariant>, wrapped: bool) -> (out:
    Vec<u8>)
    requires
        idents@.len() == vs@.len(),
    ensures
        out@ == join(const_variant_lines(owner@, names_of(idents@), vs@, wrapped)),
{
    let mut lines: Vec<Vec<u8>> = Vec::new();
    let n = vs.len();
    let mut i: usize = 0;
    while i < n
        invariant
            i <= n,
            n == vs@.len(),
            n == idents@.len(),
            lines@.len() == i,
            forall|k: int|
                0 <= k < i ==> (#[trigger] lines@[k])@ == const_variant_line(
                    owner@,
                    idents@[k]@,
                    vs@[k],
                    wrapped,
                ),
        decreases n - i,
    {
        lines.push(const_variant_line_of(owner, idents[i].as_slice(), &vs[i], wrapped));
        i += 1;
    }
    assert(names_of(lines@) =~= const_variant_lines(owner@, names_of(idents@), vs@, wrapped));
    join_all(&lines)
}

fn all_bits_of(vs: &Vec<VkVariant>) -> (bits: u64)
    ensures
        bits == all_bits(vs@),
{
    let mut bits: u64 = 0;
    let n = vs.len();
    let mut i: usize = 0;
    while i < n
        invariant
            i <= n,
            n == vs@.len(),
            bits == all_bits(vs@.take(i as int)),
        decreases n - i,
    {
        assert(vs@.take(i + 1).drop_last() =~= vs@.take(i as int));
        match variant_number(&vs[i]) {
            Some(x) => {
                if 0 <= x && x <= 0xffff_ffff {
                    bits = bits | (x as u64);
                }
            },
            None => {},
        }
        i += 1;
    }
    assert(vs@.take(n as int) =~= vs@);
    bits
}

fn enum_text_of(config: &GenConfig, name: &[u8], idents: &Vec<Vec<u8>>, vs: &Vec<VkVariant>) -> (out:
    Vec<u8>)
    requires
        idents@.len() == vs@.len(),
    ensures
        out@ == enum_text(*config, name@, names_of(idents@), vs@),
{
    let mut out: Vec<u8> = Vec::new();
    if config.use_native_enums && vs.len() > 0 {
        put(
            &mut out,
            "#[repr(C)]\n#[derive(Debug, Clone, Copy, PartialEq, Eq, Hash)]\npub enum ",
        );
        put_bytes(&mut out, name);
        put(&mut out, " {\n");
        put_bytes(&mut out, native_variants_of(idents, vs).as_slice());
        put(&mut out, "}\n");
    } else {
        put(&mut out, "pub type ");
        put_bytes(&mut out, name);
        put(&mut out, " = int32_t;\n");
        put_bytes(&mut out, const_variants_of(name, idents, vs, false).as_slice());
    }
    assert(out@ =~= enum_text(*config, name@, names_of(idents@), vs@));
    out
}

fn bitmask_text_of(config: &GenConfig, name: &[u8], idents: &Vec<Vec<u8>>, vs: &Vec<VkVariant>) -> (out:
    Vec<u8>)
    requires
        idents@.len() == vs@.len(),
    ensures
        out@ == bitmask_text(*config, name@, names_of(idents@), vs@),
{
    let mut out: Vec<u8> = Vec::new();
    if config.wrap_bitmasks && vs.len() > 0 {
        put(&mut out, "vk_bitflags_wrapped!(");
        put_bytes(&mut out, name);
        put(&mut out, ", ");
        put_int(&mut out, all_bits_of(vs) as i128);
        put(&mut out, ", uint32_t);\nimpl ");
        put_bytes(&mut out, name);
        put(&mut out, " {\n");
        put_bytes(&mut out, const_variants_of(name, idents, vs, true).as_slice());
        put(&mut out, "}\n");
    } else {
        put(&mut out, "pub type ");
        put_bytes(&mut out, name);
        put(&mut out, " = uint32_t;\n");
        put_bytes(&mut out, const_variants_of(name, idents, vs, false).as_slice());
    }
    assert(out@ =~= bitmask_text(*config, name@, names_of(idents@), vs@));
    out
}

fn handle_text_of(config: &GenConfig, name: &[u8], dispatchable: bool) -> (out: Vec<u8>)
    ensures
        out@ == handle_text(*config, name@, dispatchable),
{
    let mut out: Vec<u8> = Vec::new();
    if dispatchable {
        put(&mut out, "pub type ");
        put_bytes(&mut out, name);
        put(&mut out, " = usize;\n");
    } else if config.wrap_non_dispatchable_handles {
        put(&mut out, "handle_nondispatchable!(");
        put_bytes(&mut out, name);
        put(&mut out, ");\n");
    } else {
        put(&mut out, "pub type ");
        put_bytes(&mut out, name);
        put(&mut out, " = uint64_t;\n");
    }
    assert(out@ =~= handle_text(*config, name@, dispatchable));
    out
}

fn only_digits(s: &[u8]) -> (r: bool)
    ensures
        r == all_digits(s@, 10),
{
    let n = s.len();
    let mut i: usize = 0;
    while i < n
        invariant
            i <= n,
            n == s@.len(),
            forall|j: int| 0 <= j < i ==> (#[trigger] digit_value(s@[j], 10)).is_some(),
        decreases n - i,
    {
        if !(48 <= s[i] && s[i] <= 57) {
            assert(digit_value(s@[i as int], 10).is_none());
            return false;
        }
        i += 1;
    }
    true
}

fn is_float(s: &[u8]) -> (r: bool)
    ensures
        r == float_literal(s@),
{
    let n = s.len();
    match find_byte(s, 46) {
        None => {
            proof {
                crate::emit_model::lemma_first_byte_none(s@, 46);
            }
            false
        },
        Some(dot) => {
            proof {
                crate::emit_model::lemma_first_byte_some(s@, 46);
            }
            if !(0 < dot && n >= 3 && dot < n - 2 && s[n - 1] == 102) {
                assert(!float_literal(s@)) by {
                    if float_literal(s@) {
                        let d = choose|d: int|
                            0 < d < s@.len() - 2 && #[trigger] s@[d] == 46 && s@.last() == 102
                                && all_digits(s@.take(d), 10) && all_digits(
                                s@.subrange(d + 1, s@.len() - 1),
                                10,
                            );
                        if dot < d {
                            assert(s@.take(d)[dot as int] == 46);
                            assert(digit_value(s@.take(d)[dot as int], 10).is_some());
                        }
                    }
                }
                return false;
            }
            let head = vstd::slice::slice_subrange(s, 0, dot);
            let tail = vstd::slice::slice_subrange(s, dot + 1, n - 1);
            assert(head@ =~= s@.take(dot as int));
            assert(tail@ =~= s@.subrange(dot + 1, s@.len() - 1));
            let r = only_digits(head) && only_digits(tail);
            proof {
                if !r && float_literal(s@) {
                    let d = choose|d: int|
                        0 < d < s@.len() - 2 && #[trigger] s@[d] == 46 && s@.last() == 102
                            && all_digits(s@.take(d), 10) && all_digits(
                            s@.subrange(d + 1, s@.len() - 1),
                            10,
                        );
                    if dot < d {
                        assert(s@.take(d)[dot as int] == 46);
                        assert(digit_value(s@.take(d)[dot as int], 10).is_some());
                    }
                    assert(d == dot);
                }
            }
            r
        },
    }
}

/// The form of the value `s` of a constant.
pub fn const_form_of(s: &[u8]) -> (form: ConstForm)
    ensures
        form == const_form(s@),
{
    let n = s.len();
    if n > 0 && only_digits(s) {
        ConstForm::Number
    } else if is_float(s) {
        ConstForm::Float
    } else if is_word(s, "(~0U)") {
        ConstForm::AllBits32(0)
    } else if is_word(s, "(~0U-1)") {
        ConstForm::AllBits32(1)
    } else if is_word(s, "(~0U-2)") {
        ConstForm::AllBits32(2)
    } else if is_word(s, "(~0ULL)") {
        ConstForm::AllBits64
    } else if n >= 2 && s[0] == 34 && s[n - 1] == 34 {
        ConstForm::Text
    } else {
        ConstForm::Other
    }
}

fn const_text_of(name: &[u8], value: &[u8]) -> (out: Vec<u8>)
    ensures
        out@ == const_text(name@, value@),
{
    let mut out: Vec<u8> = Vec::new();
    match const_form_of(value) {
        ConstForm::Number => {
            put(&mut out, "pub const ");
            put_bytes(&mut out, name);
            put(&mut out, ": uint32_t = ");
            put_bytes(&mut out, value);
            put(&mut out, ";\n");
        },
        ConstForm::Float => {
            put(&mut out, "pub const ");
            put_bytes(&mut out, name);
            put(&mut out, ": c_float = ");
            let body = vstd::slice::slice_subrange(value, 0, value.len() - 1);
            assert(body@ =~= value@.drop_last());
            put_bytes(&mut out, body);
            put(&mut out, ";\n");
        },
        ConstForm::AllBits32(less) => {
            put(&mut out, "pub const ");
            put_bytes(&mut out, name);
            put(&mut out, ": uint32_t = !0 - ");
            put_int(&mut out, less as i128);
            put(&mut out, ";\n");
        },
        ConstForm::AllBits64 => {
            put(&mut out, "pub const ");
            put_bytes(&mut out, name);
            put(&mut out, ": uint64_t = !0;\n");
        },
        ConstForm::Text => {
            put(&mut out, "pub const ");
            put_bytes(&mut out, name);
            put(&mut out, ": &'static str = ");
            put_bytes(&mut out, value);
            put(&mut out, ";\n");
        },
        ConstForm::Other => {
            put(&mut out, "// ");
            put_bytes(&mut out, name);
            put(&mut out, " = ");
            put_bytes(&mut out, value);
            put(&mut out, "\n");
        },
    }
    assert(out@ =~= const_text(name@, value@));
    out
}

fn type_list_of(registry: &VkRegistry, config: &GenConfig, els: &Vec<VkElType>) -> (out: Vec<u8>)
    ensures
        out@ == join(type_list(registry@, *config, els@)),
{
    let mut lines: Vec<Vec<u8>> = Vec::new();
    let n = els.len();
    let mut i: usize = 0;
    while i < n
        invariant
            i <= n,
            n == els@.len(),
            lines@.len() == i,
            forall|k: int|
                0 <= k < i ==> (#[trigger] lines@[k])@ == param_text(registry@, *config, els@[k])
                    + lit(", "),
        decreases n - i,
    {
        let mut line = param_text_of(registry, config, &els[i]);
        put(&mut line, ", ");
        lines.push(line);
        i += 1;
    }
    assert(names_of(lines@) =~= type_list(registry@, *config, els@));
    join_all(&lines)
}

fn funcpointer_text_of(
    registry: &VkRegistry,
    config: &GenConfig,
    name: &[u8],
    ret: &VkElType,
    params: &Vec<VkElType>,
) -> (out: Vec<u8>)
    ensures
        out@ == funcpointer_text(registry@, *config, name@, *ret, params@),
{
    let mut out: Vec<u8> = Vec::new();
    put(&mut out, "pub type ");
    put_bytes(&mut out, name);
    put(&mut out, " = unsafe extern \"system\" fn(");
    put_bytes(&mut out, type_list_of(registry, config, params).as_slice());
    put(&mut out, ") -> ");
    put_bytes(&mut out, el_text_of(registry, config, ret).as_slice());
    put(&mut out, ";\n");
    assert(out@ =~= funcpointer_text(registry@, *config, name@, *ret, params@));
    out
}

fn extern_text_of(registry: &VkRegistry, name: &[u8], req: InternedRef) -> (out: Vec<u8>)
    ensures
        out@ == extern_text(registry@, name@, req),
{
    let mut out: Vec<u8> = Vec::new();
    if req.is_null() || is_word(registry.text(req), "vk_platform") {
    } else {
        put(&mut out, "pub type ");
        put_bytes(&mut out, name);
        put(&mut out, " = usize;\n");
        assert(out@ =~= extern_text(registry@, name@, req));
    }
    out
}

fn variant_names_of(registry: &VkRegistry, vs: &Vec<VkVariant>) -> (out: Vec<Vec<u8>>)
    ensures
        names_of(out@) == variant_names(registry@, vs@),
        out@.len() == vs@.len(),
{
    let mut out: Vec<Vec<u8>> = Vec::new();
    let n = vs.len();
    let mut i: usize = 0;
    while i < n
        invariant
            i <= n,
            n == vs@.len(),
            out@.len() == i,
            forall|k: int|
                0 <= k < i ==> (#[trigger] out@[k])@ == registry@.text(vs@[k].spec_name()),
        decreases n - i,
    {
        out.push(vstd::slice::slice_to_vec(registry.text(vs[i].name())));
        i += 1;
    }
    assert(names_of(out@) =~= variant_names(registry@, vs@));
    out
}

/// The declaration of the type at `t` of the registry, with the variants
/// that the selection gives it.
pub fn type_decl_of(registry: &VkRegistry, selection: &Selection, config: &GenConfig, t: usize) -> (out:
    Vec<u8>)
    requires
        t < registry@.types.len(),
    ensures
        out@ == type_decl(registry@, selection@, *config, t as int),
{
    let types = registry.types();
    assert(types_view(types@)[t as int] == types@[t as int]@);
    match &types[t] {
        VkType::Struct { name, fields } => {
            let ident = lower_type_name(config, registry.text(*name));
            struct_text_of(registry, config, ident.as_slice(), fields)
        },
        VkType::Union { name, variants } => {
            let ident = lower_type_name(config, registry.text(*name));
            union_text_of(registry, config, ident.as_slice(), variants)
        },
        VkType::Enum { name, .. } => {
            let vs = final_variants_of(registry, selection, t);
            let names = variant_names_of(registry, &vs);
            let idents = lower_variant_names(config, registry.text(*name), false, &names);
            let ident = lower_type_name(config, registry.text(*name));
            enum_text_of(config, ident.as_slice(), &idents, &vs)
        },
        VkType::Bitmask { name, .. } => {
            let vs = final_variants_of(registry, selection, t);
            let names = variant_names_of(registry, &vs);
            let idents = lower_variant_names(config, registry.text(*name), true, &names);
            let ident = lower_type_name(config, registry.text(*name));
            bitmask_text_of(config, ident.as_slice(), &idents, &vs)
        },
        VkType::Handle { name, dispatchable } => {
            let ident = lower_type_name(config, registry.text(*name));
            handle_text_of(config, ident.as_slice(), *dispatchable)
        },
        VkType::TypeDef { typ, name, .. } => {
            let mut out: Vec<u8> = Vec::new();
            put(&mut out, "pub type ");
            put_bytes(&mut out, lower_type_name(config, registry.text(*name)).as_slice());
            put(&mut out, " = ");
            put_bytes(&mut out, type_text_of(registry, config, *typ).as_slice());
            put(&mut out, ";\n");
            assert(out@ =~= type_decl(registry@, selection@, *config, t as int));
            out
        },
        VkType::ApiConst { name, value } => {
            let ident = lower_const_name(config, registry.text(*name));
            const_text_of(ident.as_slice(), registry.text(*value))
        },
        VkType::Define { .. } => Vec::new(),
        VkType::FuncPointer { name, ret, params } => {
            let ident = lower_type_name(config, registry.text(*name));
            funcpointer_text_of(registry, config, ident.as_slice(), ret, params)
        },
        VkType::ExternType { name, requires: req } => {
            let ident = lower_type_name(config, registry.text(*name));
            extern_text_of(registry, ident.as_slice(), *req)
        },
        VkType::Unhandled => Vec::new(),
    }
}

fn param_parts_of(registry: &VkRegistry, config: &GenConfig, params: &Vec<VkParam>) -> (out: (
    Vec<u8>,
    Vec<u8>,
    Vec<u8>,
))
    ensures
        out.0@ == join(param_decls(registry@, *config, params@)),
        out.1@ == join(param_types(registry@, *config, params@)),
        out.2@ == join(param_names(registry@, *config, params@)),
{
    let mut decls: Vec<Vec<u8>> = Vec::new();
    let mut types: Vec<Vec<u8>> = Vec::new();
    let mut names: Vec<Vec<u8>> = Vec::new();
    let n = params.len();
    let mut i: usize = 0;
    while i < n
        invariant
            i <= n,
            n == params@.len(),
            decls@.len() == i,
            types@.len() == i,
            names@.len() == i,
            forall|k: int|
                0 <= k < i ==> (#[trigger] decls@[k])@ == param_decls(
                    registry@,
                    *config,
                    params@,
                )[k],
            forall|k: int|
                0 <= k < i ==> (#[trigger] types@[k])@ == param_types(
                    registry@,
                    *config,
                    params@,
                )[k],
            forall|k: int|
                0 <= k < i ==> (#[trigger] names@[k])@ == param_names(
                    registry@,
                    *config,
                    params@,
                )[k],
        decreases n - i,
    {
        let ident = lower_member_name(config, registry.text(params[i].name));
        let ty = param_text_of(registry, config, &params[i].typ);
        let mut decl: Vec<u8> = Vec::new();
        put_bytes(&mut decl, ident.as_slice());
        put(&mut decl, ": ");
        put_bytes(&mut decl, ty.as_slice());
        put(&mut decl, ", ");
        assert(decl@ =~= param_decls(registry@, *config, params@)[i as int]);
        let mut only_type: Vec<u8> = Vec::new();
        put_bytes(&mut only_type, ty.as_slice());
        put(&mut only_type, ", ");
        assert(only_type@ =~= param_types(registry@, *config, params@)[i as int]);
        let mut only_name: Vec<u8> = Vec::new();
        put_bytes(&mut only_name, ident.as_slice());
        put(&mut only_name, ", ");
        assert(only_name@ =~= param_names(registry@, *config, params@)[i as int]);
        decls.push(decl);
        types.push(only_type);
        names.push(only_name);
        i += 1;
    }
    assert(names_of(decls@) =~= param_decls(registry@, *config, params@));
    assert(names_of(types@) =~= param_types(registry@, *config, params@));
    assert(names_of(names@) =~= param_names(registry@, *config, params@));
    (join_all(&decls), join_all(&types), join_all(&names))
}

fn put_slot(out: &mut Vec<u8>, flavor: Flavor, raw: &[u8])
    ensures
        final(out)@ == old(out)@ + (match flavor {
            Flavor::Global => lit("ptr_") + raw@,
            Flavor::Struct => lit("self.") + raw@,
        }),
{
    let ghost before = out@;
    match flavor {
        Flavor::Global => put(out, "ptr_"),
        Flavor::Struct => put(out, "self."),
    }
    put_bytes(out, raw);
    assert(out@ =~= before + (match flavor {
        Flavor::Global => lit("ptr_") + raw@,
        Flavor::Struct => lit("self.") + raw@,
    }));
}

fn command_fn_of(registry: &VkRegistry, config: &GenConfig, flavor: Flavor, c: &VkCommand) -> (out:
    Vec<u8>)
    ensures
        out@ == command_fn(registry@, *config, flavor, c@),
{
    let mut out: Vec<u8> = Vec::new();
    let raw = registry.text(c.name);
    let ident = lower_command_name(config, raw);
    let ret = el_text_of(registry, config, &c.ret);
    let parts = param_parts_of(registry, config, &c.params);
    match flavor {
        Flavor::Global => {
            put(&mut out, "pub unsafe fn ");
            put_bytes(&mut out, ident.as_slice());
            put(&mut out, "(");
        },
        Flavor::Struct => {
            put(&mut out, "    pub unsafe fn ");
            put_bytes(&mut out, ident.as_slice());
            put(&mut out, "(&self, ");
        },
    }
    put_bytes(&mut out, parts.0.as_slice());
    put(&mut out, ") -> ");
    put_bytes(&mut out, ret.as_slice());
    put(
        &mut out,
        " {\n        ::std::mem::transmute::<*const (), unsafe extern \"system\" fn(",
    );
    put_bytes(&mut out, parts.1.as_slice());
    put(&mut out, ") -> ");
    put_bytes(&mut out, ret.as_slice());
    put(&mut out, ">(");
    put_slot(&mut out, flavor, raw);
    put(&mut out, ")(");
    put_bytes(&mut out, parts.2.as_slice());
    put(&mut out, ")\n    }\n");
    assert(out@ =~= command_fn(registry@, *config, flavor, c@));
    out
}

fn load_lines_of(flavor: Flavor, raw: &[u8]) -> (out: Vec<u8>)
    ensures
        out@ == load_lines(flavor, raw@),
{
    let mut out: Vec<u8> = Vec::new();
    put(&mut out, "        let p = load_fn(\"");
    put_bytes(&mut out, raw);
    put(&mut out, "\");\n        if !p.is_null() { ");
    put_slot(&mut out, flavor, raw);
    put(&mut out, " = p; } else if ");
    put_slot(&mut out, flavor, raw);
    put(&mut out, " == unloaded_function_panic as *const () { unloaded.push(\"");
    put_bytes(&mut out, raw);
    put(&mut out, "\"); }\n");
    assert(out@ =~= load_lines(flavor, raw@));
    out
}

/// What the emitter of the flavor `flavor` writes for the selected commands:
/// their slots, the functions through which they are called, and the loader.
pub fn commands_text_of(
    registry: &VkRegistry,
    selection: &Selection,
    config: &GenConfig,
    flavor: Flavor,
) -> (out: Vec<u8>)
    requires
        selection@.fits(registry@),
    ensures
        out@ == commands_text(
            registry@,
            *config,
            flavor,
            picked_commands(registry@, selection@),
        ),
{
    let commands = registry.commands();
    let order = selection.commands();
    let ghost cs = picked_commands(registry@, selection@);
    let mut slots: Vec<Vec<u8>> = Vec::new();
    let mut inits: Vec<Vec<u8>> = Vec::new();
    let mut loads: Vec<Vec<u8>> = Vec::new();
    let mut fns: Vec<Vec<u8>> = Vec::new();
    let n = order.len();
    let mut i: usize = 0;
    while i < n
        invariant
            i <= n,
            n == order@.len(),
            order@ == selection@.commands,
            selection@.fits(registry@),
            commands_view(commands@) == registry@.commands,
            cs == picked_commands(registry@, selection@),
            slots@.len() == i,
            inits@.len() == i,
            loads@.len() == i,
            fns@.len() == i,
            forall|k: int|
                0 <= k < i ==> (#[trigger] slots@[k])@ == (match flavor {
                    Flavor::Global => global_slots(registry@, cs)[k],
                    Flavor::Struct => struct_slots(registry@, cs)[k],
                }),
            forall|k: int| 0 <= k < i ==> (#[trigger] inits@[k])@ == struct_inits(registry@, cs)[k],
            forall|k: int|
                0 <= k < i ==> (#[trigger] loads@[k])@ == all_load_lines(registry@, flavor, cs)[k],
            forall|k: int|
                0 <= k < i ==> (#[trigger] fns@[k])@ == command_fns(
                    registry@,
                    *config,
                    flavor,
                    cs,
                )[k],
        decreases n - i,
    {
        let at = order[i];
        assert(selection@.commands[i as int] < registry@.commands.len());
        assert(commands_view(commands@)[at as int] == commands@[at as int]@);
        let c = &commands[at];
        assert(cs[i as int] == c@);
        let raw = registry.text(c.name);
        let mut slot: Vec<u8> = Vec::new();
        match flavor {
            Flavor::Global => {
                put(&mut slot, "static mut ptr_");
                put_bytes(&mut slot, raw);
                put(&mut slot, ": *const () = unloaded_function_panic as *const ();\n");
                assert(slot@ =~= global_slot(raw@));
            },
            Flavor::Struct => {
                put(&mut slot, "    ");
                put_bytes(&mut slot, raw);
                put(&mut slot, ": *const (),\n");
                assert(slot@ =~= lit("    ") + raw@ + lit(": *const (),\n"));
            },
        }
        let mut init: Vec<u8> = Vec::new();
        put(&mut init, "            ");
        put_bytes(&mut init, raw);
        put(&mut init, ": unloaded_function_panic as *const (),\n");
        assert(init@ =~= lit("            ") + raw@ + lit(
            ": unloaded_function_panic as *const (),\n",
        ));
        slots.push(slot);
        inits.push(init);
        loads.push(load_lines_of(flavor, raw));
        fns.push(command_fn_of(registry, config, flavor, c));
        i += 1;
    }
    assert(names_of(inits@) =~= struct_inits(registry@, cs));
    assert(names_of(loads@) =~= all_load_lines(registry@, flavor, cs));
    assert(names_of(fns@) =~= command_fns(registry@, *config, flavor, cs));
    let mut out: Vec<u8> = Vec::new();
    match flavor {
        Flavor::Global => {
            assert(names_of(slots@) =~= global_slots(registry@, cs));
            put_bytes(&mut out, join_all(&slots).as_slice());
            put_bytes(&mut out, join_all(&fns).as_slice());
            put(&mut out, crate::prelude::GLOBAL_LOADER_HEAD);
            put_bytes(&mut out, join_all(&loads).as_slice());
            put(&mut out, crate::prelude::GLOBAL_LOADER_TAIL);
        },
        Flavor::Struct => {
            assert(names_of(slots@) =~= struct_slots(registry@, cs));
            put(&mut out, "pub struct Vk {\n");
            put_bytes(&mut out, join_all(&slots).as_slice());
            put(&mut out, "}\nimpl Vk {\n    pub fn new() -> Vk {\n        Vk {\n");
            put_bytes(&mut out, join_all(&inits).as_slice());
            put(&mut out, "        }\n    }\n");
            put(&mut out, crate::prelude::STRUCT_LOADER_HEAD);
            put_bytes(&mut out, join_all(&loads).as_slice());
            put(&mut out, crate::prelude::STRUCT_LOADER_TAIL);
            put_bytes(&mut out, join_all(&fns).as_slice());
            put(&mut out, "}\n");
        },
    }
    assert(out@ =~= commands_text(registry@, *config, flavor, cs));
    out
}

fn group_at(t: &VkType) -> (group: Group)
    ensures
        group == group_of(t@),
{
    match t {
        VkType::Enum { .. } => Group::Enums,
        VkType::Bitmask { .. } => Group::Enums,
        VkType::Union { .. } => Group::Unions,
        VkType::FuncPointer { .. } => Group::Pointers,
        _ => Group::Plain,
    }
}

/// The declarations of the selected types of the group `group`, in the order
/// of the selection.
pub fn group_text_of(
    registry: &VkRegistry,
    selection: &Selection,
    config: &GenConfig,
    group: Group,
) -> (out: Vec<u8>)
    requires
        selection@.fits(registry@),
    ensures
        out@ == join(group_decls(registry@, selection@, *config, group)),
{
    let types = registry.types();
    let order = selection.types();
    let mut decls: Vec<Vec<u8>> = Vec::new();
    let n = order.len();
    let mut i: usize = 0;
    while i < n
        invariant
            i <= n,
            n == order@.len(),
            order@ == selection@.types,
            selection@.fits(registry@),
            types_view(types@) == registry@.types,
            decls@.len() == i,
            forall|k: int|
                0 <= k < i ==> (#[trigger] decls@[k])@ == group_decls(
                    registry@,
                    selection@,
                    *config,
                    group,
                )[k],
        decreases n - i,
    {
        assert(selection@.types[i as int] < registry@.types.len());
        let t = order[i];
        assert(types_view(types@)[t as int] == types@[t as int]@);
        if group_at(&types[t]) == group {
            decls.push(type_decl_of(registry, selection, config, t));
        } else {
            decls.push(Vec::new());
        }
        i += 1;
    }
    assert(names_of(decls@) =~= group_decls(registry@, selection@, *config, group));
    join_all(&decls)
}

/// Serialises the selection `selection` of `registry` as source text: the
/// preamble; the declarations of the selected types, the plain ones first,
/// then the enums, the unions and the function pointers; the constants that
/// extensions define; and the commands with their loader.
pub fn emit(registry: &VkRegistry, selection: &Selection, config: &GenConfig, flavor: Flavor) -> (out:
    Vec<u8>)
    requires
        selection@.fits(registry@),
    ensures
        out@ == emitted(registry@, selection@, *config, flavor),
{
    let mut out: Vec<u8> = Vec::new();
    put(&mut out, crate::prelude::COMMON);
    put(&mut out, crate::prelude::DEFINES);
    if config.use_libc_types {
        put(&mut out, crate::prelude::LIBC_TYPES);
    } else {
        put(&mut out, crate::prelude::PLAIN_TYPES);
    }
    assert(out@ =~= preamble(*config));
    let plain = group_text_of(registry, selection, config, Group::Plain);
    let enums = group_text_of(registry, selection, config, Group::Enums);
    let unions = group_text_of(registry, selection, config, Group::Unions);
    let pointers = group_text_of(registry, selection, config, Group::Pointers);
    put_bytes(&mut out, plain.as_slice());
    put_bytes(&mut out, enums.as_slice());
    put_bytes(&mut out, unions.as_slice());
    put_bytes(&mut out, pointers.as_slice());
    assert(out@ =~= preamble(*config) + type_decls(registry@, selection@, *config));
    let defs = selection.const_defs();
    let mut lines: Vec<Vec<u8>> = Vec::new();
    let m = defs.len();
    let mut i: usize = 0;
    while i < m
        invariant
            i <= m,
            m == defs@.len(),
            defs@ == selection@.const_defs,
            lines@.len() == i,
            forall|k: int|
                0 <= k < i ==> (#[trigger] lines@[k])@ == const_def_decls(
                    registry@,
                    *config,
                    defs@,
                )[k],
        decreases m - i,
    {
        let ident = lower_const_name(config, registry.text(defs[i].name));
        lines.push(const_text_of(ident.as_slice(), registry.text(defs[i].value)));
        i += 1;
    }
    assert(names_of(lines@) =~= const_def_decls(registry@, *config, defs@));
    put_bytes(&mut out, join_all(&lines).as_slice());
    put_bytes(&mut out, commands_text_of(registry, selection, config, flavor).as_slice());
    assert(out@ =~= emitted(registry@, selection@, *config, flavor));
    out
}

/// What it is to generate: to select, and to emit what was selected.
pub open spec fn generated(
    reg: crate::registry::RegistryView,
    target: VkVersion,
    names: Seq<Seq<u8>>,
    config: GenConfig,
    flavor: Flavor,
) -> Result<Seq<u8>, SelectError> {
    match selected(reg, target, names) {
        Ok(s) => Ok(emitted(reg, s, config, flavor)),
        Err(e) => Err(e),
    }
}

/// Generates the bindings for the version `target` and the extensions
/// `extensions`: the text is a function of the registry, the version, the
/// extensions, the configuration and the flavor alone.
pub fn generate(
    registry: &VkRegistry,
    target: VkVersion,
    extensions: &[&str],
    config: &GenConfig,
    flavor: Flavor,
) -> (r: Result<Vec<u8>, SelectError>)
    requires
        registry@.wf(),
    ensures
        match generated(registry@, target, names_view(extensions@), *config, flavor) {
            Ok(text) => r matches Ok(out) && out@ == text,
            Err(e) => r matches Err(x) && x == e,
        },
{
    match select(registry, target, extensions) {
        Ok(selection) => Ok(emit(registry, &selection, config, flavor)),
        Err(e) => Err(e),
    }
}

} // verus!
