//! The emitted text, stated on the views of the registry and the selection.

use crate::arena::InternedRef;
use crate::config::GenConfig;
use crate::eltype::VkElType;
use crate::lowering::command_ident;
use crate::lowering::const_ident;
use crate::lowering::member_ident;
use crate::lowering::type_ident;
use crate::lowering::variant_idents;
use crate::model::CommandView;
use crate::model::TypeView;
use crate::model::VkMember;
use crate::model::VkParam;
use crate::model::VkVariant;
use crate::registry::RegistryView;
use crate::selection_model::final_variants;
use crate::selection_model::variant_keys;
use crate::selection_model::ConstDef;
use crate::selection_model::SelectionView;
use crate::text::all_digits;
use crate::text::decimal_literal;
use crate::text::digit_value;
use crate::text::digits_value;
use crate::text::int_literal;
use crate::text::unsigned_literal;
use vstd::arithmetic::power2::pow2;
use vstd::prelude::*;
use vstd::string::StringSliceAdditionalSpecFns;

verus! {

/// Which of the two emitters writes the commands.
#[derive(Clone, Copy, Debug, PartialEq, Eq, Structural)]
pub enum Flavor {
    /// One slot for each command, for the whole process.
    Global,
    /// A record that owns one slot for each command.
    Struct,
}

/// The bytes of the text `s`.
pub open spec fn lit(s: &str) -> Seq<u8> {
    s.spec_bytes()
}

/// The parts of `parts` one after the other.
pub open spec fn join(parts: Seq<Seq<u8>>) -> Seq<u8>
    decreases parts.len(),
{
    if parts.len() == 0 {
        Seq::empty()
    } else {
        join(parts.drop_last()) + parts.last()
    }
}

/// `n` times `s`.
pub open spec fn repeated(s: Seq<u8>, n: nat) -> Seq<u8>
    decreases n,
{
    if n == 0 {
        Seq::empty()
    } else {
        repeated(s, (n - 1) as nat) + s
    }
}

/// The decimal digits of `n`.
pub open spec fn digits(n: nat) -> Seq<u8>
    decreases n,
{
    if n < 10 {
        seq![(48 + n) as u8]
    } else {
        digits(n / 10).push((48 + n % 10) as u8)
    }
}

/// The decimal text of `x`.
pub open spec fn int_text(x: int) -> Seq<u8> {
    if x < 0 {
        seq![45u8] + digits((-x) as nat)
    } else {
        digits(x as nat)
    }
}

/// The digits of a number are digits, and they write the number.
pub proof fn lemma_digits_value(n: nat)
    ensures
        digits(n).len() > 0,
        all_digits(digits(n), 10),
        digits_value(digits(n), 10) == n,
        digits(n)[0] != 45,
        n > 0 ==> digits(n)[0] != 48,
        n == 0 ==> digits(n) == seq![48u8],
    decreases n,
{
    if n >= 10 {
        lemma_digits_value(n / 10);
        let head = digits(n / 10);
        let all = digits(n);
        assert(all.drop_last() =~= head);
        assert forall|i: int| 0 <= i < all.len() implies (#[trigger] digit_value(
            all[i],
            10,
        )).is_some() by {
            if i < head.len() {
                assert(all[i] == head[i]);
                assert(digit_value(head[i], 10).is_some());
            }
        }
        assert(all[0] == head[0]);
        assert(all.last() == (48 + n % 10) as u8);
        assert(digit_value(all.last(), 10) == Some(n % 10));
        assert(digits_value(all, 10) == digits_value(head, 10) * 10 + n % 10);
        assert((n / 10) * 10 + n % 10 == n);
    } else {
        let all = digits(n);
        assert(all.drop_last() =~= Seq::<u8>::empty());
        assert(all.last() == (48 + n) as u8);
        assert(digit_value(all.last(), 10) == Some(n));
        assert(digits_value(all.drop_last(), 10) == 0);
        assert(digits_value(all, 10) == 0 * 10 + n);
    }
}

/// What is emitted for an integer reads back as that integer.
pub proof fn lemma_int_text_reads_back(x: int)
    ensures
        int_literal(int_text(x)) == Some(x),
{
    if x < 0 {
        let n = (-x) as nat;
        lemma_digits_value(n);
        let s = int_text(x);
        assert(s.skip(1) =~= digits(n));
        assert(s[0] == 45);
        lemma_decimal_is_unsigned(digits(n), n);
    } else {
        lemma_digits_value(x as nat);
        lemma_decimal_is_unsigned(digits(x as nat), x as nat);
    }
}

proof fn lemma_decimal_is_unsigned(s: Seq<u8>, n: nat)
    requires
        s == digits(n),
        s.len() > 0,
        all_digits(s, 10),
        digits_value(s, 10) == n,
        n > 0 ==> s[0] != 48,
        n == 0 ==> s == seq![48u8],
    ensures
        unsigned_literal(s) == Some(n),
{
    if s.len() > 2 && s[0] == 48 {
        assert(n > 0);
    }
}

/// Where `s` has no byte `b`, none of its bytes is `b`.
pub proof fn lemma_first_byte_none(s: Seq<u8>, b: u8)
    requires
        crate::text::first_byte(s, b).is_none(),
    ensures
        forall|j: int| 0 <= j < s.len() ==> s[j] != b,
    decreases s.len(),
{
    if s.len() > 0 {
        lemma_first_byte_none(s.drop_first(), b);
        assert forall|j: int| 0 <= j < s.len() implies s[j] != b by {
            if j > 0 {
                assert(s.drop_first()[j - 1] == s[j]);
            }
        }
    }
}

/// The first byte `b` of `s` is a byte `b`, and none before it is.
pub proof fn lemma_first_byte_some(s: Seq<u8>, b: u8)
    requires
        crate::text::first_byte(s, b).is_some(),
    ensures
        0 <= crate::text::first_byte(s, b).unwrap() < s.len(),
        s[crate::text::first_byte(s, b).unwrap()] == b,
        forall|j: int| 0 <= j < crate::text::first_byte(s, b).unwrap() ==> s[j] != b,
    decreases s.len(),
{
    if s.len() > 0 && s[0] != b {
        lemma_first_byte_some(s.drop_first(), b);
        let at = crate::text::first_byte(s.drop_first(), b).unwrap();
        assert forall|j: int| 0 <= j < at + 1 implies s[j] != b by {
            if j > 0 {
                assert(s.drop_first()[j - 1] == s[j]);
            }
        }
    }
}

/// The integer that is emitted for a variant: its value, or the one bit at
/// its position; none for a bit beyond the sixty-fourth.
pub open spec fn variant_value(v: VkVariant) -> Option<int> {
    match v {
        VkVariant::Value { value, .. } => Some(value as int),
        VkVariant::Bitpos { bitpos, .. } => if bitpos < 64 {
            Some(pow2(bitpos as nat) as int)
        } else {
            None
        },
    }
}

/// The name of a type of C as the emitted text spells it.
pub open spec fn c_name(name: Seq<u8>) -> Seq<u8> {
    if name == lit("void") || name == lit("char") || name == lit("float") || name == lit("double")
        || name == lit("int") {
        lit("c_") + name
    } else {
        name
    }
}

/// The emitted name of the type that `name` refers to.
pub open spec fn type_text(reg: RegistryView, config: GenConfig, name: InternedRef) -> Seq<u8> {
    if name == InternedRef::Null {
        lit("c_void")
    } else {
        c_name(type_ident(config, reg.text(name)))
    }
}

/// The emitted type of an element.
pub open spec fn el_text(reg: RegistryView, config: GenConfig, el: VkElType) -> Seq<u8> {
    match el {
        VkElType::Var(t) => type_text(reg, config, t),
        VkElType::Const(t) => type_text(reg, config, t),
        VkElType::ConstPtr(t, n) => repeated(lit("*const "), n as nat) + type_text(reg, config, t),
        VkElType::MutPtr(t, n) => repeated(lit("*mut "), n as nat) + type_text(reg, config, t),
        VkElType::ConstArray(t, n) => lit("[") + type_text(reg, config, t) + lit("; ") + int_text(
            n as int,
        ) + lit("]"),
        VkElType::MutArray(t, n) => lit("[") + type_text(reg, config, t) + lit("; ") + int_text(
            n as int,
        ) + lit("]"),
        VkElType::ConstArrayEnum(t, e) => lit("[") + type_text(reg, config, t) + lit("; ")
            + const_ident(config, reg.text(e)) + lit(" as usize]"),
        VkElType::MutArrayEnum(t, e) => lit("[") + type_text(reg, config, t) + lit("; ")
            + const_ident(config, reg.text(e)) + lit(" as usize]"),
        VkElType::Void => lit("()"),
        VkElType::Unknown => lit("()"),
    }
}

/// The emitted type of a parameter: an array is passed by its address.
pub open spec fn param_text(reg: RegistryView, config: GenConfig, el: VkElType) -> Seq<u8> {
    if el.is_array() {
        lit("*const ") + el_text(reg, config, el)
    } else {
        el_text(reg, config, el)
    }
}

/// One line for a member of a struct or union.
pub open spec fn field_line(reg: RegistryView, config: GenConfig, m: VkMember, public: bool) -> Seq<
    u8,
> {
    (if public {
        lit("    pub ")
    } else {
        lit("    ")
    }) + member_ident(config, reg.text(m.field_name)) + lit(": ") + el_text(
        reg,
        config,
        m.field_type,
    ) + lit(",\n")
}

/// The lines for the members `fields`.
pub open spec fn field_lines(
    reg: RegistryView,
    config: GenConfig,
    fields: Seq<VkMember>,
    public: bool,
) -> Seq<Seq<u8>> {
    Seq::new(fields.len(), |i: int| field_line(reg, config, fields[i], public))
}

/// One accessor for a member of a union.
pub open spec fn accessor_line(reg: RegistryView, config: GenConfig, m: VkMember) -> Seq<u8> {
    lit("    pub unsafe fn ") + member_ident(config, reg.text(m.field_name)) + lit("(&self) -> &")
        + el_text(reg, config, m.field_type) + lit(" { &self.") + member_ident(
        config,
        reg.text(m.field_name),
    ) + lit(" }\n")
}

/// The accessors for the members `fields`.
pub open spec fn accessor_lines(reg: RegistryView, config: GenConfig, fields: Seq<VkMember>) -> Seq<
    Seq<u8>,
> {
    Seq::new(fields.len(), |i: int| accessor_line(reg, config, fields[i]))
}

/// The declaration of a struct.
pub open spec fn struct_text(reg: RegistryView, config: GenConfig, name: Seq<u8>, fields: Seq<VkMember>) -> Seq<
    u8,
> {
    lit("#[repr(C)]\n#[derive(Clone, Copy)]\npub struct ") + name + lit(" {\n") + join(
        field_lines(reg, config, fields, true),
    ) + lit("}\n")
}

/// The declaration of a union: with public fields, or with private fields
/// and one accessor for each.
pub open spec fn union_text(reg: RegistryView, config: GenConfig, name: Seq<u8>, fields: Seq<VkMember>) -> Seq<
    u8,
> {
    if config.use_native_unions {
        lit("#[repr(C)]\n#[derive(Clone, Copy)]\npub union ") + name + lit(" {\n") + join(
            field_lines(reg, config, fields, true),
        ) + lit("}\n")
    } else {
        lit("#[repr(C)]\n#[derive(Clone, Copy)]\npub union ") + name + lit(" {\n") + join(
            field_lines(reg, config, fields, false),
        ) + lit("}\nimpl ") + name + lit(" {\n") + join(accessor_lines(reg, config, fields)) + lit(
            "}\n",
        )
    }
}

/// One line for a variant of an enum of the target language; nothing for a
/// variant that has no value.
pub open spec fn native_variant_line(ident: Seq<u8>, v: VkVariant) -> Seq<u8> {
    match variant_value(v) {
        Some(x) => lit("    ") + ident + lit(" = ") + int_text(x) + lit(",\n"),
        None => Seq::empty(),
    }
}

/// One constant for a variant; nothing for a variant that has no value.
pub open spec fn const_variant_line(owner: Seq<u8>, ident: Seq<u8>, v: VkVariant, wrapped: bool) -> Seq<
    u8,
> {
    match variant_value(v) {
        Some(x) => if wrapped {
            lit("    pub const ") + ident + lit(": ") + owner + lit(" = ") + owner + lit(
                " { flags: ",
            ) + int_text(x) + lit(" };\n")
        } else {
            lit("pub const ") + ident + lit(": ") + owner + lit(" = ") + int_text(x) + lit(";\n")
        },
        None => Seq::empty(),
    }
}

/// The lines for the variants `vs` under the names `idents`, inside an enum
/// of the target language.
pub open spec fn native_variant_lines(idents: Seq<Seq<u8>>, vs: Seq<VkVariant>) -> Seq<Seq<u8>> {
    Seq::new(vs.len(), |i: int| native_variant_line(idents[i], vs[i]))
}

/// The constants for the variants `vs` under the names `idents`.
pub open spec fn const_variant_lines(
    owner: Seq<u8>,
    idents: Seq<Seq<u8>>,
    vs: Seq<VkVariant>,
    wrapped: bool,
) -> Seq<Seq<u8>> {
    Seq::new(vs.len(), |i: int| const_variant_line(owner, idents[i], vs[i], wrapped))
}

/// The bits of the values of `vs` that fit a flag word, all together.
pub open spec fn all_bits(vs: Seq<VkVariant>) -> u64
    decreases vs.len(),
{
    if vs.len() == 0 {
        0
    } else {
        let rest = all_bits(vs.drop_last());
        match variant_value(vs.last()) {
            Some(x) => if 0 <= x <= u32::MAX {
                rest | (x as u64)
            } else {
                rest
            },
            None => rest,
        }
    }
}

/// The declaration of an enum with the variants `vs`: an enum of the target
/// language where that is asked for and there is a variant, else an integer
/// type with one constant for each variant.
pub open spec fn enum_text(
    config: GenConfig,
    name: Seq<u8>,
    idents: Seq<Seq<u8>>,
    vs: Seq<VkVariant>,
) -> Seq<u8> {
    if config.use_native_enums && vs.len() > 0 {
        lit("#[repr(C)]\n#[derive(Debug, Clone, Copy, PartialEq, Eq, Hash)]\npub enum ") + name + lit(
            " {\n",
        ) + join(native_variant_lines(idents, vs)) + lit("}\n")
    } else {
        lit("pub type ") + name + lit(" = int32_t;\n") + join(
            const_variant_lines(name, idents, vs, false),
        )
    }
}

/// The declaration of a bitmask with the variants `vs`: a wrapper with
/// operators, and one constant of the wrapper for each variant, where that
/// is asked for and there is a variant; else a flag word, and one constant
/// for each variant.
pub open spec fn bitmask_text(
    config: GenConfig,
    name: Seq<u8>,
    idents: Seq<Seq<u8>>,
    vs: Seq<VkVariant>,
) -> Seq<u8> {
    if config.wrap_bitmasks && vs.len() > 0 {
        lit("vk_bitflags_wrapped!(") + name + lit(", ") + int_text(all_bits(vs) as int) + lit(
            ", uint32_t);\nimpl ",
        ) + name + lit(" {\n") + join(const_variant_lines(name, idents, vs, true)) + lit("}\n")
    } else {
        lit("pub type ") + name + lit(" = uint32_t;\n") + join(
            const_variant_lines(name, idents, vs, false),
        )
    }
}

/// The declaration of a handle.
pub open spec fn handle_text(config: GenConfig, name: Seq<u8>, dispatchable: bool) -> Seq<u8> {
    if dispatchable {
        lit("pub type ") + name + lit(" = usize;\n")
    } else if config.wrap_non_dispatchable_handles {
        lit("handle_nondispatchable!(") + name + lit(");\n")
    } else {
        lit("pub type ") + name + lit(" = uint64_t;\n")
    }
}

/// What the value of a constant is written as in C.
#[derive(Clone, Copy, Debug, PartialEq, Eq, Structural)]
pub enum ConstForm {
    /// Decimal digits.
    Number,
    /// A number with a fraction and an `f` at its end.
    Float,
    /// All bits of a word of 32 bits, less the number after the `-`.
    AllBits32(u8),
    /// All bits of a word of 64 bits.
    AllBits64,
    /// A text between quotes.
    Text,
    /// Anything else.
    Other,
}

/// Whether `s` is digits, one `.`, digits and an `f`.
pub open spec fn float_literal(s: Seq<u8>) -> bool {
    exists|dot: int|
        0 < dot < s.len() - 2 && #[trigger] s[dot] == 46 && s.last() == 102 && all_digits(
            s.take(dot),
            10,
        ) && all_digits(s.subrange(dot + 1, s.len() - 1), 10)
}

/// The form of the value `s` of a constant.
pub open spec fn const_form(s: Seq<u8>) -> ConstForm {
    if decimal_literal(s).is_some() {
        ConstForm::Number
    } else if float_literal(s) {
        ConstForm::Float
    } else if s == lit("(~0U)") {
        ConstForm::AllBits32(0)
    } else if s == lit("(~0U-1)") {
        ConstForm::AllBits32(1)
    } else if s == lit("(~0U-2)") {
        ConstForm::AllBits32(2)
    } else if s == lit("(~0ULL)") {
        ConstForm::AllBits64
    } else if s.len() >= 2 && s[0] == 34 && s.last() == 34 {
        ConstForm::Text
    } else {
        ConstForm::Other
    }
}

/// The declaration of the constant `name` with the value `value`; a value of
/// a form that is not known is emitted as a comment.
pub open spec fn const_text(name: Seq<u8>, value: Seq<u8>) -> Seq<u8> {
    match const_form(value) {
        ConstForm::Number => lit("pub const ") + name + lit(": uint32_t = ") + value + lit(";\n"),
        ConstForm::Float => lit("pub const ") + name + lit(": c_float = ") + value.drop_last() + lit(
            ";\n",
        ),
        ConstForm::AllBits32(less) => lit("pub const ") + name + lit(": uint32_t = !0 - ")
            + int_text(less as int) + lit(";\n"),
        ConstForm::AllBits64 => lit("pub const ") + name + lit(": uint64_t = !0;\n"),
        ConstForm::Text => lit("pub const ") + name + lit(": &'static str = ") + value + lit(
            ";\n",
        ),
        ConstForm::Other => lit("// ") + name + lit(" = ") + value + lit("\n"),
    }
}

/// The types of the elements `els`, each with `, ` after it.
pub open spec fn type_list(reg: RegistryView, config: GenConfig, els: Seq<VkElType>) -> Seq<Seq<u8>> {
    Seq::new(els.len(), |i: int| param_text(reg, config, els[i]) + lit(", "))
}

/// The declaration of a function pointer.
pub open spec fn funcpointer_text(
    reg: RegistryView,
    config: GenConfig,
    name: Seq<u8>,
    ret: VkElType,
    params: Seq<VkElType>,
) -> Seq<u8> {
    lit("pub type ") + name + lit(" = unsafe extern \"system\" fn(") + join(
        type_list(reg, config, params),
    ) + lit(") -> ") + el_text(reg, config, ret) + lit(";\n")
}

/// The declaration of an external type: nothing for a header and for a type
/// that the preamble declares; a word of the size of a pointer for a type of
/// a window system.
pub open spec fn extern_text(reg: RegistryView, name: Seq<u8>, req: InternedRef) -> Seq<u8> {
    if req == InternedRef::Null || reg.text(req) == lit("vk_platform") {
        Seq::empty()
    } else {
        lit("pub type ") + name + lit(" = usize;\n")
    }
}

/// The names of the variants `vs`, as text.
pub open spec fn variant_names(reg: RegistryView, vs: Seq<VkVariant>) -> Seq<Seq<u8>> {
    variant_keys(reg, vs)
}

/// The declaration of the type at `t` of the registry, with the variants
/// that the selection gives it. A define is not declared: its body stands in
/// the preamble.
pub open spec fn type_decl(reg: RegistryView, s: SelectionView, config: GenConfig, t: int) -> Seq<u8> {
    let vs = final_variants(reg, s, t);
    match reg.types[t] {
        TypeView::Struct { name, fields } => struct_text(
            reg,
            config,
            type_ident(config, reg.text(name)),
            fields,
        ),
        TypeView::Union { name, variants } => union_text(
            reg,
            config,
            type_ident(config, reg.text(name)),
            variants,
        ),
        TypeView::Enum { name, .. } => enum_text(
            config,
            type_ident(config, reg.text(name)),
            variant_idents(config, reg.text(name), false, variant_names(reg, vs)),
            vs,
        ),
        TypeView::Bitmask { name, .. } => bitmask_text(
            config,
            type_ident(config, reg.text(name)),
            variant_idents(config, reg.text(name), true, variant_names(reg, vs)),
            vs,
        ),
        TypeView::Handle { name, dispatchable } => handle_text(
            config,
            type_ident(config, reg.text(name)),
            dispatchable,
        ),
        TypeView::TypeDef { typ, name, .. } => lit("pub type ") + type_ident(
            config,
            reg.text(name),
        ) + lit(" = ") + type_text(reg, config, typ) + lit(";\n"),
        TypeView::ApiConst { name, value } => const_text(
            const_ident(config, reg.text(name)),
            reg.text(value),
        ),
        TypeView::Define { .. } => Seq::empty(),
        TypeView::FuncPointer { name, ret, params } => funcpointer_text(
            reg,
            config,
            type_ident(config, reg.text(name)),
            ret,
            params,
        ),
        TypeView::ExternType { name, requires: req } => extern_text(
            reg,
            type_ident(config, reg.text(name)),
            req,
        ),
        TypeView::Unhandled => Seq::empty(),
    }
}

/// The groups in which the declarations of the types are emitted, in their
/// order.
#[derive(Clone, Copy, Debug, PartialEq, Eq, Structural)]
pub enum Group {
    /// Structs, handles, type definitions, constants and external types.
    Plain,
    /// Enums and bitmasks, with their final variants.
    Enums,
    /// Unions.
    Unions,
    /// Function pointers.
    Pointers,
}

/// The group of the type `t`.
pub open spec fn group_of(t: TypeView) -> Group {
    match t {
        TypeView::Enum { .. } => Group::Enums,
        TypeView::Bitmask { .. } => Group::Enums,
        TypeView::Union { .. } => Group::Unions,
        TypeView::FuncPointer { .. } => Group::Pointers,
        _ => Group::Plain,
    }
}

/// The declarations of the selected types of the group `group`, in the order
/// of the selection; nothing for a type of another group.
pub open spec fn group_decls(reg: RegistryView, s: SelectionView, config: GenConfig, group: Group) -> Seq<
    Seq<u8>,
> {
    Seq::new(
        s.types.len(),
        |i: int| if group_of(reg.types[s.types[i] as int]) == group {
            type_decl(reg, s, config, s.types[i] as int)
        } else {
            Seq::empty()
        },
    )
}

/// The declarations of the selected types: the plain ones first, then the
/// enums, the unions and the function pointers, each group in the order of
/// the selection.
pub open spec fn type_decls(reg: RegistryView, s: SelectionView, config: GenConfig) -> Seq<u8> {
    join(group_decls(reg, s, config, Group::Plain)) + join(
        group_decls(reg, s, config, Group::Enums),
    ) + join(group_decls(reg, s, config, Group::Unions)) + join(
        group_decls(reg, s, config, Group::Pointers),
    )
}

/// The declarations of the constants that the selected extensions define.
pub open spec fn const_def_decls(reg: RegistryView, config: GenConfig, defs: Seq<ConstDef>) -> Seq<
    Seq<u8>,
> {
    Seq::new(
        defs.len(),
        |i: int| const_text(const_ident(config, reg.text(defs[i].name)), reg.text(defs[i].value)),
    )
}

/// The parameters `params`, each as its name, its type and `, `.
pub open spec fn param_decls(reg: RegistryView, config: GenConfig, params: Seq<VkParam>) -> Seq<
    Seq<u8>,
> {
    Seq::new(
        params.len(),
        |i: int| member_ident(config, reg.text(params[i].name)) + lit(": ") + param_text(
            reg,
            config,
            params[i].typ,
        ) + lit(", "),
    )
}

/// The types of the parameters `params`, each with `, ` after it.
pub open spec fn param_types(reg: RegistryView, config: GenConfig, params: Seq<VkParam>) -> Seq<
    Seq<u8>,
> {
    Seq::new(params.len(), |i: int| param_text(reg, config, params[i].typ) + lit(", "))
}

/// The names of the parameters `params`, each with `, ` after it.
pub open spec fn param_names(reg: RegistryView, config: GenConfig, params: Seq<VkParam>) -> Seq<
    Seq<u8>,
> {
    Seq::new(params.len(), |i: int| member_ident(config, reg.text(params[i].name)) + lit(", "))
}

/// The function through which the command `c` is called: it hands its
/// arguments to whatever its slot holds.
pub open spec fn command_fn(reg: RegistryView, config: GenConfig, flavor: Flavor, c: CommandView) -> Seq<
    u8,
> {
    let head = match flavor {
        Flavor::Global => lit("pub unsafe fn ") + command_ident(config, reg.text(c.name)) + lit("("),
        Flavor::Struct => lit("    pub unsafe fn ") + command_ident(config, reg.text(c.name))
            + lit("(&self, "),
    };
    let slot = match flavor {
        Flavor::Global => lit("ptr_") + reg.text(c.name),
        Flavor::Struct => lit("self.") + reg.text(c.name),
    };
    head + join(param_decls(reg, config, c.params)) + lit(") -> ") + el_text(reg, config, c.ret)
        + lit(" {\n        ::std::mem::transmute::<*const (), unsafe extern \"system\" fn(")
        + join(param_types(reg, config, c.params)) + lit(") -> ") + el_text(reg, config, c.ret)
        + lit(">(") + slot + lit(")(") + join(param_names(reg, config, c.params)) + lit(
        ")\n    }\n",
    )
}

/// The slot of the global emitter for the command named `raw`: it starts
/// with the function that aborts.
pub open spec fn global_slot(raw: Seq<u8>) -> Seq<u8> {
    lit("static mut ptr_") + raw + lit(
        ": *const () = unloaded_function_panic as *const ();\n",
    )
}

/// The lines of the loader for the command named `raw`: the resolver is
/// asked for it; what it returns is stored unless it is null; a slot that is
/// still empty is reported.
pub open spec fn load_lines(flavor: Flavor, raw: Seq<u8>) -> Seq<u8> {
    let slot = match flavor {
        Flavor::Global => lit("ptr_") + raw,
        Flavor::Struct => lit("self.") + raw,
    };
    lit("        let p = load_fn(\"") + raw + lit("\");\n        if !p.is_null() { ") + slot + lit(
        " = p; } else if ",
    ) + slot + lit(" == unloaded_function_panic as *const () { unloaded.push(\"") + raw + lit(
        "\"); }\n",
    )
}

/// The commands of the selection, in its order.
pub open spec fn picked_commands(reg: RegistryView, s: SelectionView) -> Seq<CommandView> {
    Seq::new(s.commands.len(), |i: int| reg.commands[s.commands[i] as int])
}

/// The slots of the global emitter.
pub open spec fn global_slots(reg: RegistryView, cs: Seq<CommandView>) -> Seq<Seq<u8>> {
    Seq::new(cs.len(), |i: int| global_slot(reg.text(cs[i].name)))
}

/// The fields of the record of the struct emitter.
pub open spec fn struct_slots(reg: RegistryView, cs: Seq<CommandView>) -> Seq<Seq<u8>> {
    Seq::new(cs.len(), |i: int| lit("    ") + reg.text(cs[i].name) + lit(": *const (),\n"))
}

/// The initial values of the fields of the record.
pub open spec fn struct_inits(reg: RegistryView, cs: Seq<CommandView>) -> Seq<Seq<u8>> {
    Seq::new(
        cs.len(),
        |i: int| lit("            ") + reg.text(cs[i].name) + lit(
            ": unloaded_function_panic as *const (),\n",
        ),
    )
}

/// The lines of the loader, for each command in turn.
pub open spec fn all_load_lines(reg: RegistryView, flavor: Flavor, cs: Seq<CommandView>) -> Seq<
    Seq<u8>,
> {
    Seq::new(cs.len(), |i: int| load_lines(flavor, reg.text(cs[i].name)))
}

/// The functions through which the commands are called.
pub open spec fn command_fns(reg: RegistryView, config: GenConfig, flavor: Flavor, cs: Seq<CommandView>) -> Seq<
    Seq<u8>,
> {
    Seq::new(cs.len(), |i: int| command_fn(reg, config, flavor, cs[i]))
}

/// What the emitter writes for the commands `cs`.
pub open spec fn commands_text(reg: RegistryView, config: GenConfig, flavor: Flavor, cs: Seq<CommandView>) -> Seq<
    u8,
> {
    match flavor {
        Flavor::Global => join(global_slots(reg, cs)) + join(command_fns(reg, config, flavor, cs))
            + lit(crate::prelude::GLOBAL_LOADER_HEAD) + join(all_load_lines(reg, flavor, cs)) + lit(
            crate::prelude::GLOBAL_LOADER_TAIL,
        ),
        Flavor::Struct => lit("pub struct Vk {\n") + join(struct_slots(reg, cs)) + lit(
            "}\nimpl Vk {\n    pub fn new() -> Vk {\n        Vk {\n",
        ) + join(struct_inits(reg, cs)) + lit("        }\n    }\n") + lit(
            crate::prelude::STRUCT_LOADER_HEAD,
        ) + join(all_load_lines(reg, flavor, cs)) + lit(crate::prelude::STRUCT_LOADER_TAIL) + join(
            command_fns(reg, config, flavor, cs),
        ) + lit("}\n"),
    }
}

/// The preamble: the fixed declarations that the rest of the text relies on,
/// and the types of C, from the platform's library or spelled out.
pub open spec fn preamble(config: GenConfig) -> Seq<u8> {
    lit(crate::prelude::COMMON) + lit(crate::prelude::DEFINES) + if config.use_libc_types {
        lit(crate::prelude::LIBC_TYPES)
    } else {
        lit(crate::prelude::PLAIN_TYPES)
    }
}

/// The whole emitted text: the preamble, the declarations of the selected
/// types group by group, the constants that extensions define, and the
/// commands with their loader.
pub open spec fn emitted(reg: RegistryView, s: SelectionView, config: GenConfig, flavor: Flavor) -> Seq<
    u8,
> {
    preamble(config) + type_decls(reg, s, config) + join(
        const_def_decls(reg, config, s.const_defs),
    ) + commands_text(reg, config, flavor, picked_commands(reg, s))
}

} // verus!
