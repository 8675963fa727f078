//! What the crawler does, stated on the views of its state: one function from
//! a state and an event to the next state.
//!
//! The crawler keeps the path of the elements that are open, each with what
//! it means where it stands, and a few slots in which the node under
//! construction is put together. Closing an element finishes its node and
//! pushes it into the registry.

use crate::arena::InternedRef;
use crate::eltype::VkElType;
use crate::model::or_null;
use crate::model::CommandView;
use crate::model::ExtnView;
use crate::model::FeatureView;
use crate::model::InterfaceLists;
use crate::model::TypeView;
use crate::model::VkInterface;
use crate::model::VkMember;
use crate::model::VkParam;
use crate::model::VkReqRem;
use crate::model::VkVariant;
use crate::registry::RegistryView;
use crate::signature::names_parameter;
use crate::signature::signature;
use crate::signature::PhraseView;
use crate::text::count_byte;
use crate::text::decimal_literal;
use crate::text::int_literal;
use crate::text::is_space;
use crate::text::trimmed;
use crate::text::unsigned_literal;
use crate::version::version_literal;
use crate::xml_events::attr_value;
use crate::xml_events::AttrView;
use crate::xml_events::EventView;
use vstd::prelude::*;
use vstd::string::StringSliceAdditionalSpecFns;

verus! {

/// Why a document cannot be crawled.
#[derive(Clone, Copy, Debug, PartialEq, Eq, Structural)]
pub enum CrawlErrorKind {
    /// The document is not well-formed XML.
    Malformed,
    /// The arena has no room for a text of the document.
    ArenaFull,
    /// An element of the registry stands where it cannot.
    UnexpectedElement,
    /// A closing tag without its opening tag.
    UnexpectedClose,
    /// Text in a member or parameter that is no part of a declaration.
    UnexpectedText,
    /// A step that the composition of element types does not have, such as a
    /// pointer to an array.
    Composition,
    /// A second name for a member or a parameter.
    DuplicateName,
    /// A feature whose number is no version.
    BadVersion,
    /// The document ends inside an element.
    Unclosed,
}

/// The names of the elements that the crawler knows.
#[derive(Clone, Copy, Debug, PartialEq, Eq, Structural)]
pub enum Tag {
    Registry,
    Types,
    Type,
    Member,
    Name,
    Enum,
    Enums,
    Commands,
    Command,
    Proto,
    Param,
    Feature,
    Require,
    Remove,
    Extensions,
    Extension,
    Other,
}

/// What an open element means where it stands.
#[derive(Clone, Copy, Debug, PartialEq, Eq, Structural)]
pub enum Frame {
    /// An element of no interest; so is everything inside it.
    Ignored,
    /// The root element.
    Root,
    /// The block of type declarations.
    Types,
    /// A type declaration.
    TypeDecl,
    /// The aliased type, or the macro of a handle, inside a declaration.
    DeclType,
    /// The name inside a declaration.
    DeclName,
    /// A member of a struct or a union.
    Member,
    /// A parameter of a command.
    Param,
    /// The prototype of a command: its return type and name.
    Proto,
    /// The type of a member, a parameter or a prototype.
    ElemType,
    /// The name of a member, a parameter or a prototype.
    ElemName,
    /// The constant that gives the size of an array.
    ElemEnum,
    /// A block of enum values or of API constants.
    Enums,
    /// The block of commands.
    Commands,
    /// A command.
    Command,
    /// A version of the core API.
    Feature,
    /// A `require` or `remove` block of a feature.
    FeatureBlock,
    /// The block of extensions.
    Extensions,
    /// An extension.
    Extension,
    /// A `require` or `remove` block of an extension.
    ExtnBlock,
}

/// What the `enum` elements of the open `enums` block are.
#[derive(Clone, Copy, Debug, PartialEq, Eq, Structural)]
pub enum EnumsTarget {
    /// No block is open.
    Nothing,
    /// The constants of the API.
    ApiConstants,
    /// The variants of the enum or bitmask `name`.
    Type { name: InternedRef, bitmask: bool },
}

/// What an `enum` element gives beside its name.
#[derive(Clone, Copy, Debug, PartialEq, Eq, Structural)]
pub enum VariantValue {
    Value(isize),
    Bitpos(u32),
}

/// What a piece of text inside a member or a parameter says.
#[derive(Clone, Copy, Debug, PartialEq, Eq, Structural)]
pub enum ElToken {
    /// `const`.
    Const,
    /// `struct`, which changes nothing.
    Struct,
    /// `const struct`.
    ConstStruct,
    /// One or more `*`: a pointer of that depth.
    Ptr(u8),
    /// `[`: an array whose size a constant gives.
    ArrayOpen,
    /// `]`.
    ArrayClose,
    /// `[n]`: an array of `n` elements.
    Array(usize),
    /// Anything else.
    Unknown,
}

/// The state of the crawler.
pub struct CrawlerView {
    pub registry: RegistryView,
    /// The open elements, the outermost first.
    pub path: Seq<Frame>,
    /// The type under construction.
    pub cur_type: TypeView,
    /// The type of the member, parameter or prototype under construction.
    pub cur_el: VkElType,
    /// Its name.
    pub cur_name: InternedRef,
    /// Whether it is optional.
    pub cur_optional: bool,
    /// The command under construction.
    pub cur_command: CommandView,
    /// What the open `enums` block fills.
    pub enums: EnumsTarget,
    /// The variants read in the open `enums` block.
    pub variants: Seq<VkVariant>,
    /// The feature under construction.
    pub feature: Option<FeatureView>,
    /// The extension under construction.
    pub extn: Option<ExtnView>,
    /// The open `require` or `remove` block.
    pub reqrem: VkReqRem,
    /// The text of the declaration of the function pointer under
    /// construction, as far as it was read.
    pub decl_text: Seq<u8>,
}

/// The element that the name `name` stands for.
pub open spec fn tag_of(name: Seq<u8>) -> Tag {
    if name == "registry".spec_bytes() {
        Tag::Registry
    } else if name == "types".spec_bytes() {
        Tag::Types
    } else if name == "type".spec_bytes() {
        Tag::Type
    } else if name == "member".spec_bytes() {
        Tag::Member
    } else if name == "name".spec_bytes() {
        Tag::Name
    } else if name == "enum".spec_bytes() {
        Tag::Enum
    } else if name == "enums".spec_bytes() {
        Tag::Enums
    } else if name == "commands".spec_bytes() {
        Tag::Commands
    } else if name == "command".spec_bytes() {
        Tag::Command
    } else if name == "proto".spec_bytes() {
        Tag::Proto
    } else if name == "param".spec_bytes() {
        Tag::Param
    } else if name == "feature".spec_bytes() {
        Tag::Feature
    } else if name == "require".spec_bytes() {
        Tag::Require
    } else if name == "remove".spec_bytes() {
        Tag::Remove
    } else if name == "extensions".spec_bytes() {
        Tag::Extensions
    } else if name == "extension".spec_bytes() {
        Tag::Extension
    } else {
        Tag::Other
    }
}

/// Whether the closing tag `tag` closes an element that stands as `frame`.
pub open spec fn closes(frame: Frame, tag: Tag) -> bool {
    match frame {
        Frame::Ignored => true,
        Frame::Root => tag == Tag::Registry,
        Frame::Types => tag == Tag::Types,
        Frame::TypeDecl => tag == Tag::Type,
        Frame::DeclType => tag == Tag::Type,
        Frame::DeclName => tag == Tag::Name,
        Frame::Member => tag == Tag::Member,
        Frame::Param => tag == Tag::Param,
        Frame::Proto => tag == Tag::Proto,
        Frame::ElemType => tag == Tag::Type,
        Frame::ElemName => tag == Tag::Name,
        Frame::ElemEnum => tag == Tag::Enum,
        Frame::Enums => tag == Tag::Enums,
        Frame::Commands => tag == Tag::Commands,
        Frame::Command => tag == Tag::Command,
        Frame::Feature => tag == Tag::Feature,
        Frame::FeatureBlock => tag == Tag::Require || tag == Tag::Remove,
        Frame::Extensions => tag == Tag::Extensions,
        Frame::Extension => tag == Tag::Extension,
        Frame::ExtnBlock => tag == Tag::Require || tag == Tag::Remove,
    }
}

/// The value of the attribute `key`.
pub open spec fn attr(attrs: Seq<AttrView>, key: &str) -> Option<Seq<u8>> {
    attr_value(attrs, key.spec_bytes())
}

/// Whether `b` can stand in the text of a pointer operator: a `*`, white
/// space, or a letter of the qualifier `const`.
pub open spec fn ptr_byte(b: u8) -> bool {
    b == 42 || is_space(b) || b == 99 || b == 111 || b == 110 || b == 115 || b == 116
}

/// Whether `text` is made of the bytes of pointer operators alone.
pub open spec fn ptr_text(text: Seq<u8>) -> bool {
    forall|i: int| 0 <= i < text.len() ==> ptr_byte(#[trigger] text[i])
}

/// What the text `text` of a member or parameter says.
pub open spec fn el_token(text: Seq<u8>) -> ElToken {
    if text == "const".spec_bytes() {
        ElToken::Const
    } else if text == "struct".spec_bytes() {
        ElToken::Struct
    } else if text == "const struct".spec_bytes() {
        ElToken::ConstStruct
    } else if text.len() > 0 && text[0] == 42 {
        if ptr_text(text) && count_byte(text, 42) <= 255 {
            ElToken::Ptr(count_byte(text, 42) as u8)
        } else {
            ElToken::Unknown
        }
    } else if text.len() == 1 && text[0] == 91 {
        ElToken::ArrayOpen
    } else if text.len() == 1 && text[0] == 93 {
        ElToken::ArrayClose
    } else if text.len() > 2 && text[0] == 91 && text.last() == 93 {
        match decimal_literal(text.subrange(1, text.len() - 1)) {
            Some(n) => if n <= usize::MAX {
                ElToken::Array(n as usize)
            } else {
                ElToken::Unknown
            },
            None => ElToken::Unknown,
        }
    } else {
        ElToken::Unknown
    }
}

/// The element type after the token `token`, or the error where the
/// composition has no such step.
pub open spec fn compose(el: VkElType, token: ElToken) -> Result<VkElType, CrawlErrorKind> {
    match token {
        ElToken::Const | ElToken::ConstStruct => if el.takes_const() {
            Ok(el.as_const())
        } else {
            Err(CrawlErrorKind::Composition)
        },
        ElToken::Ptr(n) => if el.is_pointer() || el.is_array() {
            Err(CrawlErrorKind::Composition)
        } else {
            Ok(el.as_ptr(n))
        },
        ElToken::ArrayOpen => if el is Var || el is Const {
            Ok(el.as_array(0))
        } else {
            Err(CrawlErrorKind::Composition)
        },
        ElToken::Array(n) => if el is Var || el is Const {
            Ok(el.as_array(n))
        } else {
            Err(CrawlErrorKind::Composition)
        },
        ElToken::Struct | ElToken::ArrayClose => Ok(el),
        ElToken::Unknown => Err(CrawlErrorKind::UnexpectedText),
    }
}

/// The value of a variant that an extension adds by offset: one thousand
/// values are reserved for each extension, from one thousand million on.
pub open spec fn extension_value(number: int, offset: int, negative: bool) -> int {
    let v = 1_000_000_000 + (number - 1) * 1000 + offset;
    if negative {
        -v
    } else {
        v
    }
}

/// The integer that `s` writes, where it fits an `isize`.
pub open spec fn isize_literal(s: Seq<u8>) -> Option<isize> {
    match int_literal(s) {
        Some(v) => if isize::MIN <= v <= isize::MAX {
            Some(v as isize)
        } else {
            None
        },
        None => None,
    }
}

/// What an `enum` element of an `enums` block gives: its value, or else its
/// bit position; nothing where the one that is there cannot be read.
pub open spec fn plain_variant(attrs: Seq<AttrView>) -> Option<VariantValue> {
    match attr(attrs, "value") {
        Some(v) => match isize_literal(v) {
            Some(x) => Some(VariantValue::Value(x)),
            None => None,
        },
        None => match attr(attrs, "bitpos") {
            Some(b) => match unsigned_literal(b) {
                Some(x) => if x <= u32::MAX {
                    Some(VariantValue::Bitpos(x as u32))
                } else {
                    None
                },
                None => None,
            },
            None => None,
        },
    }
}

/// What an `enum` element of an extension adds to an enum: the value at its
/// offset in the range of the extension numbered `number` (or of the
/// extension that the element itself names), negated where the direction is
/// `-`, whenever that value fits; without an offset, what a plain `enum`
/// element gives.
pub open spec fn extension_variant(attrs: Seq<AttrView>, number: isize) -> Option<VariantValue> {
    match attr(attrs, "offset") {
        Some(o) => {
            let number: Option<isize> = match attr(attrs, "extnumber") {
                Some(n) => isize_literal(n),
                None => Some(number),
            };
            match (number, unsigned_literal(o)) {
                (Some(number), Some(offset)) => {
                    let v = extension_value(
                        number as int,
                        offset as int,
                        attr(attrs, "dir") == Some("-".spec_bytes()),
                    );
                    if isize::MIN <= v <= isize::MAX {
                        Some(VariantValue::Value(v as isize))
                    } else {
                        None
                    }
                },
                _ => None,
            }
        },
        None => plain_variant(attrs),
    }
}

/// The variant named `name` with what `value` gives.
pub open spec fn variant_of(name: InternedRef, value: VariantValue) -> VkVariant {
    match value {
        VariantValue::Value(value) => VkVariant::Value { name, value },
        VariantValue::Bitpos(bitpos) => VkVariant::Bitpos { name, bitpos },
    }
}

/// The element type that the phrase `p` stands for, with `r` as the name of
/// its type: nothing for `void` alone, a pointer where there is a `*`.
pub open spec fn phrase_el(p: PhraseView, r: InternedRef) -> VkElType {
    if p.name.len() == 0 {
        VkElType::Unknown
    } else if !names_parameter(p) {
        VkElType::Void
    } else if p.stars == 0 {
        if p.konst {
            VkElType::Const(r)
        } else {
            VkElType::Var(r)
        }
    } else if p.konst {
        VkElType::ConstPtr(r, p.stars as u8)
    } else {
        VkElType::MutPtr(r, p.stars as u8)
    }
}

/// Whether one of the phrases `ps` has more `*` than a byte counts.
pub open spec fn too_deep(ps: Seq<PhraseView>) -> bool {
    exists|i: int| 0 <= i < ps.len() && (#[trigger] ps[i]).stars > 255
}

/// The type that a declaration of the category `category` starts as.
pub open spec fn type_for(category: Option<Seq<u8>>, name: InternedRef, req: InternedRef) -> TypeView {
    match category {
        None => TypeView::ExternType { name, requires: req },
        Some(cat) => if cat == "struct".spec_bytes() {
            TypeView::Struct { name, fields: Seq::empty() }
        } else if cat == "union".spec_bytes() {
            TypeView::Union { name, variants: Seq::empty() }
        } else if cat == "enum".spec_bytes() {
            TypeView::Enum { name, variants: Seq::empty() }
        } else if cat == "bitmask".spec_bytes() {
            TypeView::Bitmask { name, variants: Seq::empty() }
        } else if cat == "handle".spec_bytes() {
            TypeView::Handle { name, dispatchable: true }
        } else if cat == "basetype".spec_bytes() {
            TypeView::TypeDef { typ: InternedRef::Null, name, requires: req }
        } else if cat == "funcpointer".spec_bytes() {
            TypeView::FuncPointer { name, ret: VkElType::Unknown, params: Seq::empty() }
        } else if cat == "define".spec_bytes() {
            TypeView::Define { name }
        } else if cat == "include".spec_bytes() {
            TypeView::ExternType { name, requires: InternedRef::Null }
        } else {
            TypeView::Unhandled
        },
    }
}

/// A command of which nothing is known.
pub open spec fn empty_command() -> CommandView {
    CommandView { ret: VkElType::Unknown, name: InternedRef::Null, params: Seq::empty() }
}

/// No lists yet.
pub open spec fn empty_lists() -> InterfaceLists {
    InterfaceLists { require: Seq::empty(), remove: Seq::empty() }
}

impl CrawlerView {
    /// The state in which a crawler starts, with an arena of `capacity`
    /// bytes.
    pub open spec fn start(capacity: nat) -> CrawlerView {
        CrawlerView {
            registry: RegistryView {
                buffer: Seq::empty(),
                capacity,
                types: Seq::empty(),
                core_consts: Seq::empty(),
                commands: Seq::empty(),
                features: Seq::empty(),
                extns: Seq::empty(),
            },
            path: Seq::empty(),
            cur_type: TypeView::Unhandled,
            cur_el: VkElType::Unknown,
            cur_name: InternedRef::Null,
            cur_optional: false,
            cur_command: empty_command(),
            enums: EnumsTarget::Nothing,
            variants: Seq::empty(),
            feature: None,
            extn: None,
            reqrem: VkReqRem::Outside,
            decl_text: Seq::empty(),
        }
    }

    /// The state with one more open element.
    pub open spec fn enter(self, frame: Frame) -> CrawlerView {
        CrawlerView { path: self.path.push(frame), ..self }
    }

    /// The state with the innermost element closed.
    pub open spec fn leave(self) -> CrawlerView {
        CrawlerView { path: self.path.drop_last(), ..self }
    }

    /// The state after `s` was interned.
    pub open spec fn interned(self, s: Seq<u8>) -> CrawlerView {
        CrawlerView { registry: self.registry.with_text(s), ..self }
    }

    /// The state after `s` was interned, if there is an `s`.
    pub open spec fn interned_opt(self, s: Option<Seq<u8>>) -> CrawlerView {
        match s {
            Some(s) => self.interned(s),
            None => self,
        }
    }

    /// The reference that interning `s` returns, if there is an `s`.
    pub open spec fn next_ref_opt(self, s: Option<Seq<u8>>) -> Option<InternedRef> {
        match s {
            Some(s) => Some(self.registry.next_ref(s)),
            None => None,
        }
    }

    /// The state with `t` pushed into the registry.
    pub open spec fn pushed_type(self, t: TypeView) -> CrawlerView {
        CrawlerView { registry: self.registry.with_type(t), ..self }
    }

    /// A type declaration opens: the type starts as its category says, under
    /// the name that the tag gives, if it gives one. A declaration of a
    /// category that is not handled is passed over.
    pub open spec fn start_type(self, attrs: Seq<AttrView>) -> CrawlerView {
        let c1 = self.interned_opt(attr(attrs, "name"));
        let name = or_null(self.next_ref_opt(attr(attrs, "name")));
        let c2 = c1.interned_opt(attr(attrs, "requires"));
        let req = or_null(c1.next_ref_opt(attr(attrs, "requires")));
        let t = type_for(attr(attrs, "category"), name, req);
        if t is Unhandled {
            c2.enter(Frame::Ignored)
        } else {
            (CrawlerView { cur_type: t, decl_text: Seq::empty(), ..c2 }).enter(Frame::TypeDecl)
        }
    }

    /// A member, a parameter or a prototype opens: nothing is known of it but
    /// whether it is optional.
    pub open spec fn start_elem(self, frame: Frame, attrs: Seq<AttrView>) -> CrawlerView {
        (CrawlerView {
            cur_el: VkElType::Unknown,
            cur_name: InternedRef::Null,
            cur_optional: attr(attrs, "optional") == Some("true".spec_bytes()),
            ..self
        }).enter(frame)
    }

    /// An `enums` block opens. One without a name is passed over.
    pub open spec fn start_enums(self, attrs: Seq<AttrView>) -> CrawlerView {
        match attr(attrs, "name") {
            None => self.enter(Frame::Ignored),
            Some(n) => if n == "API Constants".spec_bytes() {
                (CrawlerView {
                    enums: EnumsTarget::ApiConstants,
                    variants: Seq::empty(),
                    ..self
                }).enter(Frame::Enums)
            } else {
                (CrawlerView {
                    enums: EnumsTarget::Type {
                        name: self.registry.next_ref(n),
                        bitmask: attr(attrs, "type") == Some("bitmask".spec_bytes()),
                    },
                    variants: Seq::empty(),
                    ..self.interned(n)
                }).enter(Frame::Enums)
            },
        }
    }

    /// An `enum` element inside an `enums` block: a constant of the API, which
    /// goes into the registry at once, or a variant of the block's enum. One
    /// without a name, or whose value cannot be read, is dropped.
    pub open spec fn enums_entry(self, attrs: Seq<AttrView>) -> CrawlerView {
        match self.enums {
            EnumsTarget::Nothing => self,
            EnumsTarget::ApiConstants => match (attr(attrs, "name"), attr(attrs, "value")) {
                (Some(n), Some(v)) => {
                    let c1 = self.interned(n);
                    let c2 = c1.interned(v);
                    c2.pushed_type(
                        TypeView::ApiConst {
                            name: self.registry.next_ref(n),
                            value: c1.registry.next_ref(v),
                        },
                    )
                },
                _ => self,
            },
            EnumsTarget::Type { .. } => match (attr(attrs, "name"), plain_variant(attrs)) {
                (Some(n), Some(value)) => CrawlerView {
                    variants: self.variants.push(variant_of(self.registry.next_ref(n), value)),
                    ..self.interned(n)
                },
                _ => self,
            },
        }
    }

    /// A feature opens. One of another API, or without a name or a number,
    /// is passed over; a number that is no version is an error.
    pub open spec fn start_feature(self, attrs: Seq<AttrView>) -> Result<
        CrawlerView,
        CrawlErrorKind,
    > {
        if attr(attrs, "api") != Some("vulkan".spec_bytes()) {
            Ok(self.enter(Frame::Ignored))
        } else {
            match (attr(attrs, "name"), attr(attrs, "number")) {
                (Some(n), Some(number)) => match version_literal(number) {
                    None => Err(CrawlErrorKind::BadVersion),
                    Some(version) => Ok(
                        (CrawlerView {
                            feature: Some(
                                FeatureView {
                                    name: self.registry.next_ref(n),
                                    version,
                                    lists: empty_lists(),
                                },
                            ),
                            ..self.interned(n)
                        }).enter(Frame::Feature),
                    ),
                },
                _ => Ok(self.enter(Frame::Ignored)),
            }
        }
    }

    /// An extension opens. One without a name, or without a number that can
    /// be read, is passed over.
    pub open spec fn start_extension(self, attrs: Seq<AttrView>) -> CrawlerView {
        match (attr(attrs, "name"), attr(attrs, "number")) {
            (Some(n), Some(number)) => match isize_literal(number) {
                None => self.enter(Frame::Ignored),
                Some(num) => (CrawlerView {
                    extn: Some(
                        ExtnView { name: self.registry.next_ref(n), num, lists: empty_lists() },
                    ),
                    ..self.interned(n)
                }).enter(Frame::Extension),
            },
            _ => self.enter(Frame::Ignored),
        }
    }

    /// A `require` or `remove` block opens, with its profile if it has one.
    pub open spec fn start_block(self, frame: Frame, tag: Tag, attrs: Seq<AttrView>) -> CrawlerView {
        let profile = self.next_ref_opt(attr(attrs, "profile"));
        (CrawlerView {
            reqrem: if tag == Tag::Remove {
                VkReqRem::Remove(profile)
            } else {
                VkReqRem::Require(profile)
            },
            ..self.interned_opt(attr(attrs, "profile"))
        }).enter(frame)
    }

    /// The interface that an element of a block of a feature stands for: a
    /// type, a command or a constant of the API, by its name.
    pub open spec fn feature_interface(self, tag: Tag, name: InternedRef) -> VkInterface {
        let profile = or_null(self.reqrem.profile());
        match tag {
            Tag::Type => VkInterface::Type { name, profile },
            Tag::Command => VkInterface::Command { name, profile },
            _ => VkInterface::ApiConst { name, profile },
        }
    }

    /// An element inside a block of a feature is listed in the feature. One
    /// without a name is dropped.
    pub open spec fn feature_entry(self, tag: Tag, attrs: Seq<AttrView>) -> CrawlerView {
        match (self.feature, attr(attrs, "name")) {
            (Some(f), Some(n)) => if self.reqrem is Outside {
                self
            } else {
                CrawlerView {
                    feature: Some(
                        FeatureView {
                            lists: f.lists.with_entry(
                                self.reqrem,
                                self.feature_interface(tag, self.registry.next_ref(n)),
                            ),
                            ..f
                        },
                    ),
                    ..self.interned(n)
                }
            },
            _ => self,
        }
    }

    /// The state with `entry` listed in the open extension.
    pub open spec fn listed(self, e: ExtnView, entry: VkInterface) -> CrawlerView {
        CrawlerView {
            extn: Some(ExtnView { lists: e.lists.with_entry(self.reqrem, entry), ..e }),
            ..self
        }
    }

    /// An `enum` element inside a block of an extension: a variant for the
    /// enum that it extends, a constant that the extension defines, or a
    /// reference to a constant of the API. A variant whose value cannot be
    /// read is dropped.
    pub open spec fn extension_enum(self, e: ExtnView, n: Seq<u8>, attrs: Seq<AttrView>) -> CrawlerView {
        let profile = or_null(self.reqrem.profile());
        let name = self.registry.next_ref(n);
        let c1 = self.interned(n);
        match attr(attrs, "extends") {
            Some(x) => match extension_variant(attrs, e.num) {
                Some(value) => c1.interned(x).listed(
                    e,
                    VkInterface::ExtnEnum {
                        extends: c1.registry.next_ref(x),
                        profile,
                        variant: variant_of(name, value),
                    },
                ),
                None => self,
            },
            None => match attr(attrs, "value") {
                Some(v) => c1.interned(v).listed(
                    e,
                    VkInterface::ConstDef { name, value: c1.registry.next_ref(v), profile },
                ),
                None => c1.listed(e, VkInterface::ApiConst { name, profile }),
            },
        }
    }

    /// An element inside a block of an extension is listed in the extension.
    /// One without a name is dropped.
    pub open spec fn extension_entry(self, tag: Tag, attrs: Seq<AttrView>) -> CrawlerView {
        let profile = or_null(self.reqrem.profile());
        match (self.extn, attr(attrs, "name")) {
            (Some(e), Some(n)) => if self.reqrem is Outside {
                self
            } else {
                let name = self.registry.next_ref(n);
                match tag {
                    Tag::Type => self.interned(n).listed(e, VkInterface::Type { name, profile }),
                    Tag::Command => self.interned(n).listed(
                        e,
                        VkInterface::Command { name, profile },
                    ),
                    _ => self.extension_enum(e, n, attrs),
                }
            },
            _ => self,
        }
    }

    /// The state after the opening tag of the element `tag`, before the
    /// arena's capacity is looked at.
    pub open spec fn opened(self, tag: Tag, attrs: Seq<AttrView>) -> Result<
        CrawlerView,
        CrawlErrorKind,
    > {
        if self.path.len() == 0 {
            if tag == Tag::Registry {
                Ok(self.enter(Frame::Root))
            } else {
                Err(CrawlErrorKind::UnexpectedElement)
            }
        } else if self.path.last() == Frame::Ignored || tag == Tag::Other {
            Ok(self.enter(Frame::Ignored))
        } else {
            match (self.path.last(), tag) {
                (Frame::Root, Tag::Types) => Ok(self.enter(Frame::Types)),
                (Frame::Root, Tag::Enums) => Ok(self.start_enums(attrs)),
                (Frame::Root, Tag::Commands) => Ok(self.enter(Frame::Commands)),
                (Frame::Root, Tag::Feature) => self.start_feature(attrs),
                (Frame::Root, Tag::Extensions) => Ok(self.enter(Frame::Extensions)),
                (Frame::Types, Tag::Type) => Ok(self.start_type(attrs)),
                (Frame::TypeDecl, Tag::Member) => if self.cur_type is Struct
                    || self.cur_type is Union {
                    Ok(self.start_elem(Frame::Member, attrs))
                } else {
                    Err(CrawlErrorKind::UnexpectedElement)
                },
                (Frame::TypeDecl, Tag::Type) => Ok(self.enter(Frame::DeclType)),
                (Frame::TypeDecl, Tag::Name) => Ok(self.enter(Frame::DeclName)),
                (Frame::TypeDecl, Tag::Enum) => Ok(self.enter(Frame::Ignored)),
                (Frame::Member, Tag::Type) => Ok(self.enter(Frame::ElemType)),
                (Frame::Member, Tag::Name) => Ok(self.enter(Frame::ElemName)),
                (Frame::Member, Tag::Enum) => Ok(self.enter(Frame::ElemEnum)),
                (Frame::Param, Tag::Type) => Ok(self.enter(Frame::ElemType)),
                (Frame::Param, Tag::Name) => Ok(self.enter(Frame::ElemName)),
                (Frame::Param, Tag::Enum) => Ok(self.enter(Frame::ElemEnum)),
                (Frame::Proto, Tag::Type) => Ok(self.enter(Frame::ElemType)),
                (Frame::Proto, Tag::Name) => Ok(self.enter(Frame::ElemName)),
                (Frame::Enums, Tag::Enum) => Ok(self.enums_entry(attrs).enter(Frame::Ignored)),
                (Frame::Commands, Tag::Command) => Ok(
                    (CrawlerView { cur_command: empty_command(), ..self }).enter(Frame::Command),
                ),
                (Frame::Command, Tag::Proto) => Ok(self.start_elem(Frame::Proto, attrs)),
                (Frame::Command, Tag::Param) => Ok(self.start_elem(Frame::Param, attrs)),
                (Frame::Feature, Tag::Require) => Ok(
                    self.start_block(Frame::FeatureBlock, tag, attrs),
                ),
                (Frame::Feature, Tag::Remove) => Ok(
                    self.start_block(Frame::FeatureBlock, tag, attrs),
                ),
                (Frame::FeatureBlock, Tag::Type) => Ok(
                    self.feature_entry(tag, attrs).enter(Frame::Ignored),
                ),
                (Frame::FeatureBlock, Tag::Command) => Ok(
                    self.feature_entry(tag, attrs).enter(Frame::Ignored),
                ),
                (Frame::FeatureBlock, Tag::Enum) => Ok(
                    self.feature_entry(tag, attrs).enter(Frame::Ignored),
                ),
                (Frame::Extensions, Tag::Extension) => Ok(self.start_extension(attrs)),
                (Frame::Extension, Tag::Require) => Ok(
                    self.start_block(Frame::ExtnBlock, tag, attrs),
                ),
                (Frame::Extension, Tag::Remove) => Ok(
                    self.start_block(Frame::ExtnBlock, tag, attrs),
                ),
                (Frame::ExtnBlock, Tag::Type) => Ok(
                    self.extension_entry(tag, attrs).enter(Frame::Ignored),
                ),
                (Frame::ExtnBlock, Tag::Command) => Ok(
                    self.extension_entry(tag, attrs).enter(Frame::Ignored),
                ),
                (Frame::ExtnBlock, Tag::Enum) => Ok(
                    self.extension_entry(tag, attrs).enter(Frame::Ignored),
                ),
                _ => Err(CrawlErrorKind::UnexpectedElement),
            }
        }
    }

    /// The type under construction with one more member.
    pub open spec fn with_member(self) -> TypeView {
        let member = VkMember {
            field_type: self.cur_el,
            field_name: self.cur_name,
            optional: self.cur_optional,
        };
        match self.cur_type {
            TypeView::Struct { name, fields } => TypeView::Struct {
                name,
                fields: fields.push(member),
            },
            TypeView::Union { name, variants } => TypeView::Union {
                name,
                variants: variants.push(member),
            },
            other => other,
        }
    }

    /// The registry after the open `enums` block was closed: the enum or the
    /// bitmask of the block stands in it with the variants that were read.
    pub open spec fn with_enums(self) -> RegistryView {
        match self.enums {
            EnumsTarget::Type { name, bitmask } => if bitmask {
                self.registry.with_type(TypeView::Bitmask { name, variants: self.variants })
            } else {
                self.registry.with_type(TypeView::Enum { name, variants: self.variants })
            },
            _ => self.registry,
        }
    }

    /// The state after the closing tag of the innermost element, which stood
    /// as `frame`: what was under construction in it is finished and pushed.
    pub open spec fn finished(self, frame: Frame) -> CrawlerView {
        match frame {
            Frame::TypeDecl => CrawlerView {
                registry: self.registry.with_type(self.cur_type),
                cur_type: TypeView::Unhandled,
                ..self
            },
            Frame::Member => CrawlerView { cur_type: self.with_member(), ..self },
            Frame::Proto => CrawlerView {
                cur_command: CommandView {
                    ret: self.cur_el,
                    name: self.cur_name,
                    ..self.cur_command
                },
                ..self
            },
            Frame::Param => CrawlerView {
                cur_command: CommandView {
                    params: self.cur_command.params.push(
                        VkParam { typ: self.cur_el, name: self.cur_name },
                    ),
                    ..self.cur_command
                },
                ..self
            },
            Frame::Command => CrawlerView {
                registry: if self.cur_command.name == InternedRef::Null {
                    self.registry
                } else {
                    self.registry.with_command(self.cur_command)
                },
                cur_command: empty_command(),
                ..self
            },
            Frame::Enums => CrawlerView {
                registry: self.with_enums(),
                enums: EnumsTarget::Nothing,
                variants: Seq::empty(),
                ..self
            },
            Frame::Feature => CrawlerView {
                registry: match self.feature {
                    Some(f) => self.registry.with_feature(f),
                    None => self.registry,
                },
                feature: None,
                ..self
            },
            Frame::Extension => CrawlerView {
                registry: match self.extn {
                    Some(e) => self.registry.with_extn(e),
                    None => self.registry,
                },
                extn: None,
                ..self
            },
            Frame::FeatureBlock => CrawlerView { reqrem: VkReqRem::Outside, ..self },
            Frame::ExtnBlock => CrawlerView { reqrem: VkReqRem::Outside, ..self },
            _ => self,
        }
    }

    /// The state after the closing tag of the element `tag`, before the
    /// arena's capacity is looked at.
    pub open spec fn closed(self, tag: Tag) -> Result<CrawlerView, CrawlErrorKind> {
        if self.path.len() == 0 || !closes(self.path.last(), tag) {
            Err(CrawlErrorKind::UnexpectedClose)
        } else if self.path.last() == Frame::TypeDecl {
            match self.settled_decl() {
                Ok(c) => Ok(c.finished(Frame::TypeDecl).leave()),
                Err(e) => Err(e),
            }
        } else {
            Ok(self.finished(self.path.last()).leave())
        }
    }

    /// The state with `text` added to the text of the declaration of the
    /// function pointer under construction, and a blank after it.
    pub open spec fn noted(self, text: Seq<u8>) -> CrawlerView {
        CrawlerView { decl_text: self.decl_text + text + seq![32u8], ..self }
    }

    /// The state after the names of the types that the phrases `ps` name were
    /// interned in turn, and the element types that the phrases stand for.
    pub open spec fn signed(self, ps: Seq<PhraseView>) -> (CrawlerView, Seq<VkElType>)
        decreases ps.len(),
    {
        if ps.len() == 0 {
            (self, Seq::empty())
        } else {
            let before = self.signed(ps.drop_last());
            let p = ps.last();
            if names_parameter(p) {
                (
                    before.0.interned(p.name),
                    before.1.push(phrase_el(p, before.0.registry.next_ref(p.name))),
                )
            } else {
                (before.0, before.1.push(phrase_el(p, InternedRef::Null)))
            }
        }
    }

    /// The state before a type declaration is closed: the text of a function
    /// pointer is read, and gives the return type and the parameters. A
    /// pointer deeper than a byte counts is an error.
    pub open spec fn settled_decl(self) -> Result<CrawlerView, CrawlErrorKind> {
        match self.cur_type {
            TypeView::FuncPointer { name, .. } => {
                let ps = signature(self.decl_text);
                if too_deep(ps) {
                    Err(CrawlErrorKind::Composition)
                } else {
                    let done = self.signed(ps);
                    Ok(
                        CrawlerView {
                            cur_type: TypeView::FuncPointer {
                                name,
                                ret: done.1[0],
                                params: done.1.skip(1),
                            },
                            ..done.0
                        },
                    )
                }
            },
            _ => Ok(self),
        }
    }

    /// The text of the type or macro inside a type declaration: the aliased
    /// type of a type definition, the kind of a handle, or a part of the
    /// declaration of a function pointer.
    pub open spec fn decl_type_text(self, text: Seq<u8>) -> CrawlerView {
        let r = self.registry.next_ref(text);
        match self.cur_type {
            TypeView::TypeDef { name, requires: req, .. } => CrawlerView {
                cur_type: TypeView::TypeDef { typ: r, name, requires: req },
                ..self.interned(text)
            },
            TypeView::Handle { name, .. } => CrawlerView {
                cur_type: TypeView::Handle {
                    name,
                    dispatchable: text == "VK_DEFINE_HANDLE".spec_bytes(),
                },
                ..self
            },
            TypeView::FuncPointer { .. } => self.noted(text),
            _ => self,
        }
    }

    /// The text of the type of a member, a parameter or a prototype: `void`
    /// for one of which nothing is known yet makes it void; any other name
    /// becomes the name of its type.
    pub open spec fn elem_type_text(self, text: Seq<u8>) -> Result<CrawlerView, CrawlErrorKind> {
        if self.cur_el is Unknown && text == "void".spec_bytes() {
            Ok(CrawlerView { cur_el: VkElType::Void, ..self })
        } else if self.cur_el is Void {
            Err(CrawlErrorKind::Composition)
        } else {
            Ok(
                CrawlerView {
                    cur_el: self.cur_el.with_type(self.registry.next_ref(text)),
                    ..self.interned(text)
                },
            )
        }
    }

    /// The state after the text `text`, which is not empty and has no white
    /// space at its ends, before the arena's capacity is looked at.
    pub open spec fn texted(self, text: Seq<u8>) -> Result<CrawlerView, CrawlErrorKind> {
        if self.path.len() == 0 {
            Ok(self)
        } else {
            match self.path.last() {
                Frame::DeclType => Ok(self.decl_type_text(text)),
                Frame::TypeDecl => if self.cur_type is FuncPointer {
                    Ok(self.noted(text))
                } else {
                    Ok(self)
                },
                Frame::DeclName => Ok(
                    CrawlerView {
                        cur_type: self.cur_type.renamed(self.registry.next_ref(text)),
                        decl_text: if self.cur_type is FuncPointer {
                            self.decl_text + text + seq![32u8]
                        } else {
                            self.decl_text
                        },
                        ..self.interned(text)
                    },
                ),
                Frame::ElemType => self.elem_type_text(text),
                Frame::ElemName => if self.cur_name != InternedRef::Null {
                    Err(CrawlErrorKind::DuplicateName)
                } else {
                    Ok(CrawlerView { cur_name: self.registry.next_ref(text), ..self.interned(text) })
                },
                Frame::ElemEnum => if self.cur_el is ConstArrayEnum || self.cur_el is MutArrayEnum {
                    Ok(
                        CrawlerView {
                            cur_el: self.cur_el.with_array_const(self.registry.next_ref(text)),
                            ..self.interned(text)
                        },
                    )
                } else {
                    Err(CrawlErrorKind::Composition)
                },
                Frame::Member | Frame::Param | Frame::Proto => match compose(
                    self.cur_el,
                    el_token(text),
                ) {
                    Ok(el) => Ok(CrawlerView { cur_el: el, ..self }),
                    Err(e) => Err(e),
                },
                _ => Ok(self),
            }
        }
    }
}

/// An `enum` element that extends an enum by an offset is listed in its
/// extension with the value that the offset has in the range of the
/// extension, whenever that value fits: the whole sum is negated where the
/// direction is `-`. The enum itself is not touched.
pub proof fn lemma_offset_is_listed(c: CrawlerView, attrs: Seq<AttrView>, e: ExtnView, offset: nat)
    requires
        c.extn == Some(e),
        !(c.reqrem is Outside),
        attr(attrs, "name").is_some(),
        attr(attrs, "extends").is_some(),
        attr(attrs, "extnumber").is_none(),
        attr(attrs, "offset").is_some(),
        unsigned_literal(attr(attrs, "offset").unwrap()) == Some(offset),
        isize::MIN <= extension_value(
            e.num as int,
            offset as int,
            attr(attrs, "dir") == Some("-".spec_bytes()),
        ) <= isize::MAX,
    ensures
        c.extension_entry(Tag::Enum, attrs).extn == Some(
            ExtnView {
                lists: e.lists.with_entry(
                    c.reqrem,
                    VkInterface::ExtnEnum {
                        extends: c.interned(attr(attrs, "name").unwrap()).registry.next_ref(
                            attr(attrs, "extends").unwrap(),
                        ),
                        profile: or_null(c.reqrem.profile()),
                        variant: VkVariant::Value {
                            name: c.registry.next_ref(attr(attrs, "name").unwrap()),
                            value: extension_value(
                                e.num as int,
                                offset as int,
                                attr(attrs, "dir") == Some("-".spec_bytes()),
                            ) as isize,
                        },
                    },
                ),
                ..e
            },
        ),
        c.extension_entry(Tag::Enum, attrs).registry.types == c.registry.types,
{
}

/// An `enum` element of the block of an enum, with a name and a value that
/// can be read, adds the variant of that name and value, with its sign, after
/// the variants that were read before.
pub proof fn lemma_value_is_read(c: CrawlerView, attrs: Seq<AttrView>, value: isize)
    requires
        c.enums is Type,
        attr(attrs, "name").is_some(),
        attr(attrs, "value").is_some(),
        isize_literal(attr(attrs, "value").unwrap()) == Some(value),
    ensures
        c.enums_entry(attrs).variants == c.variants.push(
            VkVariant::Value { name: c.registry.next_ref(attr(attrs, "name").unwrap()), value },
        ),
{
}

/// When the block of an enum is closed, the enum stands in the registry
/// under the name of the block with the variants that were read, as an enum
/// or, where the block says so, as a bitmask.
pub proof fn lemma_block_fills_enum(c: CrawlerView, name: InternedRef, bitmask: bool)
    requires
        c.enums == (EnumsTarget::Type { name, bitmask }),
        c.registry.accepts_type(TypeView::Enum { name, variants: c.variants }),
    ensures
        c.finished(Frame::Enums).registry.types == crate::registry::upsert(
            c.registry.types,
            c.registry.type_at(c.registry.text(name)),
            if bitmask {
                TypeView::Bitmask { name, variants: c.variants }
            } else {
                TypeView::Enum { name, variants: c.variants }
            },
        ),
{
}

/// Whether the outcome `r` of a step that led to the state `after` is the
/// outcome `expected`.
pub open spec fn agrees(
    r: Result<(), CrawlErrorKind>,
    after: CrawlerView,
    expected: Result<CrawlerView, CrawlErrorKind>,
) -> bool {
    match expected {
        Ok(next) => r is Ok && after == next,
        Err(kind) => r == Err::<(), CrawlErrorKind>(kind),
    }
}

/// A step that asks more of the arena than it can take fails.
pub open spec fn capped(r: Result<CrawlerView, CrawlErrorKind>) -> Result<
    CrawlerView,
    CrawlErrorKind,
> {
    match r {
        Ok(c) => if c.registry.buffer.len() > c.registry.capacity {
            Err(CrawlErrorKind::ArenaFull)
        } else {
            Ok(c)
        },
        Err(e) => Err(e),
    }
}

/// The state after one event, or the reason why the document is refused.
#[verifier::opaque]
pub open spec fn step(c: CrawlerView, event: EventView) -> Result<CrawlerView, CrawlErrorKind> {
    match event {
        EventView::StartElement { name, attributes } => capped(c.opened(tag_of(name), attributes)),
        EventView::EndElement { name } => capped(c.closed(tag_of(name))),
        EventView::Characters { text } => if trimmed(text).len() == 0 {
            Ok(c)
        } else {
            capped(c.texted(trimmed(text)))
        },
        EventView::End => Ok(c),
        EventView::Other => Ok(c),
        EventView::Malformed => Err(CrawlErrorKind::Malformed),
    }
}

/// Where and why a document is refused: the index of the event, the reason,
/// and the path of the elements that were open, the outermost first.
#[derive(Clone, Debug, PartialEq, Eq)]
pub struct CrawlError {
    pub at: usize,
    pub kind: CrawlErrorKind,
    pub path: Vec<Frame>,
}

/// The registry that the events of `events` from the `i`-th on lead to from
/// the state `c`: the events are taken in turn up to the end of the document,
/// at which no element may be open. A refusal comes with the index of the
/// event, the reason, and the elements that were open before the event.
pub open spec fn crawl_from(c: CrawlerView, events: Seq<EventView>, i: int) -> Result<
    RegistryView,
    (int, CrawlErrorKind, Seq<Frame>),
>
    decreases events.len() - i,
{
    if i < 0 || i >= events.len() || events[i] is End {
        if c.path.len() == 0 {
            Ok(c.registry)
        } else {
            Err((i, CrawlErrorKind::Unclosed, c.path))
        }
    } else {
        match step(c, events[i]) {
            Ok(next) => crawl_from(next, events, i + 1),
            Err(kind) => Err((i, kind, c.path)),
        }
    }
}

/// The registry that a document of the events `events` is crawled into, with
/// an arena of `capacity` bytes.
pub open spec fn crawl_result(events: Seq<EventView>, capacity: nat) -> Result<
    RegistryView,
    (int, CrawlErrorKind, Seq<Frame>),
> {
    crawl_from(CrawlerView::start(capacity), events, 0)
}

} // verus!
