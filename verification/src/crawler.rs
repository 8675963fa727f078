//! The crawler: it consumes the events of the registry document one by one
//! and fills a registry.

use crate::arena::InternedRef;
use crate::crawl_model::agrees;
use crate::crawl_model::capped;
use crate::crawl_model::closes;
use crate::crawl_model::compose;
use crate::crawl_model::crawl_from;
use crate::crawl_model::crawl_result;
use crate::crawl_model::el_token;
use crate::crawl_model::extension_value;
use crate::crawl_model::extension_variant;
use crate::crawl_model::plain_variant;
use crate::crawl_model::too_deep;
use crate::crawl_model::ptr_byte;
use crate::crawl_model::ptr_text;
use crate::crawl_model::step;
use crate::crawl_model::tag_of;
use crate::crawl_model::type_for;
use crate::crawl_model::variant_of;
use crate::crawl_model::CrawlError;
use crate::crawl_model::CrawlErrorKind;
use crate::crawl_model::CrawlerView;
use crate::crawl_model::ElToken;
use crate::crawl_model::EnumsTarget;
use crate::crawl_model::Frame;
use crate::crawl_model::Tag;
use crate::crawl_model::VariantValue;
use crate::eltype::VkElType;
use crate::model::unwrap_or_null;
use crate::model::ExtnView;
use crate::model::FeatureView;
use crate::model::VkCommand;
use crate::model::VkExtn;
use crate::model::VkFeature;
use crate::model::VkMember;
use crate::model::VkParam;
use crate::model::VkReqRem;
use crate::model::VkType;
use crate::model::VkVariant;
use crate::registry::VkRegistry;
use crate::signature::phrases_view;
use crate::signature::signature;
use crate::signature::signature_of;
use crate::text::count_of;
use crate::text::is_space_byte;
use crate::text::is_word;
use crate::text::parse_decimal;
use crate::text::parse_int;
use crate::text::parse_unsigned;
use crate::text::parse_wide;
use crate::text::unsigned_literal;
use crate::text::trim;
use crate::version::VkVersion;
use crate::xml_events::attrs_view;
use crate::xml_events::events_view;
use crate::xml_events::find_attribute;
use crate::xml_events::read_events;
use crate::xml_events::xml_events;
use crate::xml_events::XmlAttribute;
use crate::xml_events::XmlEvent;
use vstd::prelude::*;
use vstd::string::StringSliceAdditionalSpecFns;

verus! {

/// The element that the name `name` stands for.
pub fn tag_of_name(name: &[u8]) -> (tag: Tag)
    ensures
        tag == tag_of(name@),
{
    if is_word(name, "registry") {
        Tag::Registry
    } else if is_word(name, "types") {
        Tag::Types
    } else if is_word(name, "type") {
        Tag::Type
    } else if is_word(name, "member") {
        Tag::Member
    } else if is_word(name, "name") {
        Tag::Name
    } else if is_word(name, "enum") {
        Tag::Enum
    } else if is_word(name, "enums") {
        Tag::Enums
    } else if is_word(name, "commands") {
        Tag::Commands
    } else if is_word(name, "command") {
        Tag::Command
    } else if is_word(name, "proto") {
        Tag::Proto
    } else if is_word(name, "param") {
        Tag::Param
    } else if is_word(name, "feature") {
        Tag::Feature
    } else if is_word(name, "require") {
        Tag::Require
    } else if is_word(name, "remove") {
        Tag::Remove
    } else if is_word(name, "extensions") {
        Tag::Extensions
    } else if is_word(name, "extension") {
        Tag::Extension
    } else {
        Tag::Other
    }
}

fn frame_closes(frame: Frame, tag: Tag) -> (b: bool)
    ensures
        b == closes(frame, tag),
{
    match frame {
        Frame::Ignored => true,
        Frame::Root => tag == Tag::Registry,
        Frame::Types => tag == Tag::Types,
        Frame::TypeDecl => tag == Tag::Type,
        Frame::DeclType => tag == Tag::Type,
        Frame::DeclName => tag == Tag::Name,
        Frame::Member => tag == Tag::Member,
        Frame::Param => tag == Tag::Param,
        Frame::Proto => tag == Tag::Proto,
        Frame::ElemType => tag == Tag::Type,
        Frame::ElemName => tag == Tag::Name,
        Frame::ElemEnum => tag == Tag::Enum,
        Frame::Enums => tag == Tag::Enums,
        Frame::Commands => tag == Tag::Commands,
        Frame::Command => tag == Tag::Command,
        Frame::Feature => tag == Tag::Feature,
        Frame::FeatureBlock => tag == Tag::Require || tag == Tag::Remove,
        Frame::Extensions => tag == Tag::Extensions,
        Frame::Extension => tag == Tag::Extension,
        Frame::ExtnBlock => tag == Tag::Require || tag == Tag::Remove,
    }
}

fn only_ptr_bytes(text: &[u8]) -> (b: bool)
    ensures
        b == ptr_text(text@),
{
    let n = text.len();
    let mut i: usize = 0;
    while i < n
        invariant
            i <= n,
            n == text@.len(),
            forall|j: int| 0 <= j < i ==> ptr_byte(#[trigger] text@[j]),
        decreases n - i,
    {
        let b = text[i];
        if !(b == 42 || is_space_byte(b) || b == 99 || b == 111 || b == 110 || b == 115 || b
            == 116) {
            return false;
        }
        i += 1;
    }
    true
}

/// What the text `text` of a member or parameter says.
pub fn token_of(text: &[u8]) -> (token: ElToken)
    ensures
        token == el_token(text@),
{
    let n = text.len();
    if is_word(text, "const") {
        ElToken::Const
    } else if is_word(text, "struct") {
        ElToken::Struct
    } else if is_word(text, "const struct") {
        ElToken::ConstStruct
    } else if n > 0 && text[0] == 42 {
        let stars = count_of(text, 42);
        if only_ptr_bytes(text) && stars <= 255 {
            ElToken::Ptr(stars as u8)
        } else {
            ElToken::Unknown
        }
    } else if n == 1 && text[0] == 91 {
        ElToken::ArrayOpen
    } else if n == 1 && text[0] == 93 {
        ElToken::ArrayClose
    } else if n > 2 && text[0] == 91 && text[n - 1] == 93 {
        let digits = vstd::slice::slice_subrange(text, 1, n - 1);
        match parse_decimal(digits, usize::MAX as u64) {
            Some(size) => ElToken::Array(size as usize),
            None => ElToken::Unknown,
        }
    } else {
        ElToken::Unknown
    }
}

/// Applies the token `token` to the element type `el`, where the composition
/// has such a step.
pub fn compose_el(el: VkElType, token: ElToken) -> (r: Result<VkElType, CrawlErrorKind>)
    ensures
        r == compose(el, token),
{
    let mut el = el;
    let bare = match el {
        VkElType::Var(_) | VkElType::Const(_) | VkElType::Void | VkElType::Unknown => true,
        _ => false,
    };
    let named = match el {
        VkElType::Var(_) | VkElType::Const(_) => true,
        _ => false,
    };
    match token {
        ElToken::Const | ElToken::ConstStruct => {
            let fixed = match el {
                VkElType::ConstArray(_, _) | VkElType::ConstArrayEnum(_, _) => true,
                _ => false,
            };
            if !bare && !fixed {
                return Err(CrawlErrorKind::Composition);
            }
            el.make_const();
        },
        ElToken::Ptr(n) => {
            if !bare {
                return Err(CrawlErrorKind::Composition);
            }
            el.make_ptr(n);
        },
        ElToken::ArrayOpen => {
            if !named {
                return Err(CrawlErrorKind::Composition);
            }
            el.make_array(0);
        },
        ElToken::Array(n) => {
            if !named {
                return Err(CrawlErrorKind::Composition);
            }
            el.make_array(n);
        },
        ElToken::Struct | ElToken::ArrayClose => {},
        ElToken::Unknown => {
            return Err(CrawlErrorKind::UnexpectedText);
        },
    }
    Ok(el)
}

/// An offset beyond eighty bits leads to no value that fits, whatever the
/// number of the extension.
pub proof fn lemma_far_offset(number: isize, offset: nat, negative: bool)
    requires
        offset > 0x1_0000_0000_0000_0000_0000,
    ensures
        !(isize::MIN <= extension_value(number as int, offset as int, negative) <= isize::MAX),
{
    assert(-0x8000_0000_0000_0000 <= number <= 0x7fff_ffff_ffff_ffff);
    assert(-0x8000_0000_0000_0000 <= isize::MIN);
    assert(isize::MAX <= 0x7fff_ffff_ffff_ffff);
}

/// The value of a variant that an extension adds at `offset`, whenever it
/// fits.
pub fn extension_enum_value(number: isize, offset: u128, negative: bool) -> (out: Option<isize>)
    ensures
        out == (if isize::MIN <= extension_value(number as int, offset as int, negative)
            <= isize::MAX {
            Some(extension_value(number as int, offset as int, negative) as isize)
        } else {
            None
        }),
{
    if offset > 0x1_0000_0000_0000_0000_0000 {
        proof {
            lemma_far_offset(number, offset as nat, negative);
        }
        return None;
    }
    let v: i128 = 1_000_000_000i128 + (number as i128 - 1) * 1000 + offset as i128;
    let v: i128 = if negative {
        -v
    } else {
        v
    };
    if v < isize::MIN as i128 || v > isize::MAX as i128 {
        None
    } else {
        Some(v as isize)
    }
}

fn read_plain_variant(attrs: &Vec<XmlAttribute>) -> (out: Option<VariantValue>)
    ensures
        out == plain_variant(attrs_view(attrs@)),
{
    match find_attribute(attrs, "value") {
        Some(v) => match parse_int(v) {
            Some(x) => Some(VariantValue::Value(x)),
            None => None,
        },
        None => match find_attribute(attrs, "bitpos") {
            Some(b) => match parse_unsigned(b, 0xffff_ffff) {
                Some(x) => Some(VariantValue::Bitpos(x as u32)),
                None => None,
            },
            None => None,
        },
    }
}

fn read_extension_variant(attrs: &Vec<XmlAttribute>, number: isize) -> (out: Option<VariantValue>)
    ensures
        out == extension_variant(attrs_view(attrs@), number),
{
    match find_attribute(attrs, "offset") {
        Some(o) => {
            let number: Option<isize> = match find_attribute(attrs, "extnumber") {
                Some(n) => parse_int(n),
                None => Some(number),
            };
            let negative = match find_attribute(attrs, "dir") {
                Some(d) => is_word(d, "-"),
                None => false,
            };
            proof {
                match (number, unsigned_literal(o@)) {
                    (Some(n), Some(far)) => {
                        if far > 0x1_0000_0000_0000_0000_0000 {
                            lemma_far_offset(n, far, negative);
                        }
                    },
                    _ => {},
                }
            }
            match (number, parse_wide(o, 0x1_0000_0000_0000_0000_0000)) {
                (Some(number), Some(offset)) => match extension_enum_value(
                    number,
                    offset,
                    negative,
                ) {
                    Some(v) => Some(VariantValue::Value(v)),
                    None => None,
                },
                _ => None,
            }
        },
        None => read_plain_variant(attrs),
    }
}

fn make_variant(name: InternedRef, value: VariantValue) -> (v: VkVariant)
    ensures
        v == variant_of(name, value),
{
    match value {
        VariantValue::Value(value) => VkVariant::new_value(name, value),
        VariantValue::Bitpos(bitpos) => VkVariant::new_bitpos(name, bitpos),
    }
}

fn new_type_for(category: Option<&[u8]>, name: InternedRef, req: InternedRef) -> (t: VkType)
    ensures
        t@ == type_for(
            match category {
                Some(c) => Some(c@),
                None => None,
            },
            name,
            req,
        ),
{
    match category {
        None => VkType::new_extern(name, req),
        Some(cat) => if is_word(cat, "struct") {
            VkType::new_struct(name)
        } else if is_word(cat, "union") {
            VkType::new_union(name)
        } else if is_word(cat, "enum") {
            VkType::new_enum(name)
        } else if is_word(cat, "bitmask") {
            VkType::new_bitmask(name)
        } else if is_word(cat, "handle") {
            let mut t = VkType::empty_handle();
            let _ = t.set_name(name);
            t
        } else if is_word(cat, "basetype") {
            let mut t = VkType::new_typedef(Some(req));
            let _ = t.set_name(name);
            t
        } else if is_word(cat, "funcpointer") {
            let mut t = VkType::empty_funcpointer();
            let _ = t.set_name(name);
            t
        } else if is_word(cat, "define") {
            VkType::new_define(name)
        } else if is_word(cat, "include") {
            VkType::new_extern(name, InternedRef::Null)
        } else {
            VkType::Unhandled
        },
    }
}

/// The view of the feature that `f` holds, if it holds one.
pub open spec fn feature_view(f: Option<VkFeature>) -> Option<FeatureView> {
    match f {
        Some(f) => Some(f@),
        None => None,
    }
}

/// The view of the extension that `e` holds, if it holds one.
pub open spec fn extn_view(e: Option<VkExtn>) -> Option<ExtnView> {
    match e {
        Some(e) => Some(e@),
        None => None,
    }
}

/// The bytes that `s` holds, if it holds any.
pub open spec fn bytes_view(s: Option<&[u8]>) -> Option<Seq<u8>> {
    match s {
        Some(s) => Some(s@),
        None => None,
    }
}

/// The state machine that turns the events of a registry document into a
/// registry.
pub struct Crawler {
    registry: VkRegistry,
    path: Vec<Frame>,
    cur_type: VkType,
    cur_el: VkElType,
    cur_name: InternedRef,
    cur_optional: bool,
    cur_command: VkCommand,
    enums: EnumsTarget,
    variants: Vec<VkVariant>,
    feature: Option<VkFeature>,
    extn: Option<VkExtn>,
    reqrem: VkReqRem,
    decl_text: Vec<u8>,
}

impl View for Crawler {
    type V = CrawlerView;

    closed spec fn view(&self) -> CrawlerView {
        CrawlerView {
            registry: self.registry@,
            path: self.path@,
            cur_type: self.cur_type@,
            cur_el: self.cur_el,
            cur_name: self.cur_name,
            cur_optional: self.cur_optional,
            cur_command: self.cur_command@,
            enums: self.enums,
            variants: self.variants@,
            feature: feature_view(self.feature),
            extn: extn_view(self.extn),
            reqrem: self.reqrem,
            decl_text: self.decl_text@,
        }
    }
}

impl Crawler {
    /// What holds of a crawler between any two events: its registry is well
    /// formed.
    pub closed spec fn inv(&self) -> bool {
        self.registry@.wf()
    }

    /// A crawler that has seen nothing, with an arena of `capacity` bytes.
    pub fn new(capacity: usize) -> (crawler: Self)
        ensures
            crawler@ == CrawlerView::start(capacity as nat),
            crawler.inv(),
    {
        Crawler {
            registry: VkRegistry::with_capacity(capacity),
            path: Vec::new(),
            cur_type: VkType::Unhandled,
            cur_el: VkElType::Unknown,
            cur_name: InternedRef::Null,
            cur_optional: false,
            cur_command: VkCommand::empty(),
            enums: EnumsTarget::Nothing,
            variants: Vec::new(),
            feature: None,
            extn: None,
            reqrem: VkReqRem::Outside,
            decl_text: Vec::new(),
        }
    }

    fn intern(&mut self, s: &[u8]) -> (r: Result<InternedRef, CrawlErrorKind>)
        requires
            old(self).inv(),
        ensures
            match r {
                Ok(x) => final(self)@ == old(self)@.interned(s@) && x == old(self)@.registry.next_ref(s@) && final(self).inv(),
                Err(e) => e == CrawlErrorKind::ArenaFull && old(self)@.registry.buffer.len()
                    + s@.len() > old(self)@.registry.capacity && final(self)@.path == old(self)@.path,
            },
    {
        match self.registry.try_append(s) {
            Some(x) => Ok(x),
            None => Err(CrawlErrorKind::ArenaFull),
        }
    }

    fn intern_opt(&mut self, s: Option<&[u8]>) -> (r: Result<Option<InternedRef>, CrawlErrorKind>)
        requires
            old(self).inv(),
        ensures
            match r {
                Ok(x) => final(self)@ == old(self)@.interned_opt(bytes_view(s)) && x == old(self)@.next_ref_opt(bytes_view(s)) && final(self).inv(),
                Err(e) => e == CrawlErrorKind::ArenaFull && s.is_some() && old(self)@.registry.buffer.len() + s.unwrap()@.len() > old(self)@.registry.capacity
                    && final(self)@.path == old(self)@.path,
            },
    {
        match s {
            Some(s) => match self.intern(s) {
                Ok(x) => Ok(Some(x)),
                Err(e) => Err(e),
            },
            None => Ok(None),
        }
    }

    fn enter(&mut self, frame: Frame)
        requires
            old(self).inv(),
        ensures
            final(self)@ == old(self)@.enter(frame),
            final(self).inv(),
    {
        self.path.push(frame);
    }

    fn start_type(&mut self, attrs: &Vec<XmlAttribute>) -> (r: Result<(), CrawlErrorKind>)
        requires
            old(self).inv(),
        ensures
            agrees(r, final(self)@, capped(Ok(old(self)@.start_type(attrs_view(attrs@))))),
            r is Ok ==> final(self).inv(),
            r is Err ==> final(self)@.path == old(self)@.path,
    {
        let name = match self.intern_opt(find_attribute(attrs, "name")) {
            Ok(x) => unwrap_or_null(x),
            Err(e) => {
                return Err(e);
            },
        };
        let req = match self.intern_opt(find_attribute(attrs, "requires")) {
            Ok(x) => unwrap_or_null(x),
            Err(e) => {
                return Err(e);
            },
        };
        let t = new_type_for(find_attribute(attrs, "category"), name, req);
        if let VkType::Unhandled = t {
            self.enter(Frame::Ignored);
        } else {
            self.cur_type = t;
            self.decl_text = Vec::new();
            self.enter(Frame::TypeDecl);
        }
        Ok(())
    }

    fn start_elem(&mut self, frame: Frame, attrs: &Vec<XmlAttribute>)
        requires
            old(self).inv(),
        ensures
            final(self)@ == old(self)@.start_elem(frame, attrs_view(attrs@)),
            final(self).inv(),
    {
        self.cur_el = VkElType::Unknown;
        self.cur_name = InternedRef::Null;
        self.cur_optional = match find_attribute(attrs, "optional") {
            Some(v) => is_word(v, "true"),
            None => false,
        };
        self.enter(frame);
    }

    fn start_enums(&mut self, attrs: &Vec<XmlAttribute>) -> (r: Result<(), CrawlErrorKind>)
        requires
            old(self).inv(),
        ensures
            agrees(r, final(self)@, capped(Ok(old(self)@.start_enums(attrs_view(attrs@))))),
            r is Ok ==> final(self).inv(),
            r is Err ==> final(self)@.path == old(self)@.path,
    {
        match find_attribute(attrs, "name") {
            None => {
                self.enter(Frame::Ignored);
            },
            Some(n) => {
                if is_word(n, "API Constants") {
                    self.enums = EnumsTarget::ApiConstants;
                } else {
                    let name = match self.intern(n) {
                        Ok(x) => x,
                        Err(e) => {
                            return Err(e);
                        },
                    };
                    let bitmask = match find_attribute(attrs, "type") {
                        Some(t) => is_word(t, "bitmask"),
                        None => false,
                    };
                    self.enums = EnumsTarget::Type { name, bitmask };
                }
                self.variants = Vec::new();
                self.enter(Frame::Enums);
            },
        }
        Ok(())
    }

    fn enums_entry(&mut self, attrs: &Vec<XmlAttribute>) -> (r: Result<(), CrawlErrorKind>)
        requires
            old(self).inv(),
        ensures
            agrees(r, final(self)@, capped(Ok(old(self)@.enums_entry(attrs_view(attrs@))))),
            r is Ok ==> final(self).inv(),
            r is Err ==> final(self)@.path == old(self)@.path,
    {
        let n = match find_attribute(attrs, "name") {
            Some(n) => n,
            None => {
                return Ok(());
            },
        };
        match self.enums {
            EnumsTarget::Nothing => {},
            EnumsTarget::ApiConstants => {
                let v = match find_attribute(attrs, "value") {
                    Some(v) => v,
                    None => {
                        return Ok(());
                    },
                };
                let name = match self.intern(n) {
                    Ok(x) => x,
                    Err(e) => {
                        return Err(e);
                    },
                };
                let value = match self.intern(v) {
                    Ok(x) => x,
                    Err(e) => {
                        return Err(e);
                    },
                };
                let _ = self.registry.push_type(VkType::new_const(name, value));
            },
            EnumsTarget::Type { .. } => {
                let value = match read_plain_variant(attrs) {
                    Some(value) => value,
                    None => {
                        return Ok(());
                    },
                };
                let name = match self.intern(n) {
                    Ok(x) => x,
                    Err(e) => {
                        return Err(e);
                    },
                };
                self.variants.push(make_variant(name, value));
            },
        }
        Ok(())
    }

    fn start_feature(&mut self, attrs: &Vec<XmlAttribute>) -> (r: Result<(), CrawlErrorKind>)
        requires
            old(self).inv(),
        ensures
            agrees(r, final(self)@, capped(old(self)@.start_feature(attrs_view(attrs@)))),
            r is Ok ==> final(self).inv(),
            r is Err ==> final(self)@.path == old(self)@.path,
    {
        let vulkan = match find_attribute(attrs, "api") {
            Some(api) => is_word(api, "vulkan"),
            None => false,
        };
        if !vulkan {
            self.enter(Frame::Ignored);
            return Ok(());
        }
        match (find_attribute(attrs, "name"), find_attribute(attrs, "number")) {
            (Some(n), Some(number)) => {
                let version = match VkVersion::parse(number) {
                    Some(version) => version,
                    None => {
                        return Err(CrawlErrorKind::BadVersion);
                    },
                };
                let name = match self.intern(n) {
                    Ok(x) => x,
                    Err(e) => {
                        return Err(e);
                    },
                };
                self.feature = Some(VkFeature::new(name, version));
                self.enter(Frame::Feature);
            },
            _ => {
                self.enter(Frame::Ignored);
            },
        }
        Ok(())
    }

    fn start_extension(&mut self, attrs: &Vec<XmlAttribute>) -> (r: Result<(), CrawlErrorKind>)
        requires
            old(self).inv(),
        ensures
            agrees(r, final(self)@, capped(Ok(old(self)@.start_extension(attrs_view(attrs@))))),
            r is Ok ==> final(self).inv(),
            r is Err ==> final(self)@.path == old(self)@.path,
    {
        match (find_attribute(attrs, "name"), find_attribute(attrs, "number")) {
            (Some(n), Some(number)) => {
                match parse_int(number) {
                    None => {
                        self.enter(Frame::Ignored);
                    },
                    Some(num) => {
                        let name = match self.intern(n) {
                            Ok(x) => x,
                            Err(e) => {
                                return Err(e);
                            },
                        };
                        self.extn = Some(VkExtn::new(name, num));
                        self.enter(Frame::Extension);
                    },
                }
            },
            _ => {
                self.enter(Frame::Ignored);
            },
        }
        Ok(())
    }

    fn start_block(&mut self, frame: Frame, tag: Tag, attrs: &Vec<XmlAttribute>) -> (r: Result<
        (),
        CrawlErrorKind,
    >)
        requires
            old(self).inv(),
        ensures
            agrees(
                r,
                final(self)@,
                capped(Ok(old(self)@.start_block(frame, tag, attrs_view(attrs@)))),
            ),
            r is Ok ==> final(self).inv(),
            r is Err ==> final(self)@.path == old(self)@.path,
    {
        let profile = match self.intern_opt(find_attribute(attrs, "profile")) {
            Ok(x) => x,
            Err(e) => {
                return Err(e);
            },
        };
        self.reqrem = if tag == Tag::Remove {
            VkReqRem::Remove(profile)
        } else {
            VkReqRem::Require(profile)
        };
        self.enter(frame);
        Ok(())
    }

    fn feature_entry(&mut self, tag: Tag, attrs: &Vec<XmlAttribute>) -> (r: Result<
        (),
        CrawlErrorKind,
    >)
        requires
            old(self).inv(),
        ensures
            agrees(r, final(self)@, capped(Ok(old(self)@.feature_entry(tag, attrs_view(attrs@))))),
            r is Ok ==> final(self).inv(),
            r is Err ==> final(self)@.path == old(self)@.path,
    {
        let n = match find_attribute(attrs, "name") {
            Some(n) => n,
            None => {
                return Ok(());
            },
        };
        if self.feature.is_none() {
            return Ok(());
        }
        let reqrem = self.reqrem;
        if let VkReqRem::Outside = reqrem {
            return Ok(());
        }
        let name = match self.intern(n) {
            Ok(x) => x,
            Err(e) => {
                return Err(e);
            },
        };
        match &mut self.feature {
            Some(f) => match tag {
                Tag::Type => f.push_type(name, &reqrem),
                Tag::Command => f.push_command(name, &reqrem),
                _ => f.push_const(name, &reqrem),
            },
            None => {},
        }
        Ok(())
    }

    fn extension_entry(&mut self, tag: Tag, attrs: &Vec<XmlAttribute>) -> (r: Result<
        (),
        CrawlErrorKind,
    >)
        requires
            old(self).inv(),
        ensures
            agrees(
                r,
                final(self)@,
                capped(Ok(old(self)@.extension_entry(tag, attrs_view(attrs@)))),
            ),
            r is Ok ==> final(self).inv(),
            r is Err ==> final(self)@.path == old(self)@.path,
    {
        let n = match find_attribute(attrs, "name") {
            Some(n) => n,
            None => {
                return Ok(());
            },
        };
        let num = match &self.extn {
            Some(e) => e.num,
            None => {
                return Ok(());
            },
        };
        let reqrem = self.reqrem;
        if let VkReqRem::Outside = reqrem {
            return Ok(());
        }
        let extends = find_attribute(attrs, "extends");
        let is_enum = match tag {
            Tag::Type => false,
            Tag::Command => false,
            _ => true,
        };
        let variant = if is_enum && extends.is_some() {
            match read_extension_variant(attrs, num) {
                Some(value) => Some(value),
                None => {
                    return Ok(());
                },
            }
        } else {
            None
        };
        let name = match self.intern(n) {
            Ok(x) => x,
            Err(e) => {
                return Err(e);
            },
        };
        match tag {
            Tag::Type => {
                match &mut self.extn {
                    Some(e) => e.push_type(name, &reqrem),
                    None => {},
                }
            },
            Tag::Command => {
                match &mut self.extn {
                    Some(e) => e.push_command(name, &reqrem),
                    None => {},
                }
            },
            _ => {
                match (extends, variant) {
                    (Some(x), Some(value)) => {
                        let target = match self.intern(x) {
                            Ok(x) => x,
                            Err(e) => {
                                return Err(e);
                            },
                        };
                        match &mut self.extn {
                            Some(e) => e.push_enum(
                                make_variant(name, value),
                                Some(target),
                                &reqrem,
                            ),
                            None => {},
                        }
                    },
                    _ => {
                        match find_attribute(attrs, "value") {
                            Some(v) => {
                                let value = match self.intern(v) {
                                    Ok(x) => x,
                                    Err(e) => {
                                        return Err(e);
                                    },
                                };
                                match &mut self.extn {
                                    Some(e) => e.push_const(name, value, &reqrem),
                                    None => {},
                                }
                            },
                            None => {
                                match &mut self.extn {
                                    Some(e) => e.push_api_const(name, &reqrem),
                                    None => {},
                                }
                            },
                        }
                    },
                }
            },
        }
        Ok(())
    }

    #[verifier::rlimit(60)]
    fn open(&mut self, tag: Tag, attrs: &Vec<XmlAttribute>) -> (r: Result<(), CrawlErrorKind>)
        requires
            old(self).inv(),
        ensures
            agrees(r, final(self)@, capped(old(self)@.opened(tag, attrs_view(attrs@)))),
            r is Ok ==> final(self).inv(),
            r is Err ==> final(self)@.path == old(self)@.path,
    {
        let depth = self.path.len();
        if depth == 0 {
            if tag == Tag::Registry {
                self.enter(Frame::Root);
                return Ok(());
            } else {
                return Err(CrawlErrorKind::UnexpectedElement);
            }
        }
        let top = self.path[depth - 1];
        if top == Frame::Ignored || tag == Tag::Other {
            self.enter(Frame::Ignored);
            return Ok(());
        }
        match top {
            Frame::Root => match tag {
                Tag::Types => {
                    self.enter(Frame::Types);
                    Ok(())
                },
                Tag::Enums => self.start_enums(attrs),
                Tag::Commands => {
                    self.enter(Frame::Commands);
                    Ok(())
                },
                Tag::Feature => self.start_feature(attrs),
                Tag::Extensions => {
                    self.enter(Frame::Extensions);
                    Ok(())
                },
                _ => Err(CrawlErrorKind::UnexpectedElement),
            },
            Frame::Types => match tag {
                Tag::Type => self.start_type(attrs),
                _ => Err(CrawlErrorKind::UnexpectedElement),
            },
            Frame::TypeDecl => match tag {
                Tag::Member => {
                    let aggregate = match &self.cur_type {
                        VkType::Struct { .. } => true,
                        VkType::Union { .. } => true,
                        _ => false,
                    };
                    if aggregate {
                        self.start_elem(Frame::Member, attrs);
                        Ok(())
                    } else {
                        Err(CrawlErrorKind::UnexpectedElement)
                    }
                },
                Tag::Type => {
                    self.enter(Frame::DeclType);
                    Ok(())
                },
                Tag::Name => {
                    self.enter(Frame::DeclName);
                    Ok(())
                },
                Tag::Enum => {
                    self.enter(Frame::Ignored);
                    Ok(())
                },
                _ => Err(CrawlErrorKind::UnexpectedElement),
            },
            Frame::Member | Frame::Param => match tag {
                Tag::Type => {
                    self.enter(Frame::ElemType);
                    Ok(())
                },
                Tag::Name => {
                    self.enter(Frame::ElemName);
                    Ok(())
                },
                Tag::Enum => {
                    self.enter(Frame::ElemEnum);
                    Ok(())
                },
                _ => Err(CrawlErrorKind::UnexpectedElement),
            },
            Frame::Proto => match tag {
                Tag::Type => {
                    self.enter(Frame::ElemType);
                    Ok(())
                },
                Tag::Name => {
                    self.enter(Frame::ElemName);
                    Ok(())
                },
                _ => Err(CrawlErrorKind::UnexpectedElement),
            },
            Frame::Enums => match tag {
                Tag::Enum => match self.enums_entry(attrs) {
                    Ok(()) => {
                        self.enter(Frame::Ignored);
                        Ok(())
                    },
                    Err(e) => Err(e),
                },
                _ => Err(CrawlErrorKind::UnexpectedElement),
            },
            Frame::Commands => match tag {
                Tag::Command => {
                    self.cur_command = VkCommand::empty();
                    self.enter(Frame::Command);
                    Ok(())
                },
                _ => Err(CrawlErrorKind::UnexpectedElement),
            },
            Frame::Command => match tag {
                Tag::Proto => {
                    self.start_elem(Frame::Proto, attrs);
                    Ok(())
                },
                Tag::Param => {
                    self.start_elem(Frame::Param, attrs);
                    Ok(())
                },
                _ => Err(CrawlErrorKind::UnexpectedElement),
            },
            Frame::Feature => match tag {
                Tag::Require | Tag::Remove => self.start_block(Frame::FeatureBlock, tag, attrs),
                _ => Err(CrawlErrorKind::UnexpectedElement),
            },
            Frame::FeatureBlock => match tag {
                Tag::Type | Tag::Command | Tag::Enum => match self.feature_entry(tag, attrs) {
                    Ok(()) => {
                        self.enter(Frame::Ignored);
                        Ok(())
                    },
                    Err(e) => Err(e),
                },
                _ => Err(CrawlErrorKind::UnexpectedElement),
            },
            Frame::Extensions => match tag {
                Tag::Extension => self.start_extension(attrs),
                _ => Err(CrawlErrorKind::UnexpectedElement),
            },
            Frame::Extension => match tag {
                Tag::Require | Tag::Remove => self.start_block(Frame::ExtnBlock, tag, attrs),
                _ => Err(CrawlErrorKind::UnexpectedElement),
            },
            Frame::ExtnBlock => match tag {
                Tag::Type | Tag::Command | Tag::Enum => match self.extension_entry(tag, attrs) {
                    Ok(()) => {
                        self.enter(Frame::Ignored);
                        Ok(())
                    },
                    Err(e) => Err(e),
                },
                _ => Err(CrawlErrorKind::UnexpectedElement),
            },
            _ => Err(CrawlErrorKind::UnexpectedElement),
        }
    }

    fn finish_frame(&mut self, frame: Frame)
        requires
            old(self).inv(),
        ensures
            final(self)@ == old(self)@.finished(frame),
            final(self).inv(),
    {
        match frame {
            Frame::TypeDecl => {
                let mut t = VkType::Unhandled;
                std::mem::swap(&mut self.cur_type, &mut t);
                let _ = self.registry.push_type(t);
            },
            Frame::Member => {
                let member = VkMember {
                    field_type: self.cur_el,
                    field_name: self.cur_name,
                    optional: self.cur_optional,
                };
                match &mut self.cur_type {
                    VkType::Struct { fields, .. } => fields.push(member),
                    VkType::Union { variants, .. } => variants.push(member),
                    _ => {},
                }
            },
            Frame::Proto => {
                self.cur_command.ret = self.cur_el;
                self.cur_command.name = self.cur_name;
            },
            Frame::Param => {
                self.cur_command.params.push(VkParam { typ: self.cur_el, name: self.cur_name });
            },
            Frame::Command => {
                let mut command = VkCommand::empty();
                std::mem::swap(&mut self.cur_command, &mut command);
                if !command.name.is_null() {
                    let _ = self.registry.push_command(Some(command));
                }
            },
            Frame::Enums => {
                let mut variants: Vec<VkVariant> = Vec::new();
                std::mem::swap(&mut self.variants, &mut variants);
                match self.enums {
                    EnumsTarget::Type { name, bitmask } => {
                        let t = if bitmask {
                            VkType::Bitmask { name, variants }
                        } else {
                            VkType::Enum { name, variants }
                        };
                        let _ = self.registry.push_type(t);
                    },
                    _ => {},
                }
                self.enums = EnumsTarget::Nothing;
            },
            Frame::Feature => {
                let feature = self.feature.take();
                let _ = self.registry.push_feature(feature);
            },
            Frame::Extension => {
                let extn = self.extn.take();
                let _ = self.registry.push_extn(extn);
            },
            Frame::FeatureBlock | Frame::ExtnBlock => {
                self.reqrem = VkReqRem::Outside;
            },
            _ => {},
        }
    }

    fn close(&mut self, tag: Tag) -> (r: Result<(), CrawlErrorKind>)
        requires
            old(self).inv(),
        ensures
            agrees(r, final(self)@, capped(old(self)@.closed(tag))),
            r is Ok ==> final(self).inv(),
            r is Err ==> final(self)@.path == old(self)@.path,
    {
        let depth = self.path.len();
        if depth == 0 {
            return Err(CrawlErrorKind::UnexpectedClose);
        }
        let top = self.path[depth - 1];
        if !frame_closes(top, tag) {
            return Err(CrawlErrorKind::UnexpectedClose);
        }
        let ghost start = self@;
        if top == Frame::TypeDecl {
            match self.settle_decl() {
                Ok(()) => {},
                Err(e) => {
                    return Err(e);
                },
            }
        }
        proof {
            lemma_signed_keeps(start, signature(start.decl_text));
        }
        self.finish_frame(top);
        self.path.pop();
        assert(self@.registry.buffer.len() <= self@.registry.capacity);
        Ok(())
    }

    fn decl_type_text(&mut self, text: &[u8]) -> (r: Result<(), CrawlErrorKind>)
        requires
            old(self).inv(),
        ensures
            agrees(r, final(self)@, capped(Ok(old(self)@.decl_type_text(text@)))),
            r is Ok ==> final(self).inv(),
            r is Err ==> final(self)@.path == old(self)@.path,
    {
        let interns = match &self.cur_type {
            VkType::TypeDef { .. } => true,
            _ => false,
        };
        let name = if interns {
            match self.intern(text) {
                Ok(x) => x,
                Err(e) => {
                    return Err(e);
                },
            }
        } else {
            InternedRef::Null
        };
        match &mut self.cur_type {
            VkType::TypeDef { typ, .. } => {
                *typ = name;
            },
            VkType::Handle { dispatchable, .. } => {
                *dispatchable = is_word(text, "VK_DEFINE_HANDLE");
            },
            VkType::FuncPointer { .. } => {
                self.note(text);
            },
            _ => {},
        }
        Ok(())
    }

    fn note(&mut self, text: &[u8])
        requires
            old(self).inv(),
        ensures
            final(self)@ == old(self)@.noted(text@),
            final(self).inv(),
    {
        let n = text.len();
        let mut i: usize = 0;
        while i < n
            invariant
                i <= n,
                n == text@.len(),
                self.inv(),
                self@ == (CrawlerView {
                    decl_text: old(self)@.decl_text + text@.take(i as int),
                    ..old(self)@
                }),
            decreases n - i,
        {
            self.decl_text.push(text[i]);
            i += 1;
            assert(self@.decl_text =~= old(self)@.decl_text + text@.take(i as int));
        }
        assert(text@.take(n as int) =~= text@);
        self.decl_text.push(32);
        assert(self@.decl_text =~= old(self)@.decl_text + text@ + seq![32u8]);
    }

    fn is_funcpointer(&self) -> (b: bool)
        ensures
            b == (self@.cur_type is FuncPointer),
    {
        match &self.cur_type {
            VkType::FuncPointer { .. } => true,
            _ => false,
        }
    }

    fn settle_decl(&mut self) -> (r: Result<(), CrawlErrorKind>)
        requires
            old(self).inv(),
        ensures
            match old(self)@.settled_decl() {
                Ok(next) => match r {
                    Ok(()) => final(self)@ == next && final(self).inv(),
                    Err(e) => e == CrawlErrorKind::ArenaFull && next.registry.buffer.len()
                        > next.registry.capacity,
                },
                Err(kind) => r == Err::<(), CrawlErrorKind>(kind),
            },
            r is Err ==> final(self)@.path == old(self)@.path,
    {
        if !self.is_funcpointer() {
            return Ok(());
        }
        let phrases = signature_of(self.decl_text.as_slice());
        let ghost ps = signature(self@.decl_text);
        let n = phrases.len();
        let mut i: usize = 0;
        while i < n
            invariant
                i <= n,
                n == phrases@.len(),
                ps == phrases_view(phrases@),
                ps == signature(old(self)@.decl_text),
                old(self)@.cur_type is FuncPointer,
                forall|k: int| 0 <= k < i ==> (#[trigger] ps[k]).stars <= 255,
            decreases n - i,
        {
            assert(ps[i as int] == phrases@[i as int]@);
            if phrases[i].stars > 255 {
                assert(too_deep(ps));
                return Err(CrawlErrorKind::Composition);
            }
            i += 1;
        }
        assert(!too_deep(ps));
        let ghost start = self@;
        let mut els: Vec<VkElType> = Vec::new();
        let mut i: usize = 0;
        proof {
            lemma_signed_grows(start, ps, 0);
            assert(ps.take(0) =~= Seq::empty());
            assert(els@ =~= start.signed(ps.take(0)).1);
        }
        while i < n
            invariant
                i <= n,
                n == phrases@.len(),
                n >= 1,
                ps == phrases_view(phrases@),
                !too_deep(ps),
                start == old(self)@,
                start.cur_type is FuncPointer,
                ps == signature(start.decl_text),
                self.inv(),
                els@.len() == i,
                self@ == start.signed(ps.take(i as int)).0,
                els@ == start.signed(ps.take(i as int)).1,
                self@.registry.capacity == start.registry.capacity,
                start.signed(ps).0.registry.buffer.len() >= self@.registry.buffer.len(),
            decreases n - i,
        {
            assert(ps.take(i + 1).drop_last() =~= ps.take(i as int));
            assert(ps.take(i + 1).last() == phrases@[i as int]@);
            assert(ps[i as int].stars <= 255);
            let p = &phrases[i];
            let named = p.name.len() > 0 && !(is_word(p.name.as_slice(), "void") && p.stars == 0);
            let ghost before = self@;
            let r = if named {
                match self.intern(p.name.as_slice()) {
                    Ok(x) => x,
                    Err(e) => {
                        proof {
                            lemma_signed_grows(start, ps, i + 1);
                            lemma_signed_keeps(start, ps.take(i as int));
                            assert(start.signed(ps.take(i + 1)).0 == before.interned(p.name@));
                        }
                        return Err(e);
                    },
                }
            } else {
                InternedRef::Null
            };
            let el = if p.name.len() == 0 {
                VkElType::Unknown
            } else if !named {
                VkElType::Void
            } else if p.stars == 0 {
                if p.konst {
                    VkElType::Const(r)
                } else {
                    VkElType::Var(r)
                }
            } else if p.konst {
                VkElType::ConstPtr(r, p.stars as u8)
            } else {
                VkElType::MutPtr(r, p.stars as u8)
            };
            els.push(el);
            i += 1;
            proof {
                lemma_signed_grows(start, ps, i as int);
            }
        }
        assert(ps.take(n as int) =~= ps);
        let ghost done = start.signed(ps);
        let first = els.remove(0);
        assert(els@ =~= done.1.skip(1));
        assert(first == done.1[0]);
        proof {
            lemma_signed_keeps(start, ps);
        }
        match &mut self.cur_type {
            VkType::FuncPointer { ret, params, .. } => {
                *ret = first;
                *params = els;
            },
            _ => {},
        }
        Ok(())
    }

    fn elem_type_text(&mut self, text: &[u8]) -> (r: Result<(), CrawlErrorKind>)
        requires
            old(self).inv(),
        ensures
            agrees(r, final(self)@, capped(old(self)@.elem_type_text(text@))),
            r is Ok ==> final(self).inv(),
            r is Err ==> final(self)@.path == old(self)@.path,
    {
        match self.cur_el {
            VkElType::Unknown => {
                if is_word(text, "void") {
                    self.cur_el.make_void();
                    return Ok(());
                }
            },
            VkElType::Void => {
                return Err(CrawlErrorKind::Composition);
            },
            _ => {},
        }
        let name = match self.intern(text) {
            Ok(x) => x,
            Err(e) => {
                return Err(e);
            },
        };
        self.cur_el.set_type(name);
        Ok(())
    }

    fn text(&mut self, text: &[u8]) -> (r: Result<(), CrawlErrorKind>)
        requires
            old(self).inv(),
        ensures
            agrees(r, final(self)@, capped(old(self)@.texted(text@))),
            r is Ok ==> final(self).inv(),
            r is Err ==> final(self)@.path == old(self)@.path,
    {
        let depth = self.path.len();
        if depth == 0 {
            return Ok(());
        }
        let top = self.path[depth - 1];
        match top {
            Frame::TypeDecl => {
                if self.is_funcpointer() {
                    self.note(text);
                }
                Ok(())
            },
            Frame::DeclType => self.decl_type_text(text),
            Frame::DeclName => {
                let name = match self.intern(text) {
                    Ok(x) => x,
                    Err(e) => {
                        return Err(e);
                    },
                };
                if self.is_funcpointer() {
                    self.note(text);
                }
                let _ = self.cur_type.set_name(name);
                Ok(())
            },
            Frame::ElemType => self.elem_type_text(text),
            Frame::ElemName => {
                if !self.cur_name.is_null() {
                    return Err(CrawlErrorKind::DuplicateName);
                }
                let name = match self.intern(text) {
                    Ok(x) => x,
                    Err(e) => {
                        return Err(e);
                    },
                };
                self.cur_name = name;
                Ok(())
            },
            Frame::ElemEnum => {
                let sized_by_name = match self.cur_el {
                    VkElType::ConstArrayEnum(_, _) => true,
                    VkElType::MutArrayEnum(_, _) => true,
                    _ => false,
                };
                if !sized_by_name {
                    return Err(CrawlErrorKind::Composition);
                }
                let name = match self.intern(text) {
                    Ok(x) => x,
                    Err(e) => {
                        return Err(e);
                    },
                };
                self.cur_el.set_array_const(name);
                Ok(())
            },
            Frame::Member | Frame::Param | Frame::Proto => {
                match compose_el(self.cur_el, token_of(text)) {
                    Ok(el) => {
                        self.cur_el = el;
                        Ok(())
                    },
                    Err(e) => Err(e),
                }
            },
            _ => Ok(()),
        }
    }

    /// Takes one event. On an error nothing more can be fed.
    pub fn feed(&mut self, event: &XmlEvent) -> (r: Result<(), CrawlErrorKind>)
        requires
            old(self).inv(),
        ensures
            agrees(r, final(self)@, step(old(self)@, event@)),
            r is Ok ==> final(self).inv(),
            r is Err ==> final(self)@.path == old(self)@.path,
    {
        reveal(step);
        match event {
            XmlEvent::StartElement { name, attributes } => self.open(
                tag_of_name(name.as_slice()),
                attributes,
            ),
            XmlEvent::EndElement { name } => self.close(tag_of_name(name.as_slice())),
            XmlEvent::Characters { text } => {
                let text = trim(text.as_slice());
                if text.len() == 0 {
                    Ok(())
                } else {
                    self.text(text)
                }
            },
            XmlEvent::End => Ok(()),
            XmlEvent::Other => Ok(()),
            XmlEvent::Malformed => Err(CrawlErrorKind::Malformed),
        }
    }

    /// The number of elements that are open.
    pub fn depth(&self) -> (n: usize)
        ensures
            n == self@.path.len(),
    {
        self.path.len()
    }

    /// Ends the crawl and hands out the registry.
    pub fn into_registry(self) -> (registry: VkRegistry)
        requires
            self.inv(),
        ensures
            registry@ == self@.registry,
            registry@.wf(),
    {
        self.registry
    }
}

/// The arena only grows while the names of a declaration are interned.
proof fn lemma_signed_grows(c: CrawlerView, ps: Seq<crate::signature::PhraseView>, i: int)
    requires
        0 <= i <= ps.len(),
    ensures
        c.signed(ps.take(i)).0.registry.buffer.len() <= c.signed(ps).0.registry.buffer.len(),
        c.signed(ps).0.registry.capacity == c.registry.capacity,
        c.signed(ps).1.len() == ps.len(),
    decreases ps.len() - i,
{
    lemma_signed_shape(c, ps);
    if i < ps.len() {
        lemma_signed_grows(c, ps, i + 1);
        assert(ps.take(i + 1).drop_last() =~= ps.take(i));
    } else {
        assert(ps.take(i) =~= ps);
    }
}

/// To intern the names of a declaration changes nothing but the arena.
proof fn lemma_signed_keeps(c: CrawlerView, ps: Seq<crate::signature::PhraseView>)
    ensures
        c.signed(ps).0 == (CrawlerView { registry: c.signed(ps).0.registry, ..c }),
    decreases ps.len(),
{
    if ps.len() > 0 {
        lemma_signed_keeps(c, ps.drop_last());
    }
}

proof fn lemma_signed_shape(c: CrawlerView, ps: Seq<crate::signature::PhraseView>)
    ensures
        c.signed(ps).0.registry.capacity == c.registry.capacity,
        c.signed(ps).1.len() == ps.len(),
    decreases ps.len(),
{
    if ps.len() > 0 {
        lemma_signed_shape(c, ps.drop_last());
    }
}

fn is_end(event: &XmlEvent) -> (b: bool)
    ensures
        b == (event@ is End),
{
    match event {
        XmlEvent::End => true,
        _ => false,
    }
}

/// Crawls a document that is given as its events, into a registry whose arena
/// takes `capacity` bytes. The events after the first end of the document are
/// not looked at. A refusal names the event, the reason, and the elements
/// that were open.
pub fn crawl(events: &Vec<XmlEvent>, capacity: usize) -> (r: Result<VkRegistry, CrawlError>)
    ensures
        match crawl_result(events_view(events@), capacity as nat) {
            Ok(registry) => r matches Ok(out) && out@ == registry,
            Err((at, kind, path)) => r matches Err(e) && e.at == at && e.kind == kind && e.path@
                == path,
        },
        r matches Ok(out) ==> out@.wf(),
{
    let mut crawler = Crawler::new(capacity);
    let n = events.len();
    let mut i: usize = 0;
    let ghost all = events_view(events@);
    while i < n && !is_end(&events[i])
        invariant
            i <= n,
            n == events@.len(),
            all == events_view(events@),
            crawler.inv(),
            crawl_from(crawler@, all, i as int) == crawl_result(all, capacity as nat),
        decreases n - i,
    {
        assert(all[i as int] == events@[i as int]@);
        match crawler.feed(&events[i]) {
            Ok(()) => {},
            Err(kind) => {
                return Err(CrawlError { at: i, kind, path: crawler.path });
            },
        }
        i += 1;
    }
    assert(i < n ==> all[i as int] == events@[i as int]@);
    if crawler.depth() != 0 {
        return Err(CrawlError { at: i, kind: CrawlErrorKind::Unclosed, path: crawler.path });
    }
    Ok(crawler.into_registry())
}

impl VkRegistry {
    /// Creates the registry that the XML document `vk_xml` describes. The
    /// arena is sized by the length of the document.
    pub fn new(vk_xml: &[u8]) -> (r: Result<VkRegistry, CrawlError>)
        ensures
            match crawl_result(xml_events(vk_xml@), vk_xml@.len()) {
                Ok(registry) => r matches Ok(out) && out@ == registry,
                Err((at, kind, path)) => r matches Err(e) && e.at == at && e.kind == kind
                    && e.path@ == path,
            },
            r matches Ok(out) ==> out@.wf(),
    {
        let events = read_events(vk_xml);
        crawl(&events, vk_xml.len())
    }
}

} // verus!
