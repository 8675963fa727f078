//! The nodes of the registry model: types, variants, commands, features,
//! extensions and the interfaces that features and extensions list.

use crate::arena::InternedRef;
use crate::eltype::VkElType;
use crate::version::VkVersion;
use vstd::prelude::*;

verus! {

/// A member of a struct or a variant of a union.
#[derive(Clone, Copy, Debug, PartialEq, Eq, Structural)]
pub struct VkMember {
    pub field_type: VkElType,
    pub field_name: InternedRef,
    pub optional: bool,
}

impl VkMember {
    /// A member of which only the `optional` flag is known.
    pub fn empty(optional: bool) -> (m: Self)
        ensures
            m == (VkMember {
                field_type: VkElType::Unknown,
                field_name: InternedRef::Null,
                optional,
            }),
    {
        VkMember { field_type: VkElType::Unknown, field_name: InternedRef::Null, optional }
    }

    /// The name of the member's type, if its form carries one.
    pub fn type_ptr(&self) -> (name: Option<InternedRef>)
        ensures
            name == self.field_type.named_type(),
    {
        self.field_type.type_ptr()
    }

    /// Sets the name of the member's type; the form of the type stays.
    pub fn set_type(&mut self, field_type: InternedRef)
        requires
            !(old(self).field_type is Void),
        ensures
            *final(self) == (VkMember {
                field_type: old(self).field_type.with_type(field_type),
                ..*old(self)
            }),
    {
        self.field_type.set_type(field_type);
    }

    /// Names a member that has no name yet.
    pub fn set_name(&mut self, field_name: InternedRef)
        requires
            old(self).field_name == InternedRef::Null,
        ensures
            *final(self) == (VkMember { field_name, ..*old(self) }),
    {
        self.field_name = field_name;
    }
}

/// A variant of a Vulkan enum or bitmask.
#[derive(Clone, Copy, Debug, PartialEq, Eq, Structural)]
pub enum VkVariant {
    /// A variant with a literal value.
    Value { name: InternedRef, value: isize },
    /// A variant that is one bit, given by its position.
    Bitpos { name: InternedRef, bitpos: u32 },
}

impl VkVariant {
    /// The name of either kind of variant.
    pub open spec fn spec_name(self) -> InternedRef {
        match self {
            VkVariant::Value { name, .. } => name,
            VkVariant::Bitpos { name, .. } => name,
        }
    }

    /// The integer that the variant stands for: its value, or the one bit at
    /// its position.
    pub open spec fn number(self) -> int {
        match self {
            VkVariant::Value { value, .. } => value as int,
            VkVariant::Bitpos { bitpos, .. } => vstd::arithmetic::power2::pow2(bitpos as nat) as int,
        }
    }

    pub fn new_value(name: InternedRef, value: isize) -> (v: Self)
        ensures
            v == (VkVariant::Value { name, value }),
    {
        VkVariant::Value { name, value }
    }

    pub fn new_bitpos(name: InternedRef, bitpos: u32) -> (v: Self)
        ensures
            v == (VkVariant::Bitpos { name, bitpos }),
    {
        VkVariant::Bitpos { name, bitpos }
    }

    pub fn name(&self) -> (n: InternedRef)
        ensures
            n == self.spec_name(),
    {
        match *self {
            VkVariant::Value { name, .. } => name,
            VkVariant::Bitpos { name, .. } => name,
        }
    }

    /// Renames the variant; its value or bit position stays.
    pub fn set_name(&mut self, new_name: InternedRef)
        ensures
            final(self).spec_name() == new_name,
            final(self).number() == old(self).number(),
            *old(self) is Value ==> *final(self) == (VkVariant::Value {
                name: new_name,
                value: old(self)->value,
            }),
            *old(self) is Bitpos ==> *final(self) == (VkVariant::Bitpos {
                name: new_name,
                bitpos: old(self)->bitpos,
            }),
    {
        match *self {
            VkVariant::Value { value, .. } => *self = VkVariant::Value { name: new_name, value },
            VkVariant::Bitpos { bitpos, .. } => *self = VkVariant::Bitpos {
                name: new_name,
                bitpos,
            },
        }
    }
}

/// A type of the registry.
#[derive(Clone, Debug)]
#[allow(inconsistent_fields)]
pub enum VkType {
    Struct { name: InternedRef, fields: Vec<VkMember> },
    Union { name: InternedRef, variants: Vec<VkMember> },
    Enum { name: InternedRef, variants: Vec<VkVariant> },
    Bitmask { name: InternedRef, variants: Vec<VkVariant> },
    Handle { name: InternedRef, dispatchable: bool },
    TypeDef {
        /// The type that is being aliased.
        typ: InternedRef,
        /// The name of the new type.
        name: InternedRef,
        /// The type that must be declared before this one, if any.
        requires: InternedRef,
    },
    ApiConst { name: InternedRef, value: InternedRef },
    /// A define; its body is fixed text of the generator and is not stored.
    Define { name: InternedRef },
    FuncPointer { name: InternedRef, ret: VkElType, params: Vec<VkElType> },
    ExternType { name: InternedRef, requires: InternedRef },
    /// A type of a category that the generator does not handle.
    Unhandled,
}

/// What a [`VkType`] holds, with its lists as sequences.
#[allow(inconsistent_fields)]
pub enum TypeView {
    Struct { name: InternedRef, fields: Seq<VkMember> },
    Union { name: InternedRef, variants: Seq<VkMember> },
    Enum { name: InternedRef, variants: Seq<VkVariant> },
    Bitmask { name: InternedRef, variants: Seq<VkVariant> },
    Handle { name: InternedRef, dispatchable: bool },
    TypeDef { typ: InternedRef, name: InternedRef, requires: InternedRef },
    ApiConst { name: InternedRef, value: InternedRef },
    Define { name: InternedRef },
    FuncPointer { name: InternedRef, ret: VkElType, params: Seq<VkElType> },
    ExternType { name: InternedRef, requires: InternedRef },
    Unhandled,
}

impl View for VkType {
    type V = TypeView;

    open spec fn view(&self) -> TypeView {
        match *self {
            VkType::Struct { name, fields } => TypeView::Struct { name, fields: fields@ },
            VkType::Union { name, variants } => TypeView::Union { name, variants: variants@ },
            VkType::Enum { name, variants } => TypeView::Enum { name, variants: variants@ },
            VkType::Bitmask { name, variants } => TypeView::Bitmask { name, variants: variants@ },
            VkType::Handle { name, dispatchable } => TypeView::Handle { name, dispatchable },
            VkType::TypeDef { typ, name, requires: req } => TypeView::TypeDef {
                typ,
                name,
                requires: req,
            },
            VkType::ApiConst { name, value } => TypeView::ApiConst { name, value },
            VkType::Define { name } => TypeView::Define { name },
            VkType::FuncPointer { name, ret, params } => TypeView::FuncPointer {
                name,
                ret,
                params: params@,
            },
            VkType::ExternType { name, requires: req } => TypeView::ExternType {
                name,
                requires: req,
            },
            VkType::Unhandled => TypeView::Unhandled,
        }
    }
}

impl TypeView {
    /// The name of the type; none for a type that is not handled.
    pub open spec fn name(self) -> Option<InternedRef> {
        match self {
            TypeView::Struct { name, .. } => Some(name),
            TypeView::Union { name, .. } => Some(name),
            TypeView::Enum { name, .. } => Some(name),
            TypeView::Bitmask { name, .. } => Some(name),
            TypeView::Handle { name, .. } => Some(name),
            TypeView::TypeDef { name, .. } => Some(name),
            TypeView::ApiConst { name, .. } => Some(name),
            TypeView::Define { name } => Some(name),
            TypeView::FuncPointer { name, .. } => Some(name),
            TypeView::ExternType { name, .. } => Some(name),
            TypeView::Unhandled => None,
        }
    }

    /// The type under the name `new_name`, with everything else kept.
    pub open spec fn renamed(self, new_name: InternedRef) -> TypeView {
        match self {
            TypeView::Struct { fields, .. } => TypeView::Struct { name: new_name, fields },
            TypeView::Union { variants, .. } => TypeView::Union { name: new_name, variants },
            TypeView::Enum { variants, .. } => TypeView::Enum { name: new_name, variants },
            TypeView::Bitmask { variants, .. } => TypeView::Bitmask { name: new_name, variants },
            TypeView::Handle { dispatchable, .. } => TypeView::Handle {
                name: new_name,
                dispatchable,
            },
            TypeView::TypeDef { typ, requires: req, .. } => TypeView::TypeDef {
                typ,
                name: new_name,
                requires: req,
            },
            TypeView::ApiConst { value, .. } => TypeView::ApiConst { name: new_name, value },
            TypeView::Define { .. } => TypeView::Define { name: new_name },
            TypeView::FuncPointer { ret, params, .. } => TypeView::FuncPointer {
                name: new_name,
                ret,
                params,
            },
            TypeView::ExternType { requires: req, .. } => TypeView::ExternType {
                name: new_name,
                requires: req,
            },
            TypeView::Unhandled => TypeView::Unhandled,
        }
    }
}

impl VkType {
    /// The name of the type, unless the type is not handled.
    pub fn name(&self) -> (n: Option<InternedRef>)
        ensures
            n == self@.name(),
            n.is_none() <==> *self is Unhandled,
    {
        match self {
            VkType::Struct { name, .. } => Some(*name),
            VkType::Union { name, .. } => Some(*name),
            VkType::Enum { name, .. } => Some(*name),
            VkType::Bitmask { name, .. } => Some(*name),
            VkType::Handle { name, .. } => Some(*name),
            VkType::TypeDef { name, .. } => Some(*name),
            VkType::ApiConst { name, .. } => Some(*name),
            VkType::Define { name } => Some(*name),
            VkType::FuncPointer { name, .. } => Some(*name),
            VkType::ExternType { name, .. } => Some(*name),
            VkType::Unhandled => None,
        }
    }

    /// Renames the type. A type that is not handled has no name to set: it
    /// stays as it is and the call fails.
    pub fn set_name(&mut self, new_name: InternedRef) -> (r: Result<(), ()>)
        ensures
            final(self)@ == old(self)@.renamed(new_name),
            r.is_err() <==> *old(self) is Unhandled,
    {
        match self {
            VkType::Struct { name, .. } => {
                *name = new_name;
                Ok(())
            },
            VkType::Union { name, .. } => {
                *name = new_name;
                Ok(())
            },
            VkType::Enum { name, .. } => {
                *name = new_name;
                Ok(())
            },
            VkType::Bitmask { name, .. } => {
                *name = new_name;
                Ok(())
            },
            VkType::Handle { name, .. } => {
                *name = new_name;
                Ok(())
            },
            VkType::TypeDef { name, .. } => {
                *name = new_name;
                Ok(())
            },
            VkType::ApiConst { name, .. } => {
                *name = new_name;
                Ok(())
            },
            VkType::Define { name } => {
                *name = new_name;
                Ok(())
            },
            VkType::FuncPointer { name, .. } => {
                *name = new_name;
                Ok(())
            },
            VkType::ExternType { name, .. } => {
                *name = new_name;
                Ok(())
            },
            VkType::Unhandled => Err(()),
        }
    }

    pub fn new_struct(name: InternedRef) -> (t: Self)
        ensures
            t@ == (TypeView::Struct { name, fields: Seq::empty() }),
    {
        VkType::Struct { name, fields: Vec::with_capacity(8) }
    }

    pub fn new_union(name: InternedRef) -> (t: Self)
        ensures
            t@ == (TypeView::Union { name, variants: Seq::empty() }),
    {
        VkType::Union { name, variants: Vec::with_capacity(8) }
    }

    pub fn new_enum(name: InternedRef) -> (t: Self)
        ensures
            t@ == (TypeView::Enum { name, variants: Seq::empty() }),
    {
        VkType::Enum { name, variants: Vec::with_capacity(8) }
    }

    pub fn new_bitmask(name: InternedRef) -> (t: Self)
        ensures
            t@ == (TypeView::Bitmask { name, variants: Seq::empty() }),
    {
        VkType::Bitmask { name, variants: Vec::with_capacity(8) }
    }

    /// A dispatchable handle that has no name yet.
    pub fn empty_handle() -> (t: Self)
        ensures
            t@ == (TypeView::Handle { name: InternedRef::Null, dispatchable: true }),
    {
        VkType::Handle { name: InternedRef::Null, dispatchable: true }
    }

    /// A type definition of which only the required type, if any, is known.
    pub fn new_typedef(required: Option<InternedRef>) -> (t: Self)
        ensures
            t@ == (TypeView::TypeDef {
                typ: InternedRef::Null,
                name: InternedRef::Null,
                requires: or_null(required),
            }),
    {
        VkType::TypeDef {
            typ: InternedRef::Null,
            name: InternedRef::Null,
            requires: unwrap_or_null(required),
        }
    }

    pub fn new_const(name: InternedRef, value: InternedRef) -> (t: Self)
        ensures
            t@ == (TypeView::ApiConst { name, value }),
    {
        VkType::ApiConst { name, value }
    }

    pub fn new_define(name: InternedRef) -> (t: Self)
        ensures
            t@ == (TypeView::Define { name }),
    {
        VkType::Define { name }
    }

    pub fn empty_define() -> (t: Self)
        ensures
            t@ == (TypeView::Define { name: InternedRef::Null }),
    {
        VkType::Define { name: InternedRef::Null }
    }

    /// A function pointer of which nothing is known yet.
    pub fn empty_funcpointer() -> (t: Self)
        ensures
            t@ == (TypeView::FuncPointer {
                name: InternedRef::Null,
                ret: VkElType::Unknown,
                params: Seq::empty(),
            }),
    {
        VkType::FuncPointer {
            name: InternedRef::Null,
            ret: VkElType::Unknown,
            params: Vec::with_capacity(4),
        }
    }

    pub fn new_extern(name: InternedRef, required: InternedRef) -> (t: Self)
        ensures
            t@ == (TypeView::ExternType { name, requires: required }),
    {
        VkType::ExternType { name, requires: required }
    }
}

/// A parameter of a command.
#[derive(Clone, Copy, Debug, PartialEq, Eq, Structural)]
pub struct VkParam {
    pub typ: VkElType,
    pub name: InternedRef,
}

impl VkParam {
    /// A parameter of which nothing is known yet.
    pub fn empty() -> (p: VkParam)
        ensures
            p == (VkParam { typ: VkElType::Unknown, name: InternedRef::Null }),
    {
        VkParam { typ: VkElType::Unknown, name: InternedRef::Null }
    }
}

/// A command of the API.
#[derive(Clone, Debug)]
pub struct VkCommand {
    /// The return value.
    pub ret: VkElType,
    pub name: InternedRef,
    pub params: Vec<VkParam>,
}

/// What a [`VkCommand`] holds, with its parameters as a sequence.
pub struct CommandView {
    pub ret: VkElType,
    pub name: InternedRef,
    pub params: Seq<VkParam>,
}

impl View for VkCommand {
    type V = CommandView;

    open spec fn view(&self) -> CommandView {
        CommandView { ret: self.ret, name: self.name, params: self.params@ }
    }
}

impl VkCommand {
    /// A command of which nothing is known yet.
    pub fn empty() -> (c: VkCommand)
        ensures
            c@ == (CommandView {
                ret: VkElType::Unknown,
                name: InternedRef::Null,
                params: Seq::empty(),
            }),
    {
        VkCommand {
            ret: VkElType::Unknown,
            name: InternedRef::Null,
            params: Vec::with_capacity(8),
        }
    }
}

/// One entry of the `require` or `remove` list of a feature or an extension.
#[derive(Clone, Copy, Debug, PartialEq, Eq, Structural)]
pub enum VkInterface {
    Command { name: InternedRef, profile: InternedRef },
    Type { name: InternedRef, profile: InternedRef },
    /// A new constant that an extension defines.
    ConstDef { name: InternedRef, value: InternedRef, profile: InternedRef },
    /// A reference to a constant of the API constants block.
    ApiConst { name: InternedRef, profile: InternedRef },
    /// A variant that an extension adds to an existing enum or bitmask.
    ExtnEnum { extends: InternedRef, profile: InternedRef, variant: VkVariant },
}

/// The reference that `r` holds, or the null reference.
pub open spec fn or_null(r: Option<InternedRef>) -> InternedRef {
    match r {
        Some(r) => r,
        None => InternedRef::Null,
    }
}

/// The reference that `r` holds, or the null reference.
pub fn unwrap_or_null(r: Option<InternedRef>) -> (out: InternedRef)
    ensures
        out == or_null(r),
{
    match r {
        Some(r) => r,
        None => InternedRef::Null,
    }
}

impl VkInterface {
    pub fn new_command(name: InternedRef, profile: Option<InternedRef>) -> (i: Self)
        ensures
            i == (VkInterface::Command { name, profile: or_null(profile) }),
    {
        VkInterface::Command { name, profile: unwrap_or_null(profile) }
    }

    pub fn new_type(name: InternedRef, profile: Option<InternedRef>) -> (i: Self)
        ensures
            i == (VkInterface::Type { name, profile: or_null(profile) }),
    {
        VkInterface::Type { name, profile: unwrap_or_null(profile) }
    }

    pub fn new_const_def(name: InternedRef, value: InternedRef, profile: Option<InternedRef>) -> (i:
        Self)
        ensures
            i == (VkInterface::ConstDef { name, value, profile: or_null(profile) }),
    {
        VkInterface::ConstDef { name, value, profile: unwrap_or_null(profile) }
    }

    pub fn new_api_const(name: InternedRef, profile: Option<InternedRef>) -> (i: Self)
        ensures
            i == (VkInterface::ApiConst { name, profile: or_null(profile) }),
    {
        VkInterface::ApiConst { name, profile: unwrap_or_null(profile) }
    }

    pub fn new_extn_enum(
        variant: VkVariant,
        extends: Option<InternedRef>,
        profile: Option<InternedRef>,
    ) -> (i: Self)
        ensures
            i == (VkInterface::ExtnEnum {
                extends: or_null(extends),
                profile: or_null(profile),
                variant,
            }),
    {
        VkInterface::ExtnEnum {
            extends: unwrap_or_null(extends),
            profile: unwrap_or_null(profile),
            variant,
        }
    }
}

/// Whether the crawler is inside a `require` or a `remove` block, with the
/// block's profile, or inside neither.
#[derive(Clone, Copy, Debug, PartialEq, Eq, Structural)]
pub enum VkReqRem {
    Require(Option<InternedRef>),
    Remove(Option<InternedRef>),
    Outside,
}

/// What a feature or an extension lists as required and as removed.
pub struct InterfaceLists {
    pub require: Seq<VkInterface>,
    pub remove: Seq<VkInterface>,
}

impl InterfaceLists {
    /// The lists after `entry` was added to the one that `reqrem` names.
    pub open spec fn with_entry(self, reqrem: VkReqRem, entry: VkInterface) -> InterfaceLists {
        match reqrem {
            VkReqRem::Require(_) => InterfaceLists {
                require: self.require.push(entry),
                remove: self.remove,
            },
            VkReqRem::Remove(_) => InterfaceLists {
                require: self.require,
                remove: self.remove.push(entry),
            },
            VkReqRem::Outside => self,
        }
    }
}

impl VkReqRem {
    /// The profile of the block.
    pub open spec fn profile(self) -> Option<InternedRef> {
        match self {
            VkReqRem::Require(p) => p,
            VkReqRem::Remove(p) => p,
            VkReqRem::Outside => None,
        }
    }
}

/// The contents of one version of the core API.
#[derive(Debug)]
pub struct VkFeature {
    pub name: InternedRef,
    pub version: VkVersion,
    pub require: Vec<VkInterface>,
    pub remove: Vec<VkInterface>,
}

/// What a [`VkFeature`] holds, with its lists as sequences.
pub struct FeatureView {
    pub name: InternedRef,
    pub version: VkVersion,
    pub lists: InterfaceLists,
}

impl View for VkFeature {
    type V = FeatureView;

    open spec fn view(&self) -> FeatureView {
        FeatureView {
            name: self.name,
            version: self.version,
            lists: InterfaceLists { require: self.require@, remove: self.remove@ },
        }
    }
}

impl VkFeature {
    pub fn new(name: InternedRef, version: VkVersion) -> (f: Self)
        ensures
            f@ == (FeatureView {
                name,
                version,
                lists: InterfaceLists { require: Seq::empty(), remove: Seq::empty() },
            }),
    {
        VkFeature {
            name,
            version,
            require: Vec::with_capacity(16),
            remove: Vec::with_capacity(16),
        }
    }

    /// Adds `entry` to the list that `reqrem` names.
    fn push_entry(&mut self, entry: VkInterface, reqrem: &VkReqRem)
        requires
            !(*reqrem is Outside),
        ensures
            final(self)@ == (FeatureView {
                lists: old(self)@.lists.with_entry(*reqrem, entry),
                ..old(self)@
            }),
    {
        match *reqrem {
            VkReqRem::Require(_) => self.require.push(entry),
            _ => self.remove.push(entry),
        }
    }

    /// Lists the command `name` as required or removed, as `reqrem` says.
    pub fn push_command(&mut self, name: InternedRef, reqrem: &VkReqRem)
        requires
            !(*reqrem is Outside),
        ensures
            final(self)@ == (FeatureView {
                lists: old(self)@.lists.with_entry(
                    *reqrem,
                    VkInterface::Command { name, profile: or_null(reqrem.profile()) },
                ),
                ..old(self)@
            }),
    {
        let entry = VkInterface::new_command(name, reqrem_profile(reqrem));
        self.push_entry(entry, reqrem);
    }

    /// Lists the API constant `name` as required or removed.
    pub fn push_const(&mut self, name: InternedRef, reqrem: &VkReqRem)
        requires
            !(*reqrem is Outside),
        ensures
            final(self)@ == (FeatureView {
                lists: old(self)@.lists.with_entry(
                    *reqrem,
                    VkInterface::ApiConst { name, profile: or_null(reqrem.profile()) },
                ),
                ..old(self)@
            }),
    {
        let entry = VkInterface::new_api_const(name, reqrem_profile(reqrem));
        self.push_entry(entry, reqrem);
    }

    /// Lists the type `name` as required or removed.
    pub fn push_type(&mut self, name: InternedRef, reqrem: &VkReqRem)
        requires
            !(*reqrem is Outside),
        ensures
            final(self)@ == (FeatureView {
                lists: old(self)@.lists.with_entry(
                    *reqrem,
                    VkInterface::Type { name, profile: or_null(reqrem.profile()) },
                ),
                ..old(self)@
            }),
    {
        let entry = VkInterface::new_type(name, reqrem_profile(reqrem));
        self.push_entry(entry, reqrem);
    }
}

fn reqrem_profile(reqrem: &VkReqRem) -> (p: Option<InternedRef>)
    ensures
        p == reqrem.profile(),
{
    match *reqrem {
        VkReqRem::Require(p) => p,
        VkReqRem::Remove(p) => p,
        VkReqRem::Outside => None,
    }
}

/// An extension: a named and numbered bundle of types, commands and variants.
#[derive(Debug)]
pub struct VkExtn {
    pub name: InternedRef,
    pub num: isize,
    pub require: Vec<VkInterface>,
    pub remove: Vec<VkInterface>,
}

/// What a [`VkExtn`] holds, with its lists as sequences.
pub struct ExtnView {
    pub name: InternedRef,
    pub num: isize,
    pub lists: InterfaceLists,
}

impl View for VkExtn {
    type V = ExtnView;

    open spec fn view(&self) -> ExtnView {
        ExtnView {
            name: self.name,
            num: self.num,
            lists: InterfaceLists { require: self.require@, remove: self.remove@ },
        }
    }
}

impl VkExtn {
    pub fn new(name: InternedRef, num: isize) -> (e: Self)
        ensures
            e@ == (ExtnView {
                name,
                num,
                lists: InterfaceLists { require: Seq::empty(), remove: Seq::empty() },
            }),
    {
        VkExtn { name, num, require: Vec::with_capacity(8), remove: Vec::new() }
    }

    /// Adds `entry` to the list that `reqrem` names.
    fn push_entry(&mut self, entry: VkInterface, reqrem: &VkReqRem)
        requires
            !(*reqrem is Outside),
        ensures
            final(self)@ == (ExtnView {
                lists: old(self)@.lists.with_entry(*reqrem, entry),
                ..old(self)@
            }),
    {
        match *reqrem {
            VkReqRem::Require(_) => self.require.push(entry),
            _ => self.remove.push(entry),
        }
    }

    /// Lists the command `name` as required or removed, as `reqrem` says.
    pub fn push_command(&mut self, name: InternedRef, reqrem: &VkReqRem)
        requires
            !(*reqrem is Outside),
        ensures
            final(self)@ == (ExtnView {
                lists: old(self)@.lists.with_entry(
                    *reqrem,
                    VkInterface::Command { name, profile: or_null(reqrem.profile()) },
                ),
                ..old(self)@
            }),
    {
        let entry = VkInterface::new_command(name, reqrem_profile(reqrem));
        self.push_entry(entry, reqrem);
    }

    /// Lists the constant `name`, which the extension defines as `value`.
    pub fn push_const(&mut self, name: InternedRef, value: InternedRef, reqrem: &VkReqRem)
        requires
            !(*reqrem is Outside),
        ensures
            final(self)@ == (ExtnView {
                lists: old(self)@.lists.with_entry(
                    *reqrem,
                    VkInterface::ConstDef { name, value, profile: or_null(reqrem.profile()) },
                ),
                ..old(self)@
            }),
    {
        let entry = VkInterface::new_const_def(name, value, reqrem_profile(reqrem));
        self.push_entry(entry, reqrem);
    }

    /// Lists `variant` as an addition to the enum or bitmask `extends`.
    pub fn push_enum(&mut self, variant: VkVariant, extends: Option<InternedRef>, reqrem: &VkReqRem)
        requires
            !(*reqrem is Outside),
        ensures
            final(self)@ == (ExtnView {
                lists: old(self)@.lists.with_entry(
                    *reqrem,
                    VkInterface::ExtnEnum {
                        extends: or_null(extends),
                        profile: or_null(reqrem.profile()),
                        variant,
                    },
                ),
                ..old(self)@
            }),
    {
        let entry = VkInterface::new_extn_enum(variant, extends, reqrem_profile(reqrem));
        self.push_entry(entry, reqrem);
    }

    /// Lists a reference to the API constant `name`.
    pub fn push_api_const(&mut self, name: InternedRef, reqrem: &VkReqRem)
        requires
            !(*reqrem is Outside),
        ensures
            final(self)@ == (ExtnView {
                lists: old(self)@.lists.with_entry(
                    *reqrem,
                    VkInterface::ApiConst { name, profile: or_null(reqrem.profile()) },
                ),
                ..old(self)@
            }),
    {
        let entry = VkInterface::new_api_const(name, reqrem_profile(reqrem));
        self.push_entry(entry, reqrem);
    }

    /// Lists the type `name` as required or removed.
    pub fn push_type(&mut self, name: InternedRef, reqrem: &VkReqRem)
        requires
            !(*reqrem is Outside),
        ensures
            final(self)@ == (ExtnView {
                lists: old(self)@.lists.with_entry(
                    *reqrem,
                    VkInterface::Type { name, profile: or_null(reqrem.profile()) },
                ),
                ..old(self)@
            }),
    {
        let entry = VkInterface::new_type(name, reqrem_profile(reqrem));
        self.push_entry(entry, reqrem);
    }
}

} // verus!
