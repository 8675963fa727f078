//! The type of a Vulkan element (a struct member, a union variant, a command
//! parameter or a return value) and the rules by which one is composed.

use crate::arena::InternedRef;
use vstd::prelude::*;

verus! {

/// The type of a Vulkan element and any associated data.
#[derive(Clone, Copy, Debug, PartialEq, Eq, Structural)]
pub enum VkElType {
    /// A standard, singular, owned field.
    Var(InternedRef),
    /// An intermediate type created when the keyword `const` is seen.
    Const(InternedRef),
    /// A pointer to immutable data, with its depth of indirection.
    ConstPtr(InternedRef, u8),
    /// A pointer to mutable data, with its depth of indirection.
    MutPtr(InternedRef, u8),
    /// An array whose contents are immutable.
    ConstArray(InternedRef, usize),
    /// An array whose contents are mutable.
    MutArray(InternedRef, usize),
    /// An immutable array whose size is a named constant.
    ConstArrayEnum(InternedRef, InternedRef),
    /// A mutable array whose size is a named constant.
    MutArrayEnum(InternedRef, InternedRef),
    /// Nothing.
    Void,
    /// The value that an element starts with.
    Unknown,
}

impl VkElType {
    /// The name of the element's type, where the form carries one.
    pub open spec fn named_type(self) -> Option<InternedRef> {
        match self {
            VkElType::Var(s) | VkElType::Const(s) | VkElType::ConstPtr(s, _) | VkElType::MutPtr(
                s,
                _,
            ) | VkElType::ConstArray(s, _) | VkElType::ConstArrayEnum(s, _) | VkElType::MutArray(
                s,
                _,
            ) | VkElType::MutArrayEnum(s, _) => Some(s),
            VkElType::Void | VkElType::Unknown => None,
        }
    }

    /// Whether the element is a pointer.
    pub open spec fn is_pointer(self) -> bool {
        self is ConstPtr || self is MutPtr
    }

    /// Whether the element is an array of either kind of size.
    pub open spec fn is_array(self) -> bool {
        self is ConstArray || self is MutArray || self is ConstArrayEnum || self is MutArrayEnum
    }

    /// The element with its type name replaced by `typ`.
    pub open spec fn with_type(self, typ: InternedRef) -> VkElType {
        match self {
            VkElType::Var(_) => VkElType::Var(typ),
            VkElType::Const(_) => VkElType::Const(typ),
            VkElType::ConstPtr(_, n) => VkElType::ConstPtr(typ, n),
            VkElType::MutPtr(_, n) => VkElType::MutPtr(typ, n),
            VkElType::ConstArray(_, n) => VkElType::ConstArray(typ, n),
            VkElType::MutArray(_, n) => VkElType::MutArray(typ, n),
            VkElType::ConstArrayEnum(_, e) => VkElType::ConstArrayEnum(typ, e),
            VkElType::MutArrayEnum(_, e) => VkElType::MutArrayEnum(typ, e),
            VkElType::Void => VkElType::Void,
            VkElType::Unknown => VkElType::Var(typ),
        }
    }

    /// The element after the keyword `const` was seen: a bare element becomes
    /// a constant, every other form stays as it is.
    pub open spec fn as_const(self) -> VkElType {
        match self {
            VkElType::Var(s) | VkElType::Const(s) => VkElType::Const(s),
            VkElType::Void | VkElType::Unknown => VkElType::Const(InternedRef::Null),
            other => other,
        }
    }

    /// The element after a pointer operator of depth `count` was seen.
    pub open spec fn as_ptr(self, count: u8) -> VkElType {
        match self {
            VkElType::Var(s) => VkElType::MutPtr(s, count),
            VkElType::Const(s) => VkElType::ConstPtr(s, count),
            VkElType::Void | VkElType::Unknown => VkElType::MutPtr(InternedRef::Null, count),
            other => other,
        }
    }

    /// The element after an array operator was seen; a `size` of zero stands
    /// for a size that a named constant gives.
    pub open spec fn as_array(self, size: usize) -> VkElType {
        match self {
            VkElType::Var(s) => if size == 0 {
                VkElType::MutArrayEnum(s, InternedRef::Null)
            } else {
                VkElType::MutArray(s, size)
            },
            VkElType::Const(s) => if size == 0 {
                VkElType::ConstArrayEnum(s, InternedRef::Null)
            } else {
                VkElType::ConstArray(s, size)
            },
            other => other,
        }
    }

    /// The array with the constant `size_enum` as its size.
    pub open spec fn with_array_const(self, size_enum: InternedRef) -> VkElType {
        match self {
            VkElType::ConstArrayEnum(s, _) => VkElType::ConstArrayEnum(s, size_enum),
            VkElType::MutArrayEnum(s, _) => VkElType::MutArrayEnum(s, size_enum),
            other => other,
        }
    }

    /// The name of the element's type, if the form carries one.
    pub fn type_ptr(&self) -> (name: Option<InternedRef>)
        ensures
            name == self.named_type(),
            name.is_none() <==> (*self is Void || *self is Unknown),
    {
        match *self {
            VkElType::Var(s) | VkElType::Const(s) | VkElType::ConstPtr(s, _) | VkElType::MutPtr(
                s,
                _,
            ) | VkElType::ConstArray(s, _) | VkElType::ConstArrayEnum(s, _) | VkElType::MutArray(
                s,
                _,
            ) | VkElType::MutArrayEnum(s, _) => Some(s),
            VkElType::Void | VkElType::Unknown => None,
        }
    }

    /// Sets the name of the element's type. An unknown element becomes a bare
    /// variable of that type; every other form keeps its shape.
    pub fn set_type(&mut self, typ: InternedRef)
        requires
            !(*old(self) is Void),
        ensures
            *final(self) == old(self).with_type(typ),
            final(self).named_type() == Some(typ),
    {
        match *self {
            VkElType::Var(_) => *self = VkElType::Var(typ),
            VkElType::Const(_) => *self = VkElType::Const(typ),
            VkElType::ConstPtr(_, n) => *self = VkElType::ConstPtr(typ, n),
            VkElType::MutPtr(_, n) => *self = VkElType::MutPtr(typ, n),
            VkElType::ConstArray(_, n) => *self = VkElType::ConstArray(typ, n),
            VkElType::MutArray(_, n) => *self = VkElType::MutArray(typ, n),
            VkElType::ConstArrayEnum(_, e) => *self = VkElType::ConstArrayEnum(typ, e),
            VkElType::MutArrayEnum(_, e) => *self = VkElType::MutArrayEnum(typ, e),
            VkElType::Void => {},
            VkElType::Unknown => *self = VkElType::Var(typ),
        }
    }

    /// Whether the keyword `const` can follow the element: a pointer and an
    /// array with mutable contents cannot change their mutability.
    pub open spec fn takes_const(self) -> bool {
        !self.is_pointer() && !(self is MutArray) && !(self is MutArrayEnum)
    }

    /// Marks the element immutable. A bare element becomes a constant; an
    /// array whose contents are immutable stays as it is.
    pub fn make_const(&mut self)
        requires
            old(self).takes_const(),
        ensures
            *final(self) == old(self).as_const(),
            !old(self).is_array() ==> *final(self) is Const,
            old(self).is_array() ==> *final(self) == *old(self),
    {
        match *self {
            VkElType::Var(s) | VkElType::Const(s) => *self = VkElType::Const(s),
            VkElType::ConstArray(_, _) | VkElType::ConstArrayEnum(_, _) => {},
            _ => *self = VkElType::Const(InternedRef::Null),
        }
    }

    /// Turns the element into a pointer of depth `count`: a bare variable into
    /// a pointer to mutable data, a constant into a pointer to immutable data.
    pub fn make_ptr(&mut self, count: u8)
        requires
            !old(self).is_pointer(),
            !old(self).is_array(),
        ensures
            *final(self) == old(self).as_ptr(count),
            final(self).is_pointer(),
    {
        match *self {
            VkElType::Var(s) => *self = VkElType::MutPtr(s, count),
            VkElType::Const(s) => *self = VkElType::ConstPtr(s, count),
            _ => *self = VkElType::MutPtr(InternedRef::Null, count),
        }
    }

    /// Turns a named element into an array of `size` elements, or, where
    /// `size` is zero, into an array whose size a constant will give.
    pub fn make_array(&mut self, size: usize)
        requires
            *old(self) is Var || *old(self) is Const,
        ensures
            *final(self) == old(self).as_array(size),
            final(self).is_array(),
            final(self).named_type() == old(self).named_type(),
    {
        match *self {
            VkElType::Var(s) => *self = if size == 0 {
                VkElType::MutArrayEnum(s, InternedRef::Null)
            } else {
                VkElType::MutArray(s, size)
            },
            VkElType::Const(s) => *self = if size == 0 {
                VkElType::ConstArrayEnum(s, InternedRef::Null)
            } else {
                VkElType::ConstArray(s, size)
            },
            _ => {},
        }
    }

    /// Names the constant that gives the size of an array declared without a
    /// number.
    pub fn set_array_const(&mut self, size_enum: InternedRef)
        requires
            *old(self) is ConstArrayEnum || *old(self) is MutArrayEnum,
        ensures
            *final(self) == old(self).with_array_const(size_enum),
    {
        match *self {
            VkElType::ConstArrayEnum(s, _) => *self = VkElType::ConstArrayEnum(s, size_enum),
            VkElType::MutArrayEnum(s, _) => *self = VkElType::MutArrayEnum(s, size_enum),
            _ => {},
        }
    }

    /// Turns an element of which nothing is known yet into `Void`.
    pub fn make_void(&mut self)
        requires
            *old(self) is Unknown,
        ensures
            *final(self) == VkElType::Void,
    {
        *self = VkElType::Void;
    }

    /// A constant whose type is not named yet.
    pub fn empty_const() -> (el: VkElType)
        ensures
            el == VkElType::Const(InternedRef::Null),
    {
        VkElType::Const(InternedRef::Null)
    }
}

/// A pointer and an array exclude each other, and neither is ever undone: no
/// composition step leads from one to the other.
pub proof fn lemma_pointer_array_exclusive(el: VkElType, typ: InternedRef, size_enum: InternedRef)
    ensures
        !(el.is_pointer() && el.is_array()),
        el.is_pointer() ==> el.with_type(typ).is_pointer() && el.with_array_const(
            size_enum,
        ).is_pointer(),
        el.is_array() ==> el.with_type(typ).is_array() && el.with_array_const(size_enum).is_array(),
{
}

} // verus!
