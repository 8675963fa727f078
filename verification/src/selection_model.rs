//! What the closure solver computes, stated on the views of the registry and
//! of the selection.
//!
//! A selection holds, by their places in the registry, the types and the
//! commands that will be emitted, in the order in which they were taken, the
//! constants that extensions define, and the variants that extensions add to
//! enums. Taking a type takes every type that it mentions, and those before
//! it.

use crate::arena::InternedRef;
use crate::eltype::VkElType;
use crate::model::or_null;
use crate::model::CommandView;
use crate::model::InterfaceLists;
use crate::model::TypeView;
use crate::model::VkInterface;
use crate::model::VkVariant;
use crate::registry::position;
use crate::registry::RegistryView;
use crate::version::VkVersion;
use vstd::prelude::*;

verus! {

/// A constant that an extension defines.
#[derive(Clone, Copy, Debug, PartialEq, Eq, Structural)]
pub struct ConstDef {
    pub name: InternedRef,
    pub value: InternedRef,
}

/// A variant that an extension adds to the enum or bitmask at the place
/// `target` of the registry's types.
#[derive(Clone, Copy, Debug, PartialEq, Eq, Structural)]
pub struct ExtraVariant {
    pub target: usize,
    pub variant: VkVariant,
}

/// A name that is required and that the registry does not hold.
#[derive(Clone, Copy, Debug, PartialEq, Eq, Structural)]
pub enum Missing {
    Type(InternedRef),
    Command(InternedRef),
}

/// The feature or the extension that an error comes from.
#[derive(Clone, Copy, Debug, PartialEq, Eq, Structural)]
pub enum Referrer {
    /// The feature of this version.
    Feature(VkVersion),
    /// The extension at this place of the list that was asked for.
    Extension(usize),
}

/// Why nothing can be selected.
#[derive(Clone, Copy, Debug, PartialEq, Eq, Structural)]
pub enum SelectError {
    /// The registry has no extension of the name at this place of the list
    /// that was asked for.
    UnknownExtension { index: usize },
    /// A feature or an extension requires something, or something that
    /// mentions a type, that the registry does not hold.
    Undefined { missing: Missing, referrer: Referrer },
}

/// What a selection holds.
pub struct SelectionView {
    /// For each type of the registry, whether it is selected.
    pub picked: Seq<bool>,
    /// The selected types, in the order in which they were taken.
    pub types: Seq<usize>,
    /// The types that were removed, in the order of their removal.
    pub removed: Seq<usize>,
    /// For each command of the registry, whether it is selected.
    pub picked_commands: Seq<bool>,
    /// The selected commands, in the order in which they were taken.
    pub commands: Seq<usize>,
    /// The constants that extensions define.
    pub const_defs: Seq<ConstDef>,
    /// The variants that extensions add.
    pub extras: Seq<ExtraVariant>,
}

/// The name of the type that the element `el` mentions; null where it
/// mentions none.
pub open spec fn el_dep(el: VkElType) -> InternedRef {
    or_null(el.named_type())
}

/// The names of the types that the type `t` mentions: the types of the
/// members of a struct or union, the return and parameter types of a function
/// pointer, the aliased and the required type of a type definition, the
/// required type of an external type. Enums, bitmasks, handles, defines and
/// constants mention none.
pub open spec fn type_deps(t: TypeView) -> Seq<InternedRef> {
    match t {
        TypeView::Struct { fields, .. } => Seq::new(
            fields.len(),
            |i: int| el_dep(fields[i].field_type),
        ),
        TypeView::Union { variants, .. } => Seq::new(
            variants.len(),
            |i: int| el_dep(variants[i].field_type),
        ),
        TypeView::FuncPointer { ret, params, .. } => seq![el_dep(ret)] + Seq::new(
            params.len(),
            |i: int| el_dep(params[i]),
        ),
        TypeView::TypeDef { typ, requires: req, .. } => seq![typ, req],
        TypeView::ExternType { requires: req, .. } => seq![req],
        _ => Seq::empty(),
    }
}

/// The names of the types that the command `c` mentions: its return type and
/// the types of its parameters.
pub open spec fn command_deps(c: CommandView) -> Seq<InternedRef> {
    seq![el_dep(c.ret)] + Seq::new(c.params.len(), |i: int| el_dep(c.params[i].typ))
}

/// The number of types that are not selected.
pub open spec fn unpicked(picked: Seq<bool>) -> nat
    decreases picked.len(),
{
    if picked.len() == 0 {
        0
    } else {
        unpicked(picked.drop_last()) + if picked.last() {
            0nat
        } else {
            1nat
        }
    }
}

/// Selecting one more type leaves fewer that are not selected.
pub proof fn lemma_unpicked_update(picked: Seq<bool>, t: int)
    requires
        0 <= t < picked.len(),
        !picked[t],
    ensures
        unpicked(picked.update(t, true)) + 1 == unpicked(picked),
    decreases picked.len(),
{
    if t == picked.len() - 1 {
        assert(picked.update(t, true).drop_last() =~= picked.drop_last());
    } else {
        lemma_unpicked_update(picked.drop_last(), t);
        assert(picked.update(t, true).drop_last() =~= picked.drop_last().update(t, true));
    }
}

/// What `s` holds after `x` was added at its end.
pub proof fn lemma_push_contains(s: Seq<usize>, x: usize, y: usize)
    ensures
        s.push(x).contains(y) == (s.contains(y) || x == y),
{
    if s.contains(y) {
        let i = choose|i: int| 0 <= i < s.len() && s[i] == y;
        assert(s.push(x)[i] == y);
    }
    if x == y {
        assert(s.push(x)[s.len() as int] == y);
    }
    if s.push(x).contains(y) {
        let i = choose|i: int| 0 <= i < s.push(x).len() && s.push(x)[i] == y;
        if i < s.len() {
            assert(s[i] == y);
        }
    }
}

/// Adding what is not there leaves nothing twice.
pub proof fn lemma_push_distinct(s: Seq<usize>, x: usize)
    requires
        s.no_duplicates(),
        !s.contains(x),
    ensures
        s.push(x).no_duplicates(),
{
    assert forall|i: int, j: int|
        0 <= i < s.push(x).len() && 0 <= j < s.push(x).len() && i != j implies s.push(x)[i]
        != s.push(x)[j] by {
        if i < s.len() && j < s.len() {
        } else if i < s.len() {
            assert(s[i] != x);
        } else {
            assert(s[j] != x);
        }
    }
}

/// `s` without every `x`.
pub open spec fn without(s: Seq<usize>, x: usize) -> Seq<usize>
    decreases s.len(),
{
    if s.len() == 0 {
        s
    } else if s.last() == x {
        without(s.drop_last(), x)
    } else {
        without(s.drop_last(), x).push(s.last())
    }
}

/// Whether the type that `dep` names stands in the registry and is marked in
/// `picked` or listed in `removed`; the null reference names no type.
pub open spec fn settled_one(
    reg: RegistryView,
    picked: Seq<bool>,
    removed: Seq<usize>,
    dep: InternedRef,
) -> bool {
    dep != InternedRef::Null ==> (reg.type_at(reg.text(dep)) matches Some(j) && ((0 <= j
        < picked.len() && picked[j]) || removed.contains(j as usize)))
}

/// Whether that holds of each of the first `upto` names of `deps`.
pub open spec fn settled(
    reg: RegistryView,
    picked: Seq<bool>,
    removed: Seq<usize>,
    deps: Seq<InternedRef>,
    upto: int,
) -> bool {
    forall|k: int| 0 <= k < upto && k < deps.len() ==> settled_one(reg, picked, removed, #[trigger] deps[k])
}

/// Whether `later` marks every type that `earlier` marks.
pub open spec fn grows(earlier: Seq<bool>, later: Seq<bool>) -> bool {
    &&& earlier.len() == later.len()
    &&& forall|t: int| 0 <= t < earlier.len() && earlier[t] ==> #[trigger] later[t]
}

/// What is settled stays settled when more types are marked.
pub proof fn lemma_settled_grows(
    reg: RegistryView,
    earlier: Seq<bool>,
    later: Seq<bool>,
    removed: Seq<usize>,
    deps: Seq<InternedRef>,
    upto: int,
)
    requires
        grows(earlier, later),
        settled(reg, earlier, removed, deps, upto),
    ensures
        settled(reg, later, removed, deps, upto),
{
    assert forall|k: int| 0 <= k < upto && k < deps.len() implies settled_one(
        reg,
        later,
        removed,
        #[trigger] deps[k],
    ) by {
        assert(settled_one(reg, earlier, removed, deps[k]));
    }
}

impl SelectionView {
    /// The selection in which nothing of `reg` is selected.
    pub open spec fn empty(reg: RegistryView) -> SelectionView {
        SelectionView {
            picked: Seq::new(reg.types.len(), |i: int| false),
            types: Seq::empty(),
            removed: Seq::empty(),
            picked_commands: Seq::new(reg.commands.len(), |i: int| false),
            commands: Seq::empty(),
            const_defs: Seq::empty(),
            extras: Seq::empty(),
        }
    }

    /// Whether the selection is one of the registry `reg`, but for the types
    /// of `gray`, which are being taken: it has a mark for each type and each
    /// command; it lists nothing but the places of types and commands that
    /// are marked, and none of them twice; each marked command is listed,
    /// and each marked type is listed unless it is one of `gray`, which are
    /// marked and not listed yet.
    pub open spec fn fits_but(self, reg: RegistryView, gray: Set<int>) -> bool {
        &&& self.picked.len() == reg.types.len()
        &&& self.picked_commands.len() == reg.commands.len()
        &&& self.picked.len() <= usize::MAX
        &&& self.picked_commands.len() <= usize::MAX
        &&& forall|i: int|
            0 <= i < self.types.len() ==> (#[trigger] self.types[i]) < reg.types.len()
                && self.picked[self.types[i] as int]
        &&& forall|i: int|
            0 <= i < self.commands.len() ==> (#[trigger] self.commands[i]) < reg.commands.len()
                && self.picked_commands[self.commands[i] as int]
        &&& forall|i: int|
            0 <= i < self.extras.len() ==> (#[trigger] self.extras[i]).target < reg.types.len()
        &&& self.types.no_duplicates()
        &&& self.commands.no_duplicates()
        &&& forall|t: usize|
            #[trigger] self.has_type(t as int) && !gray.contains(t as int) ==> self.types.contains(
                t,
            )
        &&& forall|c: usize| #[trigger] self.has_command(c as int) ==> self.commands.contains(c)
        &&& forall|t: int|
            #[trigger] gray.contains(t) ==> self.has_type(t) && !self.types.contains(t as usize)
    }

    /// Whether the selection is one of the registry `reg`: it has a mark for
    /// each type and each command, and lists the places of exactly the types
    /// and the commands that are marked, each once.
    pub open spec fn fits(self, reg: RegistryView) -> bool {
        self.fits_but(reg, Set::empty())
    }

    /// Whether the type at `t` is selected.
    pub open spec fn has_type(self, t: int) -> bool {
        0 <= t < self.picked.len() && self.picked[t]
    }

    /// Whether the command at `c` is selected.
    pub open spec fn has_command(self, c: int) -> bool {
        0 <= c < self.picked_commands.len() && self.picked_commands[c]
    }

    /// Whether every type that `deps` names stands in the registry and is
    /// selected, or was removed.
    pub open spec fn settles(self, reg: RegistryView, deps: Seq<InternedRef>) -> bool {
        settled(reg, self.picked, self.removed, deps, deps.len() as int)
    }

    /// Whether the selection is closed but for the types of `gray` and the
    /// command `busy`: every other selected type or command mentions only
    /// types that are selected or were removed.
    pub open spec fn closed_but(self, reg: RegistryView, gray: Set<int>, busy: int) -> bool {
        &&& forall|t: int|
            #![trigger reg.types[t]]
            self.has_type(t) && !gray.contains(t) && t < reg.types.len() ==> self.settles(
                reg,
                type_deps(reg.types[t]),
            )
        &&& forall|c: int|
            #![trigger reg.commands[c]]
            self.has_command(c) && c != busy && c < reg.commands.len() ==> self.settles(
                reg,
                command_deps(reg.commands[c]),
            )
    }

    /// Closure: every type that a selected type or command mentions is
    /// selected too, unless it was removed.
    pub open spec fn closed(self, reg: RegistryView) -> bool {
        self.closed_but(reg, Set::empty(), -1)
    }

    /// The selection with the mark of the type at `t` set.
    pub open spec fn marked(self, t: int) -> SelectionView {
        SelectionView { picked: self.picked.update(t, true), ..self }
    }
}

/// What `without` leaves: nothing of `x`, everything else, and nothing
/// twice that was not there twice.
pub proof fn lemma_without(s: Seq<usize>, x: usize)
    ensures
        !without(s, x).contains(x),
        forall|y: usize| y != x ==> without(s, x).contains(y) == #[trigger] s.contains(y),
        s.no_duplicates() ==> without(s, x).no_duplicates(),
    decreases s.len(),
{
    if s.len() > 0 {
        let head = s.drop_last();
        lemma_without(head, x);
        let kept = without(head, x);
        assert forall|y: usize| s.contains(y) == (head.contains(y) || s.last() == y) by {
            assert(head.push(s.last()) =~= s);
            lemma_push_contains(head, s.last(), y);
        }
        if s.last() != x {
            assert forall|y: usize| true implies kept.push(s.last()).contains(y) == (
            kept.contains(y) || s.last() == y) by {
                lemma_push_contains(kept, s.last(), y);
            }
            if s.no_duplicates() {
                assert(head.no_duplicates()) by {
                    assert forall|i: int, j: int|
                        0 <= i < head.len() && 0 <= j < head.len() && i != j implies head[i]
                        != head[j] by {
                        assert(s[i] != s[j]);
                    }
                }
                if head.contains(s.last()) {
                    let i = choose|i: int| 0 <= i < head.len() && head[i] == s.last();
                    assert(s[i] == s[s.len() - 1]);
                }
                lemma_push_distinct(kept, s.last());
            }
        } else if s.no_duplicates() {
            assert(head.no_duplicates()) by {
                assert forall|i: int, j: int|
                    0 <= i < head.len() && 0 <= j < head.len() && i != j implies head[i]
                    != head[j] by {
                    assert(s[i] != s[j]);
                }
            }
        }
    } else {
        assert forall|y: usize| !s.contains(y) by {}
    }
}

/// To mark a type that is not marked keeps the selection one of the
/// registry, with that type among those that are being taken.
pub proof fn lemma_mark_fits(reg: RegistryView, s: SelectionView, gray: Set<int>, t: int)
    requires
        s.fits_but(reg, gray),
        0 <= t < s.picked.len(),
        !s.picked[t],
    ensures
        s.marked(t).fits_but(reg, gray.insert(t)),
        !gray.contains(t),
{
    let after = s.marked(t);
    let inner = gray.insert(t);
    if s.types.contains(t as usize) {
        let i = choose|i: int| 0 <= i < s.types.len() && s.types[i] == t as usize;
        assert(s.picked[s.types[i] as int]);
    }
    assert forall|x: usize| #[trigger]
        after.has_type(x as int) && !inner.contains(x as int) implies after.types.contains(x) by {
        assert(s.has_type(x as int));
    }
    assert forall|c: usize| #[trigger] after.has_command(c as int) implies after.commands.contains(
        c,
    ) by {
        assert(s.has_command(c as int));
    }
    assert forall|x: int| #[trigger] inner.contains(x) implies after.has_type(x)
        && !after.types.contains(x as usize) by {
        if x != t {
            assert(gray.contains(x));
        }
    }
}

/// To list a type that was being taken ends its taking.
pub proof fn lemma_list_fits(reg: RegistryView, s: SelectionView, gray: Set<int>, t: usize)
    requires
        s.fits_but(reg, gray.insert(t as int)),
        !gray.contains(t as int),
    ensures
        (SelectionView { types: s.types.push(t), ..s }).fits_but(reg, gray),
{
    let after = SelectionView { types: s.types.push(t), ..s };
    let inner = gray.insert(t as int);
    assert(inner.contains(t as int));
    assert(s.has_type(t as int));
    lemma_push_distinct(s.types, t);
    assert forall|x: usize| #[trigger]
        after.has_type(x as int) && !gray.contains(x as int) implies after.types.contains(x) by {
        lemma_push_contains(s.types, t, x);
        if x != t {
            assert(s.has_type(x as int));
            assert(!inner.contains(x as int));
        }
    }
    assert forall|c: usize| #[trigger] after.has_command(c as int) implies after.commands.contains(
        c,
    ) by {
        assert(s.has_command(c as int));
    }
    assert forall|x: int| #[trigger] gray.contains(x) implies after.has_type(x)
        && !after.types.contains(x as usize) by {
        assert(inner.contains(x));
        lemma_push_contains(s.types, t, x as usize);
    }
}

/// To mark and list a command that is not marked keeps the selection one of
/// the registry.
pub proof fn lemma_pick_command_fits(reg: RegistryView, s: SelectionView, gray: Set<int>, c: usize)
    requires
        s.fits_but(reg, gray),
        c < s.picked_commands.len(),
        !s.picked_commands[c as int],
    ensures
        (SelectionView {
            picked_commands: s.picked_commands.update(c as int, true),
            commands: s.commands.push(c),
            ..s
        }).fits_but(reg, gray),
{
    let after = SelectionView {
        picked_commands: s.picked_commands.update(c as int, true),
        commands: s.commands.push(c),
        ..s
    };
    if s.commands.contains(c) {
        let i = choose|i: int| 0 <= i < s.commands.len() && s.commands[i] == c;
        assert(s.picked_commands[s.commands[i] as int]);
    }
    lemma_push_distinct(s.commands, c);
    assert forall|x: usize| #[trigger] after.has_command(x as int) implies after.commands.contains(
        x,
    ) by {
        lemma_push_contains(s.commands, c, x);
        if x != c {
            assert(s.has_command(x as int));
        }
    }
    assert forall|x: usize| #[trigger]
        after.has_type(x as int) && !gray.contains(x as int) implies after.types.contains(x) by {
        assert(s.has_type(x as int));
    }
    assert forall|x: int| #[trigger] gray.contains(x) implies after.has_type(x)
        && !after.types.contains(x as usize) by {
        assert(s.has_type(x));
    }
}

/// What depends on the marks and the lists alone holds of any selection with
/// the same marks and lists.
pub proof fn lemma_fits_same(reg: RegistryView, s: SelectionView, after: SelectionView, gray: Set<int>)
    requires
        s.fits_but(reg, gray),
        after.picked == s.picked,
        after.types == s.types,
        after.picked_commands == s.picked_commands,
        after.commands == s.commands,
        forall|i: int|
            0 <= i < after.extras.len() ==> (#[trigger] after.extras[i]).target < reg.types.len(),
    ensures
        after.fits_but(reg, gray),
{
    assert forall|x: usize| #[trigger]
        after.has_type(x as int) && !gray.contains(x as int) implies after.types.contains(x) by {
        assert(s.has_type(x as int));
    }
    assert forall|c: usize| #[trigger] after.has_command(c as int) implies after.commands.contains(
        c,
    ) by {
        assert(s.has_command(c as int));
    }
    assert forall|x: int| #[trigger] gray.contains(x) implies after.has_type(x)
        && !after.types.contains(x as usize) by {
        assert(s.has_type(x));
    }
}

/// To drop a type keeps the selection one of the registry.
pub proof fn lemma_drop_type_fits(reg: RegistryView, s: SelectionView, t: int)
    requires
        s.fits(reg),
    ensures
        drop_type(s, t).fits(reg),
        !drop_type(s, t).has_type(t),
        0 <= t <= usize::MAX ==> !drop_type(s, t).types.contains(t as usize),
{
    let after = drop_type(s, t);
    if s.has_type(t) {
        lemma_without(s.types, t as usize);
        assert forall|i: int| 0 <= i < after.types.len() implies (#[trigger] after.types[i])
            < reg.types.len() && after.picked[after.types[i] as int] by {
            let y = after.types[i];
            assert(after.types.contains(y));
            assert(s.types.contains(y));
            let j = choose|j: int| 0 <= j < s.types.len() && s.types[j] == y;
            assert(s.picked[s.types[j] as int]);
        }
        assert forall|x: usize| #[trigger] after.has_type(x as int) implies after.types.contains(
            x,
        ) by {
            assert(s.has_type(x as int));
            assert(s.types.contains(x));
        }
        assert forall|c: usize| #[trigger] after.has_command(c as int) implies after.commands.contains(
        c) by {
            assert(s.has_command(c as int));
        }
    } else if 0 <= t <= usize::MAX && s.types.contains(t as usize) {
        let i = choose|i: int| 0 <= i < s.types.len() && s.types[i] == t as usize;
        assert(s.picked[s.types[i] as int]);
    }
}

/// To drop a command keeps the selection one of the registry.
pub proof fn lemma_drop_command_fits(reg: RegistryView, s: SelectionView, c: int)
    requires
        s.fits(reg),
    ensures
        drop_command(s, c).fits(reg),
        !drop_command(s, c).has_command(c),
{
    let after = drop_command(s, c);
    if s.has_command(c) {
        lemma_without(s.commands, c as usize);
        assert forall|i: int| 0 <= i < after.commands.len() implies (#[trigger] after.commands[i])
            < reg.commands.len() && after.picked_commands[after.commands[i] as int] by {
            let y = after.commands[i];
            assert(after.commands.contains(y));
            assert(s.commands.contains(y));
            let j = choose|j: int| 0 <= j < s.commands.len() && s.commands[j] == y;
            assert(s.picked_commands[s.commands[j] as int]);
        }
        assert forall|x: usize| #[trigger] after.has_command(x as int) implies after.commands.contains(
        x) by {
            assert(s.has_command(x as int));
            assert(s.commands.contains(x));
        }
        assert forall|x: usize| #[trigger] after.has_type(x as int) implies after.types.contains(
            x,
        ) by {
            assert(s.has_type(x as int));
        }
    }
}

/// The selection after the type at `t` was taken: the types that it mentions
/// first, each with what it mentions, then the type itself. A type that is
/// selected already is not taken again.
pub open spec fn visit(reg: RegistryView, s: SelectionView, t: int) -> Result<SelectionView, Missing>
    decreases unpicked(s.picked), 0nat, 0nat,
    via visit_decreases
{
    if t < 0 || t >= s.picked.len() || t >= reg.types.len() || s.picked[t] {
        Ok(s)
    } else {
        match visit_all(reg, s.marked(t), type_deps(reg.types[t]), 0) {
            Ok(done) => Ok(SelectionView { types: done.types.push(t as usize), ..done }),
            Err(e) => Err(e),
        }
    }
}

/// The selection after the types that `deps` names from the `k`-th on were
/// taken in turn. A name that the registry does not hold is an error. (The
/// test on the number of types that are not selected is there for
/// termination: taking a type never makes them more.)
pub open spec fn visit_all(reg: RegistryView, s: SelectionView, deps: Seq<InternedRef>, k: int) -> Result<
    SelectionView,
    Missing,
>
    decreases unpicked(s.picked), 1nat, deps.len() - k,
{
    if k < 0 || k >= deps.len() {
        Ok(s)
    } else if deps[k] == InternedRef::Null {
        visit_all(reg, s, deps, k + 1)
    } else {
        match reg.type_at(reg.text(deps[k])) {
            None => Err(Missing::Type(deps[k])),
            Some(j) => match visit(reg, s, j) {
                Ok(next) => if unpicked(next.picked) <= unpicked(s.picked) {
                    visit_all(reg, next, deps, k + 1)
                } else {
                    Ok(next)
                },
                Err(e) => Err(e),
            },
        }
    }
}

#[via_fn]
proof fn visit_decreases(reg: RegistryView, s: SelectionView, t: int) {
    if !(t < 0 || t >= s.picked.len() || t >= reg.types.len() || s.picked[t]) {
        lemma_unpicked_update(s.picked, t);
    }
}

/// The selection after the command at `c` was taken, with the types that it
/// mentions.
pub open spec fn pick_command(reg: RegistryView, s: SelectionView, c: int) -> Result<
    SelectionView,
    Missing,
> {
    if c < 0 || c >= s.picked_commands.len() || c >= reg.commands.len() || s.picked_commands[c] {
        Ok(s)
    } else {
        visit_all(
            reg,
            SelectionView {
                picked_commands: s.picked_commands.update(c, true),
                commands: s.commands.push(c as usize),
                ..s
            },
            command_deps(reg.commands[c]),
            0,
        )
    }
}

/// The names of the constants `defs`, as text.
pub open spec fn const_keys(reg: RegistryView, defs: Seq<ConstDef>) -> Seq<Seq<u8>> {
    Seq::new(defs.len(), |i: int| reg.text(defs[i].name))
}

/// The index of the first constant of `defs` named as `key`.
pub open spec fn const_def_at(reg: RegistryView, defs: Seq<ConstDef>, key: Seq<u8>) -> Option<int> {
    position(const_keys(reg, defs), key)
}

/// `defs` without the constants named as `key`.
pub open spec fn without_const(reg: RegistryView, defs: Seq<ConstDef>, key: Seq<u8>) -> Seq<
    ConstDef,
>
    decreases defs.len(),
{
    if defs.len() == 0 {
        defs
    } else if reg.text(defs.last().name) == key {
        without_const(reg, defs.drop_last(), key)
    } else {
        without_const(reg, defs.drop_last(), key).push(defs.last())
    }
}

/// `extras` without the variants named as `key` that were added to the type
/// at `target`.
pub open spec fn without_extra(
    reg: RegistryView,
    extras: Seq<ExtraVariant>,
    target: int,
    key: Seq<u8>,
) -> Seq<ExtraVariant>
    decreases extras.len(),
{
    if extras.len() == 0 {
        extras
    } else if extras.last().target == target && reg.text(extras.last().variant.spec_name())
        == key {
        without_extra(reg, extras.drop_last(), target, key)
    } else {
        without_extra(reg, extras.drop_last(), target, key).push(extras.last())
    }
}

/// The selection after the interface `op` was required.
pub open spec fn required(reg: RegistryView, s: SelectionView, op: VkInterface) -> Result<
    SelectionView,
    Missing,
> {
    match op {
        VkInterface::Type { name, .. } | VkInterface::ApiConst { name, .. } => match reg.type_at(
            reg.text(name),
        ) {
            Some(t) => visit(reg, s, t),
            None => Err(Missing::Type(name)),
        },
        VkInterface::Command { name, .. } => match reg.command_at(reg.text(name)) {
            Some(c) => pick_command(reg, s, c),
            None => Err(Missing::Command(name)),
        },
        VkInterface::ConstDef { name, value, .. } => if const_def_at(
            reg,
            s.const_defs,
            reg.text(name),
        ).is_some() {
            Ok(s)
        } else {
            Ok(SelectionView { const_defs: s.const_defs.push(ConstDef { name, value }), ..s })
        },
        VkInterface::ExtnEnum { extends, variant, .. } => match reg.type_at(reg.text(extends)) {
            Some(t) => Ok(
                SelectionView {
                    extras: s.extras.push(ExtraVariant { target: t as usize, variant }),
                    ..s
                },
            ),
            None => Err(Missing::Type(extends)),
        },
    }
}

/// The selection without the type at `t`.
pub open spec fn drop_type(s: SelectionView, t: int) -> SelectionView {
    if s.has_type(t) {
        SelectionView {
            picked: s.picked.update(t, false),
            types: without(s.types, t as usize),
            removed: s.removed.push(t as usize),
            ..s
        }
    } else {
        s
    }
}

/// The selection without the command at `c`.
pub open spec fn drop_command(s: SelectionView, c: int) -> SelectionView {
    if s.has_command(c) {
        SelectionView {
            picked_commands: s.picked_commands.update(c, false),
            commands: without(s.commands, c as usize),
            ..s
        }
    } else {
        s
    }
}

/// The selection after the interface `op` was removed. To remove what is not
/// selected, or not in the registry, changes nothing.
pub open spec fn dropped(reg: RegistryView, s: SelectionView, op: VkInterface) -> SelectionView {
    match op {
        VkInterface::Type { name, .. } | VkInterface::ApiConst { name, .. } => match reg.type_at(
            reg.text(name),
        ) {
            Some(t) => drop_type(s, t),
            None => s,
        },
        VkInterface::Command { name, .. } => match reg.command_at(reg.text(name)) {
            Some(c) => drop_command(s, c),
            None => s,
        },
        VkInterface::ConstDef { name, .. } => SelectionView {
            const_defs: without_const(reg, s.const_defs, reg.text(name)),
            ..s
        },
        VkInterface::ExtnEnum { extends, variant, .. } => match reg.type_at(reg.text(extends)) {
            Some(t) => SelectionView {
                extras: without_extra(reg, s.extras, t, reg.text(variant.spec_name())),
                ..s
            },
            None => s,
        },
    }
}

/// The selection after the interfaces of `ops` from the `k`-th on were
/// required in turn.
pub open spec fn require_all(reg: RegistryView, s: SelectionView, ops: Seq<VkInterface>, k: int) -> Result<
    SelectionView,
    Missing,
>
    decreases ops.len() - k,
{
    if k < 0 || k >= ops.len() {
        Ok(s)
    } else {
        match required(reg, s, ops[k]) {
            Ok(next) => require_all(reg, next, ops, k + 1),
            Err(e) => Err(e),
        }
    }
}

/// The selection after the interfaces of `ops` from the `k`-th on were
/// removed in turn.
pub open spec fn remove_all(reg: RegistryView, s: SelectionView, ops: Seq<VkInterface>, k: int) -> SelectionView
    decreases ops.len() - k,
{
    if k < 0 || k >= ops.len() {
        s
    } else {
        remove_all(reg, dropped(reg, s, ops[k]), ops, k + 1)
    }
}

/// The selection after the lists of a feature or an extension were applied:
/// what it requires first, then what it removes.
pub open spec fn apply_lists(reg: RegistryView, s: SelectionView, lists: InterfaceLists) -> Result<
    SelectionView,
    Missing,
> {
    match require_all(reg, s, lists.require, 0) {
        Ok(next) => Ok(remove_all(reg, next, lists.remove, 0)),
        Err(e) => Err(e),
    }
}

/// Whether the version `a` is earlier than `b`.
pub open spec fn earlier(a: VkVersion, b: VkVersion) -> bool {
    a.0 < b.0 || (a.0 == b.0 && a.1 < b.1)
}

/// The number of features among the first `upto` of `reg` whose version is
/// earlier than `v`.
pub open spec fn earlier_count(reg: RegistryView, v: VkVersion, upto: int) -> nat
    decreases upto,
{
    if upto <= 0 || upto > reg.features.len() {
        0
    } else {
        earlier_count(reg, v, upto - 1) + if earlier(reg.features[upto - 1].version, v) {
            1nat
        } else {
            0nat
        }
    }
}

/// The rank of the feature at `i`: the number of features of earlier
/// versions.
pub open spec fn rank(reg: RegistryView, i: int) -> nat {
    earlier_count(reg, reg.features[i].version, reg.features.len() as int)
}

/// The place of the first feature from `from` on whose rank is `k`.
pub open spec fn feature_of_rank(reg: RegistryView, k: nat, from: int) -> Option<int>
    decreases reg.features.len() - from,
{
    if from < 0 || from >= reg.features.len() {
        None
    } else if rank(reg, from) == k {
        Some(from)
    } else {
        feature_of_rank(reg, k, from + 1)
    }
}

/// The selection after the features of rank `k` and more were applied in the
/// order of their ranks, which is that of their versions; a feature later
/// than `target` is passed over.
pub open spec fn apply_features(reg: RegistryView, s: SelectionView, target: VkVersion, k: nat) -> Result<
    SelectionView,
    SelectError,
>
    decreases reg.features.len() - k,
{
    if k >= reg.features.len() {
        Ok(s)
    } else {
        match feature_of_rank(reg, k, 0) {
            Some(i) => if reg.features[i].version.at_most(target) {
                match apply_lists(reg, s, reg.features[i].lists) {
                    Ok(next) => apply_features(reg, next, target, k + 1),
                    Err(missing) => Err(
                        SelectError::Undefined {
                            missing,
                            referrer: Referrer::Feature(reg.features[i].version),
                        },
                    ),
                }
            } else {
                apply_features(reg, s, target, k + 1)
            },
            None => apply_features(reg, s, target, k + 1),
        }
    }
}

/// The selection after the extensions named `names` from the `k`-th on were
/// applied in turn. A name that the registry does not hold is an error.
pub open spec fn apply_extensions(reg: RegistryView, s: SelectionView, names: Seq<Seq<u8>>, k: int) -> Result<
    SelectionView,
    SelectError,
>
    decreases names.len() - k,
{
    if k < 0 || k >= names.len() {
        Ok(s)
    } else {
        match reg.extn_at(names[k]) {
            None => Err(SelectError::UnknownExtension { index: k as usize }),
            Some(e) => match apply_lists(reg, s, reg.extns[e].lists) {
                Ok(next) => apply_extensions(reg, next, names, k + 1),
                Err(missing) => Err(
                    SelectError::Undefined { missing, referrer: Referrer::Extension(k as usize) },
                ),
            },
        }
    }
}

/// Closure over what is emitted: of a selection that is one of the registry
/// and closed, each type that a listed type mentions stands in the registry
/// and is listed too, unless it was removed. Where nothing was removed,
/// every type that a listed type mentions is listed.
pub proof fn lemma_mentioned_types_are_listed(reg: RegistryView, s: SelectionView, t: usize, k: int)
    requires
        s.fits(reg),
        s.closed(reg),
        s.types.contains(t),
        0 <= k < type_deps(reg.types[t as int]).len(),
        type_deps(reg.types[t as int])[k] != InternedRef::Null,
    ensures
        reg.type_at(reg.text(type_deps(reg.types[t as int])[k])) matches Some(j) && 0 <= j
            <= usize::MAX && (s.types.contains(j as usize) || s.removed.contains(j as usize)),
        s.removed.len() == 0 ==> s.types.contains(
            reg.type_at(reg.text(type_deps(reg.types[t as int])[k])).unwrap() as usize,
        ),
{
    let at = choose|i: int| 0 <= i < s.types.len() && s.types[i] == t;
    assert(s.picked[s.types[at] as int]);
    let deps = type_deps(reg.types[t as int]);
    assert(s.has_type(t as int));
    assert(s.settles(reg, deps));
    assert(settled_one(reg, s.picked, s.removed, deps[k]));
    let j = reg.type_at(reg.text(deps[k])).unwrap();
    crate::registry::lemma_position_is_first(reg.type_keys(), reg.text(deps[k]));
    if 0 <= j < s.picked.len() && s.picked[j] {
        assert(s.has_type(j as usize as int));
    }
}

/// The same of the commands: each type that a listed command mentions
/// stands in the registry and is listed, unless it was removed.
pub proof fn lemma_command_types_are_listed(reg: RegistryView, s: SelectionView, c: usize, k: int)
    requires
        s.fits(reg),
        s.closed(reg),
        s.commands.contains(c),
        0 <= k < command_deps(reg.commands[c as int]).len(),
        command_deps(reg.commands[c as int])[k] != InternedRef::Null,
    ensures
        reg.type_at(reg.text(command_deps(reg.commands[c as int])[k])) matches Some(j) && 0 <= j
            <= usize::MAX && (s.types.contains(j as usize) || s.removed.contains(j as usize)),
        s.removed.len() == 0 ==> s.types.contains(
            reg.type_at(reg.text(command_deps(reg.commands[c as int])[k])).unwrap() as usize,
        ),
{
    let at = choose|i: int| 0 <= i < s.commands.len() && s.commands[i] == c;
    assert(s.picked_commands[s.commands[at] as int]);
    let deps = command_deps(reg.commands[c as int]);
    assert(s.has_command(c as int));
    assert(s.settles(reg, deps));
    assert(settled_one(reg, s.picked, s.removed, deps[k]));
    let j = reg.type_at(reg.text(deps[k])).unwrap();
    crate::registry::lemma_position_is_first(reg.type_keys(), reg.text(deps[k]));
    if 0 <= j < s.picked.len() && s.picked[j] {
        assert(s.has_type(j as usize as int));
    }
}

/// The place of the type that removing `op` takes out of a selection, if `op`
/// names a type or a constant that the registry holds.
pub open spec fn removed_type(reg: RegistryView, op: VkInterface) -> Option<int> {
    match op {
        VkInterface::Type { name, .. } | VkInterface::ApiConst { name, .. } => reg.type_at(
            reg.text(name),
        ),
        _ => None,
    }
}

/// The variants of an enum or a bitmask; any other type has none.
pub open spec fn own_variants(t: TypeView) -> Seq<VkVariant> {
    match t {
        TypeView::Enum { variants, .. } => variants,
        TypeView::Bitmask { variants, .. } => variants,
        _ => Seq::empty(),
    }
}

/// The variants of `extras` that were added to the type at `target`, in
/// their order.
pub open spec fn extras_for(extras: Seq<ExtraVariant>, target: int) -> Seq<VkVariant>
    decreases extras.len(),
{
    if extras.len() == 0 {
        Seq::empty()
    } else if extras.last().target == target {
        extras_for(extras.drop_last(), target).push(extras.last().variant)
    } else {
        extras_for(extras.drop_last(), target)
    }
}

/// The names of the variants `vs`, as text.
pub open spec fn variant_keys(reg: RegistryView, vs: Seq<VkVariant>) -> Seq<Seq<u8>> {
    Seq::new(vs.len(), |i: int| reg.text(vs[i].spec_name()))
}

/// `vs` without the variants whose name an earlier variant has: the first of
/// a name wins.
pub open spec fn first_wins(reg: RegistryView, vs: Seq<VkVariant>) -> Seq<VkVariant>
    decreases vs.len(),
{
    if vs.len() == 0 {
        vs
    } else {
        let before = first_wins(reg, vs.drop_last());
        if position(variant_keys(reg, before), reg.text(vs.last().spec_name())).is_some() {
            before
        } else {
            before.push(vs.last())
        }
    }
}

/// The final variants of the type at `t`: its own, then those that the
/// selected extensions add, the first of each name.
pub open spec fn final_variants(reg: RegistryView, s: SelectionView, t: int) -> Seq<VkVariant> {
    first_wins(reg, own_variants(reg.types[t]) + extras_for(s.extras, t))
}

/// After de-duplication no two variants share a name.
pub proof fn lemma_first_wins_unique(reg: RegistryView, vs: Seq<VkVariant>)
    ensures
        variant_keys(reg, first_wins(reg, vs)).no_duplicates(),
    decreases vs.len(),
{
    if vs.len() > 0 {
        lemma_first_wins_unique(reg, vs.drop_last());
        let before = first_wins(reg, vs.drop_last());
        let key = reg.text(vs.last().spec_name());
        crate::registry::lemma_position_is_first(variant_keys(reg, before), key);
        if position(variant_keys(reg, before), key).is_none() {
            assert(variant_keys(reg, before.push(vs.last())) =~= variant_keys(reg, before).push(
                key,
            ));
        }
    }
}

/// The place of a feature of a rank is a place of the registry.
pub proof fn lemma_feature_of_rank_in_range(reg: RegistryView, k: nat, from: int)
    ensures
        feature_of_rank(reg, k, from) matches Some(i) ==> 0 <= from <= i < reg.features.len(),
    decreases reg.features.len() - from,
{
    if 0 <= from < reg.features.len() && rank(reg, from) != k {
        lemma_feature_of_rank_in_range(reg, k, from + 1);
    }
}

/// Two targets that admit the same features select the same: a version
/// later than every feature that is declared selects what the latest
/// declared version selects.
pub proof fn lemma_same_features_same_selection(
    reg: RegistryView,
    s: SelectionView,
    first: VkVersion,
    second: VkVersion,
    k: nat,
)
    requires
        forall|i: int|
            0 <= i < reg.features.len() ==> (#[trigger] reg.features[i]).version.at_most(first)
                == reg.features[i].version.at_most(second),
    ensures
        apply_features(reg, s, first, k) == apply_features(reg, s, second, k),
    decreases reg.features.len() - k,
{
    if k < reg.features.len() {
        lemma_feature_of_rank_in_range(reg, k, 0);
        match feature_of_rank(reg, k, 0) {
            Some(i) => {
                if reg.features[i].version.at_most(first) {
                    match apply_lists(reg, s, reg.features[i].lists) {
                        Ok(next) => lemma_same_features_same_selection(
                            reg,
                            next,
                            first,
                            second,
                            k + 1,
                        ),
                        Err(_) => {},
                    }
                } else {
                    lemma_same_features_same_selection(reg, s, first, second, k + 1);
                }
            },
            None => lemma_same_features_same_selection(reg, s, first, second, k + 1),
        }
    }
}

/// A list of extensions that names one that the registry does not hold
/// selects nothing: the outcome is an error.
pub proof fn lemma_unknown_extension_fails(
    reg: RegistryView,
    s: SelectionView,
    names: Seq<Seq<u8>>,
    k: int,
    unknown: int,
)
    requires
        0 <= k <= unknown < names.len(),
        reg.extn_at(names[unknown]).is_none(),
    ensures
        apply_extensions(reg, s, names, k) is Err,
        k == unknown ==> apply_extensions(reg, s, names, k) == Err::<SelectionView, SelectError>(
            SelectError::UnknownExtension { index: unknown as usize },
        ),
    decreases unknown - k,
{
    if k < unknown {
        match reg.extn_at(names[k]) {
            None => {},
            Some(e) => match apply_lists(reg, s, reg.extns[e].lists) {
                Ok(next) => lemma_unknown_extension_fails(reg, next, names, k + 1, unknown),
                Err(_) => {},
            },
        }
    }
}

/// Asking for an extension that the registry does not hold is an error,
/// whatever else is asked for.
pub proof fn lemma_unknown_extension_aborts(
    reg: RegistryView,
    target: VkVersion,
    names: Seq<Seq<u8>>,
    unknown: int,
)
    requires
        0 <= unknown < names.len(),
        reg.extn_at(names[unknown]).is_none(),
    ensures
        selected(reg, target, names) is Err,
{
    match apply_features(reg, SelectionView::empty(reg), target, 0) {
        Ok(s) => lemma_unknown_extension_fails(reg, s, names, 0, unknown),
        Err(_) => {},
    }
}

/// What the version `target` and the extensions `names` select of `reg`: the
/// features up to `target` in the order of their versions, then the
/// extensions in the order in which they are named.
pub open spec fn selected(reg: RegistryView, target: VkVersion, names: Seq<Seq<u8>>) -> Result<
    SelectionView,
    SelectError,
> {
    match apply_features(reg, SelectionView::empty(reg), target, 0) {
        Ok(s) => apply_extensions(reg, s, names, 0),
        Err(e) => Err(e),
    }
}

} // verus!
