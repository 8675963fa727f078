//! The closure solver: it computes what a target version and a list of
//! extensions select of a registry.

use crate::arena::InternedRef;
use crate::eltype::VkElType;
use crate::model::VkCommand;
use crate::model::VkInterface;
use crate::model::VkType;
use crate::model::VkVariant;
use crate::registry::commands_view;
use crate::registry::extns_view;
use crate::registry::features_view;
use crate::registry::lemma_position_found;
use crate::registry::lemma_position_is_first;
use crate::registry::lemma_position_none;
use crate::registry::types_view;
use crate::registry::VkRegistry;
use crate::selection_model::apply_extensions;
use crate::selection_model::apply_features;
use crate::selection_model::apply_lists;
use crate::selection_model::command_deps;
use crate::selection_model::const_def_at;
use crate::selection_model::const_keys;
use crate::selection_model::drop_command;
use crate::selection_model::drop_type;
use crate::selection_model::dropped;
use crate::selection_model::earlier;
use crate::selection_model::earlier_count;
use crate::selection_model::el_dep;
use crate::selection_model::feature_of_rank;
use crate::selection_model::grows;
use crate::selection_model::lemma_drop_command_fits;
use crate::selection_model::lemma_drop_type_fits;
use crate::selection_model::lemma_fits_same;
use crate::selection_model::lemma_list_fits;
use crate::selection_model::lemma_mark_fits;
use crate::selection_model::lemma_pick_command_fits;
use crate::selection_model::lemma_settled_grows;
use crate::selection_model::lemma_unpicked_update;
use crate::selection_model::pick_command;
use crate::selection_model::rank;
use crate::selection_model::extras_for;
use crate::selection_model::final_variants;
use crate::selection_model::first_wins;
use crate::selection_model::own_variants;
use crate::selection_model::remove_all;
use crate::selection_model::removed_type;
use crate::selection_model::variant_keys;
use crate::selection_model::require_all;
use crate::selection_model::required;
use crate::selection_model::selected;
use crate::selection_model::settled;
use crate::selection_model::settled_one;
use crate::selection_model::type_deps;
use crate::selection_model::unpicked;
use crate::selection_model::visit;
use crate::selection_model::visit_all;
use crate::selection_model::without;
use crate::selection_model::without_const;
use crate::selection_model::without_extra;
use crate::selection_model::ConstDef;
use crate::selection_model::ExtraVariant;
use crate::selection_model::Missing;
use crate::selection_model::Referrer;
use crate::selection_model::SelectError;
use crate::selection_model::SelectionView;
use crate::text::bytes_eq;
use crate::version::VkVersion;
use vstd::prelude::*;
use vstd::string::StringSliceAdditionalSpecFns;

verus! {

fn el_dep_of(el: &VkElType) -> (name: InternedRef)
    ensures
        name == el_dep(*el),
{
    match el.type_ptr() {
        Some(name) => name,
        None => InternedRef::Null,
    }
}

/// The names of the types that the type `t` mentions.
pub fn type_deps_of(t: &VkType) -> (deps: Vec<InternedRef>)
    ensures
        deps@ == type_deps(t@),
{
    let mut deps: Vec<InternedRef> = Vec::new();
    match t {
        VkType::Struct { fields, .. } => {
            let n = fields.len();
            let mut i: usize = 0;
            while i < n
                invariant
                    i <= n,
                    n == fields@.len(),
                    deps@ == Seq::new(i as nat, |k: int| el_dep(fields@[k].field_type)),
                decreases n - i,
            {
                deps.push(el_dep_of(&fields[i].field_type));
                i += 1;
                assert(deps@ =~= Seq::new(i as nat, |k: int| el_dep(fields@[k].field_type)));
            }
            assert(deps@ =~= type_deps(t@));
        },
        VkType::Union { variants, .. } => {
            let n = variants.len();
            let mut i: usize = 0;
            while i < n
                invariant
                    i <= n,
                    n == variants@.len(),
                    deps@ == Seq::new(i as nat, |k: int| el_dep(variants@[k].field_type)),
                decreases n - i,
            {
                deps.push(el_dep_of(&variants[i].field_type));
                i += 1;
                assert(deps@ =~= Seq::new(i as nat, |k: int| el_dep(variants@[k].field_type)));
            }
            assert(deps@ =~= type_deps(t@));
        },
        VkType::FuncPointer { ret, params, .. } => {
            deps.push(el_dep_of(ret));
            let n = params.len();
            let mut i: usize = 0;
            while i < n
                invariant
                    i <= n,
                    n == params@.len(),
                    deps@ == seq![el_dep(*ret)] + Seq::new(i as nat, |k: int| el_dep(params@[k])),
                decreases n - i,
            {
                deps.push(el_dep_of(&params[i]));
                i += 1;
                assert(deps@ =~= seq![el_dep(*ret)] + Seq::new(
                    i as nat,
                    |k: int| el_dep(params@[k]),
                ));
            }
            assert(deps@ =~= type_deps(t@));
        },
        VkType::TypeDef { typ, requires: req, .. } => {
            deps.push(*typ);
            deps.push(*req);
            assert(deps@ =~= type_deps(t@));
        },
        VkType::ExternType { requires: req, .. } => {
            deps.push(*req);
            assert(deps@ =~= type_deps(t@));
        },
        _ => {
            assert(deps@ =~= type_deps(t@));
        },
    }
    deps
}

/// The names of the types that the command `c` mentions.
pub fn command_deps_of(c: &VkCommand) -> (deps: Vec<InternedRef>)
    ensures
        deps@ == command_deps(c@),
{
    let mut deps: Vec<InternedRef> = Vec::new();
    deps.push(el_dep_of(&c.ret));
    let n = c.params.len();
    let mut i: usize = 0;
    while i < n
        invariant
            i <= n,
            n == c.params@.len(),
            deps@ == seq![el_dep(c.ret)] + Seq::new(i as nat, |k: int| el_dep(c.params@[k].typ)),
        decreases n - i,
    {
        deps.push(el_dep_of(&c.params[i].typ));
        i += 1;
        assert(deps@ =~= seq![el_dep(c.ret)] + Seq::new(
            i as nat,
            |k: int| el_dep(c.params@[k].typ),
        ));
    }
    assert(deps@ =~= command_deps(c@));
    deps
}

fn remove_value(v: &Vec<usize>, x: usize) -> (out: Vec<usize>)
    ensures
        out@ == without(v@, x),
{
    let mut out: Vec<usize> = Vec::new();
    let n = v.len();
    let mut i: usize = 0;
    while i < n
        invariant
            i <= n,
            n == v@.len(),
            out@ == without(v@.take(i as int), x),
        decreases n - i,
    {
        assert(v@.take(i + 1).drop_last() =~= v@.take(i as int));
        if v[i] != x {
            out.push(v[i]);
        }
        i += 1;
    }
    assert(v@.take(n as int) =~= v@);
    out
}

/// What a target version and a list of extensions select of a registry.
pub struct Selection {
    picked: Vec<bool>,
    types: Vec<usize>,
    removed: Vec<usize>,
    picked_commands: Vec<bool>,
    commands: Vec<usize>,
    const_defs: Vec<ConstDef>,
    extras: Vec<ExtraVariant>,
}

impl View for Selection {
    type V = SelectionView;

    closed spec fn view(&self) -> SelectionView {
        SelectionView {
            picked: self.picked@,
            types: self.types@,
            removed: self.removed@,
            picked_commands: self.picked_commands@,
            commands: self.commands@,
            const_defs: self.const_defs@,
            extras: self.extras@,
        }
    }
}

/// The outcome `r` of a step that led to the selection `after` is the
/// outcome `expected`.
pub open spec fn outcome<E>(r: Result<(), E>, after: SelectionView, expected: Result<SelectionView, E>) -> bool {
    match expected {
        Ok(next) => r is Ok && after == next,
        Err(e) => r == Err::<(), E>(e),
    }
}

impl Selection {
    /// The selection of `registry` in which nothing is selected.
    pub fn new(registry: &VkRegistry) -> (s: Self)
        ensures
            s@ == SelectionView::empty(registry@),
            s@.fits(registry@),
            s@.closed(registry@),
    {
        let mut picked: Vec<bool> = Vec::new();
        let n = registry.types().len();
        assert(n == registry@.types.len());
        let mut i: usize = 0;
        while i < n
            invariant
                i <= n,
                picked@ == Seq::new(i as nat, |k: int| false),
            decreases n - i,
        {
            picked.push(false);
            i += 1;
            assert(picked@ =~= Seq::new(i as nat, |k: int| false));
        }
        let mut picked_commands: Vec<bool> = Vec::new();
        let m = registry.commands().len();
        assert(m == registry@.commands.len());
        let mut i: usize = 0;
        while i < m
            invariant
                i <= m,
                picked_commands@ == Seq::new(i as nat, |k: int| false),
            decreases m - i,
        {
            picked_commands.push(false);
            i += 1;
            assert(picked_commands@ =~= Seq::new(i as nat, |k: int| false));
        }
        Selection {
            picked,
            types: Vec::new(),
            removed: Vec::new(),
            picked_commands,
            commands: Vec::new(),
            const_defs: Vec::new(),
            extras: Vec::new(),
        }
    }

    /// The places of the selected types, each once, in the order in which
    /// they were taken: the walk takes the types that a type mentions before
    /// the type itself.
    pub fn types(&self) -> (v: &Vec<usize>)
        ensures
            v@ == self@.types,
    {
        &self.types
    }

    /// The places of the selected commands, in the order in which they were
    /// taken.
    pub fn commands(&self) -> (v: &Vec<usize>)
        ensures
            v@ == self@.commands,
    {
        &self.commands
    }

    /// The places of the types that were removed.
    pub fn removed(&self) -> (v: &Vec<usize>)
        ensures
            v@ == self@.removed,
    {
        &self.removed
    }

    /// The constants that extensions define.
    pub fn const_defs(&self) -> (v: &Vec<ConstDef>)
        ensures
            v@ == self@.const_defs,
    {
        &self.const_defs
    }

    /// The variants that extensions add, in the order in which they were
    /// required.
    pub fn extras(&self) -> (v: &Vec<ExtraVariant>)
        ensures
            v@ == self@.extras,
    {
        &self.extras
    }

    /// Whether the type at `t` is selected.
    pub fn has_type(&self, t: usize) -> (b: bool)
        ensures
            b == self@.has_type(t as int),
    {
        t < self.picked.len() && self.picked[t]
    }

    /// Whether the command at `c` is selected.
    pub fn has_command(&self, c: usize) -> (b: bool)
        ensures
            b == self@.has_command(c as int),
    {
        c < self.picked_commands.len() && self.picked_commands[c]
    }

    fn visit(
        &mut self,
        registry: &VkRegistry,
        t: usize,
        Ghost(gray): Ghost<Set<int>>,
        Ghost(busy): Ghost<int>,
    ) -> (r: Result<(), Missing>)
        requires
            old(self)@.fits_but(registry@, gray),
            old(self)@.closed_but(registry@, gray, busy),
        ensures
            outcome(r, final(self)@, visit(registry@, old(self)@, t as int)),
            r is Ok ==> final(self)@.fits_but(registry@, gray) && final(self)@.closed_but(
                registry@,
                gray,
                busy,
            ) && grows(old(self)@.picked, final(self)@.picked) && final(self)@.removed == old(self)@.removed && final(self)@.picked_commands == old(self)@.picked_commands && unpicked(
                final(self)@.picked,
            ) <= unpicked(old(self)@.picked) && (t < registry@.types.len() ==> final(self)@.has_type(t as int)),
        decreases unpicked(old(self)@.picked), 0nat,
    {
        let types = registry.types();
        if t >= self.picked.len() || t >= types.len() || self.picked[t] {
            return Ok(());
        }
        let ghost before = self@;
        self.picked[t] = true;
        let ghost inner = gray.insert(t as int);
        proof {
            lemma_unpicked_update(before.picked, t as int);
            assert(self@ == before.marked(t as int));
            lemma_mark_fits(registry@, before, gray, t as int);
            assert(grows(before.picked, self@.picked));
            assert(self@.closed_but(registry@, inner, busy)) by {
                assert forall|x: int|
                    #![trigger registry@.types[x]]
                    self@.has_type(x) && !inner.contains(x) && x
                        < registry@.types.len() implies self@.settles(
                    registry@,
                    type_deps(registry@.types[x]),
                ) by {
                    let deps = type_deps(registry@.types[x]);
                    lemma_settled_grows(
                        registry@,
                        before.picked,
                        self@.picked,
                        before.removed,
                        deps,
                        deps.len() as int,
                    );
                }
                assert forall|c: int|
                    #![trigger registry@.commands[c]]
                    self@.has_command(c) && c != busy && c
                        < registry@.commands.len() implies self@.settles(
                    registry@,
                    command_deps(registry@.commands[c]),
                ) by {
                    let deps = command_deps(registry@.commands[c]);
                    lemma_settled_grows(
                        registry@,
                        before.picked,
                        self@.picked,
                        before.removed,
                        deps,
                        deps.len() as int,
                    );
                }
            }
        }
        let deps = type_deps_of(&types[t]);
        assert(types_view(types@)[t as int] == types@[t as int]@);
        match self.visit_all(registry, &deps, Ghost(inner), Ghost(busy)) {
            Ok(()) => {},
            Err(e) => {
                return Err(e);
            },
        }
        let ghost done = self@;
        self.types.push(t);
        proof {
            lemma_list_fits(registry@, done, gray, t);
            assert(self@ == (SelectionView { types: done.types.push(t), ..done }));
            assert(self@.closed_but(registry@, gray, busy)) by {
                assert forall|x: int|
                    #![trigger registry@.types[x]]
                    self@.has_type(x) && !gray.contains(x) && x
                        < registry@.types.len() implies self@.settles(
                    registry@,
                    type_deps(registry@.types[x]),
                ) by {
                    if x != t {
                        assert(inner.contains(x) == gray.contains(x));
                        assert(done.has_type(x));
                    }
                }
            }
        }
        Ok(())
    }

    fn visit_all(
        &mut self,
        registry: &VkRegistry,
        deps: &Vec<InternedRef>,
        Ghost(gray): Ghost<Set<int>>,
        Ghost(busy): Ghost<int>,
    ) -> (r: Result<(), Missing>)
        requires
            old(self)@.fits_but(registry@, gray),
            old(self)@.closed_but(registry@, gray, busy),
        ensures
            outcome(r, final(self)@, visit_all(registry@, old(self)@, deps@, 0)),
            r is Ok ==> final(self)@.fits_but(registry@, gray) && final(self)@.closed_but(
                registry@,
                gray,
                busy,
            ) && grows(old(self)@.picked, final(self)@.picked) && final(self)@.removed == old(self)@.removed && final(self)@.picked_commands == old(self)@.picked_commands && unpicked(
                final(self)@.picked,
            ) <= unpicked(old(self)@.picked) && final(self)@.settles(registry@, deps@),
        decreases unpicked(old(self)@.picked), 1nat,
    {
        let ghost start = self@;
        let n = deps.len();
        let mut i: usize = 0;
        while i < n
            invariant
                i <= n,
                n == deps@.len(),
                self@.fits_but(registry@, gray),
                self@.closed_but(registry@, gray, busy),
                grows(start.picked, self@.picked),
                self@.removed == start.removed,
                self@.picked_commands == start.picked_commands,
                unpicked(self@.picked) <= unpicked(start.picked),
                start == old(self)@,
                settled(registry@, self@.picked, self@.removed, deps@, i as int),
                visit_all(registry@, self@, deps@, i as int) == visit_all(
                    registry@,
                    start,
                    deps@,
                    0,
                ),
            decreases n - i,
        {
            let d = deps[i];
            let ghost before = self@;
            if !d.is_null() {
                match registry.find_type(registry.text(d)) {
                    None => {
                        return Err(Missing::Type(d));
                    },
                    Some(j) => {
                        proof {
                            lemma_position_is_first(registry@.type_keys(), registry@.text(d));
                        }
                        match self.visit(registry, j, Ghost(gray), Ghost(busy)) {
                            Ok(()) => {},
                            Err(e) => {
                                return Err(e);
                            },
                        }
                    },
                }
            }
            proof {
                lemma_settled_grows(
                    registry@,
                    before.picked,
                    self@.picked,
                    before.removed,
                    deps@,
                    i as int,
                );
                assert(settled_one(registry@, self@.picked, self@.removed, deps@[i as int]));
            }
            i += 1;
        }
        Ok(())
    }

    /// Selects the type at `t` with every type that it mentions.
    pub fn pick_type(&mut self, registry: &VkRegistry, t: usize) -> (r: Result<(), Missing>)
        requires
            old(self)@.fits(registry@),
            old(self)@.closed(registry@),
        ensures
            outcome(r, final(self)@, visit(registry@, old(self)@, t as int)),
            r is Ok ==> final(self)@.fits(registry@) && final(self)@.closed(registry@) && (t
                < registry@.types.len() ==> final(self)@.has_type(t as int)),
    {
        self.visit(registry, t, Ghost(Set::empty()), Ghost(-1))
    }

    /// Selects the command at `c` with every type that it mentions.
    pub fn pick_command(&mut self, registry: &VkRegistry, c: usize) -> (r: Result<(), Missing>)
        requires
            old(self)@.fits(registry@),
            old(self)@.closed(registry@),
        ensures
            outcome(r, final(self)@, pick_command(registry@, old(self)@, c as int)),
            r is Ok ==> final(self)@.fits(registry@) && final(self)@.closed(registry@) && (c
                < registry@.commands.len() ==> final(self)@.has_command(c as int)),
    {
        let commands = registry.commands();
        if c >= self.picked_commands.len() || c >= commands.len() || self.picked_commands[c] {
            return Ok(());
        }
        let ghost before = self@;
        self.picked_commands[c] = true;
        self.commands.push(c);
        proof {
            lemma_pick_command_fits(registry@, before, Set::empty(), c);
        }
        let deps = command_deps_of(&commands[c]);
        assert(commands_view(commands@)[c as int] == commands@[c as int]@);
        assert(self@.closed_but(registry@, Set::empty(), c as int));
        match self.visit_all(registry, &deps, Ghost(Set::empty()), Ghost(c as int)) {
            Ok(()) => {},
            Err(e) => {
                return Err(e);
            },
        }
        Ok(())
    }

    fn find_const(&self, registry: &VkRegistry, key: &[u8]) -> (at: Option<usize>)
        ensures
            at.is_some() == const_def_at(registry@, self@.const_defs, key@).is_some(),
            at matches Some(i) ==> const_def_at(registry@, self@.const_defs, key@) == Some(
                i as int,
            ),
    {
        let n = self.const_defs.len();
        let mut i: usize = 0;
        while i < n
            invariant
                i <= n,
                n == self.const_defs@.len(),
                forall|j: int| 0 <= j < i ==> const_keys(registry@, self@.const_defs)[j] != key@,
            decreases n - i,
        {
            if bytes_eq(registry.text(self.const_defs[i].name), key) {
                proof {
                    lemma_position_found(
                        const_keys(registry@, self@.const_defs),
                        key@,
                        i as int,
                    );
                }
                return Some(i);
            }
            i += 1;
        }
        proof {
            lemma_position_none(const_keys(registry@, self@.const_defs), key@);
        }
        None
    }

    /// Requires the interface `op`: a type, a constant or a command is
    /// selected with what it mentions, a constant that an extension defines is
    /// kept unless one of its name is there, and a variant is kept for the
    /// enum that it extends.
    pub fn require(&mut self, registry: &VkRegistry, op: &VkInterface) -> (r: Result<(), Missing>)
        requires
            old(self)@.fits(registry@),
            old(self)@.closed(registry@),
        ensures
            outcome(r, final(self)@, required(registry@, old(self)@, *op)),
            r is Ok ==> final(self)@.fits(registry@) && final(self)@.closed(registry@),
    {
        match *op {
            VkInterface::Type { name, .. } | VkInterface::ApiConst { name, .. } => {
                match registry.find_type(registry.text(name)) {
                    Some(t) => self.pick_type(registry, t),
                    None => Err(Missing::Type(name)),
                }
            },
            VkInterface::Command { name, .. } => {
                match registry.find_command(registry.text(name)) {
                    Some(c) => self.pick_command(registry, c),
                    None => Err(Missing::Command(name)),
                }
            },
            VkInterface::ConstDef { name, value, .. } => {
                if self.find_const(registry, registry.text(name)).is_none() {
                    self.const_defs.push(ConstDef { name, value });
                }
                proof {
                    lemma_fits_same(registry@, old(self)@, self@, Set::empty());
                }
                Ok(())
            },
            VkInterface::ExtnEnum { extends, variant, .. } => {
                match registry.find_type(registry.text(extends)) {
                    Some(t) => {
                        self.extras.push(ExtraVariant { target: t, variant });
                        proof {
                            lemma_fits_same(registry@, old(self)@, self@, Set::empty());
                        }
                        Ok(())
                    },
                    None => Err(Missing::Type(extends)),
                }
            },
        }
    }

    fn drop_type(&mut self, registry: &VkRegistry, t: usize)
        requires
            old(self)@.fits(registry@),
            old(self)@.closed(registry@),
            t < registry@.types.len(),
        ensures
            final(self)@ == drop_type(old(self)@, t as int),
            final(self)@.fits(registry@),
            final(self)@.closed(registry@),
            !final(self)@.has_type(t as int),
            !final(self)@.types.contains(t),
    {
        proof {
            lemma_drop_type_fits(registry@, self@, t as int);
        }
        if !self.has_type(t) {
            return ;
        }
        let ghost before = self@;
        self.picked[t] = false;
        self.types = remove_value(&self.types, t);
        self.removed.push(t);
        proof {
            let after = self@;
            assert forall|d: InternedRef|
                settled_one(registry@, before.picked, before.removed, d) implies settled_one(
                registry@,
                after.picked,
                after.removed,
                d,
            ) by {
                if d != InternedRef::Null {
                    let j = registry@.type_at(registry@.text(d)).unwrap();
                    if j == t {
                        assert(after.removed[after.removed.len() - 1] == t);
                    } else if before.removed.contains(j as usize) {
                        let w = choose|w: int|
                            0 <= w < before.removed.len() && before.removed[w] == j as usize;
                        assert(after.removed[w] == j as usize);
                    }
                }
            }
            assert forall|x: int|
                #![trigger registry@.types[x]]
                after.has_type(x) && x < registry@.types.len() implies after.settles(
                registry@,
                type_deps(registry@.types[x]),
            ) by {
                assert(before.has_type(x));
                let deps = type_deps(registry@.types[x]);
                assert(before.settles(registry@, deps));
                assert forall|k: int| 0 <= k < deps.len() implies settled_one(
                    registry@,
                    after.picked,
                    after.removed,
                    #[trigger] deps[k],
                ) by {
                    assert(settled_one(registry@, before.picked, before.removed, deps[k]));
                }
            }
            assert forall|c: int|
                #![trigger registry@.commands[c]]
                after.has_command(c) && c < registry@.commands.len() implies after.settles(
                registry@,
                command_deps(registry@.commands[c]),
            ) by {
                let deps = command_deps(registry@.commands[c]);
                assert(before.settles(registry@, deps));
                assert forall|k: int| 0 <= k < deps.len() implies settled_one(
                    registry@,
                    after.picked,
                    after.removed,
                    #[trigger] deps[k],
                ) by {
                    assert(settled_one(registry@, before.picked, before.removed, deps[k]));
                }
            }
        }
    }

    fn drop_command(&mut self, registry: &VkRegistry, c: usize)
        requires
            old(self)@.fits(registry@),
            old(self)@.closed(registry@),
            c < registry@.commands.len(),
        ensures
            final(self)@ == drop_command(old(self)@, c as int),
            final(self)@.fits(registry@),
            final(self)@.closed(registry@),
            !final(self)@.has_command(c as int),
    {
        proof {
            lemma_drop_command_fits(registry@, self@, c as int);
        }
        if !self.has_command(c) {
            return ;
        }
        self.picked_commands[c] = false;
        self.commands = remove_value(&self.commands, c);
    }

    fn drop_const(&mut self, registry: &VkRegistry, key: &[u8])
        requires
            old(self)@.fits(registry@),
        ensures
            final(self)@ == (SelectionView {
                const_defs: without_const(registry@, old(self)@.const_defs, key@),
                ..old(self)@
            }),
            final(self)@.fits(registry@),
    {
        let mut kept: Vec<ConstDef> = Vec::new();
        let n = self.const_defs.len();
        let mut i: usize = 0;
        while i < n
            invariant
                i <= n,
                n == self.const_defs@.len(),
                self@ == old(self)@,
                kept@ == without_const(registry@, self@.const_defs.take(i as int), key@),
            decreases n - i,
        {
            assert(self@.const_defs.take(i + 1).drop_last() =~= self@.const_defs.take(i as int));
            if !bytes_eq(registry.text(self.const_defs[i].name), key) {
                kept.push(self.const_defs[i]);
            }
            i += 1;
        }
        assert(self@.const_defs.take(n as int) =~= self@.const_defs);
        self.const_defs = kept;
        proof {
            lemma_fits_same(registry@, old(self)@, self@, Set::empty());
        }
    }

    fn drop_extra(&mut self, registry: &VkRegistry, target: usize, key: &[u8])
        requires
            old(self)@.fits(registry@),
        ensures
            final(self)@ == (SelectionView {
                extras: without_extra(registry@, old(self)@.extras, target as int, key@),
                ..old(self)@
            }),
            final(self)@.fits(registry@),
    {
        let mut kept: Vec<ExtraVariant> = Vec::new();
        let n = self.extras.len();
        let mut i: usize = 0;
        while i < n
            invariant
                i <= n,
                n == self.extras@.len(),
                self@ == old(self)@,
                self@.fits(registry@),
                kept@ == without_extra(
                    registry@,
                    self@.extras.take(i as int),
                    target as int,
                    key@,
                ),
                forall|k: int| 0 <= k < kept@.len() ==> (#[trigger] kept@[k]).target
                    < registry@.types.len(),
            decreases n - i,
        {
            assert(self@.extras.take(i + 1).drop_last() =~= self@.extras.take(i as int));
            let extra = self.extras[i];
            if !(extra.target == target && bytes_eq(registry.text(extra.variant.name()), key)) {
                kept.push(extra);
            }
            i += 1;
        }
        assert(self@.extras.take(n as int) =~= self@.extras);
        self.extras = kept;
        proof {
            lemma_fits_same(registry@, old(self)@, self@, Set::empty());
        }
    }

    /// Removes the interface `op` from the selection.
    pub fn remove(&mut self, registry: &VkRegistry, op: &VkInterface)
        requires
            old(self)@.fits(registry@),
            old(self)@.closed(registry@),
        ensures
            final(self)@ == dropped(registry@, old(self)@, *op),
            final(self)@.fits(registry@),
            final(self)@.closed(registry@),
            grows(final(self)@.picked, old(self)@.picked),
            removed_type(registry@, *op) matches Some(t) ==> !final(self)@.has_type(t),
    {
        match *op {
            VkInterface::Type { name, .. } | VkInterface::ApiConst { name, .. } => {
                match registry.find_type(registry.text(name)) {
                    Some(t) => self.drop_type(registry, t),
                    None => {},
                }
            },
            VkInterface::Command { name, .. } => {
                match registry.find_command(registry.text(name)) {
                    Some(c) => self.drop_command(registry, c),
                    None => {},
                }
            },
            VkInterface::ConstDef { name, .. } => {
                self.drop_const(registry, registry.text(name));
            },
            VkInterface::ExtnEnum { extends, variant, .. } => {
                match registry.find_type(registry.text(extends)) {
                    Some(t) => self.drop_extra(registry, t, registry.text(variant.name())),
                    None => {},
                }
            },
        }
    }

    /// Applies the lists of a feature or an extension: what it requires
    /// first, then what it removes.
    pub fn apply(
        &mut self,
        registry: &VkRegistry,
        require: &Vec<VkInterface>,
        remove: &Vec<VkInterface>,
    ) -> (r: Result<(), Missing>)
        requires
            old(self)@.fits(registry@),
            old(self)@.closed(registry@),
        ensures
            outcome(
                r,
                final(self)@,
                apply_lists(
                    registry@,
                    old(self)@,
                    crate::model::InterfaceLists { require: require@, remove: remove@ },
                ),
            ),
            r is Ok ==> final(self)@.fits(registry@) && final(self)@.closed(registry@),
            r is Ok ==> forall|k: int, t: int|
                0 <= k < remove@.len() && removed_type(registry@, #[trigger] remove@[k]) == Some(
                    t,
                ) ==> !#[trigger] final(self)@.has_type(t),
    {
        let ghost start = self@;
        let n = require.len();
        let mut i: usize = 0;
        while i < n
            invariant
                i <= n,
                n == require@.len(),
                self@.fits(registry@),
                self@.closed(registry@),
                start == old(self)@,
                require_all(registry@, self@, require@, i as int) == require_all(
                    registry@,
                    start,
                    require@,
                    0,
                ),
            decreases n - i,
        {
            let ghost before = self@;
            match self.require(registry, &require[i]) {
                Ok(()) => {},
                Err(e) => {
                    assert(require_all(registry@, before, require@, i as int) == Err::<
                        SelectionView,
                        Missing,
                    >(e));
                    return Err(e);
                },
            }
            i += 1;
        }
        let ghost mid = self@;
        let m = remove.len();
        let mut i: usize = 0;
        while i < m
            invariant
                i <= m,
                m == remove@.len(),
                self@.fits(registry@),
                self@.closed(registry@),
                start == old(self)@,
                require_all(registry@, start, require@, 0) == Ok::<SelectionView, Missing>(mid),
                forall|k: int, t: int|
                    0 <= k < i && removed_type(registry@, #[trigger] remove@[k]) == Some(t)
                        ==> !#[trigger] self@.has_type(t),
                remove_all(registry@, self@, remove@, i as int) == remove_all(
                    registry@,
                    mid,
                    remove@,
                    0,
                ),
            decreases m - i,
        {
            let ghost before = self@;
            self.remove(registry, &remove[i]);
            proof {
                assert forall|k: int, t: int|
                    0 <= k < i + 1 && removed_type(registry@, #[trigger] remove@[k]) == Some(
                        t,
                    ) implies !#[trigger] self@.has_type(t) by {
                    if k < i {
                        assert(!before.has_type(t));
                        if self@.has_type(t) {
                            assert(self@.picked[t]);
                            assert(before.picked[t]);
                        }
                    }
                }
            }
            i += 1;
        }
        Ok(())
    }
}

fn has_name(registry: &VkRegistry, vs: &Vec<VkVariant>, key: &[u8]) -> (found: bool)
    ensures
        found == crate::registry::position(variant_keys(registry@, vs@), key@).is_some(),
{
    let n = vs.len();
    let mut i: usize = 0;
    while i < n
        invariant
            i <= n,
            n == vs@.len(),
            forall|j: int| 0 <= j < i ==> variant_keys(registry@, vs@)[j] != key@,
        decreases n - i,
    {
        if bytes_eq(registry.text(vs[i].name()), key) {
            proof {
                lemma_position_found(variant_keys(registry@, vs@), key@, i as int);
            }
            return true;
        }
        i += 1;
    }
    proof {
        lemma_position_none(variant_keys(registry@, vs@), key@);
    }
    false
}

/// The final variants of the type at `t`: its own variants, then those that
/// the selected extensions add to it, without the ones whose name an earlier
/// variant has. No two of them share a name.
pub fn final_variants_of(registry: &VkRegistry, selection: &Selection, t: usize) -> (out: Vec<
    VkVariant,
>)
    requires
        t < registry@.types.len(),
    ensures
        out@ == final_variants(registry@, selection@, t as int),
        variant_keys(registry@, out@).no_duplicates(),
{
    let types = registry.types();
    assert(types_view(types@)[t as int] == types@[t as int]@);
    let mut all: Vec<VkVariant> = Vec::new();
    match &types[t] {
        VkType::Enum { variants, .. } | VkType::Bitmask { variants, .. } => {
            let n = variants.len();
            let mut i: usize = 0;
            while i < n
                invariant
                    i <= n,
                    n == variants@.len(),
                    all@ == variants@.take(i as int),
                decreases n - i,
            {
                all.push(variants[i]);
                i += 1;
                assert(all@ =~= variants@.take(i as int));
            }
            assert(variants@.take(n as int) =~= variants@);
        },
        _ => {},
    }
    assert(all@ =~= own_variants(registry@.types[t as int]));
    let ghost own = all@;
    let extras = selection.extras();
    let m = extras.len();
    let mut i: usize = 0;
    while i < m
        invariant
            i <= m,
            m == extras@.len(),
            all@ == own + extras_for(extras@.take(i as int), t as int),
        decreases m - i,
    {
        assert(extras@.take(i + 1).drop_last() =~= extras@.take(i as int));
        if extras[i].target == t {
            all.push(extras[i].variant);
        }
        i += 1;
        assert(all@ =~= own + extras_for(extras@.take(i as int), t as int));
    }
    assert(extras@.take(m as int) =~= extras@);
    let mut out: Vec<VkVariant> = Vec::new();
    let n = all.len();
    let mut i: usize = 0;
    while i < n
        invariant
            i <= n,
            n == all@.len(),
            out@ == first_wins(registry@, all@.take(i as int)),
        decreases n - i,
    {
        assert(all@.take(i + 1).drop_last() =~= all@.take(i as int));
        if !has_name(registry, &out, registry.text(all[i].name())) {
            out.push(all[i]);
        }
        i += 1;
    }
    assert(all@.take(n as int) =~= all@);
    proof {
        crate::selection_model::lemma_first_wins_unique(registry@, all@);
    }
    out
}

fn is_earlier(a: VkVersion, b: VkVersion) -> (r: bool)
    ensures
        r == earlier(a, b),
{
    a.0 < b.0 || (a.0 == b.0 && a.1 < b.1)
}

fn rank_of(registry: &VkRegistry, i: usize) -> (k: usize)
    requires
        i < registry@.features.len(),
    ensures
        k == rank(registry@, i as int),
{
    let features = registry.features();
    assert(features_view(features@)[i as int] == features@[i as int]@);
    let v = features[i].version;
    let n = features.len();
    let mut k: usize = 0;
    let mut j: usize = 0;
    while j < n
        invariant
            j <= n,
            n == features@.len(),
            n == registry@.features.len(),
            features_view(features@) == registry@.features,
            k <= j,
            k == earlier_count(registry@, v, j as int),
        decreases n - j,
    {
        assert(features_view(features@)[j as int] == features@[j as int]@);
        if is_earlier(features[j].version, v) {
            k += 1;
        }
        j += 1;
    }
    k
}

fn find_rank(registry: &VkRegistry, k: usize) -> (at: Option<usize>)
    ensures
        at.is_some() == feature_of_rank(registry@, k as nat, 0).is_some(),
        at matches Some(i) ==> feature_of_rank(registry@, k as nat, 0) == Some(i as int) && i
            < registry@.features.len(),
{
    let n = registry.features().len();
    let mut i: usize = 0;
    while i < n
        invariant
            i <= n,
            n == registry@.features.len(),
            feature_of_rank(registry@, k as nat, i as int) == feature_of_rank(
                registry@,
                k as nat,
                0,
            ),
        decreases n - i,
    {
        if rank_of(registry, i) == k {
            return Some(i);
        }
        i += 1;
    }
    None
}

/// The bytes of the names `names`.
pub open spec fn names_view(names: Seq<&str>) -> Seq<Seq<u8>> {
    Seq::new(names.len(), |i: int| names[i].spec_bytes())
}

/// Computes what the version `target` and the extensions `extensions` select
/// of `registry`: the features up to `target` are applied in the order of
/// their versions, then the extensions in the order in which they are named.
/// What comes out lists each selected type and command once, and is closed:
/// a listed type or command mentions only types that are listed too, or that
/// were removed.
pub fn select(registry: &VkRegistry, target: VkVersion, extensions: &[&str]) -> (r: Result<
    Selection,
    SelectError,
>)
    requires
        registry@.wf(),
    ensures
        match selected(registry@, target, names_view(extensions@)) {
            Ok(s) => r matches Ok(out) && out@ == s,
            Err(e) => r matches Err(x) && x == e,
        },
        r matches Ok(out) ==> out@.fits(registry@) && out@.closed(registry@),
{
    let mut selection = Selection::new(registry);
    let features = registry.features();
    let n = features.len();
    let mut k: usize = 0;
    while k < n
        invariant
            k <= n,
            n == registry@.features.len(),
            features_view(features@) == registry@.features,
            selection@.fits(registry@),
            selection@.closed(registry@),
            apply_features(registry@, selection@, target, k as nat) == apply_features(
                registry@,
                SelectionView::empty(registry@),
                target,
                0,
            ),
        decreases n - k,
    {
        match find_rank(registry, k) {
            Some(i) => {
                assert(features_view(features@)[i as int] == features@[i as int]@);
                let feature = &features[i];
                if feature.version.le(&target) {
                    match selection.apply(registry, &feature.require, &feature.remove) {
                        Ok(()) => {},
                        Err(missing) => {
                            return Err(
                                SelectError::Undefined {
                                    missing,
                                    referrer: Referrer::Feature(feature.version),
                                },
                            );
                        },
                    }
                }
            },
            None => {},
        }
        k += 1;
    }
    let ghost mid = selection@;
    let extns = registry.extns();
    let m = extensions.len();
    let mut k: usize = 0;
    while k < m
        invariant
            k <= m,
            m == extensions@.len(),
            extns_view(extns@) == registry@.extns,
            selection@.fits(registry@),
            selection@.closed(registry@),
            apply_features(registry@, SelectionView::empty(registry@), target, 0) == Ok::<
                SelectionView,
                SelectError,
            >(mid),
            apply_extensions(registry@, selection@, names_view(extensions@), k as int)
                == apply_extensions(registry@, mid, names_view(extensions@), 0),
        decreases m - k,
    {
        assert(names_view(extensions@)[k as int] == extensions@[k as int].spec_bytes());
        let ghost before = selection@;
        let ghost rest = apply_extensions(registry@, before, names_view(extensions@), k as int);
        match registry.find_extn(extensions[k].as_bytes()) {
            None => {
                assert(rest == Err::<SelectionView, SelectError>(
                    SelectError::UnknownExtension { index: k },
                ));
                return Err(SelectError::UnknownExtension { index: k });
            },
            Some(e) => {
                assert(extns_view(extns@)[e as int] == extns@[e as int]@);
                let extn = &extns[e];
                match selection.apply(registry, &extn.require, &extn.remove) {
                    Ok(()) => {},
                    Err(missing) => {
                        assert(rest == Err::<SelectionView, SelectError>(
                            SelectError::Undefined { missing, referrer: Referrer::Extension(k) },
                        ));
                        return Err(
                            SelectError::Undefined { missing, referrer: Referrer::Extension(k) },
                        );
                    },
                }
            },
        }
        k += 1;
    }
    Ok(selection)
}

} // verus!
