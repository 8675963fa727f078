//! The registry: the arena and the collections of types, constants, commands,
//! features and extensions that the crawler fills.

use crate::arena::span_in;
use crate::arena::span_text;
use crate::arena::lemma_append_keeps_text;
use crate::arena::InternedRef;
use crate::arena::StringArena;
use crate::eltype::VkElType;
use crate::model::or_null;
use crate::model::CommandView;
use crate::model::ExtnView;
use crate::model::FeatureView;
use crate::model::TypeView;
use crate::model::VkCommand;
use crate::model::VkExtn;
use crate::model::VkFeature;
use crate::model::VkParam;
use crate::model::VkType;
use crate::text::bytes_eq;
use crate::text::is_word;
use crate::version::VkVersion;
use vstd::prelude::*;
use vstd::string::StringSliceAdditionalSpecFns;

verus! {

/// Whether `r` is the null reference or lies inside `buf`.
pub open spec fn held(buf: Seq<u8>, r: InternedRef) -> bool {
    r == InternedRef::Null || span_in(buf, r)
}

/// The first index at which `keys` holds `key`.
pub open spec fn position<K>(keys: Seq<K>, key: K) -> Option<int>
    decreases keys.len(),
{
    if keys.len() == 0 {
        None
    } else if keys[0] == key {
        Some(0)
    } else {
        match position(keys.drop_first(), key) {
            Some(i) => Some(i + 1),
            None => None,
        }
    }
}

/// `items` with `item` in the place `at`, or at the end where there is no
/// such place.
pub open spec fn upsert<T>(items: Seq<T>, at: Option<int>, item: T) -> Seq<T> {
    match at {
        Some(i) => items.update(i, item),
        None => items.push(item),
    }
}

/// `params` without the unknown parameters at its end.
pub open spec fn strip_unknown(params: Seq<VkParam>) -> Seq<VkParam>
    decreases params.len(),
{
    if params.len() > 0 && params.last().typ == VkElType::Unknown {
        strip_unknown(params.drop_last())
    } else {
        params
    }
}

/// Whether `params` ends in an unknown parameter.
pub open spec fn ends_unknown(params: Seq<VkParam>) -> bool {
    params.len() > 0 && params.last().typ == VkElType::Unknown
}

/// Stripping leaves no unknown parameter at the end.
pub proof fn lemma_strip_unknown(params: Seq<VkParam>)
    ensures
        !ends_unknown(strip_unknown(params)),
    decreases params.len(),
{
    if params.len() > 0 && params.last().typ == VkElType::Unknown {
        lemma_strip_unknown(params.drop_last());
    }
}

/// Whether each of `types`, which stand under the names `keys`, can stand in
/// a registry: none is a type that is not handled, and none is named as the
/// block of the API constants.
pub open spec fn registrable(types: Seq<TypeView>, keys: Seq<Seq<u8>>) -> bool {
    forall|i: int|
        0 <= i < types.len() && i < keys.len() ==> !(#[trigger] types[i] is Unhandled) && keys[i]
            != "API Constants".spec_bytes()
}

/// Whether the parameter list of none of `commands` ends in an unknown
/// parameter.
pub open spec fn finalized(commands: Seq<CommandView>) -> bool {
    forall|i: int| 0 <= i < commands.len() ==> !ends_unknown((#[trigger] commands[i]).params)
}

/// The views of the types of `v`.
pub open spec fn types_view(v: Seq<VkType>) -> Seq<TypeView> {
    Seq::new(v.len(), |i: int| v[i]@)
}

/// The views of the commands of `v`.
pub open spec fn commands_view(v: Seq<VkCommand>) -> Seq<CommandView> {
    Seq::new(v.len(), |i: int| v[i]@)
}

/// The views of the features of `v`.
pub open spec fn features_view(v: Seq<VkFeature>) -> Seq<FeatureView> {
    Seq::new(v.len(), |i: int| v[i]@)
}

/// The views of the extensions of `v`.
pub open spec fn extns_view(v: Seq<VkExtn>) -> Seq<ExtnView> {
    Seq::new(v.len(), |i: int| v[i]@)
}

/// What a [`VkRegistry`] holds.
pub struct RegistryView {
    /// The bytes of the arena.
    pub buffer: Seq<u8>,
    /// The number of bytes that the arena can take.
    pub capacity: nat,
    pub types: Seq<TypeView>,
    pub core_consts: Seq<InternedRef>,
    pub commands: Seq<CommandView>,
    pub features: Seq<FeatureView>,
    pub extns: Seq<ExtnView>,
}

impl RegistryView {
    /// The text that `r` denotes in the registry's arena.
    pub open spec fn text(self, r: InternedRef) -> Seq<u8> {
        span_text(self.buffer, r)
    }

    /// The names of the types, as text, in the order of the types.
    pub open spec fn type_keys(self) -> Seq<Seq<u8>> {
        Seq::new(self.types.len(), |i: int| self.text(or_null(self.types[i].name())))
    }

    /// The names of the commands, as text.
    pub open spec fn command_keys(self) -> Seq<Seq<u8>> {
        Seq::new(self.commands.len(), |i: int| self.text(self.commands[i].name))
    }

    /// The names of the extensions, as text.
    pub open spec fn extn_keys(self) -> Seq<Seq<u8>> {
        Seq::new(self.extns.len(), |i: int| self.text(self.extns[i].name))
    }

    /// The versions of the features.
    pub open spec fn feature_keys(self) -> Seq<VkVersion> {
        Seq::new(self.features.len(), |i: int| self.features[i].version)
    }

    /// Whether every name under which something is registered is a reference
    /// into the arena.
    pub open spec fn names_held(self) -> bool {
        &&& forall|i: int|
            0 <= i < self.types.len() ==> held(self.buffer, or_null(#[trigger] self.types[i].name()))
        &&& forall|i: int|
            0 <= i < self.commands.len() ==> held(self.buffer, (#[trigger] self.commands[i]).name)
        &&& forall|i: int|
            0 <= i < self.extns.len() ==> held(self.buffer, (#[trigger] self.extns[i]).name)
    }

    /// The invariant of a registry: the arena is within its capacity; no two
    /// types, no two commands and no two extensions share a name, nor two
    /// features a version; no type is one that is not handled, and none is
    /// named as the block of the API constants; no parameter list of a
    /// command ends in an unknown parameter.
    pub open spec fn wf(self) -> bool {
        &&& self.buffer.len() <= self.capacity
        &&& self.names_held()
        &&& self.type_keys().no_duplicates()
        &&& self.command_keys().no_duplicates()
        &&& self.extn_keys().no_duplicates()
        &&& self.feature_keys().no_duplicates()
        &&& registrable(self.types, self.type_keys())
        &&& finalized(self.commands)
    }

    /// The index of the type named `key`.
    pub open spec fn type_at(self, key: Seq<u8>) -> Option<int> {
        position(self.type_keys(), key)
    }

    /// The index of the command named `key`.
    pub open spec fn command_at(self, key: Seq<u8>) -> Option<int> {
        position(self.command_keys(), key)
    }

    /// The index of the extension named `key`.
    pub open spec fn extn_at(self, key: Seq<u8>) -> Option<int> {
        position(self.extn_keys(), key)
    }

    /// The index of the feature of version `version`.
    pub open spec fn feature_at(self, version: VkVersion) -> Option<int> {
        position(self.feature_keys(), version)
    }

    /// The registry after `s` was interned.
    pub open spec fn with_text(self, s: Seq<u8>) -> RegistryView {
        RegistryView { buffer: self.buffer + s, ..self }
    }

    /// The reference that interning `s` returns.
    pub open spec fn next_ref(self, s: Seq<u8>) -> InternedRef {
        InternedRef::Span { start: self.buffer.len() as usize, len: s.len() as usize }
    }

    /// Whether the registry takes the type `t`: it has a name, the name is a
    /// reference into the arena, and it is not the reserved name of the
    /// constants block.
    pub open spec fn accepts_type(self, t: TypeView) -> bool {
        &&& t.name() matches Some(n)
        &&& held(self.buffer, n)
        &&& self.text(n) != "API Constants".spec_bytes()
    }

    /// The registry after `t` was pushed: the name of a constant is recorded
    /// in any case, and a type that the registry takes stands under its name,
    /// in the place of an earlier type of that name if there was one.
    pub open spec fn with_type(self, t: TypeView) -> RegistryView {
        let core_consts = match t {
            TypeView::ApiConst { name, .. } => self.core_consts.push(name),
            _ => self.core_consts,
        };
        if self.accepts_type(t) {
            RegistryView {
                core_consts,
                types: upsert(self.types, self.type_at(self.text(or_null(t.name()))), t),
                ..self
            }
        } else {
            RegistryView { core_consts, ..self }
        }
    }

    /// The registry after the command `c` was pushed, without the unknown
    /// parameters at the end of its list.
    pub open spec fn with_command(self, c: CommandView) -> RegistryView {
        if held(self.buffer, c.name) {
            RegistryView {
                commands: upsert(
                    self.commands,
                    self.command_at(self.text(c.name)),
                    CommandView { params: strip_unknown(c.params), ..c },
                ),
                ..self
            }
        } else {
            self
        }
    }

    /// The registry after the feature `f` was pushed.
    pub open spec fn with_feature(self, f: FeatureView) -> RegistryView {
        RegistryView { features: upsert(self.features, self.feature_at(f.version), f), ..self }
    }

    /// The registry after the extension `e` was pushed.
    pub open spec fn with_extn(self, e: ExtnView) -> RegistryView {
        if held(self.buffer, e.name) {
            RegistryView { extns: upsert(self.extns, self.extn_at(self.text(e.name)), e), ..self }
        } else {
            self
        }
    }
}

/// Where `key` is found at `i` and nowhere before, `i` is its position.
pub proof fn lemma_position_found<K>(keys: Seq<K>, key: K, i: int)
    requires
        0 <= i < keys.len(),
        keys[i] == key,
        forall|j: int| 0 <= j < i ==> keys[j] != key,
    ensures
        position(keys, key) == Some(i),
    decreases i,
{
    if i > 0 {
        lemma_position_found(keys.drop_first(), key, i - 1);
    }
}

/// Where `key` is nowhere in `keys`, it has no position.
pub proof fn lemma_position_none<K>(keys: Seq<K>, key: K)
    requires
        forall|j: int| 0 <= j < keys.len() ==> keys[j] != key,
    ensures
        position(keys, key).is_none(),
    decreases keys.len(),
{
    if keys.len() > 0 {
        lemma_position_none(keys.drop_first(), key);
    }
}

/// A position is an index at which the key stands, and the first such.
pub proof fn lemma_position_is_first<K>(keys: Seq<K>, key: K)
    ensures
        match position(keys, key) {
            Some(i) => 0 <= i < keys.len() && keys[i] == key && forall|j: int|
                0 <= j < i ==> keys[j] != key,
            None => forall|j: int| 0 <= j < keys.len() ==> keys[j] != key,
        },
    decreases keys.len(),
{
    if keys.len() > 0 && keys[0] != key {
        lemma_position_is_first(keys.drop_first(), key);
        let rest = keys.drop_first();
        match position(rest, key) {
            Some(i) => {
                assert forall|j: int| 0 <= j < i + 1 implies keys[j] != key by {
                    if j > 0 {
                        assert(rest[j - 1] == keys[j]);
                    }
                }
            },
            None => {
                assert forall|j: int| 0 <= j < keys.len() implies keys[j] != key by {
                    if j > 0 {
                        assert(rest[j - 1] == keys[j]);
                    }
                }
            },
        }
    }
}

/// Putting an item under its key keeps the keys free of duplicates: the keys
/// stay as they are where the key was there, and gain it at the end where it
/// was not.
pub proof fn lemma_upsert_keys<K>(keys: Seq<K>, key: K)
    requires
        keys.no_duplicates(),
    ensures
        upsert(keys, position(keys, key), key).no_duplicates(),
        position(keys, key).is_some() ==> upsert(keys, position(keys, key), key) == keys,
{
    lemma_position_is_first(keys, key);
    match position(keys, key) {
        Some(i) => {
            assert(keys.update(i, key) =~= keys);
        },
        None => {},
    }
}

/// The registry model.
pub struct VkRegistry {
    string_buffer: StringArena,
    types: Vec<VkType>,
    core_consts: Vec<InternedRef>,
    commands: Vec<VkCommand>,
    features: Vec<VkFeature>,
    extns: Vec<VkExtn>,
}

impl View for VkRegistry {
    type V = RegistryView;

    closed spec fn view(&self) -> RegistryView {
        RegistryView {
            buffer: self.string_buffer@,
            capacity: self.string_buffer.capacity(),
            types: types_view(self.types@),
            core_consts: self.core_consts@,
            commands: commands_view(self.commands@),
            features: features_view(self.features@),
            extns: extns_view(self.extns@),
        }
    }
}

impl VkRegistry {
    /// An empty registry whose arena can take `capacity` bytes.
    pub fn with_capacity(capacity: usize) -> (registry: Self)
        ensures
            registry@ == (RegistryView {
                buffer: Seq::empty(),
                capacity: capacity as nat,
                types: Seq::empty(),
                core_consts: Seq::empty(),
                commands: Seq::empty(),
                features: Seq::empty(),
                extns: Seq::empty(),
            }),
            registry@.wf(),
    {
        let registry = VkRegistry {
            string_buffer: StringArena::with_capacity(capacity),
            types: Vec::with_capacity(512),
            core_consts: Vec::with_capacity(16),
            commands: Vec::with_capacity(256),
            features: Vec::with_capacity(8),
            extns: Vec::with_capacity(64),
        };
        assert(registry@.types =~= Seq::empty());
        assert(registry@.commands =~= Seq::empty());
        assert(registry@.features =~= Seq::empty());
        assert(registry@.extns =~= Seq::empty());
        registry
    }

    /// The types, in the order in which their names were first pushed.
    pub fn types(&self) -> (v: &Vec<VkType>)
        ensures
            types_view(v@) == self@.types,
    {
        &self.types
    }

    /// The commands, in the order in which their names were first pushed.
    pub fn commands(&self) -> (v: &Vec<VkCommand>)
        ensures
            commands_view(v@) == self@.commands,
    {
        &self.commands
    }

    /// The features, in the order in which their versions were first pushed.
    pub fn features(&self) -> (v: &Vec<VkFeature>)
        ensures
            features_view(v@) == self@.features,
    {
        &self.features
    }

    /// The extensions, in the order in which their names were first pushed.
    pub fn extns(&self) -> (v: &Vec<VkExtn>)
        ensures
            extns_view(v@) == self@.extns,
    {
        &self.extns
    }

    /// The names of the API constants, in the order in which they were pushed.
    pub fn core_consts(&self) -> (v: &Vec<InternedRef>)
        ensures
            v@ == self@.core_consts,
    {
        &self.core_consts
    }

    /// The number of bytes that the arena can take.
    pub fn buffer_cap(&self) -> (n: usize)
        ensures
            n == self@.capacity,
    {
        self.string_buffer.buffer_cap()
    }

    /// The text that `r` denotes.
    pub fn text(&self, r: InternedRef) -> (bytes: &[u8])
        ensures
            bytes@ == self@.text(r),
    {
        self.string_buffer.get(r)
    }

    /// Whether `r` is null or a reference into the arena.
    pub fn holds(&self, r: InternedRef) -> (b: bool)
        ensures
            b == held(self@.buffer, r),
    {
        match r {
            InternedRef::Null => true,
            InternedRef::Span { start, len } => {
                let total = self.string_buffer.len();
                start <= total && len <= total - start
            },
        }
    }

    /// Interns `s` where the arena has room for it, and leaves the registry
    /// as it is where it has not.
    pub fn try_append(&mut self, s: &[u8]) -> (r: Option<InternedRef>)
        requires
            old(self)@.wf(),
        ensures
            final(self)@.wf(),
            old(self)@.buffer.len() + s@.len() <= old(self)@.capacity ==> r == Some(
                old(self)@.next_ref(s@),
            ) && final(self)@ == old(self)@.with_text(s@),
            old(self)@.buffer.len() + s@.len() > old(self)@.capacity ==> r.is_none() && final(self)@
                == old(self)@,
            r matches Some(x) ==> final(self)@.text(x) == s@ && span_in(final(self)@.buffer, x),
    {
        let r = self.string_buffer.try_intern(s);
        proof {
            if r.is_some() {
                lemma_with_text_keeps(old(self)@, s@);
            }
        }
        r
    }

    /// Interns `s` and returns the reference to its bytes.
    pub fn append_str(&mut self, s: &str) -> (r: InternedRef)
        requires
            old(self)@.wf(),
            old(self)@.buffer.len() + s.spec_bytes().len() <= old(self)@.capacity,
        ensures
            final(self)@.wf(),
            final(self)@ == old(self)@.with_text(s.spec_bytes()),
            r == old(self)@.next_ref(s.spec_bytes()),
            final(self)@.text(r) == s.spec_bytes(),
    {
        let r = self.string_buffer.intern(s);
        proof {
            lemma_with_text_keeps(old(self)@, s.spec_bytes());
        }
        r
    }

    /// The index of the type named `key`, if there is one.
    pub fn find_type(&self, key: &[u8]) -> (at: Option<usize>)
        ensures
            at.is_some() == self@.type_at(key@).is_some(),
            at matches Some(i) ==> self@.type_at(key@) == Some(i as int) && i < self@.types.len(),
    {
        let n = self.types.len();
        let mut i: usize = 0;
        while i < n
            invariant
                i <= n,
                n == self.types@.len(),
                forall|j: int| 0 <= j < i ==> self@.type_keys()[j] != key@,
            decreases n - i,
        {
            let name = match self.types[i].name() {
                Some(name) => name,
                None => InternedRef::Null,
            };
            if bytes_eq(self.string_buffer.get(name), key) {
                proof {
                    lemma_position_found(self@.type_keys(), key@, i as int);
                }
                return Some(i);
            }
            i += 1;
        }
        proof {
            lemma_position_none(self@.type_keys(), key@);
        }
        None
    }

    /// The index of the command named `key`, if there is one.
    pub fn find_command(&self, key: &[u8]) -> (at: Option<usize>)
        ensures
            at.is_some() == self@.command_at(key@).is_some(),
            at matches Some(i) ==> self@.command_at(key@) == Some(i as int) && i
                < self@.commands.len(),
    {
        let n = self.commands.len();
        let mut i: usize = 0;
        while i < n
            invariant
                i <= n,
                n == self.commands@.len(),
                forall|j: int| 0 <= j < i ==> self@.command_keys()[j] != key@,
            decreases n - i,
        {
            if bytes_eq(self.string_buffer.get(self.commands[i].name), key) {
                proof {
                    lemma_position_found(self@.command_keys(), key@, i as int);
                }
                return Some(i);
            }
            i += 1;
        }
        proof {
            lemma_position_none(self@.command_keys(), key@);
        }
        None
    }

    /// The index of the extension named `key`, if there is one.
    pub fn find_extn(&self, key: &[u8]) -> (at: Option<usize>)
        ensures
            at.is_some() == self@.extn_at(key@).is_some(),
            at matches Some(i) ==> self@.extn_at(key@) == Some(i as int) && i < self@.extns.len(),
    {
        let n = self.extns.len();
        let mut i: usize = 0;
        while i < n
            invariant
                i <= n,
                n == self.extns@.len(),
                forall|j: int| 0 <= j < i ==> self@.extn_keys()[j] != key@,
            decreases n - i,
        {
            if bytes_eq(self.string_buffer.get(self.extns[i].name), key) {
                proof {
                    lemma_position_found(self@.extn_keys(), key@, i as int);
                }
                return Some(i);
            }
            i += 1;
        }
        proof {
            lemma_position_none(self@.extn_keys(), key@);
        }
        None
    }

    /// The index of the feature of version `version`, if there is one.
    pub fn find_feature(&self, version: VkVersion) -> (at: Option<usize>)
        ensures
            at.is_some() == self@.feature_at(version).is_some(),
            at matches Some(i) ==> self@.feature_at(version) == Some(i as int) && i
                < self@.features.len(),
    {
        let n = self.features.len();
        let mut i: usize = 0;
        while i < n
            invariant
                i <= n,
                n == self.features@.len(),
                forall|j: int| 0 <= j < i ==> self@.feature_keys()[j] != version,
            decreases n - i,
        {
            let v = self.features[i].version;
            if v.0 == version.0 && v.1 == version.1 {
                proof {
                    lemma_position_found(self@.feature_keys(), version, i as int);
                }
                return Some(i);
            }
            i += 1;
        }
        proof {
            lemma_position_none(self@.feature_keys(), version);
        }
        None
    }

    /// Registers a type under its name. A type that is not handled, the
    /// pseudo-type `API Constants` and a type whose name is no reference into
    /// the arena are refused; the name of a constant is recorded in any case.
    pub fn push_type(&mut self, vk_type: VkType) -> (r: Result<(), ()>)
        requires
            old(self)@.wf(),
        ensures
            final(self)@ == old(self)@.with_type(vk_type@),
            r.is_ok() == old(self)@.accepts_type(vk_type@),
            final(self)@.wf(),
    {
        let ghost before = self@;
        if let VkType::ApiConst { name, .. } = &vk_type {
            self.core_consts.push(*name);
        }
        let name = match vk_type.name() {
            Some(name) => name,
            None => {
                return Err(());
            },
        };
        proof {
            lemma_keys_depend(before, self@);
        }
        if !self.holds(name) || is_word(self.string_buffer.get(name), "API Constants") {
            return Err(());
        }
        let ghost key = before.text(name);
        let ghost mid = self@;
        proof {
            lemma_upsert_keys(before.type_keys(), key);
            lemma_position_is_first(before.type_keys(), key);
        }
        match self.find_type(self.string_buffer.get(name)) {
            Some(i) => {
                self.types[i] = vk_type;
                assert(self@.types =~= before.types.update(i as int, vk_type@));
                assert(self@.type_keys() =~= before.type_keys());
                proof {
                    lemma_keys_depend(mid, self@);
                }
            },
            None => {
                self.types.push(vk_type);
                assert(self@.types =~= before.types.push(vk_type@));
                assert(self@.type_keys() =~= before.type_keys().push(key));
                proof {
                    lemma_keys_depend(mid, self@);
                }
            },
        }
        Ok(())
    }

    /// Registers a command under its name, without the unknown parameters at
    /// the end of its list. Nothing is registered for `None`, nor for a
    /// command whose name is no reference into the arena.
    pub fn push_command(&mut self, vk_command: Option<VkCommand>) -> (r: Result<(), ()>)
        requires
            old(self)@.wf(),
        ensures
            r.is_ok() == (vk_command matches Some(c) && held(old(self)@.buffer, c.name)),
            final(self)@ == (match vk_command {
                Some(c) => old(self)@.with_command(c@),
                None => old(self)@,
            }),
            final(self)@.wf(),
    {
        let ghost before = self@;
        let mut cmd = match vk_command {
            Some(cmd) => cmd,
            None => {
                return Err(());
            },
        };
        if !self.holds(cmd.name) {
            return Err(());
        }
        let ghost given = cmd@;
        while cmd.params.len() > 0 && is_unknown(&cmd.params[cmd.params.len() - 1].typ)
            invariant
                strip_unknown(cmd.params@) == strip_unknown(given.params),
                cmd.name == given.name,
                cmd.ret == given.ret,
            decreases cmd.params.len(),
        {
            cmd.params.pop();
        }
        let ghost key = before.text(cmd.name);
        proof {
            lemma_upsert_keys(before.command_keys(), key);
            lemma_position_is_first(before.command_keys(), key);
        }
        match self.find_command(self.string_buffer.get(cmd.name)) {
            Some(i) => {
                self.commands[i] = cmd;
                assert(self@.commands =~= before.commands.update(i as int, cmd@));
                assert(self@.command_keys() =~= before.command_keys());
                proof {
                    lemma_keys_depend(before, self@);
                }
            },
            None => {
                self.commands.push(cmd);
                assert(self@.commands =~= before.commands.push(cmd@));
                assert(self@.command_keys() =~= before.command_keys().push(key));
                proof {
                    lemma_keys_depend(before, self@);
                }
            },
        }
        Ok(())
    }

    /// Registers a feature under its version. Nothing is registered for
    /// `None`.
    pub fn push_feature(&mut self, feature: Option<VkFeature>) -> (r: Result<(), ()>)
        requires
            old(self)@.wf(),
        ensures
            r.is_ok() == feature.is_some(),
            final(self)@ == (match feature {
                Some(f) => old(self)@.with_feature(f@),
                None => old(self)@,
            }),
            final(self)@.wf(),
    {
        let ghost before = self@;
        let feat = match feature {
            Some(feat) => feat,
            None => {
                return Err(());
            },
        };
        proof {
            lemma_upsert_keys(before.feature_keys(), feat.version);
            lemma_position_is_first(before.feature_keys(), feat.version);
        }
        match self.find_feature(feat.version) {
            Some(i) => {
                self.features[i] = feat;
                assert(self@.features =~= before.features.update(i as int, feat@));
                assert(self@.feature_keys() =~= before.feature_keys());
                proof {
                    lemma_keys_depend(before, self@);
                }
            },
            None => {
                self.features.push(feat);
                assert(self@.features =~= before.features.push(feat@));
                assert(self@.feature_keys() =~= before.feature_keys().push(feat.version));
                proof {
                    lemma_keys_depend(before, self@);
                }
            },
        }
        Ok(())
    }

    /// Registers an extension under its name. Nothing is registered for
    /// `None`, nor for an extension whose name is no reference into the arena.
    pub fn push_extn(&mut self, extn: Option<VkExtn>) -> (r: Result<(), ()>)
        requires
            old(self)@.wf(),
        ensures
            r.is_ok() == (extn matches Some(e) && held(old(self)@.buffer, e.name)),
            final(self)@ == (match extn {
                Some(e) => old(self)@.with_extn(e@),
                None => old(self)@,
            }),
            final(self)@.wf(),
    {
        let ghost before = self@;
        let ex = match extn {
            Some(ex) => ex,
            None => {
                return Err(());
            },
        };
        if !self.holds(ex.name) {
            return Err(());
        }
        let ghost key = before.text(ex.name);
        proof {
            lemma_upsert_keys(before.extn_keys(), key);
            lemma_position_is_first(before.extn_keys(), key);
        }
        match self.find_extn(self.string_buffer.get(ex.name)) {
            Some(i) => {
                self.extns[i] = ex;
                assert(self@.extns =~= before.extns.update(i as int, ex@));
                assert(self@.extn_keys() =~= before.extn_keys());
                proof {
                    lemma_keys_depend(before, self@);
                }
            },
            None => {
                self.extns.push(ex);
                assert(self@.extns =~= before.extns.push(ex@));
                assert(self@.extn_keys() =~= before.extn_keys().push(key));
                proof {
                    lemma_keys_depend(before, self@);
                }
            },
        }
        Ok(())
    }
}

fn is_unknown(typ: &VkElType) -> (b: bool)
    ensures
        b == (*typ == VkElType::Unknown),
{
    match typ {
        VkElType::Unknown => true,
        _ => false,
    }
}

/// Interning keeps a registry well formed and every registered name reading
/// the same text.
pub proof fn lemma_with_text_keeps(reg: RegistryView, s: Seq<u8>)
    requires
        reg.wf(),
        reg.buffer.len() + s.len() <= reg.capacity,
    ensures
        reg.with_text(s).wf(),
        reg.with_text(s).type_keys() == reg.type_keys(),
        reg.with_text(s).command_keys() == reg.command_keys(),
        reg.with_text(s).extn_keys() == reg.extn_keys(),
        reg.with_text(s).feature_keys() == reg.feature_keys(),
{
    let after = reg.with_text(s);
    assert forall|r: InternedRef| held(reg.buffer, r) implies held(after.buffer, r) && span_text(
        after.buffer,
        r,
    ) == span_text(reg.buffer, r) by {
        if r != InternedRef::Null {
            lemma_append_keeps_text(reg.buffer, s, r);
        }
    }
    assert(after.type_keys() =~= reg.type_keys());
    assert(after.command_keys() =~= reg.command_keys());
    assert(after.extn_keys() =~= reg.extn_keys());
    assert(after.feature_keys() =~= reg.feature_keys());
}

/// The keys of a collection depend on the arena and on that collection alone.
pub proof fn lemma_keys_depend(a: RegistryView, b: RegistryView)
    requires
        a.buffer == b.buffer,
    ensures
        a.types == b.types ==> a.type_keys() == b.type_keys(),
        a.commands == b.commands ==> a.command_keys() == b.command_keys(),
        a.extns == b.extns ==> a.extn_keys() == b.extn_keys(),
        a.features == b.features ==> a.feature_keys() == b.feature_keys(),
{
    if a.types == b.types {
        assert(a.type_keys() =~= b.type_keys());
    }
    if a.commands == b.commands {
        assert(a.command_keys() =~= b.command_keys());
    }
    if a.extns == b.extns {
        assert(a.extn_keys() =~= b.extn_keys());
    }
    if a.features == b.features {
        assert(a.feature_keys() =~= b.feature_keys());
    }
}

/// Name uniqueness: in a well-formed registry two types that stand at
/// different places have different names.
pub proof fn lemma_type_names_unique(reg: RegistryView, i: int, j: int)
    requires
        reg.wf(),
        0 <= i < reg.types.len(),
        0 <= j < reg.types.len(),
        i != j,
    ensures
        reg.text(or_null(reg.types[i].name())) != reg.text(or_null(reg.types[j].name())),
{
    assert(reg.type_keys()[i] != reg.type_keys()[j]);
}

} // verus!
