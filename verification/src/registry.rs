//! The registry: a map from a module's name to its metadata and its factory.
//!
//! The registry is generic in the type `F` of its factories. A factory is
//! anything that can be called without arguments and returns either an
//! instance or a construction error; what an instance is, and what an error
//! is, the registry does not need to know. Its model is a
//! `Map<Seq<char>, RegistryEntryView<F>>`.

use vstd::hash_map::StringHashMap;
use vstd::prelude::*;
use vstd::string::StringExecFns;

use crate::clock::current_unix_seconds;
use crate::error::{
    answers, fails_with, gate_error, is_not_found, RegistryError, RegistryErrorView,
};
use crate::security::{
    check_result_at, first_failed_gate, permission_granted, signature_valid_at,
    supply_chain_valid_at, SecurityCheckResult, SecurityGate, SecurityValidator,
};
use crate::types::{
    signature_view, strings_view, supply_chain_view, CodeReviewStatus, CodeReviewStatusView,
    ModuleMetadata, ModuleMetadataView, ModulePermissions, ModuleRegistration, ModuleSignature,
    SecurityReport, SecurityReportView, SupplyChainInfo,
};

verus! {

/// The name recorded for the building function where the caller gave none.
pub const DEFAULT_INSTANTIATE_FN_NAME: &'static str = "factory";

/// The place of declaration recorded where the caller gave none.
pub const DEFAULT_DECLARING_PATH: &'static str = "module_registry::registry";

/// The type name recorded where the caller gave none.
pub const DEFAULT_STRUCT_NAME: &'static str = "Module";

/// What the registry holds under one name.
struct RegistryEntry<F> {
    metadata: ModuleMetadata,
    factory: F,
}

/// Model of what the registry holds under one name.
pub struct RegistryEntryView<F> {
    pub metadata: ModuleMetadataView,
    pub factory: F,
}

impl<F> View for RegistryEntry<F> {
    type V = RegistryEntryView<F>;

    closed spec fn view(&self) -> RegistryEntryView<F> {
        RegistryEntryView { metadata: self.metadata@, factory: self.factory }
    }
}

/// The names of a list of entries, in order.
spec fn entry_names<F>(entries: Seq<RegistryEntry<F>>) -> Seq<Seq<char>> {
    entries.map_values(|entry: RegistryEntry<F>| entry.metadata.name@)
}

/// The map that a list of entries stands for: each name leads to its entry.
spec fn entries_model<F>(entries: Seq<RegistryEntry<F>>) -> Map<Seq<char>, RegistryEntryView<F>> {
    Map::new(
        |name: Seq<char>| entry_names(entries).contains(name),
        |name: Seq<char>| entries[entry_names(entries).index_of(name)]@,
    )
}

/// In a list without repeated names, every entry is found under its name.
proof fn lemma_model_at<F>(entries: Seq<RegistryEntry<F>>, i: int)
    requires
        entry_names(entries).no_duplicates(),
        0 <= i < entries.len(),
    ensures
        entries_model(entries).contains_key(entries[i].metadata.name@),
        entries_model(entries)[entries[i].metadata.name@] == entries[i]@,
{
    let names = entry_names(entries);
    assert(names[i] == entries[i].metadata.name@);
    assert(names.contains(names[i]));
    let j = names.index_of(names[i]);
    assert(0 <= j < names.len() && names[j] == names[i]);
}

/// A name that no entry bears is not in the map.
proof fn lemma_model_absent<F>(entries: Seq<RegistryEntry<F>>, name: Seq<char>)
    requires
        forall|i: int| 0 <= i < entries.len() ==> (#[trigger] entries[i]).metadata.name@ != name,
    ensures
        !entries_model(entries).contains_key(name),
{
    let names = entry_names(entries);
    if names.contains(name) {
        let i = choose|i: int| 0 <= i < names.len() && names[i] == name;
        assert(entries[i].metadata.name@ == name);
    }
}

/// Appending an entry with a new name adds it to the map.
proof fn lemma_model_push<F>(entries: Seq<RegistryEntry<F>>, entry: RegistryEntry<F>)
    requires
        entry_names(entries).no_duplicates(),
        !entries_model(entries).contains_key(entry.metadata.name@),
    ensures
        entry_names(entries.push(entry)).no_duplicates(),
        entries_model(entries.push(entry)) == entries_model(entries).insert(
            entry.metadata.name@,
            entry@,
        ),
{
    let names = entry_names(entries);
    let longer = entries.push(entry);
    let longer_names = entry_names(longer);
    let name = entry.metadata.name@;
    assert(longer_names =~= names.push(name));
    assert(!names.contains(name));
    assert forall|i: int, j: int|
        0 <= i < longer_names.len() && 0 <= j < longer_names.len() && i != j implies longer_names[i]
        != longer_names[j] by {
        if i < names.len() {
            assert(names.contains(names[i]));
        }
        if j < names.len() {
            assert(names.contains(names[j]));
        }
    }
    let left = entries_model(longer);
    let right = entries_model(entries).insert(name, entry@);
    assert forall|k: Seq<char>| left.contains_key(k) <==> right.contains_key(k) by {
        if longer_names.contains(k) {
            let i = choose|i: int| 0 <= i < longer_names.len() && longer_names[i] == k;
            if i < names.len() {
                assert(names[i] == k);
            }
        }
        if names.contains(k) {
            let i = choose|i: int| 0 <= i < names.len() && names[i] == k;
            assert(longer_names[i] == k);
        }
        if k == name {
            assert(longer_names[names.len() as int] == k);
        }
    }
    assert forall|k: Seq<char>| left.contains_key(k) implies left[k] == right[k] by {
        let i = longer_names.index_of(k);
        assert(0 <= i < longer_names.len() && longer_names[i] == k);
        lemma_model_at(longer, i);
        if i < names.len() {
            assert(names[i] == k);
            lemma_model_at(entries, i);
        }
    }
    assert(left =~= right);
}

/// Replacing an entry by one of the same name replaces it in the map.
proof fn lemma_model_update<F>(entries: Seq<RegistryEntry<F>>, i: int, entry: RegistryEntry<F>)
    requires
        entry_names(entries).no_duplicates(),
        0 <= i < entries.len(),
        entries[i].metadata.name@ == entry.metadata.name@,
    ensures
        entry_names(entries.update(i, entry)).no_duplicates(),
        entries_model(entries.update(i, entry)) == entries_model(entries).insert(
            entry.metadata.name@,
            entry@,
        ),
{
    let names = entry_names(entries);
    let changed = entries.update(i, entry);
    let name = entry.metadata.name@;
    assert(entry_names(changed) =~= names);
    assert(names[i] == name);
    let left = entries_model(changed);
    let right = entries_model(entries).insert(name, entry@);
    assert forall|k: Seq<char>| left.contains_key(k) <==> right.contains_key(k) by {
        if k == name {
            assert(names.contains(names[i]));
        }
    }
    assert forall|k: Seq<char>| left.contains_key(k) implies left[k] == right[k] by {
        let j = names.index_of(k);
        assert(0 <= j < names.len() && names[j] == k);
        lemma_model_at(changed, j);
        lemma_model_at(entries, j);
    }
    assert(left =~= right);
}

/// A list without repeated names stands for a finite map with one key for
/// each entry.
proof fn lemma_model_len<F>(entries: Seq<RegistryEntry<F>>)
    requires
        entry_names(entries).no_duplicates(),
    ensures
        entries_model(entries).dom().finite(),
        entries_model(entries).dom().len() == entries.len(),
{
    let names = entry_names(entries);
    assert(entries_model(entries).dom() =~= names.to_set());
    vstd::seq_lib::seq_to_set_is_finite(names);
    names.unique_seq_to_set();
}

/// Looking at one more entry of a list without repeated names: its name is
/// new among those looked at so far, and it alone joins the keys.
proof fn lemma_model_take_step<F>(entries: Seq<RegistryEntry<F>>, i: int)
    requires
        entry_names(entries).no_duplicates(),
        0 <= i < entries.len(),
    ensures
        entries_model(entries.take(i + 1)).dom() == entries_model(entries.take(i)).dom().insert(
            entries[i].metadata.name@,
        ),
        forall|j: int|
            0 <= j < i ==> (#[trigger] entries[j]).metadata.name@ != entries[i].metadata.name@,
{
    let names = entry_names(entries);
    let before = entry_names(entries.take(i));
    let after = entry_names(entries.take(i + 1));
    assert(after =~= before.push(entries[i].metadata.name@));
    assert forall|j: int| 0 <= j < i implies (#[trigger] entries[j]).metadata.name@
        != entries[i].metadata.name@ by {
        assert(names[j] == entries[j].metadata.name@);
        assert(names[i] == entries[i].metadata.name@);
    }
    assert forall|k: Seq<char>|
        entries_model(entries.take(i + 1)).dom().contains(k) <==> entries_model(
            entries.take(i),
        ).dom().insert(entries[i].metadata.name@).contains(k) by {
        if after.contains(k) {
            let j = choose|j: int| 0 <= j < after.len() && after[j] == k;
            if j < i {
                assert(before[j] == k);
            }
        }
        if before.contains(k) {
            let j = choose|j: int| 0 <= j < before.len() && before[j] == k;
            assert(after[j] == k);
        }
        if k == entries[i].metadata.name@ {
            assert(after[i] == k);
        }
    }
    assert(entries_model(entries.take(i + 1)).dom() =~= entries_model(entries.take(i)).dom().insert(
        entries[i].metadata.name@,
    ));
}

/// The registry of modules.
///
/// The modules are kept in a list in which no name occurs twice
/// ([`ModuleRegistry::wf`]). To the outside the registry is the map from
/// names to entries that the list stands for; the order of the list shows
/// nowhere.
pub struct ModuleRegistry<F> {
    entries: Vec<RegistryEntry<F>>,
}

impl<F> View for ModuleRegistry<F> {
    type V = Map<Seq<char>, RegistryEntryView<F>>;

    /// The registry as a map from names to entries.
    closed spec fn view(&self) -> Map<Seq<char>, RegistryEntryView<F>> {
        entries_model(self.entries@)
    }
}

/// The modules after `metadata` and `factory` were filed under the metadata's
/// name, in place of whatever was filed there.
pub open spec fn with_module<F>(
    modules: Map<Seq<char>, RegistryEntryView<F>>,
    metadata: ModuleMetadataView,
    factory: F,
) -> Map<Seq<char>, RegistryEntryView<F>> {
    modules.insert(metadata.name, RegistryEntryView { metadata, factory })
}

/// The modules after the review status of the module `name` was replaced by
/// `status`. Nothing else changes.
pub open spec fn with_review_status<F>(
    modules: Map<Seq<char>, RegistryEntryView<F>>,
    name: Seq<char>,
    status: CodeReviewStatusView,
) -> Map<Seq<char>, RegistryEntryView<F>> {
    modules.insert(
        name,
        RegistryEntryView {
            metadata: modules[name].metadata.with_review_status(status),
            factory: modules[name].factory,
        },
    )
}

/// What a call of `factory` on behalf of the module `name` may hand back:
/// the instance that the factory returned, or a construction failure that
/// names the module and carries the error that the factory returned.
pub open spec fn construction_outcome<F, I, E>(
    factory: F,
    name: Seq<char>,
    result: Result<I, RegistryError<E>>,
) -> bool where F: Fn() -> Result<I, E> {
    match result {
        Ok(instance) => call_ensures(factory, (), Ok::<I, E>(instance)),
        Err(error) => error matches RegistryError::ConstructionFailure { name: failed, source }
            && failed@ == name && call_ensures(factory, (), Err::<I, E>(source)),
    }
}

/// The result is the factory `factory`, and that factory can be called.
pub open spec fn hands_out<F, I, E>(result: Result<&F, RegistryError<E>>, factory: F) -> bool
    where F: Fn() -> Result<I, E> {
    result matches Ok(found) && *found == factory && call_requires(factory, ())
}

/// What asking for the factory of the module in `entry` at time `now` may
/// hand back: the error of the first gate that the module fails, or, where
/// it passes them all, its factory.
pub open spec fn admission_outcome<F, I, E>(
    entry: RegistryEntryView<F>,
    name: Seq<char>,
    now: u64,
    result: Result<&F, RegistryError<E>>,
) -> bool where F: Fn() -> Result<I, E> {
    match first_failed_gate(entry.metadata, now) {
        Some(gate) => fails_with(result, gate_error(gate, name)),
        None => hands_out(result, entry.factory),
    }
}

/// What a secure creation of the module `name` at time `now` may hand back:
/// the error of the first gate that the module fails, or, where it passes
/// them all, what a call of its factory may hand back.
pub open spec fn secure_creation_outcome<F, I, E>(
    entry: RegistryEntryView<F>,
    name: Seq<char>,
    now: u64,
    result: Result<I, RegistryError<E>>,
) -> bool where F: Fn() -> Result<I, E> {
    match first_failed_gate(entry.metadata, now) {
        Some(gate) => fails_with(result, gate_error(gate, name)),
        None => construction_outcome(entry.factory, name, result),
    }
}

/// What recovering the expected type from an instance of the module `name`
/// may hand back. A failed construction is passed on. An instance that
/// `recover` accepts comes back in its recovered form. An instance that
/// `recover` rejects is reported as a type mismatch.
pub open spec fn recovery_outcome<F, R, I, E, T>(
    factory: F,
    recover: R,
    name: Seq<char>,
    result: Result<T, RegistryError<E>>,
) -> bool where F: Fn() -> Result<I, E>, R: FnOnce(I) -> Result<T, I> {
    match result {
        Ok(recovered) => recovered_from(factory, recover, Ok::<T, I>(recovered)),
        Err(RegistryError::ConstructionFailure { name: failed, source }) => failed@ == name
            && call_ensures(factory, (), Err::<I, E>(source)),
        Err(RegistryError::TypeMismatch { name: failed }) => failed@ == name && exists|rejected: I|
            recovered_from(factory, recover, Err::<T, I>(rejected)),
        Err(_) => false,
    }
}

/// `recovered` is what `recover` made of some instance that `factory` built.
pub open spec fn recovered_from<F, R, I, E, T>(
    factory: F,
    recover: R,
    recovered: Result<T, I>,
) -> bool where F: Fn() -> Result<I, E>, R: FnOnce(I) -> Result<T, I> {
    exists|instance: I|
        call_ensures(factory, (), Ok::<I, E>(instance)) && #[trigger] call_ensures(
            recover,
            (instance,),
            recovered,
        )
}

/// `audit` is the audit of `modules` as of time `now`: it holds, under the
/// name of every module and under no other name, the result of the module's
/// comprehensive check at that time.
pub open spec fn is_audit_at<F>(
    audit: Map<Seq<char>, SecurityCheckResult>,
    modules: Map<Seq<char>, RegistryEntryView<F>>,
    now: u64,
) -> bool {
    &&& audit.dom() == modules.dom()
    &&& forall|name: Seq<char>| #[trigger]
        modules.contains_key(name) ==> audit[name]@ == check_result_at(modules[name].metadata, now)
}

/// The metadata that a registration record stands for: its identity and
/// diagnostic names, and no security information.
pub open spec fn registration_metadata<F>(record: ModuleRegistration<F>) -> ModuleMetadataView {
    ModuleMetadataView::plain(
        record.name@,
        record.module_type@,
        record.instantiate_fn_name@,
        record.declaring_path@,
        record.struct_name@,
    )
}

/// The registry that a list of registration records stands for: the records
/// are entered in order, so of two records with one name the later stays.
pub open spec fn registrations_model<F>(records: Seq<ModuleRegistration<F>>) -> Map<
    Seq<char>,
    RegistryEntryView<F>,
>
    decreases records.len(),
{
    if records.len() == 0 {
        Map::empty()
    } else {
        with_module(
            registrations_model(records.drop_last()),
            registration_metadata(records.last()),
            records.last().factory,
        )
    }
}

/// Decides what becomes of an attempt to recover the expected type from an
/// instance of the module `name`: what was recovered is handed on, and an
/// instance that came back unrecovered is reported as a type mismatch.
pub fn recovered_or_mismatch<T, I, E>(name: &str, recovered: Result<T, I>) -> (result: Result<
    T,
    RegistryError<E>,
>)
    ensures
        match recovered {
            Ok(value) => result == Ok::<T, RegistryError<E>>(value),
            Err(_) => fails_with(result, RegistryErrorView::TypeMismatch { name: name@ }),
        },
{
    match recovered {
        Ok(value) => Ok(value),
        Err(_) => Err(RegistryError::TypeMismatch { name: String::from_str(name) }),
    }
}

impl<F, I, E> ModuleRegistry<F> where F: Fn() -> Result<I, E> {
    /// The registry is well formed: no name occurs twice in its store, and
    /// every factory in it can be called.
    pub closed spec fn wf(&self) -> bool {
        &&& entry_names(self.entries@).no_duplicates()
        &&& forall|i: int|
            0 <= i < self.entries@.len() ==> call_requires(
                (#[trigger] self.entries@[i]).factory,
                (),
            )
    }

    /// A well-formed registry holds finitely many modules. Each module is
    /// filed under the name that its metadata bears, and each factory can be
    /// called.
    pub proof fn lemma_wf(&self)
        requires
            self.wf(),
        ensures
            self@.dom().finite(),
            forall|name: Seq<char>| #[trigger]
                self@.contains_key(name) ==> self@[name].metadata.name == name && call_requires(
                    self@[name].factory,
                    (),
                ),
    {
        lemma_model_len(self.entries@);
        assert forall|name: Seq<char>| #[trigger] self@.contains_key(name) implies self@[name]
            .metadata.name == name && call_requires(self@[name].factory, ()) by {
            let i = entry_names(self.entries@).index_of(name);
            lemma_model_at(self.entries@, i);
        }
    }

    /// A registry that holds no module is well formed.
    pub proof fn lemma_empty_wf(&self)
        requires
            self@ == Map::<Seq<char>, RegistryEntryView<F>>::empty(),
        ensures
            self.wf(),
    {
        if self.entries@.len() > 0 {
            let names = entry_names(self.entries@);
            assert(self@.contains_key(names[0]));
        }
    }

    /// An empty registry.
    pub fn new() -> (registry: Self)
        ensures
            registry.wf(),
            registry@ == Map::<Seq<char>, RegistryEntryView<F>>::empty(),
    {
        ModuleRegistry { entries: Vec::new() }
    }

    /// The registry that a list of registration records stands for. The
    /// records are entered in order with no security information, so of two
    /// records with one name the later stays.
    pub fn from_registrations(records: Vec<ModuleRegistration<F>>) -> (registry: Self)
        requires
            forall|i: int|
                0 <= i < records@.len() ==> call_requires((#[trigger] records@[i]).factory, ()),
        ensures
            registry.wf(),
            registry@ == registrations_model(records@),
    {
        let mut registry = Self::new();
        let ghost all = records@;
        for record in iter: records
            invariant
                iter.seq() == all,
                forall|i: int|
                    0 <= i < all.len() ==> call_requires((#[trigger] all[i]).factory, ()),
                registry.wf(),
                registry@ == registrations_model(all.take(iter.index() as int)),
        {
            proof {
                assert(all.take(iter.index() + 1).drop_last() =~= all.take(iter.index() as int));
            }
            registry.register_with_metadata(
                record.name,
                record.module_type,
                record.instantiate_fn_name,
                record.declaring_path,
                record.struct_name,
                record.factory,
            );
        }
        proof {
            assert(all.take(all.len() as int) =~= all);
        }
        registry
    }

    /// Where the entry of `name` stands in the store, if it is there.
    fn find(&self, name: &str) -> (found: Option<usize>)
        requires
            self.wf(),
        ensures
            match found {
                Some(i) => i < self.entries@.len() && self.entries@[i as int].metadata.name@
                    == name@ && self@.contains_key(name@) && self@[name@]
                    == self.entries@[i as int]@,
                None => !self@.contains_key(name@),
            },
    {
        let key = String::from_str(name);
        let mut i: usize = 0;
        while i < self.entries.len()
            invariant
                self.wf(),
                i <= self.entries@.len(),
                key@ == name@,
                forall|j: int| 0 <= j < i ==> (#[trigger] self.entries@[j]).metadata.name@ != name@,
            decreases self.entries@.len() - i,
        {
            if self.entries[i].metadata.name == key {
                proof {
                    lemma_model_at(self.entries@, i as int);
                }
                return Some(i);
            }
            i += 1;
        }
        proof {
            lemma_model_absent(self.entries@, name@);
        }
        None
    }

    /// Files `metadata` and `factory` under the metadata's name, in place of
    /// what was there.
    fn insert(&mut self, metadata: ModuleMetadata, factory: F)
        requires
            old(self).wf(),
            call_requires(factory, ()),
        ensures
            final(self).wf(),
            final(self)@ == with_module(old(self)@, metadata@, factory),
    {
        let found = self.find(metadata.name.as_str());
        let entry = RegistryEntry { metadata, factory };
        match found {
            Some(i) => {
                proof {
                    lemma_model_update(self.entries@, i as int, entry);
                }
                self.entries.set(i, entry);
            },
            None => {
                proof {
                    lemma_model_push(self.entries@, entry);
                }
                self.entries.push(entry);
            },
        }
    }

    /// Registers a module about which nothing but its name and type is known.
    /// A module already registered under the name is replaced.
    pub fn register(&mut self, name: &str, module_type: &str, factory: F)
        requires
            old(self).wf(),
            call_requires(factory, ()),
        ensures
            final(self).wf(),
            final(self)@ == with_module(
                old(self)@,
                ModuleMetadataView::plain(
                    name@,
                    module_type@,
                    DEFAULT_INSTANTIATE_FN_NAME@,
                    DEFAULT_DECLARING_PATH@,
                    DEFAULT_STRUCT_NAME@,
                ),
                factory,
            ),
    {
        self.register_with_metadata(
            name,
            module_type,
            DEFAULT_INSTANTIATE_FN_NAME,
            DEFAULT_DECLARING_PATH,
            DEFAULT_STRUCT_NAME,
            factory,
        );
    }

    /// Registers a module with the diagnostic names the caller supplies. A
    /// module already registered under the name is replaced.
    pub fn register_with_metadata(
        &mut self,
        name: &str,
        module_type: &str,
        instantiate_fn: &str,
        declaring_path: &str,
        struct_name: &str,
        factory: F,
    )
        requires
            old(self).wf(),
            call_requires(factory, ()),
        ensures
            final(self).wf(),
            final(self)@ == with_module(
                old(self)@,
                ModuleMetadataView::plain(
                    name@,
                    module_type@,
                    instantiate_fn@,
                    declaring_path@,
                    struct_name@,
                ),
                factory,
            ),
    {
        let metadata = ModuleMetadata::new(
            String::from_str(name),
            String::from_str(module_type),
            String::from_str(instantiate_fn),
            String::from_str(declaring_path),
            String::from_str(struct_name),
        );
        self.insert(metadata, factory);
    }

    /// Registers a module together with its security fields. Review starts as
    /// pending whatever the caller knows: approval is a later step. A module
    /// already registered under the name is replaced.
    pub fn register_secure(
        &mut self,
        name: &str,
        module_type: &str,
        factory: F,
        signature: Option<ModuleSignature>,
        permissions: ModulePermissions,
        supply_chain: Option<SupplyChainInfo>,
    )
        requires
            old(self).wf(),
            call_requires(factory, ()),
        ensures
            final(self).wf(),
            final(self)@ == with_module(
                old(self)@,
                ModuleMetadataView::secure(
                    name@,
                    module_type@,
                    DEFAULT_INSTANTIATE_FN_NAME@,
                    DEFAULT_DECLARING_PATH@,
                    DEFAULT_STRUCT_NAME@,
                    signature_view(signature),
                    permissions,
                    supply_chain_view(supply_chain),
                ),
                factory,
            ),
    {
        let metadata = ModuleMetadata::secure(
            String::from_str(name),
            String::from_str(module_type),
            String::from_str(DEFAULT_INSTANTIATE_FN_NAME),
            String::from_str(DEFAULT_DECLARING_PATH),
            String::from_str(DEFAULT_STRUCT_NAME),
            signature,
            permissions,
            supply_chain,
        );
        self.insert(metadata, factory);
    }

    /// The factory registered under `name`. Whoever shares the registry can
    /// take the factory out under a lock and call it with
    /// [`Self::construct`] after the lock is released.
    pub fn factory_of(&self, name: &str) -> (result: Result<&F, RegistryError<E>>)
        requires
            self.wf(),
        ensures
            !self@.contains_key(name@) ==> is_not_found(result, name@),
            self@.contains_key(name@) ==> hands_out(result, self@[name@].factory),
    {
        match self.find(name) {
            None => Err(RegistryError::NotFound { name: String::from_str(name) }),
            Some(i) => Ok(&self.entries[i].factory),
        }
    }

    /// Calls `factory` on behalf of the module `name`. What the factory built
    /// is handed on; where it failed, its error comes back as a construction
    /// failure that names the module.
    pub fn construct(name: &str, factory: &F) -> (result: Result<I, RegistryError<E>>)
        requires
            call_requires(*factory, ()),
        ensures
            construction_outcome(*factory, name@, result),
    {
        match factory() {
            Ok(instance) => Ok(instance),
            Err(source) => Err(
                RegistryError::ConstructionFailure { name: String::from_str(name), source },
            ),
        }
    }

    /// Builds an instance of the module `name` with the factory registered for
    /// it. Where no module of that name is registered, no factory is called.
    pub fn create_any(&self, name: &str) -> (result: Result<I, RegistryError<E>>)
        requires
            self.wf(),
        ensures
            !self@.contains_key(name@) ==> is_not_found(result, name@),
            self@.contains_key(name@) ==> construction_outcome(self@[name@].factory, name@, result),
    {
        match self.factory_of(name) {
            Err(error) => Err(error),
            Ok(factory) => Self::construct(name, factory),
        }
    }

    /// Whether a module is registered under `name`.
    pub fn has_module(&self, name: &str) -> (present: bool)
        requires
            self.wf(),
        ensures
            present == self@.contains_key(name@),
    {
        self.find(name).is_some()
    }

    /// A copy of the metadata registered under `name`.
    pub fn get_metadata(&self, name: &str) -> (metadata: Option<ModuleMetadata>)
        requires
            self.wf(),
        ensures
            match metadata {
                Some(found) => self@.contains_key(name@) && found@ == self@[name@].metadata,
                None => !self@.contains_key(name@),
            },
    {
        match self.find(name) {
            Some(i) => Some(self.entries[i].metadata.clone()),
            None => None,
        }
    }

    /// Removes every module.
    pub fn clear(&mut self)
        ensures
            final(self).wf(),
            final(self)@ == Map::<Seq<char>, RegistryEntryView<F>>::empty(),
    {
        self.entries.clear();
    }

    /// The number of registered modules.
    pub fn count(&self) -> (count: usize)
        requires
            self.wf(),
        ensures
            count == self@.len(),
    {
        proof {
            lemma_model_len(self.entries@);
        }
        self.entries.len()
    }

    /// Builds an instance of the module `name` and recovers the type the caller
    /// expects from it with `recover`. An instance that `recover` hands back as
    /// an error is reported as a type mismatch.
    pub fn create<T, R>(&self, name: &str, recover: R) -> (result: Result<T, RegistryError<E>>)
        where R: FnOnce(I) -> Result<T, I>
        requires
            self.wf(),
            forall|instance: I| call_requires(recover, (instance,)),
        ensures
            !self@.contains_key(name@) ==> is_not_found(result, name@),
            self@.contains_key(name@) ==> recovery_outcome(
                self@[name@].factory,
                recover,
                name@,
                result,
            ),
    {
        let ghost recovery = recover;
        match self.create_any(name) {
            Err(error) => Err(error),
            Ok(instance) => {
                let recovered = recover(instance);
                proof {
                    if recovered is Err {
                        assert(recovered_from(
                            self@[name@].factory,
                            recovery,
                            Err::<T, I>(recovered->Err_0),
                        ));
                    }
                }
                recovered_or_mismatch(name, recovered)
            },
        }
    }

    /// Whether the signature of the module `name` passes as of the current
    /// time.
    pub fn verify_module_signature(&self, name: &str) -> (result: Result<bool, RegistryError<E>>)
        requires
            self.wf(),
        ensures
            !self@.contains_key(name@) ==> is_not_found(result, name@),
            self@.contains_key(name@) ==> exists|now: u64|
                answers(result, signature_valid_at(self@[name@].metadata, now)),
    {
        match self.find(name) {
            None => Err(RegistryError::NotFound { name: String::from_str(name) }),
            Some(i) => {
                let now = current_unix_seconds();
                Ok(SecurityValidator::verify_signature_at(&self.entries[i].metadata, now))
            },
        }
    }

    /// Whether the module `name` holds the permission that
    /// `required_permission` names.
    pub fn check_module_permissions(&self, name: &str, required_permission: &str) -> (result:
        Result<bool, RegistryError<E>>)
        requires
            self.wf(),
        ensures
            !self@.contains_key(name@) ==> is_not_found(result, name@),
            self@.contains_key(name@) ==> answers(
                result,
                permission_granted(self@[name@].metadata.permissions, required_permission@),
            ),
    {
        match self.find(name) {
            None => Err(RegistryError::NotFound { name: String::from_str(name) }),
            Some(i) => {
                let metadata = &self.entries[i].metadata;
                Ok(SecurityValidator::check_permissions(metadata, required_permission))
            },
        }
    }

    /// Whether the module `name` passed code review.
    pub fn is_module_approved(&self, name: &str) -> (result: Result<bool, RegistryError<E>>)
        requires
            self.wf(),
        ensures
            !self@.contains_key(name@) ==> is_not_found(result, name@),
            self@.contains_key(name@) ==> answers(result, self@[name@].metadata.is_approved()),
    {
        match self.find(name) {
            None => Err(RegistryError::NotFound { name: String::from_str(name) }),
            Some(i) => Ok(SecurityValidator::is_approved(&self.entries[i].metadata)),
        }
    }

    /// Whether the provenance of the module `name` passes as of the current
    /// time.
    pub fn verify_supply_chain(&self, name: &str) -> (result: Result<bool, RegistryError<E>>)
        requires
            self.wf(),
        ensures
            !self@.contains_key(name@) ==> is_not_found(result, name@),
            self@.contains_key(name@) ==> exists|now: u64|
                answers(result, supply_chain_valid_at(self@[name@].metadata, now)),
    {
        match self.find(name) {
            None => Err(RegistryError::NotFound { name: String::from_str(name) }),
            Some(i) => {
                let now = current_unix_seconds();
                Ok(SecurityValidator::verify_supply_chain_at(&self.entries[i].metadata, now))
            },
        }
    }

    /// The factory registered under `name`, if the module passes every gate as
    /// of time `now`: signature first, then approval, then provenance. The
    /// first gate that fails decides the error.
    pub fn admitted_factory_at(&self, name: &str, now: u64) -> (result: Result<
        &F,
        RegistryError<E>,
    >)
        requires
            self.wf(),
        ensures
            !self@.contains_key(name@) ==> is_not_found(result, name@),
            self@.contains_key(name@) ==> admission_outcome(self@[name@], name@, now, result),
    {
        match self.find(name) {
            None => Err(RegistryError::NotFound { name: String::from_str(name) }),
            Some(i) => {
                match SecurityValidator::first_failed_gate_at(&self.entries[i].metadata, now) {
                    Some(SecurityGate::Signature) => Err(
                        RegistryError::SignatureInvalid { name: String::from_str(name) },
                    ),
                    Some(SecurityGate::Approval) => Err(
                        RegistryError::NotApproved { name: String::from_str(name) },
                    ),
                    Some(SecurityGate::SupplyChain) => Err(
                        RegistryError::SupplyChainUnverified { name: String::from_str(name) },
                    ),
                    None => Ok(&self.entries[i].factory),
                }
            },
        }
    }

    /// Builds an instance of the module `name` if it passes every gate as of
    /// time `now`: signature first, then approval, then provenance. The first
    /// gate that fails decides the error, and then no factory is called.
    pub fn create_secure_at(&self, name: &str, now: u64) -> (result: Result<I, RegistryError<E>>)
        requires
            self.wf(),
        ensures
            !self@.contains_key(name@) ==> is_not_found(result, name@),
            self@.contains_key(name@) ==> secure_creation_outcome(self@[name@], name@, now, result),
    {
        match self.admitted_factory_at(name, now) {
            Err(error) => Err(error),
            Ok(factory) => Self::construct(name, factory),
        }
    }

    /// Builds an instance of the module `name` if it passes every gate as of
    /// the current time. The result is that of [`Self::create_secure_at`] for
    /// the time the clock gave, whatever it was. A module without a signature
    /// fails at the signature gate, whatever else is known of it.
    pub fn create_secure(&self, name: &str) -> (result: Result<I, RegistryError<E>>)
        requires
            self.wf(),
        ensures
            !self@.contains_key(name@) ==> is_not_found(result, name@),
            self@.contains_key(name@) ==> exists|now: u64| #[trigger]
                secure_creation_outcome(self@[name@], name@, now, result),
            self@.contains_key(name@) && self@[name@].metadata.signature is None ==> fails_with(
                result,
                RegistryErrorView::SignatureInvalid { name: name@ },
            ),
    {
        let now = current_unix_seconds();
        self.create_secure_at(name, now)
    }

    /// Builds an instance of the module `name` under its declared sandbox. The
    /// sandbox is a declaration: the registry sets up no isolation, and the
    /// factory is called exactly as [`Self::create_any`] calls it.
    pub fn create_with_sandbox(&self, name: &str) -> (result: Result<I, RegistryError<E>>)
        requires
            self.wf(),
        ensures
            !self@.contains_key(name@) ==> is_not_found(result, name@),
            self@.contains_key(name@) ==> construction_outcome(self@[name@].factory, name@, result),
    {
        self.create_any(name)
    }

    /// Replaces the review status of the module `name` and nothing else.
    pub fn update_review_status(&mut self, name: &str, status: CodeReviewStatus) -> (result:
        Result<(), RegistryError<E>>)
        requires
            old(self).wf(),
        ensures
            final(self).wf(),
            !old(self)@.contains_key(name@) ==> is_not_found(result, name@) && final(self)@ == old(
                self,
            )@,
            old(self)@.contains_key(name@) ==> result is Ok && final(self)@ == with_review_status(
                old(self)@,
                name@,
                status@,
            ),
    {
        match self.find(name) {
            None => Err(RegistryError::NotFound { name: String::from_str(name) }),
            Some(i) => {
                let entry = self.entries.remove(i);
                let mut metadata = entry.metadata;
                metadata.review_status = status;
                let updated = RegistryEntry { metadata, factory: entry.factory };
                proof {
                    lemma_model_update(old(self).entries@, i as int, updated);
                    assert(self.entries@.insert(i as int, updated) =~= old(self).entries@.update(
                        i as int,
                        updated,
                    ));
                }
                self.entries.insert(i, updated);
                Ok(())
            },
        }
    }

    /// The names of all registered modules, each once, in no particular
    /// order.
    pub fn list_modules(&self) -> (names: Vec<String>)
        requires
            self.wf(),
        ensures
            strings_view(names@).no_duplicates(),
            strings_view(names@).to_set() == self@.dom(),
            names@.len() == self@.len(),
    {
        let mut names: Vec<String> = Vec::new();
        let mut i: usize = 0;
        while i < self.entries.len()
            invariant
                i <= self.entries@.len(),
                names@.len() == i,
                forall|j: int|
                    0 <= j < i ==> (#[trigger] names@[j])@ == self.entries@[j].metadata.name@,
            decreases self.entries@.len() - i,
        {
            names.push(self.entries[i].metadata.name.clone());
            i += 1;
        }
        proof {
            assert(strings_view(names@) =~= entry_names(self.entries@));
            lemma_model_len(self.entries@);
        }
        names
    }

    /// The names of all registered modules: another name for
    /// [`Self::list_modules`].
    pub fn get_module_names(&self) -> (names: Vec<String>)
        requires
            self.wf(),
        ensures
            strings_view(names@).no_duplicates(),
            strings_view(names@).to_set() == self@.dom(),
            names@.len() == self@.len(),
    {
        self.list_modules()
    }

    /// For every registered module, the report derived from its metadata.
    pub fn get_security_report(&self) -> (report: StringHashMap<SecurityReport>)
        requires
            self.wf(),
        ensures
            report@.dom() == self@.dom(),
            forall|name: Seq<char>| #[trigger]
                self@.contains_key(name) ==> report@[name]@ == SecurityReportView::of(
                    name,
                    self@[name].metadata,
                ),
    {
        let mut report: StringHashMap<SecurityReport> = StringHashMap::new();
        let mut i: usize = 0;
        while i < self.entries.len()
            invariant
                self.wf(),
                i <= self.entries@.len(),
                report@.dom() == entries_model(self.entries@.take(i as int)).dom(),
                forall|j: int|
                    0 <= j < i ==> (#[trigger] report@[self.entries@[j].metadata.name@])@
                        == SecurityReportView::of(
                        self.entries@[j].metadata.name@,
                        self.entries@[j].metadata@,
                    ),
            decreases self.entries@.len() - i,
        {
            let entry = &self.entries[i];
            proof {
                lemma_model_take_step(self.entries@, i as int);
            }
            report.insert(
                entry.metadata.name.clone(),
                SecurityReport::of(entry.metadata.name.as_str(), &entry.metadata),
            );
            i += 1;
        }
        proof {
            assert(self.entries@.take(i as int) =~= self.entries@);
            assert forall|name: Seq<char>| #[trigger] self@.contains_key(name) implies report@[
                name
            ]@ == SecurityReportView::of(name, self@[name].metadata) by {
                let j = entry_names(self.entries@).index_of(name);
                lemma_model_at(self.entries@, j);
            }
        }
        report
    }

    /// For every registered module, the result of a comprehensive check as of
    /// time `now`.
    pub fn security_audit_at(&self, now: u64) -> (audit: StringHashMap<SecurityCheckResult>)
        requires
            self.wf(),
        ensures
            is_audit_at(audit@, self@, now),
    {
        let mut audit: StringHashMap<SecurityCheckResult> = StringHashMap::new();
        let mut i: usize = 0;
        while i < self.entries.len()
            invariant
                self.wf(),
                i <= self.entries@.len(),
                audit@.dom() == entries_model(self.entries@.take(i as int)).dom(),
                forall|j: int|
                    0 <= j < i ==> (#[trigger] audit@[self.entries@[j].metadata.name@])@
                        == check_result_at(self.entries@[j].metadata@, now),
            decreases self.entries@.len() - i,
        {
            let entry = &self.entries[i];
            proof {
                lemma_model_take_step(self.entries@, i as int);
            }
            audit.insert(
                entry.metadata.name.clone(),
                SecurityValidator::comprehensive_check_at(&entry.metadata, now),
            );
            i += 1;
        }
        proof {
            assert(self.entries@.take(i as int) =~= self.entries@);
            assert forall|name: Seq<char>| #[trigger] self@.contains_key(name) implies audit@[name]@
                == check_result_at(self@[name].metadata, now) by {
                let j = entry_names(self.entries@).index_of(name);
                lemma_model_at(self.entries@, j);
            }
        }
        audit
    }

    /// For every registered module, the result of a comprehensive check. All
    /// checks of one audit are made as of one reading of the clock: the result
    /// is that of [`Self::security_audit_at`] for the time the clock gave,
    /// whatever it was.
    pub fn security_audit(&self) -> (audit: StringHashMap<SecurityCheckResult>)
        requires
            self.wf(),
        ensures
            exists|now: u64| is_audit_at(audit@, self@, now),
    {
        let now = current_unix_seconds();
        self.security_audit_at(now)
    }
}

impl<F> Default for ModuleRegistry<F> {
    /// An empty registry. That it is well formed is
    /// [`ModuleRegistry::lemma_empty_wf`].
    fn default() -> (registry: Self)
        ensures
            registry@ == Map::<Seq<char>, RegistryEntryView<F>>::empty(),
    {
        ModuleRegistry { entries: Vec::new() }
    }
}

} // verus!
