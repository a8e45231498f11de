//! Shader modules by name, shared by the tasks through the registry.

use crate::resource::Resource;
use std::sync::Arc;
use vstd::prelude::*;

verus! {

/// The hash table of the shader store: for each name, the slot of its module.
#[verifier::external_body]
pub struct NameIndex {
    inner: hashbrown::HashMap<String, usize>,
}

/// What a `NameIndex` holds: the slot of each name in it.
pub uninterp spec fn name_entries(index: NameIndex) -> Map<Seq<char>, usize>;

/// The index with no name in it.
pub open spec fn no_names() -> Map<Seq<char>, usize> {
    Map::empty()
}

/// The slot of `name` in `entries`, if it has one.
pub open spec fn slot_of(entries: Map<Seq<char>, usize>, name: Seq<char>) -> Option<usize> {
    if entries.contains_key(name) {
        Some(entries[name])
    } else {
        None
    }
}

/// `hashbrown::HashMap::new`: the new table holds nothing.
#[verifier::external_body]
fn names_new() -> (index: NameIndex)
    ensures
        name_entries(index) == no_names(),
{
    NameIndex { inner: hashbrown::HashMap::new() }
}

/// `hashbrown::HashMap::insert`: afterwards `name` has `slot`, every other
/// name what it had, and the slot that `name` had before is returned.
#[verifier::external_body]
fn names_insert(index: &mut NameIndex, name: String, slot: usize) -> (previous: Option<usize>)
    ensures
        name_entries(*final(index)) == name_entries(*old(index)).insert(name@, slot),
        previous == slot_of(name_entries(*old(index)), name@),
{
    index.inner.insert(name, slot)
}

/// `hashbrown::HashMap::get`: the slot of `name`, or `None` where the table
/// does not hold `name`.
#[verifier::external_body]
fn names_get(index: &NameIndex, name: &str) -> (slot: Option<usize>)
    ensures
        slot == slot_of(name_entries(*index), name@),
{
    index.inner.get(name).copied()
}

/// `Arc::clone`: another handle to the same value.
#[verifier::external_body]
fn share<M>(module: &Arc<M>) -> (shared: Arc<M>)
    ensures
        shared == *module,
{
    Arc::clone(module)
}

/// Modules by name. The modules lie in `modules`; `index` says which slot
/// belongs to which name.
pub struct ModuleTable<M> {
    index: NameIndex,
    modules: Vec<Arc<M>>,
}

impl<M> View for ModuleTable<M> {
    type V = Map<Seq<char>, M>;

    closed spec fn view(&self) -> Map<Seq<char>, M> {
        Map::new(
            |name: Seq<char>| name_entries(self.index).contains_key(name),
            |name: Seq<char>| *self.modules@[name_entries(self.index)[name] as int],
        )
    }
}

impl<M> ModuleTable<M> {
    /// Every name has a slot that exists, and no two names share one.
    #[verifier::type_invariant]
    closed spec fn slots_match(&self) -> bool {
        let entries = name_entries(self.index);
        &&& forall|name: Seq<char>| #[trigger]
            entries.contains_key(name) ==> entries[name] < self.modules@.len()
        &&& forall|a: Seq<char>, b: Seq<char>|
            entries.contains_key(a) && entries.contains_key(b) && a != b ==> #[trigger] entries[a]
                != #[trigger] entries[b]
    }

    /// The table without modules.
    pub fn new() -> (table: Self)
        ensures
            table@ == Map::<Seq<char>, M>::empty(),
    {
        let table = ModuleTable { index: names_new(), modules: Vec::new() };
        assert(table@ =~= Map::<Seq<char>, M>::empty());
        table
    }

    /// A handle to the module called `name`, if there is one.
    pub fn get(&self, name: &str) -> (module: Option<Arc<M>>)
        ensures
            module.is_some() == self@.contains_key(name@),
            module.is_some() ==> *module.unwrap() == self@[name@],
    {
        proof {
            use_type_invariant(self);
        }
        match names_get(&self.index, name) {
            Some(slot) => Some(share(&self.modules[slot])),
            None => None,
        }
    }

    /// Puts `module` under `name`, in place of what was there, and returns a
    /// handle to it.
    pub fn insert(&mut self, name: String, module: M) -> (handle: Arc<M>)
        ensures
            final(self)@ == old(self)@.insert(name@, module),
            *handle == module,
    {
        let mut taken = ModuleTable { index: names_new(), modules: Vec::new() };
        core::mem::swap(self, &mut taken);
        proof {
            use_type_invariant(&taken);
        }
        let ModuleTable { mut index, mut modules } = taken;
        let handle = Arc::new(module);
        let shared = share(&handle);
        match names_get(&index, name.as_str()) {
            Some(slot) => {
                modules[slot] = handle;
            },
            None => {
                let slot = modules.len();
                modules.push(handle);
                names_insert(&mut index, name, slot);
            },
        }
        *self = ModuleTable { index, modules };
        assert(self@ =~= old(self)@.insert(name@, module));
        shared
    }
}

/// The shader modules of one device, by name.
pub struct Shaders<D, M> {
    device: D,
    module_map: ModuleTable<M>,
}

impl<D, M> View for Shaders<D, M> {
    type V = Map<Seq<char>, M>;

    closed spec fn view(&self) -> Map<Seq<char>, M> {
        self.module_map@
    }
}

impl<D, M> Shaders<D, M> {
    /// The device that the modules belong to.
    pub closed spec fn device_view(&self) -> D {
        self.device
    }

    /// The store for `device`, without modules.
    pub fn new(device: D) -> (shaders: Self)
        ensures
            shaders@ == Map::<Seq<char>, M>::empty(),
            shaders.device_view() == device,
    {
        Shaders { device, module_map: ModuleTable::new() }
    }

    /// The device that the modules belong to.
    pub fn device(&self) -> (device: &D)
        ensures
            *device == self.device_view(),
    {
        &self.device
    }

    /// A handle to the module called `name`, if there is one.
    pub fn get_module(&self, name: &str) -> (module: Option<Arc<M>>)
        ensures
            module.is_some() == self@.contains_key(name@),
            module.is_some() ==> *module.unwrap() == self@[name@],
    {
        self.module_map.get(name)
    }

    /// A handle to the module called `name`, which the caller says is there.
    pub fn module(&self, name: &str) -> (module: Arc<M>)
        requires
            self@.contains_key(name@),
        ensures
            *module == self@[name@],
    {
        self.get_module(name).unwrap()
    }

    /// Puts `shader` under `name`, in place of what was there, and returns a
    /// handle to it.
    pub fn insert(&mut self, name: String, shader: M) -> (handle: Arc<M>)
        ensures
            final(self)@ == old(self)@.insert(name@, shader),
            final(self).device_view() == old(self).device_view(),
            *handle == shader,
    {
        self.module_map.insert(name, shader)
    }
}

impl<D: Clone, M> Resource<D> for Shaders<D, M> {
    /// A store that was just made has no modules.
    open spec fn created(id: u64, device: D, resource: Self) -> bool {
        resource@ == Map::<Seq<char>, M>::empty()
    }

    fn create(id: u64, device: &D) -> (resource: Self) {
        Shaders::new(device.clone())
    }
}

} // verus!
