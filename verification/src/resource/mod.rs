//! The registry of shared resources: each is made on first use and kept.

use crate::collections::type_map::TypeMap;
use vstd::prelude::*;

pub mod shaders;

verus! {

/// What can be kept in a registry: a value that can be made from the device
/// alone. `id` says which resource is wanted, where one type stands for
/// several.
pub trait Resource<D>: Sized {
    /// What holds of the resource that `create` makes for `id`.
    /// An implementation that does not say promises nothing.
    open spec fn created(id: u64, device: D, resource: Self) -> bool {
        true
    }

    fn create(id: u64, device: &D) -> (resource: Self)
        ensures
            Self::created(id, *device, resource),
    ;
}

/// The registry after the resource `id` was asked for, where `resource` is what
/// the caller got: one that was there is kept, and only a missing one is added.
pub open spec fn looked_up<R>(before: Map<u64, R>, id: u64, resource: R) -> Map<u64, R> {
    if before.contains_key(id) {
        before
    } else {
        before.insert(id, resource)
    }
}

/// What a caller gets who asks for `id`: the resource that is there, or else
/// the one that was just made.
pub open spec fn found<R>(before: Map<u64, R>, id: u64, made: R) -> R {
    if before.contains_key(id) {
        before[id]
    } else {
        made
    }
}

/// A registry of resources, at most one under each id, each made from the
/// registry's device when it is first asked for.
pub struct Resources<D, R> {
    device: D,
    type_map: TypeMap<R>,
}

impl<D, R> View for Resources<D, R> {
    type V = Map<u64, R>;

    closed spec fn view(&self) -> Map<u64, R> {
        self.type_map@
    }
}

impl<D, R: Resource<D>> Resources<D, R> {
    /// The device that the resources are made from.
    pub closed spec fn device(&self) -> D {
        self.device
    }

    /// The registry for `device`, with nothing in it.
    pub fn new(device: D) -> (resources: Self)
        ensures
            resources.device() == device,
            resources@ == Map::<u64, R>::empty(),
    {
        Resources { device, type_map: TypeMap::new() }
    }

    /// Whether the resource `id` has been made.
    pub fn contains(&self, id: u64) -> (present: bool)
        ensures
            present == self@.contains_key(id),
    {
        self.type_map.contains_id(id)
    }

    /// The resource `id`. It is made now if this is the first time that it is
    /// asked for; otherwise nothing is made and nothing changes.
    pub fn get(&mut self, id: u64) -> (resource: &R)
        ensures
            final(self).device() == old(self).device(),
            final(self)@ == looked_up(old(self)@, id, *resource),
            *resource == found(old(self)@, id, *resource),
            !old(self)@.contains_key(id) ==> R::created(id, old(self).device(), *resource),
    {
        if !self.type_map.contains_id(id) {
            let made = R::create(id, &self.device);
            self.type_map.set_by_id(id, made);
        }
        self.type_map.require(id)
    }

    /// The resource `id`, to be changed in place. It is made now if this is
    /// the first time that it is asked for.
    pub fn get_mut(&mut self, id: u64) -> (resource: &mut R)
        ensures
            final(self).device() == old(self).device(),
            *resource == found(old(self)@, id, *resource),
            !old(self)@.contains_key(id) ==> R::created(id, old(self).device(), *resource),
            final(self)@ =~= old(self)@.insert(id, *final(resource)),
    {
        if !self.type_map.contains_id(id) {
            let made = R::create(id, &self.device);
            self.type_map.set_by_id(id, made);
        }
        self.type_map.require_mut(id)
    }
}

/// Asking twice for the same resource, with nothing changed in between, gives
/// the same resource both times: the second call makes nothing, whatever it
/// could have made, and leaves the registry as the first call left it.
pub proof fn lemma_second_get_is_first<R>(before: Map<u64, R>, id: u64, first: R, second: R)
    requires
        first == found(before, id, first),
    ensures
        found(looked_up(before, id, first), id, second) == first,
        looked_up(looked_up(before, id, first), id, second) == looked_up(before, id, first),
        looked_up(before, id, first).contains_key(id),
{
}

/// A resource that is in the registry stays what it is through every later
/// `get`, of its own id or of another.
pub proof fn lemma_get_keeps_what_is_there<R>(before: Map<u64, R>, kept: u64, id: u64, made: R)
    requires
        before.contains_key(kept),
    ensures
        looked_up(before, id, made).contains_key(kept),
        looked_up(before, id, made)[kept] == before[kept],
{
}

} // verus!
