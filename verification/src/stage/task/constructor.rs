//! Deferred construction: how to build a task, kept until a context exists.

use crate::stage::task::Task;
use vstd::prelude::*;

verus! {

/// A factory for one task. It can be made and queued before any context
/// exists, and is used when the executor loads its pending tasks.
pub struct TaskConstructor<T: Task> {
    recipe: T::Recipe,
}

impl<T: Task> TaskConstructor<T> {
    /// The recipe that `build` hands to the task.
    pub closed spec fn recipe(&self) -> T::Recipe {
        self.recipe
    }

    pub fn new(recipe: T::Recipe) -> (constructor: Self)
        ensures
            constructor.recipe() == recipe,
    {
        TaskConstructor { recipe }
    }

    /// Builds the task. The constructor is left as it was and can build again.
    pub fn build(&self, context: &T::Context, registry: &mut T::Registry) -> (task: T)
        ensures
            T::constructed(self.recipe(), *context, *old(registry), task, *final(registry)),
    {
        construct::<T>(&self.recipe, context, registry)
    }
}

/// Builds a task of type `T` from its recipe.
pub fn construct<T: Task>(recipe: &T::Recipe, context: &T::Context, registry: &mut T::Registry) -> (task:
    T)
    ensures
        T::constructed(*recipe, *context, *old(registry), task, *final(registry)),
{
    T::new(recipe, context, registry)
}

} // verus!
