//! Tasks: the units of per-frame behaviour that a stage runs.

use vstd::prelude::*;

pub mod constructor;
pub mod executor;

verus! {

/// A unit of per-frame behaviour, implemented by the users of the library.
///
/// A task is built once from a recipe, then updated and rendered every frame.
/// The three relations say what an implementation promises of each operation;
/// the executor's contracts are stated over them, so whatever is proved of a
/// frame holds of every implementation that keeps its own promises.
pub trait Task: Sized {
    /// What a constructor keeps until the context exists.
    type Recipe;

    /// What all tasks share while they run: device, queue and the like.
    type Context;

    /// The registry of shared resources that construction may fill.
    type Registry;

    /// The open render pass that commands are recorded into.
    type Pass;

    /// What holds of a task built from `recipe`, and of the registry after it.
    /// An implementation that does not say promises nothing.
    open spec fn constructed(
        recipe: Self::Recipe,
        context: Self::Context,
        registry: Self::Registry,
        task: Self,
        registry_after: Self::Registry,
    ) -> bool {
        true
    }

    /// What holds of the task and the context after one update.
    /// An implementation that does not say promises nothing.
    open spec fn updated(
        self,
        context: Self::Context,
        after: Self,
        context_after: Self::Context,
    ) -> bool {
        true
    }

    /// What holds of the pass after the task has recorded its commands.
    /// An implementation that does not say promises nothing.
    open spec fn rendered(
        self,
        context: Self::Context,
        pass: Self::Pass,
        pass_after: Self::Pass,
    ) -> bool {
        true
    }

    fn new(recipe: &Self::Recipe, context: &Self::Context, registry: &mut Self::Registry) -> (task:
        Self)
        ensures
            Self::constructed(*recipe, *context, *old(registry), task, *final(registry)),
    ;

    fn update(&mut self, context: &mut Self::Context)
        ensures
            old(self).updated(*old(context), *final(self), *final(context)),
    ;

    fn render(&self, context: &Self::Context, pass: &mut Self::Pass)
        ensures
            self.rendered(*context, *old(pass), *final(pass)),
    ;
}

} // verus!
