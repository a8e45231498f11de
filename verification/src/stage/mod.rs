//! Stages: one render pass's worth of tasks, with the colour the pass starts from.

use crate::stage::task::constructor::TaskConstructor;
use crate::stage::task::executor::{loads_into, renders_into, updates_into, ExecutorView, TaskExecutor};
use crate::stage::task::Task;
use vstd::prelude::*;

pub mod store;
pub mod task;

verus! {

/// What a stage holds: its clear colour and what its executor holds.
pub struct StageView<T: Task, C> {
    pub clear_color: C,
    pub tasks: ExecutorView<T>,
}

/// One render pass: the tasks that draw into it and the colour that the
/// attachment is cleared to before they do.
pub struct Stage<T: Task, C> {
    clear_color: C,
    task_executor: TaskExecutor<T>,
}

impl<T: Task, C> View for Stage<T, C> {
    type V = StageView<T, C>;

    closed spec fn view(&self) -> StageView<T, C> {
        StageView { clear_color: self.clear_color, tasks: self.task_executor@ }
    }
}

impl<T: Task, C> Stage<T, C> {
    /// A stage without tasks that clears to `clear_color`.
    pub fn new(clear_color: C) -> (stage: Self)
        ensures
            stage@.clear_color == clear_color,
            stage@.tasks == ExecutorView::<T>::idle(),
    {
        Stage { clear_color, task_executor: TaskExecutor::new() }
    }

    /// The same stage, clearing to `clear_color`.
    pub fn with_clear_color(self, clear_color: C) -> (stage: Self)
        ensures
            stage@.clear_color == clear_color,
            stage@.tasks == self@.tasks,
    {
        Stage { clear_color, task_executor: self.task_executor }
    }

    /// The same stage with one more task queued, to be built from `recipe`.
    pub fn with_task(self, recipe: T::Recipe) -> (stage: Self)
        ensures
            stage@.clear_color == self@.clear_color,
            exists|constructor: TaskConstructor<T>|
                constructor.recipe() == recipe && stage@.tasks == self@.tasks.queue(constructor),
    {
        let mut stage = self;
        stage.task_executor.queue_task(recipe);
        stage
    }

    /// The colour that the pass is cleared to.
    pub fn clear_color(&self) -> (color: &C)
        ensures
            *color == self@.clear_color,
    {
        &self.clear_color
    }

    /// How many tasks wait to be built.
    pub fn pending_count(&self) -> (n: usize)
        ensures
            n == self@.tasks.pending.len(),
    {
        self.task_executor.pending_count()
    }

    /// How many tasks are live.
    pub fn active_count(&self) -> (n: usize)
        ensures
            n == self@.tasks.active.len(),
    {
        self.task_executor.active_count()
    }

    /// Lets the live tasks record into the pass, which the caller has opened
    /// with this stage's clear colour.
    pub fn render(&self, context: &T::Context, pass: &mut T::Pass)
        ensures
            renders_into::<T>(self@.tasks.active, *context, *old(pass), *final(pass)),
    {
        self.task_executor.render_active_tasks(context, pass);
    }

    /// Builds the queued tasks, now that there is a context.
    pub fn initialize(&mut self, context: &T::Context, registry: &mut T::Registry)
        ensures
            final(self)@.clear_color == old(self)@.clear_color,
            loads_into::<T>(
                old(self)@.tasks,
                *context,
                *old(registry),
                final(self)@.tasks,
                *final(registry),
            ),
    {
        self.task_executor.load_pending_tasks(context, registry);
    }

    /// Updates the live tasks.
    pub fn update(&mut self, context: &mut T::Context)
        ensures
            final(self)@.clear_color == old(self)@.clear_color,
            final(self)@.tasks.pending == old(self)@.tasks.pending,
            updates_into::<T>(
                old(self)@.tasks.active,
                *old(context),
                final(self)@.tasks.active,
                *final(context),
            ),
    {
        self.task_executor.update_active_tasks(context);
    }
}

impl<T: Task, C: Default> Default for Stage<T, C> {
    /// A stage without tasks that clears to the default colour.
    fn default() -> (stage: Self)
        ensures
            stage@.tasks == ExecutorView::<T>::idle(),
    {
        Stage::new(C::default())
    }
}

} // verus!
