//! The executor: pending constructors, active tasks, and the frame's calls.

use crate::stage::task::constructor::TaskConstructor;
use crate::stage::task::Task;
use vstd::prelude::*;

verus! {

/// `tasks` were built from `recipes`, one after the other, each seeing the
/// registry as the one before it left it: `registries[i]` is the registry
/// before the `i`-th construction and `registries[i + 1]` the one after it.
pub open spec fn built_in_order<T: Task>(
    recipes: Seq<T::Recipe>,
    context: T::Context,
    registries: Seq<T::Registry>,
    tasks: Seq<T>,
) -> bool {
    &&& registries.len() == recipes.len() + 1
    &&& tasks.len() == recipes.len()
    &&& forall|i: int|
        #![trigger tasks[i]]
        0 <= i < recipes.len() ==> T::constructed(
            recipes[i],
            context,
            registries[i],
            tasks[i],
            registries[i + 1],
        )
}

/// `before` were updated into `after`, one after the other, each seeing the
/// context as the one before it left it.
pub open spec fn updated_in_order<T: Task>(
    before: Seq<T>,
    contexts: Seq<T::Context>,
    after: Seq<T>,
) -> bool {
    &&& contexts.len() == before.len() + 1
    &&& after.len() == before.len()
    &&& forall|i: int|
        #![trigger after[i]]
        0 <= i < before.len() ==> before[i].updated(contexts[i], after[i], contexts[i + 1])
}

/// `tasks` recorded into one pass, one after the other: `passes[i]` is the
/// pass before the `i`-th task recorded and `passes[i + 1]` the one after.
pub open spec fn rendered_in_order<T: Task>(
    tasks: Seq<T>,
    context: T::Context,
    passes: Seq<T::Pass>,
) -> bool {
    &&& passes.len() == tasks.len() + 1
    &&& forall|i: int|
        #![trigger tasks[i]]
        0 <= i < tasks.len() ==> tasks[i].rendered(context, passes[i], passes[i + 1])
}

/// Loading took an executor from `before` to `after` and the registry from
/// `registry` to `registry_after`: every pending constructor built its task,
/// oldest first, and the tasks went behind the live ones in that order.
pub open spec fn loads_into<T: Task>(
    before: ExecutorView<T>,
    context: T::Context,
    registry: T::Registry,
    after: ExecutorView<T>,
    registry_after: T::Registry,
) -> bool {
    exists|registries: Seq<T::Registry>, built: Seq<T>|
        {
            &&& #[trigger] built_in_order::<T>(recipes_of(before.pending), context, registries, built)
            &&& registries.first() == registry
            &&& registries.last() == registry_after
            &&& after == before.load(built)
        }
}

/// One round of updates took the live tasks from `before` to `after` and the
/// context from `context` to `context_after`, oldest task first.
pub open spec fn updates_into<T: Task>(
    before: Seq<T>,
    context: T::Context,
    after: Seq<T>,
    context_after: T::Context,
) -> bool {
    exists|contexts: Seq<T::Context>|
        {
            &&& #[trigger] updated_in_order::<T>(before, contexts, after)
            &&& contexts.first() == context
            &&& contexts.last() == context_after
        }
}

/// The live tasks recorded into the pass, oldest first, and took it from
/// `pass` to `pass_after`.
pub open spec fn renders_into<T: Task>(
    tasks: Seq<T>,
    context: T::Context,
    pass: T::Pass,
    pass_after: T::Pass,
) -> bool {
    exists|passes: Seq<T::Pass>|
        {
            &&& #[trigger] rendered_in_order::<T>(tasks, context, passes)
            &&& passes.first() == pass
            &&& passes.last() == pass_after
        }
}

/// The recipes of a sequence of constructors, in the same order.
pub open spec fn recipes_of<T: Task>(constructors: Seq<TaskConstructor<T>>) -> Seq<T::Recipe> {
    Seq::new(constructors.len(), |i: int| constructors[i].recipe())
}

/// What an executor holds: the queued constructors, oldest first, and the
/// live tasks, in the order in which they were built.
pub struct ExecutorView<T: Task> {
    pub pending: Seq<TaskConstructor<T>>,
    pub active: Seq<T>,
}

impl<T: Task> ExecutorView<T> {
    /// Nothing queued, nothing live.
    pub open spec fn idle() -> Self {
        ExecutorView { pending: Seq::empty(), active: Seq::empty() }
    }

    /// After `constructor` was queued.
    pub open spec fn queue(self, constructor: TaskConstructor<T>) -> Self {
        ExecutorView { pending: self.pending.push(constructor), active: self.active }
    }

    /// After `constructors` were queued one by one, first to last.
    pub open spec fn queue_all(self, constructors: Seq<TaskConstructor<T>>) -> Self
        decreases constructors.len(),
    {
        if constructors.len() == 0 {
            self
        } else {
            self.queue_all(constructors.drop_last()).queue(constructors.last())
        }
    }

    /// After the pending constructors were loaded and built `built`.
    pub open spec fn load(self, built: Seq<T>) -> Self {
        ExecutorView { pending: Seq::empty(), active: self.active + built }
    }

    /// After the live tasks were dropped.
    pub open spec fn remove_active(self) -> Self {
        ExecutorView { pending: self.pending, active: Seq::empty() }
    }

    /// After the queue was emptied.
    pub open spec fn remove_pending(self) -> Self {
        ExecutorView { pending: Seq::empty(), active: self.active }
    }

    /// After both were emptied.
    pub open spec fn remove_all(self) -> Self {
        self.remove_active().remove_pending()
    }
}

/// Owns the constructors that wait for a context and the tasks built so far.
pub struct TaskExecutor<T: Task> {
    constructors: Vec<TaskConstructor<T>>,
    tasks: Vec<T>,
}

impl<T: Task> View for TaskExecutor<T> {
    type V = ExecutorView<T>;

    closed spec fn view(&self) -> ExecutorView<T> {
        ExecutorView { pending: self.constructors@, active: self.tasks@ }
    }
}

impl<T: Task> TaskExecutor<T> {
    /// The queued constructors, oldest first.
    pub open spec fn pending(&self) -> Seq<TaskConstructor<T>> {
        self@.pending
    }

    /// The live tasks, in the order in which they were built.
    pub open spec fn active(&self) -> Seq<T> {
        self@.active
    }

    /// An executor with nothing queued and nothing active.
    pub fn new() -> (executor: Self)
        ensures
            executor@ == ExecutorView::<T>::idle(),
    {
        let executor = TaskExecutor { constructors: Vec::new(), tasks: Vec::new() };
        assert(executor@.pending =~= Seq::empty() && executor@.active =~= Seq::empty());
        executor
    }

    pub fn pending_count(&self) -> (n: usize)
        ensures
            n == self.pending().len(),
    {
        self.constructors.len()
    }

    pub fn active_count(&self) -> (n: usize)
        ensures
            n == self.active().len(),
    {
        self.tasks.len()
    }

    /// Builds a task from every pending constructor, oldest first, appends
    /// them to the active tasks in that order and empties the queue.
    pub fn load_pending_tasks(&mut self, context: &T::Context, registry: &mut T::Registry)
        ensures
            final(self).active().len() == old(self).active().len() + old(self).pending().len(),
            old(self).pending().len() == 0 ==> final(self)@ == old(self)@ && *final(registry)
                == *old(registry),
            loads_into::<T>(old(self)@, *context, *old(registry), final(self)@, *final(registry)),
    {
        let ghost mut registries: Seq<T::Registry> = seq![*registry];
        let ghost mut built: Seq<T> = Seq::empty();
        let n: usize = self.constructors.len();
        let mut i: usize = 0;
        while i < n
            invariant
                i <= n,
                self.constructors@ == old(self).constructors@,
                n == self.constructors@.len(),
                self.tasks@ == old(self).tasks@ + built,
                old(self)@.pending == old(self).constructors@,
                old(self)@.active == old(self).tasks@,
                built.len() == i,
                registries.len() == i + 1,
                registries[0] == *old(registry),
                registries[i as int] == *registry,
                forall|j: int|
                    #![trigger built[j]]
                    0 <= j < i ==> T::constructed(
                        self.constructors@[j].recipe(),
                        *context,
                        registries[j],
                        built[j],
                        registries[j + 1],
                    ),
            decreases n - i,
        {
            let task = self.constructors[i].build(context, registry);
            proof {
                registries = registries.push(*registry);
                built = built.push(task);
            }
            self.tasks.push(task);
            i += 1;
        }
        self.constructors.clear();
        proof {
            assert(built_in_order::<T>(
                recipes_of(old(self).pending()),
                *context,
                registries,
                built,
            ));
            assert(self@.pending =~= Seq::empty());
            assert(self@ == old(self)@.load(built));
            if old(self).pending().len() == 0 {
                assert(self@.active =~= old(self)@.active);
                assert(self@.pending =~= old(self)@.pending);
            }
        }
    }

    /// Puts a constructor at the end of the queue.
    pub fn queue_task_constructor(&mut self, constructor: TaskConstructor<T>)
        ensures
            final(self)@ == old(self)@.queue(constructor),
    {
        self.constructors.push(constructor);
    }

    /// Queues a constructor made from `recipe`.
    pub fn queue_task(&mut self, recipe: T::Recipe)
        ensures
            exists|constructor: TaskConstructor<T>|
                constructor.recipe() == recipe && final(self)@ == old(self)@.queue(constructor),
    {
        let constructor = TaskConstructor::new(recipe);
        self.queue_task_constructor(constructor);
    }

    /// Updates every active task, oldest first.
    pub fn update_active_tasks(&mut self, context: &mut T::Context)
        ensures
            final(self).pending() == old(self).pending(),
            final(self).active().len() == old(self).active().len(),
            updates_into::<T>(
                old(self).active(),
                *old(context),
                final(self).active(),
                *final(context),
            ),
    {
        let ghost mut contexts: Seq<T::Context> = seq![*context];
        let n: usize = self.tasks.len();
        let mut i: usize = 0;
        while i < n
            invariant
                i <= n,
                self.constructors@ == old(self).constructors@,
                n == self.tasks@.len(),
                n == old(self).tasks@.len(),
                contexts.len() == i + 1,
                contexts[0] == *old(context),
                contexts[i as int] == *context,
                forall|j: int| i <= j < n ==> self.tasks@[j] == old(self).tasks@[j],
                forall|j: int|
                    #![trigger self.tasks@[j]]
                    0 <= j < i ==> old(self).tasks@[j].updated(
                        contexts[j],
                        self.tasks@[j],
                        contexts[j + 1],
                    ),
            decreases n - i,
        {
            self.tasks[i].update(context);
            proof {
                contexts = contexts.push(*context);
            }
            i += 1;
        }
        proof {
            assert(updated_in_order::<T>(old(self).active(), contexts, self.active()));
        }
    }

    /// Lets every active task record into the open pass, oldest first.
    pub fn render_active_tasks(&self, context: &T::Context, pass: &mut T::Pass)
        ensures
            renders_into::<T>(self.active(), *context, *old(pass), *final(pass)),
    {
        let ghost mut passes: Seq<T::Pass> = seq![*pass];
        let n: usize = self.tasks.len();
        let mut i: usize = 0;
        while i < n
            invariant
                i <= n,
                n == self.tasks@.len(),
                passes.len() == i + 1,
                passes[0] == *old(pass),
                passes[i as int] == *pass,
                forall|j: int|
                    #![trigger self.tasks@[j]]
                    0 <= j < i ==> self.tasks@[j].rendered(*context, passes[j], passes[j + 1]),
            decreases n - i,
        {
            self.tasks[i].render(context, pass);
            proof {
                passes = passes.push(*pass);
            }
            i += 1;
        }
        proof {
            assert(rendered_in_order::<T>(self.active(), *context, passes));
        }
    }

    /// Drops every active task and keeps the queue.
    pub fn remove_active_tasks(&mut self)
        ensures
            final(self)@ == old(self)@.remove_active(),
    {
        self.tasks.clear();
        assert(self@.active =~= Seq::empty());
    }

    /// Empties the queue and keeps the active tasks.
    pub fn remove_pending_tasks(&mut self)
        ensures
            final(self)@ == old(self)@.remove_pending(),
    {
        self.constructors.clear();
        assert(self@.pending =~= Seq::empty());
    }

    /// Drops every active task and empties the queue.
    pub fn remove_all_tasks(&mut self)
        ensures
            final(self)@ == old(self)@.remove_all(),
    {
        self.remove_active_tasks();
        self.remove_pending_tasks();
    }
}

impl<T: Task> Default for TaskExecutor<T> {
    fn default() -> (executor: Self)
        ensures
            executor@ == ExecutorView::<T>::idle(),
    {
        TaskExecutor::new()
    }
}

/// Queueing constructors one by one puts them behind what was queued before,
/// in the order in which they came.
pub proof fn lemma_queue_all_appends<T: Task>(
    before: ExecutorView<T>,
    constructors: Seq<TaskConstructor<T>>,
)
    ensures
        before.queue_all(constructors).pending == before.pending + constructors,
        before.queue_all(constructors).active == before.active,
    decreases constructors.len(),
{
    if constructors.len() == 0 {
        assert(before.pending + constructors =~= before.pending);
    } else {
        lemma_queue_all_appends(before, constructors.drop_last());
        assert(before.pending + constructors =~= (before.pending
            + constructors.drop_last()).push(constructors.last()));
    }
}

/// After any number of constructors were queued on an idle executor and the
/// pending tasks were loaded once, there is exactly one live task for each
/// constructor, and nothing is pending.
pub proof fn lemma_load_after_queueing<T: Task>(
    constructors: Seq<TaskConstructor<T>>,
    built: Seq<T>,
)
    requires
        built.len() == constructors.len(),
    ensures
        ExecutorView::<T>::idle().queue_all(constructors).load(built).active.len()
            == constructors.len(),
        ExecutorView::<T>::idle().queue_all(constructors).load(built).pending.len() == 0,
{
    lemma_queue_all_appends(ExecutorView::<T>::idle(), constructors);
}

/// Loading with nothing pending builds nothing and changes nothing.
pub proof fn lemma_load_of_nothing<T: Task>(before: ExecutorView<T>, built: Seq<T>)
    requires
        before.pending.len() == 0,
        built.len() == before.pending.len(),
    ensures
        before.load(built) == before,
{
    assert(before.active + built =~= before.active);
    assert(before.pending =~= Seq::empty());
}

/// Removing all tasks leaves nothing pending and nothing live, whatever ran
/// before; loading then changes nothing, until a constructor is queued: the
/// next load after that builds exactly one task.
pub proof fn lemma_remove_all_then_load<T: Task>(
    before: ExecutorView<T>,
    constructor: TaskConstructor<T>,
    built: Seq<T>,
)
    requires
        built.len() == 1,
    ensures
        before.remove_all() == ExecutorView::<T>::idle(),
        before.remove_all().load(Seq::empty()) == before.remove_all(),
        before.remove_all().queue(constructor).load(built).active.len() == 1,
        before.remove_all().queue(constructor).load(built).pending.len() == 0,
{
    assert(Seq::<T>::empty() + Seq::<T>::empty() =~= Seq::<T>::empty());
}

} // verus!
