//! The stage store: the stages of a frame in the order in which they are
//! drawn, and the steps of drawing one frame.

use crate::stage::task::executor::{loads_into, renders_into, updates_into};
use crate::stage::task::Task;
use crate::stage::{Stage, StageView};
use vstd::prelude::*;

verus! {

/// Every stage loaded its pending tasks, first stage first, each seeing the
/// registry as the stage before it left it.
pub open spec fn stages_loaded<T: Task, C>(
    before: Seq<StageView<T, C>>,
    context: T::Context,
    registries: Seq<T::Registry>,
    after: Seq<StageView<T, C>>,
) -> bool {
    &&& registries.len() == before.len() + 1
    &&& after.len() == before.len()
    &&& forall|i: int|
        #![trigger after[i]]
        0 <= i < before.len() ==> after[i].clear_color == before[i].clear_color && loads_into::<T>(
            before[i].tasks,
            context,
            registries[i],
            after[i].tasks,
            registries[i + 1],
        )
}

/// Every stage updated its live tasks, first stage first, each seeing the
/// context as the stage before it left it.
pub open spec fn stages_updated<T: Task, C>(
    before: Seq<StageView<T, C>>,
    contexts: Seq<T::Context>,
    after: Seq<StageView<T, C>>,
) -> bool {
    &&& contexts.len() == before.len() + 1
    &&& after.len() == before.len()
    &&& forall|i: int|
        #![trigger after[i]]
        0 <= i < before.len() ==> {
            &&& after[i].clear_color == before[i].clear_color
            &&& after[i].tasks.pending == before[i].tasks.pending
            &&& updates_into::<T>(
                before[i].tasks.active,
                contexts[i],
                after[i].tasks.active,
                contexts[i + 1],
            )
        }
}

/// Initializing took the stages from `before` to `after` and the registry
/// from `registry` to `registry_after`.
pub open spec fn stages_load_into<T: Task, C>(
    before: Seq<StageView<T, C>>,
    context: T::Context,
    registry: T::Registry,
    after: Seq<StageView<T, C>>,
    registry_after: T::Registry,
) -> bool {
    exists|registries: Seq<T::Registry>|
        {
            &&& #[trigger] stages_loaded::<T, C>(before, context, registries, after)
            &&& registries.first() == registry
            &&& registries.last() == registry_after
        }
}

/// One round of updates took the stages from `before` to `after` and the
/// context from `context` to `context_after`.
pub open spec fn stages_update_into<T: Task, C>(
    before: Seq<StageView<T, C>>,
    context: T::Context,
    after: Seq<StageView<T, C>>,
    context_after: T::Context,
) -> bool {
    exists|contexts: Seq<T::Context>|
        {
            &&& #[trigger] stages_updated::<T, C>(before, contexts, after)
            &&& contexts.first() == context
            &&& contexts.last() == context_after
        }
}

/// How far the drawing of a frame has come.
#[derive(Clone, Copy, Debug, PartialEq, Eq, Structural)]
pub enum FramePhase {
    /// No frame is being drawn.
    Idle,
    /// The frame's texture was asked for.
    Acquiring,
    /// The pass of the stage with this index is open.
    Recording(usize),
    /// The commands of all passes were handed in.
    Submitting,
    /// The finished texture was handed to the screen.
    Presenting,
}

/// What happened outside since the last step.
#[derive(Clone, Copy, Debug, PartialEq, Eq, Structural)]
pub enum FrameEvent {
    /// A frame is wanted.
    Redraw,
    /// The texture is there, and an encoder is open for the frame.
    Acquired,
    /// No texture could be had this time.
    AcquireFailed,
    /// The open pass was recorded and closed.
    PassClosed,
    /// The commands were submitted.
    Submitted,
    /// The texture was presented.
    Presented,
}

/// What is to be done outside next.
#[derive(Clone, Copy, Debug, PartialEq, Eq, Structural)]
pub enum FrameAction {
    /// Nothing: the frame is over, was given up, or the event came out of turn.
    Nothing,
    /// Acquire the frame's texture and open one encoder.
    Acquire,
    /// Open a pass over the frame's texture that clears to the colour of the
    /// stage with this index, let that stage render into it, and close it.
    Pass(usize),
    /// Submit the one command buffer of the frame.
    Submit,
    /// Present the texture.
    Present,
}

/// What follows when a pass may start and `stage` is the next stage in line:
/// its pass, or the submission if no stage is left.
pub open spec fn pass_or_submit(stages: int, stage: int) -> (FramePhase, FrameAction) {
    if 0 <= stage < stages && stage <= usize::MAX {
        (FramePhase::Recording(stage as usize), FrameAction::Pass(stage as usize))
    } else {
        (FramePhase::Submitting, FrameAction::Submit)
    }
}

/// One step of a frame over `stages` stages: the next phase and what to do.
/// An event that does not belong to the phase changes nothing.
pub open spec fn frame_step(stages: int, phase: FramePhase, event: FrameEvent) -> (
    FramePhase,
    FrameAction,
) {
    match (phase, event) {
        (FramePhase::Idle, FrameEvent::Redraw) => (FramePhase::Acquiring, FrameAction::Acquire),
        (FramePhase::Acquiring, FrameEvent::Acquired) => pass_or_submit(stages, 0),
        (FramePhase::Acquiring, FrameEvent::AcquireFailed) => (
            FramePhase::Idle,
            FrameAction::Nothing,
        ),
        (FramePhase::Recording(stage), FrameEvent::PassClosed) => pass_or_submit(
            stages,
            stage + 1,
        ),
        (FramePhase::Submitting, FrameEvent::Submitted) => (
            FramePhase::Presenting,
            FrameAction::Present,
        ),
        (FramePhase::Presenting, FrameEvent::Presented) => (
            FramePhase::Idle,
            FrameAction::Nothing,
        ),
        _ => (phase, FrameAction::Nothing),
    }
}

/// The phase that a frame is in after `events`, if it was in `start` before.
pub open spec fn frame_run(stages: int, start: FramePhase, events: Seq<FrameEvent>) -> FramePhase
    decreases events.len(),
{
    if events.len() == 0 {
        start
    } else {
        frame_step(stages, frame_run(stages, start, events.drop_last()), events.last()).0
    }
}

/// The events of a frame over `stages` stages in which nothing fails.
pub open spec fn smooth_frame(stages: int) -> Seq<FrameEvent> {
    Seq::new(
        (stages + 4) as nat,
        |k: int|
            if k == 0 {
                FrameEvent::Redraw
            } else if k == 1 {
                FrameEvent::Acquired
            } else if k < stages + 2 {
                FrameEvent::PassClosed
            } else if k == stages + 2 {
                FrameEvent::Submitted
            } else {
                FrameEvent::Presented
            },
    )
}

/// What is done in such a frame: one texture is acquired, every stage gets
/// its pass, first stage first, then comes one submission and one present.
pub open spec fn frame_plan(stages: int) -> Seq<FrameAction> {
    Seq::new(
        (stages + 4) as nat,
        |k: int|
            if k == 0 {
                FrameAction::Acquire
            } else if k <= stages {
                FrameAction::Pass((k - 1) as usize)
            } else if k == stages + 1 {
                FrameAction::Submit
            } else if k == stages + 2 {
                FrameAction::Present
            } else {
                FrameAction::Nothing
            },
    )
}

/// The phase of such a frame before its `k`-th event.
pub open spec fn smooth_phase(stages: int, k: int) -> FramePhase {
    if k == 0 || k == stages + 4 {
        FramePhase::Idle
    } else if k == 1 {
        FramePhase::Acquiring
    } else if k < stages + 2 {
        FramePhase::Recording((k - 2) as usize)
    } else if k == stages + 2 {
        FramePhase::Submitting
    } else {
        FramePhase::Presenting
    }
}

/// In a frame in which nothing fails, the steps answer the events with
/// exactly the plan: the pass of a stage opens only when the pass of the stage
/// before it has closed, the submission follows the last pass, and after the
/// present the store is idle again.
pub proof fn lemma_smooth_frame_follows_plan(stages: int, k: int)
    requires
        0 <= stages <= usize::MAX,
        0 <= k < stages + 4,
    ensures
        frame_run(stages, FramePhase::Idle, smooth_frame(stages).take(k)) == smooth_phase(
            stages,
            k,
        ),
        frame_step(stages, smooth_phase(stages, k), smooth_frame(stages)[k]) == (
            smooth_phase(stages, k + 1),
            frame_plan(stages)[k],
        ),
    decreases k,
{
    let events = smooth_frame(stages);
    if k > 0 {
        lemma_smooth_frame_follows_plan(stages, k - 1);
        assert(events.take(k).drop_last() =~= events.take(k - 1));
        assert(events.take(k).last() == events[k - 1]);
    }
}

/// A frame whose texture cannot be had is given up: nothing is recorded,
/// submitted or presented, and the store is idle again, ready for the next.
pub proof fn lemma_failed_acquire_abandons_frame(stages: int)
    ensures
        frame_step(stages, FramePhase::Idle, FrameEvent::Redraw) == (
            FramePhase::Acquiring,
            FrameAction::Acquire,
        ),
        frame_step(stages, FramePhase::Acquiring, FrameEvent::AcquireFailed) == (
            FramePhase::Idle,
            FrameAction::Nothing,
        ),
{
}

/// Passes cannot overlap or change places: a step opens the pass of a stage
/// only on the acquired texture, for the first stage, or when the pass of the
/// stage just before it has closed.
pub proof fn lemma_pass_follows_its_predecessor(
    stages: int,
    phase: FramePhase,
    event: FrameEvent,
    stage: usize,
)
    requires
        frame_step(stages, phase, event).1 == FrameAction::Pass(stage),
    ensures
        stage < stages,
        frame_step(stages, phase, event).0 == FramePhase::Recording(stage),
        stage == 0 ==> phase == FramePhase::Acquiring && event == FrameEvent::Acquired,
        stage > 0 ==> phase == FramePhase::Recording((stage - 1) as usize) && event
            == FrameEvent::PassClosed,
{
}

/// The stages of a frame, in the order in which their passes are drawn:
/// a later stage paints over an earlier one.
pub struct Stages<T: Task, C> {
    vec: Vec<Stage<T, C>>,
}

impl<T: Task, C> View for Stages<T, C> {
    type V = Seq<StageView<T, C>>;

    closed spec fn view(&self) -> Seq<StageView<T, C>> {
        Seq::new(self.vec@.len(), |i: int| self.vec@[i]@)
    }
}

impl<T: Task, C> Stages<T, C> {
    /// A store without stages.
    pub fn new() -> (stages: Self)
        ensures
            stages@ == Seq::<StageView<T, C>>::empty(),
    {
        let stages = Stages { vec: Vec::new() };
        assert(stages@ =~= Seq::<StageView<T, C>>::empty());
        stages
    }

    /// Puts `stage` behind the stages that are there.
    pub fn add_stage(&mut self, stage: Stage<T, C>)
        ensures
            final(self)@ == old(self)@.push(stage@),
    {
        self.vec.push(stage);
        assert(self@ =~= old(self)@.push(stage@));
    }

    /// How many stages there are.
    pub fn len(&self) -> (n: usize)
        ensures
            n == self@.len(),
    {
        self.vec.len()
    }

    /// The stage with this index.
    pub fn stage(&self, index: usize) -> (stage: &Stage<T, C>)
        requires
            index < self@.len(),
        ensures
            stage@ == self@[index as int],
    {
        &self.vec[index]
    }

    /// Builds the queued tasks of every stage, first stage first.
    pub fn initialize(&mut self, context: &T::Context, registry: &mut T::Registry)
        ensures
            stages_load_into::<T, C>(
                old(self)@,
                *context,
                *old(registry),
                final(self)@,
                *final(registry),
            ),
    {
        let ghost mut registries: Seq<T::Registry> = seq![*registry];
        let n: usize = self.vec.len();
        let mut i: usize = 0;
        while i < n
            invariant
                i <= n,
                n == self.vec@.len(),
                n == old(self).vec@.len(),
                registries.len() == i + 1,
                registries[0] == *old(registry),
                registries[i as int] == *registry,
                forall|j: int| i <= j < n ==> self.vec@[j] == old(self).vec@[j],
                forall|j: int|
                    #![trigger self.vec@[j]]
                    0 <= j < i ==> self.vec@[j]@.clear_color == old(self).vec@[j]@.clear_color
                        && loads_into::<T>(
                        old(self).vec@[j]@.tasks,
                        *context,
                        registries[j],
                        self.vec@[j]@.tasks,
                        registries[j + 1],
                    ),
            decreases n - i,
        {
            self.vec[i].initialize(context, registry);
            proof {
                registries = registries.push(*registry);
            }
            i += 1;
        }
        proof {
            assert(stages_loaded::<T, C>(old(self)@, *context, registries, self@));
        }
    }

    /// Updates the live tasks of every stage, first stage first.
    pub fn update(&mut self, context: &mut T::Context)
        ensures
            stages_update_into::<T, C>(old(self)@, *old(context), final(self)@, *final(context)),
    {
        let ghost mut contexts: Seq<T::Context> = seq![*context];
        let n: usize = self.vec.len();
        let mut i: usize = 0;
        while i < n
            invariant
                i <= n,
                n == self.vec@.len(),
                n == old(self).vec@.len(),
                contexts.len() == i + 1,
                contexts[0] == *old(context),
                contexts[i as int] == *context,
                forall|j: int| i <= j < n ==> self.vec@[j] == old(self).vec@[j],
                forall|j: int|
                    #![trigger self.vec@[j]]
                    0 <= j < i ==> {
                        &&& self.vec@[j]@.clear_color == old(self).vec@[j]@.clear_color
                        &&& self.vec@[j]@.tasks.pending == old(self).vec@[j]@.tasks.pending
                        &&& updates_into::<T>(
                            old(self).vec@[j]@.tasks.active,
                            contexts[j],
                            self.vec@[j]@.tasks.active,
                            contexts[j + 1],
                        )
                    },
            decreases n - i,
        {
            self.vec[i].update(context);
            proof {
                contexts = contexts.push(*context);
            }
            i += 1;
        }
        proof {
            assert(stages_updated::<T, C>(old(self)@, contexts, self@));
        }
    }

    /// Lets the stage with this index record into its pass, which the caller
    /// has opened with that stage's clear colour.
    pub fn render_stage(&self, index: usize, context: &T::Context, pass: &mut T::Pass)
        requires
            index < self@.len(),
        ensures
            renders_into::<T>(self@[index as int].tasks.active, *context, *old(pass), *final(pass)),
    {
        self.vec[index].render(context, pass);
    }

    /// One step of drawing a frame: given what happened outside, the next
    /// phase and what is to be done outside next.
    pub fn render(&self, phase: FramePhase, event: FrameEvent) -> (next: (FramePhase, FrameAction))
        ensures
            next == frame_step(self@.len() as int, phase, event),
    {
        let n: usize = self.vec.len();
        match (phase, event) {
            (FramePhase::Idle, FrameEvent::Redraw) => (FramePhase::Acquiring, FrameAction::Acquire),
            (FramePhase::Acquiring, FrameEvent::Acquired) => {
                if n > 0 {
                    (FramePhase::Recording(0), FrameAction::Pass(0))
                } else {
                    (FramePhase::Submitting, FrameAction::Submit)
                }
            },
            (FramePhase::Acquiring, FrameEvent::AcquireFailed) => (
                FramePhase::Idle,
                FrameAction::Nothing,
            ),
            (FramePhase::Recording(stage), FrameEvent::PassClosed) => {
                if stage < n && stage + 1 < n {
                    (FramePhase::Recording(stage + 1), FrameAction::Pass(stage + 1))
                } else {
                    (FramePhase::Submitting, FrameAction::Submit)
                }
            },
            (FramePhase::Submitting, FrameEvent::Submitted) => (
                FramePhase::Presenting,
                FrameAction::Present,
            ),
            (FramePhase::Presenting, FrameEvent::Presented) => (
                FramePhase::Idle,
                FrameAction::Nothing,
            ),
            _ => (phase, FrameAction::Nothing),
        }
    }
}

impl<T: Task, C> Default for Stages<T, C> {
    fn default() -> (stages: Self)
        ensures
            stages@ == Seq::<StageView<T, C>>::empty(),
    {
        Stages::new()
    }
}

/// What a pass does with its attachment when it starts.
pub enum LoadOp<C> {
    /// Clears it to this colour.
    Clear(C),
    /// Keeps what is there.
    Load,
}

/// What a pass does with its attachment when it ends.
#[derive(Clone, Copy, Debug, PartialEq, Eq, Structural)]
pub enum StoreOp {
    /// Keeps what was drawn.
    Store,
    /// Throws it away.
    Discard,
}

/// What a pass does with its attachment at both ends.
pub struct Operations<C> {
    pub load: LoadOp<C>,
    pub store: StoreOp,
}

/// The operations of a stage's pass: clear to `color` first, keep what was
/// drawn at the end.
pub fn clear_color<C>(color: C) -> (operations: Operations<C>)
    ensures
        operations.load == LoadOp::Clear(color),
        operations.store == StoreOp::Store,
{
    Operations { load: LoadOp::Clear(color), store: StoreOp::Store }
}

} // verus!
