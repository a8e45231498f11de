//! A small frame harness for GPU rendering: tasks grouped into stages, a lazily
//! filled resource registry, and the decisions of the per-frame loop, each with
//! a machine-checked contract.

use crate::gpu::{starts_frame, Gpu};
use crate::resource::{Resource, Resources};
use crate::stage::store::{
    frame_step, stages_load_into, stages_update_into, FrameAction, FrameEvent, FramePhase, Stages,
};
use crate::stage::task::executor::renders_into;
use crate::stage::task::Task;
use crate::stage::StageView;
use vstd::prelude::*;

pub mod collections;
pub mod error;
pub mod gpu;
pub mod resolution;
pub mod resource;
pub mod stage;
pub mod window;

verus! {

/// The stages of an application and, once there is one, the `Gpu` that they
/// draw with, together with the phase of the frame that is being drawn.
pub struct Renderer<T: Task, C, D, R> {
    gpu: Option<Gpu<D, R>>,
    stages: Stages<T, C>,
    phase: FramePhase,
}

impl<D, R: Resource<D>, T: Task<Context = D, Registry = Resources<D, R>>, C> Renderer<T, C, D, R> {
    /// The `Gpu`, once the renderer is initialized.
    pub closed spec fn gpu_view(&self) -> Option<Gpu<D, R>> {
        self.gpu
    }

    /// The stages, first to last.
    pub closed spec fn stages_view(&self) -> Seq<StageView<T, C>> {
        self.stages@
    }

    /// The phase of the frame that is being drawn.
    pub closed spec fn phase(&self) -> FramePhase {
        self.phase
    }

    /// A renderer without stages that waits for its `Gpu`.
    pub fn new() -> (renderer: Self)
        ensures
            renderer.gpu_view().is_none(),
            renderer.stages_view() == Seq::<StageView<T, C>>::empty(),
            renderer.phase() == FramePhase::Idle,
    {
        Renderer { gpu: None, stages: Stages::new(), phase: FramePhase::Idle }
    }

    /// Nothing that a caller can see differs between the two renderers.
    pub open spec fn same_as(&self, other: &Self) -> bool {
        &&& self.gpu_view() == other.gpu_view()
        &&& self.stages_view() == other.stages_view()
        &&& self.phase() == other.phase()
    }

    /// `after` and `action` are what one step of a frame makes of `self` and
    /// `event`. Without a `Gpu` the event is dropped. With one, the frame
    /// moves on by one step; the step that starts a frame has first updated
    /// the live tasks of every stage, and no other step touches a task.
    pub open spec fn steps_to(&self, event: FrameEvent, after: &Self, action: FrameAction) -> bool {
        if self.gpu_view().is_none() {
            action == FrameAction::Nothing && after.same_as(self)
        } else {
            let gpu = self.gpu_view().unwrap();
            let gpu_after = after.gpu_view().unwrap();
            &&& after.gpu_view().is_some()
            &&& (after.phase(), action) == frame_step(
                self.stages_view().len() as int,
                self.phase(),
                event,
            )
            &&& gpu_after.surface_view() == gpu.surface_view()
            &&& gpu_after.resources_view() == gpu.resources_view()
            &&& starts_frame(self.phase(), event) ==> stages_update_into::<T, C>(
                self.stages_view(),
                gpu.device_view(),
                after.stages_view(),
                gpu_after.device_view(),
            )
            &&& !starts_frame(self.phase(), event) ==> after.stages_view() == self.stages_view()
                && gpu_after.device_view() == gpu.device_view()
        }
    }

    /// One step of drawing a frame; see `Stages::render` for the steps. Before
    /// the renderer is initialized there is nothing to draw with: the event is
    /// dropped and nothing changes.
    pub fn draw_frame(&mut self, event: FrameEvent) -> (action: FrameAction)
        ensures
            old(self).steps_to(event, final(self), action),
    {
        match &mut self.gpu {
            Some(gpu) => {
                let next = gpu.render(&mut self.stages, self.phase, event);
                self.phase = next.0;
                next.1
            },
            None => FrameAction::Nothing,
        }
    }

    /// Takes the `Gpu` and builds the queued tasks of every stage with it.
    pub fn initialize(&mut self, gpu: Gpu<D, R>)
        ensures
            final(self).gpu_view().is_some(),
            final(self).gpu_view().unwrap().device_view() == gpu.device_view(),
            final(self).gpu_view().unwrap().surface_view() == gpu.surface_view(),
            stages_load_into::<T, C>(
                old(self).stages_view(),
                gpu.device_view(),
                gpu.resources_view(),
                final(self).stages_view(),
                final(self).gpu_view().unwrap().resources_view(),
            ),
            final(self).phase() == old(self).phase(),
    {
        let mut gpu = gpu;
        let parts = gpu.borrow_mut();
        self.stages.initialize(parts.0, parts.2);
        self.gpu = Some(gpu);
    }

    pub fn is_initialized(&self) -> (initialized: bool)
        ensures
            initialized == self.gpu_view().is_some(),
    {
        self.gpu.is_some()
    }

    pub fn get_gpu(&self) -> (gpu: Option<&Gpu<D, R>>)
        ensures
            gpu.is_some() == self.gpu_view().is_some(),
            gpu.is_some() ==> *gpu.unwrap() == self.gpu_view().unwrap(),
    {
        self.gpu.as_ref()
    }

    /// The `Gpu` of a renderer that is initialized.
    pub fn gpu(&self) -> (gpu: &Gpu<D, R>)
        requires
            self.gpu_view().is_some(),
        ensures
            *gpu == self.gpu_view().unwrap(),
    {
        self.gpu.as_ref().unwrap()
    }

    pub fn get_gpu_mut(&mut self) -> (gpu: Option<&mut Gpu<D, R>>)
        ensures
            gpu.is_some() == old(self).gpu_view().is_some(),
            final(self).stages_view() == old(self).stages_view(),
            final(self).phase() == old(self).phase(),
            match gpu {
                Some(gpu) => *gpu == old(self).gpu_view().unwrap() && final(self).gpu_view()
                    == Some(*final(gpu)),
                None => final(self).gpu_view().is_none(),
            },
    {
        self.gpu.as_mut()
    }

    /// The `Gpu` of a renderer that is initialized, to be changed in place.
    pub fn gpu_mut(&mut self) -> (gpu: &mut Gpu<D, R>)
        requires
            old(self).gpu_view().is_some(),
        ensures
            *gpu == old(self).gpu_view().unwrap(),
            final(self).gpu_view() == Some(*final(gpu)),
            final(self).stages_view() == old(self).stages_view(),
            final(self).phase() == old(self).phase(),
    {
        self.gpu.as_mut().unwrap()
    }

    pub fn stages(&self) -> (stages: &Stages<T, C>)
        ensures
            stages@ == self.stages_view(),
    {
        &self.stages
    }

    pub fn stages_mut(&mut self) -> (stages: &mut Stages<T, C>)
        ensures
            stages@ == old(self).stages_view(),
            final(self).stages_view() == final(stages)@,
            final(self).gpu_view() == old(self).gpu_view(),
            final(self).phase() == old(self).phase(),
    {
        &mut self.stages
    }

    /// Lets the stage with this index record into its pass, which the caller
    /// has opened with that stage's clear colour.
    pub fn render_stage(&self, index: usize, pass: &mut T::Pass)
        requires
            self.gpu_view().is_some(),
            index < self.stages_view().len(),
        ensures
            renders_into::<T>(
                self.stages_view()[index as int].tasks.active,
                self.gpu_view().unwrap().device_view(),
                *old(pass),
                *final(pass),
            ),
    {
        let gpu = self.gpu.as_ref().unwrap();
        self.stages.render_stage(index, gpu.device(), pass);
    }
}

impl<D, R: Resource<D>, T: Task<Context = D, Registry = Resources<D, R>>, C> Default for Renderer<
    T,
    C,
    D,
    R,
> {
    fn default() -> (renderer: Self)
        ensures
            renderer.gpu_view().is_none(),
            renderer.stages_view() == Seq::<StageView<T, C>>::empty(),
            renderer.phase() == FramePhase::Idle,
    {
        Renderer::new()
    }
}

} // verus!
