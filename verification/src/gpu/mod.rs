//! What a renderer owns once it is initialized: the device, the surface and
//! the registry of shared resources.

use crate::gpu::surface::Surface;
use crate::resource::{Resource, Resources};
use crate::stage::store::{
    frame_step, stages_update_into, FrameAction, FrameEvent, FramePhase, Stages,
};
use crate::stage::task::Task;
use vstd::prelude::*;

pub mod device;
pub mod surface;

verus! {

/// Whether this step is the one that starts a frame.
pub open spec fn starts_frame(phase: FramePhase, event: FrameEvent) -> bool {
    phase == FramePhase::Idle && event == FrameEvent::Redraw
}

/// The device handle, the surface's state and the registry, kept together.
pub struct Gpu<D, R> {
    device: D,
    surface: Surface,
    resources: Resources<D, R>,
}

impl<D, R: Resource<D>> Gpu<D, R> {
    /// The device handle.
    pub closed spec fn device_view(&self) -> D {
        self.device
    }

    /// The surface's state.
    pub closed spec fn surface_view(&self) -> Surface {
        self.surface
    }

    /// The registry.
    pub closed spec fn resources_view(&self) -> Resources<D, R> {
        self.resources
    }

    pub fn new(device: D, surface: Surface, resources: Resources<D, R>) -> (gpu: Self)
        ensures
            gpu.device_view() == device,
            gpu.surface_view() == surface,
            gpu.resources_view() == resources,
    {
        Gpu { device, surface, resources }
    }

    /// All three parts at once, the surface and the registry to be changed.
    pub fn borrow_mut(&mut self) -> (parts: (&D, &mut Surface, &mut Resources<D, R>))
        ensures
            *parts.0 == old(self).device_view(),
            *parts.1 == old(self).surface_view(),
            *parts.2 == old(self).resources_view(),
            final(self).device_view() == old(self).device_view(),
            final(self).surface_view() == *final(parts.1),
            final(self).resources_view() == *final(parts.2),
    {
        (&self.device, &mut self.surface, &mut self.resources)
    }

    pub fn device(&self) -> (device: &D)
        ensures
            *device == self.device_view(),
    {
        &self.device
    }

    pub fn surface(&self) -> (surface: &Surface)
        ensures
            *surface == self.surface_view(),
    {
        &self.surface
    }

    pub fn surface_mut(&mut self) -> (surface: &mut Surface)
        ensures
            *surface == old(self).surface_view(),
            final(self).surface_view() == *final(surface),
            final(self).device_view() == old(self).device_view(),
            final(self).resources_view() == old(self).resources_view(),
    {
        &mut self.surface
    }

    pub fn res(&self) -> (resources: &Resources<D, R>)
        ensures
            *resources == self.resources_view(),
    {
        &self.resources
    }

    /// One step of drawing a frame. The step that starts a frame first
    /// updates the live tasks of every stage; no other step touches a task.
    pub fn render<T: Task<Context = D>, C>(
        &mut self,
        stages: &mut Stages<T, C>,
        phase: FramePhase,
        event: FrameEvent,
    ) -> (next: (FramePhase, FrameAction))
        ensures
            next == frame_step(old(stages)@.len() as int, phase, event),
            final(self).surface_view() == old(self).surface_view(),
            final(self).resources_view() == old(self).resources_view(),
            starts_frame(phase, event) ==> stages_update_into::<T, C>(
                old(stages)@,
                old(self).device_view(),
                final(stages)@,
                final(self).device_view(),
            ),
            !starts_frame(phase, event) ==> final(stages)@ == old(stages)@,
            !starts_frame(phase, event) ==> final(self).device_view() == old(self).device_view(),
    {
        if phase == FramePhase::Idle && event == FrameEvent::Redraw {
            stages.update(&mut self.device);
        }
        stages.render(phase, event)
    }

    pub fn res_mut(&mut self) -> (resources: &mut Resources<D, R>)
        ensures
            *resources == old(self).resources_view(),
            final(self).resources_view() == *final(resources),
            final(self).device_view() == old(self).device_view(),
            final(self).surface_view() == old(self).surface_view(),
    {
        &mut self.resources
    }
}

} // verus!
