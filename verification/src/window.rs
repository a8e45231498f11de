//! What the renderer does with the events of its window.

use crate::gpu::surface::SurfaceConfiguration;
use crate::resolution::Extent;
use crate::resource::{Resource, Resources};
use crate::stage::store::{FrameAction, FrameEvent};
use crate::stage::task::constructor::TaskConstructor;
use crate::stage::task::executor::ExecutorView;
use crate::stage::task::Task;
use crate::stage::{Stage, StageView};
use crate::Renderer;
use vstd::prelude::*;

verus! {

/// What an application does between frames.
pub trait App {
    fn update(&mut self);
}

impl App for () {
    fn update(&mut self) {
    }
}

/// The events of a window, as far as the renderer tells them apart.
#[derive(Clone, Copy, Debug, PartialEq, Eq, Structural)]
pub enum WindowEvent {
    /// The window has this size now.
    Resized(Extent),
    CloseRequested,
    Destroyed,
    RedrawRequested,
    /// Any other event.
    Other,
}

/// What the event loop is to do after an event.
#[derive(Clone, Copy, Debug, PartialEq, Eq, Structural)]
pub enum WindowCommand {
    /// Nothing.
    Nothing,
    /// Configure the surface with this before anything else is drawn.
    Configure(SurfaceConfiguration),
    /// Leave the event loop.
    Exit,
    /// A frame has started: do this, hand what comes of it to `draw_frame`
    /// until that answers `Nothing`, then ask for the next redraw.
    Frame(FrameAction),
}

/// `config` with the size of `size`, and nothing else changed.
pub open spec fn with_size(config: SurfaceConfiguration, size: Extent) -> SurfaceConfiguration {
    SurfaceConfiguration { width: size.width, height: size.height, ..config }
}

/// The configuration of the surface after one event: a resize changes width
/// and height, no other event changes anything.
pub open spec fn resized(config: SurfaceConfiguration, event: WindowEvent) -> SurfaceConfiguration {
    match event {
        WindowEvent::Resized(size) => with_size(config, size),
        _ => config,
    }
}

/// The configuration of the surface after `events`, first to last.
pub open spec fn configuration_after(
    config: SurfaceConfiguration,
    events: Seq<WindowEvent>,
) -> SurfaceConfiguration
    decreases events.len(),
{
    if events.len() == 0 {
        config
    } else {
        resized(configuration_after(config, events.drop_last()), events.last())
    }
}

/// The size of the last resize among `events`, if there was one.
pub open spec fn latest_resize(events: Seq<WindowEvent>) -> Option<Extent>
    decreases events.len(),
{
    if events.len() == 0 {
        None
    } else {
        match events.last() {
            WindowEvent::Resized(size) => Some(size),
            _ => latest_resize(events.drop_last()),
        }
    }
}

/// Whatever events came before a frame, the frame is drawn with the size of
/// the latest resize among them, or with the first configuration if the
/// window was never resized; format and modes never change.
pub proof fn lemma_frame_sees_latest_resize(config: SurfaceConfiguration, events: Seq<WindowEvent>)
    ensures
        configuration_after(config, events) == match latest_resize(events) {
            Some(size) => with_size(config, size),
            None => config,
        },
    decreases events.len(),
{
    if events.len() > 0 {
        lemma_frame_sees_latest_resize(config, events.drop_last());
    }
}

/// Whether the renderer of `after` is the one of `before` with its surface
/// resized by `event`, and nothing else changed.
pub open spec fn surface_resized<
    D,
    R: Resource<D>,
    T: Task<Context = D, Registry = Resources<D, R>>,
    C,
>(before: &Renderer<T, C, D, R>, event: WindowEvent, after: &Renderer<T, C, D, R>) -> bool {
    let gpu = before.gpu_view().unwrap();
    let gpu_after = after.gpu_view().unwrap();
    &&& after.gpu_view().is_some()
    &&& gpu_after.surface_view()@ == resized(gpu.surface_view()@, event)
    &&& gpu_after.device_view() == gpu.device_view()
    &&& gpu_after.resources_view() == gpu.resources_view()
    &&& after.stages_view() == before.stages_view()
    &&& after.phase() == before.phase()
}

/// Reacts to one event of the window. A resize goes to the surface, a redraw
/// request starts a frame, a close or a destroyed window ends the loop, and
/// every other event is ignored.
pub fn window_event<D, R: Resource<D>, T: Task<Context = D, Registry = Resources<D, R>>, C>(
    renderer: &mut Renderer<T, C, D, R>,
    event: WindowEvent,
) -> (command: WindowCommand)
    requires
        event is Resized ==> old(renderer).gpu_view().is_some(),
    ensures
        match event {
            WindowEvent::Resized(size) => {
                &&& surface_resized(old(renderer), event, final(renderer))
                &&& command == WindowCommand::Configure(
                    final(renderer).gpu_view().unwrap().surface_view()@,
                )
            },
            WindowEvent::CloseRequested | WindowEvent::Destroyed => {
                &&& command == WindowCommand::Exit
                &&& final(renderer).same_as(old(renderer))
            },
            WindowEvent::RedrawRequested => exists|action: FrameAction|
                {
                    &&& command == WindowCommand::Frame(action)
                    &&& old(renderer).steps_to(FrameEvent::Redraw, final(renderer), action)
                },
            WindowEvent::Other => {
                &&& command == WindowCommand::Nothing
                &&& final(renderer).same_as(old(renderer))
            },
        },
{
    match event {
        WindowEvent::Resized(size) => {
            let config = renderer.gpu_mut().surface_mut().resize(size);
            WindowCommand::Configure(config)
        },
        WindowEvent::CloseRequested | WindowEvent::Destroyed => WindowCommand::Exit,
        WindowEvent::RedrawRequested => {
            let action = renderer.draw_frame(FrameEvent::Redraw);
            WindowCommand::Frame(action)
        },
        WindowEvent::Other => WindowCommand::Nothing,
    }
}

/// An application in the making: the renderer and the stages it will draw,
/// declared before there is a window.
pub struct RenderApp<T: Task, C, D, R> {
    renderer: Renderer<T, C, D, R>,
}

impl<D, R: Resource<D>, T: Task<Context = D, Registry = Resources<D, R>>, C> RenderApp<T, C, D, R> {
    /// The stages declared so far, first to last.
    pub closed spec fn stages_view(&self) -> Seq<StageView<T, C>> {
        self.renderer.stages_view()
    }

    /// Whether the renderer inside has its `Gpu`.
    pub closed spec fn is_initialized(&self) -> bool {
        self.renderer.gpu_view().is_some()
    }

    /// An application without stages.
    pub fn stateless() -> (app: Self)
        ensures
            app.stages_view() == Seq::<StageView<T, C>>::empty(),
            !app.is_initialized(),
    {
        RenderApp { renderer: Renderer::new() }
    }

    /// The same with one more stage, which clears to `clear_color` and has
    /// one task queued, to be built from `recipe`.
    pub fn with_stage_task(self, clear_color: C, recipe: T::Recipe) -> (app: Self)
        ensures
            app.is_initialized() == self.is_initialized(),
            exists|constructor: TaskConstructor<T>|
                constructor.recipe() == recipe && app.stages_view() == self.stages_view().push(
                    StageView {
                        clear_color,
                        tasks: ExecutorView::<T>::idle().queue(constructor),
                    },
                ),
    {
        let stage = Stage::new(clear_color).with_task(recipe);
        self.with_stage(stage)
    }

    /// The same with `stage` behind the stages that are there.
    pub fn with_stage(self, stage: Stage<T, C>) -> (app: Self)
        ensures
            app.is_initialized() == self.is_initialized(),
            app.stages_view() == self.stages_view().push(stage@),
    {
        let mut app = self;
        app.renderer.stages_mut().add_stage(stage);
        app
    }

    /// The renderer, to run it.
    pub fn into_renderer(self) -> (renderer: Renderer<T, C, D, R>)
        ensures
            renderer.stages_view() == self.stages_view(),
            renderer.gpu_view().is_some() == self.is_initialized(),
    {
        self.renderer
    }
}

} // verus!
