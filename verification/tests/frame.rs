use dyngpu::error::Error;
use dyngpu::gpu::surface::{
    choose_format, Surface, SurfaceCapabilities, SurfaceConfiguration, TextureUsages,
};
use dyngpu::gpu::Gpu;
use dyngpu::resolution::Extent;
use dyngpu::resource::{Resource, Resources};
use dyngpu::stage::store::{
    clear_color, FrameAction, FrameEvent, FramePhase, LoadOp, Stages, StoreOp,
};
use dyngpu::stage::task::Task;
use dyngpu::stage::Stage;
use dyngpu::window::{window_event, App, RenderApp, WindowCommand, WindowEvent};
use dyngpu::Renderer;

#[derive(Clone, Copy, Debug, PartialEq)]
enum Paint {
    Red,
    Blue,
    Green,
}

/// The device of the painters: the updates made so far.
struct Bench {
    updates: Vec<u32>,
}

/// Nothing is shared among the painters but a number.
struct Shelf(u64);

impl Resource<Bench> for Shelf {
    fn create(id: u64, _device: &Bench) -> Shelf {
        Shelf(id)
    }
}

/// What a pass looks like: the colour it was cleared to and who drew on it.
struct Canvas {
    cleared_to: Paint,
    drawn: Vec<u32>,
}

struct Painter {
    name: u32,
}

impl Task for Painter {
    type Recipe = u32;
    type Context = Bench;
    type Registry = Resources<Bench, Shelf>;
    type Pass = Canvas;

    fn new(recipe: &u32, _context: &Bench, registry: &mut Resources<Bench, Shelf>) -> Self {
        registry.get(u64::from(*recipe));
        Painter { name: *recipe }
    }

    fn update(&mut self, context: &mut Bench) {
        context.updates.push(self.name);
    }

    fn render(&self, _context: &Bench, pass: &mut Canvas) {
        pass.drawn.push(self.name);
    }
}

fn capabilities(formats_srgb: Vec<bool>) -> SurfaceCapabilities {
    SurfaceCapabilities { formats_srgb, present_modes: 2, alpha_modes: 1 }
}

fn gpu() -> Gpu<Bench, Shelf> {
    let surface = Surface::new(
        &capabilities(vec![false, true]),
        Extent { width: 720, height: 480 },
    );
    Gpu::new(
        Bench { updates: Vec::new() },
        surface,
        Resources::new(Bench { updates: Vec::new() }),
    )
}

fn two_stages() -> Renderer<Painter, Paint, Bench, Shelf> {
    RenderApp::stateless()
        .with_stage(Stage::new(Paint::Red).with_task(1).with_task(2))
        .with_stage_task(Paint::Blue, 3)
        .into_renderer()
}

/// Runs one frame the way an event loop would, and returns the image: the
/// passes in the order in which they were drawn over the one attachment.
fn run_frame(
    renderer: &mut Renderer<Painter, Paint, Bench, Shelf>,
    texture_there: bool,
) -> (Vec<FrameAction>, Vec<(Paint, Vec<u32>)>, bool) {
    let mut actions = Vec::new();
    let mut image = Vec::new();
    let mut presented = false;
    let mut action = renderer.draw_frame(FrameEvent::Redraw);
    loop {
        actions.push(action);
        let event = match action {
            FrameAction::Nothing => break,
            FrameAction::Acquire => {
                if texture_there {
                    FrameEvent::Acquired
                } else {
                    FrameEvent::AcquireFailed
                }
            }
            FrameAction::Pass(index) => {
                let color = *renderer.stages().stage(index).clear_color();
                let mut canvas = Canvas { cleared_to: color, drawn: Vec::new() };
                renderer.render_stage(index, &mut canvas);
                image.push((canvas.cleared_to, canvas.drawn));
                FrameEvent::PassClosed
            }
            FrameAction::Submit => FrameEvent::Submitted,
            FrameAction::Present => {
                presented = true;
                FrameEvent::Presented
            }
        };
        action = renderer.draw_frame(event);
    }
    (actions, image, presented)
}

#[test]
fn later_stage_paints_over_earlier_stage() {
    let mut renderer = two_stages();
    renderer.initialize(gpu());
    for _frame in 0..2 {
        let (actions, image, presented) = run_frame(&mut renderer, true);
        assert_eq!(
            actions,
            vec![
                FrameAction::Acquire,
                FrameAction::Pass(0),
                FrameAction::Pass(1),
                FrameAction::Submit,
                FrameAction::Present,
                FrameAction::Nothing,
            ]
        );
        assert_eq!(image, vec![(Paint::Red, vec![1, 2]), (Paint::Blue, vec![3])]);
        assert!(presented);
    }
    assert_eq!(renderer.gpu().device().updates, vec![1, 2, 3, 1, 2, 3]);
}

#[test]
fn frame_without_texture_is_given_up() {
    let mut renderer = two_stages();
    renderer.initialize(gpu());
    let (actions, image, presented) = run_frame(&mut renderer, false);
    assert_eq!(actions, vec![FrameAction::Acquire, FrameAction::Nothing]);
    assert!(image.is_empty());
    assert!(!presented);
    let (actions, image, presented) = run_frame(&mut renderer, true);
    assert_eq!(actions.len(), 6);
    assert_eq!(image.len(), 2);
    assert!(presented);
}

#[test]
fn frame_steps_of_a_store() {
    let mut stages: Stages<Painter, Paint> = Stages::default();
    assert_eq!(stages.len(), 0);
    assert_eq!(
        stages.render(FramePhase::Acquiring, FrameEvent::Acquired),
        (FramePhase::Submitting, FrameAction::Submit)
    );
    stages.add_stage(Stage::new(Paint::Red));
    stages.add_stage(Stage::new(Paint::Blue));
    stages.add_stage(Stage::new(Paint::Green));
    assert_eq!(stages.len(), 3);
    assert_eq!(*stages.stage(2).clear_color(), Paint::Green);
    assert_eq!(
        stages.render(FramePhase::Idle, FrameEvent::Redraw),
        (FramePhase::Acquiring, FrameAction::Acquire)
    );
    assert_eq!(
        stages.render(FramePhase::Acquiring, FrameEvent::Acquired),
        (FramePhase::Recording(0), FrameAction::Pass(0))
    );
    assert_eq!(
        stages.render(FramePhase::Acquiring, FrameEvent::AcquireFailed),
        (FramePhase::Idle, FrameAction::Nothing)
    );
    assert_eq!(
        stages.render(FramePhase::Recording(0), FrameEvent::PassClosed),
        (FramePhase::Recording(1), FrameAction::Pass(1))
    );
    assert_eq!(
        stages.render(FramePhase::Recording(1), FrameEvent::PassClosed),
        (FramePhase::Recording(2), FrameAction::Pass(2))
    );
    assert_eq!(
        stages.render(FramePhase::Recording(2), FrameEvent::PassClosed),
        (FramePhase::Submitting, FrameAction::Submit)
    );
    assert_eq!(
        stages.render(FramePhase::Recording(usize::MAX), FrameEvent::PassClosed),
        (FramePhase::Submitting, FrameAction::Submit)
    );
    assert_eq!(
        stages.render(FramePhase::Submitting, FrameEvent::Submitted),
        (FramePhase::Presenting, FrameAction::Present)
    );
    assert_eq!(
        stages.render(FramePhase::Presenting, FrameEvent::Presented),
        (FramePhase::Idle, FrameAction::Nothing)
    );
}

#[test]
fn events_out_of_turn_change_nothing() {
    let mut stages: Stages<Painter, Paint> = Stages::new();
    stages.add_stage(Stage::new(Paint::Red));
    for (phase, event) in [
        (FramePhase::Idle, FrameEvent::Acquired),
        (FramePhase::Idle, FrameEvent::Presented),
        (FramePhase::Acquiring, FrameEvent::Redraw),
        (FramePhase::Recording(0), FrameEvent::Redraw),
        (FramePhase::Recording(0), FrameEvent::Submitted),
        (FramePhase::Submitting, FrameEvent::PassClosed),
        (FramePhase::Presenting, FrameEvent::AcquireFailed),
    ] {
        assert_eq!(stages.render(phase, event), (phase, FrameAction::Nothing));
    }
}

#[test]
fn renderer_without_gpu_draws_nothing() {
    let mut renderer = two_stages();
    assert!(!renderer.is_initialized());
    assert!(renderer.get_gpu().is_none());
    assert!(renderer.get_gpu_mut().is_none());
    assert_eq!(renderer.draw_frame(FrameEvent::Redraw), FrameAction::Nothing);
    assert_eq!(renderer.draw_frame(FrameEvent::Acquired), FrameAction::Nothing);
    assert_eq!(
        window_event(&mut renderer, WindowEvent::RedrawRequested),
        WindowCommand::Frame(FrameAction::Nothing)
    );
    assert_eq!(renderer.stages().stage(0).pending_count(), 2);
}

#[test]
fn initialize_loads_every_stage_in_order() {
    let mut renderer = two_stages();
    assert_eq!(renderer.stages().len(), 2);
    assert_eq!(renderer.stages().stage(0).pending_count(), 2);
    assert_eq!(renderer.stages().stage(1).pending_count(), 1);
    renderer.initialize(gpu());
    assert!(renderer.is_initialized());
    assert_eq!(renderer.stages().stage(0).pending_count(), 0);
    assert_eq!(renderer.stages().stage(0).active_count(), 2);
    assert_eq!(renderer.stages().stage(1).active_count(), 1);
    for id in [1, 2, 3] {
        assert!(renderer.gpu().res().contains(id));
    }
    assert!(!renderer.gpu().res().contains(4));
    assert_eq!(renderer.gpu_mut().res_mut().get(2).0, 2);
}

#[test]
fn resize_reaches_the_surface_before_the_next_frame() {
    let mut renderer = two_stages();
    renderer.initialize(gpu());
    let first = renderer.gpu().surface().configuration();
    assert_eq!(
        first,
        SurfaceConfiguration {
            usage: TextureUsages {
                copy_src: false,
                copy_dst: false,
                texture_binding: false,
                storage_binding: false,
                render_attachment: true,
            },
            format: 1,
            width: 720,
            height: 480,
            present_mode: 0,
            alpha_mode: 0,
            desired_maximum_frame_latency: 2,
        }
    );
    let mut applied = first;
    let events = [
        WindowEvent::Other,
        WindowEvent::Resized(Extent { width: 800, height: 600 }),
        WindowEvent::RedrawRequested,
        WindowEvent::Resized(Extent { width: 1024, height: 768 }),
        WindowEvent::Resized(Extent { width: 640, height: 360 }),
        WindowEvent::Other,
        WindowEvent::RedrawRequested,
    ];
    let mut frames = Vec::new();
    for event in events {
        match window_event(&mut renderer, event) {
            WindowCommand::Configure(config) => applied = config,
            WindowCommand::Frame(action) => {
                assert_eq!(action, FrameAction::Acquire);
                assert_eq!(renderer.gpu().surface().configuration(), applied);
                frames.push((applied.width, applied.height));
                assert_eq!(renderer.draw_frame(FrameEvent::AcquireFailed), FrameAction::Nothing);
            }
            WindowCommand::Nothing => {}
            WindowCommand::Exit => panic!("nobody asked to leave"),
        }
    }
    assert_eq!(frames, vec![(800, 600), (640, 360)]);
    assert_eq!(applied, SurfaceConfiguration { width: 640, height: 360, ..first });
}

#[test]
fn close_and_destroy_end_the_loop() {
    let mut renderer = two_stages();
    assert_eq!(window_event(&mut renderer, WindowEvent::CloseRequested), WindowCommand::Exit);
    assert_eq!(window_event(&mut renderer, WindowEvent::Destroyed), WindowCommand::Exit);
    assert_eq!(window_event(&mut renderer, WindowEvent::Other), WindowCommand::Nothing);
    assert!(!renderer.is_initialized());
}

#[test]
fn choose_format_prefers_the_first_srgb() {
    assert_eq!(choose_format(&vec![true]), 0);
    assert_eq!(choose_format(&vec![false]), 0);
    assert_eq!(choose_format(&vec![false, false, false]), 0);
    assert_eq!(choose_format(&vec![false, true, true]), 1);
    assert_eq!(choose_format(&vec![false, false, true]), 2);
    assert_eq!(choose_format(&vec![true, false, true]), 0);
}

#[test]
fn surface_resize_keeps_format_and_modes() {
    let mut surface = Surface::new(
        &capabilities(vec![false, false, true]),
        Extent { width: 1, height: 2 },
    );
    let before = surface.configuration();
    assert_eq!((before.format, before.width, before.height), (2, 1, 2));
    let after = surface.resize(Extent { width: 30, height: 40 });
    assert_eq!(after, SurfaceConfiguration { width: 30, height: 40, ..before });
    assert_eq!(surface.configuration(), after);
}

#[test]
fn gpu_parts_can_be_borrowed_together() {
    let mut gpu = gpu();
    let (device, surface, resources) = gpu.borrow_mut();
    assert!(device.updates.is_empty());
    surface.resize(Extent { width: 5, height: 6 });
    resources.get(8);
    assert_eq!(gpu.surface().configuration().width, 5);
    assert!(gpu.res().contains(8));
    gpu.surface_mut().resize(Extent { width: 7, height: 6 });
    assert_eq!(gpu.surface().configuration().width, 7);
}

#[test]
fn clear_color_clears_and_stores() {
    let operations = clear_color(Paint::Blue);
    assert!(matches!(operations.load, LoadOp::Clear(Paint::Blue)));
    assert_eq!(operations.store, StoreOp::Store);
}

#[test]
fn only_a_missing_texture_is_transient() {
    assert!(Error::AcquireTexture.is_transient());
    for error in [
        Error::CreateSurface,
        Error::RequestAdapter,
        Error::RequestDevice,
        Error::Os,
        Error::EventLoop,
    ] {
        assert!(!error.is_transient());
    }
}

#[test]
fn unit_is_an_app_that_does_nothing() {
    let mut app = ();
    app.update();
}
