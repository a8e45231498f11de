use dyngpu::resolution::{Extent, GetResolution, Resolution};
use dyngpu::stage::task::constructor::{construct, TaskConstructor};
use dyngpu::stage::task::executor::TaskExecutor;
use dyngpu::stage::task::Task;

/// A task that writes down, on every call, which call of the round it was.
struct Recorder {
    name: u32,
}

/// What the recorders share: the calls made so far in this round.
struct Counter {
    calls: usize,
    log: Vec<(u32, usize)>,
}

impl Counter {
    fn fresh() -> Counter {
        Counter { calls: 0, log: Vec::new() }
    }
}

/// The pass of the recorders: who recorded, and as which call.
struct Tape {
    entries: Vec<(u32, usize)>,
}

impl Task for Recorder {
    type Recipe = u32;
    type Context = Counter;
    type Registry = Vec<u32>;
    type Pass = Tape;

    fn new(recipe: &u32, _context: &Counter, registry: &mut Vec<u32>) -> Self {
        registry.push(*recipe);
        Recorder { name: *recipe }
    }

    fn update(&mut self, context: &mut Counter) {
        context.log.push((self.name, context.calls));
        context.calls += 1;
    }

    fn render(&self, _context: &Counter, pass: &mut Tape) {
        let index = pass.entries.len();
        pass.entries.push((self.name, index));
    }
}

fn executor_with(names: &[u32]) -> TaskExecutor<Recorder> {
    let mut executor = TaskExecutor::new();
    for name in names {
        executor.queue_task(*name);
    }
    executor
}

#[test]
fn load_builds_one_task_per_constructor() {
    for n in [0usize, 1, 4, 17] {
        let names: Vec<u32> = (0..n as u32).collect();
        let mut executor = executor_with(&names);
        assert_eq!(executor.pending_count(), n);
        assert_eq!(executor.active_count(), 0);
        let mut registry = Vec::new();
        executor.load_pending_tasks(&Counter::fresh(), &mut registry);
        assert_eq!(executor.pending_count(), 0);
        assert_eq!(executor.active_count(), n);
        assert_eq!(registry, names);
    }
}

#[test]
fn load_with_nothing_pending_changes_nothing() {
    let mut executor = executor_with(&[1, 2]);
    let mut registry = Vec::new();
    executor.load_pending_tasks(&Counter::fresh(), &mut registry);
    assert_eq!(executor.active_count(), 2);
    executor.load_pending_tasks(&Counter::fresh(), &mut registry);
    executor.load_pending_tasks(&Counter::fresh(), &mut registry);
    assert_eq!(executor.active_count(), 2);
    assert_eq!(executor.pending_count(), 0);
    assert_eq!(registry, vec![1, 2]);

    let mut empty: TaskExecutor<Recorder> = TaskExecutor::default();
    empty.load_pending_tasks(&Counter::fresh(), &mut registry);
    assert_eq!((empty.pending_count(), empty.active_count()), (0, 0));
    assert_eq!(registry, vec![1, 2]);
}

#[test]
fn tasks_built_later_go_behind_the_live_ones() {
    let mut executor = executor_with(&[1, 2]);
    let mut registry = Vec::new();
    executor.load_pending_tasks(&Counter::fresh(), &mut registry);
    executor.queue_task_constructor(TaskConstructor::new(3));
    assert_eq!((executor.pending_count(), executor.active_count()), (1, 2));
    executor.load_pending_tasks(&Counter::fresh(), &mut registry);
    assert_eq!((executor.pending_count(), executor.active_count()), (0, 3));
    let mut tape = Tape { entries: Vec::new() };
    executor.render_active_tasks(&Counter::fresh(), &mut tape);
    assert_eq!(tape.entries, vec![(1, 0), (2, 1), (3, 2)]);
}

#[test]
fn update_and_render_run_in_insertion_order_every_frame() {
    let mut executor = executor_with(&[10, 20, 30]);
    let mut registry = Vec::new();
    executor.load_pending_tasks(&Counter::fresh(), &mut registry);
    for _frame in 0..3 {
        let mut counter = Counter::fresh();
        executor.update_active_tasks(&mut counter);
        assert_eq!(counter.calls, 3);
        assert_eq!(counter.log, vec![(10, 0), (20, 1), (30, 2)]);
        let mut tape = Tape { entries: Vec::new() };
        executor.render_active_tasks(&counter, &mut tape);
        assert_eq!(tape.entries, vec![(10, 0), (20, 1), (30, 2)]);
    }
}

#[test]
fn pending_tasks_are_neither_updated_nor_rendered() {
    let mut executor = executor_with(&[10, 20]);
    let mut counter = Counter::fresh();
    executor.update_active_tasks(&mut counter);
    let mut tape = Tape { entries: Vec::new() };
    executor.render_active_tasks(&counter, &mut tape);
    assert_eq!(counter.calls, 0);
    assert!(tape.entries.is_empty());
    assert_eq!(executor.pending_count(), 2);
}

#[test]
fn remove_all_after_frames_leaves_nothing() {
    let mut executor = executor_with(&[1, 2, 3]);
    let mut registry = Vec::new();
    executor.load_pending_tasks(&Counter::fresh(), &mut registry);
    executor.queue_task(4);
    let mut counter = Counter::fresh();
    executor.update_active_tasks(&mut counter);
    executor.remove_all_tasks();
    assert_eq!((executor.pending_count(), executor.active_count()), (0, 0));

    executor.load_pending_tasks(&Counter::fresh(), &mut registry);
    assert_eq!((executor.pending_count(), executor.active_count()), (0, 0));
    assert_eq!(registry, vec![1, 2, 3]);

    executor.queue_task(5);
    executor.load_pending_tasks(&Counter::fresh(), &mut registry);
    assert_eq!((executor.pending_count(), executor.active_count()), (0, 1));
    assert_eq!(registry, vec![1, 2, 3, 5]);
}

#[test]
fn remove_active_and_remove_pending_touch_one_side_each() {
    let mut executor = executor_with(&[1, 2, 3]);
    let mut registry = Vec::new();
    executor.load_pending_tasks(&Counter::fresh(), &mut registry);
    executor.queue_task(4);
    executor.queue_task(5);
    executor.remove_active_tasks();
    assert_eq!((executor.pending_count(), executor.active_count()), (2, 0));
    executor.load_pending_tasks(&Counter::fresh(), &mut registry);
    executor.queue_task(6);
    executor.remove_pending_tasks();
    assert_eq!((executor.pending_count(), executor.active_count()), (0, 2));
}

#[test]
fn construct_builds_from_the_recipe() {
    let mut registry = vec![1];
    let task: Recorder = construct(&7, &Counter::fresh(), &mut registry);
    assert_eq!(task.name, 7);
    assert_eq!(registry, vec![1, 7]);
}

#[test]
fn a_constructor_can_build_more_than_once() {
    let mut registry = Vec::new();
    let constructor: TaskConstructor<Recorder> = TaskConstructor::new(9);
    let first = constructor.build(&Counter::fresh(), &mut registry);
    let second = constructor.build(&Counter::fresh(), &mut registry);
    assert_eq!((first.name, second.name), (9, 9));
    assert_eq!(registry, vec![9, 9]);
}

#[test]
fn extent_reports_its_size() {
    let extent = Extent { width: 720, height: 480 };
    assert_eq!(extent.get_width(), 720);
    assert_eq!(extent.get_height(), 480);
    assert_eq!(extent.get_resolution(), extent);
}
