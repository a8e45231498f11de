use dyngpu::gpu::device::bind_group::{BindGroupBuilder, LayoutSource};
use dyngpu::gpu::device::buffer::{BufferBuilder, BufferRequest, BufferUsages};
use dyngpu::gpu::device::render_pipeline::{
    BlendState, ColorTargetState, ColorWrites, RenderPipelineBuilder, TargetFormat,
};

#[derive(Debug, PartialEq)]
struct Module(u8);

#[derive(Debug, PartialEq)]
struct Layout(u8);

#[derive(Debug, PartialEq)]
struct Buffer(u8);

#[derive(Clone, Copy, Debug, PartialEq)]
enum Stage {
    Vertex,
    Fragment,
}

type Pipeline<'a> = RenderPipelineBuilder<'a, Module, u32, Layout>;

const DEFAULT_TARGET: ColorTargetState = ColorTargetState {
    format: TargetFormat::Bgra8UnormSrgb,
    blend: Some(BlendState::Replace),
    write_mask: ColorWrites::All,
};

#[test]
fn buffer_with_contents_is_initialized() {
    let bytes = [1u8, 2, 3, 4];
    let request = BufferBuilder::new().size(64).contents(&bytes).vert().finish();
    match request {
        BufferRequest::Init { label, contents, usage } => {
            assert_eq!(label, None);
            assert_eq!(contents, &bytes);
            assert_eq!(usage, BufferUsages { vertex: true, uniform: false, copy_dst: false });
        }
        BufferRequest::Mapped { .. } => panic!("the contents were dropped"),
    }
}

#[test]
fn buffer_without_contents_is_mapped() {
    let request = BufferBuilder::new().size(256).uniform().copy_dst().finish();
    match request {
        BufferRequest::Mapped { label, size, usage } => {
            assert_eq!(label, None);
            assert_eq!(size, 256);
            assert_eq!(usage, BufferUsages { vertex: false, uniform: true, copy_dst: true });
        }
        BufferRequest::Init { .. } => panic!("there were no contents"),
    }
    assert_eq!(BufferUsages::empty(), BufferUsages { vertex: false, uniform: false, copy_dst: false });
    assert!(matches!(
        BufferBuilder::new().finish(),
        BufferRequest::Mapped { label: None, size: 0, .. }
    ));
}

#[test]
fn uniforms_are_numbered_by_layout_entries() {
    let (a, b) = (Buffer(1), Buffer(2));
    let request: dyngpu::gpu::device::bind_group::BindGroupRequest<Layout, Buffer, Stage> =
        BindGroupBuilder::new()
            .uniform(&a, Stage::Fragment)
            .uniform(&b, Stage::Vertex)
            .finish_with_layout();
    let entries: Vec<(u32, &Buffer)> = request.entries.iter().map(|e| (e.binding, e.buffer)).collect();
    assert_eq!(entries, vec![(0, &a), (1, &b)]);
    match request.layout {
        LayoutSource::Created(layout) => {
            let layout: Vec<(u32, Stage)> = layout.iter().map(|e| (e.binding, e.visibility)).collect();
            assert_eq!(layout, vec![(0, Stage::Fragment), (1, Stage::Vertex)]);
        }
        LayoutSource::Given(_) => panic!("no layout was given"),
    }
}

#[test]
fn overridden_layout_stops_the_numbering() {
    let (a, b, c) = (Buffer(1), Buffer(2), Buffer(3));
    let given = Layout(9);
    let request = BindGroupBuilder::new()
        .uniform(&a, Stage::Fragment)
        .override_layout(&given)
        .uniform(&b, Stage::Vertex)
        .uniform(&c, Stage::Vertex)
        .finish_with_layout();
    let entries: Vec<(u32, &Buffer)> = request.entries.iter().map(|e| (e.binding, e.buffer)).collect();
    assert_eq!(entries, vec![(0, &a), (1, &b), (1, &c)]);
    match request.layout {
        LayoutSource::Given(layout) => assert_eq!(layout, &given),
        LayoutSource::Created(_) => panic!("the given layout was dropped"),
    }
}

#[test]
fn build_pipeline_takes_both_stages_from_one_shader() {
    let shader = Module(1);
    let builder = Pipeline::build_pipeline(&shader);
    let request = builder.finish();
    assert_eq!(request.label, None);
    assert_eq!(request.vertex.module, &shader);
    assert_eq!(request.vertex.entry_point, Some("vs"));
    assert!(request.vertex.buffers.is_empty());
    let fragment = request.fragment.expect("a fragment stage");
    assert_eq!(fragment.module, &shader);
    assert_eq!(fragment.entry_point, Some("fs"));
    assert_eq!(fragment.targets, &[Some(DEFAULT_TARGET)]);
    assert!(request.layout.bind_group_layouts.is_empty());
    assert_eq!(request.layout.label, None);
    assert_eq!(
        (request.multisample.count, request.multisample.mask, request.multisample.alpha_to_coverage_enabled),
        (1, u64::MAX, false)
    );
}

#[test]
fn vert_pipeline_has_no_fragment_stage() {
    let shader = Module(1);
    let builder = Pipeline::build_vert_pipeline(&shader).frag_entry("ignored").label("plain");
    let request = builder.finish();
    assert!(request.fragment.is_none());
    assert_eq!(request.label, Some("plain"));
    let builder = Pipeline::build_vert_pipeline(&shader).label("plain").unlabeled();
    assert_eq!(builder.finish().label, None);
}

#[test]
fn stages_entries_buffers_and_layouts_can_be_chosen() {
    let (first, second) = (Module(1), Module(2));
    let (l1, l2) = (Layout(1), Layout(2));
    let builder = Pipeline::build_pipeline(&first)
        .vert(&second, "main_vs")
        .vert_buffer(12)
        .vert_buffer(16)
        .frag(&second, "main_fs")
        .frag_entry("other_fs")
        .bind_group(&l1)
        .bind_group(&l2);
    let request = builder.finish();
    assert_eq!(request.vertex.module, &second);
    assert_eq!(request.vertex.entry_point, Some("main_vs"));
    assert_eq!(request.vertex.buffers, &[12, 16]);
    let fragment = request.fragment.expect("a fragment stage");
    assert_eq!(fragment.module, &second);
    assert_eq!(fragment.entry_point, Some("other_fs"));
    assert_eq!(fragment.targets, &[Some(DEFAULT_TARGET)]);
    assert_eq!(request.layout.bind_group_layouts, &[&l1, &l2]);
    let builder = Pipeline::build_vert_pipeline(&first).vert_entry("entry").default_frag();
    let request = builder.finish();
    assert_eq!(request.vertex.entry_point, Some("entry"));
    assert_eq!(request.fragment.expect("a fragment stage").entry_point, Some("fs"));
}
