//! Building a render pipeline.

use vstd::prelude::*;

verus! {

/// The texture format of a colour target.
#[derive(Clone, Copy, Debug, PartialEq, Eq, Structural)]
pub enum TargetFormat {
    Bgra8UnormSrgb,
}

/// How a fragment's colour meets the colour that is there.
#[derive(Clone, Copy, Debug, PartialEq, Eq, Structural)]
pub enum BlendState {
    /// The new colour replaces the old.
    Replace,
}

/// Which channels are written.
#[derive(Clone, Copy, Debug, PartialEq, Eq, Structural)]
pub enum ColorWrites {
    All,
}

/// One colour target of the fragment stage.
#[derive(Clone, Copy, Debug, PartialEq, Eq, Structural)]
pub struct ColorTargetState {
    pub format: TargetFormat,
    pub blend: Option<BlendState>,
    pub write_mask: ColorWrites,
}

/// How the samples of a pixel are handled.
#[derive(Clone, Copy, Debug, PartialEq, Eq, Structural)]
pub struct MultisampleState {
    pub count: u32,
    pub mask: u64,
    pub alpha_to_coverage_enabled: bool,
}

/// The target that a fragment stage gets where none is chosen.
pub open spec fn default_target() -> ColorTargetState {
    ColorTargetState {
        format: TargetFormat::Bgra8UnormSrgb,
        blend: Some(BlendState::Replace),
        write_mask: ColorWrites::All,
    }
}

/// The multisampling of every pipeline built here: one sample, all of the
/// mask, no alpha to coverage.
pub open spec fn single_sample() -> MultisampleState {
    MultisampleState { count: 1, mask: u64::MAX, alpha_to_coverage_enabled: false }
}

/// The vertex stage while the pipeline is being built.
pub struct VertexStateIntermediate<'a, M, V> {
    pub module: &'a M,
    pub entry_point: Option<&'a str>,
    pub buffers: Vec<V>,
}

/// The vertex stage as the pipeline gets it.
pub struct VertexState<'a, M, V> {
    pub module: &'a M,
    pub entry_point: Option<&'a str>,
    pub buffers: &'a [V],
}

impl<'a, M, V> VertexStateIntermediate<'a, M, V> {
    /// The vertex stage of `shader`, entered at `vs`, without buffers.
    pub fn new(shader: &'a M) -> (state: Self)
        ensures
            state.module == shader,
            state.entry_point == Some("vs"),
            state.buffers@.len() == 0,
    {
        VertexStateIntermediate { module: shader, entry_point: Some("vs"), buffers: Vec::new() }
    }

    pub fn build(&'a self) -> (state: VertexState<'a, M, V>)
        ensures
            state.module == self.module,
            state.entry_point == self.entry_point,
            state.buffers@ == self.buffers@,
    {
        VertexState {
            module: self.module,
            entry_point: self.entry_point,
            buffers: self.buffers.as_slice(),
        }
    }
}

/// The fragment stage while the pipeline is being built.
pub struct FragmentStateIntermediate<'a, M> {
    pub module: &'a M,
    pub entry_point: Option<&'a str>,
    pub targets: Vec<Option<ColorTargetState>>,
}

/// The fragment stage as the pipeline gets it.
pub struct FragmentState<'a, M> {
    pub module: &'a M,
    pub entry_point: Option<&'a str>,
    pub targets: &'a [Option<ColorTargetState>],
}

impl<'a, M> FragmentStateIntermediate<'a, M> {
    pub fn build(&'a self) -> (state: FragmentState<'a, M>)
        ensures
            state.module == self.module,
            state.entry_point == self.entry_point,
            state.targets@ == self.targets@,
    {
        FragmentState {
            module: self.module,
            entry_point: self.entry_point,
            targets: self.targets.as_slice(),
        }
    }
}

/// The pipeline's layout while the pipeline is being built.
pub struct PipelineLayoutIntermediate<'a, L> {
    pub label: Option<&'a str>,
    pub bind_group_layouts: Vec<&'a L>,
}

/// The pipeline's layout as it is to be created.
pub struct PipelineLayoutRequest<'a, L> {
    pub label: Option<&'a str>,
    pub bind_group_layouts: &'a [&'a L],
}

/// The render pipeline that a builder ends in. It has no depth or stencil
/// attachment, no multiview and no cache.
pub struct RenderPipelineRequest<'a, M, V, L> {
    pub label: Option<&'a str>,
    pub layout: PipelineLayoutRequest<'a, L>,
    pub vertex: VertexState<'a, M, V>,
    pub fragment: Option<FragmentState<'a, M>>,
    pub multisample: MultisampleState,
}

/// Collects the choices for one render pipeline.
pub struct RenderPipelineBuilder<'a, M, V, L> {
    pub label: Option<&'a str>,
    pub vertex_state: VertexStateIntermediate<'a, M, V>,
    pub fragment_state: Option<FragmentStateIntermediate<'a, M>>,
    pub pipeline_layout: PipelineLayoutIntermediate<'a, L>,
}

impl<'a, M, V, L> RenderPipelineBuilder<'a, M, V, L> {
    /// A builder for a pipeline with the vertex stage of `shader` alone.
    pub fn build_vert_pipeline(shader: &'a M) -> (builder: Self)
        ensures
            builder.label.is_none(),
            builder.vertex_state.module == shader,
            builder.vertex_state.entry_point == Some("vs"),
            builder.vertex_state.buffers@.len() == 0,
            builder.fragment_state.is_none(),
            builder.pipeline_layout.label.is_none(),
            builder.pipeline_layout.bind_group_layouts@.len() == 0,
    {
        RenderPipelineBuilder {
            label: None,
            vertex_state: VertexStateIntermediate::new(shader),
            fragment_state: None,
            pipeline_layout: PipelineLayoutIntermediate {
                label: None,
                bind_group_layouts: Vec::new(),
            },
        }
    }

    /// A builder for a pipeline with both stages of `shader`: the vertex
    /// stage entered at `vs`, the fragment stage at `fs`.
    pub fn build_pipeline(shader: &'a M) -> (builder: Self)
        ensures
            builder.label.is_none(),
            builder.vertex_state.module == shader,
            builder.vertex_state.entry_point == Some("vs"),
            builder.vertex_state.buffers@.len() == 0,
            builder.fragment_state.is_some(),
            builder.fragment_state.unwrap().module == shader,
            builder.fragment_state.unwrap().entry_point == Some("fs"),
            builder.fragment_state.unwrap().targets@ == seq![Some(default_target())],
            builder.pipeline_layout.label.is_none(),
            builder.pipeline_layout.bind_group_layouts@.len() == 0,
    {
        Self::build_vert_pipeline(shader).default_frag()
    }

    pub fn label(self, label: &'a str) -> (builder: Self)
        ensures
            builder == (RenderPipelineBuilder { label: Some(label), ..self }),
    {
        let mut builder = self;
        builder.label = Some(label);
        builder
    }

    pub fn unlabeled(self) -> (builder: Self)
        ensures
            builder == (RenderPipelineBuilder { label: None, ..self }),
    {
        let mut builder = self;
        builder.label = None;
        builder
    }

    /// Takes the vertex stage from `shader`, entered at `entry_point`.
    pub fn vert(self, shader: &'a M, entry_point: &'a str) -> (builder: Self)
        ensures
            builder == (RenderPipelineBuilder {
                vertex_state: VertexStateIntermediate {
                    module: shader,
                    entry_point: Some(entry_point),
                    buffers: self.vertex_state.buffers,
                },
                ..self
            }),
    {
        let mut builder = self;
        builder.vertex_state.module = shader;
        builder.vertex_state.entry_point = Some(entry_point);
        builder
    }

    /// Enters the vertex stage at `entry_point`.
    pub fn vert_entry(self, entry_point: &'a str) -> (builder: Self)
        ensures
            builder == (RenderPipelineBuilder {
                vertex_state: VertexStateIntermediate {
                    module: self.vertex_state.module,
                    entry_point: Some(entry_point),
                    buffers: self.vertex_state.buffers,
                },
                ..self
            }),
    {
        let mut builder = self;
        builder.vertex_state.entry_point = Some(entry_point);
        builder
    }

    /// Adds a vertex buffer behind those that are there.
    pub fn vert_buffer(self, buffers: V) -> (builder: Self)
        ensures
            builder.label == self.label,
            builder.vertex_state.module == self.vertex_state.module,
            builder.vertex_state.entry_point == self.vertex_state.entry_point,
            builder.vertex_state.buffers@ == self.vertex_state.buffers@.push(buffers),
            builder.fragment_state == self.fragment_state,
            builder.pipeline_layout == self.pipeline_layout,
    {
        let mut builder = self;
        builder.vertex_state.buffers.push(buffers);
        builder
    }

    /// Takes the fragment stage from `shader`, entered at `entry_point`. A
    /// fragment stage that is there keeps its targets; a new one gets the
    /// default target.
    pub fn frag(self, shader: &'a M, entry_point: &'a str) -> (builder: Self)
        ensures
            builder.label == self.label,
            builder.vertex_state == self.vertex_state,
            builder.pipeline_layout == self.pipeline_layout,
            builder.fragment_state.is_some(),
            builder.fragment_state.unwrap().module == shader,
            builder.fragment_state.unwrap().entry_point == Some(entry_point),
            self.fragment_state.is_some() ==> builder.fragment_state.unwrap().targets
                == self.fragment_state.unwrap().targets,
            self.fragment_state.is_none() ==> builder.fragment_state.unwrap().targets@
                == seq![Some(default_target())],
    {
        let RenderPipelineBuilder { label, vertex_state, fragment_state, pipeline_layout } = self;
        let targets = match fragment_state {
            Some(state) => state.targets,
            None => {
                let mut targets = Vec::new();
                targets.push(
                    Some(
                        ColorTargetState {
                            format: TargetFormat::Bgra8UnormSrgb,
                            blend: Some(BlendState::Replace),
                            write_mask: ColorWrites::All,
                        },
                    ),
                );
                assert(targets@ =~= seq![Some(default_target())]);
                targets
            },
        };
        RenderPipelineBuilder {
            label,
            vertex_state,
            fragment_state: Some(
                FragmentStateIntermediate { module: shader, entry_point: Some(entry_point), targets },
            ),
            pipeline_layout,
        }
    }

    /// Enters the fragment stage at `entry_point`, if there is a fragment
    /// stage; without one nothing changes.
    pub fn frag_entry(self, entry_point: &'a str) -> (builder: Self)
        ensures
            self.fragment_state.is_none() ==> builder == self,
            self.fragment_state.is_some() ==> builder == (RenderPipelineBuilder {
                fragment_state: Some(
                    FragmentStateIntermediate {
                        module: self.fragment_state.unwrap().module,
                        entry_point: Some(entry_point),
                        targets: self.fragment_state.unwrap().targets,
                    },
                ),
                ..self
            }),
    {
        let RenderPipelineBuilder { label, vertex_state, fragment_state, pipeline_layout } = self;
        let fragment_state = match fragment_state {
            Some(state) => Some(
                FragmentStateIntermediate {
                    module: state.module,
                    entry_point: Some(entry_point),
                    targets: state.targets,
                },
            ),
            None => None,
        };
        RenderPipelineBuilder { label, vertex_state, fragment_state, pipeline_layout }
    }

    /// Takes the fragment stage from the shader of the vertex stage, entered
    /// at `fs`.
    pub fn default_frag(self) -> (builder: Self)
        ensures
            builder.label == self.label,
            builder.vertex_state == self.vertex_state,
            builder.pipeline_layout == self.pipeline_layout,
            builder.fragment_state.is_some(),
            builder.fragment_state.unwrap().module == self.vertex_state.module,
            builder.fragment_state.unwrap().entry_point == Some("fs"),
            self.fragment_state.is_some() ==> builder.fragment_state.unwrap().targets
                == self.fragment_state.unwrap().targets,
            self.fragment_state.is_none() ==> builder.fragment_state.unwrap().targets@
                == seq![Some(default_target())],
    {
        let shader = self.vertex_state.module;
        self.frag(shader, "fs")
    }

    /// Adds a bind group layout behind those that are there.
    pub fn bind_group(self, bind_group: &'a L) -> (builder: Self)
        ensures
            builder.label == self.label,
            builder.vertex_state == self.vertex_state,
            builder.fragment_state == self.fragment_state,
            builder.pipeline_layout.label == self.pipeline_layout.label,
            builder.pipeline_layout.bind_group_layouts@
                == self.pipeline_layout.bind_group_layouts@.push(bind_group),
    {
        let mut builder = self;
        builder.pipeline_layout.bind_group_layouts.push(bind_group);
        builder
    }

    /// What is to be created: a layout from the collected bind group
    /// layouts, and the pipeline with that layout, the stages as they were
    /// chosen and a single sample per pixel.
    pub fn finish(&'a self) -> (request: RenderPipelineRequest<'a, M, V, L>)
        ensures
            request.label == self.label,
            request.layout.label == self.pipeline_layout.label,
            request.layout.bind_group_layouts@ == self.pipeline_layout.bind_group_layouts@,
            request.vertex.module == self.vertex_state.module,
            request.vertex.entry_point == self.vertex_state.entry_point,
            request.vertex.buffers@ == self.vertex_state.buffers@,
            request.fragment.is_some() == self.fragment_state.is_some(),
            request.fragment.is_some() ==> {
                &&& request.fragment.unwrap().module == self.fragment_state.unwrap().module
                &&& request.fragment.unwrap().entry_point
                    == self.fragment_state.unwrap().entry_point
                &&& request.fragment.unwrap().targets@ == self.fragment_state.unwrap().targets@
            },
            request.multisample == single_sample(),
    {
        let fragment = match &self.fragment_state {
            Some(state) => Some(state.build()),
            None => None,
        };
        RenderPipelineRequest {
            label: self.label,
            layout: PipelineLayoutRequest {
                label: self.pipeline_layout.label,
                bind_group_layouts: self.pipeline_layout.bind_group_layouts.as_slice(),
            },
            vertex: self.vertex_state.build(),
            fragment,
            multisample: MultisampleState {
                count: 1,
                mask: u64::MAX,
                alpha_to_coverage_enabled: false,
            },
        }
    }
}

} // verus!
