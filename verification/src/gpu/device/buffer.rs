//! Building a buffer.

use vstd::prelude::*;

verus! {

/// What a buffer may be used for.
#[derive(Clone, Copy, Debug, PartialEq, Eq, Structural)]
pub struct BufferUsages {
    pub vertex: bool,
    pub uniform: bool,
    pub copy_dst: bool,
}

impl BufferUsages {
    /// No use at all.
    pub open spec fn none() -> BufferUsages {
        BufferUsages { vertex: false, uniform: false, copy_dst: false }
    }

    /// No use at all.
    pub fn empty() -> (usage: BufferUsages)
        ensures
            usage == BufferUsages::none(),
    {
        BufferUsages { vertex: false, uniform: false, copy_dst: false }
    }
}

/// The buffer that a builder ends in.
#[derive(Clone, Copy, Debug)]
pub enum BufferRequest<'a> {
    /// A buffer as long as `contents` that holds them from the start.
    Init { label: Option<&'a str>, contents: &'a [u8], usage: BufferUsages },
    /// A buffer of `size` bytes that is mapped when it is created.
    Mapped { label: Option<&'a str>, size: u64, usage: BufferUsages },
}

/// Collects the choices for one buffer.
#[derive(Clone, Copy, Debug)]
pub struct BufferBuilder<'a> {
    pub label: Option<&'a str>,
    pub contents: Option<&'a [u8]>,
    pub size: u64,
    pub usage: BufferUsages,
}

/// The request that `builder` ends in: its contents decide. With contents
/// the size is theirs and the chosen size is not looked at.
pub open spec fn buffer_request<'a>(builder: BufferBuilder<'a>) -> BufferRequest<'a> {
    match builder.contents {
        Some(contents) => BufferRequest::Init {
            label: builder.label,
            contents,
            usage: builder.usage,
        },
        None => BufferRequest::Mapped {
            label: builder.label,
            size: builder.size,
            usage: builder.usage,
        },
    }
}

impl<'a> BufferBuilder<'a> {
    /// A builder for an unnamed buffer of no bytes and no use.
    pub fn new() -> (builder: Self)
        ensures
            builder.label.is_none(),
            builder.contents.is_none(),
            builder.size == 0,
            builder.usage == BufferUsages::none(),
    {
        BufferBuilder { label: None, contents: None, size: 0, usage: BufferUsages::empty() }
    }

    pub fn size(self, size: u64) -> (builder: Self)
        ensures
            builder == (BufferBuilder { size, ..self }),
    {
        let mut builder = self;
        builder.size = size;
        builder
    }

    pub fn contents(self, contents: &'a [u8]) -> (builder: Self)
        ensures
            builder == (BufferBuilder { contents: Some(contents), ..self }),
    {
        let mut builder = self;
        builder.contents = Some(contents);
        builder
    }

    /// What is to be created.
    pub fn finish(self) -> (request: BufferRequest<'a>)
        ensures
            request == buffer_request(self),
    {
        if let Some(contents) = self.contents {
            BufferRequest::Init { label: self.label, contents, usage: self.usage }
        } else {
            BufferRequest::Mapped { label: self.label, size: self.size, usage: self.usage }
        }
    }

    /// Adds the use as a vertex buffer.
    pub fn vert(self) -> (builder: Self)
        ensures
            builder == (BufferBuilder {
                usage: BufferUsages { vertex: true, ..self.usage },
                ..self
            }),
    {
        let mut builder = self;
        builder.usage.vertex = true;
        builder
    }

    /// Adds the use as a uniform buffer.
    pub fn uniform(self) -> (builder: Self)
        ensures
            builder == (BufferBuilder {
                usage: BufferUsages { uniform: true, ..self.usage },
                ..self
            }),
    {
        let mut builder = self;
        builder.usage.uniform = true;
        builder
    }

    /// Adds the use as the target of copies.
    pub fn copy_dst(self) -> (builder: Self)
        ensures
            builder == (BufferBuilder {
                usage: BufferUsages { copy_dst: true, ..self.usage },
                ..self
            }),
    {
        let mut builder = self;
        builder.usage.copy_dst = true;
        builder
    }
}

} // verus!
