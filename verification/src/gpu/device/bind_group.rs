//! Building a bind group, with its layout where none is given.

use vstd::prelude::*;

verus! {

/// One entry of a bind group layout: a uniform buffer without dynamic
/// offset, visible to `visibility`.
pub struct BindGroupLayoutEntry<S> {
    pub binding: u32,
    pub visibility: S,
}

/// One entry of a bind group: the whole of `buffer` at `binding`.
pub struct BindGroupEntry<'a, B> {
    pub binding: u32,
    pub buffer: &'a B,
}

/// Where the layout of a bind group comes from.
pub enum LayoutSource<'a, L, S> {
    /// The caller's layout; none is created.
    Given(&'a L),
    /// A layout is to be created from these entries, and handed back.
    Created(Vec<BindGroupLayoutEntry<S>>),
}

/// The bind group that a builder ends in.
pub struct BindGroupRequest<'a, L, B, S> {
    pub layout: LayoutSource<'a, L, S>,
    pub entries: Vec<BindGroupEntry<'a, B>>,
}

/// Collects the entries of one bind group.
pub struct BindGroupBuilder<'a, L, B, S> {
    pub bind_group_layout: Option<&'a L>,
    pub bind_group_layout_entries: Vec<BindGroupLayoutEntry<S>>,
    pub bind_group_entries: Vec<BindGroupEntry<'a, B>>,
}

impl<'a, L, B, S> BindGroupBuilder<'a, L, B, S> {
    /// A builder without entries that will create its own layout.
    pub fn new() -> (builder: Self)
        ensures
            builder.bind_group_layout.is_none(),
            builder.bind_group_layout_entries@.len() == 0,
            builder.bind_group_entries@.len() == 0,
    {
        BindGroupBuilder {
            bind_group_layout: None,
            bind_group_layout_entries: Vec::new(),
            bind_group_entries: Vec::new(),
        }
    }

    /// Uses `layout` in place of a layout made from the entries. Entries
    /// added from now on leave the collected layout entries alone.
    pub fn override_layout(self, layout: &'a L) -> (builder: Self)
        ensures
            builder.bind_group_layout == Some(layout),
            builder.bind_group_layout_entries == self.bind_group_layout_entries,
            builder.bind_group_entries == self.bind_group_entries,
    {
        let mut builder = self;
        builder.bind_group_layout = Some(layout);
        builder
    }

    /// Adds `buffer` as a uniform. Its binding is the number of layout
    /// entries collected so far; it gets a layout entry of its own unless
    /// the layout was overridden.
    pub fn uniform(self, buffer: &'a B, visibility: S) -> (builder: Self)
        ensures
            builder.bind_group_layout == self.bind_group_layout,
            builder.bind_group_entries@ == self.bind_group_entries@.push(
                BindGroupEntry { binding: self.bind_group_layout_entries@.len() as u32, buffer },
            ),
            self.bind_group_layout.is_some() ==> builder.bind_group_layout_entries
                == self.bind_group_layout_entries,
            self.bind_group_layout.is_none() ==> builder.bind_group_layout_entries@
                == self.bind_group_layout_entries@.push(
                BindGroupLayoutEntry {
                    binding: self.bind_group_layout_entries@.len() as u32,
                    visibility,
                },
            ),
    {
        let mut builder = self;
        let binding: u32 = #[verifier::truncate]
        (builder.bind_group_layout_entries.len() as u32);
        builder.bind_group_entries.push(BindGroupEntry { binding, buffer });
        if builder.bind_group_layout.is_none() {
            builder.bind_group_layout_entries.push(BindGroupLayoutEntry { binding, visibility });
        }
        builder
    }

    /// What is to be created: the bind group with the collected entries, and
    /// a layout from the collected layout entries unless one was given.
    pub fn finish_with_layout(self) -> (request: BindGroupRequest<'a, L, B, S>)
        ensures
            request.entries == self.bind_group_entries,
            request.layout == match self.bind_group_layout {
                Some(layout) => LayoutSource::<'a, L, S>::Given(layout),
                None => LayoutSource::<'a, L, S>::Created(self.bind_group_layout_entries),
            },
    {
        let layout = match self.bind_group_layout {
            Some(layout) => LayoutSource::Given(layout),
            None => LayoutSource::Created(self.bind_group_layout_entries),
        };
        BindGroupRequest { layout, entries: self.bind_group_entries }
    }
}

} // verus!
