//! The binding object for one render pipeline.
use vstd::prelude::*;
use crate::bind_group_layout::{label_view, BindGroupLayoutModel, GPUBindGroupLayout};
use crate::error::{Error, Fallible};
use crate::handles::{WebGPUBindGroupLayout, WebGPURenderPipeline};

verus! {

/// A render pipeline as seen by script.
///
/// The pipeline handle and the sequence of bind-group layouts are fixed at
/// construction; only the label changes afterwards.
pub struct GPURenderPipeline {
    label: Option<String>,
    render_pipeline: WebGPURenderPipeline,
    bind_group_layouts: Vec<WebGPUBindGroupLayout>,
}

/// What a `GPURenderPipeline` holds.
pub struct RenderPipelineModel {
    pub label: Option<Seq<char>>,
    pub pipeline: WebGPURenderPipeline,
    pub layouts: Seq<WebGPUBindGroupLayout>,
}

impl RenderPipelineModel {
    /// The same entry under another label.
    pub open spec fn with_label(self, label: Option<Seq<char>>) -> RenderPipelineModel {
        RenderPipelineModel { label, pipeline: self.pipeline, layouts: self.layouts }
    }
}

impl View for GPURenderPipeline {
    type V = RenderPipelineModel;

    closed spec fn view(&self) -> RenderPipelineModel {
        RenderPipelineModel {
            label: label_view(self.label),
            pipeline: self.render_pipeline,
            layouts: self.bind_group_layouts@,
        }
    }
}

/// Whether `index` names a bind-group layout of `p` under a device that
/// allows `max_bind_groups` bind groups: it must name an existing layout and
/// must not exceed the device limit.
pub open spec fn layout_index_valid(p: RenderPipelineModel, index: u32, max_bind_groups: u32) -> bool {
    index < p.layouts.len() && index <= max_bind_groups
}

/// The layout handle that a lookup of `index` yields, or `None` where the
/// lookup is refused.
pub open spec fn layout_lookup(
    p: RenderPipelineModel,
    index: u32,
    max_bind_groups: u32,
) -> Option<WebGPUBindGroupLayout> {
    if layout_index_valid(p, index, max_bind_groups) {
        Some(p.layouts[index as int])
    } else {
        None
    }
}

/// The message of the range error that an invalid layout index raises.
pub open spec fn out_of_bounds_message() -> Seq<char> {
    "Index out of bounds"@
}

/// Every index other than the number of layouts is accepted exactly when it
/// is at most the number of layouts and at most the device limit.
pub proof fn lemma_layout_index_bounds(p: RenderPipelineModel, index: u32, max_bind_groups: u32)
    requires
        index != p.layouts.len(),
    ensures
        layout_index_valid(p, index, max_bind_groups) <==> (index <= p.layouts.len() && index
            <= max_bind_groups),
{
}

/// The index equal to the number of layouts names no layout and is refused,
/// whatever the device limit.
pub proof fn lemma_layout_index_at_length_refused(p: RenderPipelineModel, max_bind_groups: u32)
    requires
        p.layouts.len() <= u32::MAX,
    ensures
        !layout_index_valid(p, p.layouts.len() as u32, max_bind_groups),
        layout_lookup(p, p.layouts.len() as u32, max_bind_groups) is None,
{
}

/// Setting a label and then reading it gives back that label; a second
/// setting overwrites the first; neither touches the pipeline handle or the
/// layouts.
pub proof fn lemma_set_label_then_get(
    p: RenderPipelineModel,
    first: Option<Seq<char>>,
    second: Option<Seq<char>>,
)
    ensures
        p.with_label(first).label == first,
        p.with_label(first).with_label(second) == p.with_label(second),
        p.with_label(first).pipeline == p.pipeline,
        p.with_label(first).layouts == p.layouts,
{
}

/// Two successful lookups of one index on one entry wrap the same layout
/// handle: the one stored at that index.
pub proof fn lemma_lookups_agree(
    p: RenderPipelineModel,
    index: u32,
    max_bind_groups: u32,
    a: BindGroupLayoutModel,
    b: BindGroupLayoutModel,
)
    requires
        layout_lookup(p, index, max_bind_groups) == Some(a.layout),
        layout_lookup(p, index, max_bind_groups) == Some(b.layout),
    ensures
        a.layout == b.layout,
        a.layout == p.layouts[index as int],
{
}

impl GPURenderPipeline {
    fn new_inherited(
        render_pipeline: WebGPURenderPipeline,
        label: Option<String>,
        bgls: Vec<WebGPUBindGroupLayout>,
    ) -> (r: Self)
        ensures
            r@ == (RenderPipelineModel {
                label: label_view(label),
                pipeline: render_pipeline,
                layouts: bgls@,
            }),
    {
        GPURenderPipeline { label, render_pipeline, bind_group_layouts: bgls }
    }

    /// Creates the entry for a freshly created pipeline from its handle, its
    /// label and the layouts the backend produced for it, in order.
    pub fn new(
        render_pipeline: WebGPURenderPipeline,
        label: Option<String>,
        bgls: Vec<WebGPUBindGroupLayout>,
    ) -> (r: Self)
        ensures
            r@ == (RenderPipelineModel {
                label: label_view(label),
                pipeline: render_pipeline,
                layouts: bgls@,
            }),
    {
        GPURenderPipeline::new_inherited(render_pipeline, label, bgls)
    }

    /// The pipeline handle, for other components that encode commands.
    pub fn id(&self) -> (r: WebGPURenderPipeline)
        ensures
            r == self@.pipeline,
    {
        self.render_pipeline
    }

    /// The current label.
    pub fn get_label(&self) -> (r: Option<String>)
        ensures
            label_view(r) == self@.label,
    {
        match &self.label {
            Some(s) => Some(s.clone()),
            None => None,
        }
    }

    /// Replaces the label; the pipeline handle and the layouts stay as they are.
    pub fn set_label(&mut self, value: Option<String>)
        ensures
            final(self)@ == old(self)@.with_label(label_view(value)),
    {
        self.label = value;
    }

    /// A fresh, unlabelled wrapper of the bind-group layout at `index`, or a
    /// range error where `index` does not name a layout or exceeds the
    /// device's `max_bind_groups`.
    pub fn get_bind_group_layout(&self, index: u32, max_bind_groups: u32) -> (r: Fallible<
        GPUBindGroupLayout,
    >)
        ensures
            r is Ok <==> layout_index_valid(self@, index, max_bind_groups),
            r matches Ok(b) ==> layout_lookup(self@, index, max_bind_groups) == Some(b@.layout)
                && b@.label is None,
            r matches Err(e) ==> e matches Error::Range(m) && m@ == out_of_bounds_message(),
    {
        if index as usize >= self.bind_group_layouts.len() || index > max_bind_groups {
            return Err(Error::Range("Index out of bounds".to_owned()));
        }
        Ok(GPUBindGroupLayout::new(self.bind_group_layouts[index as usize], None))
    }
}

} // verus!
