//! The binding object for one bind-group layout.
use vstd::prelude::*;
use crate::handles::WebGPUBindGroupLayout;

verus! {

/// A bind-group layout as seen by script: a layout handle and a label.
pub struct GPUBindGroupLayout {
    label: Option<String>,
    bind_group_layout: WebGPUBindGroupLayout,
}

/// What a `GPUBindGroupLayout` holds.
pub struct BindGroupLayoutModel {
    pub label: Option<Seq<char>>,
    pub layout: WebGPUBindGroupLayout,
}

/// The label as a sequence of characters.
pub open spec fn label_view(l: Option<String>) -> Option<Seq<char>> {
    match l {
        Some(s) => Some(s@),
        None => None,
    }
}

impl View for GPUBindGroupLayout {
    type V = BindGroupLayoutModel;

    closed spec fn view(&self) -> BindGroupLayoutModel {
        BindGroupLayoutModel { label: label_view(self.label), layout: self.bind_group_layout }
    }
}

impl GPUBindGroupLayout {
    /// Wraps `bind_group_layout` under the given label.
    pub fn new(bind_group_layout: WebGPUBindGroupLayout, label: Option<String>) -> (r: Self)
        ensures
            r@.layout == bind_group_layout,
            r@.label == label_view(label),
    {
        GPUBindGroupLayout { label, bind_group_layout }
    }

    /// The wrapped layout handle.
    pub fn id(&self) -> (r: WebGPUBindGroupLayout)
        ensures
            r == self@.layout,
    {
        self.bind_group_layout
    }

    /// The current label.
    pub fn get_label(&self) -> (r: Option<String>)
        ensures
            label_view(r) == self@.label,
    {
        match &self.label {
            Some(s) => Some(s.clone()),
            None => None,
        }
    }
}

} // verus!
