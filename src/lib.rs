//! A render-pipeline binding object: it holds the handle of a GPU render
//! pipeline, an optional user label, and the bind-group layouts that were
//! produced when the pipeline was created, and answers label and
//! bind-group-layout queries.
pub mod bind_group_layout;
pub mod error;
pub mod handles;
pub mod render_pipeline;
