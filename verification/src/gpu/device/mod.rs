//! Builders for what a task asks of the device: buffers, bind groups and
//! render pipelines. A builder collects the choices and ends in a request
//! that says exactly what is to be created.

pub mod bind_group;
pub mod buffer;
pub mod render_pipeline;
