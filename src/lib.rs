//! Core of a live compute-shader renderer: the shader prelude, compile-error
//! remapping, the custom uniform set, the per-frame state and its byte layout,
//! and the pipeline-set state machine with rollback.

pub mod compile;
pub mod diagnostics;
pub mod frame;
pub mod pipelines;
pub mod prelude;
pub mod renderer;
pub mod uniforms;
