//! Fragment shaders as an effect in a video-compositing host.
//!
//! Two things stand between the host's frames and a shader. The shader's
//! source is rewritten so that it reads and writes colours in the host's
//! channel order (`preprocessing`, with its two passes in `texture_calls` and
//! `exit_points`). And frames of 16 bits per channel are converted to floating
//! point for the shader and back for the host (`u15_conversion`, `rows`). The
//! rest keeps the host's parameters in line with the shader's inputs.

pub mod alike;
pub mod alike_laws;
pub mod channels;
pub mod exit_laws;
pub mod exit_points;
pub mod param_util;
pub mod preprocessing;
pub mod printable;
pub mod printable_laws;
pub mod render;
pub mod rewrite_laws;
pub mod rows;
pub mod scan;
pub mod sequence_data;
pub mod source;
pub mod syntax;
pub mod texture_calls;
pub mod types;
pub mod u15_conversion;
