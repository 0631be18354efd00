//! The output pipeline of a module bundler: the order of a build's stages,
//! the files each chunk is written to, the change detection of an
//! incremental rebuild and the patch protocol a running client follows.
//!
//! The library decides and the driver acts. A run names the next step, the
//! driver performs it (transforming modules, rendering, writing files) and
//! reports what happened, and the run answers with the step after that.

pub mod chunk_graph;
pub mod compiler;
pub mod config;
pub mod diff;
pub mod emit;
pub mod hot_update;
pub mod manifest;
pub mod naming;
pub mod pipeline;
