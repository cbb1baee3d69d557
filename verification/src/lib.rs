//! Verified core of a face-recognition training pipeline.
//!
//! The library covers the logic of the pipeline that walks a directory tree
//! of labeled face images, groups entries by their enclosing folder, batches
//! each group under a byte-size budget, classifies the per-file outcomes of
//! the remote calls, aggregates them into a running total, and plans the
//! post-run placement of failed and missed files.  All I/O (directory
//! traversal, HTTP, progress rendering) lives outside the library and hands
//! it plain values.

pub mod batch;
pub mod client;
pub mod config;
pub mod entry;
pub mod errors;
pub mod paths;
pub mod progress;
pub mod result;
pub mod train;
pub mod triage;
pub mod utils;

pub use config::{
    ClientMode, ClientType, CompreFaceConfig, Configuration, DoubleTakeConfig, ErrorBehavior,
    ErrorConfiguration, PostRecognizeStrategy,
};
pub use progress::ProgressReporter;
pub use result::{FaceProcessingResult, FaceWithMetadata, FailureFace, ProcessProgress, Subject};
pub use train::ComprefaceTrainLogic;
