//! Qualification of inputs: integrity of frames, debouncing, failure counting, age.

pub mod debounce;
pub mod integrity;
pub mod stamped;

pub use debounce::{Debounced, LeakyBucket};
pub use integrity::{FrameIntegrity, FrameIntegrityFault};
pub use stamped::Stamped;
