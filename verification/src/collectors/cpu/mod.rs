//! CPU profiling.
pub mod config;
pub mod formatter;
pub mod profile;
pub mod sample;
pub mod treestack;

pub use profile::{Event as ProfileEvent, InnerEvent as ProfileInnerEvent};
pub use sample::{Event as ProfileSampleEvent, StackEvent as ProfileStackEvent};
