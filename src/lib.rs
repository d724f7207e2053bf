//! A broadcast/replay stream: one producer-side sequence of values that any
//! number of readers can consume independently, each replaying everything
//! already produced and then observing what is produced afterwards.
pub mod laws;
pub mod state;
pub mod stream;
pub mod sync;

pub use state::{Producer, ReadStep, StreamState};
pub use stream::{Stream, StreamError, StreamRead, StreamWrite};
