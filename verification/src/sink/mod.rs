//! Where events go once they leave a collector, under the name of sinks.
use vstd::prelude::*;

pub mod helper;
pub mod stream_writer;

pub use stream_writer::StreamWriterSink;

verus! {

/// Takes the events a collector produces.
pub trait EventSink<E>: Sized {
    /// Taking `event` may turn the sink into `after`. A sink that says nothing of itself
    /// may become anything.
    open spec fn dispatches(&self, event: E, after: Self) -> bool {
        true
    }

    fn dispatch(&mut self, event: E)
        ensures
            old(self).dispatches(event, *final(self)),
    ;
}

} // verus!
