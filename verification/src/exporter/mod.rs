//! Where events go once they leave a collector.
use vstd::prelude::*;

pub mod helper;
pub mod stdout;
pub mod stream_writer;

pub use stdout::DefaultStdoutExporter;
pub use stream_writer::StreamWriterExpoter;

verus! {

/// Takes the events a collector produces: renders them, prints them, or sends them on.
pub trait Exporter<T>: Sized {
    /// Taking `event` may turn the exporter into `after`. An exporter that says nothing of
    /// itself may become anything.
    open spec fn dispatches(&self, event: T, after: Self) -> bool {
        true
    }

    fn dispatch(&mut self, event: T)
        ensures
            old(self).dispatches(event, *final(self)),
    ;
}

} // verus!
