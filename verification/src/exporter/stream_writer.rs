//! An exporter that renders each event into a byte buffer.
use vstd::prelude::*;

use core::marker::PhantomData;

use crate::exporter::Exporter;
use crate::formatter::StreamFormatter;

verus! {

/// Renders each event with `formater`, appending to `writer`.
pub struct StreamWriterExpoter<E, F: StreamFormatter<E>> {
    pub formater: F,
    _phantom: PhantomData<E>,
    pub writer: Vec<u8>,
}

impl<E, F: StreamFormatter<E>> StreamWriterExpoter<E, F> {
    /// The bytes written so far.
    pub closed spec fn buffer(&self) -> Seq<u8> {
        self.writer@
    }

    pub closed spec fn formatter(&self) -> F {
        self.formater
    }

    /// An exporter appending to `w`.
    pub fn new(w: Vec<u8>, formatter: F) -> (r: Self)
        ensures
            r.buffer() == w@,
            r.formatter() == formatter,
    {
        StreamWriterExpoter { formater: formatter, writer: w, _phantom: PhantomData }
    }
}

impl<E, F: StreamFormatter<E>> Exporter<E> for StreamWriterExpoter<E, F> {
    /// The formatter stays; the buffer keeps what it held and holds what formatting the
    /// event onto it left, whether or not formatting succeeded.
    open spec fn dispatches(&self, event: E, after: Self) -> bool {
        after.formatter() == self.formatter() && self.buffer().is_prefix_of(after.buffer()) && exists|ok: bool|
            self.formatter().formats(&event, self.buffer(), after.buffer(), ok)
    }

    /// Renders `event` into the buffer; a formatter's failure is ignored.
    fn dispatch(&mut self, event: E)
        ensures
            final(self).formatter() == old(self).formatter(),
            exists|ok: bool| old(self).formatter().formats(&event, old(self).buffer(), final(self).buffer(), ok),
            old(self).buffer().is_prefix_of(final(self).buffer()),
    {
        let r = self.formater.format(&mut self.writer, &event);
        let ghost ok = r is Ok;
        assert(old(self).formatter().formats(&event, old(self).buffer(), self.buffer(), ok));
        assert(old(self).dispatches(event, *self));
    }
}

} // verus!
