//! An exporter that prints each event.
use vstd::prelude::*;

use core::marker::PhantomData;

use crate::formatter::{FormatError, StreamFormatter};

verus! {

/// Prints each event as `formater` renders it.
pub struct DefaultStdoutExporter<E, F: StreamFormatter<E>> {
    formater: F,
    _phantom: PhantomData<E>,
}

impl<E, F: StreamFormatter<E>> DefaultStdoutExporter<E, F> {
    pub closed spec fn formatter(&self) -> F {
        self.formater
    }

    /// An exporter printing what `formatter` renders.
    pub fn new(formatter: F) -> (r: Self)
        ensures
            r.formatter() == formatter,
    {
        DefaultStdoutExporter { formater: formatter, _phantom: PhantomData }
    }

    /// The bytes printed for `event`: what the formatter appends to an empty buffer, or its
    /// failure.
    pub fn render(&self, event: &E) -> (r: Result<Vec<u8>, FormatError>)
        ensures
            r matches Ok(bytes) ==> self.formatter().formats(event, Seq::<u8>::empty(), bytes@, true),
            r is Err ==> exists|after: Seq<u8>| self.formatter().formats(event, Seq::<u8>::empty(), after, false),
    {
        let mut out: Vec<u8> = Vec::new();
        let res = self.formater.format(&mut out, event);
        assert(self.formater.formats(event, Seq::empty(), out@, res is Ok));
        if let Err(e) = res {
            assert(self.formatter().formats(event, Seq::<u8>::empty(), out@, false));
            return Err(e);
        }
        Ok(out)
    }
}

} // verus!
