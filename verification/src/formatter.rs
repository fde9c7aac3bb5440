//! Rendering events: the formatter interfaces and the byte sink they write to.
use vstd::prelude::*;
use vstd::utf8::encode_utf8;

verus! {

/// Why a formatter could not render a value.
#[derive(Debug, Clone)]
pub struct FormatError {
    pub message: String,
}

/// Renders values of `T` as text appended to a byte buffer.
pub trait StreamFormatter<T> {
    /// Formatting `args` onto a buffer holding `before` may leave it holding `after`, and
    /// succeed when `ok`. A formatter that says nothing of itself may do anything.
    open spec fn formats(&self, args: &T, before: Seq<u8>, after: Seq<u8>, ok: bool) -> bool {
        true
    }

    /// Formatting only appends: what the buffer held stays at its start.
    fn format(&self, w: &mut Vec<u8>, args: &T) -> (r: Result<(), FormatError>)
        ensures
            self.formats(args, old(w)@, final(w)@, r is Ok),
            old(w)@.is_prefix_of(final(w)@),
    ;
}

/// Turns a value into a structured output.
pub trait StructeredFormatter<E: Sized> {
    type Output;

    fn format(&self, from: E) -> Result<Self::Output, FormatError>;
}

/// Appends the UTF-8 encoding of `s` to `w`.
pub fn write_str(w: &mut Vec<u8>, s: &str)
    ensures
        final(w)@ == old(w)@ + encode_utf8(s@),
{
    let bytes = s.as_bytes();
    let ghost start = w@;
    let mut i: usize = 0;
    while i < bytes.len()
        invariant
            i <= bytes@.len(),
            bytes@ == encode_utf8(s@),
            w@ == start + bytes@.take(i as int),
        decreases bytes@.len() - i,
    {
        w.push(bytes[i]);
        assert(bytes@.take(i + 1) =~= bytes@.take(i as int).push(bytes@[i as int]));
        i = i + 1;
    }
    assert(bytes@.take(bytes@.len() as int) =~= bytes@);
}

} // verus!
