//! Text rendering of dropped packets.
use vstd::prelude::*;
use vstd::utf8::encode_utf8;

use crate::collectors::net::skbdrop::event::{spec_drop_source, spec_stack_len, Event};
use crate::formatter::{write_str, FormatError, StreamFormatter};
use crate::protocols::ether::network_order;
use crate::symbolizer::{ResolvedSymbol, Source, SymbolizeInput, Symbolizer};
use crate::text::{push_decimal, spec_decimal};
use crate::types::net::{spec_v4_text, spec_v6_text, u16_from_be, AddrV4, AddrV6};

verus! {

/// The line `src:sport -> dst:dport`, the addresses in the form of the IP version; for an
/// unknown version both addresses read `0.0.0.0`.
pub open spec fn spec_endpoints(e: Event, sport: u16, dport: u16) -> Seq<char> {
    if e.l3_info.ip_version == 4 {
        spec_v4_text(e.l3_info.saddr.octets@.take(4)) + ":"@ + spec_decimal(sport as nat) + " -> "@
            + spec_v4_text(e.l3_info.daddr.octets@.take(4)) + ":"@ + spec_decimal(dport as nat) + "\n"@
    } else if e.l3_info.ip_version == 6 {
        spec_v6_text(e.l3_info.saddr.octets@) + ":"@ + spec_decimal(sport as nat) + " -> "@
            + spec_v6_text(e.l3_info.daddr.octets@) + ":"@ + spec_decimal(dport as nat) + "\n"@
    } else {
        "0.0.0.0:"@ + spec_decimal(sport as nat) + " -> 0.0.0.0:"@ + spec_decimal(dport as nat) + "\n"@
    }
}

/// One indented line per symbol name.
pub open spec fn spec_frames(names: Seq<String>) -> Seq<char>
    decreases names.len(),
{
    if names.len() == 0 {
        Seq::empty()
    } else {
        spec_frames(names.drop_last()) + "    "@ + names.last()@ + "\n"@
    }
}

/// The stack section: nothing when the event holds no stack, else `stack:` and the frames.
pub open spec fn spec_stack_text(e: Event, names: Seq<String>) -> Seq<char> {
    if e.stack_size <= 0 {
        Seq::empty()
    } else {
        "stack:\n"@ + spec_frames(names)
    }
}

/// The line that closes an event: `---+---` ten times.
pub open spec fn spec_separator() -> Seq<char> {
    "---+------+------+------+------+------+------+------+------+------+---\n"@
}

/// The text of a dropped packet with host-order ports `sport` and `dport` and its stack
/// frames named `names`.
pub open spec fn spec_drop_text(e: Event, sport: u16, dport: u16, names: Seq<String>) -> Seq<char> {
    spec_endpoints(e, sport, dport) + "reason: "@ + spec_drop_source(e.drop_source) + "\n"@
        + spec_stack_text(e, names) + spec_separator()
}

/// `name` is the name of a symbol that `symbolizer` may give for `input`.
pub open spec fn gives_name<S: Symbolizer>(symbolizer: S, input: SymbolizeInput, name: String) -> bool {
    exists|sym: ResolvedSymbol| #[trigger] symbolizer.resolves(input, sym) && sym.name == name
}

/// Each name is what `symbolizer` gives for the address of the same frame of `stack`,
/// resolved from `source`.
pub open spec fn names_resolved<S: Symbolizer>(
    symbolizer: S,
    source: Source,
    stack: Seq<u64>,
    names: Seq<String>,
) -> bool {
    forall|i: int|
        0 <= i < names.len() ==> #[trigger] gives_name(
            symbolizer,
            SymbolizeInput { source: source, addr: stack[i] },
            names[i],
        )
}

/// The endpoints line of `event` with host-order ports `sport` and `dport`.
pub fn endpoints_text(event: &Event, sport: u16, dport: u16) -> (r: String)
    ensures
        r@ == spec_endpoints(*event, sport, dport),
{
    let mut out = String::new();
    if event.l3_info.ip_version == 4 {
        AddrV4::from_addr(event.l3_info.saddr).push_text(&mut out);
        out.append(":");
        push_decimal(&mut out, sport as u64);
        out.append(" -> ");
        AddrV4::from_addr(event.l3_info.daddr).push_text(&mut out);
        out.append(":");
        push_decimal(&mut out, dport as u64);
        out.append("\n");
    } else if event.l3_info.ip_version == 6 {
        AddrV6::from_addr(event.l3_info.saddr).push_text(&mut out);
        out.append(":");
        push_decimal(&mut out, sport as u64);
        out.append(" -> ");
        AddrV6::from_addr(event.l3_info.daddr).push_text(&mut out);
        out.append(":");
        push_decimal(&mut out, dport as u64);
        out.append("\n");
    } else {
        out.append("0.0.0.0:");
        push_decimal(&mut out, sport as u64);
        out.append(" -> 0.0.0.0:");
        push_decimal(&mut out, dport as u64);
        out.append("\n");
    }
    assert(out@ =~= spec_endpoints(*event, sport, dport));
    out
}

/// Appends the endpoints line of `event`, its ports read in network byte order.
pub fn write_endpoints(w: &mut Vec<u8>, event: &Event) -> (r: Result<(), FormatError>)
    ensures
        r is Ok,
        exists|sport: u16, dport: u16|
            network_order(sport, event.l4_info.sport) && network_order(dport, event.l4_info.dport)
                && final(w)@ == old(w)@ + encode_utf8(#[trigger] spec_endpoints(*event, sport, dport)),
{
    let sport = u16_from_be(event.l4_info.sport);
    let dport = u16_from_be(event.l4_info.dport);
    let text = endpoints_text(event, sport, dport);
    write_str(w, text.as_str());
    Ok(())
}

/// The text of a dropped packet with host-order ports `sport` and `dport` and its stack
/// frames named `names`.
pub fn render_drop_event(event: &Event, sport: u16, dport: u16, names: &Vec<String>) -> (r: String)
    ensures
        r@ == spec_drop_text(*event, sport, dport, names@),
{
    let mut out = endpoints_text(event, sport, dport);
    out.append("reason: ");
    out.append(event.drop_source_str());
    out.append("\n");
    if event.stack_size > 0 {
        out.append("stack:\n");
        let ghost before = out@;
        let mut i: usize = 0;
        while i < names.len()
            invariant
                i <= names@.len(),
                out@ == before + spec_frames(names@.take(i as int)),
            decreases names@.len() - i,
        {
            out.append("    ");
            out.append(names[i].as_str());
            out.append("\n");
            assert(names@.take(i + 1).drop_last() =~= names@.take(i as int));
            i = i + 1;
        }
        assert(names@.take(names@.len() as int) =~= names@);
    }
    out.append("---+------+------+------+------+------+------+------+------+------+---\n");
    assert(out@ =~= spec_drop_text(*event, sport, dport, names@));
    out
}

/// Renders dropped packets, naming stack addresses with a symbolizer.
pub struct DefaultFormatter<'a, S: Symbolizer> {
    symbolizer: &'a S,
    source: Source,
}

impl<'a, S: Symbolizer> DefaultFormatter<'a, S> {
    pub closed spec fn source(&self) -> Source {
        self.source
    }

    pub closed spec fn symbolizer(&self) -> S {
        *self.symbolizer
    }

    /// A formatter that resolves addresses as kernel addresses with `symbolizer`.
    pub fn new(symbolizer: &'a S) -> (r: Self)
        ensures
            r.source() == Source::Kernel,
            r.symbolizer() == *symbolizer,
    {
        DefaultFormatter { symbolizer, source: Source::Kernel }
    }

    /// The names of the return addresses the event holds.
    fn frame_names(&self, event: &Event) -> (r: Vec<String>)
        ensures
            r@.len() == spec_stack_len(event.stack_size),
            names_resolved(self.symbolizer(), self.source(), event.stack@, r@),
    {
        let n = event.effective_stack_len();
        let mut names: Vec<String> = Vec::new();
        let mut i: usize = 0;
        while i < n
            invariant
                i <= n <= 16,
                n == spec_stack_len(event.stack_size),
                names@.len() == i,
                names_resolved(self.symbolizer(), self.source(), event.stack@, names@),
            decreases n - i,
        {
            let input = SymbolizeInput { source: self.source, addr: event.stack[i] };
            let symbol = self.symbolizer.resolve(input);
            let ghost sym = symbol;
            let ghost before = names@;
            names.push(symbol.name);
            assert forall|j: int| 0 <= j < names@.len() implies #[trigger] gives_name(
                self.symbolizer(),
                SymbolizeInput { source: self.source(), addr: event.stack@[j] },
                names@[j],
            ) by {
                if j < i {
                    assert(names@[j] == before[j]);
                } else {
                    assert(self.symbolizer().resolves(input, sym));
                }
            }
            i = i + 1;
        }
        names
    }
}

impl<'a, S: Symbolizer> StreamFormatter<Event> for DefaultFormatter<'a, S> {
    /// The event's text is appended, its ports read in network byte order and its stack
    /// frames named, one name each; formatting succeeds.
    open spec fn formats(&self, event: &Event, before: Seq<u8>, after: Seq<u8>, ok: bool) -> bool {
        ok && exists|sport: u16, dport: u16, names: Seq<String>|
            network_order(sport, event.l4_info.sport) && network_order(dport, event.l4_info.dport)
                && names.len() == spec_stack_len(event.stack_size) && names_resolved(
                self.symbolizer(),
                self.source(),
                event.stack@,
                names,
            ) && after == before + encode_utf8(#[trigger] spec_drop_text(*event, sport, dport, names))
    }

    /// Appends the event's text: endpoints, drop source, the named stack frames, and a
    /// closing line.
    fn format(&self, w: &mut Vec<u8>, event: &Event) -> (r: Result<(), FormatError>)
        ensures
            r is Ok,
            exists|sport: u16, dport: u16, names: Seq<String>|
                network_order(sport, event.l4_info.sport) && network_order(dport, event.l4_info.dport)
                    && names.len() == spec_stack_len(event.stack_size) && names_resolved(
                    self.symbolizer(),
                    self.source(),
                    event.stack@,
                    names,
                ) && final(w)@ == old(w)@ + encode_utf8(#[trigger] spec_drop_text(*event, sport, dport, names)),
    {
        let sport = u16_from_be(event.l4_info.sport);
        let dport = u16_from_be(event.l4_info.dport);
        let names = self.frame_names(event);
        let text = render_drop_event(event, sport, dport, &names);
        write_str(w, text.as_str());
        assert(final(w)@ == old(w)@ + encode_utf8(spec_drop_text(*event, sport, dport, names@)));
        Ok(())
    }
}

/// Prints dropped packets in the default text form.
pub struct DefaultConsoleExporter<'a, S: Symbolizer> {
    formatter: DefaultFormatter<'a, S>,
}

impl<'a, S: Symbolizer> DefaultConsoleExporter<'a, S> {
    pub closed spec fn source(&self) -> Source {
        self.formatter.source
    }

    pub closed spec fn symbolizer(&self) -> S {
        *self.formatter.symbolizer
    }

    /// An exporter whose formatter resolves addresses as kernel addresses with `symbolizer`.
    pub fn new(symbolizer: &'a S) -> (r: Self)
        ensures
            r.source() == Source::Kernel,
            r.symbolizer() == *symbolizer,
    {
        DefaultConsoleExporter { formatter: DefaultFormatter::new(symbolizer) }
    }

    /// The bytes printed for `event`.
    pub fn render(&self, event: &Event) -> (r: Vec<u8>)
        ensures
            exists|sport: u16, dport: u16, names: Seq<String>|
                network_order(sport, event.l4_info.sport) && network_order(dport, event.l4_info.dport)
                    && names.len() == spec_stack_len(event.stack_size) && names_resolved(
                    self.symbolizer(),
                    self.source(),
                    event.stack@,
                    names,
                ) && r@ == encode_utf8(#[trigger] spec_drop_text(*event, sport, dport, names)),
    {
        let mut out: Vec<u8> = Vec::new();
        let _ = self.formatter.format(&mut out, event);
        assert(out@ =~= Seq::<u8>::empty() + out@);
        out
    }
}

} // verus!
