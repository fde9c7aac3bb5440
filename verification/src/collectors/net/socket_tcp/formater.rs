//! Text rendering of matched socket exchanges.
use vstd::prelude::*;
use vstd::utf8::encode_utf8;

use crate::collectors::net::payload::{cut_ok, push_lines, render_lines, shown_part, spec_lines, spec_shown};
use crate::collectors::net::socket_tcp::event::Event;
use crate::formatter::{write_str, FormatError, StreamFormatter};
use crate::protocols::family::AF_INET;
use crate::text::{push_decimal, spec_decimal};
use crate::types::net::{spec_v4_text, spec_v6_text, Addr, AddrV4, AddrV6};
use crate::units::{push_duration, push_size, push_time_of_day, spec_duration, spec_size, spec_time_of_day};

verus! {

/// The address in the form of its family: dotted IPv4, else IPv6 groups.
pub open spec fn spec_addr_text(family: u16, a: Addr) -> Seq<char> {
    if family == AF_INET {
        spec_v4_text(a.octets@.take(4))
    } else {
        spec_v6_text(a.octets@)
    }
}

/// The exchange's target, `unknown` when it has none.
pub open spec fn spec_target(e: Event) -> Seq<char> {
    match e.target {
        Some(t) => t@,
        None => "unknown"@,
    }
}

/// A payload under its label: its shown lines, or `None` when there is none.
pub open spec fn spec_body(label: Seq<char>, body: Option<String>) -> Seq<char> {
    match body {
        Some(b) => render_lines(label, spec_lines(spec_shown(b@))),
        None => label + "None\n"@,
    }
}

/// The payloads of an exchange can be cut to their shown part.
pub open spec fn bodies_cut_ok(e: Event) -> bool {
    (e.req_body matches Some(b) ==> cut_ok(b@)) && (e.resp_body matches Some(b) ==> cut_ok(b@))
}

/// The detailed, multi-line form of an exchange.
pub open spec fn spec_verbose_text(e: Event) -> Seq<char> {
    "请求时间: "@ + spec_time_of_day(e.timestamp as nat) + "\n"@
    + "远程主机: "@ + spec_addr_text(e.family, e.remote_addr) + ":"@ + spec_decimal(e.remote_port as nat) + "\n"@
    + "target:   "@ + spec_target(e) + "\n"@
    + spec_body("请求数据: "@, e.req_body)
    + spec_body("响应数据: "@, e.resp_body)
    + "请求大小: "@ + spec_size(e.request_size as nat) + "\n"@
    + "响应大小: "@ + spec_size(e.response_size as nat) + "\n"@
    + "处理时长: "@ + spec_duration(e.duration as nat) + "\n"@
    + "-------------------------------------------------------\n"@
}

/// The one-line form of an exchange.
pub open spec fn spec_simple_text(e: Event) -> Seq<char> {
    spec_time_of_day(e.timestamp as nat) + " | "@ + spec_addr_text(e.family, e.remote_addr) + " | "@
    + spec_target(e) + " | req_size: "@ + spec_size(e.request_size as nat) + " | resp_size: "@
    + spec_size(e.response_size as nat) + " | cost: "@ + spec_duration(e.duration as nat) + "\n"@
}

/// Renders exchanges in detail or on one line each.
#[derive(Debug, Clone, Copy)]
pub struct DefaultFormatter {
    verbose: bool,
}

fn push_addr(out: &mut String, family: u16, a: Addr)
    ensures
        final(out)@ == old(out)@ + spec_addr_text(family, a),
{
    if family == AF_INET {
        AddrV4::from_addr(a).push_text(out);
    } else {
        AddrV6::from_addr(a).push_text(out);
    }
}

fn push_target(out: &mut String, e: &Event)
    ensures
        final(out)@ == old(out)@ + spec_target(*e),
{
    match &e.target {
        Some(t) => out.append(t.as_str()),
        None => out.append("unknown"),
    }
}

fn push_body(out: &mut String, label: &str, body: &Option<String>) -> (ok: bool)
    ensures
        ok == (body matches Some(b) ==> cut_ok(b@)),
        ok ==> final(out)@ == old(out)@ + spec_body(label@, *body),
{
    match body {
        Some(b) => match shown_part(b.as_str()) {
            Some(shown) => {
                push_lines(out, label, shown);
                true
            },
            None => false,
        },
        None => {
            out.append(label);
            out.append("None\n");
            true
        },
    }
}

impl DefaultFormatter {
    pub closed spec fn is_verbose(&self) -> bool {
        self.verbose
    }

    /// A formatter of the detailed form when `verbose`, else of the one-line form.
    pub fn new(verbose: bool) -> (r: Self)
        ensures
            r.is_verbose() == verbose,
    {
        DefaultFormatter { verbose }
    }

    /// The text of an exchange: the detailed form, or none when a payload would be cut
    /// inside a character; or the one-line form.
    pub fn render(&self, event: &Event) -> (r: Option<String>)
        ensures
            self.is_verbose() ==> (r is Some <==> bodies_cut_ok(*event)),
            self.is_verbose() && r is Some ==> r->0@ == spec_verbose_text(*event),
            !self.is_verbose() ==> r is Some && r->0@ == spec_simple_text(*event),
    {
        let mut out = String::new();
        if self.verbose {
            out.append("请求时间: ");
            push_time_of_day(&mut out, event.timestamp);
            out.append("\n");
            out.append("远程主机: ");
            push_addr(&mut out, event.family, event.remote_addr);
            out.append(":");
            push_decimal(&mut out, event.remote_port as u64);
            out.append("\n");
            out.append("target:   ");
            push_target(&mut out, event);
            out.append("\n");
            if !push_body(&mut out, "请求数据: ", &event.req_body) {
                return None;
            }
            if !push_body(&mut out, "响应数据: ", &event.resp_body) {
                return None;
            }
            out.append("请求大小: ");
            push_size(&mut out, event.request_size);
            out.append("\n");
            out.append("响应大小: ");
            push_size(&mut out, event.response_size);
            out.append("\n");
            out.append("处理时长: ");
            push_duration(&mut out, event.duration);
            out.append("\n");
            out.append("-------------------------------------------------------\n");
            assert(out@ =~= spec_verbose_text(*event));
            return Some(out);
        }
        push_time_of_day(&mut out, event.timestamp);
        out.append(" | ");
        push_addr(&mut out, event.family, event.remote_addr);
        out.append(" | ");
        push_target(&mut out, event);
        out.append(" | req_size: ");
        push_size(&mut out, event.request_size);
        out.append(" | resp_size: ");
        push_size(&mut out, event.response_size);
        out.append(" | cost: ");
        push_duration(&mut out, event.duration);
        out.append("\n");
        assert(out@ =~= spec_simple_text(*event));
        Some(out)
    }
}

impl StreamFormatter<Event> for DefaultFormatter {
    /// The exchange's text is appended, or, when a payload would be cut inside a character
    /// in the detailed form, nothing is written and formatting fails.
    open spec fn formats(&self, event: &Event, before: Seq<u8>, after: Seq<u8>, ok: bool) -> bool {
        if self.is_verbose() {
            if bodies_cut_ok(*event) {
                ok && after == before + encode_utf8(spec_verbose_text(*event))
            } else {
                !ok && after == before
            }
        } else {
            ok && after == before + encode_utf8(spec_simple_text(*event))
        }
    }

    /// Appends the exchange's text; fails, writing nothing, when a payload would be cut
    /// inside a character.
    fn format(&self, w: &mut Vec<u8>, event: &Event) -> (r: Result<(), FormatError>)
        ensures
            self.is_verbose() ==> (r is Ok <==> bodies_cut_ok(*event)),
            !self.is_verbose() ==> r is Ok,
            r is Ok && self.is_verbose() ==> final(w)@ == old(w)@ + encode_utf8(spec_verbose_text(*event)),
            r is Ok && !self.is_verbose() ==> final(w)@ == old(w)@ + encode_utf8(spec_simple_text(*event)),
            r is Err ==> final(w)@ == old(w)@,
    {
        match self.render(event) {
            Some(text) => {
                write_str(w, text.as_str());
                Ok(())
            },
            None => Err(FormatError { message: String::from_str("payload is not cut between two characters") }),
        }
    }
}

} // verus!
