//! Human-readable forms of durations, sizes and times of day.
use vstd::prelude::*;

use crate::text::{push_decimal, spec_decimal};

verus! {

/// A duration in nanoseconds in its largest whole unit: `3s`, `2ms`, `15us` or `999ns`.
pub open spec fn spec_duration(d: nat) -> Seq<char> {
    if d >= 1_000_000_000 {
        spec_decimal(d / 1_000_000_000) + "s"@
    } else if d >= 1_000_000 {
        spec_decimal(d / 1_000_000) + "ms"@
    } else if d >= 1_000 {
        spec_decimal(d / 1_000) + "us"@
    } else {
        spec_decimal(d) + "ns"@
    }
}

/// A byte count in its largest whole unit: `3M`, `2k` or `100B`.
pub open spec fn spec_size(s: nat) -> Seq<char> {
    if s >= 1024 * 1024 {
        spec_decimal(s / (1024 * 1024)) + "M"@
    } else if s >= 1024 {
        spec_decimal(s / 1024) + "k"@
    } else {
        spec_decimal(s) + "B"@
    }
}

/// A number below 100 in two digits.
pub open spec fn spec_two_digits(n: nat) -> Seq<char> {
    if n < 10 {
        "0"@ + spec_decimal(n)
    } else {
        spec_decimal(n)
    }
}

/// The time of day `HH:MM:SS` of a nanosecond timestamp, the day starting at zero.
pub open spec fn spec_time_of_day(ns: nat) -> Seq<char> {
    let secs = ns / 1_000_000_000;
    spec_two_digits((secs / 3600) % 24) + ":"@ + spec_two_digits((secs / 60) % 60) + ":"@
        + spec_two_digits(secs % 60)
}

/// Appends the duration `d` (nanoseconds) in its largest whole unit.
pub fn push_duration(out: &mut String, d: u64)
    ensures
        final(out)@ == old(out)@ + spec_duration(d as nat),
{
    if d >= 1_000_000_000 {
        push_decimal(out, d / 1_000_000_000);
        out.append("s");
    } else if d >= 1_000_000 {
        push_decimal(out, d / 1_000_000);
        out.append("ms");
    } else if d >= 1_000 {
        push_decimal(out, d / 1_000);
        out.append("us");
    } else {
        push_decimal(out, d);
        out.append("ns");
    }
}

/// Appends the byte count `s` in its largest whole unit.
pub fn push_size(out: &mut String, s: u32)
    ensures
        final(out)@ == old(out)@ + spec_size(s as nat),
{
    if s >= 1024 * 1024 {
        push_decimal(out, (s / (1024 * 1024)) as u64);
        out.append("M");
    } else if s >= 1024 {
        push_decimal(out, (s / 1024) as u64);
        out.append("k");
    } else {
        push_decimal(out, s as u64);
        out.append("B");
    }
}

fn push_two_digits(out: &mut String, n: u64)
    requires
        n < 100,
    ensures
        final(out)@ == old(out)@ + spec_two_digits(n as nat),
{
    if n < 10 {
        out.append("0");
    }
    push_decimal(out, n);
}

/// Appends the time of day `HH:MM:SS` of the nanosecond timestamp `ns`.
pub fn push_time_of_day(out: &mut String, ns: u64)
    ensures
        final(out)@ == old(out)@ + spec_time_of_day(ns as nat),
{
    let secs = ns / 1_000_000_000;
    push_two_digits(out, (secs / 3600) % 24);
    out.append(":");
    push_two_digits(out, (secs / 60) % 60);
    out.append(":");
    push_two_digits(out, secs % 60);
}

} // verus!
