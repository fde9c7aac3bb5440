//! What the running system offers: BTF type information and the kernel's version.
use vstd::prelude::*;

use crate::errors::EbpfError;
use crate::text::{push_hex, spec_hex};

verus! {

/// The first two bytes of a BTF file, read least significant first.
pub const BTF_MAGIC: u16 = 0xeb9f;

/// The file name of the BTF file looked for beside the executable.
pub open spec fn default_custom_btf_name() -> Seq<char> {
    "vmlinux.btf"@
}

/// The file name of the BTF file looked for beside the executable.
pub fn default_custom_btf_name_str() -> (r: &'static str)
    ensures
        r@ == default_custom_btf_name(),
{
    "vmlinux.btf"
}

/// `n` in lowercase hexadecimal, at least four digits (what `{:04x}` prints).
pub open spec fn spec_hex4(n: nat) -> Seq<char> {
    if n < 0x10 {
        "000"@ + spec_hex(n)
    } else if n < 0x100 {
        "00"@ + spec_hex(n)
    } else if n < 0x1000 {
        "0"@ + spec_hex(n)
    } else {
        spec_hex(n)
    }
}

fn push_hex4(out: &mut String, n: u16)
    ensures
        final(out)@ == old(out)@ + spec_hex4(n as nat),
{
    if n < 0x10 {
        out.append("000");
    } else if n < 0x100 {
        out.append("00");
    } else if n < 0x1000 {
        out.append("0");
    }
    push_hex(out, n as u64);
}

/// The message when a file is shorter than the magic.
pub open spec fn short_file_message() -> Seq<char> {
    "failed to fill whole buffer"@
}

/// Why the start of a file is not that of a BTF file: too short, or another magic.
pub open spec fn spec_btf_header_error(header: Seq<u8>) -> Option<Seq<char>> {
    if header.len() < 2 {
        Some(short_file_message())
    } else if header[0] as nat + 256 * (header[1] as nat) != BTF_MAGIC as nat {
        Some("invalid BTF magic: expected 0xeb9f, got 0x"@ + spec_hex4(header[0] as nat + 256 * (header[1] as nat)))
    } else {
        None
    }
}

/// Checks the first bytes of a file for the BTF magic.
pub fn validate_btf_header(header: &[u8]) -> (r: Result<(), String>)
    ensures
        match spec_btf_header_error(header@) {
            Some(m) => r matches Err(e) && e@ == m,
            None => r is Ok,
        },
{
    if header.len() < 2 {
        return Err(String::from_str("failed to fill whole buffer"));
    }
    let got: u16 = header[0] as u16 + 256 * (header[1] as u16);
    if got != BTF_MAGIC {
        let mut msg = String::from_str("invalid BTF magic: expected 0xeb9f, got 0x");
        push_hex4(&mut msg, got);
        return Err(msg);
    }
    Ok(())
}

/// The message when neither the kernel nor the file beside the executable has BTF.
pub open spec fn spec_no_btf_message(path: Seq<char>, reason: Seq<char>) -> Seq<char> {
    "kernel BTF not supported and no valid custom BTF at "@ + path + ": "@ + reason
}

/// Decides whether BTF is available: `Ok(true)` when the kernel offers it; else `Ok(false)`
/// when the file at `fallback` (beside the executable) starts with the BTF magic, its
/// first bytes or the failure to read them being `header`; else an error saying why.
pub fn check_btf_support(
    kernel_btf_available: bool,
    fallback: Result<String, EbpfError>,
    header: Result<Vec<u8>, String>,
) -> (r: Result<bool, EbpfError>)
    ensures
        kernel_btf_available ==> r == Ok::<bool, EbpfError>(true),
        !kernel_btf_available ==> match fallback {
            Err(e) => r == Err::<bool, EbpfError>(e),
            Ok(path) => match header {
                Err(m) => r matches Err(e) && e is Other && e.message() == spec_no_btf_message(path@, m@),
                Ok(h) => match spec_btf_header_error(h@) {
                    Some(m) => r matches Err(e) && e is Other && e.message() == spec_no_btf_message(path@, m),
                    None => r == Ok::<bool, EbpfError>(false),
                },
            },
        },
{
    if kernel_btf_available {
        return Ok(true);
    }
    let path = match fallback {
        Ok(p) => p,
        Err(e) => return Err(e),
    };
    let checked = match header {
        Ok(h) => validate_btf_header(h.as_slice()),
        Err(m) => Err(m),
    };
    match checked {
        Ok(()) => Ok(false),
        Err(reason) => {
            let mut msg = String::from_str("kernel BTF not supported and no valid custom BTF at ");
            msg.append(path.as_str());
            msg.append(": ");
            msg.append(reason.as_str());
            Err(EbpfError::Other(msg))
        },
    }
}

/// An ASCII digit.
pub open spec fn is_digit(c: char) -> bool {
    '0' <= c <= '9'
}

/// The runs of digits of `s` from position `i` on, the current run starting at `start`.
pub open spec fn digit_runs_from(s: Seq<char>, i: int, start: int) -> Seq<Seq<char>>
    decreases s.len() - i,
{
    if i >= s.len() {
        if start < s.len() {
            seq![s.subrange(start, s.len() as int)]
        } else {
            Seq::empty()
        }
    } else if is_digit(s[i]) {
        digit_runs_from(s, i + 1, start)
    } else {
        (if start < i {
            seq![s.subrange(start, i)]
        } else {
            Seq::<Seq<char>>::empty()
        }) + digit_runs_from(s, i + 1, i + 1)
    }
}

/// The maximal runs of digits of `s`, in order.
pub open spec fn digit_runs(s: Seq<char>) -> Seq<Seq<char>> {
    digit_runs_from(s, 0, 0)
}

/// The number a run of digits writes in decimal.
pub open spec fn digits_value(d: Seq<char>) -> nat
    decreases d.len(),
{
    if d.len() == 0 {
        0
    } else {
        digits_value(d.drop_last()) * 10 + ((d.last() as nat) - ('0' as nat)) as nat
    }
}

/// The `k`-th number of a release string, 0 when it has none or it does not fit in 32 bits.
pub open spec fn release_field(s: Seq<char>, k: int) -> u32 {
    if k < digit_runs(s).len() && digits_value(digit_runs(s)[k]) <= u32::MAX {
        digits_value(digit_runs(s)[k]) as u32
    } else {
        0
    }
}

/// The number a run of digits writes, when it fits in 32 bits.
fn parse_digits(run: &str) -> (r: u32)
    requires
        forall|i: int| 0 <= i < run@.len() ==> is_digit(#[trigger] run@[i]),
    ensures
        digits_value(run@) <= u32::MAX ==> r == digits_value(run@),
        digits_value(run@) > u32::MAX ==> r == 0,
{
    let n = run.unicode_len();
    let mut acc: u64 = 0;
    let mut over = false;
    let mut i: usize = 0;
    while i < n
        invariant
            n == run@.len(),
            i <= n,
            forall|j: int| 0 <= j < run@.len() ==> is_digit(#[trigger] run@[j]),
            !over ==> acc == digits_value(run@.take(i as int)) && acc <= u32::MAX,
            over ==> digits_value(run@.take(i as int)) > u32::MAX,
        decreases n - i,
    {
        let c = run.get_char(i);
        let d: u64 = (c as u32 - '0' as u32) as u64;
        assert(run@.take(i + 1).drop_last() =~= run@.take(i as int));
        assert(run@.take(i + 1).last() == c);
        if !over {
            acc = acc * 10 + d;
            if acc > u32::MAX as u64 {
                over = true;
            }
        }
        i = i + 1;
    }
    assert(run@.take(n as int) =~= run@);
    if over {
        0
    } else {
        acc as u32
    }
}

/// The kernel version `(major, minor)` in a release string such as `5.15.0-91-generic`: its
/// first two runs of digits; a number that is missing or does not fit counts as 0.
pub fn parse_kernel_release(release: &str) -> (r: (u32, u32))
    ensures
        r == (release_field(release@, 0), release_field(release@, 1)),
{
    let n = release.unicode_len();
    let mut values: Vec<u32> = Vec::new();
    let mut start: usize = 0;
    let mut i: usize = 0;
    let ghost mut done: Seq<Seq<char>> = Seq::empty();
    while i < n
        invariant
            n == release@.len(),
            start <= i <= n,
            forall|j: int| start <= j < i ==> is_digit(#[trigger] release@[j]),
            digit_runs(release@) == done + digit_runs_from(release@, i as int, start as int),
            values@.len() == done.len(),
            forall|k: int|
                0 <= k < done.len() ==> (#[trigger] values@[k] == (if digits_value(done[k]) <= u32::MAX {
                    digits_value(done[k]) as u32
                } else {
                    0
                })),
            forall|k: int| 0 <= k < done.len() ==> #[trigger] done[k].len() > 0,
        decreases n - i,
    {
        let c = release.get_char(i);
        if !('0' <= c && c <= '9') {
            if start < i {
                let run = release.substring_char(start, i);
                let v = parse_digits(run);
                proof {
                    assert(digit_runs_from(release@, i as int, start as int) == seq![run@] + digit_runs_from(
                        release@,
                        i + 1,
                        i + 1,
                    ));
                    assert(done.push(run@) + digit_runs_from(release@, i + 1, i + 1) =~= done + (seq![run@]
                        + digit_runs_from(release@, i + 1, i + 1)));
                    done = done.push(run@);
                }
                values.push(v);
            } else {
                proof {
                    assert(digit_runs_from(release@, i as int, start as int) =~= digit_runs_from(
                        release@,
                        i + 1,
                        i + 1,
                    ));
                }
            }
            start = i + 1;
        }
        i = i + 1;
    }
    if start < n {
        let run = release.substring_char(start, n);
        let v = parse_digits(run);
        proof {
            assert(digit_runs_from(release@, n as int, start as int) == seq![run@]);
            done = done.push(run@);
        }
        values.push(v);
    } else {
        assert(digit_runs_from(release@, n as int, start as int) =~= Seq::<Seq<char>>::empty());
    }
    assert(digit_runs(release@) =~= done);
    let major = if values.len() > 0 {
        values[0]
    } else {
        0
    };
    let minor = if values.len() > 1 {
        values[1]
    } else {
        0
    };
    (major, minor)
}

} // verus!
