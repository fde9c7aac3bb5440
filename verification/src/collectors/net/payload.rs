//! Showing a payload: its first bytes, line by line under a label.
use vstd::prelude::*;
use vstd::string::StringSliceAdditionalSpecFns;
use vstd::utf8::*;

verus! {

/// How many bytes of a payload are shown.
pub const DEFAULT_MAX_PAYLOAD_SIZE: usize = 128;

/// A line without the `\r` that ended it.
pub open spec fn strip_cr(line: Seq<char>) -> Seq<char> {
    if line.len() > 0 && line.last() == '\r' {
        line.drop_last()
    } else {
        line
    }
}

/// The lines of `s` from position `i` on, the current line starting at `start`: a line ends
/// at `\n` (and a `\r` just before it is dropped); a last line with no `\n` is kept as it is,
/// and nothing follows a final `\n`.
pub open spec fn lines_from(s: Seq<char>, i: int, start: int) -> Seq<Seq<char>>
    decreases s.len() - i,
{
    if i >= s.len() {
        if start < s.len() {
            seq![s.subrange(start, s.len() as int)]
        } else {
            Seq::empty()
        }
    } else if s[i] == '\n' {
        seq![strip_cr(s.subrange(start, i))] + lines_from(s, i + 1, i + 1)
    } else {
        lines_from(s, i + 1, start)
    }
}

/// The lines of `s`, as `str::lines` gives them.
pub open spec fn spec_lines(s: Seq<char>) -> Seq<Seq<char>> {
    lines_from(s, 0, 0)
}

/// Lines under a label: the first after `label`, the others indented by ten spaces, each
/// ending in `\n`.
pub open spec fn render_lines(label: Seq<char>, lines: Seq<Seq<char>>) -> Seq<char>
    decreases lines.len(),
{
    if lines.len() == 0 {
        Seq::empty()
    } else {
        render_lines(label, lines.drop_last()) + (if lines.len() == 1 {
            label
        } else {
            "          "@
        }) + lines.last() + "\n"@
    }
}

/// The characters of a payload that are shown: its first bytes when it is longer.
pub open spec fn spec_shown(body: Seq<char>) -> Seq<char> {
    if encode_utf8(body).len() > DEFAULT_MAX_PAYLOAD_SIZE {
        decode_utf8(encode_utf8(body).take(DEFAULT_MAX_PAYLOAD_SIZE as int))
    } else {
        body
    }
}

/// The shown part of a payload ends between two characters.
pub open spec fn cut_ok(body: Seq<char>) -> bool {
    encode_utf8(body).len() > DEFAULT_MAX_PAYLOAD_SIZE ==> is_char_boundary(
        encode_utf8(body),
        DEFAULT_MAX_PAYLOAD_SIZE as int,
    )
}

/// The first bytes of `body` that are shown, when they end between two characters.
pub fn shown_part(body: &str) -> (r: Option<&str>)
    ensures
        r is Some <==> cut_ok(body@),
        r matches Some(s) ==> s@ == spec_shown(body@),
{
    broadcast use encode_utf8_decode_utf8;

    let ghost bytes = encode_utf8(body@);
    assert(body.spec_bytes() == bytes);
    let len = body.as_bytes().len();
    assert(len == bytes.len());
    if len > DEFAULT_MAX_PAYLOAD_SIZE {
        if !body.is_char_boundary(DEFAULT_MAX_PAYLOAD_SIZE) {
            assert(!cut_ok(body@));
            return None;
        }
        let (head, _) = body.split_at(DEFAULT_MAX_PAYLOAD_SIZE);
        assert(head.spec_bytes() == encode_utf8(head@));
        assert(encode_utf8(head@) =~= bytes.take(DEFAULT_MAX_PAYLOAD_SIZE as int));
        assert(head@ == decode_utf8(encode_utf8(head@)));
        assert(cut_ok(body@));
        assert(head@ == spec_shown(body@));
        Some(head)
    } else {
        assert(cut_ok(body@));
        Some(body)
    }
}

proof fn lemma_render_push(label: Seq<char>, lines: Seq<Seq<char>>, x: Seq<char>)
    ensures
        render_lines(label, lines.push(x)) == render_lines(label, lines) + (if lines.len() == 0 {
            label
        } else {
            "          "@
        }) + x + "\n"@,
{
    assert(lines.push(x).drop_last() =~= lines);
}

/// Appends the lines of `s` under `label`.
pub fn push_lines(out: &mut String, label: &str, s: &str)
    ensures
        final(out)@ == old(out)@ + render_lines(label@, spec_lines(s@)),
{
    let ghost out0 = out@;
    let n = s.unicode_len();
    let mut i: usize = 0;
    let mut start: usize = 0;
    let mut first = true;
    let ghost mut done: Seq<Seq<char>> = Seq::empty();
    while i < n
        invariant
            n == s@.len(),
            start <= i <= n,
            first == (done.len() == 0),
            spec_lines(s@) == done + lines_from(s@, i as int, start as int),
            out@ == out0 + render_lines(label@, done),
        decreases n - i,
    {
        if s.get_char(i) == '\n' {
            let mut end = i;
            if end > start && s.get_char(end - 1) == '\r' {
                end = end - 1;
            }
            let line = s.substring_char(start, end);
            let ghost piece = strip_cr(s@.subrange(start as int, i as int));
            assert(line@ =~= piece);
            proof {
                lemma_render_push(label@, done, piece);
            }
            if first {
                out.append(label);
            } else {
                out.append("          ");
            }
            out.append(line);
            out.append("\n");
            proof {
                assert(lines_from(s@, i as int, start as int) == seq![piece] + lines_from(
                    s@,
                    i + 1,
                    i + 1,
                ));
                assert(done.push(piece) + lines_from(s@, i + 1, i + 1) =~= done + (seq![piece]
                    + lines_from(s@, i + 1, i + 1)));
                done = done.push(piece);
            }
            first = false;
            start = i + 1;
        }
        i = i + 1;
    }
    if start < n {
        let line = s.substring_char(start, n);
        proof {
            lemma_render_push(label@, done, line@);
            assert(lines_from(s@, n as int, start as int) == seq![line@]);
        }
        if first {
            out.append(label);
        } else {
            out.append("          ");
        }
        out.append(line);
        out.append("\n");
        proof {
            done = done.push(line@);
        }
    } else {
        assert(lines_from(s@, n as int, start as int) =~= Seq::<Seq<char>>::empty());
    }
    assert(spec_lines(s@) =~= done);
}

/// What is shown of a payload is its first bytes: all of them when there are at most
/// [`DEFAULT_MAX_PAYLOAD_SIZE`], else exactly that many, whenever the cut falls between two
/// characters.
pub proof fn law_shown_is_leading_bytes(body: Seq<char>)
    requires
        cut_ok(body),
    ensures
        encode_utf8(spec_shown(body)) == encode_utf8(body).take(
            if encode_utf8(body).len() > DEFAULT_MAX_PAYLOAD_SIZE {
                DEFAULT_MAX_PAYLOAD_SIZE as int
            } else {
                encode_utf8(body).len() as int
            },
        ),
{
    let bytes = encode_utf8(body);
    if bytes.len() > DEFAULT_MAX_PAYLOAD_SIZE {
        encode_utf8_valid_utf8(body);
        valid_utf8_split(bytes, DEFAULT_MAX_PAYLOAD_SIZE as int);
        assert(bytes.take(DEFAULT_MAX_PAYLOAD_SIZE as int) =~= bytes.subrange(0, DEFAULT_MAX_PAYLOAD_SIZE as int));
        decode_utf8_encode_utf8(bytes.take(DEFAULT_MAX_PAYLOAD_SIZE as int));
    } else {
        assert(bytes.take(bytes.len() as int) =~= bytes);
    }
}

} // verus!
