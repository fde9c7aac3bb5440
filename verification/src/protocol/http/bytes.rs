//! Byte-level scanning helpers shared by the HTTP/1.x and HTTP/2 parsers.
use vstd::prelude::*;

verus! {

/// An optional index, as a mathematical integer.
pub open spec fn opt_int(o: Option<usize>) -> Option<int> {
    match o {
        Some(i) => Some(i as int),
        None => None,
    }
}

/// Index of the first occurrence of `byte` in `s`, if any.
pub open spec fn spec_find_byte_from(s: Seq<u8>, byte: u8, from: int) -> Option<int>
    decreases s.len() - from,
{
    if from < 0 || from >= s.len() {
        None
    } else if s[from] == byte {
        Some(from)
    } else {
        spec_find_byte_from(s, byte, from + 1)
    }
}

pub open spec fn spec_find_byte(s: Seq<u8>, byte: u8) -> Option<int> {
    spec_find_byte_from(s, byte, 0)
}

pub proof fn lemma_find_byte_from(s: Seq<u8>, byte: u8, from: int)
    requires
        0 <= from <= s.len(),
    ensures
        match spec_find_byte_from(s, byte, from) {
            Some(i) => from <= i < s.len() && s[i] == byte && forall|j: int|
                from <= j < i ==> s[j] != byte,
            None => forall|j: int| from <= j < s.len() ==> s[j] != byte,
        },
    decreases s.len() - from,
{
    if from < s.len() && s[from] != byte {
        lemma_find_byte_from(s, byte, from + 1);
    }
}

/// Position of the first `byte` in `data`.
pub fn find_byte(data: &[u8], byte: u8) -> (r: Option<usize>)
    ensures
        opt_int(r) == spec_find_byte(data@, byte),
        match r {
            Some(i) => i < data@.len() && data@[i as int] == byte && forall|j: int|
                0 <= j < i ==> data@[j] != byte,
            None => forall|j: int| 0 <= j < data@.len() ==> data@[j] != byte,
        },
{
    let mut i: usize = 0;
    while i < data.len()
        invariant
            i <= data@.len(),
            spec_find_byte(data@, byte) == spec_find_byte_from(data@, byte, i as int),
        decreases data@.len() - i,
    {
        if data[i] == byte {
            proof { lemma_find_byte_from(data@, byte, 0); }
            return Some(i);
        }
        i = i + 1;
    }
    proof { lemma_find_byte_from(data@, byte, 0); }
    None
}


/// True when `s` holds `\r\n` at positions `i` and `i + 1`.
pub open spec fn crlf_at(s: Seq<u8>, i: int) -> bool {
    0 <= i && i + 1 < s.len() && s[i] == 13u8 && s[i + 1] == 10u8
}

pub open spec fn spec_find_crlf_from(s: Seq<u8>, from: int) -> Option<int>
    decreases s.len() - from,
{
    if from < 0 || from + 1 >= s.len() {
        None
    } else if crlf_at(s, from) {
        Some(from)
    } else {
        spec_find_crlf_from(s, from + 1)
    }
}

/// Index of the first `\r\n` pair in `s`.
pub open spec fn spec_find_crlf(s: Seq<u8>) -> Option<int> {
    spec_find_crlf_from(s, 0)
}

pub proof fn lemma_find_crlf_from(s: Seq<u8>, from: int)
    requires
        0 <= from,
    ensures
        match spec_find_crlf_from(s, from) {
            Some(i) => from <= i && crlf_at(s, i) && forall|j: int| from <= j < i ==> !crlf_at(s, j),
            None => forall|j: int| from <= j ==> !crlf_at(s, j),
        },
    decreases s.len() - from,
{
    if from + 1 < s.len() && !crlf_at(s, from) {
        lemma_find_crlf_from(s, from + 1);
    }
}

/// Position of the first `\r\n` in `data`.
pub fn find_crlf(data: &[u8]) -> (r: Option<usize>)
    ensures
        opt_int(r) == spec_find_crlf(data@),
        match r {
            Some(i) => crlf_at(data@, i as int) && forall|j: int| 0 <= j < i ==> !crlf_at(data@, j),
            None => forall|j: int| 0 <= j ==> !crlf_at(data@, j),
        },
{
    proof { lemma_find_crlf_from(data@, 0); }
    let mut i: usize = 0;
    while data.len() - i >= 2
        invariant
            i <= data@.len(),
            spec_find_crlf(data@) == spec_find_crlf_from(data@, i as int),
            forall|j: int| 0 <= j < i ==> !crlf_at(data@, j),
        decreases data@.len() - i,
    {
        if data[i] == 13u8 && data[i + 1] == 10u8 {
            return Some(i);
        }
        i = i + 1;
    }
    None
}

/// `u8::is_ascii_whitespace`: space, tab, line feed, form feed, carriage return.
pub open spec fn is_ascii_ws(b: u8) -> bool {
    b == 0x20u8 || b == 0x09u8 || b == 0x0au8 || b == 0x0cu8 || b == 0x0du8
}

pub open spec fn spec_trim_start(s: Seq<u8>) -> Seq<u8>
    decreases s.len(),
{
    if s.len() > 0 && is_ascii_ws(s[0]) {
        spec_trim_start(s.drop_first())
    } else {
        s
    }
}

pub open spec fn spec_trim_end(s: Seq<u8>) -> Seq<u8>
    decreases s.len(),
{
    if s.len() > 0 && is_ascii_ws(s.last()) {
        spec_trim_end(s.drop_last())
    } else {
        s
    }
}

/// `s` without its leading and trailing ASCII whitespace.
pub open spec fn spec_trim_ascii(s: Seq<u8>) -> Seq<u8> {
    spec_trim_end(spec_trim_start(s))
}

fn is_ascii_whitespace_byte(b: u8) -> (r: bool)
    ensures
        r == is_ascii_ws(b),
{
    b == 0x20u8 || b == 0x09u8 || b == 0x0au8 || b == 0x0cu8 || b == 0x0du8
}

/// Strips ASCII whitespace from both ends of `data`.
pub fn trim_ascii(data: &[u8]) -> (r: &[u8])
    ensures
        r@ == spec_trim_ascii(data@),
{
    let len = data.len();
    let mut a: usize = 0;
    assert(data@.subrange(0, len as int) =~= data@);
    while a < len && is_ascii_whitespace_byte(data[a])
        invariant
            a <= len,
            len == data@.len(),
            spec_trim_start(data@) == spec_trim_start(data@.subrange(a as int, len as int)),
        decreases len - a,
    {
        assert(data@.subrange(a as int, len as int).drop_first() =~= data@.subrange(
            a + 1,
            len as int,
        ));
        a = a + 1;
    }
    assert(spec_trim_start(data@) == data@.subrange(a as int, len as int));
    let mut b: usize = len;
    while b > a && is_ascii_whitespace_byte(data[b - 1])
        invariant
            a <= b <= len,
            len == data@.len(),
            spec_trim_start(data@) == data@.subrange(a as int, len as int),
            spec_trim_ascii(data@) == spec_trim_end(data@.subrange(a as int, b as int)),
        decreases b - a,
    {
        assert(data@.subrange(a as int, b as int).drop_last() =~= data@.subrange(
            a as int,
            b - 1,
        ));
        b = b - 1;
    }
    &data[a..b]
}

/// The first `min(data.len(), size)` bytes of `data`.
pub fn trim_to_size(data: &[u8], size: usize) -> (r: &[u8])
    ensures
        r@ == data@.take(if size < data@.len() { size as int } else { data@.len() as int }),
{
    let end = if size < data.len() { size } else { data.len() };
    let r = &data[0..end];
    assert(r@ =~= data@.take(end as int));
    r
}

/// True when `s` begins with `prefix`.
pub open spec fn seq_starts_with(s: Seq<u8>, prefix: Seq<u8>) -> bool {
    prefix.len() <= s.len() && s.take(prefix.len() as int) == prefix
}

/// `<[u8]>::starts_with`.
pub fn starts_with(data: &[u8], prefix: &[u8]) -> (r: bool)
    ensures
        r == seq_starts_with(data@, prefix@),
{
    if prefix.len() > data.len() {
        return false;
    }
    let mut i: usize = 0;
    while i < prefix.len()
        invariant
            i <= prefix@.len() <= data@.len(),
            forall|j: int| 0 <= j < i ==> data@[j] == prefix@[j],
        decreases prefix@.len() - i,
    {
        if data[i] != prefix[i] {
            assert(data@.take(prefix@.len() as int)[i as int] != prefix@[i as int]);
            return false;
        }
        i = i + 1;
    }
    assert(data@.take(prefix@.len() as int) =~= prefix@);
    true
}

} // verus!
