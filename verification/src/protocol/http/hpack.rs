//! The subset of HPACK (RFC 7541) that the HTTP/2 parser reads: integers with a prefix,
//! plain (not Huffman-coded) string literals, and the first entries of the static table.
use vstd::prelude::*;
use vstd::utf8::*;

use crate::protocol::header_map::HeaderMap;
use crate::text::str_from_utf8;

verus! {

/// The continuation bytes of a prefixed integer: seven bits per byte, least significant
/// group first, a set high bit meaning that another byte follows. Fails at the end of the
/// input, when the sum leaves `usize`, or when the shift reaches the width of `usize`.
pub open spec fn spec_prefixed_int_tail(rest: Seq<u8>, value: usize, shift: usize) -> Option<
    (usize, Seq<u8>),
>
    decreases rest.len(),
{
    if rest.len() == 0 {
        None
    } else {
        let byte = rest[0];
        let add = ((byte & 0x7fu8) as usize) << shift;
        if value + add > usize::MAX {
            None
        } else if byte & 0x80u8 == 0 {
            Some(((value + add) as usize, rest.drop_first()))
        } else if shift + 7 >= usize::BITS {
            None
        } else {
            spec_prefixed_int_tail(rest.drop_first(), (value + add) as usize, (shift + 7) as usize)
        }
    }
}

/// An HPACK integer whose first byte carries the bits of `prefix_mask`, and the bytes after it.
pub open spec fn spec_decode_prefixed_int(data: Seq<u8>, prefix_mask: u8) -> Option<(usize, Seq<u8>)> {
    if data.len() == 0 {
        None
    } else {
        let value = (data[0] & prefix_mask) as usize;
        if value < prefix_mask as usize {
            Some((value, data.drop_first()))
        } else {
            spec_prefixed_int_tail(data.drop_first(), value, 0)
        }
    }
}

pub proof fn lemma_prefixed_int_tail_suffix(rest: Seq<u8>, value: usize, shift: usize)
    ensures
        spec_prefixed_int_tail(rest, value, shift) matches Some((v, r)) ==> r.len() < rest.len()
            && r == rest.subrange(rest.len() - r.len(), rest.len() as int),
    decreases rest.len(),
{
    if rest.len() > 0 {
        let byte = rest[0];
        let add = ((byte & 0x7fu8) as usize) << shift;
        if value + add <= usize::MAX && byte & 0x80u8 != 0 && shift + 7 < usize::BITS {
            lemma_prefixed_int_tail_suffix(rest.drop_first(), (value + add) as usize, (shift + 7) as usize);
            if let Some((v, r)) = spec_prefixed_int_tail(rest, value, shift) {
                assert(r =~= rest.subrange(rest.len() - r.len(), rest.len() as int));
            }
        } else if value + add <= usize::MAX && byte & 0x80u8 == 0 {
            assert(rest.drop_first() =~= rest.subrange(1, rest.len() as int));
        }
    }
}

/// What follows a decoded integer is a proper suffix of the input.
pub proof fn lemma_prefixed_int_suffix(data: Seq<u8>, prefix_mask: u8)
    ensures
        spec_decode_prefixed_int(data, prefix_mask) matches Some((v, r)) ==> r.len() < data.len()
            && r == data.subrange(data.len() - r.len(), data.len() as int),
{
    if data.len() > 0 {
        lemma_prefixed_int_tail_suffix(data.drop_first(), (data[0] & prefix_mask) as usize, 0);
        if let Some((v, r)) = spec_decode_prefixed_int(data, prefix_mask) {
            assert(r =~= data.subrange(data.len() - r.len(), data.len() as int));
        }
    }
}

/// An optional decoded integer with the bytes after it.
pub open spec fn opt_int_rest(o: Option<(usize, &[u8])>) -> Option<(usize, Seq<u8>)> {
    match o {
        Some((v, r)) => Some((v, r@)),
        None => None,
    }
}

/// Decodes an HPACK integer whose first byte carries the bits of `prefix_mask`.
pub fn decode_prefixed_int(data: &[u8], prefix_mask: u8) -> (r: Option<(usize, &[u8])>)
    ensures
        opt_int_rest(r) == spec_decode_prefixed_int(data@, prefix_mask),
{
    let n = data.len();
    if n == 0 {
        return None;
    }
    let mut value: usize = (data[0] & prefix_mask) as usize;
    let mut rest = &data[1..n];
    assert(rest@ =~= data@.drop_first());
    if value < prefix_mask as usize {
        return Some((value, rest));
    }
    let mut shift: usize = 0;
    loop
        invariant
            shift < usize::BITS,
            spec_decode_prefixed_int(data@, prefix_mask) == spec_prefixed_int_tail(
                rest@,
                value,
                shift,
            ),
        decreases rest@.len(),
    {
        let rn = rest.len();
        if rn == 0 {
            return None;
        }
        let byte = rest[0];
        let next = &rest[1..rn];
        assert(next@ =~= rest@.drop_first());
        let add: usize = ((byte & 0x7fu8) as usize) << shift;
        match value.checked_add(add) {
            None => return None,
            Some(v) => {
                value = v;
            },
        }
        rest = next;
        if byte & 0x80u8 == 0 {
            return Some((value, rest));
        }
        shift = shift + 7;
        if shift >= usize::BITS as usize {
            return None;
        }
    }
}

/// A plain HPACK string literal: its length is a 7-bit-prefix integer; a Huffman-coded
/// literal (high bit of the first byte set), a length past the end, or bytes that are not
/// UTF-8 give nothing.
pub open spec fn spec_decode_hpack_string(data: Seq<u8>) -> Option<(Seq<char>, Seq<u8>)> {
    match spec_decode_prefixed_int(data, 0x7fu8) {
        None => None,
        Some((len, rest)) => {
            if len > rest.len() {
                None
            } else if data[0] & 0x80u8 != 0 {
                None
            } else if !valid_utf8(rest.take(len as int)) {
                None
            } else {
                Some((decode_utf8(rest.take(len as int)), rest.skip(len as int)))
            }
        },
    }
}

pub proof fn lemma_hpack_string_suffix(data: Seq<u8>)
    ensures
        spec_decode_hpack_string(data) matches Some((s, r)) ==> r.len() < data.len(),
{
    lemma_prefixed_int_suffix(data, 0x7fu8);
}

/// An optional decoded string with the bytes after it.
pub open spec fn opt_str_rest(o: Option<(&str, &[u8])>) -> Option<(Seq<char>, Seq<u8>)> {
    match o {
        Some((s, r)) => Some((s@, r@)),
        None => None,
    }
}

/// Decodes a plain HPACK string literal.
pub fn decode_hpack_string(data: &[u8]) -> (r: Option<(&str, &[u8])>)
    ensures
        opt_str_rest(r) == spec_decode_hpack_string(data@),
{
    let (len, rest) = match decode_prefixed_int(data, 0x7fu8) {
        Some(p) => p,
        None => return None,
    };
    let rn = rest.len();
    if len > rn {
        return None;
    }
    let value = &rest[0..len];
    let after = &rest[len..rn];
    assert(value@ =~= rest@.take(len as int));
    assert(after@ =~= rest@.skip(len as int));
    if data[0] & 0x80u8 != 0 {
        return None;
    }
    match str_from_utf8(value) {
        Some(s) => Some((s, after)),
        None => None,
    }
}

/// The entries of the HPACK static table that are known here (indices 0 to 14).
pub open spec fn spec_indexed_header(index: int) -> Option<(Seq<char>, Seq<char>)> {
    if index == 0 || index == 1 {
        Some((""@, ""@))
    } else if index == 2 {
        Some((":method"@, "GET"@))
    } else if index == 3 {
        Some((":method"@, "POST"@))
    } else if index == 4 {
        Some((":path"@, "/"@))
    } else if index == 5 {
        Some((":path"@, "/index.html"@))
    } else if index == 6 {
        Some((":scheme"@, "http"@))
    } else if index == 7 {
        Some((":scheme"@, "https"@))
    } else if index == 8 {
        Some((":status"@, "200"@))
    } else if index == 9 {
        Some((":status"@, "204"@))
    } else if index == 10 {
        Some((":status"@, "206"@))
    } else if index == 11 {
        Some((":status"@, "304"@))
    } else if index == 12 {
        Some((":status"@, "400"@))
    } else if index == 13 {
        Some((":status"@, "404"@))
    } else if index == 14 {
        Some((":status"@, "500"@))
    } else {
        None
    }
}

/// An optional name/value pair, by characters.
pub open spec fn opt_pair(o: Option<(&str, &str)>) -> Option<(Seq<char>, Seq<char>)> {
    match o {
        Some((n, v)) => Some((n@, v@)),
        None => None,
    }
}

/// The static-table entry at `index`.
pub fn indexed_header(index: usize) -> (r: Option<(&'static str, &'static str)>)
    ensures
        opt_pair(r) == spec_indexed_header(index as int),
{
    if index == 0 || index == 1 {
        Some(("", ""))
    } else if index == 2 {
        Some((":method", "GET"))
    } else if index == 3 {
        Some((":method", "POST"))
    } else if index == 4 {
        Some((":path", "/"))
    } else if index == 5 {
        Some((":path", "/index.html"))
    } else if index == 6 {
        Some((":scheme", "http"))
    } else if index == 7 {
        Some((":scheme", "https"))
    } else if index == 8 {
        Some((":status", "200"))
    } else if index == 9 {
        Some((":status", "204"))
    } else if index == 10 {
        Some((":status", "206"))
    } else if index == 11 {
        Some((":status", "304"))
    } else if index == 12 {
        Some((":status", "400"))
    } else if index == 13 {
        Some((":status", "404"))
    } else if index == 14 {
        Some((":status", "500"))
    } else {
        None
    }
}

/// Entries 2 to 14 of the static table are those of RFC 7541, Appendix A; entries 0 and 1
/// carry neither name nor value, and there is no entry past 14.
pub proof fn law_static_table_entries(index: int)
    ensures
        spec_indexed_header(0) == Some((""@, ""@)),
        spec_indexed_header(1) == Some((""@, ""@)),
        spec_indexed_header(2) == Some((":method"@, "GET"@)),
        spec_indexed_header(3) == Some((":method"@, "POST"@)),
        spec_indexed_header(4) == Some((":path"@, "/"@)),
        spec_indexed_header(5) == Some((":path"@, "/index.html"@)),
        spec_indexed_header(6) == Some((":scheme"@, "http"@)),
        spec_indexed_header(7) == Some((":scheme"@, "https"@)),
        spec_indexed_header(8) == Some((":status"@, "200"@)),
        spec_indexed_header(9) == Some((":status"@, "204"@)),
        spec_indexed_header(10) == Some((":status"@, "206"@)),
        spec_indexed_header(11) == Some((":status"@, "304"@)),
        spec_indexed_header(12) == Some((":status"@, "400"@)),
        spec_indexed_header(13) == Some((":status"@, "404"@)),
        spec_indexed_header(14) == Some((":status"@, "500"@)),
        index < 0 || index > 14 ==> spec_indexed_header(index) is None,
{
}

/// A block holding one indexed field, for an entry of the static table past the first two,
/// holds that entry alone.
pub proof fn lemma_one_indexed_field(b: u8)
    requires
        0x82u8 <= b <= 0x8eu8,
    ensures
        spec_hpack_fields(seq![b], Map::empty()) == Map::<Seq<char>, Seq<char>>::empty().insert(
            (spec_indexed_header(b - 128)->0).0,
            (spec_indexed_header(b - 128)->0).1,
        ),
{
    assert(b & 0x80u8 != 0 && b & 0x7fu8 == b - 128) by (bit_vector)
        requires
            0x82u8 <= b <= 0x8eu8,
    ;
    let d = seq![b];
    assert(d.drop_first() =~= Seq::<u8>::empty());
    assert(spec_decode_prefixed_int(d, 0x7fu8) == Some(((b - 128) as usize, Seq::<u8>::empty())));
    let (n, v) = spec_indexed_header(b - 128)->0;
    assert(spec_try_indexed_hpack(d) == Some((n, v, Seq::<u8>::empty())));
    let m = Map::<Seq<char>, Seq<char>>::empty().insert(n, v);
    assert(spec_hpack_fields(Seq::<u8>::empty(), m) == m);
}

/// An indexed header field: a 7-bit-prefix index into the static table.
pub open spec fn spec_try_indexed_hpack(data: Seq<u8>) -> Option<(Seq<char>, Seq<char>, Seq<u8>)> {
    match spec_decode_prefixed_int(data, 0x7fu8) {
        None => None,
        Some((index, rest)) => match spec_indexed_header(index as int) {
            None => None,
            Some((name, value)) => Some((name, value, rest)),
        },
    }
}

/// A literal header field: the name is a string literal when its index is 0 and a
/// static-table name otherwise; the value is a string literal.
pub open spec fn spec_try_literal_hpack_entry(data: Seq<u8>) -> Option<(Seq<char>, Seq<char>, Seq<u8>)> {
    if data.len() == 0 {
        None
    } else {
        let first = data[0];
        let mask: Option<u8> = if first & 0x40u8 != 0 {
            Some(0x3fu8)
        } else if first & 0xf0u8 == 0 || first & 0xf0u8 == 0x10u8 {
            Some(0x0fu8)
        } else {
            None
        };
        match mask {
            None => None,
            Some(mask) => match spec_decode_prefixed_int(data, mask) {
                None => None,
                Some((name_index, after_index)) => {
                    let name: Option<(Seq<char>, Seq<u8>)> = if name_index == 0 {
                        spec_decode_hpack_string(after_index)
                    } else {
                        match spec_indexed_header(name_index as int) {
                            Some((n, v)) => Some((n, after_index)),
                            None => None,
                        }
                    };
                    match name {
                        None => None,
                        Some((name, after_name)) => match spec_decode_hpack_string(after_name) {
                            None => None,
                            Some((value, after_value)) => Some((name, value, after_value)),
                        },
                    }
                },
            },
        }
    }
}

pub proof fn lemma_hpack_entries_suffix(data: Seq<u8>)
    ensures
        spec_try_indexed_hpack(data) matches Some((n, v, r)) ==> r.len() < data.len(),
        spec_try_literal_hpack_entry(data) matches Some((n, v, r)) ==> r.len() < data.len(),
{
    lemma_prefixed_int_suffix(data, 0x7fu8);
    lemma_prefixed_int_suffix(data, 0x3fu8);
    lemma_prefixed_int_suffix(data, 0x0fu8);
    if let Some((i, r)) = spec_decode_prefixed_int(data, 0x3fu8) {
        lemma_hpack_string_suffix(r);
        if let Some((n, r2)) = spec_decode_hpack_string(r) {
            lemma_hpack_string_suffix(r2);
        }
        lemma_hpack_string_suffix(r);
    }
    if let Some((i, r)) = spec_decode_prefixed_int(data, 0x0fu8) {
        lemma_hpack_string_suffix(r);
        if let Some((n, r2)) = spec_decode_hpack_string(r) {
            lemma_hpack_string_suffix(r2);
        }
    }
}

/// An optional decoded header field with the bytes after it.
pub open spec fn opt_field_rest(o: Option<(&str, &str, &[u8])>) -> Option<(Seq<char>, Seq<char>, Seq<u8>)> {
    match o {
        Some((n, v, r)) => Some((n@, v@, r@)),
        None => None,
    }
}

/// Decodes an indexed header field.
pub fn try_indexed_hpack(data: &[u8]) -> (r: Option<(&'static str, &'static str, &[u8])>)
    ensures
        opt_field_rest(r) == spec_try_indexed_hpack(data@),
{
    let (index, rest) = match decode_prefixed_int(data, 0x7fu8) {
        Some(p) => p,
        None => return None,
    };
    match indexed_header(index) {
        Some((name, value)) => Some((name, value, rest)),
        None => None,
    }
}

/// Decodes a literal header field.
pub fn try_literal_hpack_entry(data: &[u8]) -> (r: Option<(&str, &str, &[u8])>)
    ensures
        opt_field_rest(r) == spec_try_literal_hpack_entry(data@),
{
    if data.len() == 0 {
        return None;
    }
    let first = data[0];
    let mask: u8 = if first & 0x40u8 != 0 {
        0x3fu8
    } else if first & 0xf0u8 == 0 || first & 0xf0u8 == 0x10u8 {
        0x0fu8
    } else {
        return None;
    };
    let (name_index, after_index) = match decode_prefixed_int(data, mask) {
        Some(p) => p,
        None => return None,
    };
    let (name, after_name): (&str, &[u8]) = if name_index == 0 {
        match decode_hpack_string(after_index) {
            Some(p) => p,
            None => return None,
        }
    } else {
        match indexed_header(name_index) {
            Some((n, v)) => (n, after_index),
            None => return None,
        }
    };
    match decode_hpack_string(after_name) {
        Some((value, after_value)) => Some((name, value, after_value)),
        None => None,
    }
}

/// The header fields of a block, added in order to `acc`. Indexed fields and literal
/// fields are added; table-size updates are skipped; decoding stops at the first field
/// that cannot be read.
pub open spec fn spec_hpack_fields(data: Seq<u8>, acc: Map<Seq<char>, Seq<char>>) -> Map<
    Seq<char>,
    Seq<char>,
>
    decreases data.len(),
{
    if data.len() == 0 {
        acc
    } else {
        proof {
            lemma_hpack_entries_suffix(data);
            lemma_prefixed_int_suffix(data, 0x1fu8);
        }
        if data[0] & 0x80u8 != 0 {
            match spec_try_indexed_hpack(data) {
                Some((n, v, rest)) => spec_hpack_fields(rest, acc.insert(n, v)),
                None => acc,
            }
        } else if data[0] & 0xe0u8 == 0x20u8 {
            match spec_decode_prefixed_int(data, 0x1fu8) {
                Some((size, rest)) => spec_hpack_fields(rest, acc),
                None => acc,
            }
        } else {
            match spec_try_literal_hpack_entry(data) {
                Some((n, v, rest)) => spec_hpack_fields(rest, acc.insert(n, v)),
                None => acc,
            }
        }
    }
}

/// Decodes the header fields of an HPACK block that the static table and plain
/// literals can express.
pub fn parse_hpack_literals(data: &[u8]) -> (r: HeaderMap)
    ensures
        r.wf(),
        r.view() == spec_hpack_fields(data@, Map::empty()),
{
    let mut headers = HeaderMap::new();
    let mut data = data;
    let ghost orig = data@;
    while data.len() > 0
        invariant
            headers.wf(),
            spec_hpack_fields(orig, Map::empty()) == spec_hpack_fields(data@, headers.view()),
        ensures
            headers.wf(),
            spec_hpack_fields(orig, Map::empty()) == headers.view(),
        decreases data@.len(),
    {
        proof {
            lemma_hpack_entries_suffix(data@);
            lemma_prefixed_int_suffix(data@, 0x1fu8);
        }
        let first = data[0];
        if first & 0x80u8 != 0 {
            match try_indexed_hpack(data) {
                Some((name, value, rest)) => {
                    headers.insert(name.to_owned(), value.to_owned());
                    data = rest;
                },
                None => break,
            }
        } else if first & 0xe0u8 == 0x20u8 {
            match decode_prefixed_int(data, 0x1fu8) {
                Some((size, rest)) => {
                    data = rest;
                },
                None => break,
            }
        } else {
            match try_literal_hpack_entry(data) {
                Some((name, value, rest)) => {
                    headers.insert(name.to_owned(), value.to_owned());
                    data = rest;
                },
                None => break,
            }
        }
    }
    headers
}

} // verus!
