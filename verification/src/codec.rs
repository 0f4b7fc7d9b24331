//! Byte-level primitives of the deterministic tagged wire encoding.
//!
//! Every value the pipeline puts on a channel or on disk is built from
//! four primitives: a little-endian `u64`, a little-endian `u32`, a
//! single-byte `bool`, and a length-prefixed byte string (with UTF-8 text
//! as a special case). Each primitive has a spec-level encoder and
//! decoder and a lemma that decoding undoes encoding with any suffix
//! behind it; composite codecs chain these.

use vstd::prelude::*;

use vstd::bytes::{
    lemma_auto_spec_u32_to_from_le_bytes, lemma_auto_spec_u64_to_from_le_bytes,
    spec_u32_from_le_bytes, spec_u32_to_le_bytes, spec_u64_from_le_bytes, spec_u64_to_le_bytes,
    u32_from_le_bytes, u32_to_le_bytes, u64_from_le_bytes, u64_to_le_bytes,
};
use vstd::slice::{slice_subrange, slice_to_vec};
use vstd::string::StrSliceExecFns;
use vstd::utf8::{decode_utf8, encode_utf8, encode_utf8_decode_utf8, encode_utf8_valid_utf8,
    valid_utf8};

verus! {

/// The suffix of `s` from position `pos` on.
pub open spec fn suffix_from(s: Seq<u8>, pos: int) -> Seq<u8> {
    s.subrange(pos, s.len() as int)
}

/// Encoding of a `u64`: eight bytes, little-endian.
pub open spec fn spec_enc_u64(x: u64) -> Seq<u8> {
    spec_u64_to_le_bytes(x)
}

/// Decode a `u64` from the front of `s`: the value and the count of
/// bytes consumed.
pub open spec fn spec_dec_u64(s: Seq<u8>) -> Option<(u64, int)> {
    if s.len() >= 8 {
        Some((spec_u64_from_le_bytes(s.subrange(0, 8)), 8int))
    } else {
        None
    }
}

/// Decoding a `u64` undoes encoding it, whatever follows.
pub proof fn lemma_dec_u64_enc(x: u64, rest: Seq<u8>)
    ensures
        spec_dec_u64(spec_enc_u64(x) + rest) == Some((x, 8int)),
{
    lemma_auto_spec_u64_to_from_le_bytes();
    assert((spec_enc_u64(x) + rest).subrange(0, 8) =~= spec_enc_u64(x));
}

/// Encoding of a `usize`: widened to a `u64` so the format does not
/// depend on the machine.
pub open spec fn spec_enc_usize(x: usize) -> Seq<u8> {
    spec_enc_u64(x as u64)
}

/// Decode a `usize` from the front of `s`; a value over `usize::MAX` is
/// malformed on this machine.
pub open spec fn spec_dec_usize(s: Seq<u8>) -> Option<(usize, int)> {
    match spec_dec_u64(s) {
        Some((x, n)) => if x <= usize::MAX {
            Some((x as usize, n))
        } else {
            None
        },
        None => None,
    }
}

/// Decoding a `usize` undoes encoding it, whatever follows.
pub proof fn lemma_dec_usize_enc(x: usize, rest: Seq<u8>)
    ensures
        spec_dec_usize(spec_enc_usize(x) + rest) == Some((x, 8int)),
{
    lemma_dec_u64_enc(x as u64, rest);
}

/// Encoding of a `u32`: four bytes, little-endian.
pub open spec fn spec_enc_u32(x: u32) -> Seq<u8> {
    spec_u32_to_le_bytes(x)
}

/// Decode a `u32` from the front of `s`.
pub open spec fn spec_dec_u32(s: Seq<u8>) -> Option<(u32, int)> {
    if s.len() >= 4 {
        Some((spec_u32_from_le_bytes(s.subrange(0, 4)), 4int))
    } else {
        None
    }
}

/// Decoding a `u32` undoes encoding it, whatever follows.
pub proof fn lemma_dec_u32_enc(x: u32, rest: Seq<u8>)
    ensures
        spec_dec_u32(spec_enc_u32(x) + rest) == Some((x, 4int)),
{
    lemma_auto_spec_u32_to_from_le_bytes();
    assert((spec_enc_u32(x) + rest).subrange(0, 4) =~= spec_enc_u32(x));
}

/// Encoding of a `bool`: one byte, 1 for true and 0 for false.
pub open spec fn spec_enc_bool(b: bool) -> Seq<u8> {
    if b {
        seq![1u8]
    } else {
        seq![0u8]
    }
}

/// Decode a `bool` from the front of `s`; any byte beyond 0 and 1 is
/// malformed.
pub open spec fn spec_dec_bool(s: Seq<u8>) -> Option<(bool, int)> {
    if s.len() >= 1 {
        if s[0] == 0u8 {
            Some((false, 1int))
        } else if s[0] == 1u8 {
            Some((true, 1int))
        } else {
            None
        }
    } else {
        None
    }
}

/// Decoding a `bool` undoes encoding it, whatever follows.
pub proof fn lemma_dec_bool_enc(b: bool, rest: Seq<u8>)
    ensures
        spec_dec_bool(spec_enc_bool(b) + rest) == Some((b, 1int)),
{
}

/// Encoding of a byte string: its length as a `u64`, then the bytes.
pub open spec fn spec_enc_bytes(b: Seq<u8>) -> Seq<u8> {
    spec_enc_u64(b.len() as u64) + b
}

/// Decode a length-prefixed byte string from the front of `s`.
pub open spec fn spec_dec_bytes(s: Seq<u8>) -> Option<(Seq<u8>, int)> {
    match spec_dec_u64(s) {
        Some((n, _)) => if n <= s.len() - 8 {
            Some((s.subrange(8, 8 + n as int), 8 + n as int))
        } else {
            None
        },
        None => None,
    }
}

/// A byte string is encodable when its length fits the `u64` prefix;
/// every byte string held in memory is.
pub open spec fn wf_bytes(b: Seq<u8>) -> bool {
    b.len() <= u64::MAX
}

/// Decoding a byte string undoes encoding it, whatever follows.
pub proof fn lemma_dec_bytes_enc(b: Seq<u8>, rest: Seq<u8>)
    requires
        wf_bytes(b),
    ensures
        spec_dec_bytes(spec_enc_bytes(b) + rest) == Some((b, 8 + b.len() as int)),
{
    lemma_auto_spec_u64_to_from_le_bytes();
    let s = spec_enc_bytes(b) + rest;
    assert(s =~= spec_enc_u64(b.len() as u64) + (b + rest));
    lemma_dec_u64_enc(b.len() as u64, b + rest);
    assert(s.subrange(8, 8 + b.len() as int) =~= b);
}

/// Encoding of text: its UTF-8 bytes, length-prefixed.
pub open spec fn spec_enc_str(s: Seq<char>) -> Seq<u8> {
    spec_enc_bytes(encode_utf8(s))
}

/// Decode length-prefixed text from the front of `s`; bytes that are not
/// valid UTF-8 are malformed.
pub open spec fn spec_dec_str(s: Seq<u8>) -> Option<(Seq<char>, int)> {
    match spec_dec_bytes(s) {
        Some((b, n)) => if valid_utf8(b) {
            Some((decode_utf8(b), n))
        } else {
            None
        },
        None => None,
    }
}

/// Text is encodable when its UTF-8 form fits the length prefix; every
/// string held in memory is.
pub open spec fn wf_str(s: Seq<char>) -> bool {
    wf_bytes(encode_utf8(s))
}

/// Decoding text undoes encoding it, whatever follows.
pub proof fn lemma_dec_str_enc(s: Seq<char>, rest: Seq<u8>)
    requires
        wf_str(s),
    ensures
        spec_dec_str(spec_enc_str(s) + rest) == Some(
            (s, 8 + encode_utf8(s).len() as int),
        ),
{
    lemma_dec_bytes_enc(encode_utf8(s), rest);
    encode_utf8_valid_utf8(s);
    encode_utf8_decode_utf8(s);
}

/// Append the encoding of a `u64` to `buf`.
pub fn enc_u64(buf: &mut Vec<u8>, x: u64)
    ensures
        final(buf)@ == old(buf)@ + spec_enc_u64(x),
{
    let mut b = u64_to_le_bytes(x);
    buf.append(&mut b);
}

/// Append the encoding of a `usize` to `buf`.
pub fn enc_usize(buf: &mut Vec<u8>, x: usize)
    ensures
        final(buf)@ == old(buf)@ + spec_enc_usize(x),
{
    enc_u64(buf, x as u64);
}

/// Append the encoding of a `u32` to `buf`.
pub fn enc_u32(buf: &mut Vec<u8>, x: u32)
    ensures
        final(buf)@ == old(buf)@ + spec_enc_u32(x),
{
    let mut b = u32_to_le_bytes(x);
    buf.append(&mut b);
}

/// Append the encoding of a `bool` to `buf`.
pub fn enc_bool(buf: &mut Vec<u8>, b: bool)
    ensures
        final(buf)@ == old(buf)@ + spec_enc_bool(b),
{
    if b {
        buf.push(1u8);
    } else {
        buf.push(0u8);
    }
    assert(final(buf)@ =~= old(buf)@ + spec_enc_bool(b));
}

/// Append the encoding of a byte string to `buf`.
pub fn enc_bytes(buf: &mut Vec<u8>, b: &[u8])
    ensures
        final(buf)@ == old(buf)@ + spec_enc_bytes(b@),
{
    enc_u64(buf, b.len() as u64);
    let mut rest = slice_to_vec(b);
    buf.append(&mut rest);
    assert(final(buf)@ =~= old(buf)@ + spec_enc_bytes(b@));
}

/// Append the encoding of text to `buf`.
pub fn enc_str(buf: &mut Vec<u8>, s: &str)
    ensures
        final(buf)@ == old(buf)@ + spec_enc_str(s@),
{
    let b = s.as_bytes_vec();
    enc_bytes(buf, b.as_slice());
}

/// Decode a `u64` at position `pos` of `data`; returns the value and the
/// position after it.
pub fn dec_u64(data: &[u8], pos: usize) -> (r: Option<(u64, usize)>)
    requires
        pos <= data@.len(),
    ensures
        r matches Some(rv) ==> pos <= rv.1 <= data@.len(),
        match spec_dec_u64(suffix_from(data@, pos as int)) {
            Some(v) => r == Some((v.0, (pos + v.1) as usize)),
            None => r is None,
        },
{
    if data.len() - pos >= 8 {
        let sub = slice_subrange(data, pos, pos + 8);
        let x = u64_from_le_bytes(sub);
        proof {
            assert(sub@ =~= suffix_from(data@, pos as int).subrange(0, 8));
        }
        Some((x, pos + 8))
    } else {
        None
    }
}

/// Decode a `usize` at position `pos` of `data`.
pub fn dec_usize(data: &[u8], pos: usize) -> (r: Option<(usize, usize)>)
    requires
        pos <= data@.len(),
    ensures
        r matches Some(rv) ==> pos <= rv.1 <= data@.len(),
        match spec_dec_usize(suffix_from(data@, pos as int)) {
            Some(v) => r == Some((v.0, (pos + v.1) as usize)),
            None => r is None,
        },
{
    match dec_u64(data, pos) {
        Some((x, pos2)) => {
            if x <= usize::MAX as u64 {
                Some((x as usize, pos2))
            } else {
                None
            }
        },
        None => None,
    }
}

/// Decode a `u32` at position `pos` of `data`.
pub fn dec_u32(data: &[u8], pos: usize) -> (r: Option<(u32, usize)>)
    requires
        pos <= data@.len(),
    ensures
        r matches Some(rv) ==> pos <= rv.1 <= data@.len(),
        match spec_dec_u32(suffix_from(data@, pos as int)) {
            Some(v) => r == Some((v.0, (pos + v.1) as usize)),
            None => r is None,
        },
{
    if data.len() - pos >= 4 {
        let sub = slice_subrange(data, pos, pos + 4);
        let x = u32_from_le_bytes(sub);
        proof {
            assert(sub@ =~= suffix_from(data@, pos as int).subrange(0, 4));
        }
        Some((x, pos + 4))
    } else {
        None
    }
}

/// Decode a `bool` at position `pos` of `data`.
pub fn dec_bool(data: &[u8], pos: usize) -> (r: Option<(bool, usize)>)
    requires
        pos <= data@.len(),
    ensures
        r matches Some(rv) ==> pos <= rv.1 <= data@.len(),
        match spec_dec_bool(suffix_from(data@, pos as int)) {
            Some(v) => r == Some((v.0, (pos + v.1) as usize)),
            None => r is None,
        },
{
    if data.len() - pos >= 1 {
        let b = data[pos];
        assert(b == suffix_from(data@, pos as int)[0]);
        if b == 0u8 {
            Some((false, pos + 1))
        } else if b == 1u8 {
            Some((true, pos + 1))
        } else {
            None
        }
    } else {
        None
    }
}

/// Decode a length-prefixed byte string at position `pos` of `data`.
pub fn dec_bytes(data: &[u8], pos: usize) -> (r: Option<(Vec<u8>, usize)>)
    requires
        pos <= data@.len(),
    ensures
        r matches Some(rv) ==> pos <= rv.1 <= data@.len(),
        match spec_dec_bytes(suffix_from(data@, pos as int)) {
            Some(v) => r matches Some(rv) && rv.0@ == v.0 && rv.1 == pos + v.1,
            None => r is None,
        },
{
    let ghost tail = suffix_from(data@, pos as int);
    match dec_u64(data, pos) {
        Some((n, pos2)) => {
            if n <= (data.len() - pos2) as u64 {
                let n_usize = n as usize;
                let sub = slice_subrange(data, pos2, pos2 + n_usize);
                let v = slice_to_vec(sub);
                proof {
                    assert(v@ =~= tail.subrange(8, 8 + n as int));
                }
                Some((v, pos2 + n_usize))
            } else {
                None
            }
        },
        None => None,
    }
}

/// Relies on `String::from_utf8`: it succeeds exactly on valid UTF-8 and
/// the returned string's characters decode those bytes.
#[verifier::external_body]
fn bytes_to_string(v: Vec<u8>) -> (r: Option<String>)
    ensures
        r is Some <==> valid_utf8(v@),
        r matches Some(s) ==> s@ == decode_utf8(v@),
{
    String::from_utf8(v).ok()
}

/// Decode length-prefixed text at position `pos` of `data`.
pub fn dec_str(data: &[u8], pos: usize) -> (r: Option<(String, usize)>)
    requires
        pos <= data@.len(),
    ensures
        r matches Some(rv) ==> pos <= rv.1 <= data@.len(),
        match spec_dec_str(suffix_from(data@, pos as int)) {
            Some(v) => r matches Some(rv) && rv.0@ == v.0 && rv.1 == pos + v.1,
            None => r is None,
        },
{
    match dec_bytes(data, pos) {
        Some((b, pos2)) => match bytes_to_string(b) {
            Some(s) => Some((s, pos2)),
            None => None,
        },
        None => None,
    }
}

} // verus!
