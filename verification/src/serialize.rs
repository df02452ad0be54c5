//! The wire format shared with Ray's other language runtimes.
//!
//! Ray encodes objects as msgpack. Data read or written by Python carries a
//! nine-byte XLANG header in front of the msgpack payload: the payload length
//! as a msgpack unsigned integer, padded to nine bytes. Since Ray 2.51.1 the
//! padding may hold metadata, so a header is recognised by its length field
//! alone.

use vstd::prelude::*;

use crate::error::RayError;

verus! {

/// Length of the XLANG header.
pub const XLANG_HEADER_LEN: usize = 9;

/// The msgpack encoding of a payload length, as the XLANG header writes it:
/// positive fixint, uint8, uint16 or uint32 (a length of 2^32 or more is
/// written as uint32 of its low 32 bits).
pub open spec fn length_prefix(n: nat) -> Seq<u8> {
    if n <= 0x7f {
        seq![n as u8]
    } else if n <= 0xff {
        seq![0xccu8, n as u8]
    } else if n <= 0xffff {
        seq![0xcdu8, (n / 0x100) as u8, (n % 0x100) as u8]
    } else {
        let m = n % 0x1_0000_0000;
        seq![
            0xceu8,
            (m / 0x100_0000) as u8,
            ((m / 0x1_0000) % 0x100) as u8,
            ((m / 0x100) % 0x100) as u8,
            (m % 0x100) as u8,
        ]
    }
}

/// The XLANG header for a payload of `n` bytes: the length prefix followed by
/// zero bytes up to nine bytes.
pub open spec fn xlang_header(n: nat) -> Seq<u8> {
    let p = length_prefix(n);
    p + Seq::new((9 - p.len()) as nat, |i: int| 0u8)
}

/// The payload length that the first bytes of `data` declare, read as a
/// msgpack unsigned integer in one of the four forms a header uses.
pub open spec fn declared_len(data: Seq<u8>) -> Option<nat>
    recommends
        data.len() >= 5,
{
    let h = data[0];
    if h <= 0x7f {
        Some(h as nat)
    } else if h == 0xcc {
        Some(data[1] as nat)
    } else if h == 0xcd {
        Some((data[1] * 0x100 + data[2]) as nat)
    } else if h == 0xce {
        Some((((data[1] * 0x100 + data[2]) * 0x100 + data[3]) * 0x100 + data[4]) as nat)
    } else {
        None
    }
}

/// `data` starts with an XLANG header: it is longer than the header, and the
/// length the header declares is that of what follows the header.
pub open spec fn is_xlang(data: Seq<u8>) -> bool {
    &&& data.len() > 9
    &&& declared_len(data) == Some((data.len() - 9) as nat)
}

/// The msgpack payload of `data`: what follows the header when there is one,
/// else all of `data`.
pub open spec fn payload_of(data: Seq<u8>) -> Seq<u8> {
    if is_xlang(data) {
        data.subrange(9, data.len() as int)
    } else {
        data
    }
}

/// A payload wrapped with its XLANG header.
pub open spec fn framed(payload: Seq<u8>) -> Seq<u8> {
    xlang_header(payload.len()) + payload
}

/// Builds the nine-byte XLANG header for a payload of `data_len` bytes.
pub fn build_xlang_header(data_len: usize) -> (h: [u8; 9])
    ensures
        h@ == xlang_header(data_len as nat),
{
    let h: [u8; 9];
    if data_len <= 0x7f {
        h = [data_len as u8, 0, 0, 0, 0, 0, 0, 0, 0];
    } else if data_len <= 0xff {
        h = [0xcc, data_len as u8, 0, 0, 0, 0, 0, 0, 0];
    } else if data_len <= 0xffff {
        h = [0xcd, (data_len / 0x100) as u8, (data_len % 0x100) as u8, 0, 0, 0, 0, 0, 0];
    } else {
        let m: u64 = (data_len as u64) % 0x1_0000_0000;
        h = [
            0xce,
            (m / 0x100_0000) as u8,
            ((m / 0x1_0000) % 0x100) as u8,
            ((m / 0x100) % 0x100) as u8,
            (m % 0x100) as u8,
            0,
            0,
            0,
            0,
        ];
    }
    assert(h@ =~= xlang_header(data_len as nat));
    h
}


/// Checks whether `data` starts with an XLANG header: the first bytes decode
/// as a msgpack unsigned integer equal to the number of bytes after the
/// nine-byte header. The padding is not inspected.
pub fn has_xlang_header(data: &[u8]) -> (r: bool)
    ensures
        r == is_xlang(data@),
{
    if data.len() <= XLANG_HEADER_LEN {
        return false;
    }
    let payload_len: u64 = (data.len() - XLANG_HEADER_LEN) as u64;
    let h = data[0];
    if h <= 0x7f {
        h as u64 == payload_len
    } else if h == 0xcc {
        data[1] as u64 == payload_len
    } else if h == 0xcd {
        (data[1] as u64) * 0x100 + (data[2] as u64) == payload_len
    } else if h == 0xce {
        (((data[1] as u64) * 0x100 + (data[2] as u64)) * 0x100 + (data[3] as u64)) * 0x100
            + (data[4] as u64) == payload_len
    } else {
        false
    }
}

/// Wraps an encoded payload with the XLANG header, so that Ray's
/// cross-language path (Python) reads it.
pub fn frame_xlang(payload: &[u8]) -> (r: Vec<u8>)
    ensures
        r@ == framed(payload@),
{
    let header = build_xlang_header(payload.len());
    let mut buf: Vec<u8> = Vec::new();
    let mut i: usize = 0;
    while i < XLANG_HEADER_LEN
        invariant
            i <= 9,
            header@ == xlang_header(payload@.len()),
            buf@ == header@.take(i as int),
        decreases 9 - i,
    {
        buf.push(header[i]);
        assert(buf@ =~= header@.take(i + 1));
        i = i + 1;
    }
    let mut j: usize = 0;
    while j < payload.len()
        invariant
            j <= payload.len(),
            buf@ == header@ + payload@.take(j as int),
        decreases payload.len() - j,
    {
        buf.push(payload[j]);
        assert(buf@ =~= header@ + payload@.take(j + 1));
        j = j + 1;
    }
    assert(payload@.take(j as int) =~= payload@);
    buf
}

/// Selects the msgpack payload of cross-language result bytes: strips the
/// XLANG header when one is present, and keeps the bytes unchanged otherwise
/// (as in local mode).
pub fn xlang_payload(data: &[u8]) -> (r: &[u8])
    ensures
        r@ == payload_of(data@),
{
    if has_xlang_header(data) {
        let r = &data[XLANG_HEADER_LEN..data.len()];
        assert(r@ =~= data@.subrange(9, data@.len() as int));
        r
    } else {
        data
    }
}

/// Every header is nine bytes long, so a framed payload is nine bytes
/// longer than the payload.
pub proof fn lemma_frame_len(payload: Seq<u8>)
    ensures
        xlang_header(payload.len()).len() == 9,
        framed(payload).len() == 9 + payload.len(),
{
}

/// The number of bytes of the length field that starts with byte `h`.
pub open spec fn length_field_width(h: u8) -> nat {
    if h <= 0x7f {
        1
    } else if h == 0xcc {
        2
    } else if h == 0xcd {
        3
    } else {
        5
    }
}

/// Header detection reads the length field alone: two byte strings of the
/// same length that agree on the length field are both recognised or both
/// not, whatever the rest of their headers (padding or metadata) holds.
pub proof fn lemma_padding_ignored(d1: Seq<u8>, d2: Seq<u8>)
    requires
        d1.len() == d2.len(),
        d1.len() > 0,
        forall|i: int| 0 <= i < length_field_width(d1[0]) && i < d1.len() ==> d1[i] == d2[i],
    ensures
        is_xlang(d1) == is_xlang(d2),
{
    assert(d1[0] == d2[0]);
    if d1.len() > 9 {
        if d1[0] == 0xcc {
            assert(d1[1] == d2[1]);
        } else if d1[0] == 0xcd {
            assert(d1[1] == d2[1] && d1[2] == d2[2]);
        } else if d1[0] == 0xce {
            assert(d1[1] == d2[1] && d1[2] == d2[2] && d1[3] == d2[3] && d1[4] == d2[4]);
        }
    }
}

/// A header declares the length it was built for, up to 2^32 - 1 bytes.
pub proof fn lemma_header_declares_len(n: nat)
    requires
        n < 0x1_0000_0000,
    ensures
        xlang_header(n).len() == 9,
        declared_len(xlang_header(n)) == Some(n),
{
    let h = xlang_header(n);
    if n > 0xffff {
        let m = n % 0x1_0000_0000;
        assert(m == n);
        assert(h[1] == m / 0x100_0000);
        assert(h[2] == (m / 0x1_0000) % 0x100);
        assert(h[3] == (m / 0x100) % 0x100);
        assert(h[4] == m % 0x100);
        assert((((m / 0x100_0000) * 0x100 + (m / 0x1_0000) % 0x100) * 0x100 + (m / 0x100)
            % 0x100) * 0x100 + m % 0x100 == m) by (nonlinear_arith)
            requires
                m < 0x1_0000_0000,
        ;
    } else if n > 0xff {
        assert((n / 0x100) * 0x100 + n % 0x100 == n) by (nonlinear_arith);
    }
}

/// Framing then stripping gives the payload back: a framed payload of 1 to
/// 2^32 - 1 bytes is recognised as carrying an XLANG header, and the payload
/// selected from it is the payload itself. (An empty payload frames to
/// exactly nine bytes, which is never taken for a header.)
pub proof fn lemma_frame_then_payload(payload: Seq<u8>)
    requires
        0 < payload.len() < 0x1_0000_0000,
    ensures
        is_xlang(framed(payload)),
        payload_of(framed(payload)) == payload,
{
    let n = payload.len();
    lemma_header_declares_len(n);
    let f = framed(payload);
    let h = xlang_header(n);
    assert(f.len() == 9 + n);
    assert forall|i: int| 0 <= i < 5 implies f[i] == h[i] by {}
    assert(declared_len(f) == declared_len(h));
    assert(f.subrange(9, f.len() as int) =~= payload);
}


/// A dynamically typed msgpack value (`rmpv::Value`).
#[verifier::external_type_specification]
#[verifier::external_body]
pub struct ExMsgpackValue(rmpv::Value);

/// What `rmpv::decode::read_value` gives when it reads one msgpack value
/// from the front of `bytes`: the value, or the text (`Display`) of its
/// error.
pub uninterp spec fn msgpack_read(bytes: Seq<u8>) -> Result<rmpv::Value, Seq<char>>;

/// Decodes one msgpack value from the front of `bytes`, with
/// `rmpv::decode::read_value` reading from the byte slice; a failure is
/// handed back as the text of rmpv's error. The contract claims only that
/// the outcome, value or error text, is determined by the bytes (named
/// `msgpack_read`); which byte strings decode, to what, and with which
/// error text, is rmpv's.
#[verifier::external_body]
fn read_msgpack_value(bytes: &[u8]) -> (r: Result<rmpv::Value, String>)
    ensures
        match r {
            Ok(v) => msgpack_read(bytes@) == Ok::<rmpv::Value, Seq<char>>(v),
            Err(t) => msgpack_read(bytes@) == Err::<rmpv::Value, Seq<char>>(t@),
        },
{
    let mut reader = bytes;
    match rmpv::decode::read_value(&mut reader) {
        Ok(v) => Ok(v),
        Err(e) => Err(e.to_string()),
    }
}

/// The message of a failed msgpack value decode whose rmpv error text is
/// `text`.
pub open spec fn value_decode_message(text: Seq<char>) -> Seq<char> {
    "msgpack value decode error: "@ + text
}

/// The outcome of decoding `bytes` as one msgpack value: the value, or a
/// serialization error whose message is the decode-error prefix followed by
/// rmpv's error text.
pub open spec fn value_decoded(bytes: Seq<u8>, r: Result<rmpv::Value, RayError>) -> bool {
    match msgpack_read(bytes) {
        Ok(v) => r == Ok::<rmpv::Value, RayError>(v),
        Err(text) => r matches Err(RayError::Serialization(m)) && m@ == value_decode_message(text),
    }
}

/// Deserializes raw msgpack bytes (no XLANG header) into a generic msgpack
/// value.
pub fn deserialize_value(data: &[u8]) -> (r: Result<rmpv::Value, RayError>)
    ensures
        value_decoded(data@, r),
{
    match read_msgpack_value(data) {
        Ok(v) => Ok(v),
        Err(text) => {
            let m = String::from_str("msgpack value decode error: ").concat(text.as_str());
            Err(RayError::Serialization(m))
        },
    }
}

/// Deserializes cross-language (Python) result bytes into a generic msgpack
/// value, for callers that do not know the type of the value: the XLANG
/// header is stripped when present, and the bytes are decoded as they are
/// otherwise. The outcome, error text included, is that of
/// `deserialize_value` on the selected payload.
pub fn deserialize_xlang_value(data: &[u8]) -> (r: Result<rmpv::Value, RayError>)
    ensures
        value_decoded(payload_of(data@), r),
{
    deserialize_value(xlang_payload(data))
}

} // verus!
