//! Protobuf wire-format primitives: base-128 varints, the payload of a single
//! length-delimited string field, and a spec-level reader that recovers the
//! field's contents from its bytes.
//!
//! The encoder emits the canonical encoding of a bare string field's payload
//! (the varint length followed by the UTF-8 bytes, without the leading field-1
//! tag byte), base64-encoded for embedding inside a larger field tree.

use vstd::prelude::*;

verus! {

use vstd::string::StringSliceAdditionalSpecFns;

/// The bytes of `n` in protobuf's base-128 varint encoding: least-significant
/// seven-bit group first, with the high bit of a byte set when more groups
/// follow.
pub open spec fn varint_bytes(n: nat) -> Seq<u8>
    decreases n,
{
    if n < 128 {
        seq![n as u8]
    } else {
        seq![(128 + (n % 128)) as u8] + varint_bytes(n / 128)
    }
}

/// The payload of a length-delimited string field holding `data`: the varint
/// byte length followed by the bytes themselves. The single tag byte that
/// would precede this payload in a full message is deliberately absent; the
/// remote service wraps the payload in its own envelope and a second tag
/// would double-encode it.
pub open spec fn string_field_payload(data: Seq<u8>) -> Seq<u8> {
    varint_bytes(data.len()) + data
}

/// Reads one varint from the front of `b`; returns its value and the bytes
/// that follow it, or `None` if `b` ends inside the varint.
pub open spec fn read_varint(b: Seq<u8>) -> Option<(nat, Seq<u8>)>
    decreases b.len(),
{
    if b.len() == 0 {
        None
    } else if b[0] < 128 {
        Some(((b[0] as nat), b.drop_first()))
    } else {
        match read_varint(b.drop_first()) {
            Some(p) => Some((((b[0] - 128) as nat + 128 * p.0), p.1)),
            None => None,
        }
    }
}

/// Reads an entire buffer as one length-delimited string field numbered 1
/// (tag byte 10): checks the tag, reads the varint length, and returns the
/// field's bytes when they fill the rest of the buffer exactly.
pub open spec fn read_string_field(b: Seq<u8>) -> Option<Seq<u8>> {
    if b.len() == 0 || b[0] != 10 {
        None
    } else {
        match read_varint(b.drop_first()) {
            Some(p) => if p.1.len() == p.0 {
                Some(p.1)
            } else {
                None
            },
            None => None,
        }
    }
}

pub proof fn lemma_read_varint_round_trip(n: nat, rest: Seq<u8>)
    ensures
        read_varint(varint_bytes(n) + rest) == Some((n, rest)),
    decreases n,
{
    if n < 128 {
        assert((varint_bytes(n) + rest).drop_first() =~= rest);
    } else {
        lemma_read_varint_round_trip(n / 128, rest);
        assert((varint_bytes(n) + rest).drop_first() =~= varint_bytes(n / 128) + rest);
        vstd::arithmetic::div_mod::lemma_fundamental_div_mod(n as int, 128);
    }
}

/// The machine limit under which the encoder cannot overflow: the length of
/// the base64 rendering of the payload (four characters for every started
/// group of three bytes) must be computable in `usize`. The ten extra bytes
/// leave room for the longest possible varint length prefix.
pub open spec fn wire_encodable(data: Seq<u8>) -> bool {
    data.len() + 10 <= usize::MAX / 4
}

/// What `base64::engine::general_purpose::STANDARD.encode` returns for the
/// given bytes: base64 with the standard alphabet and padding. The result
/// depends on the input bytes alone.
pub uninterp spec fn base64_std_of(b: Seq<u8>) -> Seq<char>;

/// Relies on `base64::engine::general_purpose::STANDARD.encode` (through the
/// `base64::Engine` trait) for the base64 rendering itself. The crate's
/// `encoded_len` shows the output length: four characters for every started
/// group of three input bytes; the engine panics only when that length
/// overflows `usize`, which the precondition rules out.
#[verifier::external_body]
pub(crate) fn base64_encode(b: &Vec<u8>) -> (r: String)
    requires
        b@.len() <= usize::MAX / 4,
    ensures
        r@ == base64_std_of(b@),
        r@.len() == 4 * ((b@.len() + 2) / 3),
{
    base64::Engine::encode(&base64::engine::general_purpose::STANDARD, b)
}

/// Appends the varint encoding of `n` to `out`.
pub(crate) fn encode_varint(n: usize, out: &mut Vec<u8>)
    ensures
        final(out)@ == old(out)@ + varint_bytes(n as nat),
    decreases n,
{
    if n < 128 {
        out.push(n as u8);
        assert(out@ =~= old(out)@ + varint_bytes(n as nat));
    } else {
        out.push((128 + (n % 128)) as u8);
        encode_varint(n / 128, out);
        assert(out@ =~= old(out)@ + varint_bytes(n as nat));
    }
}

proof fn lemma_varint_bytes_len_le(n: nat, k: nat)
    requires
        1 <= k,
        n < vstd::arithmetic::power::pow(128, k),
    ensures
        varint_bytes(n).len() <= k,
    decreases n,
{
    reveal_with_fuel(vstd::arithmetic::power::pow, 2);
    if n >= 128 {
        vstd::arithmetic::div_mod::lemma_multiply_divide_lt(
            n as int,
            128,
            vstd::arithmetic::power::pow(128, (k - 1) as nat),
        );
        lemma_varint_bytes_len_le(n / 128, (k - 1) as nat);
    }
}

/// Any value that fits in `usize` has a varint encoding of at most ten bytes.
pub proof fn lemma_varint_bytes_len10(n: nat)
    requires
        n <= usize::MAX,
    ensures
        varint_bytes(n).len() <= 10,
{
    reveal_with_fuel(vstd::arithmetic::power::pow, 11);
    assert(vstd::arithmetic::power::pow(128, 10) == 0x400000000000000000);
    lemma_varint_bytes_len_le(n, 10);
}

/// Builds the base64-encoded payload of a single string field holding the
/// UTF-8 bytes of `data`.
pub(crate) fn encode_string_payload(data: &str) -> (r: String)
    requires
        wire_encodable(data.spec_bytes()),
    ensures
        r@ == base64_std_of(string_field_payload(data.spec_bytes())),
{
    let bytes: &[u8] = data.as_bytes();
    let mut payload: Vec<u8> = Vec::new();
    encode_varint(bytes.len(), &mut payload);
    proof {
        lemma_varint_bytes_len10(bytes@.len());
    }
    let n = bytes.len();
    let mut i: usize = 0;
    while i < n
        invariant
            i <= n,
            n == bytes@.len(),
            payload@ == varint_bytes(bytes@.len()) + bytes@.take(i as int),
            payload@.len() <= 10 + i,
        decreases n - i,
    {
        payload.push(bytes[i]);
        i += 1;
        assert(payload@ =~= varint_bytes(bytes@.len()) + bytes@.take(i as int));
    }
    assert(payload@ =~= string_field_payload(bytes@));
    base64_encode(&payload)
}

/// Every byte sequence round-trips through the wire encoding: re-prepending
/// the stripped field-1 tag to the payload and reading the result back as a
/// protobuf length-delimited string field yields exactly the original bytes.
pub proof fn lemma_wire_round_trip(data: Seq<u8>)
    ensures
        read_string_field(seq![10u8] + string_field_payload(data)) == Some(data),
{
    let b = seq![10u8] + string_field_payload(data);
    assert(b.drop_first() =~= varint_bytes(data.len()) + data);
    lemma_read_varint_round_trip(data.len(), data);
}

/// For every string, the encoder's payload reads back to exactly that
/// string's UTF-8 bytes once the stripped tag byte is re-prepended.
pub proof fn lemma_encode_round_trip(s: Seq<char>)
    ensures
        read_string_field(
            seq![10u8] + string_field_payload(vstd::utf8::encode_utf8(s)),
        ) == Some(vstd::utf8::encode_utf8(s)),
{
    lemma_wire_round_trip(vstd::utf8::encode_utf8(s));
}

} // verus!
