//! The control-plane byte envelope.
//!
//! Commands travel to a running engine as a self-describing envelope: one
//! tag byte naming the command kind, a little-endian length prefix, and the
//! command payload.  Decoding validates the whole envelope before anything
//! is applied, so a malformed or unknown command is rejected without side
//! effects.

use vstd::prelude::*;

verus! {

/// Envelope tag of the `NewConfig` command.
pub const TAG_NEW_CONFIG: u8 = 1;

/// A decoded control-plane command.
#[derive(Debug)]
pub enum ControlRequest {
    /// Replace the engine's configuration with the one encoded in the
    /// payload (each engine type defines its own configuration encoding).
    NewConfig(Vec<u8>),
}

/// Why an envelope was rejected.
#[derive(Clone, Copy, PartialEq, Eq, Structural, Debug)]
pub enum DecodeError {
    /// Shorter than its header or its declared payload length.
    Truncated,
    /// The tag byte names no known command.
    UnknownTag,
    /// Bytes follow the declared payload.
    TrailingBytes,
}

/// Why an engine rejected an out-of-band command.  Rejection never leaves a
/// partially applied command behind.
#[derive(Clone, Copy, PartialEq, Eq, Structural, Debug)]
pub enum ControlError {
    /// The envelope itself is malformed.
    Decode(DecodeError),
    /// The envelope is well-formed but its payload is not a valid
    /// configuration for this engine.
    BadConfig,
}

/// The little-endian bytes of a 32-bit length.
pub open spec fn spec_u32_le(x: u32) -> Seq<u8> {
    seq![
        (x as int % 256) as u8,
        (x as int / 256 % 256) as u8,
        (x as int / 65536 % 256) as u8,
        (x as int / 16777216 % 256) as u8,
    ]
}

/// The value of four little-endian bytes.
pub open spec fn spec_le_val(b: Seq<u8>) -> int {
    b[0] + 256 * (b[1] + 256 * (b[2] + 256 * b[3]))
}

/// Little-endian encoding and decoding of a 32-bit value are inverse.
pub proof fn lemma_u32_le_round_trip(x: u32)
    ensures
        spec_le_val(spec_u32_le(x)) == x,
{
}

/// The envelope bytes of a `NewConfig` command with the given payload.
pub open spec fn spec_encode_new_config(payload: Seq<u8>) -> Seq<u8> {
    seq![TAG_NEW_CONFIG] + spec_u32_le(payload.len() as u32) + payload
}

/// What decoding a byte string yields: the payload of the command, or the
/// exact reason the envelope is rejected.
pub open spec fn spec_decode_request(b: Seq<u8>) -> Result<Seq<u8>, DecodeError> {
    if b.len() < 5 {
        Err(DecodeError::Truncated)
    } else if b[0] != TAG_NEW_CONFIG {
        Err(DecodeError::UnknownTag)
    } else {
        let len = spec_le_val(b.subrange(1, 5));
        if b.len() - 5 < len {
            Err(DecodeError::Truncated)
        } else if b.len() - 5 > len {
            Err(DecodeError::TrailingBytes)
        } else {
            Ok(b.subrange(5, 5 + len))
        }
    }
}

/// Decoding inverts encoding: a round trip through the envelope returns the
/// payload that was encoded, whenever it fits the length prefix.
pub proof fn lemma_request_round_trip(payload: Seq<u8>)
    requires
        payload.len() <= u32::MAX,
    ensures
        spec_decode_request(spec_encode_new_config(payload)) == Ok::<Seq<u8>, DecodeError>(
            payload,
        ),
{
    let b = spec_encode_new_config(payload);
    assert(b.subrange(1, 5) =~= spec_u32_le(payload.len() as u32));
    lemma_u32_le_round_trip(payload.len() as u32);
    assert(b.subrange(5, 5 + payload.len() as int) =~= payload);
}

/// An envelope whose tag byte is unknown is always rejected, whatever
/// follows it.
pub proof fn lemma_unknown_tag_rejected(b: Seq<u8>)
    requires
        b.len() >= 5,
        b[0] != TAG_NEW_CONFIG,
    ensures
        spec_decode_request(b) == Err::<Seq<u8>, DecodeError>(DecodeError::UnknownTag),
{
}

fn encode_u32_le(x: u32, out: &mut Vec<u8>)
    ensures
        final(out)@ == old(out)@ + spec_u32_le(x),
{
    out.push((x % 256) as u8);
    out.push((x / 256 % 256) as u8);
    out.push((x / 65536 % 256) as u8);
    out.push((x / 16777216 % 256) as u8);
    assert(out@ =~= old(out)@ + spec_u32_le(x));
}

/// Encodes a command into its envelope bytes.
pub fn encode_request(r: &ControlRequest) -> (out: Vec<u8>)
    requires
        (match *r {
            ControlRequest::NewConfig(payload) => payload.len() <= u32::MAX,
        }),
    ensures
        (match *r {
            ControlRequest::NewConfig(payload) => out@ == spec_encode_new_config(payload@),
        }),
{
    match r {
        ControlRequest::NewConfig(payload) => {
            let mut out: Vec<u8> = Vec::new();
            out.push(TAG_NEW_CONFIG);
            encode_u32_le(payload.len() as u32, &mut out);
            let mut k: usize = 0;
            let n = payload.len();
            while k < n
                invariant
                    k <= n,
                    n == payload@.len(),
                    n <= u32::MAX,
                    out@ == seq![TAG_NEW_CONFIG] + spec_u32_le(n as u32) + payload@.subrange(
                        0,
                        k as int,
                    ),
                decreases n - k,
            {
                out.push(payload[k]);
                assert(payload@.subrange(0, k + 1 as int) =~= payload@.subrange(0, k as int).push(
                    payload@[k as int],
                ));
                k = k + 1;
            }
            assert(payload@.subrange(0, n as int) =~= payload@);
            out
        },
    }
}

/// Decodes an envelope, validating tag, length and framing; rejection names
/// the exact fault and implies nothing was applied.
pub fn decode_request(b: &Vec<u8>) -> (r: Result<ControlRequest, DecodeError>)
    ensures
        match r {
            Ok(req) => (match req {
                ControlRequest::NewConfig(payload) => spec_decode_request(b@) == Ok::<
                    Seq<u8>,
                    DecodeError,
                >(payload@),
            }),
            Err(e) => spec_decode_request(b@) == Err::<Seq<u8>, DecodeError>(e),
        },
{
    if b.len() < 5 {
        return Err(DecodeError::Truncated);
    }
    if b[0] != TAG_NEW_CONFIG {
        return Err(DecodeError::UnknownTag);
    }
    let len: u32 = (b[1] as u32) + 256 * (b[2] as u32) + 65536 * (b[3] as u32) + 16777216 * (
    b[4] as u32);
    proof {
        assert(b@.subrange(1, 5)[0] == b@[1]);
        assert(b@.subrange(1, 5)[1] == b@[2]);
        assert(b@.subrange(1, 5)[2] == b@[3]);
        assert(b@.subrange(1, 5)[3] == b@[4]);
    }
    let body = b.len() - 5;
    if body < len as usize {
        return Err(DecodeError::Truncated);
    }
    if body > len as usize {
        return Err(DecodeError::TrailingBytes);
    }
    let mut payload: Vec<u8> = Vec::new();
    let mut k: usize = 0;
    while k < body
        invariant
            k <= body,
            body == b@.len() - 5,
            body <= usize::MAX - 5,
            payload@ == b@.subrange(5, 5 + k as int),
        decreases body - k,
    {
        payload.push(b[5 + k]);
        assert(b@.subrange(5, 5 + (k + 1 as int)) =~= b@.subrange(5, 5 + k as int).push(
            b@[5 + k as int],
        ));
        k = k + 1;
    }
    proof {
        assert(payload@ =~= b@.subrange(5, 5 + spec_le_val(b@.subrange(1, 5))));
    }
    Ok(ControlRequest::NewConfig(payload))
}

} // verus!
