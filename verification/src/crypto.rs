//! The byte transform shared by the encryption stages: an XOR pad over the
//! payload, keyed by the stage's password.  Applying it twice with the same
//! key restores the original payload, which is what ties the sender-side
//! encrypt stage to the server-side decrypt stage.

use vstd::prelude::*;

verus! {

/// The fixed pad the encryption stages are keyed with in this code
/// version; it is transient state, re-derived rather than persisted across
/// an upgrade.
pub open spec fn spec_transport_pad() -> Seq<u8> {
    vstd::utf8::encode_utf8("123456abcdefg"@)
}

/// `data` XOR-ed with `key`, the key repeating cyclically.  An empty key
/// leaves the data unchanged.
pub open spec fn xor_bytes(data: Seq<u8>, key: Seq<u8>) -> Seq<u8> {
    Seq::new(
        data.len(),
        |i: int|
            if key.len() == 0 {
                data[i]
            } else {
                data[i] ^ key[i % key.len() as int]
            },
    )
}

/// Applies the XOR pad.
pub fn xor_transform(data: &Vec<u8>, key: &Vec<u8>) -> (r: Vec<u8>)
    ensures
        r@ == xor_bytes(data@, key@),
{
    let mut out: Vec<u8> = Vec::new();
    let n = data.len();
    let klen = key.len();
    let mut i: usize = 0;
    while i < n
        invariant
            i <= n,
            n == data@.len(),
            klen == key@.len(),
            out@.len() == i,
            forall|j: int| 0 <= j < i ==> out@[j] == xor_bytes(data@, key@)[j],
        decreases n - i,
    {
        if klen == 0 {
            out.push(data[i]);
        } else {
            out.push(data[i] ^ key[i % klen]);
        }
        i = i + 1;
    }
    proof {
        assert(out@ =~= xor_bytes(data@, key@));
    }
    out
}

/// XOR with one key byte is an involution.
proof fn lemma_xor_byte_involutive(a: u8, b: u8)
    ensures
        (a ^ b) ^ b == a,
{
    assert((a ^ b) ^ b == a) by (bit_vector);
}

/// The pad is self-inverse: transforming twice with the same key gives the
/// original bytes back — decrypting what was encrypted restores the payload.
pub proof fn lemma_xor_involutive(data: Seq<u8>, key: Seq<u8>)
    ensures
        xor_bytes(xor_bytes(data, key), key) == data,
{
    let once = xor_bytes(data, key);
    let twice = xor_bytes(once, key);
    assert forall|i: int| 0 <= i < data.len() implies twice[i] == data[i] by {
        if key.len() > 0 {
            lemma_xor_byte_involutive(data[i], key[i % key.len() as int]);
        }
    }
    assert(twice =~= data);
}

} // verus!
