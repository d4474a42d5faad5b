//! The placeholder payload transform: base64, then a byte-wise XOR
//! with a fixed key.  This is not a confidentiality mechanism — it only
//! reproduces the symmetric encoding the wire format uses today; a real
//! deployment must substitute a keyed, authenticated scheme negotiated
//! out of band.
//!
//! The transform never fails: where the text is not base64, or the
//! XOR-ed bytes are not UTF-8, the original text is passed through
//! unchanged, and the frame is still delivered.

use vstd::prelude::*;
use vstd::string::StrSliceExecFns;
use vstd::utf8::{valid_utf8, decode_utf8, encode_utf8};
use crate::ext::{base64_decode, base64_decoded, utf8_string};

verus! {

/// The fixed key, as text.
pub open spec fn transform_key() -> Seq<char> {
    "hardcoded_key"@
}

/// `data` XOR-ed byte-wise against `key`, repeated; with an empty key,
/// `data` itself.
pub open spec fn xor_bytes(data: Seq<u8>, key: Seq<u8>) -> Seq<u8> {
    if key.len() == 0 {
        data
    } else {
        Seq::new(data.len(), |i: int| data[i] ^ key[i % (key.len() as int)])
    }
}

/// The plaintext an encoded payload denotes: base64-decode, XOR with
/// the key, read as UTF-8 — or the text itself wherever that chain
/// fails, and the empty text for the empty text.
pub open spec fn decoded_payload(s: Seq<char>) -> Seq<char> {
    if s.len() == 0 {
        Seq::<char>::empty()
    } else {
        match base64_decoded(s) {
            None => s,
            Some(bytes) => {
                let plain = xor_bytes(bytes, encode_utf8(transform_key()));
                if valid_utf8(plain) {
                    decode_utf8(plain)
                } else {
                    s
                }
            },
        }
    }
}

fn xor_with_key(data: &Vec<u8>, key: &Vec<u8>) -> (r: Vec<u8>)
    ensures
        r@ == xor_bytes(data@, key@),
{
    if key.len() == 0 {
        return data.clone();
    }
    let n = data.len();
    let mut out: Vec<u8> = Vec::new();
    let mut i: usize = 0;
    while i < n
        invariant
            n == data@.len(),
            i <= n,
            key@.len() > 0,
            out@.len() == i,
            forall|j: int| 0 <= j < i ==> out@[j] == data@[j] ^ key@[j % (key@.len() as int)],
        decreases n - i,
    {
        out.push(data[i] ^ key[i % key.len()]);
        i = i + 1;
    }
    proof {
        assert(out@ =~= xor_bytes(data@, key@));
    }
    out
}

/// Decode a message payload, exactly as `decoded_payload` describes.
pub fn decode_payload(encoded: &str) -> (r: String)
    ensures
        r@ == decoded_payload(encoded@),
{
    if encoded.unicode_len() == 0 {
        return String::new();
    }
    let bytes = match base64_decode(encoded) {
        None => {
            return encoded.to_owned();
        },
        Some(b) => b,
    };
    let key = "hardcoded_key".as_bytes_vec();
    let plain = xor_with_key(&bytes, &key);
    match utf8_string(plain) {
        Some(s) => s,
        None => encoded.to_owned(),
    }
}

} // verus!
