//! The trusted boundary: every call into an outside crate, and the two
//! std functions vstd gives no specification to, stand here behind
//! contracts that Verus believes without proof.  Each item's doc
//! comment names what it relies on.

use vstd::prelude::*;
use vstd::utf8::{valid_utf8, decode_utf8};
use base64::Engine;
use crate::envelope::RawEnvelope;

verus! {

/// What the JSON reader extracts from a text frame: the envelope's
/// discriminant and the fields of its message object, each absent when
/// the text does not carry it as a string; nothing when the text is
/// not JSON.  A function of the text alone.
pub uninterp spec fn raw_envelope_of(text: Seq<char>) -> Option<RawEnvelope>;

/// Relies on serde_json's `from_str`, `Value::get` and `Value::as_str`:
/// reads the text as JSON and picks the envelope fields out of it, a
/// function of the text alone; parse errors yield nothing, never a
/// panic.
#[verifier::external_body]
pub(crate) fn parse_envelope(text: &str) -> (r: Option<RawEnvelope>)
    ensures
        r == raw_envelope_of(text@),
{
    let v: serde_json::Value = match serde_json::from_str(text) { Ok(v) => v, Err(_) => return None };
    let m = v.get("message");
    let g = |k| m.and_then(|x| x.get(k)).and_then(|x| x.as_str()).map(|x| x.to_string());
    Some(RawEnvelope {
        kind: v.get("type").and_then(|x| x.as_str()).map(|x| x.to_string()),
        message_id: g("message_id"),
        chat_id: g("chat_id"),
        sender_id: g("sender_id"),
        content: g("content"),
        sent_at: g("sent_at"),
        status: g("status"),
        timestamp: g("timestamp"),
    })
}

/// What base64's standard-alphabet decoding yields for a text: a
/// function of the text alone (some bytes, or nothing when the text is
/// not valid base64).
pub uninterp spec fn base64_decoded(s: Seq<char>) -> Option<Seq<u8>>;

/// An optional byte vector, seen as optional bytes.
pub open spec fn opt_bytes(o: Option<Vec<u8>>) -> Option<Seq<u8>> {
    match o {
        Some(v) => Some(v@),
        None => None,
    }
}

/// Relies on base64's `STANDARD` engine: `decode` computes the
/// standard-alphabet base64 decoding of the text, a function of the
/// text alone.
#[verifier::external_body]
pub(crate) fn base64_decode(s: &str) -> (r: Option<Vec<u8>>)
    ensures
        opt_bytes(r) == base64_decoded(s@),
{
    base64::engine::general_purpose::STANDARD.decode(s).ok()
}

/// The epoch seconds an RFC 3339 text denotes, when it is well-formed:
/// what chrono computes, a function of the text alone.
pub uninterp spec fn rfc3339_epoch(s: Seq<char>) -> Option<i64>;

/// Relies on chrono's `DateTime::parse_from_rfc3339` and
/// `DateTime::timestamp`: reads an RFC 3339 text and yields the epoch
/// seconds it denotes, a function of the text alone.
#[verifier::external_body]
pub(crate) fn parse_rfc3339_epoch(s: &str) -> (r: Option<i64>)
    ensures
        r == rfc3339_epoch(s@),
{
    chrono::DateTime::parse_from_rfc3339(s).map(|d| d.timestamp()).ok()
}

/// Relies on String::from_utf8: succeeds exactly on valid UTF-8, and
/// then decodes it.
#[verifier::external_body]
pub(crate) fn utf8_string(bytes: Vec<u8>) -> (r: Option<String>)
    ensures
        r is Some <==> valid_utf8(bytes@),
        (r matches Some(s) ==> s@ == decode_utf8(bytes@)),
{
    String::from_utf8(bytes).ok()
}

} // verus!
