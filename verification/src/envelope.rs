//! Inbound envelopes: the outer JSON structure of a text frame, with a
//! type discriminant and a message payload.  The discriminant is
//! validated once, here: a recognized envelope becomes a tagged value,
//! an unknown discriminant maps to `Unrecognized` (logged and ignored
//! by the dispatcher), and anything unreadable maps to `Malformed` —
//! never a panic, never the end of the dispatcher.

use vstd::prelude::*;
use vstd::string::{StrSliceExecFns, StringExecFns};
use crate::ext::{parse_envelope, raw_envelope_of};

verus! {

/// The fields an envelope's JSON may carry, each possibly absent.
pub struct RawEnvelope {
    pub kind: Option<String>,
    pub message_id: Option<String>,
    pub chat_id: Option<String>,
    pub sender_id: Option<String>,
    pub content: Option<String>,
    pub sent_at: Option<String>,
    pub status: Option<String>,
    pub timestamp: Option<String>,
}

/// A classified inbound envelope.
pub enum Envelope {
    /// A chat message: the content is still encoded at this point.
    Chat {
        message_id: String,
        chat_id: String,
        sender_id: String,
        content: String,
        sent_at: String,
    },
    /// A delivery/read status update.  The server message id may be
    /// absent; nothing is updated then.
    Status {
        message_id: Option<String>,
        chat_id: String,
        sender_id: String,
        status: String,
        timestamp: String,
    },
    /// A discriminant this client does not know.
    Unrecognized,
    /// Unreadable: not JSON, or a recognized discriminant with required
    /// fields missing.
    Malformed,
}

/// How a raw envelope classifies: `"chat"` with all its fields, a
/// status discriminant with all but the server id, anything else by its
/// discriminant alone.
pub open spec fn spec_classify(raw: RawEnvelope) -> Envelope {
    match raw.kind {
        None => Envelope::Malformed,
        Some(k) => if k@ == "chat"@ {
            match (raw.message_id, raw.chat_id, raw.sender_id, raw.content, raw.sent_at) {
                (Some(m), Some(c), Some(s), Some(ct), Some(t)) => Envelope::Chat {
                    message_id: m,
                    chat_id: c,
                    sender_id: s,
                    content: ct,
                    sent_at: t,
                },
                _ => Envelope::Malformed,
            }
        } else if k@ == "message-status"@ || k@ == "status"@ {
            match (raw.chat_id, raw.sender_id, raw.status, raw.timestamp) {
                (Some(c), Some(s), Some(st), Some(t)) => Envelope::Status {
                    message_id: raw.message_id,
                    chat_id: c,
                    sender_id: s,
                    status: st,
                    timestamp: t,
                },
                _ => Envelope::Malformed,
            }
        } else {
            Envelope::Unrecognized
        },
    }
}

/// Classify a raw envelope, exactly as `spec_classify` describes.
pub fn classify_envelope(raw: RawEnvelope) -> (e: Envelope)
    ensures
        e == spec_classify(raw),
{
    let RawEnvelope { kind, message_id, chat_id, sender_id, content, sent_at, status, timestamp }
        = raw;
    match kind {
        None => Envelope::Malformed,
        Some(k) => {
            if k == String::from_str("chat") {
                match (message_id, chat_id, sender_id, content, sent_at) {
                    (Some(m), Some(c), Some(s), Some(ct), Some(t)) => Envelope::Chat {
                        message_id: m,
                        chat_id: c,
                        sender_id: s,
                        content: ct,
                        sent_at: t,
                    },
                    _ => Envelope::Malformed,
                }
            } else if k == String::from_str("message-status") || k == String::from_str("status") {
                match (chat_id, sender_id, status, timestamp) {
                    (Some(c), Some(s), Some(st), Some(t)) => Envelope::Status {
                        message_id,
                        chat_id: c,
                        sender_id: s,
                        status: st,
                        timestamp: t,
                    },
                    _ => Envelope::Malformed,
                }
            } else {
                Envelope::Unrecognized
            }
        },
    }
}

/// What a text frame decodes to: the classification of what the JSON
/// reader extracts from it, and `Malformed` when the text is not JSON.
pub open spec fn spec_decode_envelope(text: Seq<char>) -> Envelope {
    match raw_envelope_of(text) {
        None => Envelope::Malformed,
        Some(raw) => spec_classify(raw),
    }
}

/// Decode a text frame into a classified envelope: read the JSON
/// through the trusted extraction, then classify — exactly as
/// `spec_decode_envelope` describes.
pub fn decode_envelope(text: &str) -> (e: Envelope)
    ensures
        e == spec_decode_envelope(text@),
{
    match parse_envelope(text) {
        None => Envelope::Malformed,
        Some(raw) => classify_envelope(raw),
    }
}

/// Only whitespace, or nothing at all.
pub open spec fn spec_blank(s: Seq<char>) -> bool {
    forall|i: int|
        0 <= i < s.len() ==> (#[trigger] s[i] == ' ' || s[i] == '\t' || s[i] == '\n' || s[i]
            == '\r')
}

/// Whether the frame text is blank, exactly as `spec_blank` describes.
pub fn is_blank(s: &str) -> (r: bool)
    ensures
        r == spec_blank(s@),
{
    let n = s.unicode_len();
    let mut i: usize = 0;
    while i < n
        invariant
            n == s@.len(),
            i <= n,
            forall|j: int|
                0 <= j < i ==> (#[trigger] s@[j] == ' ' || s@[j] == '\t' || s@[j] == '\n'
                    || s@[j] == '\r'),
        decreases n - i,
    {
        let c = s.get_char(i);
        if !(c == ' ' || c == '\t' || c == '\n' || c == '\r') {
            return false;
        }
        i = i + 1;
    }
    true
}

} // verus!
