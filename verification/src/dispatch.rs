//! The inbound dispatcher: frames arrive one at a time, in arrival
//! order, and each is handled to completion — persisted, answered with
//! a notification for the observers, or dropped — without ever
//! stopping the loop on bad data.

use vstd::prelude::*;
use vstd::string::StringExecFns;
use crate::envelope::{Envelope, decode_envelope, spec_decode_envelope, is_blank, spec_blank};
use crate::ext::{parse_rfc3339_epoch, rfc3339_epoch};
use crate::model::Message;
use crate::payload::{decode_payload, decoded_payload};
use crate::session::WebSocketState;
use crate::store::{Store, has_server_id};

verus! {

/// A decoded frame from the stream's read side.
pub enum InboundFrame {
    Text(String),
    Ping,
    Pong,
    Binary(Vec<u8>),
    Close,
}

/// Which flag a status value selects.
pub enum StatusApplied {
    Sent,
    Delivered,
    Read,
    /// A status value this client does not know: logged and ignored.
    Unknown,
}

/// What handling one frame did, and what observers should be told.
pub enum InboundEffect {
    /// A blank text frame: skipped.
    Ignored,
    /// A chat envelope was handled; `duplicate` says the message was
    /// already stored and no second record was created.
    MessageStored {
        message_id: String,
        chat_id: String,
        sender_id: String,
        content: String,
        timestamp: i64,
        duplicate: bool,
    },
    /// A status envelope was handled.
    StatusUpdated { message_id: Option<String>, status: String, applied: StatusApplied },
    /// A recognized frame with an unknown envelope discriminant.
    UnrecognizedEnvelope,
    /// Dropped: not JSON, required fields missing, or an unreadable
    /// timestamp.  The loop continues.
    MalformedFrame,
    /// A control frame (ping/pong/binary): liveness refreshed.
    ControlActivity,
    /// The server is closing the connection: the session has been
    /// disconnected and the read loop should end.
    CloseRequested,
}

/// The record an inbound chat event persists: server id doubling as
/// client id, delivered and sent, not yet read.
pub open spec fn new_inbound_message(
    message_id: String,
    chat_id: String,
    sender_id: String,
    content: String,
    timestamp: i64,
) -> Message {
    Message {
        message_id: Some(message_id),
        client_message_id: message_id,
        chat_id,
        sender_id,
        content,
        timestamp,
        is_read: false,
        is_sent: true,
        is_delivered: true,
        is_failed: false,
        sender_username: None,
        reply_to_message_id: None,
    }
}

/// A message with this id is already stored: under it as client id, or
/// carrying it as server id.
pub open spec fn message_dup(pre: Store, mid: Seq<char>) -> bool {
    pre.messages.m().dom().contains(mid) || exists|i: int|
        0 <= i < pre.messages@.len() && has_server_id(#[trigger] pre.messages@[i], mid)
}

/// How an inbound chat event relates the cache before to the cache
/// after: a duplicate changes nothing; a fresh id stores exactly one
/// new record.
pub open spec fn chat_event_applied(
    pre: Store,
    post: Store,
    message_id: String,
    chat_id: String,
    sender_id: String,
    content: String,
    timestamp: i64,
) -> bool {
    if message_dup(pre, message_id@) {
        post == pre
    } else {
        &&& post == (Store { messages: post.messages, ..pre })
        &&& post.messages.m() == pre.messages.m().insert(
            message_id@,
            new_inbound_message(message_id, chat_id, sender_id, content, timestamp),
        )
    }
}

/// Persist an inbound chat message, de-duplicated by its server id.
/// No second record is ever created for an id already stored.
pub fn apply_chat_event(
    store: &mut Store,
    message_id: &String,
    chat_id: &String,
    sender_id: &String,
    content: String,
    timestamp: i64,
) -> (inserted: bool)
    requires
        old(store).wf(),
    ensures
        final(store).wf(),
        inserted == !message_dup(*old(store), message_id@),
        chat_event_applied(
            *old(store),
            *final(store),
            *message_id,
            *chat_id,
            *sender_id,
            content,
            timestamp,
        ),
{
    if store.message_exists(message_id, message_id) {
        return false;
    }
    store.insert_or_update_message(Message {
        message_id: Some(message_id.clone()),
        client_message_id: message_id.clone(),
        chat_id: chat_id.clone(),
        sender_id: sender_id.clone(),
        content,
        timestamp,
        is_read: false,
        is_sent: true,
        is_delivered: true,
        is_failed: false,
        sender_username: None,
        reply_to_message_id: None,
    });
    true
}

/// A message with the selected flag set.
pub open spec fn with_status_flag(m: Message, status: Seq<char>) -> Message {
    if status == "sent"@ {
        Message { is_sent: true, ..m }
    } else if status == "delivered"@ {
        Message { is_delivered: true, ..m }
    } else if status == "read"@ {
        Message { is_read: true, ..m }
    } else {
        m
    }
}

/// How a status event relates the cache before to the cache after:
/// only the selected flag, and only on the messages carrying that
/// server id, changes; every other field and every other message is
/// untouched.
pub open spec fn status_event_applied(
    pre: Store,
    post: Store,
    mid: Seq<char>,
    status: Seq<char>,
) -> bool {
    &&& post == (Store { messages: post.messages, ..pre })
    &&& post.messages@.len() == pre.messages@.len()
    &&& forall|i: int|
        0 <= i < pre.messages@.len() ==> post.messages@[i] == (if has_server_id(
            #[trigger] pre.messages@[i],
            mid,
        ) {
            with_status_flag(pre.messages@[i], status)
        } else {
            pre.messages@[i]
        })
}

/// Apply a delivery/read status to the message carrying this server
/// id: `sent`, `delivered` and `read` each advance exactly their own
/// flag; an unknown status value changes nothing.
pub fn apply_status_event(store: &mut Store, server_message_id: &String, status: &String) -> (r:
    StatusApplied)
    requires
        old(store).wf(),
    ensures
        final(store).wf(),
        status_event_applied(*old(store), *final(store), server_message_id@, status@),
        (r is Sent) == (status@ == "sent"@),
        (r is Delivered) == (status@ == "delivered"@),
        (r is Read) == (status@ == "read"@),
        (r is Unknown) ==> *final(store) == *old(store),
{
    proof {
        reveal_strlit("sent");
        reveal_strlit("delivered");
        reveal_strlit("read");
        assert("sent"@.len() == 4 && "delivered"@.len() == 9 && "read"@.len() == 4);
        assert("sent"@[0] == 's' && "read"@[0] == 'r');
        assert("sent"@ != "delivered"@ && "sent"@ != "read"@ && "delivered"@ != "read"@);
    }
    if *status == String::from_str("sent") {
        store.update_message_sent_status_by_server_id(server_message_id, true);
        StatusApplied::Sent
    } else if *status == String::from_str("delivered") {
        store.mark_message_delivered_by_server_id(server_message_id);
        StatusApplied::Delivered
    } else if *status == String::from_str("read") {
        store.mark_message_read_by_server_id(server_message_id);
        StatusApplied::Read
    } else {
        StatusApplied::Unknown
    }
}

/// What handling a non-blank text frame must do, given what the frame
/// decodes to: a chat envelope with a readable timestamp is persisted
/// de-duplicated and reported with its fields, the content put through
/// the payload transform; a status envelope advances the selected flag
/// on the messages carrying its server id; an unknown discriminant, an
/// unreadable frame or an unreadable timestamp changes nothing.
pub open spec fn text_frame_effect_ok(
    pre: Store,
    post: Store,
    text: Seq<char>,
    e: InboundEffect,
) -> bool {
    match spec_decode_envelope(text) {
        Envelope::Chat { message_id, chat_id, sender_id, content, sent_at } => match rfc3339_epoch(
            sent_at@,
        ) {
            Some(ts) => e matches InboundEffect::MessageStored {
                message_id: emid,
                chat_id: ecid,
                sender_id: esid,
                content: ec,
                timestamp: ets,
                duplicate,
            } && emid == message_id && ecid == chat_id && esid == sender_id && ets == ts && ec@
                == decoded_payload(content@) && duplicate == message_dup(pre, message_id@)
                && chat_event_applied(pre, post, emid, ecid, esid, ec, ets),
            None => e is MalformedFrame && post == pre,
        },
        Envelope::Status { message_id, chat_id: _, sender_id: _, status, timestamp: _ } => e
            matches InboundEffect::StatusUpdated { message_id: smid, status: sst, applied: _ }
            && smid == message_id && sst == status && (match message_id {
            Some(mid) => status_event_applied(pre, post, mid@, status@),
            None => post == pre,
        }),
        Envelope::Unrecognized => e is UnrecognizedEnvelope && post == pre,
        Envelope::Malformed => e is MalformedFrame && post == pre,
    }
}

/// Handle one inbound frame, in arrival order.
///
/// Blank text is skipped; a chat envelope is decoded (payload
/// transform, timestamp) and persisted de-duplicated; a status envelope
/// advances delivery flags; unknown discriminants and unreadable frames
/// are dropped, never fatal.  Any inbound frame refreshes the session's
/// liveness timestamp, and a close frame runs the disconnect path.
/// What was decided about the extracted field values is pinned by
/// `chat_event_applied` and `status_event_applied` through the returned
/// effect.
pub fn handle_frame(
    store: &mut Store,
    session: &mut WebSocketState,
    frame: InboundFrame,
    now: u64,
) -> (e: InboundEffect)
    requires
        old(store).wf(),
    ensures
        final(store).wf(),
        (frame matches InboundFrame::Text(t) ==> {
            &&& (spec_blank(t@) ==> {
                &&& e is Ignored
                &&& *final(store) == *old(store)
                &&& *final(session) == *old(session)
            })
            &&& (!spec_blank(t@) ==> {
                &&& *final(session) == (WebSocketState {
                    last_heartbeat: now,
                    ..*old(session)
                })
                &&& text_frame_effect_ok(*old(store), *final(store), t@, e)
            })
        }),
        (e matches InboundEffect::MessageStored {
            message_id,
            chat_id,
            sender_id,
            content,
            timestamp,
            duplicate,
        } ==> {
            &&& chat_event_applied(
                *old(store),
                *final(store),
                message_id,
                chat_id,
                sender_id,
                content,
                timestamp,
            )
            &&& duplicate == message_dup(*old(store), message_id@)
        }),
        (e matches InboundEffect::StatusUpdated { message_id, status, applied } ==> {
            match message_id {
                Some(mid) => status_event_applied(*old(store), *final(store), mid@, status@),
                None => *final(store) == *old(store),
            }
        }),
        e is UnrecognizedEnvelope || e is MalformedFrame || e is ControlActivity || e
            is CloseRequested || e is Ignored ==> *final(store) == *old(store),
        (frame is Ping || frame is Pong || frame is Binary) ==> {
            &&& e is ControlActivity
            &&& *final(session) == (WebSocketState { last_heartbeat: now, ..*old(session) })
        },
        frame is Close ==> {
            &&& e is CloseRequested
            &&& *final(session) == (WebSocketState {
                connection_state: crate::session::ConnectionState::Disconnected,
                auth_token: None,
                ..*old(session)
            })
        },
{
    match frame {
        InboundFrame::Text(text) => {
            if is_blank(text.as_str()) {
                return InboundEffect::Ignored;
            }
            session.record_inbound_activity(now);
            match decode_envelope(text.as_str()) {
                Envelope::Chat { message_id, chat_id, sender_id, content, sent_at } => {
                    let timestamp = match parse_rfc3339_epoch(sent_at.as_str()) {
                        Some(t) => t,
                        None => {
                            return InboundEffect::MalformedFrame;
                        },
                    };
                    let plaintext = decode_payload(content.as_str());
                    let inserted = apply_chat_event(
                        store,
                        &message_id,
                        &chat_id,
                        &sender_id,
                        plaintext.clone(),
                        timestamp,
                    );
                    InboundEffect::MessageStored {
                        message_id,
                        chat_id,
                        sender_id,
                        content: plaintext,
                        timestamp,
                        duplicate: !inserted,
                    }
                },
                Envelope::Status { message_id, chat_id: _, sender_id: _, status, timestamp: _ } => {
                    let applied = match &message_id {
                        Some(mid) => apply_status_event(store, mid, &status),
                        None => StatusApplied::Unknown,
                    };
                    InboundEffect::StatusUpdated { message_id, status, applied }
                },
                Envelope::Unrecognized => InboundEffect::UnrecognizedEnvelope,
                Envelope::Malformed => InboundEffect::MalformedFrame,
            }
        },
        InboundFrame::Ping => {
            session.record_inbound_activity(now);
            InboundEffect::ControlActivity
        },
        InboundFrame::Pong => {
            session.record_inbound_activity(now);
            InboundEffect::ControlActivity
        },
        InboundFrame::Binary(_) => {
            session.record_inbound_activity(now);
            InboundEffect::ControlActivity
        },
        InboundFrame::Close => {
            session.disconnect();
            InboundEffect::CloseRequested
        },
    }
}

} // verus!
