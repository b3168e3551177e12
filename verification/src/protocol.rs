//! Messages on the relay connection and how the host's and the viewer's
//! readers react to each.

use vstd::prelude::*;

use crate::imaging::{decode_frame, decoded_image, Frame};
use crate::text::same_text;

verus! {

/// A control packet exchanged as JSON text with the relay server.
pub enum ControlPacket {
    /// Announces a user name.
    RegisterUser(String),
    /// The users now in the room, if the server sends a list.
    UserList(Option<Vec<String>>),
    /// Asks the server to remove a user.
    KickUser(String),
    /// Tells a viewer it was removed.
    Kicked,
}

/// What the host's reader takes from the connection.
pub enum HostMessage {
    /// A text message, with the control packet it parses to, if it parses.
    Text(Option<ControlPacket>),
    /// The server closed the connection.
    Close,
    /// A binary, ping, pong or raw frame.
    Other,
    /// Reading failed.
    Failed,
    /// The connection has no more messages.
    Ended,
}

/// What the host's reader does next.
pub enum HostReaction {
    /// Replace the list of connected users, then read on.
    SetUsers(Vec<String>),
    /// Read on.
    Continue,
    /// Stop reading.
    Stop,
}

/// How the host's reader reacts to a message: a user list replaces the
/// connected users (no list counts as empty), a close, a failure or the end
/// of the connection stops it, and anything else is passed over.
pub fn host_reaction(msg: HostMessage) -> (r: HostReaction)
    ensures
        match msg {
            HostMessage::Text(Some(ControlPacket::UserList(list))) => r matches HostReaction::SetUsers(users)
                && users@ == (match list {
                Some(names) => names@,
                None => Seq::empty(),
            }),
            HostMessage::Close | HostMessage::Failed | HostMessage::Ended => r is Stop,
            _ => r is Continue,
        },
{
    match msg {
        HostMessage::Text(Some(ControlPacket::UserList(list))) => match list {
            Some(names) => HostReaction::SetUsers(names),
            None => HostReaction::SetUsers(Vec::new()),
        },
        HostMessage::Text(_) => HostReaction::Continue,
        HostMessage::Other => HostReaction::Continue,
        HostMessage::Close => HostReaction::Stop,
        HostMessage::Failed => HostReaction::Stop,
        HostMessage::Ended => HostReaction::Stop,
    }
}

/// What the viewer's reader takes from the connection.
pub enum WatchMessage {
    /// An encoded frame.
    Binary(Vec<u8>),
    /// A text message.
    Text(String),
    /// The server closed the connection.
    Close,
    /// Reading failed.
    Failed,
    /// The connection has no more messages.
    Ended,
    /// Nothing arrived within the wait.
    TimedOut,
    /// A ping, pong or raw frame.
    Other,
}

/// What the viewer's reader does next.
pub enum WatchReaction {
    /// Show this frame, then read on.
    Show(Frame),
    /// Read on.
    Continue,
    /// Stop reading; when `deactivate`, also mark watching as over.
    Stop { deactivate: bool },
}

/// Whether a text message ends the viewer's session: the server removed the
/// viewer, or the room does not exist.
pub open spec fn ends_watching(text: Seq<char>) -> bool {
    text == "KICKED"@ || text == "Room not found"@
}

/// How the viewer's reader reacts to a message: a frame that decodes is
/// shown, one that does not is passed over; a removal or unknown-room text
/// stops it and marks watching as over; a close, a failure or the end of
/// the connection stops it; a timeout or anything else is passed over.
pub fn watch_reaction(msg: WatchMessage) -> (r: WatchReaction)
    ensures
        match msg {
            WatchMessage::Binary(bytes) => match decoded_image(bytes@) {
                Some(parts) => r matches WatchReaction::Show(f) && f.wf() && f.parts() == parts,
                None => r is Continue,
            },
            WatchMessage::Text(text) => if ends_watching(text@) {
                r == (WatchReaction::Stop { deactivate: true })
            } else {
                r is Continue
            },
            WatchMessage::Close | WatchMessage::Failed | WatchMessage::Ended => r == (
            WatchReaction::Stop { deactivate: false }),
            WatchMessage::TimedOut | WatchMessage::Other => r is Continue,
        },
{
    match msg {
        WatchMessage::Binary(bytes) => match decode_frame(bytes.as_slice()) {
            Some(frame) => WatchReaction::Show(frame),
            None => WatchReaction::Continue,
        },
        WatchMessage::Text(text) => {
            if same_text(text.as_str(), "KICKED") || same_text(text.as_str(), "Room not found") {
                WatchReaction::Stop { deactivate: true }
            } else {
                WatchReaction::Continue
            }
        },
        WatchMessage::Close => WatchReaction::Stop { deactivate: false },
        WatchMessage::Failed => WatchReaction::Stop { deactivate: false },
        WatchMessage::Ended => WatchReaction::Stop { deactivate: false },
        WatchMessage::TimedOut => WatchReaction::Continue,
        WatchMessage::Other => WatchReaction::Continue,
    }
}

} // verus!
