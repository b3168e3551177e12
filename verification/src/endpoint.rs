//! Addresses of the signalling server: the WebSocket URLs for hosting and
//! watching a room, and the HTTP request that creates a room.

use vstd::prelude::*;

use crate::text::{
    strip_white_space, trim, trim_end_char, trim_end_matches_char, trimmed, without_white_space,
};

verus! {

/// The WebSocket server that relays rooms.
pub const WS_SERVER_URL: &'static str = "ws://127.0.0.1:8080";

/// The HTTP server that hands out new room codes.
pub const HTTP_SERVER_URL: &'static str = "http://127.0.0.1:8080";

/// A room or user name as the host sends it: trimmed, then with every
/// white-space character removed.
pub open spec fn compact(s: Seq<char>) -> Seq<char> {
    without_white_space(trimmed(s))
}

/// The URL on which a host opens a room: the base trimmed and without
/// trailing `/`, then `/host?room=`, the compacted room, `&user=` and the
/// compacted user name.
pub open spec fn host_url_of(base: Seq<char>, room: Seq<char>, user: Seq<char>) -> Seq<char> {
    trim_end_char(trimmed(base), '/') + "/host?room="@ + compact(room) + "&user="@ + compact(user)
}

/// The URL on which a viewer joins a room: the base as given, then
/// `/join?room=`, the room, `&user=` and the user name, unchanged.
pub open spec fn join_url_of(base: Seq<char>, room: Seq<char>, user: Seq<char>) -> Seq<char> {
    base + "/join?room="@ + room + "&user="@ + user
}

/// The URL that asks for a new room code.
pub open spec fn new_room_url_of(base: Seq<char>) -> Seq<char> {
    base + "/new"@
}

/// The WebSocket URL for hosting `room` as `user`.
pub fn host_url(base: &str, room: &str, user: &str) -> (r: String)
    ensures
        r@ == host_url_of(base@, room@, user@),
{
    let trimmed_base = trim(base);
    let mut r = trim_end_matches_char(trimmed_base.as_str(), '/');
    r.append("/host?room=");
    let trimmed_room = trim(room);
    let clean_room = strip_white_space(trimmed_room.as_str());
    r.append(clean_room.as_str());
    r.append("&user=");
    let trimmed_user = trim(user);
    let clean_user = strip_white_space(trimmed_user.as_str());
    r.append(clean_user.as_str());
    r
}

/// The WebSocket URL for watching `room` as `user`.
pub fn join_url(base: &str, room: &str, user: &str) -> (r: String)
    ensures
        r@ == join_url_of(base@, room@, user@),
{
    let mut r = String::from_str(base);
    r.append("/join?room=");
    r.append(room);
    r.append("&user=");
    r.append(user);
    r
}

/// The HTTP URL that asks for a new room code.
pub fn new_room_url(base: &str) -> (r: String)
    ensures
        r@ == new_room_url_of(base@),
{
    let mut r = String::from_str(base);
    r.append("/new");
    r
}

/// The room code in the body of the server's reply: the body, trimmed.
pub fn room_code_from_reply(body: &str) -> (r: String)
    ensures
        r@ == trimmed(body@),
{
    trim(body)
}

} // verus!
