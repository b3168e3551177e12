//! Properties that relate several operations of the client.

use vstd::prelude::*;

use crate::capture::{cursor_on_frame, initial_target_of, titled_windows, StreamTarget};
use crate::imaging::{
    jpeg_encoded, overlaid, resized, streamed_jpeg, with_cursor, Frame, Resampling,
};
use crate::endpoint::compact;
use crate::link::{invite_scheme, lemma_invite_link_round_trip, link_room};
use crate::pacing::frame_delay_of;
use crate::session::{runs_within, SessionView, MAX_FPS, MIN_FPS};
use crate::text::{
    is_white_space, trim_end, trim_end_char, trim_start, trimmed, without_white_space,
};

verus! {

/// While the profile dialog is open, nothing in the main window can be
/// used: every button and field of it leaves the state as it was.
pub proof fn lemma_profile_dialog_blocks_main(
    v: SessionView,
    target: StreamTarget,
    fps: u32,
    text: Seq<char>,
)
    requires
        v.username_modal_open,
    ensures
        v.toggled_settings() == v,
        v.selected(target) == v,
        v.with_fps(fps) == v,
        v.closed_settings() == v,
        v.dismissed() == v,
        !v.can_request_code(),
        !v.can_copy_invite(),
        v.started_feed() == v,
        v.edited_room_input(text) == v,
        v.joined() == v,
        v.stopped_feed() == v,
        v.left_feed() == v,
        v.repainted() == v,
{
}

/// The settings panel keeps the session's settings in range: the frame
/// rate stays one the slider offers, a changed rate is the one chosen and
/// its pause lies between 16 and 66 milliseconds, and the target is either
/// kept or one of the listed sources.
pub proof fn lemma_settings_keep_their_ranges(v: SessionView, target: StreamTarget, fps: u32)
    requires
        v.valid(),
    ensures
        v.with_fps(fps).valid(),
        v.with_fps(fps).max_fps != v.max_fps ==> v.with_fps(fps).max_fps == fps && 16
            <= frame_delay_of(fps) <= 66,
        v.selected(target).target == v.target || v.lists(target),
{
    if v.with_fps(fps).max_fps != v.max_fps {
        assert(MIN_FPS <= fps <= MAX_FPS);
        assert(1000int / (fps as int) >= 16) by (nonlinear_arith)
            requires
                15 <= fps <= 60,
        ;
        assert(1000int / (fps as int) <= 66) by (nonlinear_arith)
            requires
                15 <= fps <= 60,
        ;
    }
}

/// Steps that neither start nor stop anything keep the running flags in
/// agreement with the session.
pub proof fn lemma_quiet_steps_keep_flags(
    v: SessionView,
    hosting: bool,
    watching: bool,
    name: Seq<char>,
    monitors: Seq<(u32, Seq<char>)>,
    windows: Seq<(u32, Seq<char>)>,
    target: StreamTarget,
    e: (Seq<char>, Seq<char>),
    text: Seq<char>,
    users: Seq<Seq<char>>,
)
    requires
        runs_within(v, hosting, watching),
    ensures
        runs_within(v.edited_username(name), hosting, watching),
        runs_within(v.with_sources(monitors, windows), hosting, watching),
        runs_within(v.selected(target), hosting, watching),
        runs_within(v.closed_settings(), hosting, watching),
        runs_within(v.reported(e), hosting, watching),
        runs_within(v.dismissed(), hosting, watching),
        runs_within(v.with_room_code(text), hosting, watching),
        runs_within(v.edited_room_input(text), hosting, watching),
        runs_within(v.frame_arrived(), hosting, watching),
        runs_within(v.repainted(), hosting, watching),
        runs_within(v.with_users(users), hosting, watching),
{
}

/// A loop that ends and lowers its own flag keeps the flags in agreement
/// with the session.
pub proof fn lemma_stopped_loops_keep_flags(v: SessionView, hosting: bool, watching: bool)
    requires
        runs_within(v, hosting, watching),
    ensures
        runs_within(v, false, watching),
        runs_within(v, hosting, false),
        runs_within(v, false, false),
{
}

/// Stopping a feed that was just started gives back the state before it.
pub proof fn lemma_stop_undoes_start(v: SessionView)
    requires
        v.can_start_feed(),
    ensures
        v.started_feed().stopped_feed() == v,
        v.started_feed().is_hosting,
{
}

/// Leaving a stream that was just joined gives back the state before it,
/// for a session that showed no picture and had no frame waiting.
pub proof fn lemma_leave_undoes_join(v: SessionView)
    requires
        v.can_join(),
        !v.has_texture,
        !v.frame_pending,
    ensures
        v.joined().left_feed() == v,
        v.joined().is_watching,
{
}

/// Clicking the settings button twice leaves the state as it was.
pub proof fn lemma_settings_toggle_twice(v: SessionView)
    ensures
        v.toggled_settings().toggled_settings() == v,
{
}

/// A new error queues behind the others: the error on screen stays the
/// oldest one.
pub proof fn lemma_new_error_waits_its_turn(v: SessionView, e: (Seq<char>, Seq<char>))
    ensures
        v.reported(e).errors.len() == v.errors.len() + 1,
        v.reported(e).errors[0] == if v.errors.len() > 0 {
            v.errors[0]
        } else {
            e
        },
        v.reported(e).errors.last() == e,
{
}

/// Errors leave in the order they came: reporting and dismissing commute
/// while another error is on screen.
pub proof fn lemma_report_and_dismiss_commute(v: SessionView, e: (Seq<char>, Seq<char>))
    requires
        v.shows_main(),
        v.errors.len() > 0,
    ensures
        v.reported(e).dismissed() == v.dismissed().reported(e),
{
    assert(v.errors.push(e).drop_first() =~= v.errors.drop_first().push(e));
}

/// An invite link that the session copies opens the same room again, for
/// every room code without a `/`.
pub proof fn lemma_copied_invite_opens_room(v: SessionView)
    requires
        !v.room_code.contains('/'),
    ensures
        link_room(invite_scheme() + v.room_code) == Some(v.room_code),
{
    lemma_invite_link_round_trip(v.room_code);
}

proof fn lemma_without_white_space_drops(s: Seq<char>)
    ensures
        forall|i: int|
            0 <= i < without_white_space(s).len() ==> !is_white_space(
                #[trigger] without_white_space(s)[i],
            ),
    decreases s.len(),
{
    if s.len() > 0 {
        let t = s.drop_last();
        lemma_without_white_space_drops(t);
        let w = without_white_space(t);
        if !is_white_space(s.last()) {
            assert forall|i: int| 0 <= i < w.push(s.last()).len() implies !is_white_space(
                #[trigger] w.push(s.last())[i],
            ) by {
                if i < w.len() {
                    assert(w.push(s.last())[i] == w[i]);
                }
            }
        }
    }
}

/// Removing white space from text that has none changes nothing.
pub proof fn lemma_without_white_space_keeps(s: Seq<char>)
    requires
        forall|i: int| 0 <= i < s.len() ==> !is_white_space(#[trigger] s[i]),
    ensures
        without_white_space(s) == s,
    decreases s.len(),
{
    if s.len() > 0 {
        let t = s.drop_last();
        assert forall|i: int| 0 <= i < t.len() implies !is_white_space(#[trigger] t[i]) by {
            assert(t[i] == s[i]);
        }
        lemma_without_white_space_keeps(t);
        assert(!is_white_space(s[s.len() - 1]));
        assert(t.push(s.last()) =~= s);
    }
}

/// The room and user name in a host's URL hold no white space.
pub proof fn lemma_compact_has_no_white_space(s: Seq<char>)
    ensures
        forall|i: int| 0 <= i < compact(s).len() ==> !is_white_space(#[trigger] compact(s)[i]),
{
    lemma_without_white_space_drops(trimmed(s));
}

/// A room code without white space reaches the same room whether hosted or
/// typed in to join: hosting compacts it and joining trims it, and both
/// leave it as it is.
pub proof fn lemma_host_and_viewer_meet(code: Seq<char>)
    requires
        forall|i: int| 0 <= i < code.len() ==> !is_white_space(#[trigger] code[i]),
    ensures
        compact(code) == code,
        trimmed(code) == code,
{
    if code.len() > 0 {
        assert(!is_white_space(code[0]));
        assert(!is_white_space(code[code.len() - 1]));
        assert(code.last() == code[code.len() - 1]);
    }
    assert(trim_start(code) == code);
    assert(trim_end(code) == code);
    lemma_without_white_space_keeps(code);
}


/// The cursor is drawn where the mouse is: when the mouse lies on the
/// captured frame, the sprite is blended with its top left corner at the
/// mouse's horizontal position `mouse_x` and vertical position `mouse_y`;
/// otherwise the captured pixels are kept. The frame sent is that picture,
/// scaled with nearest-neighbour sampling and encoded at quality 60.
pub proof fn lemma_cursor_drawn_at_mouse(
    frame: Frame,
    sprite: Frame,
    mouse_x: i32,
    mouse_y: i32,
    out_width: u32,
    out_height: u32,
)
    ensures
        cursor_on_frame(mouse_x, mouse_y, frame.width, frame.height) ==> with_cursor(
            frame,
            sprite,
            mouse_x,
            mouse_y,
        ) == overlaid(
            frame.rgba@,
            frame.width,
            frame.height,
            sprite.rgba@,
            sprite.width,
            sprite.height,
            mouse_x as i64,
            mouse_y as i64,
        ),
        !cursor_on_frame(mouse_x, mouse_y, frame.width, frame.height) ==> with_cursor(
            frame,
            sprite,
            mouse_x,
            mouse_y,
        ) == frame.rgba@,
        streamed_jpeg(frame, sprite, mouse_x, mouse_y, out_width, out_height) == jpeg_encoded(
            resized(
                with_cursor(frame, sprite, mouse_x, mouse_y),
                frame.width,
                frame.height,
                out_width,
                out_height,
                Resampling::Nearest,
            ),
            out_width,
            out_height,
            60,
        ),
{
}

/// The mouse is on a frame exactly when both coordinates lie inside it, for
/// frames whose sides fit in an `i32`.
pub proof fn lemma_cursor_on_frame_inside(mouse_x: i32, mouse_y: i32, width: u32, height: u32)
    requires
        width <= i32::MAX,
        height <= i32::MAX,
    ensures
        cursor_on_frame(mouse_x, mouse_y, width, height) <==> (0 <= mouse_x < width && 0
            <= mouse_y < height),
{
    assert(width as i32 == width as int) by (bit_vector)
        requires
            width <= 0x7fff_ffffu32,
    ;
    assert(height as i32 == height as int) by (bit_vector)
        requires
            height <= 0x7fff_ffffu32,
    ;
}

/// Every window offered has a title that is not blank, and each is one of
/// the windows given.
pub proof fn lemma_titled_windows_are_titled(s: Seq<(u32, Seq<char>)>)
    ensures
        forall|i: int|
            0 <= i < titled_windows(s).len() ==> trimmed(#[trigger] titled_windows(s)[i].1).len()
                > 0,
        forall|i: int| 0 <= i < titled_windows(s).len() ==> s.contains(#[trigger] titled_windows(s)[i]),
        titled_windows(s).len() <= s.len(),
    decreases s.len(),
{
    if s.len() > 0 {
        let t = s.drop_last();
        lemma_titled_windows_are_titled(t);
        let r = titled_windows(t);
        assert forall|i: int| 0 <= i < r.len() implies s.contains(#[trigger] r[i]) by {
            let k = choose|k: int| 0 <= k < t.len() && t[k] == r[i];
            assert(s[k] == r[i]);
        }
        if trimmed(s.last().1).len() > 0 {
            let q = r.push(s.last());
            assert forall|i: int| 0 <= i < q.len() implies s.contains(#[trigger] q[i]) && trimmed(
                q[i].1,
            ).len() > 0 by {
                if i < r.len() {
                    assert(q[i] == r[i]);
                } else {
                    assert(s[s.len() - 1] == q[i]);
                }
            }
        }
    }
}

/// A list whose windows all have titles is offered whole and in order.
pub proof fn lemma_titled_windows_keep_titled(s: Seq<(u32, Seq<char>)>)
    requires
        forall|i: int| 0 <= i < s.len() ==> trimmed(#[trigger] s[i].1).len() > 0,
    ensures
        titled_windows(s) == s,
    decreases s.len(),
{
    if s.len() > 0 {
        let t = s.drop_last();
        assert forall|i: int| 0 <= i < t.len() implies trimmed(#[trigger] t[i].1).len() > 0 by {
            assert(t[i] == s[i]);
        }
        lemma_titled_windows_keep_titled(t);
        assert(trimmed(s[s.len() - 1].1).len() > 0);
        assert(t.push(s.last()) =~= s);
    }
}

/// Listing the sources replaces the lists: the monitors are exactly those
/// given and the windows exactly the titled ones among those given, whatever
/// was listed before; nothing else changes.
pub proof fn lemma_listing_replaces_sources(
    v: SessionView,
    u: SessionView,
    monitors: Seq<(u32, Seq<char>)>,
    windows: Seq<(u32, Seq<char>)>,
)
    ensures
        v.with_sources(monitors, windows).monitors == monitors,
        v.with_sources(monitors, windows).windows == titled_windows(windows),
        v.with_sources(monitors, windows).windows == u.with_sources(monitors, windows).windows,
        v.with_sources(monitors, windows).target == v.target,
        v.with_sources(monitors, windows).settings_open == v.settings_open,
        (forall|i: int| 0 <= i < windows.len() ==> trimmed(#[trigger] windows[i].1).len() > 0)
            ==> v.with_sources(monitors, windows).windows == windows,
{
    if forall|i: int| 0 <= i < windows.len() ==> trimmed(#[trigger] windows[i].1).len() > 0 {
        lemma_titled_windows_keep_titled(windows);
    }
}

/// The room code is the server's reply, trimmed, whatever code the session
/// held before; nothing else changes.
pub proof fn lemma_room_code_is_reply(v: SessionView, u: SessionView, reply: Seq<char>)
    ensures
        v.with_room_code(reply).room_code == trimmed(reply),
        v.with_room_code(reply).room_code == u.with_room_code(reply).room_code,
        v.with_room_code(reply).username == v.username,
        v.with_room_code(reply).is_hosting == v.is_hosting,
        v.with_room_code(reply).is_watching == v.is_watching,
{
}

/// A reply without white space at either end is the room code as it is.
pub proof fn lemma_clean_reply_is_code(reply: Seq<char>)
    requires
        reply.len() > 0,
        !is_white_space(reply[0]),
        !is_white_space(reply[reply.len() - 1]),
    ensures
        trimmed(reply) == reply,
{
    assert(reply.last() == reply[reply.len() - 1]);
}

/// Typing into the room field of an idle session replaces the field with
/// the typed text, and a following "join stream" takes effect exactly when
/// that text is not empty; a busy session or the profile dialog keeps the
/// field.
pub proof fn lemma_room_field_holds_typed_text(v: SessionView, text: Seq<char>)
    ensures
        v.shows_main() && v.is_idle() ==> v.edited_room_input(text).input_room_code == text,
        v.shows_main() && v.is_idle() ==> (v.edited_room_input(text).can_join() <==> text.len()
            > 0),
        !(v.shows_main() && v.is_idle()) ==> v.edited_room_input(text).input_room_code
            == v.input_room_code,
        v.edited_room_input(text).is_hosting == v.is_hosting,
        v.edited_room_input(text).is_watching == v.is_watching,
        v.edited_room_input(text).room_code == v.room_code,
{
}

/// With the settings panel open, the slider takes every rate it offers: the
/// rate becomes the one chosen, higher or lower, and a rate other than the
/// current one publishes a new pause; rates outside 15..=60 change nothing.
pub proof fn lemma_slider_takes_every_offered_rate(v: SessionView, fps: u32)
    ensures
        v.shows_main() && v.settings_open && MIN_FPS <= fps <= MAX_FPS ==> v.with_fps(fps).max_fps
            == fps,
        v.shows_main() && v.settings_open && MIN_FPS <= fps <= MAX_FPS && fps != v.max_fps
            ==> v.takes_fps(fps),
        !(MIN_FPS <= fps <= MAX_FPS) ==> v.with_fps(fps).max_fps == v.max_fps,
        !(MIN_FPS <= fps <= MAX_FPS) ==> !v.takes_fps(fps),
        v.with_fps(fps).target == v.target,
{
}

/// The pause between frames is the whole number of milliseconds that a
/// frame may take at the given rate: at most a thousandth of a second
/// times the frames, with less than one frame's worth left over.
pub proof fn lemma_frame_delay_fits_rate(fps: u32)
    requires
        fps >= 1,
    ensures
        frame_delay_of(fps) * fps <= 1000 < (frame_delay_of(fps) + 1) * fps,
{
    let d = frame_delay_of(fps);
    assert(d == 1000int / (fps as int));
    assert(d * fps <= 1000 < (d + 1) * fps) by (nonlinear_arith)
        requires
            d == 1000int / (fps as int),
            fps >= 1,
    ;
}

/// A session starts with the first monitor listed, or monitor 0.
pub proof fn lemma_initial_target_is_first_monitor(ids: Seq<u32>)
    ensures
        ids.len() > 0 ==> initial_target_of(ids) == StreamTarget::Monitor(ids[0]),
        ids.len() == 0 ==> initial_target_of(ids) == StreamTarget::Monitor(0),
{
}

/// Each control does what it says, field by field.
pub proof fn lemma_controls_do_what_they_say(
    v: SessionView,
    name: Seq<char>,
    target: StreamTarget,
    e: (Seq<char>, Seq<char>),
    users: Seq<Seq<char>>,
)
    ensures
        v.username_modal_open ==> v.edited_username(name).username == name,
        !v.username_modal_open ==> v.edited_username(name).username == v.username,
        !v.saved_profile().username_modal_open,
        v.saved_profile().username == v.username,
        v.shows_main() ==> v.toggled_settings().settings_open == !v.settings_open,
        v.shows_main() ==> !v.closed_settings().settings_open,
        v.shows_main() && v.settings_open && v.lists(target) ==> v.selected(target).target
            == target,
        !v.lists(target) ==> v.selected(target).target == v.target,
        v.reported(e).errors == v.errors.push(e),
        v.shows_main() && v.errors.len() > 0 ==> v.dismissed().errors == v.errors.subrange(
            1,
            v.errors.len() as int,
        ),
        v.can_start_feed() ==> v.started_feed().is_hosting && v.started_feed().room_code
            == v.room_code,
        v.can_join() ==> v.joined().is_watching && v.joined().input_room_code
            == v.input_room_code,
        v.shows_main() && v.is_hosting ==> !v.stopped_feed().is_hosting,
        v.shows_main() && v.is_watching ==> !v.left_feed().is_watching && !v.left_feed().frame_pending
            && v.left_feed().has_texture == v.frame_pending,
        v.frame_arrived().frame_pending,
        v.takes_frame() ==> v.repainted().has_texture && !v.repainted().frame_pending,
        v.with_users(users).connected_users == users,
{
    if v.shows_main() && v.errors.len() > 0 {
        assert(v.errors.drop_first() =~= v.errors.subrange(1, v.errors.len() as int));
    }
}


proof fn lemma_trim_start_shape(s: Seq<char>) -> (i: int)
    ensures
        0 <= i <= s.len(),
        trim_start(s) == s.skip(i),
        forall|k: int| 0 <= k < i ==> is_white_space(#[trigger] s[k]),
        i < s.len() ==> !is_white_space(s[i]),
    decreases s.len(),
{
    if s.len() > 0 && is_white_space(s[0]) {
        let t = s.drop_first();
        let j = lemma_trim_start_shape(t);
        assert forall|k: int| 0 <= k < j + 1 implies is_white_space(#[trigger] s[k]) by {
            if k > 0 {
                assert(s[k] == t[k - 1]);
            }
        }
        assert(t.skip(j) =~= s.skip(j + 1));
        if j + 1 < s.len() {
            assert(s[j + 1] == t[j]);
        }
        j + 1
    } else {
        assert(s.skip(0) =~= s);
        0
    }
}

proof fn lemma_trim_end_shape(s: Seq<char>) -> (j: int)
    ensures
        0 <= j <= s.len(),
        trim_end(s) == s.take(j),
        forall|k: int| j <= k < s.len() ==> is_white_space(#[trigger] s[k]),
        j > 0 ==> !is_white_space(s[j - 1]),
    decreases s.len(),
{
    if s.len() > 0 && is_white_space(s.last()) {
        let t = s.drop_last();
        let j = lemma_trim_end_shape(t);
        assert forall|k: int| j <= k < s.len() implies is_white_space(#[trigger] s[k]) by {
            if k < t.len() {
                assert(s[k] == t[k]);
            }
        }
        assert(t.take(j) =~= s.take(j));
        if j > 0 {
            assert(s[j - 1] == t[j - 1]);
        }
        j
    } else {
        assert(s.take(s.len() as int) =~= s);
        s.len() as int
    }
}

/// Trimming keeps one stretch of the text: only white space lies before and
/// after it, and it neither begins nor ends with white space.
pub proof fn lemma_trimmed_is_inner_stretch(s: Seq<char>)
    ensures
        exists|i: int, j: int|
            #![trigger s.subrange(i, j)]
            0 <= i <= j <= s.len() && trimmed(s) == s.subrange(i, j) && (forall|k: int|
                0 <= k < i ==> is_white_space(#[trigger] s[k])) && (forall|k: int|
                j <= k < s.len() ==> is_white_space(#[trigger] s[k])),
        trimmed(s).len() > 0 ==> !is_white_space(trimmed(s)[0]) && !is_white_space(
            trimmed(s)[trimmed(s).len() - 1],
        ),
{
    let i = lemma_trim_start_shape(s);
    let t = s.skip(i);
    let j = lemma_trim_end_shape(t);
    assert(trimmed(s) == t.take(j));
    assert(t.take(j) =~= s.subrange(i, i + j));
    assert forall|k: int| i + j <= k < s.len() implies is_white_space(#[trigger] s[k]) by {
        assert(s[k] == t[k - i]);
    }
    if j > 0 {
        assert(trimmed(s)[0] == s[i]);
        assert(trimmed(s)[j - 1] == t[j - 1]);
    }
    assert(0 <= i <= i + j <= s.len() && trimmed(s) == s.subrange(i, i + j));
}

/// Trimming trailing copies of a character keeps a prefix that does not
/// end with it, and only copies of it follow that prefix.
pub proof fn lemma_trim_end_char_shape(s: Seq<char>, c: char)
    ensures
        trim_end_char(s, c).len() <= s.len(),
        trim_end_char(s, c) == s.take(trim_end_char(s, c).len() as int),
        forall|k: int| trim_end_char(s, c).len() <= k < s.len() ==> #[trigger] s[k] == c,
        trim_end_char(s, c).len() > 0 ==> trim_end_char(s, c).last() != c,
    decreases s.len(),
{
    if s.len() > 0 && s.last() == c {
        let t = s.drop_last();
        lemma_trim_end_char_shape(t, c);
        let r = trim_end_char(t, c);
        assert(t.take(r.len() as int) =~= s.take(r.len() as int));
        assert forall|k: int| r.len() <= k < s.len() implies #[trigger] s[k] == c by {
            if k < t.len() {
                assert(s[k] == t[k]);
            }
        }
    } else {
        assert(s.take(s.len() as int) =~= s);
    }
}

/// Removing white space keeps no white space and never lengthens the text.
pub proof fn lemma_without_white_space_shape(s: Seq<char>)
    ensures
        without_white_space(s).len() <= s.len(),
        forall|i: int|
            0 <= i < without_white_space(s).len() ==> !is_white_space(
                #[trigger] without_white_space(s)[i],
            ),
    decreases s.len(),
{
    lemma_without_white_space_drops(s);
    if s.len() > 0 {
        lemma_without_white_space_shape(s.drop_last());
    }
}

} // verus!
