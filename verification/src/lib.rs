//! Session logic of a screen-sharing client: invite links, server endpoints,
//! frame pacing, capture-target choice, stream message handling and the
//! client's interactive state.

mod capture;
mod endpoint;
mod imaging;
mod laws;
mod link;
mod pacing;
mod protocol;
mod session;
mod text;

pub use capture::{
    cursor_on_frame, cursor_visible, find_source, has_title, initial_target, initial_target_of,
    monitor_caption, sources_view, titled_windows, titled_windows_of, window_caption,
    StreamTarget,
};
pub use endpoint::{
    compact, host_url, host_url_of, join_url, join_url_of, new_room_url, new_room_url_of,
    room_code_from_reply, HTTP_SERVER_URL, WS_SERVER_URL,
};
pub use imaging::{
    base64_decoded, cursor_sprite, decode_embedded_image, decode_frame, decoded_image,
    embedded_image, encode_stream_frame, jpeg_encoded, overlaid, resized, streamed_jpeg,
    with_cursor, Frame, Resampling, CURSOR_SIZE, STREAM_QUALITY,
};
pub use laws::{
    lemma_clean_reply_is_code, lemma_controls_do_what_they_say, lemma_cursor_drawn_at_mouse,
    lemma_cursor_on_frame_inside, lemma_frame_delay_fits_rate, lemma_initial_target_is_first_monitor,
    lemma_listing_replaces_sources, lemma_room_code_is_reply, lemma_room_field_holds_typed_text,
    lemma_slider_takes_every_offered_rate, lemma_titled_windows_are_titled,
    lemma_titled_windows_keep_titled, lemma_trim_end_char_shape, lemma_trimmed_is_inner_stretch,
    lemma_without_white_space_keeps, lemma_without_white_space_shape,
    lemma_compact_has_no_white_space, lemma_copied_invite_opens_room, lemma_host_and_viewer_meet,
    lemma_leave_undoes_join, lemma_new_error_waits_its_turn, lemma_profile_dialog_blocks_main,
    lemma_quiet_steps_keep_flags, lemma_report_and_dismiss_commute, lemma_settings_keep_their_ranges,
    lemma_settings_toggle_twice, lemma_stop_undoes_start, lemma_stopped_loops_keep_flags,
};
pub use link::{
    initial_room_code, invite_link, invite_scheme, launch_room, lemma_invite_link_round_trip,
    lemma_link_room_has_no_slash, link_room, open_command, room_from_link, scheme,
};
pub use pacing::{
    frame_delay_ms, frame_delay_of, nanos_per_milli, remaining_sleep_nanos,
};
pub use protocol::{
    ends_watching, host_reaction, watch_reaction, ControlPacket, HostMessage, HostReaction,
    WatchMessage, WatchReaction,
};
pub use session::{
    error_view, hosting_after, hosting_failure, initial_username, join_failure, names_view,
    runs_within, watching_after, Effect, Session, SessionView,
    UiError, MAX_FPS, MIN_FPS,
};
pub use text::{
    chars_of, has_prefix, is_white_space, remove_char, remove_matches, same_text,
    starts_with, strip_white_space, string_of, trim, trim_end, trim_end_char,
    trim_end_matches_char, trim_start, trimmed, white_space, without_char, without_matches,
    without_white_space,
};
