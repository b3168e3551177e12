use rustconnect::{
    find_source, has_title, hosting_failure, initial_target, initial_username, join_failure,
    monitor_caption, titled_windows_of, window_caption, Effect, Session, StreamTarget, UiError,
};

fn ready_session() -> Session {
    let mut s = Session::new("alice".to_string(), "".to_string(), StreamTarget::Monitor(1));
    assert!(matches!(s.save_profile(), Effect::SaveUsername(ref n) if n == "alice"));
    s
}

#[test]
fn new_session_starts_in_profile_dialog() {
    let s = Session::new("bob".to_string(), "R1".to_string(), StreamTarget::Monitor(3));
    assert!(s.username_modal_open);
    assert_eq!(s.max_fps, 60);
    assert_eq!(s.input_room_code, "R1");
    assert!(s.room_code.is_empty());
    assert!(!s.is_hosting && !s.is_watching);
}

#[test]
fn profile_dialog_blocks_main_window() {
    let mut s = Session::new("bob".to_string(), "R1".to_string(), StreamTarget::Monitor(3));
    assert!(matches!(s.toggle_settings(), Effect::Nothing));
    assert!(!s.settings_open);
    assert!(matches!(s.join_stream(), Effect::Nothing));
    assert!(!s.is_watching);
    s.edit_username("carol".to_string());
    assert_eq!(s.username, "carol");
    assert!(matches!(s.save_profile(), Effect::SaveUsername(ref n) if n == "carol"));
    assert!(matches!(s.save_profile(), Effect::Nothing));
    s.edit_username("dave".to_string());
    assert_eq!(s.username, "carol");
}

#[test]
fn settings_toggle_lists_sources() {
    let mut s = ready_session();
    assert!(matches!(s.toggle_settings(), Effect::ListSources));
    assert!(s.settings_open);
    assert!(matches!(s.toggle_settings(), Effect::Nothing));
    assert!(!s.settings_open);
    assert!(matches!(s.toggle_settings(), Effect::ListSources));
    s.close_settings();
    assert!(!s.settings_open);
}

#[test]
fn only_listed_targets_can_be_selected() {
    let mut s = ready_session();
    let _ = s.toggle_settings();
    s.set_sources(
        vec![(1, "Main".to_string()), (2, "Side".to_string())],
        vec![(7, "Editor".to_string()), (8, "  ".to_string()), (9, "".to_string())],
    );
    assert_eq!(s.windows, vec![(7, "Editor".to_string())]);
    s.select_target(StreamTarget::Window(8));
    assert_eq!(s.target, StreamTarget::Monitor(1));
    s.select_target(StreamTarget::Window(7));
    assert_eq!(s.target, StreamTarget::Window(7));
    s.select_target(StreamTarget::Monitor(2));
    assert_eq!(s.target, StreamTarget::Monitor(2));
    s.close_settings();
    s.select_target(StreamTarget::Monitor(1));
    assert_eq!(s.target, StreamTarget::Monitor(2));
}

#[test]
fn frame_rate_slider() {
    let mut s = ready_session();
    assert!(matches!(s.set_max_fps(30), Effect::Nothing));
    let _ = s.toggle_settings();
    assert!(matches!(s.set_max_fps(30), Effect::StoreFrameDelay(33)));
    assert_eq!(s.max_fps, 30);
    assert!(matches!(s.set_max_fps(30), Effect::Nothing));
    assert!(matches!(s.set_max_fps(14), Effect::Nothing));
    assert!(matches!(s.set_max_fps(61), Effect::Nothing));
    assert!(matches!(s.set_max_fps(15), Effect::StoreFrameDelay(66)));
    assert_eq!(s.max_fps, 15);
}

#[test]
fn errors_are_shown_oldest_first() {
    let mut s = Session::new("a".to_string(), "".to_string(), StreamTarget::Monitor(0));
    s.report_error(join_failure("ws://x/join?room=r&user=a"));
    s.report_error(hosting_failure("boom"));
    assert!(s.current_error().is_none());
    s.dismiss_error();
    assert_eq!(s.errors.len(), 2);
    let _ = s.save_profile();
    assert_eq!(s.current_error().unwrap().title, "Join Error");
    assert_eq!(s.current_error().unwrap().message, "Connection failed: ws://x/join?room=r&user=a");
    s.dismiss_error();
    let e: &UiError = s.current_error().unwrap();
    assert_eq!(e.title, "Hosting Connection Failed");
    assert_eq!(e.message, "URL Configuration Error: boom. Check formatting strings.");
    s.dismiss_error();
    assert!(s.current_error().is_none());
    s.dismiss_error();
    assert!(s.errors.is_empty());
}

#[test]
fn hosting_flow() {
    let mut s = ready_session();
    assert!(matches!(s.copy_invite(), Effect::Nothing));
    assert!(matches!(s.start_feed(), Effect::Nothing));
    match s.request_room_code() {
        Effect::RequestRoomCode(url) => assert_eq!(url, "http://127.0.0.1:8080/new"),
        _ => panic!("expected a request"),
    }
    s.room_code_received("  ROOM42 \n");
    assert_eq!(s.room_code, "ROOM42");
    match s.copy_invite() {
        Effect::CopyToClipboard(text) => assert_eq!(text, "rustconnect://ROOM42"),
        _ => panic!("expected a copy"),
    }
    match s.start_feed() {
        Effect::StartHosting { room, user } => {
            assert_eq!(room, "ROOM42");
            assert_eq!(user, "alice");
        }
        _ => panic!("expected hosting"),
    }
    assert!(s.is_hosting);
    assert!(matches!(s.request_room_code(), Effect::Nothing));
    assert!(matches!(s.copy_invite(), Effect::CopyToClipboard(_)));
    assert!(matches!(s.join_stream(), Effect::Nothing));
    assert!(matches!(s.stop_feed(), Effect::StopHosting));
    assert!(!s.is_hosting);
    assert!(matches!(s.stop_feed(), Effect::Nothing));
}

#[test]
fn watching_flow() {
    let mut s = ready_session();
    assert!(matches!(s.join_stream(), Effect::Nothing));
    s.edit_room_input("  ROOM42 ".to_string());
    match s.join_stream() {
        Effect::StartWatching { room, user } => {
            assert_eq!(room, "ROOM42");
            assert_eq!(user, "alice");
        }
        _ => panic!("expected watching"),
    }
    assert!(s.is_watching);
    s.edit_room_input("other".to_string());
    assert_eq!(s.input_room_code, "  ROOM42 ");
    assert!(!s.repaint());
    s.frame_arrived();
    assert!(s.repaint());
    assert!(s.has_texture);
    assert!(!s.frame_pending);
    assert!(matches!(s.start_feed(), Effect::Nothing));
    assert!(matches!(s.leave_feed(), Effect::StopWatching));
    assert!(!s.is_watching && !s.has_texture);
    s.frame_arrived();
    assert!(!s.repaint());
    assert!(s.frame_pending);
}

#[test]
fn leaving_takes_a_waiting_frame() {
    let mut s = ready_session();
    s.edit_room_input("R".to_string());
    let _ = s.join_stream();
    s.frame_arrived();
    assert!(matches!(s.leave_feed(), Effect::StopWatching));
    assert!(!s.is_watching);
    assert!(s.has_texture);
    assert!(!s.frame_pending);
    assert!(!s.repaint());
}

#[test]
fn users_list_replaces() {
    let mut s = ready_session();
    s.users_listed(vec!["x".to_string()]);
    s.users_listed(vec!["y".to_string(), "z".to_string()]);
    assert_eq!(s.connected_users, vec!["y".to_string(), "z".to_string()]);
}

#[test]
fn initial_values() {
    assert_eq!(initial_target(&vec![5, 6]), StreamTarget::Monitor(5));
    assert_eq!(initial_target(&vec![]), StreamTarget::Monitor(0));
    assert_eq!(initial_username(Some("me".to_string())), "me");
    assert_eq!(initial_username(None), "This is a Username btw");
}

#[test]
fn find_source_gives_first_match() {
    assert_eq!(find_source(&vec![3, 4, 4], 4), Some(1));
    assert_eq!(find_source(&vec![3, 4], 5), None);
    assert_eq!(find_source(&vec![], 0), None);
}

#[test]
fn titled_windows_keep_order() {
    let all = vec![
        (1, "\t".to_string()),
        (2, "B".to_string()),
        (3, " A ".to_string()),
    ];
    assert_eq!(titled_windows_of(&all), vec![(2, "B".to_string()), (3, " A ".to_string())]);
}

#[test]
fn blank_titles() {
    assert!(has_title(" a "));
    assert!(!has_title(" \t\u{3000}"));
    assert!(!has_title(""));
}

#[test]
fn captions() {
    assert_eq!(monitor_caption(StreamTarget::Monitor(1)), "Monitor Selected");
    assert_eq!(monitor_caption(StreamTarget::Window(1)), "Select Monitor...");
    assert_eq!(window_caption(StreamTarget::Window(1)), "Window Selected");
    assert_eq!(window_caption(StreamTarget::Monitor(1)), "Select Window...");
}
