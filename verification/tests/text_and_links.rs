use rustconnect::{
    chars_of, has_prefix, host_url, initial_room_code, invite_link, join_url, new_room_url,
    open_command, remove_char, remove_matches, room_code_from_reply, room_from_link, same_text,
    scheme, strip_white_space, trim, trim_end_matches_char, white_space, HTTP_SERVER_URL,
    WS_SERVER_URL,
};

#[test]
fn white_space_agrees_with_std_for_every_char() {
    for u in 0u32..=0x10FFFF {
        if let Some(c) = char::from_u32(u) {
            assert_eq!(white_space(c), c.is_whitespace(), "char {:#x}", u);
        }
    }
}

#[test]
fn trim_agrees_with_std() {
    let samples = [
        "", "   ", "abc", "  abc  ", "\t\nroom\r\n", "\u{3000}x\u{2003}", "a b", " a b ",
        "\u{85}code\u{a0}", "ünï cödé  ",
    ];
    for s in samples {
        assert_eq!(trim(s), s.trim(), "sample {:?}", s);
    }
}

#[test]
fn strip_white_space_removes_every_blank() {
    assert_eq!(strip_white_space(" a b\tc\n"), "abc");
    assert_eq!(strip_white_space("\u{2000}x\u{3000}y"), "xy");
    assert_eq!(strip_white_space(""), "");
    let s = " room\u{a0} 42 ";
    assert_eq!(strip_white_space(s), s.replace(|c: char| c.is_whitespace(), ""));
}

#[test]
fn remove_matches_agrees_with_std_replace() {
    let samples = [
        ("rustconnect://abc", "rustconnect://"),
        ("rustconnect://rustconnect://abc", "rustconnect://"),
        ("aaaa", "aa"),
        ("aaa", "aa"),
        ("abcabc", "bc"),
        ("xyz", "q"),
        ("", "ab"),
    ];
    for (s, p) in samples {
        assert_eq!(remove_matches(s, p), s.replace(p, ""), "{:?} without {:?}", s, p);
    }
}

#[test]
fn remove_char_and_trim_end() {
    assert_eq!(remove_char("a/b//c/", '/'), "abc");
    assert_eq!(trim_end_matches_char("ws://host///", '/'), "ws://host");
    assert_eq!(trim_end_matches_char("ws://host", '/'), "ws://host");
    assert_eq!(trim_end_matches_char("///", '/'), "");
}

#[test]
fn prefix_and_equality() {
    assert!(has_prefix("rustconnect://x", "rustconnect://"));
    assert!(!has_prefix("rustconnect:/x", "rustconnect://"));
    assert!(has_prefix("abc", ""));
    assert!(!has_prefix("ab", "abc"));
    assert!(same_text("KICKED", "KICKED"));
    assert!(!same_text("KICKED", "KICKE"));
    assert!(!same_text("kicked", "KICKED"));
    assert_eq!(chars_of("héllo"), vec!['h', 'é', 'l', 'l', 'o']);
}

#[test]
fn invite_link_has_scheme_prefix() {
    assert_eq!(scheme(), "rustconnect://");
    assert_eq!(invite_link("ABC123"), "rustconnect://ABC123");
    assert_eq!(invite_link(""), "rustconnect://");
}

#[test]
fn room_from_link_strips_scheme_and_slashes() {
    assert_eq!(room_from_link("rustconnect://ABC123/"), Some("ABC123".to_string()));
    assert_eq!(room_from_link("rustconnect://A/B/C"), Some("ABC".to_string()));
    assert_eq!(
        room_from_link("rustconnect://xrustconnect://y"),
        Some("xy".to_string())
    );
    assert_eq!(room_from_link("http://ABC"), None);
    assert_eq!(room_from_link(""), None);
}

#[test]
fn invite_link_round_trip() {
    for code in ["ABC123", "", "a b", "rustconnect:", "ünï"] {
        assert_eq!(room_from_link(&invite_link(code)), Some(code.to_string()));
    }
}

#[test]
fn initial_room_code_reads_second_argument() {
    let args = vec!["app".to_string(), "rustconnect://ROOM9/".to_string()];
    assert_eq!(initial_room_code(&args), "ROOM9");
    let plain = vec!["app".to_string(), "ROOM9".to_string()];
    assert_eq!(initial_room_code(&plain), "");
    let alone = vec!["app".to_string()];
    assert_eq!(initial_room_code(&alone), "");
    let none: Vec<String> = Vec::new();
    assert_eq!(initial_room_code(&none), "");
    let later = vec!["app".to_string(), "x".to_string(), "rustconnect://R".to_string()];
    assert_eq!(initial_room_code(&later), "");
}

#[test]
fn host_url_compacts_room_and_user() {
    assert_eq!(
        host_url(WS_SERVER_URL, " AB C ", " my user "),
        "ws://127.0.0.1:8080/host?room=ABC&user=myuser"
    );
    assert_eq!(
        host_url("  ws://relay.example/// ", "r", "u"),
        "ws://relay.example/host?room=r&user=u"
    );
}

#[test]
fn join_url_keeps_its_parts() {
    assert_eq!(
        join_url(WS_SERVER_URL, "AB C", "my user"),
        "ws://127.0.0.1:8080/join?room=AB C&user=my user"
    );
}

#[test]
fn new_room_request_and_reply() {
    assert_eq!(new_room_url(HTTP_SERVER_URL), "http://127.0.0.1:8080/new");
    assert_eq!(room_code_from_reply("  XY12\n"), "XY12");
    assert_eq!(room_code_from_reply(""), "");
}

#[test]
fn protocol_open_command_quotes_path() {
    assert_eq!(open_command("C:\\app\\rc.exe"), "\"C:\\app\\rc.exe\" \"%1\"");
}

#[test]
fn host_and_viewer_use_the_same_room() {
    let code = room_code_from_reply(" K7Q2 \n");
    let host = host_url(WS_SERVER_URL, &code, "ann");
    let viewer = join_url(WS_SERVER_URL, &trim(&code), "bob");
    assert!(host.contains("room=K7Q2&"));
    assert!(viewer.contains("room=K7Q2&"));
}
