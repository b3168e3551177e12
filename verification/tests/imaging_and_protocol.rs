use base64::Engine;
use image::{ImageFormat, Rgba, RgbaImage};
use rustconnect::{
    cursor_sprite, cursor_visible, decode_embedded_image, decode_frame, encode_stream_frame,
    frame_delay_ms, host_reaction, remaining_sleep_nanos, watch_reaction, ControlPacket, Frame,
    HostMessage, HostReaction, WatchMessage, WatchReaction, CURSOR_SIZE,
};

fn png_bytes(width: u32, height: u32, pixel: [u8; 4]) -> Vec<u8> {
    let img = RgbaImage::from_pixel(width, height, Rgba(pixel));
    let mut out = std::io::Cursor::new(Vec::new());
    img.write_to(&mut out, ImageFormat::Png).unwrap();
    out.into_inner()
}

fn solid(width: u32, height: u32, pixel: [u8; 4]) -> Frame {
    let mut rgba = Vec::new();
    for _ in 0..width * height {
        rgba.extend_from_slice(&pixel);
    }
    Frame { width, height, rgba }
}

#[test]
fn embedded_png_decodes_to_its_pixels() {
    let text = base64::engine::general_purpose::STANDARD.encode(png_bytes(3, 2, [10, 20, 30, 255]));
    let frame = decode_embedded_image(&text).expect("decodes");
    assert_eq!((frame.width, frame.height), (3, 2));
    assert_eq!(frame.rgba.len(), 24);
    assert_eq!(&frame.rgba[0..4], &[10, 20, 30, 255]);
}

#[test]
fn embedded_image_rejects_bad_base64_and_bad_image() {
    assert!(decode_embedded_image("not base64!").is_none());
    let not_image = base64::engine::general_purpose::STANDARD.encode(b"hello world");
    assert!(decode_embedded_image(&not_image).is_none());
}

#[test]
fn received_frame_decodes() {
    let frame = decode_frame(&png_bytes(4, 4, [1, 2, 3, 4])).expect("decodes");
    assert_eq!((frame.width, frame.height), (4, 4));
    assert_eq!(&frame.rgba[60..64], &[1, 2, 3, 4]);
    assert!(decode_frame(&[1, 2, 3]).is_none());
}

#[test]
fn cursor_sprite_is_24_square() {
    let sprite = cursor_sprite(&solid(100, 50, [200, 100, 50, 255]));
    assert_eq!((sprite.width, sprite.height), (CURSOR_SIZE, CURSOR_SIZE));
    assert_eq!(sprite.rgba.len(), 24 * 24 * 4);
    assert_eq!(&sprite.rgba[0..4], &[200, 100, 50, 255]);
}

#[test]
fn cursor_visibility_follows_frame_bounds() {
    assert!(cursor_visible(0, 0, 10, 10));
    assert!(cursor_visible(9, 9, 10, 10));
    assert!(!cursor_visible(10, 5, 10, 10));
    assert!(!cursor_visible(5, 10, 10, 10));
    assert!(!cursor_visible(-1, 5, 10, 10));
    assert!(!cursor_visible(5, -1, 10, 10));
    assert!(!cursor_visible(0, 0, 0, 10));
    // sizes beyond i32::MAX wrap when compared as i32
    assert!(!cursor_visible(5, 5, u32::MAX, 10));
}

fn decode_jpeg(bytes: &[u8]) -> RgbaImage {
    image::load_from_memory(bytes).unwrap().to_rgba8()
}

#[test]
fn stream_frame_draws_cursor_scales_and_encodes() {
    let frame = solid(64, 64, [0, 0, 0, 255]);
    let sprite = solid(24, 24, [255, 255, 255, 255]);
    let jpeg = encode_stream_frame(frame, &sprite, 0, 0, 32, 32).expect("encodes");
    assert_eq!(&jpeg[0..2], &[0xFF, 0xD8]);
    let back = decode_jpeg(&jpeg);
    assert_eq!(back.dimensions(), (32, 32));
    assert!(back.get_pixel(4, 4)[0] > 200);
    assert!(back.get_pixel(28, 28)[0] < 50);
}

#[test]
fn stream_frame_without_cursor_when_off_frame() {
    let frame = solid(64, 64, [0, 0, 0, 255]);
    let sprite = solid(24, 24, [255, 255, 255, 255]);
    let jpeg = encode_stream_frame(frame, &sprite, -5, 0, 64, 64).expect("encodes");
    let back = decode_jpeg(&jpeg);
    assert!(back.get_pixel(4, 4)[0] < 50);
}

#[test]
fn stream_frame_of_empty_size_is_not_sent() {
    let sprite = solid(24, 24, [255, 255, 255, 255]);
    assert!(encode_stream_frame(solid(8, 8, [0, 0, 0, 255]), &sprite, 0, 0, 0, 8).is_none());
    assert!(encode_stream_frame(solid(8, 8, [0, 0, 0, 255]), &sprite, 0, 0, 8, 70000).is_none());
}

#[test]
fn frame_delay_values() {
    assert_eq!(frame_delay_ms(60), 16);
    assert_eq!(frame_delay_ms(15), 66);
    assert_eq!(frame_delay_ms(1), 1000);
    assert_eq!(frame_delay_ms(0), 1000);
    assert_eq!(frame_delay_ms(2000), 0);
}

#[test]
fn remaining_sleep_values() {
    assert_eq!(remaining_sleep_nanos(16, 6_000_000), Some(10_000_000));
    assert_eq!(remaining_sleep_nanos(16, 16_000_000), None);
    assert_eq!(remaining_sleep_nanos(16, 20_000_000), None);
    assert_eq!(remaining_sleep_nanos(0, 0), None);
}

#[test]
fn host_reaction_to_each_message() {
    let list = vec!["ann".to_string(), "bob".to_string()];
    match host_reaction(HostMessage::Text(Some(ControlPacket::UserList(Some(list.clone()))))) {
        HostReaction::SetUsers(users) => assert_eq!(users, list),
        _ => panic!("expected users"),
    }
    match host_reaction(HostMessage::Text(Some(ControlPacket::UserList(None)))) {
        HostReaction::SetUsers(users) => assert!(users.is_empty()),
        _ => panic!("expected users"),
    }
    assert!(matches!(host_reaction(HostMessage::Text(Some(ControlPacket::Kicked))), HostReaction::Continue));
    assert!(matches!(host_reaction(HostMessage::Text(None)), HostReaction::Continue));
    assert!(matches!(host_reaction(HostMessage::Other), HostReaction::Continue));
    assert!(matches!(host_reaction(HostMessage::Close), HostReaction::Stop));
    assert!(matches!(host_reaction(HostMessage::Failed), HostReaction::Stop));
    assert!(matches!(host_reaction(HostMessage::Ended), HostReaction::Stop));
}

#[test]
fn watch_reaction_to_each_message() {
    match watch_reaction(WatchMessage::Binary(png_bytes(2, 2, [9, 9, 9, 255]))) {
        WatchReaction::Show(frame) => assert_eq!((frame.width, frame.height), (2, 2)),
        _ => panic!("expected a frame"),
    }
    assert!(matches!(watch_reaction(WatchMessage::Binary(vec![0, 1])), WatchReaction::Continue));
    assert!(matches!(
        watch_reaction(WatchMessage::Text("KICKED".to_string())),
        WatchReaction::Stop { deactivate: true }
    ));
    assert!(matches!(
        watch_reaction(WatchMessage::Text("Room not found".to_string())),
        WatchReaction::Stop { deactivate: true }
    ));
    assert!(matches!(watch_reaction(WatchMessage::Text("hello".to_string())), WatchReaction::Continue));
    assert!(matches!(watch_reaction(WatchMessage::Close), WatchReaction::Stop { deactivate: false }));
    assert!(matches!(watch_reaction(WatchMessage::Failed), WatchReaction::Stop { deactivate: false }));
    assert!(matches!(watch_reaction(WatchMessage::Ended), WatchReaction::Stop { deactivate: false }));
    assert!(matches!(watch_reaction(WatchMessage::TimedOut), WatchReaction::Continue));
    assert!(matches!(watch_reaction(WatchMessage::Other), WatchReaction::Continue));
}
