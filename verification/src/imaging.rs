//! Pixel frames and the image work of the stream: decoding embedded and
//! received images, drawing the cursor, scaling and JPEG encoding.

use vstd::prelude::*;
use vstd::string::StringSliceAdditionalSpecFns;

use base64::Engine;
use image::codecs::jpeg::JpegEncoder;
use image::imageops::FilterType;
use image::{ImageBuffer, Rgba};

use crate::capture::{cursor_on_frame, cursor_visible};

verus! {

/// An image as four bytes (red, green, blue, alpha) per pixel, row by row
/// from the top left.
pub struct Frame {
    pub width: u32,
    pub height: u32,
    pub rgba: Vec<u8>,
}

impl Frame {
    /// The pixel bytes are exactly as many as the size asks for.
    pub open spec fn wf(&self) -> bool {
        self.rgba@.len() == self.width as int * self.height as int * 4
    }

    /// The frame as its size and pixel bytes.
    pub open spec fn parts(&self) -> (u32, u32, Seq<u8>) {
        (self.width, self.height, self.rgba@)
    }
}

/// How a frame is resampled when its size changes.
#[derive(Clone, Copy, Debug, PartialEq, Eq, Structural)]
pub enum Resampling {
    /// Nearest-neighbour sampling.
    Nearest,
    /// Linear (triangle) filtering.
    Triangle,
}

/// The bytes that standard, padded base64 text decodes to, if it is valid.
pub uninterp spec fn base64_decoded(text: Seq<u8>) -> Option<Seq<u8>>;

/// The size and RGBA pixels of an encoded image (PNG, JPEG or ICO), if it
/// decodes.
pub uninterp spec fn decoded_image(bytes: Seq<u8>) -> Option<(u32, u32, Seq<u8>)>;

/// The pixels of an RGBA image scaled to a new size.
pub uninterp spec fn resized(
    rgba: Seq<u8>,
    width: u32,
    height: u32,
    new_width: u32,
    new_height: u32,
    filter: Resampling,
) -> Seq<u8>;

/// The pixels of an RGBA image with another alpha-blended onto it, its top
/// left corner at (`x`, `y`).
pub uninterp spec fn overlaid(
    bottom: Seq<u8>,
    width: u32,
    height: u32,
    top: Seq<u8>,
    top_width: u32,
    top_height: u32,
    x: i64,
    y: i64,
) -> Seq<u8>;

/// The JPEG file that encodes an RGBA image at a quality.
pub uninterp spec fn jpeg_encoded(rgba: Seq<u8>, width: u32, height: u32, quality: u8) -> Seq<
    u8,
>;

/// Decodes standard, padded base64 with `base64::engine::general_purpose::STANDARD`
/// (`Engine::decode`; `base64::decode` forwards to it). Claims that the
/// result is the named decoding of the input, and that it is absent exactly
/// where the crate reports an error.
#[verifier::external_body]
fn base64_decode(text: &[u8]) -> (r: Option<Vec<u8>>)
    ensures
        r matches Some(b) ==> base64_decoded(text@) == Some(b@),
        r is None ==> base64_decoded(text@) is None,
{
    base64::engine::general_purpose::STANDARD.decode(text).ok()
}

/// Decodes an image with `image::load_from_memory` and converts it with
/// `DynamicImage::to_rgba8`. Claims that the frame is the named decoding of
/// the bytes, absent exactly where the crate reports an error, and that its
/// pixel bytes fit its size (the crate builds the buffer at that size).
#[verifier::external_body]
fn decode_image(bytes: &[u8]) -> (r: Option<Frame>)
    ensures
        r matches Some(f) ==> f.wf() && decoded_image(bytes@) == Some(f.parts()),
        r is None ==> decoded_image(bytes@) is None,
{
    let rgba = image::load_from_memory(bytes).ok()?.to_rgba8();
    let (width, height) = rgba.dimensions();
    Some(Frame { width, height, rgba: rgba.into_raw() })
}

/// Scales a frame with `image::imageops::resize`. Claims that the result has
/// the requested size, pixel bytes that fit it, and the named pixels.
#[verifier::external_body]
fn resize_frame(frame: &Frame, width: u32, height: u32, filter: Resampling) -> (r: Frame)
    requires
        frame.wf(),
    ensures
        r.width == width,
        r.height == height,
        r.wf(),
        r.rgba@ == resized(frame.rgba@, frame.width, frame.height, width, height, filter),
{
    let source = ImageBuffer::<Rgba<u8>, &[u8]>::from_raw(frame.width, frame.height, &frame.rgba[..]).unwrap();
    let kind = match filter {
        Resampling::Nearest => FilterType::Nearest,
        Resampling::Triangle => FilterType::Triangle,
    };
    Frame { width, height, rgba: image::imageops::resize(&source, width, height, kind).into_raw() }
}

/// Blends `top` onto `bottom` with `image::imageops::overlay`. Claims that
/// the bottom frame keeps its size and gets the named pixels.
#[verifier::external_body]
fn overlay_frame(bottom: &mut Frame, top: &Frame, x: i64, y: i64)
    requires
        old(bottom).wf(),
        top.wf(),
    ensures
        final(bottom).width == old(bottom).width,
        final(bottom).height == old(bottom).height,
        final(bottom).wf(),
        final(bottom).rgba@ == overlaid(old(bottom).rgba@, old(bottom).width, old(bottom).height, top.rgba@, top.width, top.height, x, y),
{
    let (width, height) = (bottom.width, bottom.height);
    let mut canvas = ImageBuffer::<Rgba<u8>, &mut [u8]>::from_raw(width, height, &mut bottom.rgba[..]).unwrap();
    let sprite = ImageBuffer::<Rgba<u8>, &[u8]>::from_raw(top.width, top.height, &top.rgba[..]).unwrap();
    image::imageops::overlay(&mut canvas, &sprite, x, y);
}

/// Encodes a frame with `JpegEncoder::new_with_quality` and `encode_image`
/// into memory. Claims that encoding succeeds exactly when both sides are
/// between 1 and 65535 pixels (the encoder's only error when it writes to a
/// `Vec`), and that the bytes are the named encoding.
#[verifier::external_body]
fn encode_jpeg(frame: &Frame, quality: u8) -> (r: Option<Vec<u8>>)
    requires
        frame.wf(),
    ensures
        r is Some <==> (1 <= frame.width <= 65535 && 1 <= frame.height <= 65535),
        r matches Some(b) ==> b@ == jpeg_encoded(frame.rgba@, frame.width, frame.height, quality),
{
    let source = ImageBuffer::<Rgba<u8>, &[u8]>::from_raw(frame.width, frame.height, &frame.rgba[..]).unwrap();
    let mut out: Vec<u8> = Vec::new();
    JpegEncoder::new_with_quality(&mut out, quality).encode_image(&source).ok()?;
    Some(out)
}

/// The image that base64 text embeds: its decoding, decoded as an image.
pub open spec fn embedded_image(text: Seq<u8>) -> Option<(u32, u32, Seq<u8>)> {
    match base64_decoded(text) {
        Some(bytes) => decoded_image(bytes),
        None => None,
    }
}

/// Decodes an image embedded in the program as base64 text (the window
/// icon, the cursor sprite).
pub fn decode_embedded_image(text: &str) -> (r: Option<Frame>)
    ensures
        r matches Some(f) ==> f.wf() && embedded_image(text.spec_bytes()) == Some(f.parts()),
        r is None ==> embedded_image(text.spec_bytes()) is None,
{
    match base64_decode(text.as_bytes()) {
        Some(bytes) => decode_image(bytes.as_slice()),
        None => None,
    }
}

/// Decodes a frame received from the stream.
pub fn decode_frame(bytes: &[u8]) -> (r: Option<Frame>)
    ensures
        r matches Some(f) ==> f.wf() && decoded_image(bytes@) == Some(f.parts()),
        r is None ==> decoded_image(bytes@) is None,
{
    decode_image(bytes)
}

/// The side of the square cursor sprite, in pixels.
pub const CURSOR_SIZE: u32 = 24;

/// The cursor sprite drawn onto captured frames: the cursor image scaled to
/// 24 by 24 pixels with linear filtering.
pub fn cursor_sprite(cursor: &Frame) -> (r: Frame)
    requires
        cursor.wf(),
    ensures
        r.wf(),
        r.width == CURSOR_SIZE,
        r.height == CURSOR_SIZE,
        r.rgba@ == resized(cursor.rgba@, cursor.width, cursor.height, CURSOR_SIZE, CURSOR_SIZE, Resampling::Triangle),
{
    resize_frame(cursor, CURSOR_SIZE, CURSOR_SIZE, Resampling::Triangle)
}

/// The JPEG quality of streamed frames.
pub const STREAM_QUALITY: u8 = 60;

/// The pixels of a captured frame after the cursor is drawn: blended at the
/// mouse position when that lies on the frame, else unchanged.
pub open spec fn with_cursor(frame: Frame, sprite: Frame, mouse_x: i32, mouse_y: i32) -> Seq<u8> {
    if cursor_on_frame(mouse_x, mouse_y, frame.width, frame.height) {
        overlaid(frame.rgba@, frame.width, frame.height, sprite.rgba@, sprite.width, sprite.height, mouse_x as i64, mouse_y as i64)
    } else {
        frame.rgba@
    }
}

/// The JPEG a host sends for a captured frame: the cursor drawn, the frame
/// scaled to `out_width` by `out_height` with nearest-neighbour sampling,
/// and encoded at quality 60.
pub open spec fn streamed_jpeg(
    frame: Frame,
    sprite: Frame,
    mouse_x: i32,
    mouse_y: i32,
    out_width: u32,
    out_height: u32,
) -> Seq<u8> {
    jpeg_encoded(
        resized(with_cursor(frame, sprite, mouse_x, mouse_y), frame.width, frame.height, out_width, out_height, Resampling::Nearest),
        out_width,
        out_height,
        STREAM_QUALITY,
    )
}

/// Turns a captured frame into the JPEG that is sent to viewers; nothing is
/// sent when the scaled size is empty or too large for JPEG.
pub fn encode_stream_frame(
    frame: Frame,
    sprite: &Frame,
    mouse_x: i32,
    mouse_y: i32,
    out_width: u32,
    out_height: u32,
) -> (r: Option<Vec<u8>>)
    requires
        frame.wf(),
        sprite.wf(),
    ensures
        r is Some <==> (1 <= out_width <= 65535 && 1 <= out_height <= 65535),
        r matches Some(b) ==> b@ == streamed_jpeg(frame, *sprite, mouse_x, mouse_y, out_width, out_height),
{
    let ghost original = frame;
    let mut canvas = frame;
    if cursor_visible(mouse_x, mouse_y, canvas.width, canvas.height) {
        overlay_frame(&mut canvas, sprite, mouse_x as i64, mouse_y as i64);
    }
    assert(canvas.rgba@ == with_cursor(original, *sprite, mouse_x, mouse_y));
    let scaled = resize_frame(&canvas, out_width, out_height, Resampling::Nearest);
    encode_jpeg(&scaled, STREAM_QUALITY)
}

} // verus!
