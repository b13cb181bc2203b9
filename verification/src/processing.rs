//! The image pipeline behind the photo commands: decoding the Base64 payload,
//! EXIF orientation, cropping to the region of interest, downscaling, rotating, and
//! encoding the result as Base64 PNG.
use vstd::prelude::*;
use crate::encoding::{
    ascii_text, base64_decoded, base64_encoded, base64_error_message, lemma_base64_round_trip,
    lemma_encoded_is_ascii, standard_decode, standard_encode,
};
use crate::imaging::{
    crop_imm, cropped, cut_out, decoded_image, flipv, fliph, image_load_error, load_from_memory,
    min_nat, png_encoding, png_format, png_write_error, within_decode_limit, rotate180, rotate270,
    rotate90, resize_triangle, rotated_clockwise, rotated_counterclockwise, rotated_half,
    flipped_horizontally, flipped_vertically, rgba8_converted, to_rgba8, triangle_resized,
    write_png, Picture, PictureView,
};
use crate::text::{same_text, to_lowercase, trim, trimmed, unicode_lowercase};

verus! {

/// An image sent by the front end: its file bytes in Base64.
#[derive(Clone, Debug)]
pub struct ImagePayload {
    pub bytes_base64: String,
}

/// A region of interest, in pixels of the oriented image.
#[derive(Clone, Copy, Debug)]
pub struct Roi {
    pub x: u32,
    pub y: u32,
    pub w: u32,
    pub h: u32,
}

/// An image sent back to the front end: a PNG file in Base64, and its size.
#[derive(Clone, Debug)]
pub struct ProcessedImage {
    pub bytes_base64: String,
    pub width: u32,
    pub height: u32,
}

/// Which way `rotate_image` turns a picture.
#[derive(Clone, Copy, Debug, PartialEq, Eq, Structural)]
pub enum Rotation {
    /// "left": a quarter turn counter-clockwise.
    Left,
    /// "right": a quarter turn clockwise.
    Right,
}

/// The UTF-8 bytes of a text.
pub open spec fn utf8_bytes(s: Seq<char>) -> Seq<u8> {
    vstd::utf8::encode_utf8(s)
}

/// The bytes an image payload carries, if its text is canonical Base64.
pub open spec fn payload_bytes(image: ImagePayload) -> Option<Seq<u8>> {
    base64_decoded(utf8_bytes(image.bytes_base64@))
}

/// An ASCII byte string, read as text and written back as UTF-8, is the same bytes.
proof fn lemma_ascii_utf8(bytes: Seq<u8>)
    requires
        forall|i: int| 0 <= i < bytes.len() ==> #[trigger] bytes[i] < 128,
    ensures
        utf8_bytes(ascii_text(bytes)) == bytes,
    decreases bytes.len(),
{
    if bytes.len() > 0 {
        let b = bytes[0];
        let rest = bytes.drop_first();
        assert forall|i: int| 0 <= i < rest.len() implies #[trigger] rest[i] < 128 by {
            assert(rest[i] == bytes[i + 1]);
        }
        lemma_ascii_utf8(rest);
        assert(ascii_text(bytes).drop_first() =~= ascii_text(rest));
        let c = ascii_text(bytes)[0] as u32;
        assert(c == b);
        assert(b < 128 ==> (b as u32 & 0x7F) as u8 == b) by (bit_vector);
        assert(vstd::utf8::encode_scalar(c) =~= seq![b]);
        assert(utf8_bytes(ascii_text(bytes)) =~= seq![b] + rest);
        assert(bytes =~= seq![b] + rest);
    }
}

/// The error for a payload whose text is not canonical Base64: a fixed opening, then
/// the decoder's own account of what is wrong.
pub open spec fn payload_error(image: ImagePayload) -> Seq<char> {
    "base64 decode error: "@ + base64_error_message(utf8_bytes(image.bytes_base64@))
}

/// `r` is what `encode_png_base64` gives for an image: its PNG file in Base64 with its
/// size, or, where the PNG encoder refuses the image, its error after a fixed opening.
pub open spec fn encodes(r: Result<ProcessedImage, String>, v: PictureView) -> bool {
    match r {
        Ok(p) => {
            &&& png_encoding(v) is Some
            &&& p.bytes_base64@ == ascii_text(base64_encoded(png_encoding(v).unwrap()))
            &&& p.width == v.width
            &&& p.height == v.height
        },
        Err(e) => png_encoding(v) is None && e@ == "encode png error: "@ + png_write_error(v),
    }
}

/// A picture that PNG holds as it is: one of its eight pixel formats, with pixels, and
/// small enough for the decoder to read back.
pub open spec fn png_round_trips(v: PictureView) -> bool {
    png_format(v) && v.width >= 1 && v.height >= 1 && within_decode_limit(v)
}

/// `r` was sent back, and its payload decodes to the picture `v`.
pub open spec fn reads_back_as(r: Result<ProcessedImage, String>, v: PictureView) -> bool {
    match r {
        Ok(p) => match payload_bytes(ImagePayload { bytes_base64: p.bytes_base64 }) {
            Some(bytes) => decoded_image(bytes) == Some(v),
            None => false,
        },
        Err(_) => false,
    }
}

/// An image that the library sends back, when it comes back as a payload, carries
/// exactly the PNG file it was made from.
pub proof fn lemma_sent_image_decodes_to_its_png(r: ProcessedImage, v: PictureView)
    requires
        encodes(Ok(r), v),
    ensures
        payload_bytes(ImagePayload { bytes_base64: r.bytes_base64 }) == png_encoding(v),
{
    let png = png_encoding(v).unwrap();
    lemma_encoded_is_ascii(png);
    lemma_ascii_utf8(base64_encoded(png));
    lemma_base64_round_trip(png);
}

/// Joins a fixed message and a detail into one error text.
fn with_detail(prefix: &str, detail: String) -> (r: String)
    ensures
        r@ == prefix@ + detail@,
{
    let mut r = prefix.to_owned();
    r.append(detail.as_str());
    r
}

/// Decodes the Base64 text of an image payload into the file's bytes.
pub fn decode_image_bytes(image: &ImagePayload) -> (r: Result<Vec<u8>, String>)
    ensures
        match r {
            Ok(v) => payload_bytes(*image) == Some(v@),
            Err(e) => payload_bytes(*image) is None && e@ == payload_error(*image),
        },
{
    match standard_decode(image.bytes_base64.as_str().as_bytes()) {
        Ok(v) => Ok(v),
        Err(e) => Err(with_detail("base64 decode error: ", e)),
    }
}

/// Decodes an image file held in memory.
pub fn decode_image(bytes: &[u8]) -> (r: Result<Picture, String>)
    ensures
        match r {
            Ok(p) => decoded_image(bytes@) == Some(p@) && within_decode_limit(p@),
            Err(e) => decoded_image(bytes@) is None && e@ == "decode image error: "@
                + image_load_error(bytes@),
        },
{
    match load_from_memory(bytes) {
        Ok(p) => Ok(p),
        Err(e) => Err(with_detail("decode image error: ", e)),
    }
}

/// The EXIF orientation tag of an image file, as `kamadak-exif` reads it.
pub uninterp spec fn exif_orientation_tag(bytes: Seq<u8>) -> Option<u32>;

/// Reads the orientation tag of the primary image from the EXIF data of a JPEG, PNG,
/// TIFF, HEIF or WebP file (`exif::Reader::read_from_container`, then `get_field`
/// with `Tag::Orientation` and `In::PRIMARY`, then `get_uint(0)`). The tag is named.
#[verifier::external_body]
fn exif_orientation(bytes: &[u8]) -> (r: Option<u32>)
    ensures
        r == exif_orientation_tag(bytes@),
{
    let exif = exif::Reader::new().read_from_container(&mut std::io::Cursor::new(bytes)).ok()?;
    exif.get_field(exif::Tag::Orientation, exif::In::PRIMARY)?.value.get_uint(0)
}

/// The picture turned upright for an EXIF orientation value; values other than 2 to 8,
/// and no value at all, leave it as it is.
pub open spec fn oriented(orientation: Option<u32>, v: PictureView) -> PictureView {
    match orientation {
        Some(2) => flipped_horizontally(v),
        Some(3) => rotated_half(v),
        Some(4) => flipped_vertically(v),
        Some(5) => flipped_horizontally(rotated_counterclockwise(v)),
        Some(6) => rotated_clockwise(v),
        Some(7) => flipped_horizontally(rotated_clockwise(v)),
        Some(8) => rotated_counterclockwise(v),
        _ => v,
    }
}

/// Turns a picture upright for an EXIF orientation value.
pub fn apply_orientation(orientation: Option<u32>, img: Picture) -> (r: Picture)
    ensures
        r@ == oriented(orientation, img@),
{
    match orientation {
        Some(2) => fliph(&img),
        Some(3) => rotate180(&img),
        Some(4) => flipv(&img),
        Some(5) => fliph(&rotate270(&img)),
        Some(6) => rotate90(&img),
        Some(7) => fliph(&rotate90(&img)),
        Some(8) => rotate270(&img),
        _ => img,
    }
}

/// Turns a decoded picture upright according to the EXIF orientation in its file.
pub fn normalize_orientation(bytes: &[u8], img: Picture) -> (r: Picture)
    ensures
        r@ == oriented(exif_orientation_tag(bytes@), img@),
{
    apply_orientation(exif_orientation(bytes), img)
}

/// Orientations 5 to 8 swap width and height; the others keep them. No orientation
/// changes the pixel format.
pub proof fn lemma_oriented_size(orientation: Option<u32>, v: PictureView)
    ensures
        oriented(orientation, v).channels == v.channels,
        oriented(orientation, v).pixel_bytes == v.pixel_bytes,
        match orientation {
            Some(o) => if 5 <= o <= 8 {
                oriented(orientation, v).width == v.height && oriented(orientation, v).height
                    == v.width
            } else {
                oriented(orientation, v).width == v.width && oriented(orientation, v).height
                    == v.height
            },
            None => oriented(orientation, v).width == v.width && oriented(orientation, v).height
                == v.height,
        },
{
}

/// Encodes a picture as a PNG file in memory. A picture in one of PNG's pixel formats,
/// with pixels, is always encoded, and when it is not too large it reads back from the
/// file as itself.
pub fn encode_png(img: &Picture) -> (r: Result<Vec<u8>, String>)
    ensures
        match r {
            Ok(v) => {
                &&& png_encoding(img@) == Some(v@)
                &&& v@.len() <= isize::MAX
                &&& png_format(img@) && within_decode_limit(img@) ==> decoded_image(v@) == Some(
                    img@,
                )
            },
            Err(e) => png_encoding(img@) is None && e@ == "encode png error: "@ + png_write_error(
                img@,
            ),
        },
        png_format(img@) && img@.width >= 1 && img@.height >= 1 ==> r is Ok,
{
    match write_png(img) {
        Ok(png) => Ok(png),
        Err(e) => Err(with_detail("encode png error: ", e)),
    }
}

/// Encodes a picture as PNG and the PNG file as Base64.
pub fn encode_png_base64(img: &Picture) -> (r: Result<ProcessedImage, String>)
    ensures
        encodes(r, img@),
        png_format(img@) && img@.width >= 1 && img@.height >= 1 ==> r is Ok,
        png_round_trips(img@) ==> reads_back_as(r, img@),
{
    let png = encode_png(img)?;
    assert(png_round_trips(img@) ==> decoded_image(png@) == Some(img@));
    let text = standard_encode(png.as_slice());
    let out = ProcessedImage { bytes_base64: text, width: img.width(), height: img.height() };
    proof {
        lemma_sent_image_decodes_to_its_png(out, img@);
    }
    Ok(out)
}

/// The picture as RGBA with 8 bits per channel, for the perspective correction and
/// the Java runner; a picture that already is one comes back unchanged.
pub fn rgba8_copy(img: &Picture) -> (r: Picture)
    ensures
        r@ == rgba8_converted(img@),
        r@.width == img@.width,
        r@.height == img@.height,
        r@.channels == 4,
        r@.pixel_bytes == 4,
        img@.channels == 4 && img@.pixel_bytes == 4 ==> r@ == img@,
{
    to_rgba8(img)
}

/// The longest side an image sent to Gemma may have.
pub const GEMMA_MAX_SIDE: u32 = 1536;

/// The longest side a preview image may have.
pub const PREVIEW_MAX_SIDE: u32 = 2048;

/// A picture that fits in a `max_side` square stays as it is; a larger one is scaled
/// down with the triangle filter to fit.
pub open spec fn downscaled(v: PictureView, max_side: u32) -> PictureView {
    if v.width <= max_side && v.height <= max_side {
        v
    } else {
        triangle_resized(v, max_side, max_side)
    }
}

fn downscale_to(img: Picture, max_side: u32) -> (r: Picture)
    requires
        max_side >= 1,
    ensures
        r@ == downscaled(img@, max_side),
        r@.width <= max_side && r@.height <= max_side,
        r@.channels == img@.channels && r@.pixel_bytes == img@.pixel_bytes,
        img@.width >= 1 && img@.height >= 1 ==> r@.width >= 1 && r@.height >= 1,
{
    let w = img.width();
    let h = img.height();
    let longest = if w >= h { w } else { h };
    if longest <= max_side {
        img
    } else {
        resize_triangle(&img, max_side, max_side)
    }
}

/// Scales a picture down, keeping its aspect ratio, so that neither side exceeds 1536
/// pixels, before it goes to Gemma.
pub fn downscale_for_gemma(img: Picture) -> (r: Picture)
    ensures
        r@ == downscaled(img@, GEMMA_MAX_SIDE),
        r@.width <= GEMMA_MAX_SIDE && r@.height <= GEMMA_MAX_SIDE,
        r@.channels == img@.channels && r@.pixel_bytes == img@.pixel_bytes,
        img@.width >= 1 && img@.height >= 1 ==> r@.width >= 1 && r@.height >= 1,
{
    downscale_to(img, GEMMA_MAX_SIDE)
}

/// Scales a picture down, keeping its aspect ratio, so that neither side exceeds 2048
/// pixels, for the preview.
pub fn downscale_for_preview(img: Picture) -> (r: Picture)
    ensures
        r@ == downscaled(img@, PREVIEW_MAX_SIDE),
        r@.width <= PREVIEW_MAX_SIDE && r@.height <= PREVIEW_MAX_SIDE,
        r@.channels == img@.channels && r@.pixel_bytes == img@.pixel_bytes,
        img@.width >= 1 && img@.height >= 1 ==> r@.width >= 1 && r@.height >= 1,
{
    downscale_to(img, PREVIEW_MAX_SIDE)
}

/// The region of interest moved and shrunk into a `width` by `height` image:
/// `(x, y, w, h)`.
pub open spec fn clamped_roi(width: nat, height: nat, roi: Roi) -> (nat, nat, nat, nat) {
    let x = min_nat(roi.x as nat, width);
    let y = min_nat(roi.y as nat, height);
    (x, y, min_nat(roi.w as nat, (width - x) as nat), min_nat(roi.h as nat, (height - y) as nat))
}

/// The error `crop_roi` gives for a region with nothing in it.
pub open spec fn empty_roi_message() -> Seq<char> {
    "ROI має нульовий розмір"@
}

/// Cuts the region of interest out of a picture; the region is first moved and shrunk
/// into the picture, and a region that is then empty is an error.
pub fn crop_roi(img: Picture, roi: &Roi) -> (r: Result<Picture, String>)
    ensures
        ({
            let (x, y, w, h) = clamped_roi(img@.width, img@.height, *roi);
            match r {
                Ok(p) => w > 0 && h > 0 && p@ == cut_out(img@, x, y, w, h),
                Err(e) => (w == 0 || h == 0) && e@ == empty_roi_message(),
            }
        }),
{
    let iw = img.width();
    let ih = img.height();
    let x = if roi.x <= iw { roi.x } else { iw };
    let y = if roi.y <= ih { roi.y } else { ih };
    let max_w = iw - x;
    let max_h = ih - y;
    let w = if roi.w <= max_w { roi.w } else { max_w };
    let h = if roi.h <= max_h { roi.h } else { max_h };
    if w == 0 || h == 0 {
        return Err("ROI має нульовий розмір".to_owned());
    }
    let out = crop_imm(&img, x, y, w, h);
    assert(cropped(img@, x as nat, y as nat, w as nat, h as nat) == cut_out(
        img@,
        x as nat,
        y as nat,
        w as nat,
        h as nat,
    ));
    Ok(out)
}

/// A cropped region lies inside the picture and is never empty.
pub proof fn lemma_roi_inside(width: nat, height: nat, roi: Roi)
    ensures
        ({
            let (x, y, w, h) = clamped_roi(width, height, roi);
            &&& x + w <= width
            &&& y + h <= height
            &&& w <= roi.w && h <= roi.h
        }),
{
}

/// Which way a lower-cased, trimmed direction asks to turn.
pub open spec fn rotation_named(lowered: Seq<char>) -> Option<Rotation> {
    if lowered == "left"@ {
        Some(Rotation::Left)
    } else if lowered == "right"@ {
        Some(Rotation::Right)
    } else {
        None
    }
}

/// The direction a text names: it is trimmed and lower-cased first.
pub open spec fn direction_of(direction: Seq<char>) -> Option<Rotation> {
    rotation_named(unicode_lowercase(trimmed(direction)))
}

/// Reads a lower-cased, trimmed direction: "left" or "right".
pub fn rotation_from_lowered(lowered: &str) -> (r: Option<Rotation>)
    ensures
        r == rotation_named(lowered@),
{
    if same_text(lowered, "left") {
        Some(Rotation::Left)
    } else if same_text(lowered, "right") {
        Some(Rotation::Right)
    } else {
        None
    }
}

/// Reads a direction as the front end sends it: trimmed, lower-cased, then "left" or
/// "right".
pub fn parse_direction(direction: &str) -> (r: Option<Rotation>)
    ensures
        r == direction_of(direction@),
{
    let lowered = to_lowercase(trim(direction));
    rotation_from_lowered(lowered.as_str())
}

/// The picture turned as a rotation says.
pub open spec fn turned(v: PictureView, rotation: Rotation) -> PictureView {
    match rotation {
        Rotation::Left => rotated_counterclockwise(v),
        Rotation::Right => rotated_clockwise(v),
    }
}

/// The error `rotate_image` gives for a direction that is neither left nor right.
pub open spec fn bad_direction_message() -> Seq<char> {
    "direction must be 'left' or 'right'"@
}

/// Rotates the image of a payload a quarter turn to the left or to the right and sends
/// it back as Base64 PNG. The payload is decoded first, then the direction is read.
pub fn rotate_image(image: &ImagePayload, direction: &str) -> (r: Result<ProcessedImage, String>)
    ensures
        match payload_bytes(*image) {
            None => r is Err && r->Err_0@ == payload_error(*image),
            Some(bytes) => match decoded_image(bytes) {
                None => r is Err && r->Err_0@ == "decode image error: "@ + image_load_error(bytes),
                Some(v) => match direction_of(direction@) {
                    None => r is Err && r->Err_0@ == bad_direction_message(),
                    Some(rot) => {
                        &&& encodes(r, turned(v, rot))
                        &&& png_format(v) && v.width >= 1 && v.height >= 1 ==> r is Ok
                        &&& png_format(v) && v.width >= 1 && v.height >= 1 ==> reads_back_as(
                            r,
                            turned(v, rot),
                        )
                    },
                },
            },
        },
{
    let bytes = decode_image_bytes(image)?;
    let img = decode_image(bytes.as_slice())?;
    let out = match parse_direction(direction) {
        Some(Rotation::Left) => rotate270(&img),
        Some(Rotation::Right) => rotate90(&img),
        None => {
            return Err("direction must be 'left' or 'right'".to_owned());
        },
    };
    proof {
        lemma_turn_keeps_format(img@);
    }
    encode_png_base64(&out)
}

/// A quarter turn either way keeps the pixel format, and a picture that PNG holds as it
/// is stays one.
proof fn lemma_turn_keeps_format(v: PictureView)
    ensures
        forall|rot: Rotation|
            #![trigger turned(v, rot)]
            {
                &&& turned(v, rot).channels == v.channels
                &&& turned(v, rot).pixel_bytes == v.pixel_bytes
                &&& turned(v, rot).width == v.height
                &&& turned(v, rot).height == v.width
                &&& png_round_trips(v) ==> png_round_trips(turned(v, rot))
            },
{
    assert(v.height * v.width * v.pixel_bytes == v.width * v.height * v.pixel_bytes)
        by (nonlinear_arith);
}

/// What `normalize_image` sends back for a decoded file: the picture turned upright by
/// its EXIF orientation, then scaled down to the preview size.
pub open spec fn normalized(bytes: Seq<u8>, v: PictureView) -> PictureView {
    downscaled(oriented(exif_orientation_tag(bytes), v), PREVIEW_MAX_SIDE)
}

/// Turns the image of a payload upright, scales it down for the preview and sends it
/// back as Base64 PNG.
pub fn normalize_image(image: &ImagePayload) -> (r: Result<ProcessedImage, String>)
    ensures
        match payload_bytes(*image) {
            None => r is Err && r->Err_0@ == payload_error(*image),
            Some(bytes) => match decoded_image(bytes) {
                None => r is Err && r->Err_0@ == "decode image error: "@ + image_load_error(bytes),
                Some(v) => {
                    &&& encodes(r, normalized(bytes, v))
                    &&& png_format(v) && v.width >= 1 && v.height >= 1 ==> reads_back_as(
                        r,
                        normalized(bytes, v),
                    )
                },
            },
        },
        r is Ok ==> r->Ok_0.width <= PREVIEW_MAX_SIDE && r->Ok_0.height <= PREVIEW_MAX_SIDE,
{
    let bytes = decode_image_bytes(image)?;
    let img = decode_image(bytes.as_slice())?;
    let ghost v = img@;
    let img = normalize_orientation(bytes.as_slice(), img);
    proof {
        lemma_oriented_size(exif_orientation_tag(bytes@), v);
    }
    let img = downscale_for_preview(img);
    proof {
        let n = img@;
        if png_format(v) && v.width >= 1 && v.height >= 1 {
            assert(n.width * n.height * n.pixel_bytes <= 2048 * 2048 * 8) by (nonlinear_arith)
                requires
                    n.width <= 2048,
                    n.height <= 2048,
                    n.pixel_bytes <= 8,
            ;
        }
    }
    encode_png_base64(&img)
}

/// Each EXIF orientation tag turns the picture as this application has always turned
/// it: 2 mirrors it left to right, 3 turns it half a turn, 4 mirrors it top to bottom,
/// 5 turns it a quarter counter-clockwise and then mirrors it, 6 turns it a quarter
/// clockwise, 7 turns it a quarter clockwise and then mirrors it, 8 turns it a quarter
/// counter-clockwise; any other tag, or none, leaves it as it is.
pub proof fn lemma_tags_turn_the_picture(v: PictureView, tag: Option<u32>)
    ensures
        tag == Some(2u32) ==> oriented(tag, v) == flipped_horizontally(v),
        tag == Some(3u32) ==> oriented(tag, v) == rotated_half(v),
        tag == Some(4u32) ==> oriented(tag, v) == flipped_vertically(v),
        tag == Some(5u32) ==> oriented(tag, v) == flipped_horizontally(rotated_counterclockwise(v)),
        tag == Some(6u32) ==> oriented(tag, v) == rotated_clockwise(v),
        tag == Some(7u32) ==> oriented(tag, v) == flipped_horizontally(rotated_clockwise(v)),
        tag == Some(8u32) ==> oriented(tag, v) == rotated_counterclockwise(v),
        (tag is None || tag->0 < 2 || tag->0 > 8) ==> oriented(tag, v) == v,
{
}

/// The preview is the decoded picture turned by the file's own EXIF tag, then fitted
/// into 2048 pixels. A portrait photo (tag 6) is turned a quarter clockwise: the
/// preview's pixel at column `x` of row `y` is the source's pixel at column `y` of row
/// `height - 1 - x`, so its top-left pixel is the source's bottom-left one. Tag 8 turns
/// the other way: the preview's pixel at column `x` of row `y` is the source's pixel at
/// column `width - 1 - y` of row `x`.
pub proof fn lemma_preview_is_upright(bytes: Seq<u8>, v: PictureView)
    ensures
        exif_orientation_tag(bytes) == Some(6u32) ==> normalized(bytes, v) == downscaled(
            rotated_clockwise(v),
            PREVIEW_MAX_SIDE,
        ),
        exif_orientation_tag(bytes) == Some(8u32) ==> normalized(bytes, v) == downscaled(
            rotated_counterclockwise(v),
            PREVIEW_MAX_SIDE,
        ),
        exif_orientation_tag(bytes) == Some(3u32) ==> normalized(bytes, v) == downscaled(
            rotated_half(v),
            PREVIEW_MAX_SIDE,
        ),
        exif_orientation_tag(bytes) == Some(2u32) ==> normalized(bytes, v) == downscaled(
            flipped_horizontally(v),
            PREVIEW_MAX_SIDE,
        ),
        exif_orientation_tag(bytes) == Some(4u32) ==> normalized(bytes, v) == downscaled(
            flipped_vertically(v),
            PREVIEW_MAX_SIDE,
        ),
        exif_orientation_tag(bytes) == Some(5u32) ==> normalized(bytes, v) == downscaled(
            flipped_horizontally(rotated_counterclockwise(v)),
            PREVIEW_MAX_SIDE,
        ),
        exif_orientation_tag(bytes) == Some(7u32) ==> normalized(bytes, v) == downscaled(
            flipped_horizontally(rotated_clockwise(v)),
            PREVIEW_MAX_SIDE,
        ),
        (exif_orientation_tag(bytes) is None || exif_orientation_tag(bytes)->0 < 2
            || exif_orientation_tag(bytes)->0 > 8) ==> normalized(bytes, v) == downscaled(
            v,
            PREVIEW_MAX_SIDE,
        ),
        v.width <= PREVIEW_MAX_SIDE && v.height <= PREVIEW_MAX_SIDE && exif_orientation_tag(bytes)
            == Some(6u32) ==> {
            let n = normalized(bytes, v);
            &&& n.width == v.height
            &&& n.height == v.width
            &&& forall|x: int, y: int|
                0 <= x < n.width && 0 <= y < n.height ==> #[trigger] n.pixels[y][x] == v.pixels[v.height
                    - 1 - x][y]
        },
        v.width <= PREVIEW_MAX_SIDE && v.height <= PREVIEW_MAX_SIDE && exif_orientation_tag(bytes)
            == Some(8u32) ==> {
            let n = normalized(bytes, v);
            &&& n.width == v.height
            &&& n.height == v.width
            &&& forall|x: int, y: int|
                0 <= x < n.width && 0 <= y < n.height ==> #[trigger] n.pixels[y][x] == v.pixels[x][v.width
                    - 1 - y]
        },
{
}

} // verus!
