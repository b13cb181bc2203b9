use base64::Engine;
use dezleks::imaging::Picture;
use dezleks::processing::{
    apply_orientation, crop_roi, decode_image, decode_image_bytes, downscale_for_gemma,
    downscale_for_preview, encode_png, encode_png_base64, rgba8_copy, normalize_image, parse_direction, rotate_image,
    rotation_from_lowered, ImagePayload, Roi, Rotation,
};
use std::io::Cursor;

/// A width by height RGBA picture whose pixel at (x, y) is [x, y, 7, 255].
fn grid(width: u32, height: u32) -> Picture {
    let mut samples = Vec::new();
    for y in 0..height {
        for x in 0..width {
            samples.extend_from_slice(&[x as u8, y as u8, 7, 255]);
        }
    }
    Picture::from_rgba8(width, height, samples).unwrap()
}

fn pixel(p: &Picture, x: u32, y: u32) -> [u8; 4] {
    let i = ((y * p.width() + x) * 4) as usize;
    let s = p.samples();
    [s[i], s[i + 1], s[i + 2], s[i + 3]]
}

fn png_payload(width: u32, height: u32) -> ImagePayload {
    let p = grid(width, height);
    let mut png = Vec::new();
    p.as_dynamic().write_to(&mut Cursor::new(&mut png), image::ImageFormat::Png).unwrap();
    ImagePayload { bytes_base64: base64::engine::general_purpose::STANDARD.encode(png) }
}

fn decode_result(bytes_base64: &str) -> image::RgbaImage {
    let png = base64::engine::general_purpose::STANDARD.decode(bytes_base64).unwrap();
    image::load_from_memory(&png).unwrap().to_rgba8()
}

#[test]
fn from_rgba8_checks_length() {
    assert!(Picture::from_rgba8(2, 2, vec![0; 16]).is_some());
    assert!(Picture::from_rgba8(2, 2, vec![0; 15]).is_none());
    assert!(Picture::from_rgba8(0, 5, vec![]).is_some());
}

#[test]
fn base64_payload_decodes() {
    let ok = decode_image_bytes(&ImagePayload { bytes_base64: "aGVsbG8=".to_string() }).unwrap();
    assert_eq!(ok, b"hello");
    let two = decode_image_bytes(&ImagePayload { bytes_base64: "aGVsbA==".to_string() }).unwrap();
    assert_eq!(two, b"hell");
    let none = decode_image_bytes(&ImagePayload { bytes_base64: String::new() }).unwrap();
    assert!(none.is_empty());
}

#[test]
fn base64_payload_rejects_bad_text() {
    for bad in ["aGVsbA=", "aGVsbG8", "aGVs bG8=", "aGVsbB==", "====", "aGV=bG8="] {
        let e = decode_image_bytes(&ImagePayload { bytes_base64: bad.to_string() }).unwrap_err();
        assert!(e.starts_with("base64 decode error: "), "{}", bad);
    }
}

#[test]
fn decode_image_rejects_garbage() {
    let e = decode_image(b"not an image").err().unwrap();
    assert!(e.starts_with("decode image error: "));
}

#[test]
fn orientation_two_to_eight() {
    let p = grid(3, 2);
    let f = apply_orientation(Some(2), grid(3, 2));
    assert_eq!((f.width(), f.height()), (3, 2));
    assert_eq!(pixel(&f, 0, 0), pixel(&p, 2, 0));
    let h = apply_orientation(Some(3), grid(3, 2));
    assert_eq!(pixel(&h, 0, 0), pixel(&p, 2, 1));
    let v = apply_orientation(Some(4), grid(3, 2));
    assert_eq!(pixel(&v, 0, 0), pixel(&p, 0, 1));
    let t = apply_orientation(Some(5), grid(3, 2));
    assert_eq!((t.width(), t.height()), (2, 3));
    assert_eq!(pixel(&t, 0, 0), pixel(&p, 2, 1));
    assert_eq!(pixel(&t, 1, 2), pixel(&p, 0, 0));
    let cw = apply_orientation(Some(6), grid(3, 2));
    assert_eq!((cw.width(), cw.height()), (2, 3));
    assert_eq!(pixel(&cw, 0, 0), pixel(&p, 0, 1));
    assert_eq!(pixel(&cw, 1, 0), pixel(&p, 0, 0));
    let tv = apply_orientation(Some(7), grid(3, 2));
    assert_eq!((tv.width(), tv.height()), (2, 3));
    assert_eq!(pixel(&tv, 0, 0), pixel(&p, 0, 0));
    assert_eq!(pixel(&tv, 1, 2), pixel(&p, 2, 1));
    let ccw = apply_orientation(Some(8), grid(3, 2));
    assert_eq!((ccw.width(), ccw.height()), (2, 3));
    assert_eq!(pixel(&ccw, 0, 0), pixel(&p, 2, 0));
    for other in [None, Some(0), Some(1), Some(9)] {
        let same = apply_orientation(other, grid(3, 2));
        assert_eq!(same.samples(), p.samples());
    }
}

#[test]
fn quarter_turns_undo_each_other() {
    let p = grid(4, 3);
    let back = apply_orientation(Some(8), apply_orientation(Some(6), grid(4, 3)));
    assert_eq!((back.width(), back.height()), (4, 3));
    assert_eq!(back.samples(), p.samples());
    let twice = apply_orientation(Some(3), apply_orientation(Some(3), grid(4, 3)));
    assert_eq!(twice.samples(), p.samples());
}

#[test]
fn crop_cuts_region() {
    let c = crop_roi(grid(5, 4), &Roi { x: 1, y: 2, w: 2, h: 1 }).unwrap();
    assert_eq!((c.width(), c.height()), (2, 1));
    assert_eq!(pixel(&c, 0, 0), [1, 2, 7, 255]);
    assert_eq!(pixel(&c, 1, 0), [2, 2, 7, 255]);
}

#[test]
fn crop_clamps_to_image() {
    let c = crop_roi(grid(5, 4), &Roi { x: 3, y: 1, w: 100, h: 100 }).unwrap();
    assert_eq!((c.width(), c.height()), (2, 3));
    assert_eq!(pixel(&c, 1, 2), [4, 3, 7, 255]);
}

#[test]
fn crop_of_empty_region_fails() {
    let e = crop_roi(grid(5, 4), &Roi { x: 9, y: 0, w: 3, h: 3 }).err().unwrap();
    assert_eq!(e, "ROI має нульовий розмір");
    let e = crop_roi(grid(5, 4), &Roi { x: 0, y: 0, w: 3, h: 0 }).err().unwrap();
    assert_eq!(e, "ROI має нульовий розмір");
}

#[test]
fn downscale_keeps_small_and_shrinks_large() {
    let small = downscale_for_gemma(grid(10, 20));
    assert_eq!((small.width(), small.height()), (10, 20));
    let wide = Picture::from_rgba8(3000, 10, vec![9; 3000 * 10 * 4]).unwrap();
    let w = downscale_for_gemma(wide);
    assert_eq!(w.width(), 1536);
    assert_eq!(w.height(), 5);
    let tall = Picture::from_rgba8(10, 4096, vec![9; 10 * 4096 * 4]).unwrap();
    let t = downscale_for_preview(tall);
    assert_eq!((t.width(), t.height()), (5, 2048));
    let exact = Picture::from_rgba8(2048, 1, vec![1; 2048 * 4]).unwrap();
    assert_eq!(downscale_for_preview(exact).width(), 2048);
}

#[test]
fn png_base64_round_trips() {
    let p = grid(3, 2);
    let out = encode_png_base64(&p).unwrap();
    assert_eq!((out.width, out.height), (3, 2));
    let img = decode_result(&out.bytes_base64);
    assert_eq!(img.into_raw(), p.samples().to_vec());
}

#[test]
fn direction_is_trimmed_and_lowercased() {
    assert_eq!(parse_direction(" LEFT\n"), Some(Rotation::Left));
    assert_eq!(parse_direction("Right"), Some(Rotation::Right));
    assert_eq!(parse_direction("up"), None);
    assert_eq!(parse_direction("le ft"), None);
    assert_eq!(rotation_from_lowered("left"), Some(Rotation::Left));
    assert_eq!(rotation_from_lowered("LEFT"), None);
}

#[test]
fn rotate_image_turns_payload() {
    let right = rotate_image(&png_payload(3, 2), "right").unwrap();
    assert_eq!((right.width, right.height), (2, 3));
    let img = decode_result(&right.bytes_base64);
    assert_eq!(img.get_pixel(1, 0).0, [0, 0, 7, 255]);
    let left = rotate_image(&png_payload(3, 2), " Left ").unwrap();
    let img = decode_result(&left.bytes_base64);
    assert_eq!(img.get_pixel(0, 0).0, [2, 0, 7, 255]);
}

#[test]
fn rotate_image_errors() {
    let e = rotate_image(&png_payload(3, 2), "up").unwrap_err();
    assert_eq!(e, "direction must be 'left' or 'right'");
    let e = rotate_image(&ImagePayload { bytes_base64: "%%%".to_string() }, "left").unwrap_err();
    assert!(e.starts_with("base64 decode error: "));
    let e = rotate_image(&ImagePayload { bytes_base64: "aGVsbG8=".to_string() }, "up").unwrap_err();
    assert!(e.starts_with("decode image error: "));
}

#[test]
fn normalize_image_keeps_plain_png() {
    let out = normalize_image(&png_payload(4, 3)).unwrap();
    assert_eq!((out.width, out.height), (4, 3));
    let img = decode_result(&out.bytes_base64);
    assert_eq!(img.get_pixel(3, 2).0, [3, 2, 7, 255]);
}

/// A JPEG of the grid with an EXIF block whose orientation tag is `orientation`.
fn jpeg_with_orientation(width: u32, height: u32, orientation: u16) -> Vec<u8> {
    let rgb = grid(width, height).as_dynamic().to_rgb8();
    let mut jpeg = Vec::new();
    image::DynamicImage::ImageRgb8(rgb)
        .write_to(&mut Cursor::new(&mut jpeg), image::ImageFormat::Jpeg)
        .unwrap();
    let mut tiff = vec![b'I', b'I', 0x2a, 0, 8, 0, 0, 0, 1, 0, 0x12, 0x01, 3, 0, 1, 0, 0, 0];
    tiff.extend_from_slice(&orientation.to_le_bytes());
    tiff.extend_from_slice(&[0, 0, 0, 0, 0, 0]);
    let mut app1 = b"Exif\0\0".to_vec();
    app1.extend_from_slice(&tiff);
    let len = (app1.len() + 2) as u16;
    let mut out = vec![0xff, 0xd8, 0xff, 0xe1];
    out.extend_from_slice(&len.to_be_bytes());
    out.extend_from_slice(&app1);
    out.extend_from_slice(&jpeg[2..]);
    out
}

#[test]
fn normalize_image_applies_exif_orientation() {
    let engine = base64::engine::general_purpose::STANDARD;
    let turned = ImagePayload { bytes_base64: engine.encode(jpeg_with_orientation(3, 2, 6)) };
    let out = normalize_image(&turned).unwrap();
    assert_eq!((out.width, out.height), (2, 3));
    let upright = ImagePayload { bytes_base64: engine.encode(jpeg_with_orientation(3, 2, 1)) };
    let out = normalize_image(&upright).unwrap();
    assert_eq!((out.width, out.height), (3, 2));
}

#[test]
fn normalize_image_shrinks_to_preview_size() {
    let big = Picture::from_rgba8(4100, 2, vec![5; 4100 * 2 * 4]).unwrap();
    let mut png = Vec::new();
    big.as_dynamic().write_to(&mut Cursor::new(&mut png), image::ImageFormat::Png).unwrap();
    let payload = ImagePayload { bytes_base64: base64::engine::general_purpose::STANDARD.encode(png) };
    let out = normalize_image(&payload).unwrap();
    assert_eq!((out.width, out.height), (2048, 1));
}

#[test]
fn library_base64_png_round_trip() {
    let p = grid(5, 3);
    let out = encode_png_base64(&p).unwrap();
    let bytes = decode_image_bytes(&ImagePayload { bytes_base64: out.bytes_base64 }).unwrap();
    let back = decode_image(&bytes).unwrap();
    assert_eq!((back.width(), back.height()), (5, 3));
    assert_eq!(back.samples(), p.samples());
}

#[test]
fn mirrors_undo_themselves() {
    let p = grid(4, 3);
    let h = apply_orientation(Some(2), apply_orientation(Some(2), grid(4, 3)));
    assert_eq!(h.samples(), p.samples());
    let v = apply_orientation(Some(4), apply_orientation(Some(4), grid(4, 3)));
    assert_eq!(v.samples(), p.samples());
}

#[test]
fn encode_png_gives_a_png_file() {
    let p = grid(4, 2);
    let png = encode_png(&p).unwrap();
    assert_eq!(&png[..8], &[0x89, b'P', b'N', b'G', 0x0d, 0x0a, 0x1a, 0x0a]);
    let back = image::load_from_memory(&png).unwrap().to_rgba8();
    assert_eq!(back.into_raw(), p.samples().to_vec());
}

#[test]
fn base64_error_carries_the_decoders_account() {
    for bad in ["aGVsbA=", "aGVsbG8", "aGVs bG8=", "aGVsbB==", "====", "aGV=bG8="] {
        let e = decode_image_bytes(&ImagePayload { bytes_base64: bad.to_string() }).unwrap_err();
        let detail = base64::engine::general_purpose::STANDARD.decode(bad).unwrap_err().to_string();
        assert_eq!(e, format!("base64 decode error: {detail}"));
    }
    let e = decode_image_bytes(&ImagePayload { bytes_base64: "ab!d".to_string() }).unwrap_err();
    assert_eq!(e, "base64 decode error: Invalid symbol 33, offset 2.");
}

fn png_file_of(img: image::DynamicImage) -> Vec<u8> {
    let mut png = Vec::new();
    img.write_to(&mut Cursor::new(&mut png), image::ImageFormat::Png).unwrap();
    png
}

#[test]
fn sixteen_bit_and_grey_pictures_read_back_as_themselves() {
    let rgb16 = image::ImageBuffer::from_fn(3, 2, |x, y| {
        image::Rgb([x as u16 * 1000 + 1, y as u16 * 30000 + 7, 65535 - x as u16])
    });
    let la8 = image::ImageBuffer::from_fn(2, 3, |x, y| image::LumaA([(x * 40 + y) as u8, 200]));
    for file in [
        png_file_of(image::DynamicImage::ImageRgb16(rgb16)),
        png_file_of(image::DynamicImage::ImageLumaA8(la8)),
    ] {
        let p = decode_image(&file).unwrap();
        let out = encode_png_base64(&p).unwrap();
        let bytes = decode_image_bytes(&ImagePayload { bytes_base64: out.bytes_base64 }).unwrap();
        let back = decode_image(&bytes).unwrap();
        assert_eq!((back.width(), back.height()), (p.width(), p.height()));
        assert_eq!((back.channels(), back.pixel_bytes()), (p.channels(), p.pixel_bytes()));
        assert_eq!(back.samples(), p.samples());
    }
}

#[test]
fn empty_picture_is_not_encoded() {
    let p = Picture::from_rgba8(0, 3, vec![]).unwrap();
    assert!(encode_png(&p).unwrap_err().starts_with("encode png error: "));
}

#[test]
fn netpbm_file_is_decoded() {
    let mut file = b"P6\n2 1\n255\n".to_vec();
    file.extend_from_slice(&[255, 0, 0, 0, 0, 255]);
    let p = decode_image(&file).unwrap();
    assert_eq!((p.width(), p.height(), p.channels(), p.pixel_bytes()), (2, 1, 3, 3));
    assert_eq!(p.samples(), &[255, 0, 0, 0, 0, 255]);
}

#[test]
fn image_error_texts_are_the_crates_own() {
    let garbage = b"definitely not an image";
    let e = decode_image(garbage).err().unwrap();
    let own = image::load_from_memory(garbage).unwrap_err().to_string();
    assert_eq!(e, format!("decode image error: {own}"));

    let p = Picture::from_rgba8(0, 3, vec![]).unwrap();
    let e = encode_png(&p).unwrap_err();
    let mut sink = Vec::new();
    let own = image::DynamicImage::ImageRgba8(image::RgbaImage::new(0, 3))
        .write_to(&mut Cursor::new(&mut sink), image::ImageFormat::Png)
        .unwrap_err()
        .to_string();
    assert_eq!(e, format!("encode png error: {own}"));
}

#[test]
fn rgba8_copy_converts_and_keeps_rgba() {
    let p = grid(3, 2);
    let same = rgba8_copy(&p);
    assert_eq!(same.samples(), p.samples());
    let grey = image::ImageBuffer::from_fn(2, 2, |x, y| image::Luma([(x * 100 + y * 10) as u8]));
    let g = decode_image(&png_file_of(image::DynamicImage::ImageLuma8(grey))).unwrap();
    let c = rgba8_copy(&g);
    assert_eq!((c.width(), c.height(), c.channels(), c.pixel_bytes()), (2, 2, 4, 4));
    assert_eq!(&c.samples()[..8], &[0, 0, 0, 255, 100, 100, 100, 255]);
}

#[test]
fn rotating_a_sixteen_bit_picture_succeeds_and_reads_back_turned() {
    let rgba16 = image::ImageBuffer::from_fn(3, 2, |x, y| {
        image::Rgba([x as u16 * 20000, y as u16 * 40000 + 3, 7, 65535])
    });
    let file = png_file_of(image::DynamicImage::ImageRgba16(rgba16.clone()));
    let payload = ImagePayload {
        bytes_base64: base64::engine::general_purpose::STANDARD.encode(&file),
    };
    let out = rotate_image(&payload, "right").unwrap();
    assert_eq!((out.width, out.height), (2, 3));
    let bytes = decode_image_bytes(&ImagePayload { bytes_base64: out.bytes_base64 }).unwrap();
    let back = image::load_from_memory(&bytes).unwrap();
    let back = back.as_rgba16().unwrap();
    for y in 0..2u32 {
        for x in 0..3u32 {
            assert_eq!(back.get_pixel(1 - y, x), rgba16.get_pixel(x, y));
        }
    }
}

#[test]
fn rgba8_copy_matches_the_crates_conversion() {
    let rgb16 = image::ImageBuffer::from_fn(2, 2, |x, y| {
        image::Rgb([x as u16 * 30000, y as u16 * 50000, 1234])
    });
    let file = png_file_of(image::DynamicImage::ImageRgb16(rgb16));
    let p = decode_image(&file).unwrap();
    let own = image::load_from_memory(&file).unwrap().to_rgba8().into_raw();
    assert_eq!(rgba8_copy(&p).samples(), &own[..]);
}
