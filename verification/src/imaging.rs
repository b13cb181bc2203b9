//! Decoded images, seen as grids of pixels, and the geometric operations of the
//! `image` crate on them.
//!
//! A `Picture` holds the `image` crate's decoded image together with what the logic
//! reads of it as plain values: its size, its pixel format and a copy of its samples.
//! Only the functions of this module build a `Picture`, and each reads those values
//! from the image it holds.
use vstd::prelude::*;

verus! {

#[verifier::external_type_specification]
#[verifier::external_body]
pub struct ExDynamicImage(image::DynamicImage);

/// A decoded image.
pub struct Picture {
    image: image::DynamicImage,
    width: u32,
    height: u32,
    channels: u8,
    pixel_bytes: u8,
    samples: Vec<u8>,
}

/// An image as the logic sees it: its size, its pixel format (channels per pixel and
/// bytes per pixel, which together tell the `image` crate's colour types apart), and
/// its pixels, row by row, each pixel as its bytes in memory order.
pub struct PictureView {
    pub width: nat,
    pub height: nat,
    pub channels: nat,
    pub pixel_bytes: nat,
    pub pixels: Seq<Seq<Seq<u8>>>,
}

/// The pixel grid of a row-major sample buffer.
pub open spec fn pixel_grid(width: nat, height: nat, pixel_bytes: nat, samples: Seq<u8>) -> Seq<
    Seq<Seq<u8>>,
> {
    Seq::new(
        height,
        |y: int|
            Seq::new(
                width,
                |x: int|
                    samples.subrange(
                        (y * width + x) * pixel_bytes,
                        (y * width + x) * pixel_bytes + pixel_bytes,
                    ),
            ),
    )
}

impl View for Picture {
    type V = PictureView;

    closed spec fn view(&self) -> PictureView {
        PictureView {
            width: self.width as nat,
            height: self.height as nat,
            channels: self.channels as nat,
            pixel_bytes: self.pixel_bytes as nat,
            pixels: pixel_grid(
                self.width as nat,
                self.height as nat,
                self.pixel_bytes as nat,
                self.samples@,
            ),
        }
    }
}

impl PictureView {
    /// The grid has `height` rows of `width` pixels each.
    pub open spec fn well_shaped(self) -> bool {
        &&& self.pixels.len() == self.height
        &&& forall|y: int| 0 <= y < self.height ==> (#[trigger] self.pixels[y]).len() == self.width
    }

    /// The same size, format and pixels.
    pub open spec fn same_as(self, other: PictureView) -> bool {
        &&& self.width == other.width
        &&& self.height == other.height
        &&& self.channels == other.channels
        &&& self.pixel_bytes == other.pixel_bytes
        &&& self.pixels == other.pixels
    }
}

/// Turned a quarter clockwise: the pixel at column `x` of row `y` comes from row
/// `height - 1 - x`, column `y`.
pub open spec fn rotated_clockwise(v: PictureView) -> PictureView {
    PictureView {
        width: v.height,
        height: v.width,
        pixels: Seq::new(v.width, |y: int| Seq::new(v.height, |x: int| v.pixels[v.height - 1 - x][y])),
        ..v
    }
}

/// Turned a quarter counter-clockwise: the pixel at column `x` of row `y` comes from
/// row `x`, column `width - 1 - y`.
pub open spec fn rotated_counterclockwise(v: PictureView) -> PictureView {
    PictureView {
        width: v.height,
        height: v.width,
        pixels: Seq::new(v.width, |y: int| Seq::new(v.height, |x: int| v.pixels[x][v.width - 1 - y])),
        ..v
    }
}

/// Turned half a turn.
pub open spec fn rotated_half(v: PictureView) -> PictureView {
    PictureView {
        pixels: Seq::new(
            v.height,
            |y: int| Seq::new(v.width, |x: int| v.pixels[v.height - 1 - y][v.width - 1 - x]),
        ),
        ..v
    }
}

/// Mirrored left to right.
pub open spec fn flipped_horizontally(v: PictureView) -> PictureView {
    PictureView {
        pixels: Seq::new(v.height, |y: int| Seq::new(v.width, |x: int| v.pixels[y][v.width - 1 - x])),
        ..v
    }
}

/// Mirrored top to bottom.
pub open spec fn flipped_vertically(v: PictureView) -> PictureView {
    PictureView {
        pixels: Seq::new(v.height, |y: int| Seq::new(v.width, |x: int| v.pixels[v.height - 1 - y][x])),
        ..v
    }
}

/// The `width` by `height` part whose top left pixel is at column `x`, row `y`.
pub open spec fn cut_out(v: PictureView, x: nat, y: nat, width: nat, height: nat) -> PictureView {
    PictureView {
        width: width,
        height: height,
        pixels: Seq::new(height, |j: int| Seq::new(width, |i: int| v.pixels[y + j][x + i])),
        ..v
    }
}

pub open spec fn min_nat(a: nat, b: nat) -> nat {
    if a <= b {
        a
    } else {
        b
    }
}

/// What `crop_imm` cuts out: the rectangle is first moved and shrunk into the image.
pub open spec fn cropped(v: PictureView, x: nat, y: nat, width: nat, height: nat) -> PictureView {
    let x0 = min_nat(x, v.width);
    let y0 = min_nat(y, v.height);
    cut_out(v, x0, y0, min_nat(width, (v.width - x0) as nat), min_nat(height, (v.height - y0) as nat))
}

/// An RGBA image with 8 bits per channel, from its row-major samples.
pub open spec fn rgba8_view(width: nat, height: nat, samples: Seq<u8>) -> PictureView {
    PictureView {
        width: width,
        height: height,
        channels: 4,
        pixel_bytes: 4,
        pixels: pixel_grid(width, height, 4, samples),
    }
}

/// What `image::load_from_memory` decodes from some bytes, or `None` where it fails.
pub uninterp spec fn decoded_image(bytes: Seq<u8>) -> Option<PictureView>;

/// What `DynamicImage::resize` with the triangle filter gives for an image and the
/// bounds it must fit in.
pub uninterp spec fn triangle_resized(image: PictureView, nwidth: u32, nheight: u32) -> PictureView;

/// The PNG file that `DynamicImage::write_to` writes for an image, or `None` where the
/// encoder refuses it.
pub uninterp spec fn png_encoding(image: PictureView) -> Option<Seq<u8>>;

/// The `Display` text of the error `image::load_from_memory` gives for bytes it cannot
/// decode.
pub uninterp spec fn image_load_error(bytes: Seq<u8>) -> Seq<char>;

/// `image::load_from_memory`: guesses the format from the bytes and decodes them.
/// The decoded image is named, not spelled out, and so is the text of its error. The
/// crate's source shows that a decoded image fits in the default allocation limit: the
/// reader reserves its samples against that limit before it decodes.
#[verifier::external_body]
pub(crate) fn load_from_memory(bytes: &[u8]) -> (r: Result<Picture, String>)
    ensures
        match r {
            Ok(p) => decoded_image(bytes@) == Some(p@) && within_decode_limit(p@),
            Err(t) => decoded_image(bytes@) is None && t@ == image_load_error(bytes@),
        },
{
    let img = match image::load_from_memory(bytes) {
        Ok(img) => img,
        Err(e) => return Err(e.to_string()),
    };
    let c = img.color();
    Ok(Picture { width: img.width(), height: img.height(), channels: c.channel_count(),
        pixel_bytes: c.bytes_per_pixel(), samples: img.as_bytes().to_vec(), image: img })
}

/// `DynamicImage::rotate90`: a quarter turn clockwise, in the same pixel format.
#[verifier::external_body]
pub(crate) fn rotate90(p: &Picture) -> (r: Picture)
    ensures
        r@ == rotated_clockwise(p@),
{
    let img = p.image.rotate90();
    let c = img.color();
    Picture { width: img.width(), height: img.height(), channels: c.channel_count(),
        pixel_bytes: c.bytes_per_pixel(), samples: img.as_bytes().to_vec(), image: img }
}

/// `DynamicImage::rotate270`: a quarter turn counter-clockwise, in the same pixel format.
#[verifier::external_body]
pub(crate) fn rotate270(p: &Picture) -> (r: Picture)
    ensures
        r@ == rotated_counterclockwise(p@),
{
    let img = p.image.rotate270();
    let c = img.color();
    Picture { width: img.width(), height: img.height(), channels: c.channel_count(),
        pixel_bytes: c.bytes_per_pixel(), samples: img.as_bytes().to_vec(), image: img }
}

/// `DynamicImage::rotate180`: half a turn, in the same pixel format.
#[verifier::external_body]
pub(crate) fn rotate180(p: &Picture) -> (r: Picture)
    ensures
        r@ == rotated_half(p@),
{
    let img = p.image.rotate180();
    let c = img.color();
    Picture { width: img.width(), height: img.height(), channels: c.channel_count(),
        pixel_bytes: c.bytes_per_pixel(), samples: img.as_bytes().to_vec(), image: img }
}

/// `DynamicImage::fliph`: mirrored left to right, in the same pixel format.
#[verifier::external_body]
pub(crate) fn fliph(p: &Picture) -> (r: Picture)
    ensures
        r@ == flipped_horizontally(p@),
{
    let img = p.image.fliph();
    let c = img.color();
    Picture { width: img.width(), height: img.height(), channels: c.channel_count(),
        pixel_bytes: c.bytes_per_pixel(), samples: img.as_bytes().to_vec(), image: img }
}

/// `DynamicImage::flipv`: mirrored top to bottom, in the same pixel format.
#[verifier::external_body]
pub(crate) fn flipv(p: &Picture) -> (r: Picture)
    ensures
        r@ == flipped_vertically(p@),
{
    let img = p.image.flipv();
    let c = img.color();
    Picture { width: img.width(), height: img.height(), channels: c.channel_count(),
        pixel_bytes: c.bytes_per_pixel(), samples: img.as_bytes().to_vec(), image: img }
}

/// `DynamicImage::crop_imm`: the rectangle, moved and shrunk into the image, cut out.
#[verifier::external_body]
pub(crate) fn crop_imm(p: &Picture, x: u32, y: u32, width: u32, height: u32) -> (r: Picture)
    ensures
        r@ == cropped(p@, x as nat, y as nat, width as nat, height as nat),
{
    let img = p.image.crop_imm(x, y, width, height);
    let c = img.color();
    Picture { width: img.width(), height: img.height(), channels: c.channel_count(),
        pixel_bytes: c.bytes_per_pixel(), samples: img.as_bytes().to_vec(), image: img }
}

/// `DynamicImage::resize` with `FilterType::Triangle`. The result is named; the crate's
/// source shows that it keeps the pixel format, and that an image larger than an
/// `m` by `m` square is scaled, keeping its aspect ratio, so that its longer side
/// becomes `m` and its shorter side lies between 1 and `m`.
#[verifier::external_body]
pub(crate) fn resize_triangle(p: &Picture, nwidth: u32, nheight: u32) -> (r: Picture)
    ensures
        r@ == triangle_resized(p@, nwidth, nheight),
        r@.channels == p@.channels,
        r@.pixel_bytes == p@.pixel_bytes,
        (nwidth == nheight && nwidth >= 1 && (p@.width > nwidth || p@.height > nwidth)) ==> {
            &&& 1 <= r@.width <= nwidth
            &&& 1 <= r@.height <= nwidth
            &&& p@.width >= p@.height ==> r@.width == nwidth
            &&& p@.width < p@.height ==> r@.height == nwidth
        },
{
    let img = p.image.resize(nwidth, nheight, image::imageops::FilterType::Triangle);
    let c = img.color();
    Picture { width: img.width(), height: img.height(), channels: c.channel_count(),
        pixel_bytes: c.bytes_per_pixel(), samples: img.as_bytes().to_vec(), image: img }
}

/// The eight pixel formats a PNG file holds: one to four channels of 8 or 16 bits.
pub open spec fn png_format(v: PictureView) -> bool {
    &&& 1 <= v.channels <= 4
    &&& (v.pixel_bytes == v.channels || v.pixel_bytes == 2 * v.channels)
}

/// Samples of at most 512 MiB: the most that `image::load_from_memory` lets a
/// decoder allocate by default.
pub open spec fn within_decode_limit(v: PictureView) -> bool {
    v.width * v.height * v.pixel_bytes <= 536870912
}

/// The `Display` text of the error `DynamicImage::write_to` gives when it cannot write
/// an image as PNG.
pub uninterp spec fn png_write_error(image: PictureView) -> Seq<char>;

/// `DynamicImage::write_to` with `ImageFormat::Png`, into memory. The file is named, and
/// so is the text of the error; like every `Vec<u8>`, the file is at most `isize::MAX`
/// bytes long. The crate's source shows two more facts. The PNG encoder writes the
/// eight formats of `png_format` as they are (16-bit samples in big-endian order) and,
/// short of running out of memory, refuses among them only an image with no pixels.
/// And `image::load_from_memory` reads such a file back as the same picture, when its
/// samples fit in the decoder's default allocation limit: the PNG decoder maps the file
/// back to the same pixel format and bytes, and reserves no more than the samples and
/// one row of them.
#[verifier::external_body]
pub(crate) fn write_png(p: &Picture) -> (r: Result<Vec<u8>, String>)
    ensures
        match r {
            Ok(v) => {
                &&& png_encoding(p@) == Some(v@)
                &&& v@.len() <= isize::MAX
                &&& png_format(p@) && within_decode_limit(p@) ==> decoded_image(v@) == Some(p@)
            },
            Err(t) => png_encoding(p@) is None && t@ == png_write_error(p@),
        },
        png_format(p@) && p@.width >= 1 && p@.height >= 1 ==> r is Ok,
{
    let mut out: Vec<u8> = Vec::new();
    match p.image.write_to(&mut std::io::Cursor::new(&mut out), image::ImageFormat::Png) {
        Ok(()) => Ok(out),
        Err(e) => Err(e.to_string()),
    }
}

/// What `DynamicImage::to_rgba8` gives for an image in the sRGB colour space.
pub uninterp spec fn rgba8_converted(image: PictureView) -> PictureView;

/// `DynamicImage::to_rgba8`: the image as RGBA with 8 bits per channel, of the same
/// size; an image that already is one is copied as it is. The conversion also reads
/// the image's colour space, which the view leaves out; every image this library holds
/// is sRGB (decoding sets sRGB, new buffers start as sRGB, and the rotations, mirrorings,
/// crops and resizes copy the colour space of their source), so the result is named
/// over the view.
#[verifier::external_body]
pub(crate) fn to_rgba8(p: &Picture) -> (r: Picture)
    ensures
        r@ == rgba8_converted(p@),
        r@.width == p@.width,
        r@.height == p@.height,
        r@.channels == 4,
        r@.pixel_bytes == 4,
        p@.channels == 4 && p@.pixel_bytes == 4 ==> r@ == p@,
{
    let img = image::DynamicImage::ImageRgba8(p.image.to_rgba8());
    Picture { width: img.width(), height: img.height(), channels: 4, pixel_bytes: 4,
        samples: img.as_bytes().to_vec(), image: img }
}

/// Wraps row-major RGBA samples with 8 bits per channel as an image.
#[verifier::external_body]
fn rgba8_picture(width: u32, height: u32, samples: Vec<u8>) -> (r: Picture)
    requires
        samples@.len() == width * height * 4,
    ensures
        r@ == rgba8_view(width as nat, height as nat, samples@),
{
    let buffer = image::RgbaImage::from_raw(width, height, samples).unwrap();
    let img = image::DynamicImage::ImageRgba8(buffer);
    Picture { width, height, channels: 4, pixel_bytes: 4, samples: img.as_bytes().to_vec(), image: img }
}

impl Picture {
    /// Width in pixels.
    pub fn width(&self) -> (r: u32)
        ensures
            r == self@.width,
    {
        self.width
    }

    /// Height in pixels.
    pub fn height(&self) -> (r: u32)
        ensures
            r == self@.height,
    {
        self.height
    }

    /// Colour channels per pixel.
    pub fn channels(&self) -> (r: u8)
        ensures
            r == self@.channels,
    {
        self.channels
    }

    /// Bytes per pixel.
    pub fn pixel_bytes(&self) -> (r: u8)
        ensures
            r == self@.pixel_bytes,
    {
        self.pixel_bytes
    }

    /// The samples, row by row, each pixel's bytes in memory order.
    pub fn samples(&self) -> (r: &[u8])
        ensures
            pixel_grid(self@.width, self@.height, self@.pixel_bytes, r@) == self@.pixels,
    {
        self.samples.as_slice()
    }

    /// The `image` crate's decoded image that this picture holds; its pixels are the
    /// ones the view shows.
    pub closed spec fn held_image(self) -> image::DynamicImage {
        self.image
    }

    /// The decoded image itself, for work done outside this library.
    pub fn as_dynamic(&self) -> (r: &image::DynamicImage)
        ensures
            *r == self.held_image(),
    {
        &self.image
    }

    /// An image from row-major RGBA samples with 8 bits per channel; `None` when their
    /// number is not four per pixel.
    pub fn from_rgba8(width: u32, height: u32, samples: Vec<u8>) -> (r: Option<Picture>)
        ensures
            match r {
                Some(p) => samples@.len() == width * height * 4 && p@ == rgba8_view(
                    width as nat,
                    height as nat,
                    samples@,
                ),
                None => samples@.len() != width * height * 4,
            },
    {
        assert((width as u64) * (height as u64) <= 0xffff_ffffu64 * 0xffff_ffffu64)
            by (nonlinear_arith);
        let area = (width as u64) * (height as u64);
        assert(area == width * height);
        let n = samples.len();
        if area > (usize::MAX / 4) as u64 || n != (area as usize) * 4 {
            None
        } else {
            Some(rgba8_picture(width, height, samples))
        }
    }
}

/// The view of a picture is a well-shaped grid.
pub proof fn lemma_view_well_shaped(p: &Picture)
    ensures
        p@.well_shaped(),
{
}

/// A quarter turn counter-clockwise undoes a quarter turn clockwise.
pub proof fn lemma_counterclockwise_undoes_clockwise(v: PictureView)
    requires
        v.well_shaped(),
    ensures
        rotated_counterclockwise(rotated_clockwise(v)).same_as(v),
{
    let r = rotated_counterclockwise(rotated_clockwise(v));
    assert forall|y: int| 0 <= y < v.height implies r.pixels[y] =~= v.pixels[y] by {}
    assert(r.pixels =~= v.pixels);
}

/// A quarter turn clockwise undoes a quarter turn counter-clockwise.
pub proof fn lemma_clockwise_undoes_counterclockwise(v: PictureView)
    requires
        v.well_shaped(),
    ensures
        rotated_clockwise(rotated_counterclockwise(v)).same_as(v),
{
    let r = rotated_clockwise(rotated_counterclockwise(v));
    assert forall|y: int| 0 <= y < v.height implies r.pixels[y] =~= v.pixels[y] by {}
    assert(r.pixels =~= v.pixels);
}

/// Two half turns, two horizontal mirrorings, or two vertical mirrorings, each give
/// the image back.
pub proof fn lemma_half_turn_and_mirrors_are_involutions(v: PictureView)
    requires
        v.well_shaped(),
    ensures
        rotated_half(rotated_half(v)).same_as(v),
        flipped_horizontally(flipped_horizontally(v)).same_as(v),
        flipped_vertically(flipped_vertically(v)).same_as(v),
{
    let a = rotated_half(rotated_half(v));
    assert forall|y: int| 0 <= y < v.height implies a.pixels[y] =~= v.pixels[y] by {}
    assert(a.pixels =~= v.pixels);
    let b = flipped_horizontally(flipped_horizontally(v));
    assert forall|y: int| 0 <= y < v.height implies b.pixels[y] =~= v.pixels[y] by {}
    assert(b.pixels =~= v.pixels);
    let c = flipped_vertically(flipped_vertically(v));
    assert forall|y: int| 0 <= y < v.height implies c.pixels[y] =~= v.pixels[y] by {}
    assert(c.pixels =~= v.pixels);
}

/// Two quarter turns clockwise make a half turn.
pub proof fn lemma_two_quarter_turns_make_half(v: PictureView)
    requires
        v.well_shaped(),
    ensures
        rotated_clockwise(rotated_clockwise(v)).same_as(rotated_half(v)),
{
    let a = rotated_clockwise(rotated_clockwise(v));
    let b = rotated_half(v);
    assert forall|y: int| 0 <= y < v.height implies a.pixels[y] =~= b.pixels[y] by {}
    assert(a.pixels =~= b.pixels);
}

} // verus!
