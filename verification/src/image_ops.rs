//! Turning the generated master image into the opaque square the icons are cut from.
use vstd::prelude::*;
use image::ImageError;
use crate::iconset::IconSpec;

verus! {

#[verifier::external_type_specification]
#[verifier::external_body]
pub struct ExImageError(image::ImageError);

/// An 8-bit RGBA image: `data` holds the pixels row by row, four bytes each.
#[derive(Debug)]
pub struct RgbaRaster {
    pub width: u32,
    pub height: u32,
    pub data: Vec<u8>,
}

/// Channel `c` of the `q`-th pixel of row-major RGBA bytes.
pub open spec fn sample(data: Seq<u8>, q: int, c: int) -> u8 {
    data[q * 4 + c]
}

impl RgbaRaster {
    /// The buffer holds exactly `width * height` pixels.
    pub open spec fn wf(&self) -> bool {
        self.data@.len() == self.width * self.height * 4
    }

    /// Channel `c` (0 red, 1 green, 2 blue, 3 alpha) of the pixel at column `i`, row `j`.
    pub open spec fn channel(&self, i: int, j: int, c: int) -> u8 {
        sample(self.data@, j * self.width + i, c)
    }
}

/// The RGBA8 image that `image::load_from_memory_with_format` decodes from
/// `bytes` as PNG and `DynamicImage::to_rgba8` converts: its width, height
/// and row-major RGBA bytes, or `None` when the bytes do not decode.
pub uninterp spec fn png_rgba8(bytes: Seq<u8>) -> Option<(u32, u32, Seq<u8>)>;

/// Calls `image::load_from_memory_with_format` with the PNG format and
/// converts a decoded image with `DynamicImage::to_rgba8`. The contract names
/// the result: decoding depends on the bytes alone (default limits, no
/// colour-management transform), and the converted buffer holds exactly
/// `width * height` RGBA pixels, as `ImageBuffer` allocates it.
#[verifier::external_body]
fn load_png_rgba8(bytes: &[u8]) -> (r: Result<RgbaRaster, ImageError>)
    ensures
        r is Ok <==> png_rgba8(bytes@) is Some,
        r matches Ok(img) ==> png_rgba8(bytes@) == Some((img.width, img.height, img.data@)),
        r matches Ok(img) ==> img.wf(),
{
    match image::load_from_memory_with_format(bytes, image::ImageFormat::Png) {
        Ok(image) => {
            let buffer = image.to_rgba8();
            let (width, height) = buffer.dimensions();
            Ok(RgbaRaster { width, height, data: buffer.into_raw() })
        },
        Err(e) => Err(e),
    }
}

/// Calls `Display::fmt` of `ImageError`; nothing is claimed of the text.
#[verifier::external_body]
fn image_error_text(e: &ImageError) -> (t: String) {
    e.to_string()
}

/// Calls `image::imageops::crop_imm(..).to_image()` on the raster. The
/// contract claims what that function's source shows for an in-bounds
/// rectangle: the result is the `width` by `height` block whose top left
/// pixel is `(x, y)`.
#[verifier::external_body]
fn crop_pixels(source: &RgbaRaster, x: u32, y: u32, width: u32, height: u32) -> (out: RgbaRaster)
    requires
        source.wf(),
        x + width <= source.width,
        y + height <= source.height,
    ensures
        out.width == width,
        out.height == height,
        out.wf(),
        forall|i: int, j: int, c: int|
            0 <= i < width && 0 <= j < height && 0 <= c < 4 ==> #[trigger] out.channel(i, j, c)
                == source.channel(x + i, y + j, c),
{
    let buffer = image::RgbaImage::from_raw(source.width, source.height, source.data.clone()).expect(
        "raster bytes match its dimensions",
    );
    let cropped = image::imageops::crop_imm(&buffer, x, y, width, height).to_image();
    RgbaRaster { width: cropped.width(), height: cropped.height(), data: cropped.into_raw() }
}

/// Whether channel `c` is 0 in every pixel of the image.
pub open spec fn channel_is_zero(img: RgbaRaster, c: int) -> bool {
    forall|q: int| 0 <= q < img.width * img.height ==> #[trigger] sample(img.data@, q, c) == 0
}

/// Calls `image::imageops::resize` with the Lanczos3 filter. The contract
/// claims the size of the result and, as the source shows, that resizing to
/// the same size copies the pixels, and that each channel is filtered on its
/// own: every output channel is a weighted sum of that channel alone, clamped
/// and rounded, so a channel that is 0 in every source pixel is 0 in every
/// output pixel (0 times a finite weight is 0; a non-finite weight makes the
/// conversion back to `u8` panic, and then nothing is returned). Resampled
/// pixel values are not described: they come from `f32` filtering. In
/// particular it is not claimed that an image of one colour keeps that
/// colour: the normalised weights sum to 1 only up to `f32` rounding, and
/// the source gives no bound on that error that holds for every size. The
/// function allocates a
/// `source.width` by `height` buffer of `f32` channels and a `width` by
/// `height` one, and panics when a buffer's size overflows; `requires`
/// leaves those sizes out.
#[verifier::external_body]
fn resize_lanczos3(source: &RgbaRaster, width: u32, height: u32) -> (out: RgbaRaster)
    requires
        source.wf(),
        source.width * height * 16 <= isize::MAX,
        width * height * 16 <= isize::MAX,
    ensures
        out.width == width,
        out.height == height,
        out.wf(),
        width == source.width && height == source.height ==> out.data@ == source.data@,
        forall|c: int|
            0 <= c < 4 && #[trigger] channel_is_zero(*source, c) ==> channel_is_zero(out, c),
{
    let buffer = image::RgbaImage::from_raw(source.width, source.height, source.data.clone()).expect(
        "raster bytes match its dimensions",
    );
    let resized = image::imageops::resize(
        &buffer,
        width,
        height,
        image::imageops::FilterType::Lanczos3,
    );
    RgbaRaster { width: resized.width(), height: resized.height(), data: resized.into_raw() }
}

/// Why the generated image could not be used.
#[derive(Debug)]
pub enum ImageOpsError {
    /// The bytes are not a PNG image; holds the decoder's message.
    NotPng(String),
}

impl ImageOpsError {
    /// The headline of the error.
    pub fn message(&self) -> (m: String)
        ensures
            m@ == "OpenAI response was not a PNG image"@,
    {
        String::from_str("OpenAI response was not a PNG image")
    }
}

/// Decodes PNG bytes into an RGBA raster.
pub fn decode_png(bytes: &[u8]) -> (r: Result<RgbaRaster, ImageOpsError>)
    ensures
        r is Ok <==> png_rgba8(bytes@) is Some,
        r matches Ok(img) ==> png_rgba8(bytes@) == Some((img.width, img.height, img.data@)),
        r matches Ok(img) ==> img.wf(),
{
    match load_png_rgba8(bytes) {
        Ok(raster) => Ok(raster),
        Err(e) => Err(ImageOpsError::NotPng(image_error_text(&e))),
    }
}

proof fn lemma_pixel_in_bounds(w: int, h: int, i: int, j: int)
    requires
        0 <= i < w,
        0 <= j < h,
    ensures
        0 <= j * w + i < w * h,
        (j * w + i) * 4 + 3 < w * h * 4,
{
    assert(0 <= j * w + i < w * h) by (nonlinear_arith)
        requires
            0 <= i < w,
            0 <= j < h,
    ;
}

fn pixel_offset(img: &RgbaRaster, i: u32, j: u32) -> (o: usize)
    requires
        img.wf(),
        i < img.width,
        j < img.height,
    ensures
        o == (j * img.width + i) * 4,
        o + 3 < img.data@.len(),
{
    let n = img.data.len();
    proof {
        lemma_pixel_in_bounds(img.width as int, img.height as int, i as int, j as int);
        assert(j * img.width <= j * img.width + i);
    }
    ((j as usize) * (img.width as usize) + (i as usize)) * 4
}

/// Side of the largest centered square of a `w` by `h` image.
pub open spec fn square_side(w: nat, h: nat) -> nat {
    if w < h {
        w
    } else {
        h
    }
}

/// Left edge of the centered square.
pub open spec fn square_left(w: nat, h: nat) -> nat {
    ((w - square_side(w, h)) / 2) as nat
}

/// Top edge of the centered square.
pub open spec fn square_top(w: nat, h: nat) -> nat {
    ((h - square_side(w, h)) / 2) as nat
}

/// The square is the largest that fits, and it is centred: the margins left
/// and right, and the margins above and below, differ by at most one pixel.
pub proof fn lemma_square_is_centred(w: nat, h: nat)
    ensures
        square_side(w, h) <= w && square_side(w, h) <= h,
        square_side(w, h) == w || square_side(w, h) == h,
        square_left(w, h) + square_side(w, h) <= w,
        square_top(w, h) + square_side(w, h) <= h,
        ({
            let right = w - square_side(w, h) - square_left(w, h);
            square_left(w, h) <= right <= square_left(w, h) + 1
        }),
        ({
            let bottom = h - square_side(w, h) - square_top(w, h);
            square_top(w, h) <= bottom <= square_top(w, h) + 1
        }),
{
}

/// Cuts the largest centered square out of the image.
pub fn center_crop_square(source: &RgbaRaster) -> (out: RgbaRaster)
    requires
        source.wf(),
    ensures
        out.wf(),
        out.width == square_side(source.width as nat, source.height as nat),
        out.height == out.width,
        forall|i: int, j: int, c: int|
            0 <= i < out.width && 0 <= j < out.height && 0 <= c < 4 ==> #[trigger] out.channel(
                i,
                j,
                c,
            ) == source.channel(
                square_left(source.width as nat, source.height as nat) + i,
                square_top(source.width as nat, source.height as nat) + j,
                c,
            ),
        out.width <= source.width && out.width <= source.height,
        out.width == source.width || out.width == source.height,
        forall|i: int, j: int, c: int|
            0 <= i < out.width && 0 <= j < out.height && 0 <= c < 4 ==> #[trigger] out.channel(
                i,
                j,
                c,
            ) == source.channel(
                i + (source.width - out.width) / 2,
                j + (source.height - out.width) / 2,
                c,
            ),
{
    let width = source.width;
    let height = source.height;
    let side = if width < height {
        width
    } else {
        height
    };
    let x = (width - side) / 2;
    let y = (height - side) / 2;
    crop_pixels(source, x, y, side, side)
}

/// `f` over `b` at opacity `a / 255`, rounded to the nearest integer (the
/// exact value is never halfway between two integers).
pub open spec fn blend(f: u8, a: u8, b: u8) -> u8 {
    ((2 * (f * a + b * (255 - a)) + 255) / 510) as u8
}

/// A fully opaque pixel keeps its color; a fully transparent one takes the background's.
pub proof fn lemma_blend_extremes(f: u8, b: u8)
    ensures
        blend(f, 255, b) == f,
        blend(f, 0, b) == b,
{
}

/// The opaque pixel that `fg` shows over the background color `bg`.
pub open spec fn composite_spec(fg: Seq<u8>, bg: Seq<u8>) -> Seq<u8> {
    seq![blend(fg[0], fg[3], bg[0]), blend(fg[1], fg[3], bg[1]), blend(fg[2], fg[3], bg[2]), 255u8]
}

fn blend_channel(f: u8, a: u8, b: u8) -> (r: u8)
    ensures
        r == blend(f, a, b),
{
    let f32v = f as u32;
    let a32 = a as u32;
    let b32 = b as u32;
    assert(f32v * a32 + b32 * (255 - a32) <= 65025) by (nonlinear_arith)
        requires
            f32v <= 255,
            a32 <= 255,
            b32 <= 255,
    ;
    let x = f32v * a32 + b32 * (255 - a32);
    let r = (2 * x + 255) / 510;
    assert(r <= 255);
    r as u8
}

/// Puts the pixel `fg` over the background color `bg`; the result is opaque.
pub fn composite(fg: [u8; 4], bg: [u8; 3]) -> (out: [u8; 4])
    ensures
        out@ == composite_spec(fg@, bg@),
{
    let r = blend_channel(fg[0], fg[3], bg[0]);
    let g = blend_channel(fg[1], fg[3], bg[1]);
    let b = blend_channel(fg[2], fg[3], bg[2]);
    let out = [r, g, b, 255u8];
    assert(out@ =~= composite_spec(fg@, bg@));
    out
}

/// Channel `c` of the corner pixel `k` (0 top left, 1 top right, 2 bottom
/// left, 3 bottom right) of the `w` by `h` rectangle at `(x, y)` in `img`.
pub open spec fn corner_channel(img: RgbaRaster, x: int, y: int, w: int, h: int, k: int, c: int) -> u8 {
    let i = if k == 1 || k == 3 {
        x + w - 1
    } else {
        x
    };
    let j = if k == 2 || k == 3 {
        y + h - 1
    } else {
        y
    };
    img.channel(i, j, c)
}

/// Channel `c` of corner `k` when that corner is not fully transparent, else 0.
pub open spec fn opaque_corner_channel(
    img: RgbaRaster,
    x: int,
    y: int,
    w: int,
    h: int,
    k: int,
    c: int,
) -> nat {
    if corner_channel(img, x, y, w, h, k, 3) > 0 {
        corner_channel(img, x, y, w, h, k, c) as nat
    } else {
        0
    }
}

/// How many corners of the rectangle are not fully transparent.
pub open spec fn opaque_corner_count(img: RgbaRaster, x: int, y: int, w: int, h: int) -> nat {
    (if corner_channel(img, x, y, w, h, 0, 3) > 0 { 1nat } else { 0nat }) + (if corner_channel(
        img,
        x,
        y,
        w,
        h,
        1,
        3,
    ) > 0 { 1nat } else { 0nat }) + (if corner_channel(img, x, y, w, h, 2, 3) > 0 {
        1nat
    } else {
        0nat
    }) + (if corner_channel(img, x, y, w, h, 3, 3) > 0 { 1nat } else { 0nat })
}

/// Sum of channel `c` over the corners that are not fully transparent.
pub open spec fn opaque_corner_sum(img: RgbaRaster, x: int, y: int, w: int, h: int, c: int) -> nat {
    opaque_corner_channel(img, x, y, w, h, 0, c) + opaque_corner_channel(img, x, y, w, h, 1, c)
        + opaque_corner_channel(img, x, y, w, h, 2, c) + opaque_corner_channel(
        img,
        x,
        y,
        w,
        h,
        3,
        c,
    )
}

/// Background color for the rectangle: the mean color of its corners that
/// are not fully transparent, or light gray (245, 245, 245) when all four are.
pub open spec fn corner_background(img: RgbaRaster, x: int, y: int, w: int, h: int) -> Seq<u8> {
    let n = opaque_corner_count(img, x, y, w, h);
    if n == 0 {
        seq![245u8, 245, 245]
    } else {
        seq![
            (opaque_corner_sum(img, x, y, w, h, 0) / n) as u8,
            (opaque_corner_sum(img, x, y, w, h, 1) / n) as u8,
            (opaque_corner_sum(img, x, y, w, h, 2) / n) as u8,
        ]
    }
}

/// The background color of a whole image.
pub open spec fn background_of(img: RgbaRaster) -> Seq<u8> {
    corner_background(img, 0, 0, img.width as int, img.height as int)
}

/// Picks the background color from the four corners of the image.
pub fn pick_background_color(image: &RgbaRaster) -> (bg: [u8; 3])
    requires
        image.wf(),
        image.width > 0,
        image.height > 0,
    ensures
        bg@ == background_of(*image),
{
    let w = image.width;
    let h = image.height;
    let corners = [
        pixel_offset(image, 0, 0),
        pixel_offset(image, w - 1, 0),
        pixel_offset(image, 0, h - 1),
        pixel_offset(image, w - 1, h - 1),
    ];
    let ghost img = *image;
    let mut sum: [u32; 3] = [0, 0, 0];
    let mut count: u32 = 0;
    let n = image.data.len();
    let mut k: usize = 0;
    while k < 4
        invariant
            n == image.data@.len(),
            img == *image,
            image.wf(),
            w == image.width,
            h == image.height,
            w > 0,
            h > 0,
            k <= 4,
            count <= k,
            forall|m: int| 0 <= m < 4 ==> #[trigger] corners@[m] + 3 < image.data@.len(),
            forall|m: int, c: int|
                0 <= m < 4 && 0 <= c < 4 ==> image.data@[corners@[m] + c]
                    == #[trigger] corner_channel(img, 0, 0, w as int, h as int, m, c),
            count == (if k > 0 && corner_channel(img, 0, 0, w as int, h as int, 0, 3) > 0 {
                1nat
            } else {
                0nat
            }) + (if k > 1 && corner_channel(img, 0, 0, w as int, h as int, 1, 3) > 0 {
                1nat
            } else {
                0nat
            }) + (if k > 2 && corner_channel(img, 0, 0, w as int, h as int, 2, 3) > 0 {
                1nat
            } else {
                0nat
            }) + (if k > 3 && corner_channel(img, 0, 0, w as int, h as int, 3, 3) > 0 {
                1nat
            } else {
                0nat
            }),
            forall|c: int|
                0 <= c < 3 ==> #[trigger] sum@[c] == (if k > 0 {
                    opaque_corner_channel(img, 0, 0, w as int, h as int, 0, c)
                } else {
                    0nat
                }) + (if k > 1 {
                    opaque_corner_channel(img, 0, 0, w as int, h as int, 1, c)
                } else {
                    0nat
                }) + (if k > 2 {
                    opaque_corner_channel(img, 0, 0, w as int, h as int, 2, c)
                } else {
                    0nat
                }) + (if k > 3 {
                    opaque_corner_channel(img, 0, 0, w as int, h as int, 3, c)
                } else {
                    0nat
                }),
            forall|c: int| 0 <= c < 3 ==> #[trigger] sum@[c] <= 255 * count,
        decreases 4 - k,
    {
        let o = corners[k];
        if image.data[o + 3] > 0 {
            sum[0] = sum[0] + image.data[o] as u32;
            sum[1] = sum[1] + image.data[o + 1] as u32;
            sum[2] = sum[2] + image.data[o + 2] as u32;
            count = count + 1;
        }
        k = k + 1;
    }
    if count == 0 {
        let bg = [245u8, 245, 245];
        assert(bg@ =~= background_of(*image));
        return bg;
    }
    proof {
        assert forall|c: int| 0 <= c < 3 implies #[trigger] sum@[c] / count <= 255 by {
            let x = sum@[c] as int;
            let m = count as int;
            assert(x / m <= 255) by (nonlinear_arith)
                requires
                    0 <= x <= 255 * m,
                    m > 0,
            ;
        }
    }
    let bg = [(sum[0] / count) as u8, (sum[1] / count) as u8, (sum[2] / count) as u8];
    assert(bg@ =~= background_of(*image));
    bg
}


/// Lays the image over its background color: every pixel becomes opaque.
pub fn flatten_alpha(image: &RgbaRaster) -> (out: RgbaRaster)
    requires
        image.wf(),
        image.width > 0,
        image.height > 0,
    ensures
        out.wf(),
        out.width == image.width,
        out.height == image.height,
        forall|q: int, c: int|
            0 <= q < image.width * image.height && 0 <= c < 4 ==> #[trigger] sample(out.data@, q, c)
                == composite_spec(
                seq![
                    sample(image.data@, q, 0),
                    sample(image.data@, q, 1),
                    sample(image.data@, q, 2),
                    sample(image.data@, q, 3),
                ],
                background_of(*image),
            )[c],
{
    let bg = pick_background_color(image);
    let n = image.data.len();
    let pixels = n / 4;
    let mut data: Vec<u8> = Vec::with_capacity(n);
    let mut q: usize = 0;
    while q < pixels
        invariant
            image.wf(),
            n == image.data@.len(),
            pixels == image.width * image.height,
            n == pixels * 4,
            bg@ == background_of(*image),
            q <= pixels,
            data@.len() == q * 4,
            forall|p: int, c: int|
                0 <= p < q && 0 <= c < 4 ==> #[trigger] sample(data@, p, c) == composite_spec(
                    seq![
                        sample(image.data@, p, 0),
                        sample(image.data@, p, 1),
                        sample(image.data@, p, 2),
                        sample(image.data@, p, 3),
                    ],
                    bg@,
                )[c],
        decreases pixels - q,
    {
        let o = q * 4;
        let px = composite(
            [image.data[o], image.data[o + 1], image.data[o + 2], image.data[o + 3]],
            bg,
        );
        let ghost before = data@;
        data.push(px[0]);
        data.push(px[1]);
        data.push(px[2]);
        data.push(px[3]);
        proof {
            assert forall|p: int, c: int| 0 <= p < q + 1 && 0 <= c < 4 implies #[trigger] sample(
                data@,
                p,
                c,
            ) == composite_spec(
                seq![
                    sample(image.data@, p, 0),
                    sample(image.data@, p, 1),
                    sample(image.data@, p, 2),
                    sample(image.data@, p, 3),
                ],
                bg@,
            )[c] by {
                if p < q {
                    assert(sample(data@, p, c) == sample(before, p, c));
                } else {
                    assert(sample(data@, p, c) == px@[c]);
                }
            }
        }
        q = q + 1;
    }
    RgbaRaster { width: image.width, height: image.height, data }
}

/// The background color of the centered square of `img`.
pub open spec fn square_background(img: RgbaRaster) -> Seq<u8> {
    let side = square_side(img.width as nat, img.height as nat);
    corner_background(
        img,
        square_left(img.width as nat, img.height as nat) as int,
        square_top(img.width as nat, img.height as nat) as int,
        side as int,
        side as int,
    )
}

/// Makes the icon master: the centered square of `source`, laid over the
/// background color taken from that square's corners, fully opaque.
pub fn ensure_opaque_square(source: RgbaRaster) -> (out: RgbaRaster)
    requires
        source.wf(),
        source.width > 0,
        source.height > 0,
    ensures
        out.wf(),
        out.width == square_side(source.width as nat, source.height as nat),
        out.height == out.width,
        forall|i: int, j: int|
            0 <= i < out.width && 0 <= j < out.height ==> #[trigger] out.channel(i, j, 3) == 255,
        forall|i: int, j: int, c: int|
            0 <= i < out.width && 0 <= j < out.height && 0 <= c < 4 ==> #[trigger] out.channel(
                i,
                j,
                c,
            ) == composite_spec(
                seq![
                    source.channel(
                        square_left(source.width as nat, source.height as nat) + i,
                        square_top(source.width as nat, source.height as nat) + j,
                        0,
                    ),
                    source.channel(
                        square_left(source.width as nat, source.height as nat) + i,
                        square_top(source.width as nat, source.height as nat) + j,
                        1,
                    ),
                    source.channel(
                        square_left(source.width as nat, source.height as nat) + i,
                        square_top(source.width as nat, source.height as nat) + j,
                        2,
                    ),
                    source.channel(
                        square_left(source.width as nat, source.height as nat) + i,
                        square_top(source.width as nat, source.height as nat) + j,
                        3,
                    ),
                ],
                square_background(source),
            )[c],
{
    let square = center_crop_square(&source);
    let out = flatten_alpha(&square);
    proof {
        let side = square.width as int;
        let x0 = square_left(source.width as nat, source.height as nat) as int;
        let y0 = square_top(source.width as nat, source.height as nat) as int;
        assert forall|k: int, c: int| 0 <= k < 4 && 0 <= c < 4 implies corner_channel(
            square,
            0,
            0,
            side,
            side,
            k,
            c,
        ) == corner_channel(source, x0, y0, side, side, k, c) by {
            let i = if k == 1 || k == 3 {
                side - 1
            } else {
                0
            };
            let j = if k == 2 || k == 3 {
                side - 1
            } else {
                0
            };
            assert(square.channel(i, j, c) == source.channel(x0 + i, y0 + j, c));
        }
        assert(background_of(square) =~= square_background(source));
        assert forall|i: int, j: int, c: int|
            0 <= i < out.width && 0 <= j < out.height && 0 <= c < 4 implies #[trigger] out.channel(
            i,
            j,
            c,
        ) == composite_spec(
            seq![
                source.channel(x0 + i, y0 + j, 0),
                source.channel(x0 + i, y0 + j, 1),
                source.channel(x0 + i, y0 + j, 2),
                source.channel(x0 + i, y0 + j, 3),
            ],
            square_background(source),
        )[c] by {
            lemma_pixel_in_bounds(side, side, i, j);
            let q = j * side + i;
            assert(out.channel(i, j, c) == sample(out.data@, q, c));
            assert(square.channel(i, j, 0) == source.channel(x0 + i, y0 + j, 0));
            assert(square.channel(i, j, 1) == source.channel(x0 + i, y0 + j, 1));
            assert(square.channel(i, j, 2) == source.channel(x0 + i, y0 + j, 2));
            assert(square.channel(i, j, 3) == source.channel(x0 + i, y0 + j, 3));
        }
        assert forall|i: int, j: int|
            0 <= i < out.width && 0 <= j < out.height implies #[trigger] out.channel(i, j, 3)
            == 255 by {
            lemma_pixel_in_bounds(side, side, i, j);
            assert(out.channel(i, j, 3) == sample(out.data@, j * side + i, 3));
        }
    }
    out
}

/// The icon image for `spec`: the master resized to `spec.pixels` square with Lanczos3.
pub fn render_icon(master: &RgbaRaster, spec: &IconSpec) -> (icon: RgbaRaster)
    requires
        master.wf(),
        master.width * spec.pixels * 16 <= isize::MAX,
        spec.pixels * spec.pixels * 16 <= isize::MAX,
    ensures
        icon.wf(),
        icon.width == spec.pixels,
        icon.height == spec.pixels,
        spec.pixels == master.width && spec.pixels == master.height ==> icon.data@
            == master.data@,
        forall|c: int|
            0 <= c < 4 && #[trigger] channel_is_zero(*master, c) ==> channel_is_zero(icon, c),
{
    resize_lanczos3(master, spec.pixels, spec.pixels)
}

} // verus!
