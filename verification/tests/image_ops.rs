use icon_maker::iconset::make_spec;
use icon_maker::image_ops::{
    RgbaRaster, center_crop_square, composite, decode_png, ensure_opaque_square, flatten_alpha,
    pick_background_color, render_icon,
};

fn raster(width: u32, height: u32, px: [u8; 4]) -> RgbaRaster {
    let mut data = Vec::new();
    for _ in 0..(width * height) {
        data.extend_from_slice(&px);
    }
    RgbaRaster { width, height, data }
}

fn pixel(img: &RgbaRaster, i: u32, j: u32) -> [u8; 4] {
    let o = ((j * img.width + i) * 4) as usize;
    [img.data[o], img.data[o + 1], img.data[o + 2], img.data[o + 3]]
}

#[test]
fn makes_square_and_flattens_alpha() {
    let img = raster(10, 8, [100, 50, 25, 128]);

    let out = ensure_opaque_square(img);
    assert_eq!(out.width, 8);
    assert_eq!(out.height, 8);
    assert!(out.data.chunks(4).all(|p| p[3] == 255));
}

#[test]
fn composite_matches_float_blend_on_every_input() {
    for a in 0..=255u8 {
        let alpha = a as f32 / 255.0;
        let inv = 1.0 - alpha;
        for f in 0..=255u8 {
            for b in 0..=255u8 {
                let expected = (f as f32 * alpha + b as f32 * inv).round() as u8;
                let out = composite([f, 0, 0, a], [b, 0, 0]);
                assert_eq!(out[0], expected, "f={f} a={a} b={b}");
            }
        }
    }
}

#[test]
fn composite_extremes() {
    assert_eq!(composite([10, 20, 30, 255], [200, 200, 200]), [10, 20, 30, 255]);
    assert_eq!(composite([10, 20, 30, 0], [200, 201, 202]), [200, 201, 202, 255]);
    assert_eq!(composite([100, 50, 25, 128], [245, 245, 245]), [172, 147, 135, 255]);
}

#[test]
fn background_is_mean_of_opaque_corners() {
    let mut img = raster(3, 2, [0, 0, 0, 0]);
    // top left and bottom right opaque
    img.data[0..4].copy_from_slice(&[10, 20, 30, 255]);
    let o = ((1 * 3 + 2) * 4) as usize;
    img.data[o..o + 4].copy_from_slice(&[20, 41, 60, 1]);
    assert_eq!(pick_background_color(&img), [15, 30, 45]);

    let clear = raster(2, 2, [9, 9, 9, 0]);
    assert_eq!(pick_background_color(&clear), [245, 245, 245]);

    let single = raster(1, 1, [7, 8, 9, 200]);
    assert_eq!(pick_background_color(&single), [7, 8, 9]);
}

#[test]
fn center_crop_takes_middle() {
    let mut img = raster(5, 3, [0, 0, 0, 255]);
    for i in 0..5u32 {
        for j in 0..3u32 {
            let o = ((j * 5 + i) * 4) as usize;
            img.data[o] = i as u8;
            img.data[o + 1] = j as u8;
        }
    }
    let sq = center_crop_square(&img);
    assert_eq!((sq.width, sq.height), (3, 3));
    assert_eq!(pixel(&sq, 0, 0), [1, 0, 0, 255]);
    assert_eq!(pixel(&sq, 2, 2), [3, 2, 0, 255]);

    let tall = raster(2, 7, [1, 2, 3, 4]);
    let sq = center_crop_square(&tall);
    assert_eq!((sq.width, sq.height), (2, 2));
}

#[test]
fn flatten_uses_corner_background() {
    let mut img = raster(2, 2, [0, 0, 0, 255]);
    let o = 4usize;
    img.data[o..o + 4].copy_from_slice(&[200, 100, 50, 0]);
    let out = flatten_alpha(&img);
    // corners: three opaque black, one transparent -> background black
    assert_eq!(pixel(&out, 1, 0), [0, 0, 0, 255]);
    assert_eq!(pixel(&out, 0, 0), [0, 0, 0, 255]);
}

#[test]
fn decode_png_round_trip() {
    let mut source = image::RgbaImage::new(3, 2);
    for (x, y, p) in source.enumerate_pixels_mut() {
        *p = image::Rgba([x as u8 * 10, y as u8 * 20, 5, 255]);
    }
    let mut bytes: Vec<u8> = Vec::new();
    source
        .write_to(&mut std::io::Cursor::new(&mut bytes), image::ImageFormat::Png)
        .expect("encode png");
    let decoded = decode_png(&bytes).expect("decode png");
    assert_eq!((decoded.width, decoded.height), (3, 2));
    assert_eq!(decoded.data, source.into_raw());
}

#[test]
fn decode_png_rejects_other_bytes() {
    let err = decode_png(b"not a png").expect_err("should fail");
    assert_eq!(err.message(), "OpenAI response was not a PNG image");
}

#[test]
fn render_icon_resizes_to_spec_pixels() {
    let master = raster(64, 64, [30, 60, 90, 255]);
    let spec = make_spec("iphone", 200, 2);
    let icon = render_icon(&master, &spec);
    assert_eq!((icon.width, icon.height), (40, 40));
    assert_eq!(icon.data.len(), 40 * 40 * 4);
    let same = make_spec("mac", 320, 2);
    let copy = render_icon(&master, &same);
    assert_eq!(copy.data, master.data);
}

#[test]
fn icons_from_an_opaque_master_stay_opaque() {
    let side = 256u32;
    let mut master = raster(side, side, [0, 0, 0, 255]);
    for j in 0..side {
        for i in 0..side {
            let o = ((j * side + i) * 4) as usize;
            master.data[o] = (i * 7 % 256) as u8;
            master.data[o + 1] = (j * 13 % 256) as u8;
            master.data[o + 2] = ((i ^ j) % 256) as u8;
        }
    }
    for (tenths, scale) in [(160u32, 1u32), (200, 2), (835, 2), (1280, 2)] {
        let icon = render_icon(&master, &make_spec("ipad", tenths, scale));
        assert!(icon.data.chunks(4).all(|p| p[3] == 255), "{tenths} x{scale}");
    }
}
