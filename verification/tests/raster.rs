use qr_link::raster::{png_bytes, render, Raster, DARK, LIGHT, MODULE_PIXELS, QUIET_ZONE};
use qr_link::symbol::{symbol_for, QrSymbol};

fn expected_pixel(symbol: &QrSymbol, x: usize, y: usize) -> u8 {
    let w = symbol.width();
    let (mx, my) = (x / 8, y / 8);
    if mx >= 4 && mx < w + 4 && my >= 4 && my < w + 4 && symbol.is_dark(mx - 4, my - 4) {
        0
    } else {
        255
    }
}

#[test]
fn rendering_constants() {
    assert_eq!(QUIET_ZONE, 4);
    assert_eq!(MODULE_PIXELS, 8);
    assert_eq!(DARK, 0);
    assert_eq!(LIGHT, 255);
}

#[test]
fn one_dark_module_is_a_block_in_a_light_frame() {
    let symbol = QrSymbol::from_modules(1, vec![true]).expect("1 x 1");
    let picture = render(&symbol);
    assert_eq!(picture.width(), 72);
    assert_eq!(picture.height(), 72);
    assert_eq!(picture.pixels().len(), 72 * 72);
    for y in 0..72usize {
        for x in 0..72usize {
            let inside = (32..40).contains(&x) && (32..40).contains(&y);
            assert_eq!(picture.pixels()[y * 72 + x], if inside { 0 } else { 255 });
        }
    }
}

#[test]
fn one_light_module_is_all_light() {
    let symbol = QrSymbol::from_modules(1, vec![false]).expect("1 x 1");
    let picture = render(&symbol);
    assert!(picture.pixels().iter().all(|p| *p == 255));
}

#[test]
fn an_empty_symbol_is_its_quiet_zone() {
    let symbol = QrSymbol::from_modules(0, Vec::new()).expect("0 x 0");
    let picture = render(&symbol);
    assert_eq!(picture.width(), 64);
    assert_eq!(picture.height(), 64);
    assert_eq!(picture.pixels(), &vec![255u8; 64 * 64]);
}

#[test]
fn modules_keep_their_rows_and_columns() {
    let symbol =
        QrSymbol::from_modules(3, vec![false, true, true, true, false, false, false, true, false])
            .expect("3 x 3");
    let picture = render(&symbol);
    assert_eq!(picture.width(), 88);
    assert_eq!(picture.height(), 88);
    // the module in column 1 of row 0 is dark, that in column 0 of row 1 too
    assert_eq!(picture.pixels()[32 * 88 + 40], 0);
    assert_eq!(picture.pixels()[32 * 88 + 39], 255);
    assert_eq!(picture.pixels()[40 * 88 + 32], 0);
    assert_eq!(picture.pixels()[40 * 88 + 40], 255);
    for y in 0..88usize {
        for x in 0..88usize {
            assert_eq!(picture.pixels()[y * 88 + x], expected_pixel(&symbol, x, y));
        }
    }
}

#[test]
fn a_real_symbol_is_rendered_module_by_module() {
    let symbol = symbol_for(b"https://example.com").expect("fits");
    let picture = render(&symbol);
    let side = (symbol.width() + 8) * 8;
    assert_eq!(side, 264);
    assert_eq!(picture.width() as usize, side);
    assert_eq!(picture.height() as usize, side);
    for y in 0..side {
        for x in 0..side {
            assert_eq!(picture.pixels()[y * side + x], expected_pixel(&symbol, x, y));
        }
    }
}

#[test]
fn the_picture_is_the_one_the_renderer_builds() {
    let code = qrcode::QrCode::new("https://example.com").expect("fits");
    let image = code.render::<image::Luma<u8>>().build();
    let picture = render(&symbol_for(b"https://example.com").expect("fits"));
    assert_eq!(picture.width(), image.width());
    assert_eq!(picture.height(), image.height());
    assert_eq!(picture.pixels(), &image.into_raw());
}

#[test]
fn the_widest_symbol_is_1480_pixels_wide() {
    let symbol = QrSymbol::from_modules(177, vec![true; 177 * 177]).expect("177 x 177");
    let picture = render(&symbol);
    assert_eq!(picture.width(), 1480);
    assert_eq!(picture.height(), 1480);
    assert_eq!(picture.pixels().len(), 1480 * 1480);
    assert_eq!(picture.pixels()[0], 255);
    assert_eq!(picture.pixels()[32 * 1480 + 32], 0);
    assert_eq!(picture.pixels()[1447 * 1480 + 1447], 0);
    assert_eq!(picture.pixels()[1448 * 1480 + 1448], 255);
}

#[test]
fn a_raster_holds_one_byte_per_pixel() {
    let raster = Raster::from_pixels(3, 2, vec![0, 1, 2, 3, 4, 5]).expect("3 x 2");
    assert_eq!(raster.width(), 3);
    assert_eq!(raster.height(), 2);
    assert_eq!(raster.pixels(), &vec![0, 1, 2, 3, 4, 5]);
    assert_eq!(Raster::from_pixels(3, 2, vec![0; 5]), None);
    assert_eq!(Raster::from_pixels(3, 2, vec![0; 7]), None);
    assert_eq!(Raster::from_pixels(0, 2, vec![0]), None);
    assert!(Raster::from_pixels(0, 2, Vec::new()).is_some());
}

#[test]
fn png_bytes_begin_with_the_png_signature() {
    let raster = Raster::from_pixels(2, 2, vec![0, 255, 255, 0]).expect("2 x 2");
    let bytes = png_bytes(&raster).expect("a small image is written");
    assert_eq!(&bytes[..8], b"\x89PNG\r\n\x1a\n");
    // the header chunk: 13 bytes, IHDR, width 2, height 2, depth 8, grayscale
    assert_eq!(&bytes[8..16], &[0, 0, 0, 13, b'I', b'H', b'D', b'R']);
    assert_eq!(&bytes[16..26], &[0, 0, 0, 2, 0, 0, 0, 2, 8, 0]);
}

#[test]
fn png_bytes_decode_to_the_raster() {
    let pixels: Vec<u8> = (0..35u32).map(|i| (i * 7) as u8).collect();
    let raster = Raster::from_pixels(7, 5, pixels.clone()).expect("7 x 5");
    let bytes = png_bytes(&raster).expect("a small image is written");
    let decoded = image::load_from_memory(&bytes).expect("the bytes are an image");
    assert_eq!(decoded.color(), image::ColorType::L8);
    assert_eq!(decoded.width(), 7);
    assert_eq!(decoded.height(), 5);
    assert_eq!(decoded.into_luma8().into_raw(), pixels);
}

#[test]
fn png_bytes_are_not_the_raw_pixels() {
    let raster = Raster::from_pixels(4, 4, vec![255; 16]).expect("4 x 4");
    let bytes = png_bytes(&raster).expect("a small image is written");
    assert_ne!(&bytes, raster.pixels());
}
