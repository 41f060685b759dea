use krust::exported_image::ExportedImage;
use krust::font::{dcnds_char, draw_char, draw_font, draw_string, glyph_fits};
use krust::mailbox::vc::Framebuffer;
use krust::postman::{pixel_address, rgb24, rgba32, test_gradient_render};
use krust::screen::{dma_clear_screen, test_gradient_render2};

#[test]
fn colours() {
    assert_eq!(rgb24(1, 2, 3), 0x0003_0201);
    assert_eq!(rgb24(0xFF, 0, 0), 0xFF);
    assert_eq!(rgba32(1, 2, 3, 4), 0x0403_0201);
    assert_eq!(rgba32(0, 0, 0, 0xFF), 0xFF00_0000);
}

#[test]
fn pixel_addresses() {
    assert_eq!(pixel_address(0x1000, 2, 3, 640, 4), 0x1000 + (2 + 3 * 640) * 4);
    let fb = Framebuffer::new((640, 480), 0xC010_0000, 2560);
    assert_eq!(fb.ptr, 0x0010_0000);
    assert_eq!(fb.bit_depth, 4);
    assert_eq!(fb.pitch, 640);
    assert_eq!(fb.phy_size, (640, 480));
    assert_eq!(fb.pixel_address(1, 1), 0x0010_0000 + 641 * 4);
}

#[test]
fn gradient_colours() {
    let rows = test_gradient_render(0, 0, 3, 2);
    assert_eq!(rows.len(), 2);
    assert_eq!(rows[0], vec![0x80, 0x81, 0x82]);
    // The colour is recomputed after each pixel, not after a row, so the
    // first pixel of the second row still has the old green.
    assert_eq!(rows[1], vec![0x83, 0x0184, 0x0185]);
}

#[test]
fn gradient_red_saturates() {
    let rows = test_gradient_render(0, 0, 200, 1);
    assert_eq!(rows[0][0] & 0xFF, 0x80);
    assert_eq!(rows[0][127] & 0xFF, 0xFF);
    assert_eq!(rows[0][199] & 0xFF, 0xFF);
    assert!(rows[0].iter().all(|c| c >> 16 == 0));
}

#[test]
fn gradient_green_turns_at_the_top() {
    let rows = test_gradient_render(0, 0, 1, 300);
    let green: Vec<u32> = rows.iter().map(|r| (r[0] >> 8) & 0xFF).collect();
    assert_eq!(green[0], 0);
    assert_eq!(green[2], 1);
    assert!(green.iter().all(|g| *g <= 0xFF));
    assert_eq!(*green.iter().max().unwrap(), 0xFF);
    assert!(green[299] < 0xFF);
}

#[test]
fn off_screen_gradient_and_copy() {
    let fb = Framebuffer::new((3, 2), 0xC010_0000, 2560);
    let (pixels, cb) = test_gradient_render2(&fb, 0x0002_0000);
    assert_eq!(pixels, vec![0x80, 0x81, 0x82, 0x83, 0x0184, 0x0185]);
    assert_eq!(cb.ti, 0x330);
    assert_eq!(cb.src, 0x0002_0000);
    assert_eq!(cb.dst, 0x0010_0000);
    assert_eq!(cb.len, (640 << 16) | 480);
    assert_eq!(cb.stride, 160);
    let (cleared, cb) = dma_clear_screen(&fb, 0x0002_0000);
    assert_eq!(cleared, vec![0u32; 6]);
    assert_eq!(cb.dst, 0x0010_0000);
}

#[test]
fn glyph_rows_split_into_bits() {
    assert_eq!(dcnds_char(0b1010_0001), [1, 0, 1, 0, 0, 0, 0, 1]);
    assert_eq!(dcnds_char(0), [0; 8]);
    assert_eq!(dcnds_char(0xFF), [1; 8]);
}

fn font_with_a() -> [u8; 1536] {
    let mut font = [0u8; 1536];
    // 'A' is glyph 33: column 1, line 2 of a 128-pixel wide image whose
    // bytes hold eight pixels; its first row is at 8 * 2 + (32 * 128) / 8.
    font[528] = 0x80;
    font[529] = 0x01;
    font
}

#[test]
fn character_pixels() {
    let font = font_with_a();
    let px = draw_char(&font, 'A', 10, 20, 128, 96, 8, 2, 3);
    assert_eq!(px.len(), 16);
    assert_eq!((px[0].x, px[0].y, px[0].color), (10, 20, 0x0));
    assert_eq!((px[1].x, px[1].y, px[1].color), (11, 20, 0xFF44_FFFF));
    assert_eq!((px[15].x, px[15].y, px[15].color), (17, 21, 0x0));
    assert_eq!(px.iter().filter(|p| p.color == 0).count(), 2);
}

#[test]
fn string_pixels_advance() {
    let font = font_with_a();
    let px = draw_string(&font, "AA", 0, 0, 128, 96, 8, 2, 3);
    assert_eq!(px.len(), 32);
    assert_eq!((px[16].x, px[16].y, px[16].color), (8, 0, 0x0));
    assert_eq!((px[31].x, px[31].y), (15, 1));
}

#[test]
fn font_image_pixels() {
    let mut font = [0u8; 1536];
    font[0] = 0xFF;
    // A 16 by 2 image of 8 by 1 cells: four cells, line by line.
    let px = draw_font(&font, 16, 2, 8, 1, 3);
    assert_eq!(px.len(), 32);
    for k in 0..8 {
        assert_eq!((px[k].x, px[k].y, px[k].color), (k as u32, 0, 0xFF_FFFF));
    }
    assert_eq!((px[8].x, px[8].y, px[8].color), (8, 0, 0));
    assert_eq!((px[16].x, px[16].y, px[16].color), (0, 1, 0));
    assert_eq!((px[31].x, px[31].y, px[31].color), (15, 1, 0));
}

#[test]
fn exported_image_rendering() {
    let palette = [0xAAu32, 0xBB];
    let array = [0u8, 1, 1, 0];
    let img = ExportedImage { width: 2, height: 2, palette: &palette, array: &array };
    let rows = img.render(5, 6);
    assert_eq!(rows.len(), 2);
    assert_eq!((rows[0][0].x, rows[0][0].y, rows[0][0].color), (5, 6, 0xAA));
    assert_eq!((rows[0][1].x, rows[0][1].y, rows[0][1].color), (6, 6, 0xBB));
    assert_eq!((rows[1][0].x, rows[1][0].y, rows[1][0].color), (5, 7, 0xBB));
    assert_eq!((rows[1][1].x, rows[1][1].y, rows[1][1].color), (6, 7, 0xAA));
}

#[test]
fn glyphs_that_fit() {
    assert!(glyph_fits('A', 128, 16, 3));
    assert!(glyph_fits(' ', 128, 16, 3));
    assert!(!glyph_fits('\n', 128, 16, 3));
    // 0x7F is glyph 95: column 15, line 5, so its first row is at
    // 15 * 8 * 2 + (80 * 128) / 8 = 1520 and 17 rows end past 1536.
    assert!(glyph_fits('\u{7F}', 128, 16, 3));
    assert!(!glyph_fits('\u{7F}', 128, 17, 3));
    assert!(!glyph_fits('A', 128, 16, 200));
}

#[test]
fn gradient_over_a_region() {
    // From (2, 1) to the edge of a 5 by 3 display: 2 rows of 3 pixels.
    let rows = test_gradient_render(2, 1, 5, 3);
    assert_eq!(rows, vec![vec![0x80, 0x81, 0x82], vec![0x83, 0x0184, 0x0185]]);
    assert!(test_gradient_render(5, 0, 5, 3).iter().all(|r| r.is_empty()));
    assert!(test_gradient_render(0, 3, 5, 3).is_empty());
}
