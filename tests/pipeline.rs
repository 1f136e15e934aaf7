use ascii_art::{
    output_name, pixel_to_asci, png_name, row_offset, target_dims, Canvas, GlyphLevel, Grid, LumaImage, CELL_SIZE,
};

const PALETTE: &str = " .:-=*#%@";

fn ordinal(g: GlyphLevel) -> usize {
    PALETTE.chars().position(|c| c == g.symbol()).unwrap()
}

fn image(width: u32, height: u32, pixels: Vec<u8>) -> LumaImage {
    LumaImage::new(width, height, pixels).unwrap()
}

#[test]
fn quantize_band_edges() {
    assert_eq!(pixel_to_asci(0), GlyphLevel::Empty);
    assert_eq!(pixel_to_asci(1), GlyphLevel::One);
    assert_eq!(pixel_to_asci(31), GlyphLevel::One);
    assert_eq!(pixel_to_asci(32), GlyphLevel::Two);
    assert_eq!(pixel_to_asci(62), GlyphLevel::Two);
    assert_eq!(pixel_to_asci(63), GlyphLevel::Three);
    assert_eq!(pixel_to_asci(93), GlyphLevel::Three);
    assert_eq!(pixel_to_asci(94), GlyphLevel::Four);
    assert_eq!(pixel_to_asci(124), GlyphLevel::Four);
    assert_eq!(pixel_to_asci(125), GlyphLevel::Five);
    assert_eq!(pixel_to_asci(155), GlyphLevel::Five);
    assert_eq!(pixel_to_asci(156), GlyphLevel::Six);
    assert_eq!(pixel_to_asci(186), GlyphLevel::Six);
    assert_eq!(pixel_to_asci(187), GlyphLevel::Seven);
    assert_eq!(pixel_to_asci(217), GlyphLevel::Seven);
    assert_eq!(pixel_to_asci(218), GlyphLevel::Eight);
    assert_eq!(pixel_to_asci(255), GlyphLevel::Eight);
}

#[test]
fn quantize_is_monotone_over_all_bytes() {
    for b in 0u8..255 {
        assert!(ordinal(pixel_to_asci(b)) <= ordinal(pixel_to_asci(b + 1)));
    }
}

#[test]
fn quantize_extremes_are_emptiest_and_densest() {
    assert_eq!(ordinal(pixel_to_asci(0)), 0);
    assert_eq!(ordinal(pixel_to_asci(255)), PALETTE.len() - 1);
}

#[test]
fn symbols_follow_palette_order() {
    let levels = [
        GlyphLevel::Empty,
        GlyphLevel::One,
        GlyphLevel::Two,
        GlyphLevel::Three,
        GlyphLevel::Four,
        GlyphLevel::Five,
        GlyphLevel::Six,
        GlyphLevel::Seven,
        GlyphLevel::Eight,
    ];
    let s: String = levels.iter().map(|g| g.symbol()).collect();
    assert_eq!(s, PALETTE);
    for g in levels.iter() {
        assert_eq!(g.symbol_byte() as char, g.symbol());
    }
}

#[test]
fn target_dims_divides_width_by_seven() {
    assert_eq!(target_dims(7, 7), (1, 1));
    assert_eq!(target_dims(14, 7), (2, 1));
    assert_eq!(target_dims(70, 35), (10, 5));
    assert_eq!(target_dims(1400, 700), (200, 100));
    assert_eq!(target_dims(700, 280), (100, 40));
}

#[test]
fn target_dims_rounds_height_half_up() {
    // 10 columns of a 70 x 31 source: 10 * 31 / 70 = 4.43 rows.
    assert_eq!(target_dims(70, 31), (10, 4));
    // 10 columns of a 70 x 32 source: 10 * 32 / 70 = 4.57 rows.
    assert_eq!(target_dims(70, 32), (10, 5));
    // 2 columns of a 20 x 15 source: 2 * 15 / 20 = 1.5 rows, rounded up.
    assert_eq!(target_dims(20, 15), (2, 2));
    // 2 columns of a 20 x 5 source: 0.5 rows, rounded up.
    assert_eq!(target_dims(20, 5), (2, 1));
}

#[test]
fn target_dims_keeps_at_least_one_cell() {
    assert_eq!(target_dims(3, 3), (1, 1));
    assert_eq!(target_dims(700, 1), (100, 1));
    assert_eq!(target_dims(1, 500), (1, 500));
}

#[test]
fn target_dims_falls_back_on_empty_source() {
    assert_eq!(target_dims(0, 5), (80, 40));
    assert_eq!(target_dims(5, 0), (80, 40));
    assert_eq!(target_dims(0, 0), (80, 40));
}

#[test]
fn wide_source_keeps_aspect_ratio() {
    let (w, h) = target_dims(1920, 1080);
    assert_eq!((w, h), (274, 154));
    let r = 1920.0f64 / 1080.0;
    let r2 = w as f64 / h as f64;
    assert!((r - r2).abs() < 0.01);
}

#[test]
fn luma_image_rejects_wrong_sample_count() {
    assert!(LumaImage::new(2, 2, vec![0; 3]).is_none());
    assert!(LumaImage::new(2, 2, vec![0; 4]).is_some());
}

#[test]
fn from_rgba_converts_to_luminance() {
    let rgba = vec![255, 0, 0, 255, 0, 255, 0, 255, 0, 0, 255, 0, 255, 255, 255, 255];
    let img = LumaImage::from_rgba(2, 2, rgba).unwrap();
    assert_eq!((img.width, img.height), (2, 2));
    assert_eq!(img.pixels, vec![54, 182, 18, 255]);
}

#[test]
fn from_rgba_rejects_wrong_byte_count() {
    assert!(LumaImage::from_rgba(2, 2, vec![0; 15]).is_none());
}

#[test]
fn assemble_matches_pixel_positions() {
    let img = image(3, 2, vec![0, 100, 255, 40, 200, 10]);
    let g = Grid::assemble(&img);
    assert_eq!(g.height(), 2);
    assert_eq!(g.width(), 3);
    assert_eq!(g.get(0, 0), GlyphLevel::Empty);
    assert_eq!(g.get(0, 1), GlyphLevel::Four);
    assert_eq!(g.get(0, 2), GlyphLevel::Eight);
    assert_eq!(g.get(1, 0), GlyphLevel::Two);
    assert_eq!(g.get(1, 1), GlyphLevel::Seven);
    assert_eq!(g.get(1, 2), GlyphLevel::One);
    assert_eq!(g.text_bytes(), b" =@\n:%.\n".to_vec());
    assert_eq!(g.row_chars(1), vec![':', '%', '.']);
}

#[test]
fn assemble_empty_image() {
    let g = Grid::assemble(&image(4, 0, vec![]));
    assert_eq!(g.height(), 0);
    assert_eq!(g.width(), 4);
    assert!(g.text_bytes().is_empty());
}

#[test]
fn rendering_twice_gives_identical_bytes() {
    let g = Grid::assemble(&image(2, 2, vec![3, 90, 160, 250]));
    let a = g.text_bytes();
    let b = g.text_bytes();
    assert_eq!(a, b);
    assert_eq!(a, b".-\n#@\n".to_vec());
}

#[test]
fn uniform_black_square_renders_blank_rows() {
    let img = image(7, 7, vec![0; 49]);
    let g = Grid::from_image(&img);
    assert_eq!((g.width(), g.height()), (1, 1));
    assert_eq!(g.text_bytes(), b" \n".to_vec());
}

#[test]
fn half_white_half_black_keeps_the_split() {
    let mut pixels = Vec::new();
    for _ in 0..7 {
        pixels.extend_from_slice(&[255; 7]);
        pixels.extend_from_slice(&[0; 7]);
    }
    let g = Grid::from_image(&image(14, 7, pixels));
    assert_eq!((g.width(), g.height()), (2, 1));
    assert_eq!(g.get(0, 0), GlyphLevel::Eight);
    assert_eq!(g.get(0, 1), GlyphLevel::Empty);
    assert_eq!(g.text_bytes(), b"@ \n".to_vec());
}

#[test]
fn resize_averages_uniform_regions() {
    let img = image(70, 35, vec![200; 70 * 35]);
    let small = img.resize_for_display();
    assert_eq!((small.width, small.height), (10, 5));
    assert_eq!(small.pixels, vec![200; 50]);
    let g = Grid::from_image(&img);
    assert_eq!(g.text_bytes(), b"%%%%%%%%%%\n".repeat(5));
}

#[test]
fn resize_empty_source_uses_default_size() {
    let small = image(0, 0, vec![]).resize_for_display();
    assert_eq!((small.width, small.height), (80, 40));
    assert_eq!(small.pixels, vec![0; 80 * 40]);
}

#[test]
fn resize_large_block_does_not_overflow() {
    let img = image(4200, 4200, vec![255; 4200 * 4200]);
    let small = img.resize_for_display();
    assert_eq!((small.width, small.height), (600, 600));
    assert!(small.pixels.iter().all(|&p| p == 255));
}

#[test]
fn terminal_rows_are_followed_by_a_blank_line() {
    let g = Grid::assemble(&image(2, 2, vec![3, 90, 160, 250]));
    assert_eq!(g.terminal_bytes(), b".-\n\n#@\n\n".to_vec());
    assert_eq!(g.text_bytes(), b".-\n#@\n".to_vec());
    assert!(Grid::assemble(&image(3, 0, vec![])).terminal_bytes().is_empty());
}

#[test]
fn png_name_keeps_source_extension() {
    assert_eq!(png_name("photo.jpg"), "photo.jpg.png");
    assert_eq!(png_name("photo.png"), "photo.png.png");
    assert_eq!(png_name("noext"), "noext.png");
    assert_eq!(png_name(""), "ascii.png");
}

#[test]
fn canvas_has_one_cell_per_glyph() {
    let g = Grid::assemble(&image(3, 2, vec![0; 6]));
    let c = Canvas::for_grid(&g).unwrap();
    assert_eq!((c.width(), c.height()), (3 * CELL_SIZE, 2 * CELL_SIZE));
    let rgba = c.to_rgba();
    assert_eq!(rgba.len(), 4 * 15 * 10);
    assert!(rgba.iter().all(|&b| b == 0));
}

#[test]
fn canvas_stamps_inside_and_drops_outside() {
    let g = Grid::assemble(&image(1, 1, vec![0]));
    let mut c = Canvas::for_grid(&g).unwrap();
    c.stamp(2, 3);
    c.stamp(-1, 0);
    c.stamp(0, -4);
    c.stamp(5, 0);
    c.stamp(0, 5);
    let rgba = c.to_rgba();
    let opaque: Vec<usize> = (0..25).filter(|i| rgba[4 * i + 3] == 255).collect();
    assert_eq!(opaque, vec![3 * 5 + 2]);
    assert_eq!(&rgba[4 * 17..4 * 18], &[255, 255, 255, 255]);
    assert_eq!(&rgba[0..4], &[0, 0, 0, 0]);
}

#[test]
fn row_offset_is_row_times_cell() {
    assert_eq!(row_offset(0), 0);
    assert_eq!(row_offset(3), 15);
    assert_eq!(row_offset(u32::MAX), u32::MAX as u64 * 5);
}

#[test]
fn output_name_replaces_extension() {
    assert_eq!(output_name("photo.jpg", "txt"), "photo.txt");
    assert_eq!(output_name("archive.tar.gz", "png"), "archive.tar.png");
    assert_eq!(output_name("noext", "txt"), "noext.txt");
    assert_eq!(output_name("trailing.", "txt"), "trailing.txt");
}

#[test]
fn output_name_edge_cases() {
    assert_eq!(output_name(".hidden", "txt"), ".hidden.txt");
    assert_eq!(output_name("", "txt"), "ascii.txt");
    assert_eq!(output_name("été.png", "txt"), "été.txt");
}
