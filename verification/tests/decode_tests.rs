use pixel_picker::image::{cells_from_frame, load_image_cells, DecodeError, RawFrame};
use pixel_picker::palette::{PaletteColor, PaletteTable};

fn encode_png(width: u32, height: u32, color: png::ColorType, pixels: &[u8]) -> Vec<u8> {
    let mut out: Vec<u8> = Vec::new();
    {
        let mut encoder = png::Encoder::new(&mut out, width, height);
        encoder.set_color(color);
        encoder.set_depth(png::BitDepth::Eight);
        let mut writer = encoder.write_header().expect("header");
        writer.write_image_data(pixels).expect("image data");
    }
    out
}

fn rgba_pixels(rgbs: &[(u8, u8, u8)]) -> Vec<u8> {
    let mut data: Vec<u8> = Vec::new();
    for &(r, g, b) in rgbs {
        data.extend_from_slice(&[r, g, b, 255]);
    }
    data
}

#[test]
fn decode_succeeds_when_every_pixel_is_in_the_palette() {
    let table = PaletteTable::build();
    let mut rgbs: Vec<(u8, u8, u8)> = Vec::new();
    for i in 0..12 {
        rgbs.push(table.color_at((i * 3) % table.len()).rgb);
    }
    let bytes = encode_png(4, 3, png::ColorType::Rgba, &rgba_pixels(&rgbs));
    let grid = load_image_cells(&bytes, &table).expect("decode must succeed");
    assert_eq!(grid.width, 4);
    assert_eq!(grid.height, 3);
    assert_eq!(grid.cells.len(), 12);
    for (i, &cell) in grid.cells.iter().enumerate() {
        assert!((cell as usize) < table.len());
        assert_eq!(table.color_at(cell as usize).rgb, rgbs[i]);
        assert_eq!(cell as usize, (i * 3) % table.len());
    }
}

#[test]
fn decode_rejects_unknown_color() {
    let table = PaletteTable::build();
    let rgbs = [(0, 0, 0), (1, 2, 3)];
    let bytes = encode_png(2, 1, png::ColorType::Rgba, &rgba_pixels(&rgbs));
    let err = load_image_cells(&bytes, &table).expect_err("unknown color must fail");
    assert_eq!(err, DecodeError::PaletteLookup { flat_index: 1, rgb: (1, 2, 3) });
}

#[test]
fn decode_rejects_non_rgba_layout() {
    let table = PaletteTable::build();
    let bytes = encode_png(2, 1, png::ColorType::Rgb, &[0, 0, 0, 255, 255, 255]);
    let err = load_image_cells(&bytes, &table).expect_err("RGB layout must fail");
    assert_eq!(err, DecodeError::UnsupportedChannelLayout);
}

#[test]
fn decode_rejects_malformed_container() {
    let table = PaletteTable::build();
    let err = load_image_cells(&[1, 2, 3, 4, 5], &table).expect_err("garbage must fail");
    assert_eq!(err, DecodeError::MalformedImage);
}

#[test]
fn decode_rejects_truncated_pixel_buffer() {
    let table = PaletteTable::build();
    let frame = RawFrame {
        width: 2,
        height: 2,
        color_code: 6,
        bit_depth: 8,
        data: vec![0, 0, 0, 255],
    };
    let err = cells_from_frame(&frame, &table).expect_err("short buffer must fail");
    assert_eq!(err, DecodeError::TruncatedPixelBuffer);
}

#[test]
fn decode_black_white_scenario() {
    let colors = vec![
        PaletteColor { name: "black".to_string(), rgb: (0, 0, 0) },
        PaletteColor { name: "white".to_string(), rgb: (255, 255, 255) },
    ];
    let table = PaletteTable::from_colors(colors).expect("distinct");
    let bytes = encode_png(
        2,
        1,
        png::ColorType::Rgba,
        &rgba_pixels(&[(0, 0, 0), (255, 255, 255)]),
    );
    let grid = load_image_cells(&bytes, &table).expect("decode must succeed");
    assert_eq!(grid.cells, vec![0u8, 1u8]);
}
