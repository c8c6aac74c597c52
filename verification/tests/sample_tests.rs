use pixel_picker::context::PickerContext;
use pixel_picker::image::{load_image_cells, PixelGrid};
use pixel_picker::palette::{PaletteColor, PaletteTable};
use pixel_picker::sample::{pick_pixel, selection_at, EmptyGridError};

fn encode_rgba_png(width: u32, height: u32, rgbs: &[(u8, u8, u8)]) -> Vec<u8> {
    let mut data: Vec<u8> = Vec::new();
    for &(r, g, b) in rgbs {
        data.extend_from_slice(&[r, g, b, 255]);
    }
    let mut out: Vec<u8> = Vec::new();
    {
        let mut encoder = png::Encoder::new(&mut out, width, height);
        encoder.set_color(png::ColorType::Rgba);
        encoder.set_depth(png::BitDepth::Eight);
        let mut writer = encoder.write_header().expect("header");
        writer.write_image_data(&data).expect("image data");
    }
    out
}

#[test]
fn coordinate_derivation_uses_width_then_height() {
    let table = PaletteTable::build();
    let grid = PixelGrid { width: 4, height: 3, cells: vec![0u8; 12] };
    let sel = selection_at(&grid, &table, 7, 10, 20);
    assert_eq!(sel.flat_index, 7);
    assert_eq!(sel.x, 7 % 4 + 10);
    assert_eq!(sel.y, 7 / 3 + 20);

    let sel = selection_at(&grid, &table, 5, 0, 0);
    assert_eq!(sel.x, 1);
    assert_eq!(sel.y, 1);
}

#[test]
fn sampling_excludes_index_zero_and_stays_in_range() {
    let table = PaletteTable::build();
    let black = table.color_at(27).rgb;
    let rgbs = vec![black; 10];
    let bytes = encode_rgba_png(5, 2, &rgbs);
    let grid = load_image_cells(&bytes, &table).expect("decode");
    let mut counts = [0usize; 10];
    for _ in 0..10_000 {
        let sel = pick_pixel(&grid, &table, 0, 0).expect("non-empty grid");
        assert!(sel.flat_index >= 1);
        assert!(sel.flat_index < 10);
        counts[sel.flat_index] += 1;
    }
    assert_eq!(counts[0], 0);
    // 9 legal indices, about 1111 draws each; allow a generous band.
    for &count in counts.iter().skip(1) {
        assert!(count > 600, "count {} too low for a uniform draw", count);
        assert!(count < 1700, "count {} too high for a uniform draw", count);
    }
}

#[test]
fn single_cell_grid_fails_with_empty_grid_error() {
    let table = PaletteTable::build();
    let bytes = encode_rgba_png(1, 1, &[(0, 0, 0)]);
    let ctx = PickerContext::new(table, &bytes).expect("decode");
    assert_eq!(ctx.cell_count(), 1);
    let err = ctx.pick(0, 0).expect_err("a single-cell grid leaves no legal index");
    assert_eq!(err, EmptyGridError);
}

#[test]
fn two_cell_scenario_always_picks_white() {
    let colors = vec![
        PaletteColor { name: "black".to_string(), rgb: (0, 0, 0) },
        PaletteColor { name: "white".to_string(), rgb: (255, 255, 255) },
    ];
    let table = PaletteTable::from_colors(colors).expect("distinct");
    let bytes = encode_rgba_png(2, 1, &[(0, 0, 0), (255, 255, 255)]);
    let ctx = PickerContext::new(table, &bytes).expect("decode");
    for _ in 0..100 {
        let sel = ctx.pick(0, 0).expect("two cells leave one legal index");
        assert_eq!(sel.flat_index, 1);
        assert_eq!(sel.x, 1 % 2);
        assert_eq!(sel.y, 1 / 1);
        assert_eq!(sel.color.name, "white");
        assert_eq!(sel.color.rgb, (255, 255, 255));
    }
}

#[test]
fn pick_adds_display_offsets() {
    let table = PaletteTable::build();
    let black = table.color_at(27).rgb;
    let bytes = encode_rgba_png(3, 2, &[black; 6]);
    let ctx = PickerContext::new(table, &bytes).expect("decode");
    for _ in 0..200 {
        let sel = ctx.pick(879, 1898).expect("non-empty grid");
        assert_eq!(sel.x, sel.flat_index % 3 + 879);
        assert_eq!(sel.y, sel.flat_index / 2 + 1898);
        assert_eq!(sel.color.name, "black");
    }
}
