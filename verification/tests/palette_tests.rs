use pixel_picker::palette::{PaletteColor, PaletteTable};

fn color(name: &str, rgb: (u8, u8, u8)) -> PaletteColor {
    PaletteColor { name: name.to_string(), rgb }
}

#[test]
fn build_palette_has_32_distinct_entries() {
    let table = PaletteTable::build();
    assert_eq!(table.len(), 32);
    for i in 0..table.len() {
        for j in 0..i {
            assert_ne!(table.color_at(i).rgb, table.color_at(j).rgb);
        }
    }
}

#[test]
fn build_palette_known_entries() {
    let table = PaletteTable::build();
    assert_eq!(table.color_at(0).name, "burgundy");
    assert_eq!(table.color_at(0).rgb, (109, 0, 26));
    assert_eq!(table.color_at(1).name, "dark red");
    assert_eq!(table.color_at(1).rgb, (190, 0, 57));
    assert_eq!(table.color_at(27).name, "black");
    assert_eq!(table.color_at(27).rgb, (0, 0, 0));
    assert_eq!(table.color_at(31).name, "white");
    assert_eq!(table.color_at(31).rgb, (255, 255, 255));
}

#[test]
fn index_of_round_trips_every_entry() {
    let table = PaletteTable::build();
    for i in 0..table.len() {
        let rgb = table.color_at(i).rgb;
        assert_eq!(table.index_of(rgb), Some(i));
    }
}

#[test]
fn index_of_unknown_color_is_none() {
    let table = PaletteTable::build();
    assert_eq!(table.index_of((1, 2, 3)), None);
}

#[test]
fn from_colors_accepts_distinct_colors() {
    let colors = vec![color("black", (0, 0, 0)), color("white", (255, 255, 255))];
    let table = PaletteTable::from_colors(colors).expect("distinct colors must be accepted");
    assert_eq!(table.len(), 2);
    assert_eq!(table.index_of((0, 0, 0)), Some(0));
    assert_eq!(table.index_of((255, 255, 255)), Some(1));
    assert_eq!(table.index_of((7, 7, 7)), None);
}

#[test]
fn from_colors_rejects_duplicate_colors() {
    let colors = vec![
        color("black", (0, 0, 0)),
        color("white", (255, 255, 255)),
        color("ink", (0, 0, 0)),
    ];
    assert!(PaletteTable::from_colors(colors).is_none());
}
