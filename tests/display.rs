use chip8::display::{Chip8Display, DisplayError, PixelLocation, COLUMNS, PIXEL_COUNT, ROWS};

#[test]
fn set_pixel_in_bounds_updates_display_state() {
    let mut d = Chip8Display::new();

    let origin = PixelLocation { x: 0, y: 0 };

    assert_eq!(d.get_state()[origin.to_array_index()], false);
    assert_eq!(d.set_pixel(origin, true), Ok(()));
    assert_eq!(d.get_state()[origin.to_array_index()], true);

    let middle_of_screen = PixelLocation { x: 54, y: 28 };

    assert_eq!(d.get_state()[middle_of_screen.to_array_index()], false);
    assert_eq!(d.set_pixel(middle_of_screen, true), Ok(()));
    assert_eq!(d.get_state()[middle_of_screen.to_array_index()], true);
}

#[test]
fn set_pixel_out_of_bounds_wraps_to_in_bounds() {
    let mut d = Chip8Display::new();

    let oob_1 = PixelLocation { x: 129, y: 64 };

    assert_eq!(oob_1.to_array_index(), 1);

    assert_eq!(d.get_state()[oob_1.to_array_index()], false);
    assert_eq!(d.pixel_at_location(oob_1), false);
    assert_eq!(d.set_pixel(oob_1, true), Ok(()));
    assert_eq!(d.get_state()[oob_1.to_array_index()], true);
    assert_eq!(d.pixel_at_location(oob_1), true);

    let oob_2 = PixelLocation { x: 129, y: 66 };

    assert_eq!(oob_2.to_array_index(), 129);

    assert_eq!(d.get_state()[oob_2.to_array_index()], false);
    assert_eq!(d.pixel_at_location(oob_2), false);
    assert_eq!(d.set_pixel(oob_2, true), Ok(()));
    assert_eq!(d.get_state()[oob_2.to_array_index()], true);
    assert_eq!(d.pixel_at_location(oob_2), true);
}

#[test]
fn index_wraps_to_remainders() {
    let samples: Vec<(usize, usize)> = vec![(0, 0), (64, 0), (63, 31), (64, 32), (129, 66), (1000, 777), (usize::MAX, usize::MAX)];
    for (x, y) in samples {
        let full = PixelLocation { x, y }.to_array_index();
        let wrapped = PixelLocation { x: x % COLUMNS, y: y % ROWS }.to_array_index();
        assert_eq!(full, wrapped);
    }
    assert_eq!(PixelLocation { x: 64, y: 0 }.to_array_index(), 0);
    assert_eq!(PixelLocation { x: 63, y: 31 }.to_array_index(), 2047);
    assert_eq!(PixelLocation { x: 1000, y: 777 }.to_array_index(), 40 + 9 * 64);
}

#[test]
fn index_is_a_bijection_within_one_period() {
    let mut seen = vec![false; PIXEL_COUNT];
    for y in 0..ROWS {
        for x in 0..COLUMNS {
            let i = PixelLocation { x, y }.to_array_index();
            assert!(i < PIXEL_COUNT);
            assert!(!seen[i]);
            seen[i] = true;
        }
    }
    assert!(seen.iter().all(|b| *b));
}

#[test]
fn write_then_read_gives_written_value() {
    let mut d = Chip8Display::new();
    let coords = vec![(0usize, 0usize), (54, 28), (129, 64), (129, 66), (usize::MAX, 12345)];
    for (x, y) in coords {
        let c = PixelLocation { x, y };
        assert_eq!(d.set_pixel(c, true), Ok(()));
        assert!(d.pixel_at_location(c));
        assert_eq!(d.set_pixel(c, false), Ok(()));
        assert!(!d.pixel_at_location(c));
    }
}

#[test]
fn write_leaves_other_cells_unchanged() {
    let mut d = Chip8Display::new();
    assert_eq!(d.set_pixel(PixelLocation { x: 0, y: 0 }, true), Ok(()));
    let state = d.get_state();
    assert_eq!(state.len(), PIXEL_COUNT);
    assert!(state[0]);
    assert_eq!(state.iter().filter(|b| **b).count(), 1);
}

#[test]
fn new_display_is_all_off() {
    let d = Chip8Display::new();
    assert_eq!(d.get_state().len(), PIXEL_COUNT);
    assert!(d.get_state().iter().all(|b| !*b));
    assert!(!d.pixel_at_location(PixelLocation { x: 0, y: 0 }));
    for y in 0..ROWS {
        for x in 0..COLUMNS {
            assert!(!d.pixel_at_location(PixelLocation { x, y }));
        }
    }
}

#[test]
fn bulk_change_through_mutable_state() {
    let mut d = Chip8Display::new();
    d.get_state_mut()[2 * COLUMNS + 5] = true;
    assert!(d.pixel_at_location(PixelLocation { x: 5, y: 2 }));
    assert!(d.pixel_at_location(PixelLocation { x: 69, y: 34 }));
    assert!(!d.pixel_at_location(PixelLocation { x: 5, y: 3 }));
}

#[test]
fn render_of_blank_grid_is_spaces() {
    let d = Chip8Display::new();
    let text = d.render_text();
    let line = format!("{}\n", " ".repeat(2 * COLUMNS));
    assert_eq!(text, line.repeat(ROWS));
    assert_eq!(text.chars().count(), ROWS * (2 * COLUMNS + 1));
}

#[test]
fn render_shows_on_cells() {
    let mut d = Chip8Display::new();
    assert_eq!(d.set_pixel(PixelLocation { x: 0, y: 0 }, true), Ok(()));
    assert_eq!(d.set_pixel(PixelLocation { x: 2, y: 1 }, true), Ok(()));
    let text = d.render_text();
    let lines: Vec<&str> = text.lines().collect();
    assert_eq!(lines.len(), ROWS);
    assert_eq!(lines[0], format!("\u{25A0} {}", " ".repeat(2 * COLUMNS - 2)));
    assert_eq!(lines[1], format!("    \u{25A0} {}", " ".repeat(2 * COLUMNS - 6)));
    assert_eq!(lines[2], " ".repeat(2 * COLUMNS));
    assert!(text.ends_with('\n'));
}

#[test]
fn render_twice_gives_same_text() {
    let mut d = Chip8Display::new();
    assert_eq!(d.set_pixel(PixelLocation { x: 12, y: 12 }, true), Ok(()));
    let first = d.render_text();
    let second = d.render_text();
    assert_eq!(first, second);
}

#[test]
fn display_error_is_never_returned() {
    let mut d = Chip8Display::new();
    let r = d.set_pixel(PixelLocation { x: usize::MAX, y: usize::MAX }, true);
    assert_ne!(r, Err(DisplayError::Reserved));
    assert!(r.is_ok());
}
