use ht16k33::LedLocation;
use wb_notifier::bargraph::{
    driver_level, led_cells, set_dimming, set_led, set_led_no, Cell, Error, Panel,
};
use wb_notifier::proto::{LedColor, SetDimming};

#[test]
fn led_to_cell_mapping() {
    let table: [(u8, (u8, u8, u8, u8)); 7] = [
        (0, (0, 0, 8, 0)),
        (4, (0, 1, 8, 1)),
        (8, (0, 2, 8, 2)),
        (12, (4, 0, 12, 0)),
        (16, (4, 1, 12, 1)),
        (20, (4, 2, 12, 2)),
        (23, (7, 2, 15, 2)),
    ];
    for (num, (red_row, red_col, green_row, green_col)) in table {
        let (red, green) = led_cells(num).unwrap();
        assert_eq!(red, Cell { row: red_row, col: red_col });
        assert_eq!(green, Cell { row: green_row, col: green_col });
    }
}

#[test]
fn every_led_has_cells_of_its_own() {
    let mut seen: Vec<Cell> = Vec::new();
    for num in 0..24u8 {
        let (red, green) = led_cells(num).unwrap();
        assert_eq!(red.row, num % 4 + if num >= 12 { 4 } else { 0 });
        assert_eq!(red.col, (num / 4) % 3);
        assert_eq!(green, Cell { row: red.row + 8, col: red.col });
        assert!(!seen.contains(&red));
        seen.push(red);
        assert!(!seen.contains(&green));
        seen.push(green);
    }
    assert_eq!(seen.len(), 48);
}

#[test]
fn led_out_of_range() {
    for num in 24..=255u8 {
        assert_eq!(led_cells(num), Err(Error::OutOfRange));
        assert_eq!(set_led_no(num, LedColor::Red), Err(Error::OutOfRange));
    }
}

fn plain(num: u8, color: LedColor) -> Vec<(u8, u8, bool)> {
    set_led_no(num, color)
        .unwrap()
        .into_iter()
        .map(|u| (u.cell.row, u.cell.col, u.enabled))
        .collect()
}

#[test]
fn colors_choose_the_cells() {
    // LED 13: red cell (5, 0), green cell (13, 0).
    assert_eq!(plain(13, LedColor::Off), vec![(5, 0, false), (13, 0, false)]);
    assert_eq!(plain(13, LedColor::Red), vec![(5, 0, false), (13, 0, false), (5, 0, true)]);
    assert_eq!(plain(13, LedColor::Green), vec![(5, 0, false), (13, 0, false), (13, 0, true)]);
    assert_eq!(
        plain(13, LedColor::Yellow),
        vec![(5, 0, false), (13, 0, false), (5, 0, true), (13, 0, true)]
    );
}

#[test]
fn updates_carry_the_drivers_location() {
    for num in 0..24u8 {
        for u in set_led_no(num, LedColor::Yellow).unwrap() {
            assert_eq!(u.location, LedLocation::new(u.cell.row, u.cell.col).unwrap());
        }
    }
}

#[test]
fn single_cell_range() {
    for row in 0..=255u8 {
        for col in 0..=255u8 {
            let r = set_led(row, col, true);
            if row < 16 && col < 8 {
                let u = r.unwrap();
                assert_eq!(u.cell, Cell { row, col });
                assert!(u.enabled);
                assert_eq!(u.location, LedLocation::new(row, col).unwrap());
            } else {
                assert_eq!(r, Err(Error::OutOfRange));
            }
        }
    }
    assert!(!set_led(3, 3, false).unwrap().enabled);
}

#[test]
fn dimming_levels() {
    assert_eq!(set_dimming(SetDimming::Hi), 16);
    assert_eq!(set_dimming(SetDimming::Lo), 3);
}

#[test]
fn error_texts() {
    assert_eq!(Error::Hal.message(), "HAL error");
    assert_eq!(Error::OutOfRange.message(), "LED out of range");
}

#[test]
fn driver_levels() {
    assert_eq!(driver_level(0), None);
    assert_eq!(driver_level(1), Some(0));
    assert_eq!(driver_level(3), Some(2));
    assert_eq!(driver_level(16), Some(15));
    assert_eq!(driver_level(17), None);
    assert_eq!(driver_level(set_dimming(SetDimming::Lo)), Some(2));
    assert_eq!(driver_level(set_dimming(SetDimming::Hi)), Some(15));
}

#[test]
fn new_panel_is_dark() {
    let panel = Panel::new();
    for num in 0..24u8 {
        assert_eq!(panel.color(num), Some(LedColor::Off));
    }
    assert_eq!(panel.color(24), None);
    assert!(!panel.is_lit(Cell { row: 0, col: 0 }));
    assert!(!panel.is_lit(Cell { row: 16, col: 0 }));
}

#[test]
fn painting_an_led_leaves_the_others() {
    let colors = [LedColor::Off, LedColor::Green, LedColor::Red, LedColor::Yellow];
    let mut panel = Panel::new();
    let mut expected = [LedColor::Off; 24];
    // Every LED in every color, over whatever the panel showed before.
    for round in 0..4usize {
        for num in 0..24u8 {
            let color = colors[(num as usize + round) % 4];
            panel.apply(&set_led_no(num, color).unwrap());
            expected[num as usize] = color;
            for other in 0..24u8 {
                assert_eq!(panel.color(other), Some(expected[other as usize]));
            }
        }
    }
}

#[test]
fn yellow_lights_both_cells() {
    let mut panel = Panel::new();
    panel.apply(&set_led_no(23, LedColor::Yellow).unwrap());
    assert!(panel.is_lit(Cell { row: 7, col: 2 }));
    assert!(panel.is_lit(Cell { row: 15, col: 2 }));
    panel.apply(&set_led_no(23, LedColor::Off).unwrap());
    assert!(!panel.is_lit(Cell { row: 7, col: 2 }));
    assert!(!panel.is_lit(Cell { row: 15, col: 2 }));
}

#[test]
fn panel_cells() {
    let mut panel = Panel::new();
    panel.set(Cell { row: 15, col: 7 }, true);
    panel.set(Cell { row: 16, col: 0 }, true);
    panel.set(Cell { row: 0, col: 8 }, true);
    assert!(panel.is_lit(Cell { row: 15, col: 7 }));
    assert!(!panel.is_lit(Cell { row: 16, col: 0 }));
    assert!(!panel.is_lit(Cell { row: 0, col: 8 }));
    assert!(!panel.is_lit(Cell { row: 1, col: 0 }));
    panel.clear_all();
    assert!(!panel.is_lit(Cell { row: 15, col: 7 }));
}
