use launchy::generic;
use launchy::launchpad_mini::Spec;
use launchy::launchpad_mk2;
use launchy::protocols::Button80;

#[test]
fn generic_grid_round_trips_through_the_wire() {
    for y in 0..=255u8 {
        for x in 0..=255u8 {
            let wire = generic::geometry::grid_to_wire(x, y);
            if x <= 8 && y <= 7 {
                assert!(generic::geometry::is_valid(x, y));
                let wire = wire.expect("a button of the grid has a note");
                assert_eq!(wire, y * 16 + x);
                assert_eq!(generic::geometry::wire_to_grid(wire), Some((x, y)));
            } else {
                assert!(!generic::geometry::is_valid(x, y));
                assert_eq!(wire, None);
            }
        }
    }
}

#[test]
fn generic_wire_round_trips_through_the_grid() {
    let mut notes_of_buttons = 0;
    for wire in 0..=255u8 {
        match generic::geometry::wire_to_grid(wire) {
            Some((x, y)) => {
                notes_of_buttons += 1;
                assert_eq!(generic::geometry::grid_to_wire(x, y), Some(wire));
            }
            None => assert!(wire % 16 > 8 || wire / 16 > 7),
        }
    }
    assert_eq!(notes_of_buttons, 72);
}

#[test]
fn generic_wire_numbers_rows_by_sixteen() {
    assert_eq!(generic::geometry::grid_to_wire(0, 0), Some(0));
    assert_eq!(generic::geometry::grid_to_wire(8, 0), Some(8));
    assert_eq!(generic::geometry::grid_to_wire(3, 2), Some(35));
    assert_eq!(generic::geometry::grid_to_wire(8, 7), Some(120));
    assert_eq!(generic::geometry::grid_to_wire(9, 0), None);
    assert_eq!(generic::geometry::grid_to_wire(0, 8), None);
    assert_eq!(generic::geometry::wire_to_grid(0x23), Some((3, 2)));
    assert_eq!(generic::geometry::wire_to_grid(9), None);
    assert_eq!(generic::geometry::wire_to_grid(128), None);
}

#[test]
fn mk2_grid_round_trips_through_the_wire() {
    for y in 0..=255u8 {
        for x in 0..=255u8 {
            let wire = launchpad_mk2::geometry::grid_to_wire(x, y);
            if x <= 8 && y <= 7 {
                assert!(launchpad_mk2::geometry::is_valid(x, y));
                let wire = wire.expect("a button of the grid has a note");
                assert_eq!(wire, (8 - y) * 10 + x + 1);
                assert_eq!(launchpad_mk2::geometry::wire_to_grid(wire), Some((x, y)));
            } else {
                assert!(!launchpad_mk2::geometry::is_valid(x, y));
                assert_eq!(wire, None);
            }
        }
    }
}

#[test]
fn mk2_wire_round_trips_through_the_grid() {
    let mut notes_of_buttons = 0;
    for wire in 0..=255u8 {
        match launchpad_mk2::geometry::wire_to_grid(wire) {
            Some((x, y)) => {
                notes_of_buttons += 1;
                assert_eq!(launchpad_mk2::geometry::grid_to_wire(x, y), Some(wire));
            }
            None => assert!(wire % 10 == 0 || wire < 10 || wire >= 90),
        }
    }
    assert_eq!(notes_of_buttons, 72);
}

#[test]
fn mk2_wire_numbers_rows_in_decimal_from_the_bottom() {
    assert_eq!(launchpad_mk2::geometry::grid_to_wire(0, 0), Some(81));
    assert_eq!(launchpad_mk2::geometry::grid_to_wire(8, 0), Some(89));
    assert_eq!(launchpad_mk2::geometry::grid_to_wire(0, 7), Some(11));
    assert_eq!(launchpad_mk2::geometry::grid_to_wire(8, 7), Some(19));
    assert_eq!(launchpad_mk2::geometry::grid_to_wire(4, 3), Some(55));
    assert_eq!(launchpad_mk2::geometry::wire_to_grid(55), Some((4, 3)));
    assert_eq!(launchpad_mk2::geometry::wire_to_grid(10), None);
    assert_eq!(launchpad_mk2::geometry::wire_to_grid(20), None);
    assert_eq!(launchpad_mk2::geometry::wire_to_grid(9), None);
    assert_eq!(launchpad_mk2::geometry::wire_to_grid(90), None);
    assert_eq!(launchpad_mk2::geometry::wire_to_grid(0), None);
}

#[test]
fn canvas_is_a_square_without_its_upper_right_corner() {
    assert_eq!(Spec::BOUNDING_BOX_WIDTH, 9);
    assert_eq!(Spec::BOUNDING_BOX_HEIGHT, 9);
    assert_eq!(Spec::COLOR_PRECISION, 4);
    let mut cells = 0;
    for y in 0..12u32 {
        for x in 0..12u32 {
            let expected = x <= 8 && y <= 8 && !(x == 8 && y == 0);
            assert_eq!(Spec::is_valid(x, y), expected);
            if expected {
                cells += 1;
            }
        }
    }
    assert_eq!(cells, 80);
    assert!(!Spec::is_valid(8, 0));
    assert!(Spec::is_valid(7, 0));
    assert!(Spec::is_valid(8, 1));
    assert!(!Spec::is_valid(u32::MAX, 0));
    assert!(!Spec::is_valid(0, u32::MAX));
}

#[test]
fn buttons_and_positions_of_the_square_are_one_to_one() {
    for y in 0..=255u8 {
        for x in 0..=255u8 {
            let button = Button80::from_abs(x, y);
            if Spec::is_valid(x as u32, y as u32) {
                let button = button.expect("a cell of the canvas has a button");
                assert!(button.is_valid());
                assert_eq!(button.abs_x(), x);
                assert_eq!(button.abs_y(), y);
            } else {
                assert_eq!(button, None);
            }
        }
    }
    assert_eq!(Button80::from_abs(3, 0), Some(Button80::ControlButton { index: 3 }));
    assert_eq!(Button80::from_abs(3, 1), Some(Button80::GridButton { x: 3, y: 0 }));
    assert_eq!(Button80::from_abs(8, 8), Some(Button80::GridButton { x: 8, y: 7 }));
    assert!(!Button80::ControlButton { index: 8 }.is_valid());
    assert!(!Button80::GridButton { x: 9, y: 0 }.is_valid());
    assert!(!Button80::GridButton { x: 0, y: 8 }.is_valid());
}
