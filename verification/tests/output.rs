use launchy::launchpad_mini::output::{
    control_double_buffering, light, make_color_code, set_button, set_button_rapid,
};
use launchy::launchpad_mini::{
    Buffer, Button, Color, Command, DoubleBuffering, DoubleBufferingBehavior,
};

fn color(red: u8, green: u8) -> Color {
    Color::new(red, green).expect("levels up to 3")
}

#[test]
fn colors_have_four_levels() {
    for red in 0..=255u8 {
        for green in 0..=255u8 {
            match Color::new(red, green) {
                Some(made) => {
                    assert!(red < 4 && green < 4);
                    assert_eq!(made.red(), red);
                    assert_eq!(made.green(), green);
                }
                None => assert!(red >= 4 || green >= 4),
            }
        }
    }
    assert_eq!(Color::black(), color(0, 0));
    assert_ne!(color(1, 0), color(0, 1));
}

#[test]
fn color_code_packs_green_behavior_and_red() {
    assert_eq!(make_color_code(color(0, 0), DoubleBufferingBehavior::Keep), 0);
    assert_eq!(make_color_code(color(3, 0), DoubleBufferingBehavior::Keep), 3);
    assert_eq!(make_color_code(color(0, 3), DoubleBufferingBehavior::Keep), 48);
    assert_eq!(make_color_code(color(0, 0), DoubleBufferingBehavior::Copy), 4);
    assert_eq!(make_color_code(color(0, 0), DoubleBufferingBehavior::Clear), 8);
    assert_eq!(make_color_code(color(3, 3), DoubleBufferingBehavior::Copy), 55);
    assert_eq!(make_color_code(color(1, 2), DoubleBufferingBehavior::Clear), 41);
    for red in 0..4u8 {
        for green in 0..4u8 {
            assert_eq!(
                make_color_code(color(red, green), DoubleBufferingBehavior::Copy),
                (green << 4) | (1 << 2) | red
            );
        }
    }
}

#[test]
fn grid_buttons_are_set_by_note_on() {
    assert_eq!(
        set_button(Button::GridButton { x: 0, y: 0 }, color(3, 0), DoubleBufferingBehavior::Keep),
        Some(vec![0x90, 0, 3])
    );
    assert_eq!(
        set_button(Button::GridButton { x: 5, y: 2 }, color(1, 3), DoubleBufferingBehavior::Clear),
        Some(vec![0x90, 37, 57])
    );
    assert_eq!(light(Button::GridButton { x: 8, y: 7 }, color(0, 3)), Some(vec![0x90, 120, 52]));
}

#[test]
fn control_buttons_are_set_by_controller_change() {
    assert_eq!(light(Button::ControlButton { index: 0 }, color(3, 3)), Some(vec![0xB0, 104, 55]));
    assert_eq!(light(Button::ControlButton { index: 7 }, color(0, 0)), Some(vec![0xB0, 111, 4]));
}

#[test]
fn buttons_that_are_not_there_are_not_lit() {
    assert_eq!(light(Button::ControlButton { index: 8 }, color(1, 1)), None);
    assert_eq!(light(Button::ControlButton { index: 255 }, color(1, 1)), None);
    assert_eq!(light(Button::GridButton { x: 9, y: 0 }, color(1, 1)), None);
    assert_eq!(light(Button::GridButton { x: 0, y: 8 }, color(1, 1)), None);
    assert_eq!(light(Button::GridButton { x: 255, y: 255 }, color(1, 1)), None);
    assert_eq!(
        set_button(Button::GridButton { x: 0, y: 16 }, color(1, 1), DoubleBufferingBehavior::Keep),
        None
    );
}

#[test]
fn rapid_update_carries_two_colors() {
    assert_eq!(
        set_button_rapid(
            color(3, 0),
            DoubleBufferingBehavior::Copy,
            color(0, 3),
            DoubleBufferingBehavior::Copy
        ),
        vec![0x92, 7, 52]
    );
    assert_eq!(
        set_button_rapid(
            color(1, 1),
            DoubleBufferingBehavior::Keep,
            color(2, 2),
            DoubleBufferingBehavior::Clear
        ),
        vec![0x92, 17, 42]
    );
}

#[test]
fn commands_are_one_message_each() {
    let lit = Command::Light { button: Button::GridButton { x: 1, y: 1 }, color: color(2, 1) };
    assert_eq!(lit.encode(), Some(vec![0x90, 17, 22]));
    let pair = Command::Rapid { first: color(3, 3), second: color(0, 0) };
    assert_eq!(pair.encode(), Some(vec![0x92, 55, 4]));
    let nowhere = Command::Light { button: Button::ControlButton { index: 9 }, color: color(0, 0) };
    assert_eq!(nowhere.encode(), None);
}

#[test]
fn double_buffering_is_one_controller_change() {
    let state = |copy, flash, edited_buffer, displayed_buffer| DoubleBuffering {
        copy,
        flash,
        edited_buffer,
        displayed_buffer,
    };
    assert_eq!(
        control_double_buffering(state(false, false, Buffer::A, Buffer::A)),
        vec![0xB0, 0, 32]
    );
    assert_eq!(
        control_double_buffering(state(false, false, Buffer::A, Buffer::B)),
        vec![0xB0, 0, 33]
    );
    assert_eq!(
        control_double_buffering(state(false, false, Buffer::B, Buffer::A)),
        vec![0xB0, 0, 36]
    );
    assert_eq!(
        control_double_buffering(state(false, true, Buffer::A, Buffer::A)),
        vec![0xB0, 0, 40]
    );
    assert_eq!(
        control_double_buffering(state(true, false, Buffer::A, Buffer::A)),
        vec![0xB0, 0, 48]
    );
    assert_eq!(
        control_double_buffering(state(true, true, Buffer::B, Buffer::B)),
        vec![0xB0, 0, 61]
    );
}
