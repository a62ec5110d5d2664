use launchy::generic::input::decode_short_message;
use launchy::launchpad_mini::output::light;
use launchy::launchpad_mini::{
    Button, Canvas, Color, Command, DeviceDisplayMode, Message, Spec,
};
use launchy::{CanvasMessage, FlushError, InvalidCoordinate, OutputDevice, TransportError};

/// A connection that keeps what it is sent and fails at one chosen call.
struct Recorder {
    sent: Vec<Vec<u8>>,
    calls: usize,
    fails_at_call: Option<usize>,
}

impl Recorder {
    fn sound() -> Recorder {
        Recorder { sent: Vec::new(), calls: 0, fails_at_call: None }
    }

    fn failing_at(call: usize) -> Recorder {
        Recorder { sent: Vec::new(), calls: 0, fails_at_call: Some(call) }
    }
}

impl OutputDevice for Recorder {
    fn send(&mut self, bytes: &[u8]) -> Result<(), TransportError> {
        self.calls += 1;
        if self.fails_at_call == Some(self.calls) {
            return Err(TransportError { reason: format!("call {} failed", self.calls) });
        }
        self.sent.push(bytes.to_vec());
        Ok(())
    }
}

fn level(red: u8, green: u8) -> Color {
    Color::new(red, green).expect("levels up to 3")
}

fn code(color: Color) -> u8 {
    color.green() * 16 + 4 + color.red()
}

/// The cells of the canvas, row after row.
fn cells() -> Vec<(u32, u32)> {
    let mut all = Vec::new();
    for y in 0..9u32 {
        for x in 0..9u32 {
            if !(x == 8 && y == 0) {
                all.push((x, y));
            }
        }
    }
    all
}

/// A color for each cell, no two neighbours in a sweep alike, none black.
fn paint(x: u32, y: u32) -> Color {
    level(1 + ((x + y) % 3) as u8, ((x * 2 + y) % 4) as u8)
}

/// The messages of a sweep over a canvas whose every cell wants `paint`
/// where `wanted` says so and black elsewhere.
fn sweep_of(wanted: &dyn Fn(u32, u32) -> Color) -> Vec<Vec<u8>> {
    let mut messages = Vec::new();
    for y in 1..=8u32 {
        for x in (0..=7u32).step_by(2) {
            messages.push(vec![0x92, code(wanted(x, y)), code(wanted(x + 1, y))]);
        }
    }
    for y in (1..=8u32).step_by(2) {
        messages.push(vec![0x92, code(wanted(8, y)), code(wanted(8, y + 1))]);
    }
    for x in (0..=7u32).step_by(2) {
        messages.push(vec![0x92, code(wanted(x, 0)), code(wanted(x + 1, 0))]);
    }
    messages.push(vec![0xB0, 104, code(wanted(0, 0))]);
    messages
}

#[test]
fn new_canvas_is_black_and_in_step_with_the_device() {
    let canvas = Canvas::new();
    for (x, y) in cells() {
        assert_eq!(canvas.get(x, y), Ok(Color::black()));
        assert_eq!(canvas.get_pending(x, y), Ok(Color::black()));
    }
    assert_eq!(canvas.mode(), DeviceDisplayMode::Normal);
    assert!(canvas.changes().is_empty());
    assert!(canvas.plan().is_empty());
}

#[test]
fn set_writes_what_is_wanted_and_leaves_what_is_shown() {
    let mut canvas = Canvas::new();
    assert_eq!(canvas.set(2, 3, level(3, 1)), Ok(()));
    assert_eq!(canvas.get_pending(2, 3), Ok(level(3, 1)));
    assert_eq!(canvas.get(2, 3), Ok(Color::black()));
    for (x, y) in cells() {
        if (x, y) != (2, 3) {
            assert_eq!(canvas.get_pending(x, y), Ok(Color::black()));
        }
    }
    assert_eq!(canvas.changes(), vec![(2, 3, level(3, 1))]);
}

#[test]
fn positions_outside_the_canvas_are_reported() {
    let mut canvas = Canvas::new();
    for (x, y) in [(8u32, 0u32), (9, 0), (0, 9), (9, 9), (u32::MAX, 3), (3, u32::MAX)] {
        assert_eq!(canvas.set(x, y, level(1, 1)), Err(InvalidCoordinate { x, y }));
        assert_eq!(canvas.get(x, y), Err(InvalidCoordinate { x, y }));
        assert_eq!(canvas.get_pending(x, y), Err(InvalidCoordinate { x, y }));
    }
    assert!(canvas.changes().is_empty());
    let mut wire = Recorder::sound();
    assert_eq!(canvas.flush(&mut wire), Ok(()));
    assert!(wire.sent.is_empty());
}

#[test]
fn changes_come_row_after_row() {
    let mut canvas = Canvas::new();
    canvas.set(5, 8, level(1, 0)).unwrap();
    canvas.set(0, 0, level(2, 0)).unwrap();
    canvas.set(8, 1, level(3, 0)).unwrap();
    canvas.set(0, 1, level(0, 1)).unwrap();
    canvas.set(7, 0, level(0, 2)).unwrap();
    assert_eq!(
        canvas.changes(),
        vec![
            (0, 0, level(2, 0)),
            (7, 0, level(0, 2)),
            (0, 1, level(0, 1)),
            (8, 1, level(3, 0)),
            (5, 8, level(1, 0)),
        ]
    );
}

#[test]
fn one_changed_cell_is_one_light_command() {
    let mut canvas = Canvas::new();
    canvas.set(3, 4, level(3, 0)).unwrap();
    assert_eq!(
        canvas.plan(),
        vec![Command::Light { button: Button::GridButton { x: 3, y: 3 }, color: level(3, 0) }]
    );
    let mut wire = Recorder::sound();
    assert_eq!(Spec::flush(&mut canvas, &mut wire), Ok(()));
    assert_eq!(wire.sent, vec![vec![0x90, 51, 7]]);
    assert_eq!(canvas.get(3, 4), Ok(level(3, 0)));
}

#[test]
fn one_changed_control_button_is_one_controller_change() {
    let mut canvas = Canvas::new();
    canvas.set(6, 0, level(0, 3)).unwrap();
    let mut wire = Recorder::sound();
    assert_eq!(canvas.flush(&mut wire), Ok(()));
    assert_eq!(wire.sent, vec![vec![0xB0, 110, 52]]);
}

#[test]
fn sixty_changed_cells_are_one_sweep_and_its_end() {
    let mut canvas = Canvas::new();
    let grid: Vec<(u32, u32)> =
        cells().into_iter().filter(|&(x, y)| x <= 7 && y >= 1).collect();
    assert_eq!(grid.len(), 64);
    let changed: Vec<(u32, u32)> = grid.iter().copied().take(60).collect();
    for &(x, y) in &changed {
        canvas.set(x, y, paint(x, y)).unwrap();
    }
    assert_eq!(canvas.changes().len(), 60);
    let wanted = |x: u32, y: u32| {
        if changed.contains(&(x, y)) {
            paint(x, y)
        } else {
            Color::black()
        }
    };
    let plan = canvas.plan();
    assert_eq!(plan.len(), 41);
    for (pair, command) in plan[..32].iter().enumerate() {
        let (x, y) = grid[2 * pair];
        let (next_x, next_y) = grid[2 * pair + 1];
        assert_eq!(
            *command,
            Command::Rapid { first: wanted(x, y), second: wanted(next_x, next_y) }
        );
    }
    for command in &plan[32..40] {
        assert_eq!(*command, Command::Rapid { first: Color::black(), second: Color::black() });
    }
    assert_eq!(
        plan[40],
        Command::Light { button: Button::ControlButton { index: 0 }, color: Color::black() }
    );
    let mut wire = Recorder::sound();
    assert_eq!(canvas.flush(&mut wire), Ok(()));
    assert_eq!(wire.sent, sweep_of(&wanted));
    for (x, y) in cells() {
        assert_eq!(canvas.get(x, y), Ok(wanted(x, y)));
    }
    assert_eq!(canvas.mode(), DeviceDisplayMode::Normal);
}

#[test]
fn forty_changes_go_out_one_by_one_and_forty_one_as_a_sweep() {
    let mut canvas = Canvas::new();
    let all = cells();
    for &(x, y) in &all[..40] {
        canvas.set(x, y, level(1, 1)).unwrap();
    }
    let plan = canvas.plan();
    assert_eq!(plan.len(), 40);
    for (command, &(x, y)) in plan.iter().zip(&all[..40]) {
        let button = Button::from_abs(x as u8, y as u8).unwrap();
        assert_eq!(*command, Command::Light { button, color: level(1, 1) });
    }
    let (x, y) = all[40];
    canvas.set(x, y, level(1, 1)).unwrap();
    let plan = canvas.plan();
    assert_eq!(plan.len(), 41);
    assert!(matches!(plan[0], Command::Rapid { .. }));
    assert!(matches!(plan[39], Command::Rapid { .. }));
    assert!(matches!(plan[40], Command::Light { .. }));
}

#[test]
fn a_sweep_takes_the_cells_in_the_order_of_the_device() {
    let mut canvas = Canvas::new();
    for (x, y) in cells() {
        canvas.set(x, y, paint(x, y)).unwrap();
    }
    let mut wire = Recorder::sound();
    assert_eq!(canvas.flush(&mut wire), Ok(()));
    assert_eq!(wire.sent.len(), 41);
    assert_eq!(wire.sent, sweep_of(&paint));
    assert_eq!(wire.sent[0], vec![0x92, code(paint(0, 1)), code(paint(1, 1))]);
    assert_eq!(wire.sent[31], vec![0x92, code(paint(6, 8)), code(paint(7, 8))]);
    assert_eq!(wire.sent[32], vec![0x92, code(paint(8, 1)), code(paint(8, 2))]);
    assert_eq!(wire.sent[35], vec![0x92, code(paint(8, 7)), code(paint(8, 8))]);
    assert_eq!(wire.sent[36], vec![0x92, code(paint(0, 0)), code(paint(1, 0))]);
    assert_eq!(wire.sent[39], vec![0x92, code(paint(6, 0)), code(paint(7, 0))]);
    assert_eq!(wire.sent[40], vec![0xB0, 104, code(paint(0, 0))]);
}

#[test]
fn a_second_flush_sends_nothing() {
    let mut canvas = Canvas::new();
    canvas.set(1, 1, level(2, 2)).unwrap();
    canvas.set(4, 0, level(0, 1)).unwrap();
    let mut wire = Recorder::sound();
    assert_eq!(canvas.flush(&mut wire), Ok(()));
    assert_eq!(wire.sent.len(), 2);
    assert!(canvas.plan().is_empty());
    assert_eq!(canvas.flush(&mut wire), Ok(()));
    assert_eq!(wire.sent.len(), 2);
    assert_eq!(wire.calls, 2);
}

#[test]
fn a_second_flush_after_a_sweep_sends_nothing() {
    let mut canvas = Canvas::new();
    for (x, y) in cells() {
        canvas.set(x, y, paint(x, y)).unwrap();
    }
    let mut wire = Recorder::sound();
    assert_eq!(canvas.flush(&mut wire), Ok(()));
    assert_eq!(wire.calls, 41);
    assert!(canvas.changes().is_empty());
    assert!(canvas.plan().is_empty());
    assert_eq!(canvas.flush(&mut wire), Ok(()));
    assert_eq!(wire.calls, 41);
}

#[test]
fn a_flush_with_nothing_to_send_cannot_fail() {
    let mut canvas = Canvas::new();
    let mut wire = Recorder::failing_at(1);
    assert_eq!(canvas.flush(&mut wire), Ok(()));
    assert_eq!(wire.calls, 0);
}

#[test]
fn colors_that_were_set_back_are_not_sent() {
    let mut canvas = Canvas::new();
    canvas.set(2, 2, level(3, 3)).unwrap();
    canvas.set(2, 2, Color::black()).unwrap();
    canvas.set(5, 5, Color::black()).unwrap();
    assert!(canvas.changes().is_empty());
    let mut wire = Recorder::sound();
    assert_eq!(canvas.flush(&mut wire), Ok(()));
    assert!(wire.sent.is_empty());
}

#[test]
fn failure_on_the_third_of_five_commands_keeps_two_and_leaves_three() {
    let mut canvas = Canvas::new();
    let five = [(0u32, 1u32), (1, 1), (2, 1), (3, 1), (4, 1)];
    for &(x, y) in &five {
        canvas.set(x, y, level(3, 3)).unwrap();
    }
    assert_eq!(canvas.plan().len(), 5);
    let mut wire = Recorder::failing_at(3);
    assert_eq!(
        canvas.flush(&mut wire),
        Err(FlushError {
            unsent: 3,
            cause: TransportError { reason: String::from("call 3 failed") },
        })
    );
    assert_eq!(wire.calls, 3);
    assert_eq!(wire.sent, vec![vec![0x90, 0, 55], vec![0x90, 1, 55]]);
    for &(x, y) in &five[..2] {
        assert_eq!(canvas.get(x, y), Ok(level(3, 3)));
    }
    for &(x, y) in &five[2..] {
        assert_eq!(canvas.get(x, y), Ok(Color::black()));
        assert_eq!(canvas.get_pending(x, y), Ok(level(3, 3)));
    }
    assert_eq!(
        canvas.changes(),
        vec![(2, 1, level(3, 3)), (3, 1, level(3, 3)), (4, 1, level(3, 3))]
    );
    let mut wire = Recorder::sound();
    assert_eq!(canvas.flush(&mut wire), Ok(()));
    assert_eq!(wire.sent, vec![vec![0x90, 2, 55], vec![0x90, 3, 55], vec![0x90, 4, 55]]);
    assert!(canvas.plan().is_empty());
}

#[test]
fn failure_on_the_third_command_of_a_sweep_keeps_two_pairs() {
    let mut canvas = Canvas::new();
    for (x, y) in cells() {
        canvas.set(x, y, paint(x, y)).unwrap();
    }
    let mut wire = Recorder::failing_at(3);
    assert_eq!(
        canvas.flush(&mut wire),
        Err(FlushError {
            unsent: 39,
            cause: TransportError { reason: String::from("call 3 failed") },
        })
    );
    assert_eq!(wire.sent.len(), 2);
    let kept = [(0u32, 1u32), (1, 1), (2, 1), (3, 1)];
    for (x, y) in cells() {
        if kept.contains(&(x, y)) {
            assert_eq!(canvas.get(x, y), Ok(paint(x, y)));
        } else {
            assert_eq!(canvas.get(x, y), Ok(Color::black()));
        }
        assert_eq!(canvas.get_pending(x, y), Ok(paint(x, y)));
    }
    assert_eq!(canvas.changes().len(), 76);
    assert_eq!(canvas.mode(), DeviceDisplayMode::RapidUpdate);
}

#[test]
fn a_sweep_that_was_cut_short_is_ended_before_the_next_one() {
    let mut canvas = Canvas::new();
    for (x, y) in cells() {
        canvas.set(x, y, paint(x, y)).unwrap();
    }
    let mut wire = Recorder::failing_at(3);
    assert!(canvas.flush(&mut wire).is_err());
    let mut wire = Recorder::sound();
    assert_eq!(canvas.flush(&mut wire), Ok(()));
    let mut expected = vec![vec![0xB0, 104, 4]];
    expected.extend(sweep_of(&paint));
    assert_eq!(wire.sent, expected);
    assert_eq!(canvas.mode(), DeviceDisplayMode::Normal);
    for (x, y) in cells() {
        assert_eq!(canvas.get(x, y), Ok(paint(x, y)));
    }
    assert!(canvas.plan().is_empty());
}

#[test]
fn a_sweep_whose_end_failed_is_ended_by_the_next_flush() {
    let mut canvas = Canvas::new();
    for (x, y) in cells() {
        canvas.set(x, y, paint(x, y)).unwrap();
    }
    let mut wire = Recorder::failing_at(41);
    assert_eq!(
        canvas.flush(&mut wire),
        Err(FlushError {
            unsent: 1,
            cause: TransportError { reason: String::from("call 41 failed") },
        })
    );
    assert!(canvas.changes().is_empty());
    assert_eq!(canvas.mode(), DeviceDisplayMode::RapidUpdate);
    assert_eq!(
        canvas.plan(),
        vec![Command::Light { button: Button::ControlButton { index: 0 }, color: paint(0, 0) }]
    );
    let mut wire = Recorder::sound();
    assert_eq!(canvas.flush(&mut wire), Ok(()));
    assert_eq!(wire.sent, vec![vec![0xB0, 104, code(paint(0, 0))]]);
    assert_eq!(canvas.mode(), DeviceDisplayMode::Normal);
    assert_eq!(canvas.flush(&mut wire), Ok(()));
    assert_eq!(wire.calls, 1);
}

#[test]
fn a_plan_can_be_carried_out_by_hand() {
    let mut canvas = Canvas::new();
    canvas.set(0, 0, level(1, 0)).unwrap();
    canvas.set(8, 8, level(0, 1)).unwrap();
    let plan = canvas.plan();
    let written: Vec<Vec<u8>> = plan.iter().map(|command| command.encode().unwrap()).collect();
    assert_eq!(written, vec![vec![0xB0, 104, 5], vec![0x90, 120, 20]]);
    assert_eq!(canvas.settle(&plan[0], Ok(()), 2), Ok(()));
    assert_eq!(canvas.get(0, 0), Ok(level(1, 0)));
    assert_eq!(canvas.get(8, 8), Ok(Color::black()));
    let lost = TransportError { reason: String::from("lost") };
    assert_eq!(
        canvas.settle(&plan[1], Err(lost.clone()), 1),
        Err(FlushError { unsent: 1, cause: lost })
    );
    assert_eq!(canvas.get(8, 8), Ok(Color::black()));
    canvas.acknowledge(&plan[1]);
    assert_eq!(canvas.get(8, 8), Ok(level(0, 1)));
    assert!(canvas.plan().is_empty());
}

#[test]
fn rapid_updates_go_round_the_device() {
    let mut canvas = Canvas::new();
    let pair = Command::Rapid { first: level(1, 0), second: level(2, 0) };
    canvas.acknowledge(&pair);
    assert_eq!(canvas.mode(), DeviceDisplayMode::RapidUpdate);
    assert_eq!(canvas.get(0, 1), Ok(level(1, 0)));
    assert_eq!(canvas.get(1, 1), Ok(level(2, 0)));
    assert_eq!(canvas.get(2, 1), Ok(Color::black()));
    for _ in 1..40 {
        canvas.acknowledge(&pair);
    }
    assert_eq!(canvas.get(6, 0), Ok(level(1, 0)));
    assert_eq!(canvas.get(7, 0), Ok(level(2, 0)));
    let other = Command::Rapid { first: level(0, 3), second: level(0, 2) };
    canvas.acknowledge(&other);
    assert_eq!(canvas.get(0, 1), Ok(level(0, 3)));
    assert_eq!(canvas.get(1, 1), Ok(level(0, 2)));
    assert_eq!(canvas.get(2, 1), Ok(level(1, 0)));
    let lit = Command::Light { button: Button::GridButton { x: 5, y: 5 }, color: level(3, 3) };
    canvas.acknowledge(&lit);
    assert_eq!(canvas.mode(), DeviceDisplayMode::Normal);
    assert_eq!(canvas.get(5, 6), Ok(level(3, 3)));
    canvas.acknowledge(&other);
    assert_eq!(canvas.get(0, 1), Ok(level(0, 3)));
    assert_eq!(canvas.get(2, 1), Ok(level(1, 0)));
}

#[test]
fn a_command_that_cannot_be_sent_changes_nothing() {
    let mut canvas = Canvas::new();
    let nowhere = Command::Light { button: Button::GridButton { x: 9, y: 9 }, color: level(3, 3) };
    canvas.acknowledge(&nowhere);
    for (x, y) in cells() {
        assert_eq!(canvas.get(x, y), Ok(Color::black()));
    }
    assert_eq!(canvas.mode(), DeviceDisplayMode::Normal);
}

#[test]
fn presses_and_releases_become_canvas_events() {
    let grid = Button::GridButton { x: 3, y: 2 };
    assert_eq!(
        Spec::convert_message(Message::Press { button: grid }),
        Some(CanvasMessage::Press { x: 3, y: 3 })
    );
    assert_eq!(
        Spec::convert_message(Message::Release { button: grid }),
        Some(CanvasMessage::Release { x: 3, y: 3 })
    );
    let control = Button::ControlButton { index: 5 };
    assert_eq!(
        Spec::convert_message(Message::Press { button: control }),
        Some(CanvasMessage::Press { x: 5, y: 0 })
    );
    let side = Button::GridButton { x: 8, y: 7 };
    assert_eq!(
        Spec::convert_message(Message::Release { button: side }),
        Some(CanvasMessage::Release { x: 8, y: 8 })
    );
}

#[test]
fn other_messages_are_no_canvas_events() {
    assert_eq!(Spec::convert_message(Message::TextEndedOrLooped), None);
    assert_eq!(
        Spec::convert_message(Message::DeviceInquiry {
            device_id: 1,
            family_code: 19,
            family_member_code: 2,
            firmware_revision: 1201,
        }),
        None
    );
    assert_eq!(
        Spec::convert_message(Message::VersionInquiry {
            bootloader_version: 1,
            firmware_version: 2,
            bootloader_size: 3,
        }),
        None
    );
    assert_eq!(
        Spec::convert_message(Message::Press { button: Button::ControlButton { index: 8 } }),
        None
    );
    assert_eq!(
        Spec::convert_message(Message::Release { button: Button::GridButton { x: 0, y: 255 } }),
        None
    );
}

#[test]
fn lighting_a_cell_and_pressing_it_name_the_same_cell() {
    for (x, y) in cells() {
        let button = Button::from_abs(x as u8, y as u8).unwrap();
        let sent = light(button, level(1, 2)).unwrap();
        assert_eq!(sent.len(), 3);
        let press = decode_short_message(&[sent[0], sent[1], 127]).unwrap();
        assert_eq!(press, Message::Press { button });
        assert_eq!(Spec::convert_message(press), Some(CanvasMessage::Press { x, y }));
        let release = decode_short_message(&[sent[0], sent[1], 0]).unwrap();
        assert_eq!(Spec::convert_message(release), Some(CanvasMessage::Release { x, y }));
    }
}
