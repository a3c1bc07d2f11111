use st7567::constants::{BUFFER_SIZE, SCREEN_HEIGHT, SCREEN_WIDTH};
use st7567::sequence::{Action, Event, Run};
use st7567::transfer::Op;
use st7567::{BacklightStatus, Bias, DisplayErrors, ScreenDirection, ST7567};

fn frame(d: &ST7567) -> Vec<u8> {
    (0..BUFFER_SIZE).map(|i| d.byte(i)).collect()
}

fn command_bytes(op: &Op) -> Vec<u8> {
    match op {
        Op::Command(b) => b.clone(),
        other => panic!("expected a command transfer, got {:?}", other),
    }
}

fn data_bytes(op: &Op) -> Vec<u8> {
    match op {
        Op::Data(b) => b.clone(),
        other => panic!("expected a data transfer, got {:?}", other),
    }
}

/// Runs `ops` to the end, failing the operation at `fail_at` if given;
/// returns the operations performed and the final result.
fn run(ops: Vec<Op>, fail_at: Option<usize>) -> (Vec<Op>, Result<(), DisplayErrors>) {
    let mut r = Run::new(ops);
    let mut performed = Vec::new();
    let mut event = Event::Start;
    loop {
        match r.step(event) {
            Action::Perform(op) => {
                performed.push(op);
                event = if Some(performed.len() - 1) == fail_at {
                    Event::Failed
                } else {
                    Event::Succeeded
                };
            }
            Action::Finish(res) => return (performed, res),
        }
    }
}

#[test]
fn new_buffer_is_blank() {
    let d = ST7567::new(ScreenDirection::Normal, Bias::Bias7_1);
    assert!(frame(&d).iter().all(|&b| b == 0));
    assert_eq!(frame(&d).len(), SCREEN_WIDTH * SCREEN_HEIGHT / 8);
}

#[test]
fn set_pixel_writes_the_addressed_bit() {
    let mut d = ST7567::new(ScreenDirection::Normal, Bias::Bias7_1);
    assert!(d.set_pixel(5, 10, true).is_ok());
    let f = frame(&d);
    assert_eq!(f[128 + 5], 0b0000_0100);
    assert_eq!(f.iter().filter(|&&b| b != 0).count(), 1);
    assert!(d.set_pixel(127, 63, true).is_ok());
    assert_eq!(d.byte(7 * 128 + 127), 0b1000_0000);
    assert!(d.set_pixel(0, 0, true).is_ok());
    assert_eq!(d.byte(0), 1);
}

#[test]
fn set_pixel_keeps_neighbouring_bits() {
    let mut d = ST7567::new(ScreenDirection::Normal, Bias::Bias7_1);
    for y in 8..16 {
        assert!(d.set_pixel(3, y, true).is_ok());
    }
    assert_eq!(d.byte(128 + 3), 0xFF);
    assert!(d.set_pixel(3, 12, false).is_ok());
    assert_eq!(d.byte(128 + 3), 0b1110_1111);
    assert_eq!(d.byte(128 + 2), 0);
    assert_eq!(d.byte(128 + 4), 0);
    assert_eq!(d.byte(3), 0);
    assert_eq!(d.byte(2 * 128 + 3), 0);
}

#[test]
fn every_pixel_reads_back() {
    let mut d = ST7567::new(ScreenDirection::Reverse, Bias::Bias9_1);
    for y in 0..SCREEN_HEIGHT {
        for x in 0..SCREEN_WIDTH {
            assert!(d.set_pixel(x, y, true).is_ok());
            assert_eq!((d.byte((y / 8) * 128 + x) >> (y % 8)) & 1, 1);
            assert!(d.set_pixel(x, y, false).is_ok());
            assert_eq!((d.byte((y / 8) * 128 + x) >> (y % 8)) & 1, 0);
        }
    }
    assert!(frame(&d).iter().all(|&b| b == 0));
}

#[test]
fn set_pixel_out_of_bounds_reports_coordinates() {
    let mut d = ST7567::new(ScreenDirection::Normal, Bias::Bias7_1);
    assert!(d.set_pixel(1, 1, true).is_ok());
    let before = frame(&d);
    for (x, y) in [(128, 0), (0, 64), (200, 300), (usize::MAX, 5)] {
        match d.set_pixel(x, y, true) {
            Err(DisplayErrors::OutOfBoundsError((ex, ey))) => {
                assert_eq!((ex, ey), (x, y));
            }
            other => panic!("expected out of bounds, got {:?}", other),
        }
        assert_eq!(frame(&d), before);
    }
}

#[test]
fn clear_zeroes_everything() {
    let mut d = ST7567::new(ScreenDirection::Normal, Bias::Bias7_1);
    for i in 0..SCREEN_WIDTH {
        assert!(d.set_pixel(i, i % SCREEN_HEIGHT, true).is_ok());
        assert!(d.set_pixel(i, 63 - i % SCREEN_HEIGHT, true).is_ok());
    }
    assert!(frame(&d).iter().any(|&b| b != 0));
    assert_eq!(d.clear(), Ok(()));
    assert!(frame(&d).iter().all(|&b| b == 0));
}

#[test]
fn set_pixel_twice_is_set_pixel_once() {
    let mut once = ST7567::new(ScreenDirection::Normal, Bias::Bias7_1);
    let mut twice = ST7567::new(ScreenDirection::Normal, Bias::Bias7_1);
    assert!(once.set_pixel(1, 1, true).is_ok());
    assert!(twice.set_pixel(1, 1, true).is_ok());
    assert!(once.set_pixel(40, 33, true).is_ok());
    assert!(twice.set_pixel(40, 33, true).is_ok());
    assert!(twice.set_pixel(40, 33, true).is_ok());
    assert_eq!(frame(&once), frame(&twice));
}

#[test]
fn init_normal_orientation_commands() {
    let d = ST7567::new(ScreenDirection::Normal, Bias::Bias9_1);
    let ops = d.init();
    let cmds: Vec<u8> = ops[2..].iter().flat_map(command_bytes).collect();
    let seg = cmds.iter().position(|&c| c == 0xA0).unwrap();
    let com = cmds.iter().position(|&c| c == 0xC8).unwrap();
    let on = cmds.iter().position(|&c| c == 0xAF).unwrap();
    assert!(seg < com && com < on);
    assert_eq!(cmds[0], 0xA2);
}

#[test]
fn init_reverse_orientation_commands() {
    let d = ST7567::new(ScreenDirection::Reverse, Bias::Bias7_1);
    let ops = d.init();
    let cmds: Vec<u8> = ops[2..].iter().flat_map(command_bytes).collect();
    assert_eq!(&cmds[..3], &[0xA3, 0xA1, 0xC0]);
    assert!(!cmds.contains(&0xA0));
    assert!(!cmds.contains(&0xC8));
}

#[test]
fn init_end_to_end_normal_bias_7() {
    let d = ST7567::new(ScreenDirection::Normal, Bias::Bias7_1);
    let (performed, result) = run(d.init(), None);
    assert!(result.is_ok());
    assert!(matches!(performed[0], Op::ResetLow));
    assert!(matches!(performed[1], Op::ResetHigh));
    assert_eq!(performed.len(), 12);
    let mut cmds = Vec::new();
    for op in &performed[2..] {
        let b = command_bytes(op);
        assert_eq!(b.len(), 1);
        cmds.push(b[0]);
    }
    assert_eq!(cmds, vec![0xA3, 0xA0, 0xC8, 0xA6, 0x40, 0x2F, 0x24, 0xAF, 0x81, 30]);
}

#[test]
fn show_sends_eight_pages() {
    let mut d = ST7567::new(ScreenDirection::Normal, Bias::Bias7_1);
    for p in 0..8 {
        for b in 0..8 {
            assert!(d.set_pixel(p * 10 + b, p * 8 + b, true).is_ok());
        }
    }
    let f = frame(&d);
    let ops = d.show();
    assert_eq!(ops.len(), 18);
    assert_eq!(command_bytes(&ops[0]), vec![0xE0]);
    assert_eq!(command_bytes(&ops[17]), vec![0xEE]);
    for p in 0..8 {
        let addr = command_bytes(&ops[1 + 2 * p]);
        assert_eq!(addr, vec![0xB0 | p as u8, 0x00, 0x10]);
        assert_eq!((addr[0] & 0x07) as usize, p);
        let data = data_bytes(&ops[2 + 2 * p]);
        assert_eq!(data.len(), 128);
        assert_eq!(&data[..], &f[p * 128..p * 128 + 128]);
        assert!(data.iter().any(|&b| b != 0));
    }
}

#[test]
fn show_reverse_shifts_columns() {
    let d = ST7567::new(ScreenDirection::Reverse, Bias::Bias7_1);
    let ops = d.show();
    for p in 0..8 {
        assert_eq!(command_bytes(&ops[1 + 2 * p]), vec![0xB0 | p as u8, 0x04, 0x10]);
    }
}

#[test]
fn reset_pulses_low_then_high() {
    let ops = ST7567::reset();
    assert_eq!(ops.len(), 2);
    assert!(matches!(ops[0], Op::ResetLow));
    assert!(matches!(ops[1], Op::ResetHigh));
}

#[test]
fn backlight_drives_the_pin() {
    let on = ST7567::backlight(BacklightStatus::On);
    assert_eq!(on.len(), 1);
    assert!(matches!(on[0], Op::BacklightHigh));
    let off = ST7567::backlight(BacklightStatus::Off);
    assert_eq!(off.len(), 1);
    assert!(matches!(off[0], Op::BacklightLow));
}

#[test]
fn command_and_data_carry_their_bytes() {
    assert_eq!(command_bytes(&ST7567::command(&[0xAF, 0x81, 7])), vec![0xAF, 0x81, 7]);
    assert_eq!(data_bytes(&ST7567::data(&[1, 2, 3, 4])), vec![1, 2, 3, 4]);
    assert!(command_bytes(&ST7567::command(&[])).is_empty());
}

#[test]
fn run_stops_at_a_bus_failure() {
    let d = ST7567::new(ScreenDirection::Normal, Bias::Bias7_1);
    let (performed, result) = run(d.init(), Some(4));
    assert_eq!(performed.len(), 5);
    assert!(matches!(result, Err(DisplayErrors::SpiError)));
    assert_eq!(command_bytes(&performed[4]), vec![0xC8]);
}

#[test]
fn run_stops_at_a_pin_failure() {
    let d = ST7567::new(ScreenDirection::Normal, Bias::Bias7_1);
    let (performed, result) = run(d.init(), Some(1));
    assert_eq!(performed.len(), 2);
    assert!(matches!(result, Err(DisplayErrors::PinError)));
}

#[test]
fn run_of_nothing_succeeds() {
    let (performed, result) = run(Vec::new(), None);
    assert!(performed.is_empty());
    assert!(result.is_ok());
}

#[test]
fn show_failure_mid_frame() {
    let d = ST7567::new(ScreenDirection::Normal, Bias::Bias7_1);
    let (performed, result) = run(d.show(), Some(6));
    assert_eq!(performed.len(), 7);
    assert!(matches!(result, Err(DisplayErrors::SpiError)));
    let (all, ok) = run(d.show(), None);
    assert_eq!(all.len(), 18);
    assert!(ok.is_ok());
}
