use epaper_drivers::gdew029t5d::{init_epd, GDEW029T5DController};
use epaper_drivers::idle::Poll;
use epaper_drivers::panel::PIXEL_BUFFER_LEN;
use epaper_drivers::sequencer::{Outcome, SequencerState, StartError};
use epaper_drivers::transport::{Level, Operation, Program};

fn c(opcode: u8) -> Vec<Operation> {
    vec![
        Operation::ChipSelect(Level::Low),
        Operation::DataCommand(Level::Low),
        Operation::Transfer(vec![opcode]),
        Operation::ChipSelect(Level::High),
    ]
}

fn d(bytes: &[u8]) -> Vec<Operation> {
    vec![
        Operation::ChipSelect(Level::Low),
        Operation::DataCommand(Level::High),
        Operation::Transfer(bytes.to_vec()),
        Operation::ChipSelect(Level::High),
    ]
}

fn cd(opcode: u8, bytes: &[u8]) -> Vec<Operation> {
    vec![
        Operation::ChipSelect(Level::Low),
        Operation::DataCommand(Level::Low),
        Operation::Transfer(vec![opcode]),
        Operation::DataCommand(Level::High),
        Operation::Transfer(bytes.to_vec()),
        Operation::ChipSelect(Level::High),
    ]
}

fn idle() -> Vec<Operation> {
    vec![Operation::AwaitIdle]
}

fn pulse() -> Vec<Operation> {
    vec![
        Operation::Reset(Level::Low),
        Operation::Delay(10),
        Operation::Reset(Level::High),
        Operation::Delay(10),
    ]
}

fn times(frame: Vec<Operation>, count: usize) -> Vec<Operation> {
    let mut all = Vec::new();
    for _ in 0..count {
        all.extend(frame.iter().cloned());
    }
    all
}

fn refresh() -> Vec<Operation> {
    [c(0x12), vec![Operation::Delay(10)], idle()].concat()
}

fn display() -> GDEW029T5DController {
    init_epd().0
}

const VCOM: [u8; 44] = [
    0x00, 0x0A, 0x00, 0x00, 0x00, 0x01, 0x60, 0x14, 0x14, 0x00, 0x00, 0x01, 0x00, 0x14, 0x00,
    0x00, 0x00, 0x01, 0x00, 0x13, 0x0A, 0x01, 0x00, 0x01, 0x00, 0x00, 0x00, 0x00, 0x00, 0x00,
    0x00, 0x00, 0x00, 0x00, 0x00, 0x00, 0x00, 0x00, 0x00, 0x00, 0x00, 0x00, 0x00, 0x00,
];

const WW: [u8; 42] = [
    0x40, 0x0A, 0x00, 0x00, 0x00, 0x01, 0x90, 0x14, 0x14, 0x00, 0x00, 0x01, 0x10, 0x14, 0x0A,
    0x00, 0x00, 0x01, 0xA0, 0x13, 0x01, 0x00, 0x00, 0x01, 0x00, 0x00, 0x00, 0x00, 0x00, 0x00,
    0x00, 0x00, 0x00, 0x00, 0x00, 0x00, 0x00, 0x00, 0x00, 0x00, 0x00, 0x00,
];

const BW: [u8; 42] = [
    0x40, 0x0A, 0x00, 0x00, 0x00, 0x01, 0x90, 0x14, 0x14, 0x00, 0x00, 0x01, 0x00, 0x14, 0x0A,
    0x00, 0x00, 0x01, 0x99, 0x0C, 0x01, 0x03, 0x04, 0x01, 0x00, 0x00, 0x00, 0x00, 0x00, 0x00,
    0x00, 0x00, 0x00, 0x00, 0x00, 0x00, 0x00, 0x00, 0x00, 0x00, 0x00, 0x00,
];

const WB: [u8; 42] = [
    0x40, 0x0A, 0x00, 0x00, 0x00, 0x01, 0x90, 0x14, 0x14, 0x00, 0x00, 0x01, 0x00, 0x14, 0x0A,
    0x00, 0x00, 0x01, 0x99, 0x0B, 0x04, 0x04, 0x01, 0x01, 0x00, 0x00, 0x00, 0x00, 0x00, 0x00,
    0x00, 0x00, 0x00, 0x00, 0x00, 0x00, 0x00, 0x00, 0x00, 0x00, 0x00, 0x00,
];

const BB: [u8; 42] = [
    0x80, 0x0A, 0x00, 0x00, 0x00, 0x01, 0x90, 0x14, 0x14, 0x00, 0x00, 0x01, 0x20, 0x14, 0x0A,
    0x00, 0x00, 0x01, 0x50, 0x13, 0x01, 0x00, 0x00, 0x01, 0x00, 0x00, 0x00, 0x00, 0x00, 0x00,
    0x00, 0x00, 0x00, 0x00, 0x00, 0x00, 0x00, 0x00, 0x00, 0x00, 0x00, 0x00,
];

fn lut_load() -> Vec<Operation> {
    [cd(0x20, &VCOM), cd(0x21, &WW), cd(0x22, &BW), cd(0x23, &WB), cd(0x24, &BB)].concat()
}

fn bring_up_trace() -> Vec<Operation> {
    [
        vec![Operation::ChipSelect(Level::High)],
        pulse(),
        pulse(),
        pulse(),
        cd(0x06, &[0x17, 0x17, 0x17]),
        cd(0x01, &[0x03, 0x00, 0x2b, 0x2b, 0x13]),
        c(0x04),
        vec![Operation::AwaitPowerOn],
        cd(0x00, &[0b1011_1111]),
        cd(0x82, &[0x12]),
        cd(0x50, &[0x97]),
    ]
    .concat()
}

/// Runs the bring-up against hardware that carries out every operation and
/// takes `power_on_ms` to power on.
fn bring_up(power_on_ms: u64) -> (Vec<Operation>, SequencerState) {
    let mut sequencer = display().start_epd();
    let mut performed = Vec::new();
    loop {
        let op = match sequencer.current() {
            Some(op) => op.clone(),
            None => break,
        };
        let busy_ms = if op == Operation::AwaitPowerOn { power_on_ms } else { 0 };
        performed.push(op);
        sequencer.advance(Outcome::Completed { busy_ms });
    }
    (performed, sequencer.current_state())
}

#[test]
fn init_epd_releases_the_panel() {
    let (_, lines) = init_epd();
    assert_eq!(lines.ops, vec![Operation::ChipSelect(Level::High)]);
}

#[test]
fn waveform_tables_have_their_lengths_and_bytes() {
    let lut = GDEW029T5DController::get_4_grayscale_lut();
    assert_eq!(lut.vcom.len(), 44);
    assert_eq!(lut.ww.len(), 42);
    assert_eq!(lut.bw.len(), 42);
    assert_eq!(lut.wb.len(), 42);
    assert_eq!(lut.bb.len(), 42);
    assert_eq!(lut.vcom, VCOM);
    assert_eq!(lut.ww, WW);
    assert_eq!(lut.bw, BW);
    assert_eq!(lut.wb, WB);
    assert_eq!(lut.bb, BB);
}

#[test]
fn load_lut_writes_the_tables_in_order() {
    let mut program = Program::new();
    display().load_lut(&mut program, GDEW029T5DController::get_4_grayscale_lut());
    assert_eq!(program.ops, lut_load());
}

#[test]
fn reset_ic_is_three_pulses() {
    let mut program = Program::new();
    display().reset_ic(&mut program);
    assert_eq!(program.ops, [pulse(), pulse(), pulse()].concat());
}

#[test]
fn wait_for_idle_never_gives_up() {
    let display = display();
    assert_eq!(display.wait_for_idle(Level::Low, 0), Poll::Sleep(10));
    assert_eq!(display.wait_for_idle(Level::Low, 6000), Poll::Sleep(10));
    assert_eq!(display.wait_for_idle(Level::Low, u64::MAX), Poll::Sleep(10));
    assert_eq!(display.wait_for_idle(Level::High, 0), Poll::Idle);
    assert_eq!(display.idle_poller().ceiling_ms, None);
}

#[test]
fn bring_up_trace_with_a_panel_attached() {
    let (performed, state) = bring_up(120);
    assert_eq!(performed, bring_up_trace());
    assert_eq!(performed.len(), 48);
    assert_eq!(state, SequencerState::Ready);
}

#[test]
fn start_epd_with_49_ms_power_on_is_not_connected() {
    let (performed, state) = bring_up(49);
    assert_eq!(state, SequencerState::Failed(StartError::NotConnected));
    assert_eq!(performed, bring_up_trace()[..30].to_vec());
    assert_eq!(performed.last(), Some(&Operation::AwaitPowerOn));
}

#[test]
fn start_epd_with_51_ms_power_on_goes_on_to_panel_setting() {
    let mut sequencer = display().start_epd();
    for _ in 0..29 {
        sequencer.advance(Outcome::Completed { busy_ms: 0 });
    }
    assert_eq!(sequencer.current(), Some(&Operation::AwaitPowerOn));
    sequencer.advance(Outcome::Completed { busy_ms: 51 });
    assert_eq!(sequencer.current_state(), SequencerState::Running { next: 30 });
    assert_eq!(sequencer.current(), Some(&Operation::ChipSelect(Level::Low)));
    sequencer.advance(Outcome::Completed { busy_ms: 0 });
    sequencer.advance(Outcome::Completed { busy_ms: 0 });
    assert_eq!(sequencer.current(), Some(&Operation::Transfer(vec![0x00])));
}

#[test]
fn start_epd_with_an_immediate_power_on_is_not_connected() {
    let (_, state) = bring_up(0);
    assert_eq!(state, SequencerState::Failed(StartError::NotConnected));
    let (_, state) = bring_up(50);
    assert_eq!(state, SequencerState::Ready);
}

#[test]
fn display_black_image_fills_both_planes() {
    let program = display().display_black_image();
    let expected = [
        idle(),
        c(0x10),
        times(d(&[0x00]), 4736),
        c(0x13),
        times(d(&[0x00]), 4736),
        refresh(),
    ]
    .concat();
    assert_eq!(program.ops, expected);
}

#[test]
fn display_white_image_fills_both_planes() {
    let program = display().display_white_image();
    let expected = [
        idle(),
        c(0x10),
        times(d(&[0xff]), 4736),
        c(0x13),
        times(d(&[0xff]), 4736),
        refresh(),
    ]
    .concat();
    assert_eq!(program.ops, expected);
    assert_eq!(program, display().display_single_color_image(false));
}

#[test]
fn display_alternating_pixel_grid_fills_both_planes() {
    let program = display().display_alternating_pixel_grid();
    let rows = [times(d(&[0x55]), 16), times(d(&[0xAA]), 16)].concat();
    let expected =
        [idle(), c(0x10), times(rows.clone(), 148), c(0x13), times(rows, 148), refresh()].concat();
    assert_eq!(program.ops, expected);
}

#[test]
fn display_static_writes_byte_by_byte() {
    let program = display().display_static(&vec![1, 2, 3], &vec![4, 5]);
    let expected = [
        idle(),
        c(0x10),
        d(&[1]),
        d(&[2]),
        d(&[3]),
        c(0x13),
        d(&[4]),
        d(&[5]),
        refresh(),
    ]
    .concat();
    assert_eq!(program.ops, expected);
}

fn data_bytes(program: &Program) -> Vec<u8> {
    let mut bytes = Vec::new();
    let mut data = false;
    for op in &program.ops {
        match op {
            Operation::DataCommand(level) => data = *level == Level::High,
            Operation::Transfer(sent) if data => bytes.extend(sent.iter().copied()),
            _ => {}
        }
    }
    bytes
}

#[test]
fn display_random_static_has_the_shape_of_a_static_image() {
    let program = display().display_random_static();
    let noise = data_bytes(&program);
    assert_eq!(noise.len(), 2 * 4736);
    let expected = display().display_static(&noise[..4736].to_vec(), &noise[4736..].to_vec());
    assert_eq!(program, expected);
}

#[test]
fn display_random_static_draws_noise() {
    let noise = data_bytes(&display().display_random_static());
    assert!(noise.iter().any(|byte| *byte != noise[0]));
    let again = data_bytes(&display().display_random_static());
    assert_ne!(noise, again);
}

#[test]
fn display_four_color_image_loads_the_tables_first() {
    let program = display().display_four_color_image();
    let expected = [
        idle(),
        lut_load(),
        c(0x10),
        times(d(&[0xff]), 1184),
        times(d(&[0xff]), 1184),
        times(d(&[0x00]), 1184),
        times(d(&[0x00]), 1184),
        c(0x13),
        times(d(&[0xff]), 1184),
        times(d(&[0x00]), 1184),
        times(d(&[0xff]), 1184),
        times(d(&[0x00]), 1184),
        refresh(),
    ]
    .concat();
    assert_eq!(program.ops, expected);
}

#[test]
fn display_image_writes_the_upper_plane_first() {
    // every pixel at gray level 2
    let program = display().display_image(vec![0xAA; PIXEL_BUFFER_LEN]);
    let expected = [
        idle(),
        lut_load(),
        cd(0x10, &[0xFF; 4736]),
        cd(0x13, &[0x00; 4736]),
        refresh(),
    ]
    .concat();
    assert_eq!(program.ops, expected);
}

#[test]
fn display_image_of_a_gradient_on_the_legacy_panel() {
    let mut buf = vec![0u8; PIXEL_BUFFER_LEN];
    buf[9470] = 0b11_10_01_00;
    buf[9471] = 0b00_01_10_11;
    let program = display().display_image(buf);
    let mut upper = vec![0u8; 4736];
    upper[4735] = 0b1100_0011;
    let mut lower = vec![0u8; 4736];
    lower[4735] = 0b1010_0101;
    let expected = [idle(), lut_load(), cd(0x10, &upper), cd(0x13, &lower), refresh()].concat();
    assert_eq!(program.ops, expected);
}

#[test]
fn sleep_powers_off_and_enters_deep_sleep() {
    let program = display().sleep();
    let expected = [idle(), cd(0x50, &[0xf7]), c(0x02), idle(), cd(0x07, &[0xA5])].concat();
    assert_eq!(program.ops, expected);
}
