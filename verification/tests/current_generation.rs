use epaper_drivers::gdey029t94::{get_4_grayscale_lut, GDEY029T94Controller, GRAYSCALE_LUT};
use epaper_drivers::idle::Poll;
use epaper_drivers::panel::{ColorResolution, PIXEL_BUFFER_LEN};
use epaper_drivers::sequencer::{InitSequencer, Outcome, SequencerState};
use epaper_drivers::transport::{Level, Operation, Program};

fn c(opcode: u8) -> Vec<Operation> {
    vec![
        Operation::ChipSelect(Level::Low),
        Operation::DataCommand(Level::Low),
        Operation::Transfer(vec![opcode]),
        Operation::ChipSelect(Level::High),
    ]
}

fn d(bytes: &[u8]) -> Vec<Operation> {
    vec![
        Operation::ChipSelect(Level::Low),
        Operation::DataCommand(Level::High),
        Operation::Transfer(bytes.to_vec()),
        Operation::ChipSelect(Level::High),
    ]
}

fn cd(opcode: u8, bytes: &[u8]) -> Vec<Operation> {
    vec![
        Operation::ChipSelect(Level::Low),
        Operation::DataCommand(Level::Low),
        Operation::Transfer(vec![opcode]),
        Operation::DataCommand(Level::High),
        Operation::Transfer(bytes.to_vec()),
        Operation::ChipSelect(Level::High),
    ]
}

fn idle() -> Vec<Operation> {
    vec![Operation::AwaitIdle]
}

fn reset() -> Vec<Operation> {
    vec![
        Operation::Reset(Level::Low),
        Operation::Delay(10),
        Operation::Reset(Level::High),
        Operation::Delay(10),
    ]
}

fn times(frame: Vec<Operation>, count: usize) -> Vec<Operation> {
    let mut all = Vec::new();
    for _ in 0..count {
        all.extend(frame.iter().cloned());
    }
    all
}

fn monochrome() -> GDEY029T94Controller {
    GDEY029T94Controller::with_color_resolution(ColorResolution::BlackAndWhiteMonochrome).0
}

fn grayscale() -> GDEY029T94Controller {
    GDEY029T94Controller::new().0
}

fn refresh(control: u8) -> Vec<Operation> {
    [cd(0x22, &[control]), c(0x20), idle()].concat()
}

fn transfer_count(program: &[Operation]) -> usize {
    program.iter().filter(|op| matches!(op, Operation::Transfer(_))).count()
}

/// Runs a bring-up against hardware that carries out every operation and is
/// never busy; returns the operations performed.
fn bring_up(mut sequencer: InitSequencer) -> (Vec<Operation>, SequencerState) {
    let mut performed = Vec::new();
    loop {
        let op = match sequencer.current() {
            Some(op) => op.clone(),
            None => break,
        };
        performed.push(op);
        sequencer.advance(Outcome::Completed { busy_ms: 0 });
    }
    (performed, sequencer.current_state())
}

fn monochrome_trace() -> Vec<Operation> {
    [
        reset(),
        idle(),
        c(0x12),
        idle(),
        c(0x01),
        d(&[0x27]),
        d(&[0x01]),
        d(&[0x00]),
        cd(0x11, &[0x01]),
        c(0x44),
        d(&[0x00]),
        d(&[0x0F]),
        c(0x45),
        d(&[0x27]),
        d(&[0x01]),
        d(&[0x00]),
        d(&[0x00]),
        cd(0x3C, &[0x05]),
        c(0x21),
        d(&[0x00]),
        d(&[0x80]),
        cd(0x18, &[0x80]),
        c(0x4E),
        d(&[0x00]),
        c(0x4F),
        d(&[0x27]),
        d(&[0x01]),
        idle(),
    ]
    .concat()
}

fn grayscale_trace() -> Vec<Operation> {
    let lut: [u8; 153] = [
        0x50, 0x90, 0xA0, 0x00, 0x00, 0x00, 0x00, 0x00, 0x00, 0x00, 0x00, 0x00, 0x40, 0x90, 0x80,
        0x00, 0x00, 0x00, 0x00, 0x00, 0x00, 0x00, 0x00, 0x00, 0x80, 0x90, 0x40, 0x00, 0x00, 0x00,
        0x00, 0x00, 0x00, 0x00, 0x00, 0x00, 0xA0, 0x90, 0x50, 0x00, 0x00, 0x00, 0x00, 0x00, 0x00,
        0x00, 0x00, 0x00, 0x00, 0x00, 0x00, 0x00, 0x00, 0x00, 0x00, 0x00, 0x00, 0x00, 0x00, 0x00,
        0x01, 0x09, 0x00, 0x00, 0x00, 0x00, 0x00, 0x02, 0x02, 0x13, 0x00, 0x00, 0x00, 0x00, 0x01,
        0x09, 0x00, 0x00, 0x00, 0x00, 0x00, 0x00, 0x00, 0x00, 0x00, 0x00, 0x00, 0x00, 0x00, 0x00,
        0x00, 0x00, 0x00, 0x00, 0x00, 0x00, 0x00, 0x00, 0x00, 0x00, 0x00, 0x00, 0x00, 0x00, 0x00,
        0x00, 0x00, 0x00, 0x00, 0x00, 0x00, 0x00, 0x00, 0x00, 0x00, 0x00, 0x00, 0x00, 0x00, 0x00,
        0x00, 0x00, 0x00, 0x00, 0x00, 0x00, 0x00, 0x00, 0x00, 0x00, 0x00, 0x00, 0x00, 0x00, 0x00,
        0x00, 0x00, 0x00, 0x00, 0x00, 0x00, 0x00, 0x00, 0x00, 0x22, 0x22, 0x22, 0x22, 0x22, 0x22,
        0x00, 0x00, 0x00,
    ];
    [
        reset(),
        idle(),
        c(0x12),
        idle(),
        c(0x74),
        d(&[0x54]),
        c(0x7E),
        d(&[0x3B]),
        c(0x01),
        d(&[0x27]),
        d(&[0x01]),
        d(&[0x00]),
        cd(0x11, &[0x03]),
        c(0x44),
        d(&[0x00]),
        d(&[0x0F]),
        c(0x45),
        d(&[0x00]),
        d(&[0x00]),
        d(&[0x27]),
        d(&[0x01]),
        cd(0x3C, &[0x00]),
        cd(0x2C, &[0x30]),
        cd(0x3F, &[0x22]),
        cd(0x03, &[0x15]),
        c(0x04),
        d(&[0x41]),
        d(&[0xA8]),
        d(&[0x32]),
        c(0x32),
        d(&lut),
        c(0x21),
        d(&[0x88]),
        d(&[0x80]),
        cd(0x18, &[0x80]),
        c(0x4E),
        d(&[0x00]),
        c(0x4F),
        d(&[0x27]),
        d(&[0x01]),
        idle(),
    ]
    .concat()
}

#[test]
fn new_is_grayscale_and_releases_the_panel() {
    let (display, lines) = GDEY029T94Controller::new();
    assert_eq!(display.color_resolution(), ColorResolution::FourColorGrayscale);
    assert_eq!(lines.ops, vec![Operation::ChipSelect(Level::High)]);
}

#[test]
fn with_color_resolution_keeps_the_mode() {
    let (display, lines) =
        GDEY029T94Controller::with_color_resolution(ColorResolution::BlackAndWhiteMonochrome);
    assert_eq!(display.color_resolution(), ColorResolution::BlackAndWhiteMonochrome);
    assert_eq!(lines.ops, vec![Operation::ChipSelect(Level::High)]);
}

#[test]
fn waveform_table_has_153_bytes() {
    let table = get_4_grayscale_lut();
    assert_eq!(table.lut.len(), 153);
    assert_eq!(table.lut, GRAYSCALE_LUT);
    assert_eq!(&table.lut[..3], &[0x50, 0x90, 0xA0]);
    assert_eq!(&table.lut[60..63], &[0x01, 0x09, 0x00]);
    assert_eq!(&table.lut[67..70], &[0x02, 0x02, 0x13]);
    assert_eq!(&table.lut[144..], &[0x22, 0x22, 0x22, 0x22, 0x22, 0x22, 0x00, 0x00, 0x00]);
}

#[test]
fn monochrome_bring_up_trace() {
    let program = monochrome().init_epd_monochrome();
    assert_eq!(program.ops, monochrome_trace());
    assert_eq!(program.len(), 109);
    assert_eq!(transfer_count(&program.ops), 27);
}

#[test]
fn grayscale_bring_up_trace() {
    let program = grayscale().init_epd_4_color_grayscale();
    assert_eq!(program.ops, grayscale_trace());
    assert_eq!(program.len(), 167);
    assert_eq!(transfer_count(&program.ops), 43);
}

#[test]
fn monochrome_bring_up_loads_no_waveform_table() {
    let program = monochrome().init_epd_monochrome();
    assert!(!program.ops.contains(&Operation::Transfer(vec![0x32])));
    let program = grayscale().init_epd_4_color_grayscale();
    let load = program.ops.iter().position(|op| *op == Operation::Transfer(vec![0x32])).unwrap();
    let update = program.ops.iter().position(|op| *op == Operation::Transfer(vec![0x21])).unwrap();
    assert!(load < update);
}

#[test]
fn start_epd_runs_the_bring_up_of_the_mode() {
    let (performed, state) = bring_up(monochrome().start_epd());
    assert_eq!(performed, monochrome_trace());
    assert_eq!(state, SequencerState::Ready);

    let (performed, state) = bring_up(grayscale().start_epd());
    assert_eq!(performed, grayscale_trace());
    assert_eq!(state, SequencerState::Ready);
}

#[test]
fn start_epd_is_not_ready_before_the_last_operation() {
    let mut sequencer = monochrome().start_epd();
    for done in 0..109 {
        assert_eq!(sequencer.current_state(), SequencerState::Running { next: done });
        sequencer.advance(Outcome::Completed { busy_ms: 0 });
    }
    assert_eq!(sequencer.result(), Some(Ok(())));
}

#[test]
fn start_epd_fails_on_a_failed_exchange() {
    let mut sequencer = grayscale().start_epd();
    sequencer.advance(Outcome::Completed { busy_ms: 0 });
    sequencer.advance(Outcome::TransportFailed);
    assert_eq!(
        sequencer.result(),
        Some(Err(epaper_drivers::sequencer::StartError::Transport))
    );
}

#[test]
fn wait_for_idle_gives_up_after_six_seconds() {
    let display = grayscale();
    assert_eq!(display.wait_for_idle(Level::High, 0), Poll::Sleep(10));
    assert_eq!(display.wait_for_idle(Level::High, 5999), Poll::Sleep(10));
    assert_eq!(display.wait_for_idle(Level::High, 6000), Poll::Idle);
    assert_eq!(display.wait_for_idle(Level::Low, 0), Poll::Idle);
    assert_eq!(display.idle_poller().ceiling_ms, Some(6000));
}

#[test]
fn reset_ic_is_one_pulse() {
    let mut program = Program::new();
    grayscale().reset_ic(&mut program);
    assert_eq!(program.ops, reset());
}

#[test]
fn update_display_uses_the_control_byte_of_the_mode() {
    let mut program = Program::new();
    monochrome().update_display(&mut program);
    assert_eq!(program.ops, refresh(0xF7));
    let mut program = Program::new();
    grayscale().update_display(&mut program);
    assert_eq!(program.ops, refresh(0xC7));
    let mut program = Program::new();
    grayscale().update_display_monochrome(&mut program);
    assert_eq!(program.ops, refresh(0xF7));
    let mut program = Program::new();
    monochrome().update_display_4_color_grayscale(&mut program);
    assert_eq!(program.ops, refresh(0xC7));
}

#[test]
fn display_black_image_writes_zeroes() {
    let program = grayscale().display_black_image();
    let expected = [idle(), c(0x24), times(d(&[0x00]), 4736), refresh(0xC7)].concat();
    assert_eq!(program.ops, expected);
    assert_eq!(program, grayscale().display_single_color_image(true));
}

#[test]
fn display_white_image_writes_ones() {
    let program = monochrome().display_white_image();
    let expected = [idle(), c(0x24), times(d(&[0xff]), 4736), refresh(0xF7)].concat();
    assert_eq!(program.ops, expected);
    assert_eq!(program, monochrome().display_single_color_image(false));
}

#[test]
fn display_alternating_pixel_grid_alternates_rows() {
    let program = grayscale().display_alternating_pixel_grid();
    let rows = [times(d(&[0x55]), 16), times(d(&[0xAA]), 16)].concat();
    let expected = [idle(), c(0x24), times(rows, 148), refresh(0xC7)].concat();
    assert_eq!(program.ops, expected);
    assert_eq!(transfer_count(&program.ops), 1 + 4736 + 3);
}

#[test]
fn display_random_static_does_nothing() {
    assert_eq!(grayscale().display_random_static().len(), 0);
    assert_eq!(monochrome().display_random_static().ops, vec![]);
}

#[test]
fn display_four_color_image_writes_four_bands() {
    let program = grayscale().display_four_color_image();
    let expected = [
        idle(),
        c(0x24),
        times(d(&[0xff]), 1184),
        times(d(&[0x00]), 1184),
        times(d(&[0xff]), 1184),
        times(d(&[0x00]), 1184),
        c(0x26),
        times(d(&[0xff]), 1184),
        times(d(&[0xff]), 1184),
        times(d(&[0x00]), 1184),
        times(d(&[0x00]), 1184),
        refresh(0xC7),
    ]
    .concat();
    assert_eq!(program.ops, expected);
}

#[test]
fn display_image_writes_the_lower_plane_first() {
    // every pixel at gray level 2
    let program = grayscale().display_image(vec![0xAA; PIXEL_BUFFER_LEN]);
    let expected = [
        idle(),
        cd(0x24, &[0x00; 4736]),
        cd(0x26, &[0xFF; 4736]),
        refresh(0xC7),
    ]
    .concat();
    assert_eq!(program.ops, expected);
}

#[test]
fn display_image_of_a_gradient() {
    let mut buf = vec![0u8; PIXEL_BUFFER_LEN];
    buf[0] = 0b11_10_01_00;
    buf[1] = 0b00_01_10_11;
    let program = monochrome().display_image(buf);
    let mut lower = vec![0u8; 4736];
    lower[0] = 0b1010_0101;
    let mut upper = vec![0u8; 4736];
    upper[0] = 0b1100_0011;
    let expected = [idle(), cd(0x24, &lower), cd(0x26, &upper), refresh(0xF7)].concat();
    assert_eq!(program.ops, expected);
}

#[test]
fn sleep_enters_deep_sleep() {
    let program = grayscale().sleep();
    let expected = [idle(), cd(0x10, &[0x01]), vec![Operation::Delay(10)]].concat();
    assert_eq!(program.ops, expected);
}
