//! Driver logic for the current controller generation (GDEY029T94 panels).
//!
//! The controller is brought up in one of two color modes. Monochrome mode
//! uses the waveform built into the controller; four-level grayscale mode
//! loads a waveform table and sets the driving voltages by hand.

use vstd::prelude::*;
use crate::encoder::{encode, plane_a, plane_b};
use crate::idle::{IdlePoller, Poll, IDLE_TIMEOUT_MS};
use crate::panel::{ColorResolution, PIXEL_BUFFER_LEN, PLANE_LEN, ROW_LEN};
use crate::sequencer::{
    initial_state, lemma_bring_up_completes, state_after, InitSequencer, Outcome, SequencerState,
};
use crate::transport::{
    await_idle, command_frame, data_frame, fused_frame, pause, release, repeated, reset_pulses,
    transfers, Level, OperationView, Program,
};

verus! {

/// Software reset.
pub const SOFT_RESET: u8 = 0x12;

/// Driver output control: number of gate lines and their scan order.
pub const DRIVER_OUTPUT_CONTROL: u8 = 0x01;

/// Gate driving voltage.
pub const GATE_VOLTAGE: u8 = 0x03;

/// Source driving voltages.
pub const SOURCE_VOLTAGE: u8 = 0x04;

/// Deep sleep mode.
pub const DEEP_SLEEP: u8 = 0x10;

/// Data entry mode: direction in which the address counters move.
pub const DATA_ENTRY_MODE: u8 = 0x11;

/// Temperature sensor selection.
pub const TEMPERATURE_SENSOR: u8 = 0x18;

/// Master activation: runs the display update sequence.
pub const MASTER_ACTIVATION: u8 = 0x20;

/// Display update control 1: how the two memory planes are read.
pub const DISPLAY_UPDATE_CONTROL_1: u8 = 0x21;

/// Display update control 2: which stages the update sequence runs.
pub const DISPLAY_UPDATE_CONTROL_2: u8 = 0x22;

/// Write to the black-and-white memory plane.
pub const WRITE_RAM_BW: u8 = 0x24;

/// Write to the red memory plane.
pub const WRITE_RAM_RED: u8 = 0x26;

/// VCOM voltage.
pub const VCOM_VOLTAGE: u8 = 0x2C;

/// Write the waveform table.
pub const WRITE_LUT: u8 = 0x32;

/// Border waveform control.
pub const BORDER_WAVEFORM: u8 = 0x3C;

/// Option for the end of the waveform table.
pub const END_OPTION: u8 = 0x3F;

/// Start and end of the memory window along X.
pub const SET_RAM_X_RANGE: u8 = 0x44;

/// Start and end of the memory window along Y.
pub const SET_RAM_Y_RANGE: u8 = 0x45;

/// Memory address counter along X.
pub const SET_RAM_X_COUNTER: u8 = 0x4E;

/// Memory address counter along Y.
pub const SET_RAM_Y_COUNTER: u8 = 0x4F;

/// Analog block control; undocumented.
pub const ANALOG_BLOCK_CONTROL: u8 = 0x74;

/// Digital block control; undocumented.
pub const DIGITAL_BLOCK_CONTROL: u8 = 0x7E;

/// Update sequence of monochrome mode: clock and analog on, temperature
/// loaded, display in mode 1, analog and oscillator off.
pub const UPDATE_MONOCHROME: u8 = 0xF7;

/// Update sequence of grayscale mode: as in monochrome mode, but the loaded
/// waveform table is kept.
pub const UPDATE_GRAYSCALE: u8 = 0xC7;

/// Milliseconds the controller is given to enter deep sleep.
pub const SLEEP_SETTLE_MS: u64 = 10;

/// Bytes in the waveform table.
pub const LUT_LEN: usize = 153;

/// Data writes in one quarter of a plane.
pub const QUARTER_PLANE: usize = 1184;

/// Pairs of rows on the panel.
pub const ROW_PAIRS: usize = 148;

/// The waveform table of four-level grayscale mode.
pub const GRAYSCALE_LUT: [u8; 153] = [
    0x50, 0x90, 0xA0, 0x00, 0x00, 0x00, 0x00, 0x00, 0x00, 0x00, 0x00, 0x00,
    0x40, 0x90, 0x80, 0x00, 0x00, 0x00, 0x00, 0x00, 0x00, 0x00, 0x00, 0x00,
    0x80, 0x90, 0x40, 0x00, 0x00, 0x00, 0x00, 0x00, 0x00, 0x00, 0x00, 0x00,
    0xA0, 0x90, 0x50, 0x00, 0x00, 0x00, 0x00, 0x00, 0x00, 0x00, 0x00, 0x00,
    0x00, 0x00, 0x00, 0x00, 0x00, 0x00, 0x00, 0x00, 0x00, 0x00, 0x00, 0x00,
    0x01, 0x09, 0x00, 0x00, 0x00, 0x00, 0x00,
    0x02, 0x02, 0x13, 0x00, 0x00, 0x00, 0x00,
    0x01, 0x09, 0x00, 0x00, 0x00, 0x00, 0x00,
    0x00, 0x00, 0x00, 0x00, 0x00, 0x00, 0x00,
    0x00, 0x00, 0x00, 0x00, 0x00, 0x00, 0x00,
    0x00, 0x00, 0x00, 0x00, 0x00, 0x00, 0x00,
    0x00, 0x00, 0x00, 0x00, 0x00, 0x00, 0x00,
    0x00, 0x00, 0x00, 0x00, 0x00, 0x00, 0x00,
    0x00, 0x00, 0x00, 0x00, 0x00, 0x00, 0x00,
    0x00, 0x00, 0x00, 0x00, 0x00, 0x00, 0x00,
    0x00, 0x00, 0x00, 0x00, 0x00, 0x00, 0x00,
    0x00, 0x00, 0x00, 0x00, 0x00, 0x00, 0x00,
    0x22, 0x22, 0x22, 0x22, 0x22, 0x22, 0x00, 0x00, 0x00,
];

/// A waveform table: voltages and timings that take a pixel from one gray
/// level to another.
#[derive(Clone, Debug, PartialEq, Eq)]
pub struct WaveformLut {
    pub lut: [u8; 153],
}

/// The waveform table of four-level grayscale mode.
pub fn get_4_grayscale_lut() -> (table: WaveformLut)
    ensures
        table.lut@ == GRAYSCALE_LUT@,
        table.lut@.len() == LUT_LEN,
{
    WaveformLut { lut: GRAYSCALE_LUT }
}

/// The steps every bring-up begins with: one reset pulse, a wait, a software
/// reset, a wait.
pub open spec fn reset_prologue() -> Seq<OperationView> {
    reset_pulses(1) + await_idle() + command_frame(seq![SOFT_RESET]) + await_idle()
}

/// Bring-up of monochrome mode.
pub open spec fn monochrome_bring_up() -> Seq<OperationView> {
    reset_prologue()
    + command_frame(seq![DRIVER_OUTPUT_CONTROL])
    + data_frame(seq![0x27u8]) + data_frame(seq![0x01u8]) + data_frame(seq![0x00u8])
    + fused_frame(seq![DATA_ENTRY_MODE], seq![0x01u8])
    + command_frame(seq![SET_RAM_X_RANGE])
    + data_frame(seq![0x00u8]) + data_frame(seq![0x0Fu8])
    + command_frame(seq![SET_RAM_Y_RANGE])
    + data_frame(seq![0x27u8]) + data_frame(seq![0x01u8])
    + data_frame(seq![0x00u8]) + data_frame(seq![0x00u8])
    + fused_frame(seq![BORDER_WAVEFORM], seq![0x05u8])
    + command_frame(seq![DISPLAY_UPDATE_CONTROL_1])
    + data_frame(seq![0x00u8]) + data_frame(seq![0x80u8])
    + fused_frame(seq![TEMPERATURE_SENSOR], seq![0x80u8])
    + command_frame(seq![SET_RAM_X_COUNTER])
    + data_frame(seq![0x00u8])
    + command_frame(seq![SET_RAM_Y_COUNTER])
    + data_frame(seq![0x27u8]) + data_frame(seq![0x01u8])
    + await_idle()
}

/// Bring-up of four-level grayscale mode.
pub open spec fn grayscale_bring_up() -> Seq<OperationView> {
    reset_prologue()
    + command_frame(seq![ANALOG_BLOCK_CONTROL]) + data_frame(seq![0x54u8])
    + command_frame(seq![DIGITAL_BLOCK_CONTROL]) + data_frame(seq![0x3Bu8])
    + command_frame(seq![DRIVER_OUTPUT_CONTROL])
    + data_frame(seq![0x27u8]) + data_frame(seq![0x01u8]) + data_frame(seq![0x00u8])
    + fused_frame(seq![DATA_ENTRY_MODE], seq![0x03u8])
    + command_frame(seq![SET_RAM_X_RANGE])
    + data_frame(seq![0x00u8]) + data_frame(seq![0x0Fu8])
    + command_frame(seq![SET_RAM_Y_RANGE])
    + data_frame(seq![0x00u8]) + data_frame(seq![0x00u8])
    + data_frame(seq![0x27u8]) + data_frame(seq![0x01u8])
    + fused_frame(seq![BORDER_WAVEFORM], seq![0x00u8])
    + fused_frame(seq![VCOM_VOLTAGE], seq![0x30u8])
    + fused_frame(seq![END_OPTION], seq![0x22u8])
    + fused_frame(seq![GATE_VOLTAGE], seq![0x15u8])
    + command_frame(seq![SOURCE_VOLTAGE])
    + data_frame(seq![0x41u8]) + data_frame(seq![0xA8u8]) + data_frame(seq![0x32u8])
    + command_frame(seq![WRITE_LUT])
    + data_frame(GRAYSCALE_LUT@)
    + command_frame(seq![DISPLAY_UPDATE_CONTROL_1])
    + data_frame(seq![0x88u8]) + data_frame(seq![0x80u8])
    + fused_frame(seq![TEMPERATURE_SENSOR], seq![0x80u8])
    + command_frame(seq![SET_RAM_X_COUNTER])
    + data_frame(seq![0x00u8])
    + command_frame(seq![SET_RAM_Y_COUNTER])
    + data_frame(seq![0x27u8]) + data_frame(seq![0x01u8])
    + await_idle()
}

/// Bring-up of the given color mode.
pub open spec fn bring_up(color: ColorResolution) -> Seq<OperationView> {
    match color {
        ColorResolution::BlackAndWhiteMonochrome => monochrome_bring_up(),
        ColorResolution::FourColorGrayscale => grayscale_bring_up(),
    }
}

/// The control byte that selects the update sequence of a color mode.
pub open spec fn update_control(color: ColorResolution) -> u8 {
    match color {
        ColorResolution::BlackAndWhiteMonochrome => UPDATE_MONOCHROME,
        ColorResolution::FourColorGrayscale => UPDATE_GRAYSCALE,
    }
}

/// Showing what the memory planes hold: the update sequence is selected and
/// activated, and the refresh is waited for.
pub open spec fn refresh(color: ColorResolution) -> Seq<OperationView> {
    fused_frame(seq![DISPLAY_UPDATE_CONTROL_2], seq![update_control(color)])
    + command_frame(seq![MASTER_ACTIVATION])
    + await_idle()
}

/// The byte that fills a plane with black or with white pixels.
pub open spec fn fill_byte(black: bool) -> u8 {
    if black {
        0x00
    } else {
        0xff
    }
}

/// Filling the panel with one color: the black-and-white plane is written one
/// byte at a time.
pub open spec fn single_color_image(color: ColorResolution, black: bool) -> Seq<OperationView> {
    await_idle()
    + command_frame(seq![WRITE_RAM_BW])
    + repeated(data_frame(seq![fill_byte(black)]), PLANE_LEN as nat)
    + refresh(color)
}

/// Two rows of a checkerboard, one pixel wide.
pub open spec fn checker_rows() -> Seq<OperationView> {
    repeated(data_frame(seq![0x55u8]), ROW_LEN as nat)
    + repeated(data_frame(seq![0xAAu8]), ROW_LEN as nat)
}

/// A checkerboard of single pixels.
pub open spec fn alternating_pixel_grid(color: ColorResolution) -> Seq<OperationView> {
    await_idle()
    + command_frame(seq![WRITE_RAM_BW])
    + repeated(checker_rows(), ROW_PAIRS as nat)
    + refresh(color)
}

/// One quarter of a plane written with one byte value.
pub open spec fn quarter(value: u8) -> Seq<OperationView> {
    repeated(data_frame(seq![value]), QUARTER_PLANE as nat)
}

/// Four horizontal bands, one of each gray level.
pub open spec fn four_color_image(color: ColorResolution) -> Seq<OperationView> {
    await_idle()
    + command_frame(seq![WRITE_RAM_BW])
    + quarter(0xff) + quarter(0x00) + quarter(0xff) + quarter(0x00)
    + command_frame(seq![WRITE_RAM_RED])
    + quarter(0xff) + quarter(0xff) + quarter(0x00) + quarter(0x00)
    + refresh(color)
}

/// Showing an image: plane B of the buffer goes to the black-and-white
/// memory, plane A to the red memory, and the panel is refreshed.
pub open spec fn image(color: ColorResolution, buf: Seq<u8>) -> Seq<OperationView> {
    await_idle()
    + fused_frame(seq![WRITE_RAM_BW], plane_b(buf))
    + fused_frame(seq![WRITE_RAM_RED], plane_a(buf))
    + refresh(color)
}

/// Putting the controller into deep sleep.
pub open spec fn power_down() -> Seq<OperationView> {
    await_idle() + fused_frame(seq![DEEP_SLEEP], seq![0x01u8]) + pause(SLEEP_SETTLE_MS)
}

/// A controller of the current generation.
#[derive(Clone, Copy, Debug, PartialEq, Eq)]
pub struct GDEY029T94Controller {
    color_resolution: ColorResolution,
}

impl GDEY029T94Controller {
    /// The color mode the controller is driven in.
    pub closed spec fn color(&self) -> ColorResolution {
        self.color_resolution
    }

    /// A controller in four-level grayscale mode, and the operation that
    /// puts its lines at rest: the panel is released.
    pub fn new() -> (made: (GDEY029T94Controller, Program))
        ensures
            made.0.color() == ColorResolution::FourColorGrayscale,
            made.1@ == release(),
    {
        GDEY029T94Controller::with_color_resolution(ColorResolution::FourColorGrayscale)
    }

    /// A controller in the given color mode, and the operation that puts its
    /// lines at rest: the panel is released.
    pub fn with_color_resolution(color_resolution: ColorResolution) -> (made: (
        GDEY029T94Controller,
        Program,
    ))
        ensures
            made.0.color() == color_resolution,
            made.1@ == release(),
    {
        let mut program = Program::new();
        program.deselect();
        assert(program@ =~= release());
        (GDEY029T94Controller { color_resolution }, program)
    }

    /// The color mode the controller is driven in.
    pub fn color_resolution(&self) -> (color: ColorResolution)
        ensures
            color == self.color(),
    {
        self.color_resolution
    }

    /// How this generation is waited for: busy is high, and no wait lasts
    /// longer than the timeout.
    pub fn idle_poller(&self) -> (poller: IdlePoller)
        ensures
            poller.busy_level == Level::High,
            poller.ceiling_ms == Some(IDLE_TIMEOUT_MS),
    {
        IdlePoller::current_generation()
    }

    /// Decides what follows one sample of the busy line during a wait.
    pub fn wait_for_idle(&self, line: Level, elapsed_ms: u64) -> (next: Poll)
        ensures
            next == if line == Level::High && elapsed_ms < IDLE_TIMEOUT_MS {
                Poll::Sleep(crate::idle::IDLE_CHECK_INTERVAL_MS)
            } else {
                Poll::Idle
            },
    {
        self.idle_poller().wait_for_idle(line, elapsed_ms)
    }

    /// Appends the hardware reset: one pulse of the reset line.
    pub fn reset_ic(&self, program: &mut Program)
        ensures
            final(program)@ == old(program)@ + reset_pulses(1),
    {
        program.reset_ic(1);
    }

    /// Begins the bring-up of the controller in its color mode.
    pub fn start_epd(&self) -> (sequencer: InitSequencer)
        ensures
            sequencer.program() == bring_up(self.color()),
            sequencer.state() == initial_state(bring_up(self.color())),
    {
        let program = match self.color_resolution {
            ColorResolution::BlackAndWhiteMonochrome => self.init_epd_monochrome(),
            ColorResolution::FourColorGrayscale => self.init_epd_4_color_grayscale(),
        };
        InitSequencer::new(program)
    }

    fn reset_and_soft_reset(&self) -> (program: Program)
        ensures
            program@ == reset_prologue(),
    {
        let mut program = Program::new();
        self.reset_ic(&mut program);
        assert(program@ =~= reset_pulses(1));
        program.wait_for_idle();
        program.command(SOFT_RESET);
        program.wait_for_idle();
        program
    }

    /// The bring-up of monochrome mode.
    pub fn init_epd_monochrome(&self) -> (program: Program)
        ensures
            program@ == monochrome_bring_up(),
    {
        let mut program = self.reset_and_soft_reset();

        program.command(DRIVER_OUTPUT_CONTROL);
        program.data(0x27);
        program.data(0x01);
        program.data(0x00);

        program.command_with_data(DATA_ENTRY_MODE, 0x01);

        program.command(SET_RAM_X_RANGE);
        program.data(0x00);
        program.data(0x0F);

        program.command(SET_RAM_Y_RANGE);
        program.data(0x27);
        program.data(0x01);
        program.data(0x00);
        program.data(0x00);

        program.command_with_data(BORDER_WAVEFORM, 0x05);

        program.command(DISPLAY_UPDATE_CONTROL_1);
        program.data(0x00);
        program.data(0x80);

        program.command_with_data(TEMPERATURE_SENSOR, 0x80);

        program.command(SET_RAM_X_COUNTER);
        program.data(0x00);

        program.command(SET_RAM_Y_COUNTER);
        program.data(0x27);
        program.data(0x01);

        program.wait_for_idle();
        program
    }

    /// The bring-up of four-level grayscale mode.
    pub fn init_epd_4_color_grayscale(&self) -> (program: Program)
        ensures
            program@ == grayscale_bring_up(),
    {
        let mut program = self.reset_and_soft_reset();

        program.command(ANALOG_BLOCK_CONTROL);
        program.data(0x54);
        program.command(DIGITAL_BLOCK_CONTROL);
        program.data(0x3B);

        program.command(DRIVER_OUTPUT_CONTROL);
        program.data(0x27);
        program.data(0x01);
        program.data(0x00);

        program.command_with_data(DATA_ENTRY_MODE, 0x03);

        program.command(SET_RAM_X_RANGE);
        program.data(0x00);
        program.data(0x0F);

        program.command(SET_RAM_Y_RANGE);
        program.data(0x00);
        program.data(0x00);
        program.data(0x27);
        program.data(0x01);

        program.command_with_data(BORDER_WAVEFORM, 0x00);

        program.command_with_data(VCOM_VOLTAGE, 0x30);

        program.command_with_data(END_OPTION, 0x22);

        program.command_with_data(GATE_VOLTAGE, 0x15);

        program.command(SOURCE_VOLTAGE);
        program.data(0x41);
        program.data(0xA8);
        program.data(0x32);

        program.command(WRITE_LUT);
        let table = get_4_grayscale_lut();
        program.write_data(&table.lut);

        program.command(DISPLAY_UPDATE_CONTROL_1);
        program.data(0x88);
        program.data(0x80);

        program.command_with_data(TEMPERATURE_SENSOR, 0x80);

        program.command(SET_RAM_X_COUNTER);
        program.data(0x00);

        program.command(SET_RAM_Y_COUNTER);
        program.data(0x27);
        program.data(0x01);

        program.wait_for_idle();
        program
    }

    /// Appends the refresh of the controller's color mode.
    pub fn update_display(&self, program: &mut Program)
        ensures
            final(program)@ == old(program)@ + refresh(self.color()),
    {
        match self.color_resolution {
            ColorResolution::BlackAndWhiteMonochrome => self.update_display_monochrome(program),
            ColorResolution::FourColorGrayscale => self.update_display_4_color_grayscale(program),
        }
    }

    /// Appends the refresh of monochrome mode.
    pub fn update_display_monochrome(&self, program: &mut Program)
        ensures
            final(program)@ == old(program)@ + refresh(ColorResolution::BlackAndWhiteMonochrome),
    {
        program.command_with_data(DISPLAY_UPDATE_CONTROL_2, UPDATE_MONOCHROME);
        program.command(MASTER_ACTIVATION);
        program.wait_for_idle();
        assert(program@ =~= old(program)@ + refresh(ColorResolution::BlackAndWhiteMonochrome));
    }

    /// Appends the refresh of four-level grayscale mode.
    pub fn update_display_4_color_grayscale(&self, program: &mut Program)
        ensures
            final(program)@ == old(program)@ + refresh(ColorResolution::FourColorGrayscale),
    {
        program.command_with_data(DISPLAY_UPDATE_CONTROL_2, UPDATE_GRAYSCALE);
        program.command(MASTER_ACTIVATION);
        program.wait_for_idle();
        assert(program@ =~= old(program)@ + refresh(ColorResolution::FourColorGrayscale));
    }

    /// Fills the panel with black or with white.
    pub fn display_single_color_image(&self, black: bool) -> (program: Program)
        ensures
            program@ == single_color_image(self.color(), black),
    {
        let pixel: u8 = if black {
            0x00
        } else {
            0xff
        };
        let mut program = Program::new();
        program.wait_for_idle();
        assert(program@ =~= await_idle());
        program.command(WRITE_RAM_BW);
        program.write_data_repeated(pixel, PLANE_LEN);
        self.update_display(&mut program);
        program
    }

    /// Shows a checkerboard of single pixels.
    pub fn display_alternating_pixel_grid(&self) -> (program: Program)
        ensures
            program@ == alternating_pixel_grid(self.color()),
    {
        let mut program = Program::new();
        program.wait_for_idle();
        assert(program@ =~= await_idle());
        program.command(WRITE_RAM_BW);
        let ghost head = program@;
        let mut pair: usize = 0;
        assert(program@ =~= head + repeated(checker_rows(), 0));
        while pair < ROW_PAIRS
            invariant
                pair <= ROW_PAIRS,
                program@ == head + repeated(checker_rows(), pair as nat),
            decreases ROW_PAIRS - pair,
        {
            program.write_data_repeated(0b01010101, ROW_LEN);
            program.write_data_repeated(0b10101010, ROW_LEN);
            pair = pair + 1;
            assert(program@ =~= head + repeated(checker_rows(), pair as nat));
        }
        self.update_display(&mut program);
        program
    }

    /// Shows nothing: this generation has no noise pattern, and the panel is
    /// left untouched.
    pub fn display_random_static(&self) -> (program: Program)
        ensures
            program@ == Seq::<OperationView>::empty(),
    {
        Program::new()
    }

    /// Shows four horizontal bands, one of each gray level.
    pub fn display_four_color_image(&self) -> (program: Program)
        ensures
            program@ == four_color_image(self.color()),
    {
        let mut program = Program::new();
        program.wait_for_idle();
        assert(program@ =~= await_idle());

        program.command(WRITE_RAM_BW);
        program.write_data_repeated(0xff, QUARTER_PLANE);
        program.write_data_repeated(0x00, QUARTER_PLANE);
        program.write_data_repeated(0xff, QUARTER_PLANE);
        program.write_data_repeated(0x00, QUARTER_PLANE);

        program.command(WRITE_RAM_RED);
        program.write_data_repeated(0xff, QUARTER_PLANE);
        program.write_data_repeated(0xff, QUARTER_PLANE);
        program.write_data_repeated(0x00, QUARTER_PLANE);
        program.write_data_repeated(0x00, QUARTER_PLANE);

        self.update_display(&mut program);
        program
    }

    /// Fills the panel with black.
    pub fn display_black_image(&self) -> (program: Program)
        ensures
            program@ == single_color_image(self.color(), true),
    {
        self.display_single_color_image(true)
    }

    /// Fills the panel with white.
    pub fn display_white_image(&self) -> (program: Program)
        ensures
            program@ == single_color_image(self.color(), false),
    {
        self.display_single_color_image(false)
    }

    /// Shows the image held in `buf`, a pixel buffer of the panel's size.
    pub fn display_image(&self, buf: Vec<u8>) -> (program: Program)
        requires
            buf@.len() == PIXEL_BUFFER_LEN,
        ensures
            program@ == image(self.color(), buf@),
    {
        let mut program = Program::new();
        program.wait_for_idle();
        assert(program@ =~= await_idle());

        let planes = encode(buf.as_slice());
        let old_data = planes.plane_b;
        let new_data = planes.plane_a;

        let bw = [WRITE_RAM_BW];
        assert(bw@ =~= seq![WRITE_RAM_BW]);
        program.write_command_with_data(&bw, old_data.as_slice());

        let red = [WRITE_RAM_RED];
        assert(red@ =~= seq![WRITE_RAM_RED]);
        program.write_command_with_data(&red, new_data.as_slice());

        self.update_display(&mut program);
        program
    }

    /// Puts the controller into deep sleep.
    pub fn sleep(&self) -> (program: Program)
        ensures
            program@ == power_down(),
    {
        let mut program = Program::new();
        program.wait_for_idle();
        assert(program@ =~= await_idle());
        program.command_with_data(DEEP_SLEEP, 0x01);
        program.delay(SLEEP_SETTLE_MS);
        program
    }
}

/// The bring-up of monochrome mode has 109 operations, 27 of them byte
/// exchanges.
pub proof fn lemma_monochrome_bring_up_size()
    ensures
        monochrome_bring_up().len() == 109,
        transfers(monochrome_bring_up()).len() == 27,
{
    broadcast use {
        crate::transport::lemma_transfers_concat,
        crate::transport::lemma_transfers_of_command,
        crate::transport::lemma_transfers_of_data,
        crate::transport::lemma_transfers_of_fused,
        crate::transport::lemma_transfers_of_reset,
    };
    crate::transport::lemma_transfers_of_idle_steps(0);
    reveal_with_fuel(reset_pulses, 2);
}

/// The bring-up of four-level grayscale mode has 167 operations, 43 of them
/// byte exchanges.
pub proof fn lemma_grayscale_bring_up_size()
    ensures
        grayscale_bring_up().len() == 167,
        transfers(grayscale_bring_up()).len() == 43,
{
    broadcast use {
        crate::transport::lemma_transfers_concat,
        crate::transport::lemma_transfers_of_command,
        crate::transport::lemma_transfers_of_data,
        crate::transport::lemma_transfers_of_fused,
        crate::transport::lemma_transfers_of_reset,
    };
    crate::transport::lemma_transfers_of_idle_steps(0);
    reveal_with_fuel(reset_pulses, 2);
}

/// No operation of either bring-up checks for the presence of a panel.
pub proof fn lemma_bring_up_checks_nothing(color: ColorResolution)
    ensures
        crate::transport::checks_nothing(bring_up(color)),
{
    broadcast use {
        crate::transport::lemma_checks_nothing_concat,
        crate::transport::lemma_command_checks_nothing,
        crate::transport::lemma_data_checks_nothing,
        crate::transport::lemma_fused_checks_nothing,
        crate::transport::lemma_reset_checks_nothing,
    };
    crate::transport::lemma_idle_checks_nothing();
    assert(crate::transport::checks_nothing(monochrome_bring_up()));
    assert(crate::transport::checks_nothing(grayscale_bring_up()));
}

/// When every operation goes through, however short the waits, the bring-up
/// of monochrome mode is ready after exactly 109 operations and that of
/// grayscale mode after exactly 167, and is still running after any smaller
/// number of them.
pub proof fn lemma_bring_up_reaches_ready(color: ColorResolution, outcomes: Seq<Outcome>)
    requires
        outcomes.len() == bring_up(color).len(),
        forall|i: int| 0 <= i < outcomes.len() ==> #[trigger] outcomes[i] is Completed,
    ensures
        outcomes.len() == match color {
            ColorResolution::BlackAndWhiteMonochrome => 109nat,
            ColorResolution::FourColorGrayscale => 167nat,
        },
        state_after(bring_up(color), outcomes) == SequencerState::Ready,
        forall|done: int|
            0 <= done < outcomes.len() ==> #[trigger] state_after(
                bring_up(color),
                outcomes.take(done),
            ) == (SequencerState::Running { next: done as usize }),
{
    lemma_monochrome_bring_up_size();
    lemma_grayscale_bring_up_size();
    lemma_bring_up_checks_nothing(color);
    let program = bring_up(color);
    lemma_bring_up_completes(program, outcomes);
    assert forall|done: int| 0 <= done < outcomes.len() implies #[trigger] state_after(
        program,
        outcomes.take(done),
    ) == (SequencerState::Running { next: done as usize }) by {
        let prefix = outcomes.take(done);
        assert forall|i: int| 0 <= i < prefix.len() implies crate::sequencer::passes_presence_check(
            program[i],
            #[trigger] prefix[i],
        ) by {
            assert(prefix[i] == outcomes[i]);
        }
        lemma_bring_up_completes(program, prefix);
    }
}

/// What the bring-up of monochrome mode puts on the wire, exchange by
/// exchange: no waveform table is written.
pub proof fn lemma_monochrome_bring_up_on_the_wire()
    ensures
        transfers(monochrome_bring_up()) == seq![
            seq![SOFT_RESET],
            seq![DRIVER_OUTPUT_CONTROL],
            seq![0x27u8],
            seq![0x01u8],
            seq![0x00u8],
            seq![DATA_ENTRY_MODE],
            seq![0x01u8],
            seq![SET_RAM_X_RANGE],
            seq![0x00u8],
            seq![0x0Fu8],
            seq![SET_RAM_Y_RANGE],
            seq![0x27u8],
            seq![0x01u8],
            seq![0x00u8],
            seq![0x00u8],
            seq![BORDER_WAVEFORM],
            seq![0x05u8],
            seq![DISPLAY_UPDATE_CONTROL_1],
            seq![0x00u8],
            seq![0x80u8],
            seq![TEMPERATURE_SENSOR],
            seq![0x80u8],
            seq![SET_RAM_X_COUNTER],
            seq![0x00u8],
            seq![SET_RAM_Y_COUNTER],
            seq![0x27u8],
            seq![0x01u8],
        ],
{
    broadcast use {
        crate::transport::lemma_transfers_concat,
        crate::transport::lemma_transfers_of_command,
        crate::transport::lemma_transfers_of_data,
        crate::transport::lemma_transfers_of_fused,
        crate::transport::lemma_transfers_of_reset,
    };
    crate::transport::lemma_transfers_of_idle_steps(0);
}

/// What the bring-up of four-level grayscale mode puts on the wire, exchange
/// by exchange: the waveform table is written before the display update is
/// configured.
pub proof fn lemma_grayscale_bring_up_on_the_wire()
    ensures
        transfers(grayscale_bring_up()) == seq![
            seq![SOFT_RESET],
            seq![ANALOG_BLOCK_CONTROL],
            seq![0x54u8],
            seq![DIGITAL_BLOCK_CONTROL],
            seq![0x3Bu8],
            seq![DRIVER_OUTPUT_CONTROL],
            seq![0x27u8],
            seq![0x01u8],
            seq![0x00u8],
            seq![DATA_ENTRY_MODE],
            seq![0x03u8],
            seq![SET_RAM_X_RANGE],
            seq![0x00u8],
            seq![0x0Fu8],
            seq![SET_RAM_Y_RANGE],
            seq![0x00u8],
            seq![0x00u8],
            seq![0x27u8],
            seq![0x01u8],
            seq![BORDER_WAVEFORM],
            seq![0x00u8],
            seq![VCOM_VOLTAGE],
            seq![0x30u8],
            seq![END_OPTION],
            seq![0x22u8],
            seq![GATE_VOLTAGE],
            seq![0x15u8],
            seq![SOURCE_VOLTAGE],
            seq![0x41u8],
            seq![0xA8u8],
            seq![0x32u8],
            seq![WRITE_LUT],
            GRAYSCALE_LUT@,
            seq![DISPLAY_UPDATE_CONTROL_1],
            seq![0x88u8],
            seq![0x80u8],
            seq![TEMPERATURE_SENSOR],
            seq![0x80u8],
            seq![SET_RAM_X_COUNTER],
            seq![0x00u8],
            seq![SET_RAM_Y_COUNTER],
            seq![0x27u8],
            seq![0x01u8],
        ],
{
    broadcast use {
        crate::transport::lemma_transfers_concat,
        crate::transport::lemma_transfers_of_command,
        crate::transport::lemma_transfers_of_data,
        crate::transport::lemma_transfers_of_fused,
        crate::transport::lemma_transfers_of_reset,
    };
    crate::transport::lemma_transfers_of_idle_steps(0);
}

/// What showing an image puts on the wire: the lower bits of the pixels go
/// to the black-and-white memory, then the upper bits to the red memory, then
/// the update sequence of the color mode is selected and activated.
pub proof fn lemma_image_on_the_wire(color: ColorResolution, buf: Seq<u8>)
    ensures
        transfers(image(color, buf)) == seq![
            seq![WRITE_RAM_BW],
            plane_b(buf),
            seq![WRITE_RAM_RED],
            plane_a(buf),
            seq![DISPLAY_UPDATE_CONTROL_2],
            seq![update_control(color)],
            seq![MASTER_ACTIVATION],
        ],
        update_control(ColorResolution::BlackAndWhiteMonochrome) != update_control(
            ColorResolution::FourColorGrayscale,
        ),
{
    broadcast use {
        crate::transport::lemma_transfers_concat,
        crate::transport::lemma_transfers_of_command,
        crate::transport::lemma_transfers_of_data,
        crate::transport::lemma_transfers_of_fused,
        crate::transport::lemma_transfers_of_reset,
    };
    crate::transport::lemma_transfers_of_idle_steps(0);
}

/// What going to sleep puts on the wire.
pub proof fn lemma_power_down_on_the_wire()
    ensures
        transfers(power_down()) == seq![seq![DEEP_SLEEP], seq![0x01u8]],
{
    broadcast use {
        crate::transport::lemma_transfers_concat,
        crate::transport::lemma_transfers_of_command,
        crate::transport::lemma_transfers_of_data,
        crate::transport::lemma_transfers_of_fused,
        crate::transport::lemma_transfers_of_reset,
    };
    crate::transport::lemma_transfers_of_idle_steps(SLEEP_SETTLE_MS);
}

} // verus!
