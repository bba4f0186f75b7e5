//! Driver logic for the legacy controller generation (GDEW029T5D panels).
//!
//! The legacy controller is reset with three pulses, proves its presence by
//! the time it takes to power on, and forgets its waveform tables between
//! refreshes, so they are written again before every image.

use vstd::prelude::*;
use crate::encoder::{encode, plane_a, plane_b};
use crate::idle::{IdlePoller, Poll};
use crate::panel::{PIXEL_BUFFER_LEN, PLANE_LEN, ROW_LEN};
use crate::sequencer::{
    initial_state, lemma_bring_up_completes, lemma_failure_is_final, passes_presence_check,
    state_after, InitSequencer, Outcome, SequencerState, StartError, POWER_ON_FLOOR_MS,
};
use crate::transport::{
    await_idle, await_power_on, command_frame, data_frame, fused_frame, pause, release, repeated,
    reset_pulses, transfers, Level, OperationView, Program,
};

verus! {

/// Panel setting.
pub const PANEL_SETTING: u8 = 0x00;

/// Power setting.
pub const POWER_SETTING: u8 = 0x01;

/// Power off.
pub const POWER_OFF: u8 = 0x02;

/// Power on.
pub const POWER_ON: u8 = 0x04;

/// Booster soft start.
pub const BOOSTER_SOFT_START: u8 = 0x06;

/// Deep sleep.
pub const DEEP_SLEEP: u8 = 0x07;

/// Start of the transmission of the first memory plane.
pub const DATA_START_TRANSMISSION_1: u8 = 0x10;

/// Display refresh.
pub const DISPLAY_REFRESH: u8 = 0x12;

/// Start of the transmission of the second memory plane.
pub const DATA_START_TRANSMISSION_2: u8 = 0x13;

/// Waveform table of the common electrode.
pub const LUT_FOR_VCOM: u8 = 0x20;

/// Waveform table of the white to white transition.
pub const LUT_WHITE_TO_WHITE: u8 = 0x21;

/// Waveform table of the black to white transition.
pub const LUT_BLACK_TO_WHITE: u8 = 0x22;

/// Waveform table of the white to black transition.
pub const LUT_WHITE_TO_BLACK: u8 = 0x23;

/// Waveform table of the black to black transition.
pub const LUT_BLACK_TO_BLACK: u8 = 0x24;

/// VCOM and data interval setting.
pub const VCOM_AND_DATA_INTERVAL: u8 = 0x50;

/// VCOM DC setting.
pub const VCOM_DC_SETTING: u8 = 0x82;

/// Check code that has to accompany the deep sleep command.
pub const DEEP_SLEEP_CHECK: u8 = 0xA5;

/// Number of pulses of the hardware reset.
pub const RESET_PULSES: u8 = 3;

/// Milliseconds between the refresh command and the wait for its end.
pub const REFRESH_SETTLE_MS: u64 = 10;

/// Data writes in one quarter of a plane.
pub const QUARTER_PLANE: usize = 1184;

/// Pairs of rows on the panel.
pub const ROW_PAIRS: usize = 148;

/// Phase lengths of the booster soft start.
pub const BOOSTER_PHASES: [u8; 3] = [0x17, 0x17, 0x17];

/// Power setting: the internal supplies and the driving voltages.
pub const POWER_LEVELS: [u8; 5] = [0x03, 0x00, 0x2b, 0x2b, 0x13];

/// Waveform of the common electrode.
pub const LUT_VCOM: [u8; 44] = [
    0x00, 0x0A, 0x00, 0x00, 0x00, 0x01,
    0x60, 0x14, 0x14, 0x00, 0x00, 0x01,
    0x00, 0x14, 0x00, 0x00, 0x00, 0x01,
    0x00, 0x13, 0x0A, 0x01, 0x00, 0x01,
    0x00, 0x00, 0x00, 0x00, 0x00, 0x00,
    0x00, 0x00, 0x00, 0x00, 0x00, 0x00,
    0x00, 0x00, 0x00, 0x00, 0x00, 0x00,
    0x00, 0x00,
];

/// Waveform of the white to white transition.
pub const LUT_WW: [u8; 42] = [
    0x40, 0x0A, 0x00, 0x00, 0x00, 0x01,
    0x90, 0x14, 0x14, 0x00, 0x00, 0x01,
    0x10, 0x14, 0x0A, 0x00, 0x00, 0x01,
    0xA0, 0x13, 0x01, 0x00, 0x00, 0x01,
    0x00, 0x00, 0x00, 0x00, 0x00, 0x00,
    0x00, 0x00, 0x00, 0x00, 0x00, 0x00,
    0x00, 0x00, 0x00, 0x00, 0x00, 0x00,
];

/// Waveform of the black to white transition.
pub const LUT_BW: [u8; 42] = [
    0x40, 0x0A, 0x00, 0x00, 0x00, 0x01,
    0x90, 0x14, 0x14, 0x00, 0x00, 0x01,
    0x00, 0x14, 0x0A, 0x00, 0x00, 0x01,
    0x99, 0x0C, 0x01, 0x03, 0x04, 0x01,
    0x00, 0x00, 0x00, 0x00, 0x00, 0x00,
    0x00, 0x00, 0x00, 0x00, 0x00, 0x00,
    0x00, 0x00, 0x00, 0x00, 0x00, 0x00,
];

/// Waveform of the white to black transition.
pub const LUT_WB: [u8; 42] = [
    0x40, 0x0A, 0x00, 0x00, 0x00, 0x01,
    0x90, 0x14, 0x14, 0x00, 0x00, 0x01,
    0x00, 0x14, 0x0A, 0x00, 0x00, 0x01,
    0x99, 0x0B, 0x04, 0x04, 0x01, 0x01,
    0x00, 0x00, 0x00, 0x00, 0x00, 0x00,
    0x00, 0x00, 0x00, 0x00, 0x00, 0x00,
    0x00, 0x00, 0x00, 0x00, 0x00, 0x00,
];

/// Waveform of the black to black transition.
pub const LUT_BB: [u8; 42] = [
    0x80, 0x0A, 0x00, 0x00, 0x00, 0x01,
    0x90, 0x14, 0x14, 0x00, 0x00, 0x01,
    0x20, 0x14, 0x0A, 0x00, 0x00, 0x01,
    0x50, 0x13, 0x01, 0x00, 0x00, 0x01,
    0x00, 0x00, 0x00, 0x00, 0x00, 0x00,
    0x00, 0x00, 0x00, 0x00, 0x00, 0x00,
    0x00, 0x00, 0x00, 0x00, 0x00, 0x00,
];

/// The waveform tables of the legacy controller: one for the common
/// electrode and one for each transition between black and white.
#[derive(Clone, Debug, PartialEq, Eq)]
pub struct WaveformLut {
    pub vcom: [u8; 44],
    pub ww: [u8; 42],
    pub bw: [u8; 42],
    pub wb: [u8; 42],
    pub bb: [u8; 42],
}

/// Writing the five waveform tables, each under its own command and in this
/// order: common electrode, white to white, black to white, white to black,
/// black to black.
pub open spec fn lut_load(
    vcom: Seq<u8>,
    ww: Seq<u8>,
    bw: Seq<u8>,
    wb: Seq<u8>,
    bb: Seq<u8>,
) -> Seq<OperationView> {
    fused_frame(seq![LUT_FOR_VCOM], vcom)
    + fused_frame(seq![LUT_WHITE_TO_WHITE], ww)
    + fused_frame(seq![LUT_BLACK_TO_WHITE], bw)
    + fused_frame(seq![LUT_WHITE_TO_BLACK], wb)
    + fused_frame(seq![LUT_BLACK_TO_BLACK], bb)
}

/// Writing the four-level grayscale waveform tables.
pub open spec fn grayscale_lut_load() -> Seq<OperationView> {
    lut_load(LUT_VCOM@, LUT_WW@, LUT_BW@, LUT_WB@, LUT_BB@)
}

/// The bring-up: the panel is released and reset, the booster and the power
/// levels are set, power is switched on and the time this takes is checked,
/// then the panel and the common electrode are configured.
pub open spec fn bring_up() -> Seq<OperationView> {
    release()
    + reset_pulses(RESET_PULSES as nat)
    + fused_frame(seq![BOOSTER_SOFT_START], BOOSTER_PHASES@)
    + fused_frame(seq![POWER_SETTING], POWER_LEVELS@)
    + command_frame(seq![POWER_ON])
    + await_power_on()
    + fused_frame(seq![PANEL_SETTING], seq![0b1011_1111u8])
    + fused_frame(seq![VCOM_DC_SETTING], seq![0x12u8])
    + fused_frame(seq![VCOM_AND_DATA_INTERVAL], seq![0x97u8])
}

/// Showing what the memory planes hold.
pub open spec fn refresh() -> Seq<OperationView> {
    command_frame(seq![DISPLAY_REFRESH]) + pause(REFRESH_SETTLE_MS) + await_idle()
}

/// The byte that fills a plane with black or with white pixels.
pub open spec fn fill_byte(black: bool) -> u8 {
    if black {
        0x00
    } else {
        0xff
    }
}

/// Filling the panel with one color: both planes are written one byte at a
/// time.
pub open spec fn single_color_image(black: bool) -> Seq<OperationView> {
    await_idle()
    + command_frame(seq![DATA_START_TRANSMISSION_1])
    + repeated(data_frame(seq![fill_byte(black)]), PLANE_LEN as nat)
    + command_frame(seq![DATA_START_TRANSMISSION_2])
    + repeated(data_frame(seq![fill_byte(black)]), PLANE_LEN as nat)
    + refresh()
}

/// Two rows of a checkerboard, one pixel wide.
pub open spec fn checker_rows() -> Seq<OperationView> {
    repeated(data_frame(seq![0x55u8]), ROW_LEN as nat)
    + repeated(data_frame(seq![0xAAu8]), ROW_LEN as nat)
}

/// A checkerboard of single pixels, in both planes.
pub open spec fn alternating_pixel_grid() -> Seq<OperationView> {
    await_idle()
    + command_frame(seq![DATA_START_TRANSMISSION_1])
    + repeated(checker_rows(), ROW_PAIRS as nat)
    + command_frame(seq![DATA_START_TRANSMISSION_2])
    + repeated(checker_rows(), ROW_PAIRS as nat)
    + refresh()
}

/// The bytes of `plane` written one data frame each, in order.
pub open spec fn byte_writes(plane: Seq<u8>) -> Seq<OperationView>
    decreases plane.len(),
{
    if plane.len() == 0 {
        Seq::empty()
    } else {
        byte_writes(plane.drop_last()) + data_frame(seq![plane.last()])
    }
}

/// Showing the two planes `first` and `second`, written one byte at a time.
pub open spec fn static_image(first: Seq<u8>, second: Seq<u8>) -> Seq<OperationView> {
    await_idle()
    + command_frame(seq![DATA_START_TRANSMISSION_1])
    + byte_writes(first)
    + command_frame(seq![DATA_START_TRANSMISSION_2])
    + byte_writes(second)
    + refresh()
}

/// One quarter of a plane written with one byte value.
pub open spec fn quarter(value: u8) -> Seq<OperationView> {
    repeated(data_frame(seq![value]), QUARTER_PLANE as nat)
}

/// Four horizontal bands, one of each gray level.
pub open spec fn four_color_image() -> Seq<OperationView> {
    await_idle()
    + grayscale_lut_load()
    + command_frame(seq![DATA_START_TRANSMISSION_1])
    + quarter(0xff) + quarter(0xff) + quarter(0x00) + quarter(0x00)
    + command_frame(seq![DATA_START_TRANSMISSION_2])
    + quarter(0xff) + quarter(0x00) + quarter(0xff) + quarter(0x00)
    + refresh()
}

/// Showing an image: the waveform tables are written again, plane A of the
/// buffer goes to the first memory plane, plane B to the second, and the
/// panel is refreshed.
pub open spec fn image(buf: Seq<u8>) -> Seq<OperationView> {
    await_idle()
    + grayscale_lut_load()
    + fused_frame(seq![DATA_START_TRANSMISSION_1], plane_a(buf))
    + fused_frame(seq![DATA_START_TRANSMISSION_2], plane_b(buf))
    + refresh()
}

/// Putting the controller to sleep: the common electrode is floated, power is
/// switched off and waited for, and deep sleep is entered.
pub open spec fn power_down() -> Seq<OperationView> {
    await_idle()
    + fused_frame(seq![VCOM_AND_DATA_INTERVAL], seq![0xf7u8])
    + command_frame(seq![POWER_OFF])
    + await_idle()
    + fused_frame(seq![DEEP_SLEEP], seq![DEEP_SLEEP_CHECK])
}

/// A byte drawn from the thread's random number generator, by `Rng::gen` on
/// `rand::thread_rng()`. Every byte value can come back and two calls need not
/// agree, so the contract promises nothing of the result. The generator seeds
/// itself from the operating system on its first use in a thread.
#[verifier::external_body]
fn random_byte() -> u8 {
    rand::Rng::gen::<u8>(&mut rand::thread_rng())
}

/// A controller of the legacy generation.
#[derive(Clone, Copy, Debug, PartialEq, Eq)]
pub struct GDEW029T5DController {}

/// A controller of the legacy generation, and the operation that puts its
/// lines at rest: the panel is released.
pub fn init_epd() -> (made: (GDEW029T5DController, Program))
    ensures
        made.1@ == release(),
{
    let mut program = Program::new();
    program.deselect();
    assert(program@ =~= release());
    (GDEW029T5DController {  }, program)
}

impl GDEW029T5DController {
    /// How this generation is waited for: busy is low, and the wait has no
    /// ceiling.
    pub fn idle_poller(&self) -> (poller: IdlePoller)
        ensures
            poller.busy_level == Level::Low,
            poller.ceiling_ms == None::<u64>,
    {
        IdlePoller::legacy_generation()
    }

    /// Decides what follows one sample of the busy line during a wait.
    pub fn wait_for_idle(&self, line: Level, elapsed_ms: u64) -> (next: Poll)
        ensures
            next == if line == Level::Low {
                Poll::Sleep(crate::idle::IDLE_CHECK_INTERVAL_MS)
            } else {
                Poll::Idle
            },
    {
        self.idle_poller().wait_for_idle(line, elapsed_ms)
    }

    /// Appends the hardware reset: three pulses of the reset line.
    pub fn reset_ic(&self, program: &mut Program)
        ensures
            final(program)@ == old(program)@ + reset_pulses(RESET_PULSES as nat),
    {
        program.reset_ic(RESET_PULSES);
    }

    /// The four-level grayscale waveform tables.
    pub fn get_4_grayscale_lut() -> (lut: WaveformLut)
        ensures
            lut.vcom@ == LUT_VCOM@,
            lut.ww@ == LUT_WW@,
            lut.bw@ == LUT_BW@,
            lut.wb@ == LUT_WB@,
            lut.bb@ == LUT_BB@,
    {
        WaveformLut { vcom: LUT_VCOM, ww: LUT_WW, bw: LUT_BW, wb: LUT_WB, bb: LUT_BB }
    }

    /// Appends the writes of the five waveform tables.
    pub fn load_lut(&self, program: &mut Program, lut: WaveformLut)
        ensures
            final(program)@ == old(program)@ + lut_load(
                lut.vcom@,
                lut.ww@,
                lut.bw@,
                lut.wb@,
                lut.bb@,
            ),
    {
        let vcom = [LUT_FOR_VCOM];
        let ww = [LUT_WHITE_TO_WHITE];
        let bw = [LUT_BLACK_TO_WHITE];
        let wb = [LUT_WHITE_TO_BLACK];
        let bb = [LUT_BLACK_TO_BLACK];
        assert(vcom@ =~= seq![LUT_FOR_VCOM]);
        assert(ww@ =~= seq![LUT_WHITE_TO_WHITE]);
        assert(bw@ =~= seq![LUT_BLACK_TO_WHITE]);
        assert(wb@ =~= seq![LUT_WHITE_TO_BLACK]);
        assert(bb@ =~= seq![LUT_BLACK_TO_BLACK]);
        program.write_command_with_data(&vcom, &lut.vcom);
        program.write_command_with_data(&ww, &lut.ww);
        program.write_command_with_data(&bw, &lut.bw);
        program.write_command_with_data(&wb, &lut.wb);
        program.write_command_with_data(&bb, &lut.bb);
        assert(program@ =~= old(program)@ + lut_load(
            lut.vcom@,
            lut.ww@,
            lut.bw@,
            lut.wb@,
            lut.bb@,
        ));
    }

    /// Begins the bring-up of the controller.
    pub fn start_epd(&self) -> (sequencer: InitSequencer)
        ensures
            sequencer.program() == bring_up(),
            sequencer.state() == initial_state(bring_up()),
    {
        let mut program = Program::new();
        program.deselect();
        assert(program@ =~= release());

        self.reset_ic(&mut program);

        let booster = [BOOSTER_SOFT_START];
        assert(booster@ =~= seq![BOOSTER_SOFT_START]);
        program.write_command_with_data(&booster, &BOOSTER_PHASES);

        let power = [POWER_SETTING];
        assert(power@ =~= seq![POWER_SETTING]);
        program.write_command_with_data(&power, &POWER_LEVELS);

        program.command(POWER_ON);
        program.wait_for_power_on();

        program.command_with_data(PANEL_SETTING, 0b1011_1111);
        program.command_with_data(VCOM_DC_SETTING, 0x12);
        program.command_with_data(VCOM_AND_DATA_INTERVAL, 0x97);

        InitSequencer::new(program)
    }

    /// Appends the refresh: the command, a short pause, and the wait for the
    /// controller.
    pub fn update_display(&self, program: &mut Program)
        ensures
            final(program)@ == old(program)@ + refresh(),
    {
        program.command(DISPLAY_REFRESH);
        program.delay(REFRESH_SETTLE_MS);
        program.wait_for_idle();
        assert(program@ =~= old(program)@ + refresh());
    }

    /// Fills the panel with black or with white.
    pub fn display_single_color_image(&self, black: bool) -> (program: Program)
        ensures
            program@ == single_color_image(black),
    {
        let pixel: u8 = if black {
            0x00
        } else {
            0xff
        };
        let mut program = Program::new();
        program.wait_for_idle();
        assert(program@ =~= await_idle());
        program.command(DATA_START_TRANSMISSION_1);
        program.write_data_repeated(pixel, PLANE_LEN);
        program.command(DATA_START_TRANSMISSION_2);
        program.write_data_repeated(pixel, PLANE_LEN);
        self.update_display(&mut program);
        program
    }

    fn checkerboard(&self, program: &mut Program)
        ensures
            final(program)@ == old(program)@ + repeated(checker_rows(), ROW_PAIRS as nat),
    {
        let mut pair: usize = 0;
        assert(program@ =~= old(program)@ + repeated(checker_rows(), 0));
        while pair < ROW_PAIRS
            invariant
                pair <= ROW_PAIRS,
                program@ == old(program)@ + repeated(checker_rows(), pair as nat),
            decreases ROW_PAIRS - pair,
        {
            program.write_data_repeated(0b01010101, ROW_LEN);
            program.write_data_repeated(0b10101010, ROW_LEN);
            pair = pair + 1;
            assert(program@ =~= old(program)@ + repeated(checker_rows(), pair as nat));
        }
    }

    /// Shows a checkerboard of single pixels.
    pub fn display_alternating_pixel_grid(&self) -> (program: Program)
        ensures
            program@ == alternating_pixel_grid(),
    {
        let mut program = Program::new();
        program.wait_for_idle();
        assert(program@ =~= await_idle());
        program.command(DATA_START_TRANSMISSION_1);
        self.checkerboard(&mut program);
        program.command(DATA_START_TRANSMISSION_2);
        self.checkerboard(&mut program);
        self.update_display(&mut program);
        program
    }

    fn write_bytes(&self, program: &mut Program, plane: &Vec<u8>)
        ensures
            final(program)@ == old(program)@ + byte_writes(plane@),
    {
        let mut at: usize = 0;
        assert(plane@.take(0) =~= Seq::<u8>::empty());
        assert(program@ =~= old(program)@ + byte_writes(plane@.take(0)));
        while at < plane.len()
            invariant
                at <= plane@.len(),
                program@ == old(program)@ + byte_writes(plane@.take(at as int)),
            decreases plane@.len() - at,
        {
            program.data(plane[at]);
            assert(plane@.take(at + 1).drop_last() =~= plane@.take(at as int));
            assert(plane@.take(at + 1).last() == plane@[at as int]);
            at = at + 1;
            assert(program@ =~= old(program)@ + byte_writes(plane@.take(at as int)));
        }
        assert(plane@.take(at as int) =~= plane@);
    }

    /// Shows the two planes `first` and `second`, written one byte at a time.
    pub fn display_static(&self, first: &Vec<u8>, second: &Vec<u8>) -> (program: Program)
        ensures
            program@ == static_image(first@, second@),
    {
        let mut program = Program::new();
        program.wait_for_idle();
        assert(program@ =~= await_idle());
        program.command(DATA_START_TRANSMISSION_1);
        self.write_bytes(&mut program, first);
        program.command(DATA_START_TRANSMISSION_2);
        self.write_bytes(&mut program, second);
        self.update_display(&mut program);
        program
    }

    fn random_plane(&self) -> (plane: Vec<u8>)
        ensures
            plane@.len() == PLANE_LEN,
    {
        let mut plane: Vec<u8> = Vec::with_capacity(PLANE_LEN);
        let mut at: usize = 0;
        while at < PLANE_LEN
            invariant
                at <= PLANE_LEN,
                plane@.len() == at,
            decreases PLANE_LEN - at,
        {
            plane.push(random_byte());
            at = at + 1;
        }
        plane
    }

    /// Shows random noise: two planes of the panel's size drawn byte by byte
    /// from the random number generator, the first plane before the second,
    /// and written one byte at a time.
    pub fn display_random_static(&self) -> (program: Program)
        ensures
            exists|first: Seq<u8>, second: Seq<u8>|
                first.len() == PLANE_LEN && second.len() == PLANE_LEN && #[trigger] static_image(
                    first,
                    second,
                ) == program@,
    {
        let first = self.random_plane();
        let second = self.random_plane();
        let program = self.display_static(&first, &second);
        assert(static_image(first@, second@) == program@);
        program
    }

    /// Shows four horizontal bands, one of each gray level.
    pub fn display_four_color_image(&self) -> (program: Program)
        ensures
            program@ == four_color_image(),
    {
        let mut program = Program::new();
        program.wait_for_idle();
        assert(program@ =~= await_idle());

        self.load_lut(&mut program, GDEW029T5DController::get_4_grayscale_lut());

        program.command(DATA_START_TRANSMISSION_1);
        program.write_data_repeated(0xff, QUARTER_PLANE);
        program.write_data_repeated(0xff, QUARTER_PLANE);
        program.write_data_repeated(0x00, QUARTER_PLANE);
        program.write_data_repeated(0x00, QUARTER_PLANE);

        program.command(DATA_START_TRANSMISSION_2);
        program.write_data_repeated(0xff, QUARTER_PLANE);
        program.write_data_repeated(0x00, QUARTER_PLANE);
        program.write_data_repeated(0xff, QUARTER_PLANE);
        program.write_data_repeated(0x00, QUARTER_PLANE);

        self.update_display(&mut program);
        program
    }

    /// Fills the panel with black.
    pub fn display_black_image(&self) -> (program: Program)
        ensures
            program@ == single_color_image(true),
    {
        self.display_single_color_image(true)
    }

    /// Fills the panel with white.
    pub fn display_white_image(&self) -> (program: Program)
        ensures
            program@ == single_color_image(false),
    {
        self.display_single_color_image(false)
    }

    /// Shows the image held in `buf`, a pixel buffer of the panel's size.
    pub fn display_image(&self, buf: Vec<u8>) -> (program: Program)
        requires
            buf@.len() == PIXEL_BUFFER_LEN,
        ensures
            program@ == image(buf@),
    {
        let mut program = Program::new();
        program.wait_for_idle();
        assert(program@ =~= await_idle());

        let planes = encode(buf.as_slice());
        let old_data = planes.plane_a;
        let new_data = planes.plane_b;

        self.load_lut(&mut program, GDEW029T5DController::get_4_grayscale_lut());

        let first = [DATA_START_TRANSMISSION_1];
        assert(first@ =~= seq![DATA_START_TRANSMISSION_1]);
        program.write_command_with_data(&first, old_data.as_slice());

        let second = [DATA_START_TRANSMISSION_2];
        assert(second@ =~= seq![DATA_START_TRANSMISSION_2]);
        program.write_command_with_data(&second, new_data.as_slice());

        self.update_display(&mut program);
        program
    }

    /// Puts the controller to sleep.
    pub fn sleep(&self) -> (program: Program)
        ensures
            program@ == power_down(),
    {
        let mut program = Program::new();
        program.wait_for_idle();
        assert(program@ =~= await_idle());
        program.command_with_data(VCOM_AND_DATA_INTERVAL, 0xf7);
        program.command(POWER_OFF);
        program.wait_for_idle();
        program.command_with_data(DEEP_SLEEP, DEEP_SLEEP_CHECK);
        program
    }
}

/// The bring-up has 48 operations, 11 of them byte exchanges, and the wait
/// that checks for a panel is the operation with index 29.
pub proof fn lemma_bring_up_size()
    ensures
        bring_up().len() == 48,
        transfers(bring_up()).len() == 11,
        bring_up()[29] is AwaitPowerOn,
        forall|i: int| 0 <= i < 48 && i != 29 ==> !(#[trigger] bring_up()[i] is AwaitPowerOn),
{
    broadcast use {
        crate::transport::lemma_transfers_concat,
        crate::transport::lemma_transfers_of_command,
        crate::transport::lemma_transfers_of_data,
        crate::transport::lemma_transfers_of_fused,
        crate::transport::lemma_transfers_of_reset,
    };
    crate::transport::lemma_transfers_of_idle_steps(0);
    reveal_with_fuel(reset_pulses, 4);
}

/// Index, in the bring-up, of the wait that checks for a panel.
pub const POWER_ON_WAIT_INDEX: usize = 29;

/// When every operation goes through and the power-on wait lasts at least
/// the floor, the bring-up is ready after exactly 48 operations, and is
/// still running after any smaller number of them.
pub proof fn lemma_bring_up_reaches_ready(outcomes: Seq<Outcome>)
    requires
        outcomes.len() == bring_up().len(),
        forall|i: int| 0 <= i < outcomes.len() ==> #[trigger] outcomes[i] is Completed,
        outcomes[POWER_ON_WAIT_INDEX as int]->busy_ms >= POWER_ON_FLOOR_MS,
    ensures
        outcomes.len() == 48,
        state_after(bring_up(), outcomes) == SequencerState::Ready,
        forall|done: int|
            0 <= done < outcomes.len() ==> #[trigger] state_after(bring_up(), outcomes.take(done))
                == (SequencerState::Running { next: done as usize }),
{
    lemma_bring_up_size();
    let program = bring_up();
    assert forall|i: int| 0 <= i < outcomes.len() implies passes_presence_check(
        program[i],
        #[trigger] outcomes[i],
    ) by {
        assert(outcomes[i] is Completed);
        if i != POWER_ON_WAIT_INDEX {
            assert(!(bring_up()[i] is AwaitPowerOn));
        }
    }
    lemma_bring_up_completes(program, outcomes);
    assert forall|done: int| 0 <= done < outcomes.len() implies #[trigger] state_after(
        program,
        outcomes.take(done),
    ) == (SequencerState::Running { next: done as usize }) by {
        let prefix = outcomes.take(done);
        assert forall|i: int| 0 <= i < prefix.len() implies passes_presence_check(
            program[i],
            #[trigger] prefix[i],
        ) by {
            assert(prefix[i] == outcomes[i]);
        }
        lemma_bring_up_completes(program, prefix);
    }
}

/// When the operations up to the power-on wait go through and that wait ends
/// below the floor, the bring-up is abandoned as not connected, whatever is
/// reported after it.
pub proof fn lemma_absent_panel_is_detected(outcomes: Seq<Outcome>)
    requires
        outcomes.len() > POWER_ON_WAIT_INDEX,
        forall|i: int| 0 <= i <= POWER_ON_WAIT_INDEX ==> #[trigger] outcomes[i] is Completed,
        outcomes[POWER_ON_WAIT_INDEX as int]->busy_ms < POWER_ON_FLOOR_MS,
    ensures
        state_after(bring_up(), outcomes) == SequencerState::Failed(StartError::NotConnected),
{
    lemma_bring_up_size();
    let program = bring_up();
    assert forall|i: int| 0 <= i < POWER_ON_WAIT_INDEX implies passes_presence_check(
        program[i],
        #[trigger] outcomes[i],
    ) by {
        assert(outcomes[i] is Completed);
        assert(!(bring_up()[i] is AwaitPowerOn));
    }
    lemma_failure_is_final(program, outcomes, POWER_ON_WAIT_INDEX as int);
}

/// What the bring-up puts on the wire, exchange by exchange: no waveform
/// table is written.
pub proof fn lemma_bring_up_on_the_wire()
    ensures
        transfers(bring_up()) == seq![
            seq![BOOSTER_SOFT_START],
            BOOSTER_PHASES@,
            seq![POWER_SETTING],
            POWER_LEVELS@,
            seq![POWER_ON],
            seq![PANEL_SETTING],
            seq![0b1011_1111u8],
            seq![VCOM_DC_SETTING],
            seq![0x12u8],
            seq![VCOM_AND_DATA_INTERVAL],
            seq![0x97u8],
        ],
{
    broadcast use {
        crate::transport::lemma_transfers_concat,
        crate::transport::lemma_transfers_of_command,
        crate::transport::lemma_transfers_of_data,
        crate::transport::lemma_transfers_of_fused,
        crate::transport::lemma_transfers_of_reset,
    };
    crate::transport::lemma_transfers_of_idle_steps(0);
}

/// What showing an image puts on the wire: the five waveform tables, then the
/// upper bits of the pixels for the first memory plane, then the lower bits
/// for the second, then the refresh command.
pub proof fn lemma_image_on_the_wire(buf: Seq<u8>)
    ensures
        transfers(image(buf)) == seq![
            seq![LUT_FOR_VCOM],
            LUT_VCOM@,
            seq![LUT_WHITE_TO_WHITE],
            LUT_WW@,
            seq![LUT_BLACK_TO_WHITE],
            LUT_BW@,
            seq![LUT_WHITE_TO_BLACK],
            LUT_WB@,
            seq![LUT_BLACK_TO_BLACK],
            LUT_BB@,
            seq![DATA_START_TRANSMISSION_1],
            plane_a(buf),
            seq![DATA_START_TRANSMISSION_2],
            plane_b(buf),
            seq![DISPLAY_REFRESH],
        ],
{
    broadcast use {
        crate::transport::lemma_transfers_concat,
        crate::transport::lemma_transfers_of_command,
        crate::transport::lemma_transfers_of_data,
        crate::transport::lemma_transfers_of_fused,
        crate::transport::lemma_transfers_of_reset,
    };
    crate::transport::lemma_transfers_of_idle_steps(REFRESH_SETTLE_MS);
}

/// What going to sleep puts on the wire.
pub proof fn lemma_power_down_on_the_wire()
    ensures
        transfers(power_down()) == seq![
            seq![VCOM_AND_DATA_INTERVAL],
            seq![0xf7u8],
            seq![POWER_OFF],
            seq![DEEP_SLEEP],
            seq![DEEP_SLEEP_CHECK],
        ],
{
    broadcast use {
        crate::transport::lemma_transfers_concat,
        crate::transport::lemma_transfers_of_command,
        crate::transport::lemma_transfers_of_data,
        crate::transport::lemma_transfers_of_fused,
        crate::transport::lemma_transfers_of_reset,
    };
    crate::transport::lemma_transfers_of_idle_steps(0);
}

} // verus!
