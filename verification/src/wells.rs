//! Where the panels and switches of a plinth are wired.
//!
//! A plinth has four wells, each holding one card: a panel and a memory chip.
//! The reset, busy and chip-select lines of a well sit behind a port
//! expander; the data/command line is a pin of the host that all wells share.
//! Each well has three switches, wired to pins of the host.

use vstd::prelude::*;
use vstd::string::StrSliceExecFns;

verus! {

/// Number of wells on a plinth.
pub const WELL_COUNT: usize = 4;

/// Host pin of the data/command line.
pub const DATA_OR_COMMAND_GPIO: u8 = 25;

/// The plinth boards.
#[derive(Clone, Copy, Debug, PartialEq, Eq, Structural)]
pub enum Board {
    /// One sixteen-pin expander serves all four wells.
    DevKitV1,
    /// Two eight-pin expanders serve two wells each.
    Prototype,
}

/// A port expander of a board.
#[derive(Clone, Copy, Debug, PartialEq, Eq, Hash, Structural)]
pub enum GpioExpander {
    Expander0,
    Expander1,
}

/// A pin of a port expander.
#[derive(Clone, Copy, Debug, PartialEq, Eq, Structural)]
pub struct VirtualPinAddress {
    pub expander: GpioExpander,
    pub pin: usize,
}

/// The lines of one well.
#[derive(Clone, Copy, Debug, PartialEq, Eq, Structural)]
pub struct Well {
    pub reset_pin: VirtualPinAddress,
    pub busy_pin: VirtualPinAddress,
    pub data_or_command_pin: u8,
    pub epd_chip_select_pin: VirtualPinAddress,
    pub memory_chip_select_pin: VirtualPinAddress,
}

/// Number of pins of each expander of a board.
pub open spec fn expander_pins(board: Board) -> nat {
    match board {
        Board::DevKitV1 => 16,
        Board::Prototype => 8,
    }
}

/// The expander that serves a well.
pub open spec fn well_expander(board: Board, well: int) -> GpioExpander {
    match board {
        Board::DevKitV1 => GpioExpander::Expander0,
        Board::Prototype => if well < 2 {
            GpioExpander::Expander0
        } else {
            GpioExpander::Expander1
        },
    }
}

/// The first of the four expander pins of a well.
pub open spec fn well_base(board: Board, well: int) -> int {
    match board {
        Board::DevKitV1 => 4 * well,
        Board::Prototype => 4 * (well % 2),
    }
}

/// The lines of a well: four expander pins in a row, for reset, busy, the
/// chip-select of the panel and the chip-select of the memory.
pub open spec fn well_lines(board: Board, well: int) -> Well {
    let expander = well_expander(board, well);
    let base = well_base(board, well);
    Well {
        reset_pin: VirtualPinAddress { expander, pin: base as usize },
        busy_pin: VirtualPinAddress { expander, pin: (base + 1) as usize },
        data_or_command_pin: DATA_OR_COMMAND_GPIO,
        epd_chip_select_pin: VirtualPinAddress { expander, pin: (base + 2) as usize },
        memory_chip_select_pin: VirtualPinAddress { expander, pin: (base + 3) as usize },
    }
}

/// The three address bits of an expander, if the board has it.
pub open spec fn address_bits(board: Board, expander: GpioExpander) -> Option<(bool, bool, bool)> {
    match (board, expander) {
        (_, GpioExpander::Expander0) => Some((false, false, false)),
        (Board::Prototype, GpioExpander::Expander1) => Some((true, false, false)),
        (Board::DevKitV1, GpioExpander::Expander1) => None,
    }
}

/// Whether `switch` names one of the switches of a well.
pub open spec fn names_switch(switch: char) -> bool {
    switch == 'a' || switch == 'b' || switch == 'c'
}

/// The host pin of a switch.
pub open spec fn switch_pin(well: int, switch: char) -> u8 {
    if well == 0 {
        if switch == 'a' {
            23
        } else if switch == 'b' {
            5
        } else {
            6
        }
    } else if well == 1 {
        if switch == 'a' {
            21
        } else if switch == 'b' {
            13
        } else {
            12
        }
    } else if well == 2 {
        if switch == 'a' {
            22
        } else if switch == 'b' {
            16
        } else {
            17
        }
    } else {
        if switch == 'a' {
            18
        } else if switch == 'b' {
            19
        } else {
            20
        }
    }
}

fn pins_from(expander: GpioExpander, base: usize) -> (well: Well)
    requires
        base <= 12,
    ensures
        well == (Well {
            reset_pin: VirtualPinAddress { expander, pin: base },
            busy_pin: VirtualPinAddress { expander, pin: (base + 1) as usize },
            data_or_command_pin: DATA_OR_COMMAND_GPIO,
            epd_chip_select_pin: VirtualPinAddress { expander, pin: (base + 2) as usize },
            memory_chip_select_pin: VirtualPinAddress { expander, pin: (base + 3) as usize },
        }),
{
    Well {
        reset_pin: VirtualPinAddress { expander, pin: base },
        busy_pin: VirtualPinAddress { expander, pin: base + 1 },
        data_or_command_pin: DATA_OR_COMMAND_GPIO,
        epd_chip_select_pin: VirtualPinAddress { expander, pin: base + 2 },
        memory_chip_select_pin: VirtualPinAddress { expander, pin: base + 3 },
    }
}

/// The lines of well `index` of a board, or `None` if the board has no such
/// well.
pub fn well(board: Board, index: usize) -> (lines: Option<Well>)
    ensures
        index < WELL_COUNT ==> lines == Some(well_lines(board, index as int)),
        index >= WELL_COUNT ==> lines.is_none(),
{
    match board {
        Board::DevKitV1 => match index {
            0 => Some(pins_from(GpioExpander::Expander0, 0)),
            1 => Some(pins_from(GpioExpander::Expander0, 4)),
            2 => Some(pins_from(GpioExpander::Expander0, 8)),
            3 => Some(pins_from(GpioExpander::Expander0, 12)),
            _ => None,
        },
        Board::Prototype => match index {
            0 => Some(pins_from(GpioExpander::Expander0, 0)),
            1 => Some(pins_from(GpioExpander::Expander0, 4)),
            2 => Some(pins_from(GpioExpander::Expander1, 0)),
            3 => Some(pins_from(GpioExpander::Expander1, 4)),
            _ => None,
        },
    }
}

/// The address bits of an expander, or `None` if the board does not have it.
pub fn expander_address(board: Board, expander: GpioExpander) -> (bits: Option<(bool, bool, bool)>)
    ensures
        bits == address_bits(board, expander),
{
    match expander {
        GpioExpander::Expander0 => Some((false, false, false)),
        GpioExpander::Expander1 => match board {
            Board::Prototype => Some((true, false, false)),
            Board::DevKitV1 => None,
        },
    }
}

/// Whether `switch` names one of the switches of a well: `a`, `b` or `c`.
pub fn is_switch(switch: char) -> (named: bool)
    ensures
        named == names_switch(switch),
{
    switch == 'a' || switch == 'b' || switch == 'c'
}

/// Reads the name of a switch: the one-letter strings `a`, `b` and `c` name
/// a switch, and nothing else does.
pub fn parse_switch(name: &str) -> (switch: Option<char>)
    ensures
        switch == if name@.len() == 1 && names_switch(name@[0]) {
            Some(name@[0])
        } else {
            None::<char>
        },
{
    if name.unicode_len() != 1 {
        return None;
    }
    let letter = name.get_char(0);
    if is_switch(letter) {
        Some(letter)
    } else {
        None
    }
}

/// The host pin of switch `switch` of well `well`, or `None` if there is no
/// such well or no such switch.
pub fn switch_gpio(well: usize, switch: char) -> (pin: Option<u8>)
    ensures
        well < WELL_COUNT && names_switch(switch) ==> pin == Some(switch_pin(well as int, switch)),
        !(well < WELL_COUNT && names_switch(switch)) ==> pin.is_none(),
{
    if well >= WELL_COUNT || !is_switch(switch) {
        return None;
    }
    let pins: [u8; 3] = match well {
        0 => [23, 5, 6],
        1 => [21, 13, 12],
        2 => [22, 16, 17],
        _ => [18, 19, 20],
    };
    if switch == 'a' {
        Some(pins[0])
    } else if switch == 'b' {
        Some(pins[1])
    } else {
        Some(pins[2])
    }
}

/// The well whose switch is wired to a host pin.
pub open spec fn pin_well(pin: u8) -> Option<usize> {
    if pin == 23 || pin == 5 || pin == 6 {
        Some(0)
    } else if pin == 21 || pin == 13 || pin == 12 {
        Some(1)
    } else if pin == 22 || pin == 16 || pin == 17 {
        Some(2)
    } else if pin == 18 || pin == 19 || pin == 20 {
        Some(3)
    } else {
        None
    }
}

/// The well whose switch is wired to host pin `pin`, or `None` if no switch
/// is.
pub fn switch_well(pin: u8) -> (well: Option<usize>)
    ensures
        well == pin_well(pin),
{
    if pin == 23 || pin == 5 || pin == 6 {
        Some(0)
    } else if pin == 21 || pin == 13 || pin == 12 {
        Some(1)
    } else if pin == 22 || pin == 16 || pin == 17 {
        Some(2)
    } else if pin == 18 || pin == 19 || pin == 20 {
        Some(3)
    } else {
        None
    }
}

/// A pin leads back to the well of the switch that is wired to it, and a pin
/// that leads to a well is the pin of one of that well's switches.
pub proof fn lemma_switch_round_trip(well: int, switch: char, pin: u8)
    requires
        0 <= well < WELL_COUNT,
        names_switch(switch),
    ensures
        pin_well(switch_pin(well, switch)) == Some(well as usize),
        pin_well(pin) == Some(well as usize) ==> pin == switch_pin(well, 'a') || pin == switch_pin(
            well,
            'b',
        ) || pin == switch_pin(well, 'c'),
{
}

/// Every well of a board is fully wired: its lines sit on one expander that
/// the board has, on four different pins that the expander has.
pub proof fn lemma_wells_are_wired(board: Board, well: int)
    requires
        0 <= well < WELL_COUNT,
    ensures
        address_bits(board, well_expander(board, well)).is_some(),
        well_lines(board, well).reset_pin.expander == well_expander(board, well),
        well_lines(board, well).busy_pin.expander == well_expander(board, well),
        well_lines(board, well).epd_chip_select_pin.expander == well_expander(board, well),
        well_lines(board, well).memory_chip_select_pin.expander == well_expander(board, well),
        well_lines(board, well).reset_pin.pin < well_lines(board, well).busy_pin.pin,
        well_lines(board, well).busy_pin.pin < well_lines(board, well).epd_chip_select_pin.pin,
        well_lines(board, well).epd_chip_select_pin.pin < well_lines(
            board,
            well,
        ).memory_chip_select_pin.pin,
        well_lines(board, well).memory_chip_select_pin.pin < expander_pins(board),
{
}

/// No two wells of a board share an expander pin.
pub proof fn lemma_wells_are_apart(board: Board, well: int, other: int)
    requires
        0 <= well < other < WELL_COUNT,
    ensures
        well_expander(board, well) != well_expander(board, other) || well_lines(
            board,
            well,
        ).memory_chip_select_pin.pin < well_lines(board, other).reset_pin.pin,
{
}

/// No two switches share a host pin, and none uses the pin of the
/// data/command line.
pub proof fn lemma_switch_pins_are_apart(well: int, switch: char, other_well: int, other: char)
    requires
        0 <= well < WELL_COUNT,
        0 <= other_well < WELL_COUNT,
        names_switch(switch),
        names_switch(other),
    ensures
        switch_pin(well, switch) == switch_pin(other_well, other) ==> well == other_well
            && switch == other,
        switch_pin(well, switch) != DATA_OR_COMMAND_GPIO,
{
}

} // verus!
