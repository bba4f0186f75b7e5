use epaper_drivers::counter::{increment_counter, COUNTER_RECORD_LEN};
use epaper_drivers::image_format::{
    check_image_format, expected_image_format, BitDepth, ColorType, ImageFormat, ImageLoadError,
};
use epaper_drivers::wells::{
    expander_address, is_switch, parse_switch, switch_gpio, switch_well, well, Board,
    GpioExpander, VirtualPinAddress, Well, DATA_OR_COMMAND_GPIO, WELL_COUNT,
};

fn panel_format() -> ImageFormat {
    ImageFormat {
        width: 128,
        height: 296,
        bit_depth: BitDepth::Two,
        color_type: ColorType::Grayscale,
    }
}

#[test]
fn expected_format_is_the_panel_in_two_bit_gray() {
    assert_eq!(expected_image_format(), panel_format());
}

#[test]
fn panel_format_is_accepted() {
    assert_eq!(check_image_format(panel_format()), Ok(()));
}

#[test]
fn other_formats_are_turned_away() {
    let wrong = [
        ImageFormat { width: 296, height: 128, ..panel_format() },
        ImageFormat { width: 127, ..panel_format() },
        ImageFormat { height: 297, ..panel_format() },
        ImageFormat { bit_depth: BitDepth::One, ..panel_format() },
        ImageFormat { bit_depth: BitDepth::Eight, ..panel_format() },
        ImageFormat { color_type: ColorType::Indexed, ..panel_format() },
        ImageFormat { color_type: ColorType::Rgba, ..panel_format() },
    ];
    for received in wrong {
        assert_eq!(
            check_image_format(received),
            Err(ImageLoadError { expected: panel_format(), received })
        );
    }
}

#[test]
fn increment_counter_advances_the_first_byte() {
    assert_eq!(COUNTER_RECORD_LEN, 32);
    let mut record = [7u8; 32];
    increment_counter(&mut record);
    let mut expected = [7u8; 32];
    expected[0] = 8;
    assert_eq!(record, expected);
}

#[test]
fn increment_counter_wraps() {
    let mut record = [0u8; 32];
    record[0] = 255;
    record[1] = 255;
    increment_counter(&mut record);
    assert_eq!(record[0], 0);
    assert_eq!(record[1], 255);
}

fn lines(expander: GpioExpander, base: usize) -> Well {
    Well {
        reset_pin: VirtualPinAddress { expander, pin: base },
        busy_pin: VirtualPinAddress { expander, pin: base + 1 },
        data_or_command_pin: 25,
        epd_chip_select_pin: VirtualPinAddress { expander, pin: base + 2 },
        memory_chip_select_pin: VirtualPinAddress { expander, pin: base + 3 },
    }
}

#[test]
fn devkit_wells_share_one_expander() {
    assert_eq!(WELL_COUNT, 4);
    assert_eq!(DATA_OR_COMMAND_GPIO, 25);
    assert_eq!(well(Board::DevKitV1, 0), Some(lines(GpioExpander::Expander0, 0)));
    assert_eq!(well(Board::DevKitV1, 1), Some(lines(GpioExpander::Expander0, 4)));
    assert_eq!(well(Board::DevKitV1, 2), Some(lines(GpioExpander::Expander0, 8)));
    assert_eq!(well(Board::DevKitV1, 3), Some(lines(GpioExpander::Expander0, 12)));
    assert_eq!(well(Board::DevKitV1, 4), None);
}

#[test]
fn prototype_wells_are_split_over_two_expanders() {
    assert_eq!(well(Board::Prototype, 0), Some(lines(GpioExpander::Expander0, 0)));
    assert_eq!(well(Board::Prototype, 1), Some(lines(GpioExpander::Expander0, 4)));
    assert_eq!(well(Board::Prototype, 2), Some(lines(GpioExpander::Expander1, 0)));
    assert_eq!(well(Board::Prototype, 3), Some(lines(GpioExpander::Expander1, 4)));
    assert_eq!(well(Board::Prototype, 4), None);
    assert_eq!(well(Board::Prototype, usize::MAX), None);
}

#[test]
fn expander_addresses() {
    assert_eq!(
        expander_address(Board::DevKitV1, GpioExpander::Expander0),
        Some((false, false, false))
    );
    assert_eq!(expander_address(Board::DevKitV1, GpioExpander::Expander1), None);
    assert_eq!(
        expander_address(Board::Prototype, GpioExpander::Expander0),
        Some((false, false, false))
    );
    assert_eq!(
        expander_address(Board::Prototype, GpioExpander::Expander1),
        Some((true, false, false))
    );
}

#[test]
fn switches_are_named_a_b_c() {
    assert!(is_switch('a'));
    assert!(is_switch('b'));
    assert!(is_switch('c'));
    assert!(!is_switch('d'));
    assert!(!is_switch('A'));
    assert_eq!(parse_switch("a"), Some('a'));
    assert_eq!(parse_switch("b"), Some('b'));
    assert_eq!(parse_switch("c"), Some('c'));
    assert_eq!(parse_switch("d"), None);
    assert_eq!(parse_switch(""), None);
    assert_eq!(parse_switch("ab"), None);
    assert_eq!(parse_switch("A"), None);
}

#[test]
fn switch_pins() {
    let table = [
        (0, 'a', 23),
        (0, 'b', 5),
        (0, 'c', 6),
        (1, 'a', 21),
        (1, 'b', 13),
        (1, 'c', 12),
        (2, 'a', 22),
        (2, 'b', 16),
        (2, 'c', 17),
        (3, 'a', 18),
        (3, 'b', 19),
        (3, 'c', 20),
    ];
    for (index, switch, pin) in table {
        assert_eq!(switch_gpio(index, switch), Some(pin));
        assert_eq!(switch_well(pin), Some(index));
    }
    assert_eq!(switch_gpio(4, 'a'), None);
    assert_eq!(switch_gpio(0, 'd'), None);
    assert_eq!(switch_well(25), None);
    assert_eq!(switch_well(4), None);
}
