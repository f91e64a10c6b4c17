use blaster_firmware::ssd1306::command::{
    encode, AddressMode, Command, HorizontalScroll, Page, ScrollInterval,
    VerticalHorizontalScroll, CONTROL_COMMAND,
};

#[test]
fn encodes_contrast() {
    assert_eq!(encode(Command::SetContrast { contrast: 0x5F }), vec![0x00, 0x81, 0x5F]);
}

#[test]
fn encodes_column_start_as_two_nibbles() {
    assert_eq!(encode(Command::ColumnStart(0x20)), vec![0x00, 0x00, 0x12]);
    assert_eq!(encode(Command::ColumnStart(0x7F)), vec![0x00, 0x0F, 0x17]);
    assert_eq!(encode(Command::ColumnStart(0xFF)), vec![0x00, 0x0F, 0x1F]);
}

#[test]
fn encodes_display_enable() {
    assert_eq!(encode(Command::DisplayEnable(true)), vec![0x00, 0xAF]);
    assert_eq!(encode(Command::DisplayEnable(false)), vec![0x00, 0xAE]);
}

#[test]
fn encodes_page_start() {
    assert_eq!(encode(Command::PageStart(Page::Page3)), vec![0x00, 0xB3]);
    assert_eq!(encode(Command::PageStart(Page::Page0)), vec![0x00, 0xB0]);
    assert_eq!(encode(Command::PageStart(Page::Page7)), vec![0x00, 0xB7]);
}

#[test]
fn encodes_flag_commands() {
    assert_eq!(encode(Command::AllPixelsOn(false)), vec![0x00, 0xA4]);
    assert_eq!(encode(Command::AllPixelsOn(true)), vec![0x00, 0xA5]);
    assert_eq!(encode(Command::InvertDisplay(false)), vec![0x00, 0xA6]);
    assert_eq!(encode(Command::InvertDisplay(true)), vec![0x00, 0xA7]);
    assert_eq!(encode(Command::EnableScroll(false)), vec![0x00, 0x2E]);
    assert_eq!(encode(Command::EnableScroll(true)), vec![0x00, 0x2F]);
    assert_eq!(encode(Command::EnableScrolling(true)), vec![0x00, 0x2F]);
    assert_eq!(encode(Command::SegmentRemap(false)), vec![0x00, 0xA0]);
    assert_eq!(encode(Command::SegmentRemap(true)), vec![0x00, 0xA1]);
    assert_eq!(encode(Command::SetComScanDir(false)), vec![0x00, 0xC0]);
    assert_eq!(encode(Command::SetComScanDir(true)), vec![0x00, 0xC8]);
}

#[test]
fn encodes_charge_pump() {
    assert_eq!(encode(Command::ChargePump(true)), vec![0x00, 0x8D, 0x14]);
    assert_eq!(encode(Command::ChargePump(false)), vec![0x00, 0x8D, 0x10]);
}

#[test]
fn encodes_addressing_commands() {
    assert_eq!(encode(Command::SetAddressMode(AddressMode::Horizontal)), vec![0x00, 0x20, 0x00]);
    assert_eq!(encode(Command::SetAddressMode(AddressMode::Vertical)), vec![0x00, 0x20, 0x01]);
    assert_eq!(encode(Command::SetAddressMode(AddressMode::Page)), vec![0x00, 0x20, 0x02]);
    assert_eq!(
        encode(Command::SetColumnAddress { start_col: 0, end_col: 127 }),
        vec![0x00, 0x21, 0x00, 0x7F]
    );
    assert_eq!(
        encode(Command::SetPageAddress { start_page: Page::Page1, end_page: Page::Page6 }),
        vec![0x00, 0x22, 0x01, 0x06]
    );
    assert_eq!(encode(Command::LowerColumnStart(0x3A)), vec![0x00, 0x0A]);
    assert_eq!(encode(Command::UpperColumnStart(0x3A)), vec![0x00, 0x1A]);
}

#[test]
fn encodes_hardware_configuration() {
    assert_eq!(encode(Command::SetStartLine(0)), vec![0x00, 0x40]);
    assert_eq!(encode(Command::SetStartLine(32)), vec![0x00, 0x60]);
    assert_eq!(encode(Command::SetStartLine(63)), vec![0x00, 0x7F]);
    assert_eq!(encode(Command::SetStartLine(64 + 5)), vec![0x00, 0x45]);
    assert_eq!(encode(Command::SetMultiplexRatio { ratio: 63 }), vec![0x00, 0xA8, 0x3F]);
    assert_eq!(
        encode(Command::DisplayClockDiv { oscillator_freq: 0x8, divide_ratio: 0x0 }),
        vec![0x00, 0xD5, 0x80]
    );
    assert_eq!(
        encode(Command::DisplayClockDiv { oscillator_freq: 0x1F, divide_ratio: 0x23 }),
        vec![0x00, 0xD5, 0xF3]
    );
    assert_eq!(encode(Command::PreChargePeriod(0x21)), vec![0x00, 0xD9, 0x21]);
    assert_eq!(encode(Command::NoOp), vec![0x00, 0xE3]);
}

#[test]
fn encodes_scroll_setup() {
    assert_eq!(
        encode(Command::SetupHorizontalScroll {
            direction: HorizontalScroll::Right,
            interval: ScrollInterval::Frames5,
            start_page: Page::Page0,
            end_page: Page::Page7,
        }),
        vec![0x00, 0x26, 0x00, 0x00, 0x00, 0x07, 0x00, 0xFF]
    );
    assert_eq!(
        encode(Command::SetupHorizontalScroll {
            direction: HorizontalScroll::Left,
            interval: ScrollInterval::Frames2,
            start_page: Page::Page2,
            end_page: Page::Page5,
        }),
        vec![0x00, 0x27, 0x00, 0x02, 0x07, 0x05, 0x00, 0xFF]
    );
    assert_eq!(
        encode(Command::SetupVerticalAndHorizontalScroll {
            direction: VerticalHorizontalScroll::VerticalLeft,
            interval: ScrollInterval::Frames64,
            start_page: Page::Page1,
            end_page: Page::Page3,
            offset: 10,
        }),
        vec![0x00, 0x29, 0x00, 0x01, 0x01, 0x03, 0x0A]
    );
    assert_eq!(
        encode(Command::SetupVerticalAndHorizontalScroll {
            direction: VerticalHorizontalScroll::VerticalRight,
            interval: ScrollInterval::Frames25,
            start_page: Page::Page0,
            end_page: Page::Page0,
            offset: 0,
        }),
        vec![0x00, 0x2A, 0x00, 0x00, 0x06, 0x00, 0x00]
    );
    assert_eq!(
        encode(Command::SetupVerticalScrollArea { top: 0, bottom: 64 }),
        vec![0x00, 0xA3, 0x00, 0x40]
    );
}

#[test]
fn every_encoding_starts_with_command_control_byte() {
    let commands = [
        Command::NoOp,
        Command::SetContrast { contrast: 1 },
        Command::ColumnStart(5),
        Command::ChargePump(true),
        Command::PageStart(Page::Page4),
    ];
    for c in commands {
        let bytes = encode(c);
        assert_eq!(bytes[0], CONTROL_COMMAND);
        assert!(bytes.len() >= 2 && bytes.len() <= 8);
        assert_eq!(encode(c), bytes);
    }
}

#[test]
fn page_from_row() {
    assert_eq!(Page::from(0), Page::Page0);
    assert_eq!(Page::from(7), Page::Page0);
    assert_eq!(Page::from(8), Page::Page1);
    assert_eq!(Page::from(17), Page::Page2);
    assert_eq!(Page::from(63), Page::Page7);
}
