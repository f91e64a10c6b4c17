//! The SSD1306 command set and its encoding into bus bytes.
//!
//! Every command maps to exactly one byte sequence: the command control
//! byte followed by the opcode and its parameters, as the controller
//! expects them. Numeric parameters are masked to the width the
//! controller reads, never rejected.
use vstd::prelude::*;

verus! {

/// Control byte that starts a transfer of command bytes.
pub const CONTROL_COMMAND: u8 = 0x00;

/// Control byte that starts a transfer of display RAM data.
pub const CONTROL_DATA: u8 = 0x40;

/// One operation of the panel controller.
#[derive(Debug, Copy, Clone, PartialEq, Eq, Structural)]
pub enum Command {
    /// Select 1 out of 256 contrast steps (reset: 0x7F).
    SetContrast { contrast: u8 },
    /// `true`: every pixel lit regardless of RAM; `false`: follow RAM (reset).
    AllPixelsOn(bool),
    /// `true`: a pixel is lit when its RAM bit is 0; `false`: normal (reset).
    InvertDisplay(bool),
    /// `true`: display on; `false`: sleep mode.
    DisplayEnable(bool),
    /// Continuous horizontal scroll over the pages `start_page..=end_page`.
    SetupHorizontalScroll {
        direction: HorizontalScroll,
        interval: ScrollInterval,
        start_page: Page,
        end_page: Page,
    },
    /// Continuous vertical and horizontal scroll; `offset` is the vertical
    /// offset in rows (0-63).
    SetupVerticalAndHorizontalScroll {
        direction: VerticalHorizontalScroll,
        interval: ScrollInterval,
        start_page: Page,
        end_page: Page,
        offset: u8,
    },
    /// Start (`true`) or stop (`false`) the configured scroll.
    EnableScrolling(bool),
    /// Rows in the fixed top area and in the scrolling area below it.
    SetupVerticalScrollArea { top: u8, bottom: u8 },
    /// Lower nibble of the column start address (page addressing mode).
    LowerColumnStart(u8),
    /// Upper nibble of the column start address (page addressing mode).
    UpperColumnStart(u8),
    /// Whole column start address (page addressing mode), sent as its two
    /// nibble commands.
    ColumnStart(u8),
    /// Memory addressing mode (reset: page).
    SetAddressMode(AddressMode),
    /// Column start and end address (horizontal and vertical modes).
    SetColumnAddress { start_col: u8, end_col: u8 },
    /// Page start and end address.
    SetPageAddress { start_page: Page, end_page: Page },
    /// Page start address (page addressing mode).
    PageStart(Page),
    /// Display RAM start line, 0-63 (reset: 0).
    SetStartLine(u8),
    /// `true`: column 127 is mapped to SEG0; `false`: column 0 (reset).
    SegmentRemap(bool),
    /// Multiplex ratio: `ratio + 1` active rows, `ratio` in 15-63 (reset: 63).
    SetMultiplexRatio { ratio: u8 },
    /// `true`: scan from COM[N-1] to COM0; `false`: from COM0 (reset).
    SetComScanDir(bool),
    /// Start (`true`) or stop (`false`) the configured scroll.
    EnableScroll(bool),
    /// Oscillator frequency and divide ratio, each 0-15; the clock is
    /// divided by `divide_ratio + 1`.
    DisplayClockDiv { oscillator_freq: u8, divide_ratio: u8 },
    /// Pre-charge period: phase 2 in the upper nibble, phase 1 in the lower.
    PreChargePeriod(u8),
    /// No operation.
    NoOp,
    /// Charge pump on or off; it must be on before the display is turned on.
    ChargePump(bool),
}

/// Which direction to scroll (left or right).
#[derive(Debug, Copy, Clone, PartialEq, Eq, Structural)]
pub enum HorizontalScroll {
    Left,
    Right,
}

/// Which direction to scroll (vertical and left, or vertical and right).
#[derive(Debug, Copy, Clone, PartialEq, Eq, Structural)]
pub enum VerticalHorizontalScroll {
    VerticalLeft,
    VerticalRight,
}

/// How many frames to wait between two scroll steps.
#[derive(Debug, Copy, Clone, PartialEq, Eq, Structural)]
pub enum ScrollInterval {
    Frames5,
    Frames64,
    Frames128,
    Frames256,
    Frames3,
    Frames4,
    Frames25,
    Frames2,
}

/// Memory addressing mode.
#[derive(Debug, Copy, Clone, PartialEq, Eq, Structural)]
pub enum AddressMode {
    Horizontal,
    Vertical,
    /// The mode after reset.
    Page,
}

/// One of the eight bands of eight rows of the display RAM.
#[derive(Debug, Copy, Clone, PartialEq, Eq, Structural)]
pub enum Page {
    Page0,
    Page1,
    Page2,
    Page3,
    Page4,
    Page5,
    Page6,
    Page7,
}

impl HorizontalScroll {
    /// The field value the controller reads for this direction.
    pub open spec fn code(self) -> u8 {
        match self {
            HorizontalScroll::Left => 1,
            HorizontalScroll::Right => 0,
        }
    }

    pub fn as_byte(self) -> (r: u8)
        ensures
            r == self.code(),
    {
        match self {
            HorizontalScroll::Left => 1,
            HorizontalScroll::Right => 0,
        }
    }
}

impl VerticalHorizontalScroll {
    /// The field value the controller reads for this direction.
    pub open spec fn code(self) -> u8 {
        match self {
            VerticalHorizontalScroll::VerticalLeft => 1,
            VerticalHorizontalScroll::VerticalRight => 2,
        }
    }

    pub fn as_byte(self) -> (r: u8)
        ensures
            r == self.code(),
    {
        match self {
            VerticalHorizontalScroll::VerticalLeft => 1,
            VerticalHorizontalScroll::VerticalRight => 2,
        }
    }
}

impl ScrollInterval {
    /// The 3-bit field value the controller reads for this interval.
    pub open spec fn code(self) -> u8 {
        match self {
            ScrollInterval::Frames5 => 0,
            ScrollInterval::Frames64 => 1,
            ScrollInterval::Frames128 => 2,
            ScrollInterval::Frames256 => 3,
            ScrollInterval::Frames3 => 4,
            ScrollInterval::Frames4 => 5,
            ScrollInterval::Frames25 => 6,
            ScrollInterval::Frames2 => 7,
        }
    }

    pub fn as_byte(self) -> (r: u8)
        ensures
            r == self.code(),
    {
        match self {
            ScrollInterval::Frames5 => 0,
            ScrollInterval::Frames64 => 1,
            ScrollInterval::Frames128 => 2,
            ScrollInterval::Frames256 => 3,
            ScrollInterval::Frames3 => 4,
            ScrollInterval::Frames4 => 5,
            ScrollInterval::Frames25 => 6,
            ScrollInterval::Frames2 => 7,
        }
    }
}

impl AddressMode {
    /// The 2-bit field value the controller reads for this mode.
    pub open spec fn code(self) -> u8 {
        match self {
            AddressMode::Horizontal => 0,
            AddressMode::Vertical => 1,
            AddressMode::Page => 2,
        }
    }

    pub fn as_byte(self) -> (r: u8)
        ensures
            r == self.code(),
    {
        match self {
            AddressMode::Horizontal => 0,
            AddressMode::Vertical => 1,
            AddressMode::Page => 2,
        }
    }
}

impl Page {
    /// The page number, 0-7.
    pub open spec fn code(self) -> u8 {
        match self {
            Page::Page0 => 0,
            Page::Page1 => 1,
            Page::Page2 => 2,
            Page::Page3 => 3,
            Page::Page4 => 4,
            Page::Page5 => 5,
            Page::Page6 => 6,
            Page::Page7 => 7,
        }
    }

    pub fn as_byte(self) -> (r: u8)
        ensures
            r == self.code(),
    {
        match self {
            Page::Page0 => 0,
            Page::Page1 => 1,
            Page::Page2 => 2,
            Page::Page3 => 3,
            Page::Page4 => 4,
            Page::Page5 => 5,
            Page::Page6 => 6,
            Page::Page7 => 7,
        }
    }

    /// The page that holds display row `row`.
    pub fn from(row: u8) -> (r: Page)
        requires
            row < 64,
        ensures
            r.code() == row / 8,
    {
        let band: u8 = row >> 3;
        assert(band == row / 8) by (bit_vector)
            requires
                band == row >> 3,
        ;
        match band {
            0 => Page::Page0,
            1 => Page::Page1,
            2 => Page::Page2,
            3 => Page::Page3,
            4 => Page::Page4,
            5 => Page::Page5,
            6 => Page::Page6,
            _ => Page::Page7,
        }
    }
}

/// Every command encodes to one transfer of two to eight bytes that starts
/// with the command control byte.
pub proof fn lemma_encoding_shape(c: Command)
    ensures
        encoding(c)[0] == CONTROL_COMMAND,
        2 <= encoding(c).len() <= 8,
        encoding(c).skip(1) == command_bytes(c),
{
    assert(encoding(c).skip(1) =~= command_bytes(c));
}

/// 1 for `true`, 0 for `false`: the value of a one-bit field.
pub open spec fn flag(on: bool) -> u8 {
    if on {
        1
    } else {
        0
    }
}

/// The opcode and parameter bytes of `c`, without the control byte.
pub open spec fn command_bytes(c: Command) -> Seq<u8> {
    match c {
        Command::SetContrast { contrast } => seq![0x81, contrast],
        Command::AllPixelsOn(on) => seq![(0xA4 + flag(on)) as u8],
        Command::InvertDisplay(on) => seq![(0xA6 + flag(on)) as u8],
        Command::DisplayEnable(on) => seq![(0xAE + flag(on)) as u8],
        Command::SetupHorizontalScroll { direction, interval, start_page, end_page } => seq![
            (0x26 + direction.code()) as u8,
            0x00,
            start_page.code(),
            interval.code(),
            end_page.code(),
            0x00,
            0xFF,
        ],
        Command::SetupVerticalAndHorizontalScroll {
            direction,
            interval,
            start_page,
            end_page,
            offset,
        } => seq![
            (0x28 + direction.code()) as u8,
            0x00,
            start_page.code(),
            interval.code(),
            end_page.code(),
            offset,
        ],
        Command::EnableScrolling(on) => seq![(0x2E + flag(on)) as u8],
        Command::SetupVerticalScrollArea { top, bottom } => seq![0xA3, top, bottom],
        Command::LowerColumnStart(addr) => seq![addr % 16],
        Command::UpperColumnStart(addr) => seq![(0x10 + addr % 16) as u8],
        Command::ColumnStart(addr) => seq![addr % 16, (0x10 + addr / 16) as u8],
        Command::SetAddressMode(mode) => seq![0x20, mode.code()],
        Command::SetColumnAddress { start_col, end_col } => seq![0x21, start_col, end_col],
        Command::SetPageAddress { start_page, end_page } => seq![
            0x22,
            start_page.code(),
            end_page.code(),
        ],
        Command::PageStart(page) => seq![(0xB0 + page.code()) as u8],
        Command::SetStartLine(line) => seq![(0x40 + line % 64) as u8],
        Command::SegmentRemap(remap) => seq![(0xA0 + flag(remap)) as u8],
        Command::SetMultiplexRatio { ratio } => seq![0xA8, ratio],
        Command::SetComScanDir(reverse) => seq![
            if reverse {
                0xC8u8
            } else {
                0xC0u8
            },
        ],
        Command::EnableScroll(on) => seq![(0x2E + flag(on)) as u8],
        Command::DisplayClockDiv { oscillator_freq, divide_ratio } => seq![
            0xD5,
            (16 * (oscillator_freq % 16) + divide_ratio % 16) as u8,
        ],
        Command::PreChargePeriod(period) => seq![0xD9, period],
        Command::NoOp => seq![0xE3],
        Command::ChargePump(on) => seq![
            0x8D,
            if on {
                0x14u8
            } else {
                0x10u8
            },
        ],
    }
}

/// The bytes of one bus transfer that carries `c`: the command control
/// byte, then the command.
pub open spec fn encoding(c: Command) -> Seq<u8> {
    seq![CONTROL_COMMAND] + command_bytes(c)
}

fn flag_bit(on: bool) -> (r: u8)
    ensures
        r == flag(on),
{
    if on {
        1
    } else {
        0
    }
}

/// `x & mask` for a mask of low bits: `x` modulo `mask + 1`.
fn low_bits(x: u8, mask: u8) -> (r: u8)
    requires
        mask == 0x0F || mask == 0x3F,
    ensures
        r == x as int % (mask as int + 1),
{
    let r = x & mask;
    assert(r == x % 16 || mask != 0x0F) by (bit_vector)
        requires
            r == x & mask,
    ;
    assert(r == x % 64 || mask != 0x3F) by (bit_vector)
        requires
            r == x & mask,
    ;
    r
}

/// `base | field`, where `field` fits in the low bits that `base` leaves
/// clear, which is `base + field`.
fn with_field(base: u8, field: u8, bound: u8) -> (r: u8)
    requires
        bound == 2 || bound == 4 || bound == 8 || bound == 16 || bound == 64,
        base % bound == 0,
        field < bound,
    ensures
        r == base + field,
{
    let r = base | field;
    assert(r == base + field) by (bit_vector)
        requires
            bound == 2 || bound == 4 || bound == 8 || bound == 16 || bound == 64,
            base % bound == 0,
            field < bound,
            r == base | field,
    ;
    r
}

/// `base | bit` for an even `base`.
fn with_bit(base: u8, on: bool) -> (r: u8)
    requires
        base % 2 == 0,
    ensures
        r == base + flag(on),
{
    with_field(base, flag_bit(on), 2)
}

/// The upper nibble of `x`: `(x >> 4) & 0x0F`.
fn high_nibble(x: u8) -> (r: u8)
    ensures
        r == x / 16,
{
    let r = (x >> 4) & 0x0F;
    assert(r == x / 16) by (bit_vector)
        requires
            r == (x >> 4) & 0x0F,
    ;
    r
}

/// One byte from two nibbles: `((high & 0x0F) << 4) | (low & 0x0F)`.
fn nibble_pair(high: u8, low: u8) -> (r: u8)
    ensures
        r == 16 * (high % 16) + low % 16,
{
    let r = ((high & 0x0F) << 4) | (low & 0x0F);
    assert(r == 16 * (high % 16) + low % 16) by (bit_vector)
        requires
            r == ((high & 0x0F) << 4) | (low & 0x0F),
    ;
    r
}

/// Encodes `command` into the exact bytes of its bus transfer.
pub fn encode(command: Command) -> (r: Vec<u8>)
    ensures
        r@ == encoding(command),
{
    let r = match command {
        Command::SetContrast { contrast } => vec![CONTROL_COMMAND, 0x81, contrast],
        Command::AllPixelsOn(on) => vec![CONTROL_COMMAND, with_bit(0xA4, on)],
        Command::InvertDisplay(on) => vec![CONTROL_COMMAND, with_bit(0xA6, on)],
        Command::DisplayEnable(on) => vec![CONTROL_COMMAND, with_bit(0xAE, on)],
        Command::SetupHorizontalScroll { direction, interval, start_page, end_page } => vec![
            CONTROL_COMMAND,
            with_field(0x26, direction.as_byte(), 2),
            0x00,
            start_page.as_byte(),
            interval.as_byte(),
            end_page.as_byte(),
            0x00,
            0xFF,
        ],
        Command::SetupVerticalAndHorizontalScroll {
            direction,
            interval,
            start_page,
            end_page,
            offset,
        } => vec![
            CONTROL_COMMAND,
            with_field(0x28, direction.as_byte(), 4),
            0x00,
            start_page.as_byte(),
            interval.as_byte(),
            end_page.as_byte(),
            offset,
        ],
        Command::EnableScrolling(on) => vec![CONTROL_COMMAND, with_bit(0x2E, on)],
        Command::SetupVerticalScrollArea { top, bottom } => vec![CONTROL_COMMAND, 0xA3, top, bottom],
        Command::LowerColumnStart(addr) => vec![CONTROL_COMMAND, low_bits(addr, 0x0F)],
        Command::UpperColumnStart(addr) => vec![
            CONTROL_COMMAND,
            with_field(0x10, low_bits(addr, 0x0F), 16),
        ],
        Command::ColumnStart(addr) => vec![
            CONTROL_COMMAND,
            low_bits(addr, 0x0F),
            with_field(0x10, high_nibble(addr), 16),
        ],
        Command::SetAddressMode(mode) => vec![CONTROL_COMMAND, 0x20, mode.as_byte()],
        Command::SetColumnAddress { start_col, end_col } => vec![
            CONTROL_COMMAND,
            0x21,
            start_col,
            end_col,
        ],
        Command::SetPageAddress { start_page, end_page } => vec![
            CONTROL_COMMAND,
            0x22,
            start_page.as_byte(),
            end_page.as_byte(),
        ],
        Command::PageStart(page) => vec![CONTROL_COMMAND, with_field(0xB0, page.as_byte(), 8)],
        Command::SetStartLine(line) => vec![
            CONTROL_COMMAND,
            with_field(0x40, low_bits(line, 0x3F), 64),
        ],
        Command::SegmentRemap(remap) => vec![CONTROL_COMMAND, with_bit(0xA0, remap)],
        Command::SetMultiplexRatio { ratio } => vec![CONTROL_COMMAND, 0xA8, ratio],
        Command::SetComScanDir(reverse) => vec![
            CONTROL_COMMAND,
            if reverse {
                0xC8
            } else {
                0xC0
            },
        ],
        Command::EnableScroll(on) => vec![CONTROL_COMMAND, with_bit(0x2E, on)],
        Command::DisplayClockDiv { oscillator_freq, divide_ratio } => vec![
            CONTROL_COMMAND,
            0xD5,
            nibble_pair(oscillator_freq, divide_ratio),
        ],
        Command::PreChargePeriod(period) => vec![CONTROL_COMMAND, 0xD9, period],
        Command::NoOp => vec![CONTROL_COMMAND, 0xE3],
        Command::ChargePump(on) => vec![CONTROL_COMMAND, 0x8D, with_field(0x10, 4 * flag_bit(on), 16)],
    };
    assert(r@ =~= encoding(command));
    r
}

} // verus!
