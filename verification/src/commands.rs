//! Catalog of SSD1306 controller opcodes and parameter bytes.
//!
//! Pure data: named constants for every opcode the driver needs, with the
//! documented legal ranges noted beside each. No behavior lives here.

use vstd::prelude::*;

verus! {

/* Fundamental commands */

/// Resume to RAM content display: output follows RAM content.
pub const SET_ENTIRE_DISPLAY_ON: u8 = 0xA4;
/// Entire display on: output ignores stored RAM.
pub const SET_ENTIRE_DISPLAY_ON_IGNORE_RAM: u8 = 0xA5;

/// Normal display mode (0 in RAM = off pixel, 1 in RAM = on pixel).
pub const SET_NORMAL_DISPLAY: u8 = 0xA6;

/// Inverse display mode (1 in RAM = off pixel, 0 in RAM = on pixel).
pub const SET_INVERSE_DISPLAY: u8 = 0xA7;

/// Display off (sleep mode).
pub const SET_DISPLAY_OFF: u8 = 0xAE;

/// Display on in normal mode.
pub const SET_DISPLAY_ON: u8 = 0xAF;

/* Hardware configuration commands */

/// Set multiplex ratio to N+1 MUX; must be followed by the ratio value N.
/// The datasheet validates 15 <= N <= 63.
pub const SET_MULTIPLEX_RATIO: u8 = 0xA8;
pub const MULTIPLEX_RATIO_MIN: u8 = 0x0F;
pub const MULTIPLEX_RATIO_MAX: u8 = 0x3F;

/// Set display offset (vertical shift); must be followed by a value 0..=63.
pub const SET_DISPLAY_OFFSET: u8 = 0xD3;
pub const DISPLAY_OFFSET_MIN: u8 = 0x00;
pub const DISPLAY_OFFSET_MAX: u8 = 0x3F;

/// Set display RAM start line register to line 0 (command range 0x40..=0x7F
/// encodes lines 0..=63).
pub const DISPLAY_START_LINE_0: u8 = 0x40;

/// Charge pump setting; must be followed by enable (0x14) or disable (0x10).
/// The charge pump must be enabled before display-on: 0x8D, 0x14, 0xAF.
pub const SET_CHARGE_PUMP: u8 = 0x8D;
pub const CHARGE_PUMP_ENABLE: u8 = 0x14;
pub const CHARGE_PUMP_DISABLE: u8 = 0x10;

/// Segment re-map: column address 0 mapped to SEG0, or 127 mapped to SEG0.
pub const SET_SEGMENT_REMAP_0_TO_SEG0: u8 = 0xA0;
pub const SET_SEGMENT_REMAP_127_TO_SEG0: u8 = 0xA1;

/// COM output scan direction: normal (COM0 to COM[N-1]) or remapped.
pub const SET_COM_OUTPUT_SCAN_DIRECTION_NORMAL: u8 = 0xC0;
pub const SET_COM_OUTPUT_SCAN_DIRECTION_REMAPED: u8 = 0xC8;

/// COM pins hardware configuration; must be followed by one of the four
/// values below (sequential/alternative pin layout, left/right remap).
pub const SET_COM_PINS_HW_CONFIG: u8 = 0xDA;
pub const COM_PINS_HW_CONFIG_SEQ_DISABLE_REMAP: u8 = 0b00000010;
pub const COM_PINS_HW_CONFIG_ALT_DISABLE_REMAP: u8 = 0b00010010;
pub const COM_PINS_HW_CONFIG_SEQ_ENABLE_REMAP: u8 = 0b00100010;
pub const COM_PINS_HW_CONFIG_ALT_ENABLE_REMAP: u8 = 0b00110010;

/// Contrast control; must be followed by the contrast value 0x01..=0xFF.
pub const SET_CONTRAST: u8 = 0x81;
pub const CONTRAST_MAX: u8 = 0xFF;
pub const CONTRAST_MID: u8 = 0x7F;
pub const CONTRAST_MIN: u8 = 0x01;

/* Timing and driving scheme commands */

/// Display clock divide ratio / oscillator frequency; must be followed by a
/// value whose low nibble is the divide ratio minus one and whose high
/// nibble is the oscillator frequency setting.
pub const SET_DISPLAY_CLOCK_DIVIDE_RATIO_AND_OSCILLATOR_FREQUENCY: u8 = 0xD5;
/// Divide ratio 1, reset oscillator frequency.
pub const DISPLAY_CLOCK_DIVIDE_RATIO_AND_OSCILLATOR_FREQUENCY_NORMAL: u8 = 0b10000000;
/// Divide ratio 1, maximum oscillator frequency.
pub const DISPLAY_CLOCK_DIVIDE_RATIO_AND_OSCILLATOR_FREQUENCY_MAX: u8 = 0b11110000;

/* Addressing setting commands */

/// Select the memory addressing mode; must be followed by a
/// `MemoryAddressingMode` parameter byte.
pub const SET_MEMORY_ADDRESSING_MODE: u8 = 0x20;

/// The three mutually exclusive addressing modes the controller supports.
/// The mode governs how the page/column pointer auto-increments after each
/// data byte.
pub enum MemoryAddressingMode {
    HORIZONTAL,
    VERTICAL,
    PAGE,
}

impl MemoryAddressingMode {
    /// The parameter byte that selects this mode.
    pub open spec fn spec_value(self) -> u8 {
        match self {
            MemoryAddressingMode::HORIZONTAL => 0b00000000,
            MemoryAddressingMode::VERTICAL => 0b00000001,
            MemoryAddressingMode::PAGE => 0b00000010,
        }
    }

    /// The parameter byte that selects this mode.
    pub fn value(&self) -> (r: u8)
        ensures
            r == self.spec_value(),
    {
        match self {
            MemoryAddressingMode::HORIZONTAL => 0b00000000,
            MemoryAddressingMode::VERTICAL => 0b00000001,
            MemoryAddressingMode::PAGE => 0b00000010,
        }
    }
}

/// Base byte for the page-start-address command; the page index 0..=7 is
/// or-ed into the low three bits.
pub const SET_PAGE_START_ADDRESS: u8 = 0b10110000;

/// Base byte for the lower-column-address command; the column's low nibble
/// is or-ed into the low four bits (command range 0x00..=0x0F).
pub const SET_LOWER_COLUMN_COMMAND: u8 = 0x00;

/// Base byte for the higher-column-address command; the column's high
/// nibble is or-ed into the low four bits (command range 0x10..=0x1F).
pub const SET_HIGHER_COLUMN_COMMAND: u8 = 0x10;

} // verus!
