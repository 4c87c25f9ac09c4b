//! Byte framing for a character display driven in 4-bit mode through an
//! 8-bit I2C port expander: each command or character byte travels as two
//! nibbles in the upper half of the port, with the control lines in the lower.
use vstd::prelude::*;

verus! {

pub const LCD_ADDRESS: u8 = 0x27;
pub const LCD_NUM_LINES: usize = 2;

pub const LCD_CLEARDISPLAY: u8 = 0x01;
pub const LCD_RETURNHOME: u8 = 0x02;
pub const LCD_ENTRYMODESET: u8 = 0x04;
pub const LCD_DISPLAYCONTROL: u8 = 0x08;
pub const LCD_FUNCTIONSET: u8 = 0x20;
pub const LCD_SETDDRAMADDR: u8 = 0x80;

pub const LCD_ENTRYLEFT: u8 = 0x02;
pub const LCD_ENTRYSHIFTDECREMENT: u8 = 0x00;
pub const LCD_DISPLAYON: u8 = 0x04;
pub const LCD_CURSOROFF: u8 = 0x00;
pub const LCD_BLINKOFF: u8 = 0x00;
pub const LCD_4BITMODE: u8 = 0x00;
pub const LCD_2LINE: u8 = 0x08;
pub const LCD_5X8_DOTS: u8 = 0x00;

/// Register select: the byte is character data, not a command.
pub const LCD_RS_BIT: u8 = 0x01;
/// The enable strobe.
pub const LCD_EN_BIT: u8 = 0x04;
/// The backlight, kept on in every transfer.
pub const LCD_BACKLIGHT: u8 = 0x08;

/// The two port writes that carry `value`: its high nibble, then its low
/// nibble, each in the upper half of the port with the backlight on and, for
/// character data, register select.
pub fn nibble_frames(value: u8, is_data: bool) -> (r: (u8, u8))
    ensures
        r.0 / 16 == value / 16,
        r.1 / 16 == value % 16,
        r.0 % 16 == r.1 % 16,
        r.0 % 16 == if is_data {
            (LCD_BACKLIGHT + LCD_RS_BIT) as int
        } else {
            LCD_BACKLIGHT as int
        },
{
    let flags: u8 = if is_data {
        LCD_RS_BIT | LCD_BACKLIGHT
    } else {
        LCD_BACKLIGHT
    };
    assert((1u8 | 8u8) == 9u8) by (bit_vector);
    let high = (value & 0xF0) | flags;
    let low = ((value << 4) & 0xF0) | flags;
    assert(flags < 16);
    assert(high / 16 == value / 16 && high % 16 == flags) by (bit_vector)
        requires
            high == (value & 0xF0) | flags,
            flags < 16,
    ;
    assert(low / 16 == value % 16 && low % 16 == flags) by (bit_vector)
        requires
            low == ((value << 4) & 0xF0) | flags,
            flags < 16,
    ;
    (high, low)
}

/// The two port writes that latch `data`: with the enable strobe and the
/// backlight set, then with the strobe cleared and the backlight still set;
/// every other bit of `data` is kept in both.
pub fn enable_pulse(data: u8) -> (r: (u8, u8))
    ensures
        r.0 == data | LCD_EN_BIT | LCD_BACKLIGHT,
        r.1 == (data & !LCD_EN_BIT) | LCD_BACKLIGHT,
{
    (data | LCD_EN_BIT | LCD_BACKLIGHT, (data & !LCD_EN_BIT) | LCD_BACKLIGHT)
}

/// Display address of the first column of each of up to four lines.
pub open spec fn row_offset(row: int) -> int {
    if row == 0 {
        0x00
    } else if row == 1 {
        0x40
    } else if row == 2 {
        0x14
    } else {
        0x54
    }
}

/// Display address of the first column of line `row`, taken modulo four.
pub fn row_address(row: u8) -> (r: u8)
    ensures
        r == row_offset(row as int % 4),
{
    match row % 4 {
        0 => 0x00,
        1 => 0x40,
        2 => 0x14,
        _ => 0x54,
    }
}

/// The command that moves the cursor to `col` on line `row` (taken modulo four).
pub fn cursor_command(col: u8, row: u8) -> (r: u8)
    requires
        col as int + row_offset(row as int % 4) < 0x80,
    ensures
        r == LCD_SETDDRAMADDR as int + col as int + row_offset(row as int % 4),
{
    let addr: u8 = col + row_address(row);
    assert(addr < 0x80u8 ==> (0x80u8 | addr) == 0x80u8 + addr) by (bit_vector);
    LCD_SETDDRAMADDR | addr
}

} // verus!
