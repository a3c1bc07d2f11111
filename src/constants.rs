use vstd::prelude::*;

verus! {

/// Width of the panel in pixels.
pub const SCREEN_WIDTH: usize = 128;
/// Height of the panel in pixels.
pub const SCREEN_HEIGHT: usize = 64;
/// Bytes in the packed framebuffer: one bit per pixel.
pub const BUFFER_SIZE: usize = 1024;
/// Pages of the panel: horizontal strips eight pixels tall.
pub const PAGE_COUNT: usize = 8;

// Commands used to bring the controller up.
pub const ST7567_BIAS_1_7: u8 = 0xA3;
pub const ST7567_SEG_DIR_NORMAL: u8 = 0xA0;
pub const ST7567_SETCOMREVERSE: u8 = 0xC8;
pub const ST7567_DISPNORMAL: u8 = 0xA6;
pub const ST7567_SETSTARTLINE: u8 = 0x40;
pub const ST7567_POWERCTRL: u8 = 0x2F;
pub const ST7567_REG_RATIO: u8 = 0x20;
pub const ST7567_DISPON: u8 = 0xAF;
pub const ST7567_SETCONTRAST: u8 = 0x81;
/// Added to the regulation ratio to lower the brightness.
pub const REG_RATIO_DIMMING: u8 = 4;
/// Contrast level written after the contrast command.
pub const CONTRAST_LEVEL: u8 = 30;

// Commands used to stream the framebuffer.
pub const ST7567_ENTER_RMWMODE: u8 = 0xE0;
pub const ST7567_EXIT_RMWMODE: u8 = 0xEE;
pub const ST7567_SETPAGESTART: u8 = 0xB0;
pub const ST7567_PAGESTART_MASK: u8 = 0x07;
pub const ST7567_SETCOLL: u8 = 0x00;
/// Column shift applied when the panel is mounted in reverse.
pub const REVERSE_COLUMN_SHIFT: u8 = 0x04;
pub const ST7567_COLL_MASK: u8 = 0x0F;
pub const ST7567_SETCOLH: u8 = 0x10;
pub const ST7567_COLH_MASK: u8 = 0x0F;

// The rest of the controller vocabulary.
pub const ST7567_DISPOFF: u8 = 0xAE;
pub const ST7567_STARTLINE_MASK: u8 = 0x3F;
pub const ST7567_SEG_DIR_REV: u8 = 0xA1;
pub const ST7567_DISPINVERSE: u8 = 0xA7;
pub const ST7567_DISPRAM: u8 = 0xA4;
pub const ST7567_DISPENTIRE: u8 = 0xA5;
pub const ST7567_BIAS_1_9: u8 = 0xA2;
pub const ST7567_EXIT_SOFTRST: u8 = 0xE2;
pub const ST7567_SETCOMNORMAL: u8 = 0xC0;
pub const ST7567_POWERCTRL_VF: u8 = 0x29;
pub const ST7567_POWERCTRL_VR: u8 = 0x2A;
pub const ST7567_POWERCTRL_VB: u8 = 0x2C;
pub const ST7567_REG_RES_RR0: u8 = 0x21;
pub const ST7567_REG_RES_RR1: u8 = 0x22;
pub const ST7567_REG_RES_RR2: u8 = 0x24;
pub const ST7567_SETBOOSTER: u8 = 0xF8;
pub const ST7567_SETBOOSTER4X: u8 = 0x00;
pub const ST7567_SETBOOSTER5X: u8 = 0x01;
pub const ST7567_NOP: u8 = 0xE3;

} // verus!
