use vstd::prelude::*;

use crate::constants::{
    BUFFER_SIZE, CONTRAST_LEVEL, PAGE_COUNT, REG_RATIO_DIMMING, REVERSE_COLUMN_SHIFT,
    SCREEN_HEIGHT, SCREEN_WIDTH, ST7567_BIAS_1_7, ST7567_BIAS_1_9, ST7567_DISPNORMAL,
    ST7567_DISPON, ST7567_ENTER_RMWMODE, ST7567_EXIT_RMWMODE, ST7567_PAGESTART_MASK,
    ST7567_POWERCTRL, ST7567_REG_RATIO, ST7567_SEG_DIR_NORMAL, ST7567_SEG_DIR_REV,
    ST7567_SETCOLH, ST7567_SETCOLL, ST7567_SETCOMNORMAL, ST7567_SETCOMREVERSE,
    ST7567_SETCONTRAST, ST7567_SETPAGESTART, ST7567_SETSTARTLINE,
};
use crate::transfer::{copy_bytes, signals, Op, Signal};

verus! {

/// Requested state of the backlight.
#[derive(Clone, Copy, Debug, PartialEq, Eq, Structural)]
pub enum BacklightStatus {
    On,
    Off,
}

/// How the panel is mounted; it flips the segment and COM directions together.
#[derive(Clone, Copy, Debug, PartialEq, Eq, Structural)]
pub enum ScreenDirection {
    Normal,
    Reverse,
}

/// LCD bias ratio.
#[derive(Clone, Copy, Debug, PartialEq, Eq, Structural)]
pub enum Bias {
    Bias7_1,
    Bias9_1,
}

/// What can go wrong while driving the display.
#[derive(Clone, Copy, Debug)]
pub enum DisplayErrors {
    /// A command or data transfer on the bus failed.
    SpiError,
    /// A digital output pin could not be driven.
    PinError,
    /// The pixel coordinate lies outside the panel; carries `(x, y)`.
    OutOfBoundsError((usize, usize)),
}

/// True when `(x, y)` is a pixel of the panel.
pub open spec fn in_bounds(x: int, y: int) -> bool {
    0 <= x < SCREEN_WIDTH as int && 0 <= y < SCREEN_HEIGHT as int
}

/// Byte of the framebuffer that holds pixel `(x, y)`: page `y / 8`, column `x`.
pub open spec fn byte_index(x: int, y: int) -> int {
    (y / 8) * SCREEN_WIDTH as int + x
}

/// Bit of that byte that holds pixel `(x, y)`.
pub open spec fn bit_index(y: int) -> u8 {
    (y % 8) as u8
}

/// Bit `bit` of `b`.
pub open spec fn bit_of(b: u8, bit: u8) -> bool {
    (b >> bit) & 1u8 == 1u8
}

/// `b` with bit `bit` set to `value`, the other bits kept.
pub open spec fn with_bit(b: u8, bit: u8, value: bool) -> u8 {
    if value {
        b | (1u8 << bit)
    } else {
        b & !(1u8 << bit)
    }
}

/// Whether pixel `(x, y)` is on in the framebuffer `buf`.
pub open spec fn pixel(buf: Seq<u8>, x: int, y: int) -> bool {
    bit_of(buf[byte_index(x, y)], bit_index(y))
}

/// `buf` with pixel `(x, y)` set to `value`.
pub open spec fn with_pixel(buf: Seq<u8>, x: int, y: int, value: bool) -> Seq<u8> {
    buf.update(byte_index(x, y), with_bit(buf[byte_index(x, y)], bit_index(y), value))
}


/// Bias-ratio select command.
pub open spec fn bias_command(bias: Bias) -> u8 {
    match bias {
        Bias::Bias7_1 => ST7567_BIAS_1_7,
        Bias::Bias9_1 => ST7567_BIAS_1_9,
    }
}

/// Segment-direction select command.
pub open spec fn segment_command(d: ScreenDirection) -> u8 {
    match d {
        ScreenDirection::Normal => ST7567_SEG_DIR_NORMAL,
        ScreenDirection::Reverse => ST7567_SEG_DIR_REV,
    }
}

/// COM-output-direction select command.
pub open spec fn com_command(d: ScreenDirection) -> u8 {
    match d {
        ScreenDirection::Normal => ST7567_SETCOMREVERSE,
        ScreenDirection::Reverse => ST7567_SETCOMNORMAL,
    }
}

/// The command bytes that configure the controller and turn the display on, in order.
pub open spec fn init_commands(d: ScreenDirection, bias: Bias) -> Seq<u8> {
    seq![
        bias_command(bias),
        segment_command(d),
        com_command(d),
        ST7567_DISPNORMAL,
        ST7567_SETSTARTLINE | 0u8,
        ST7567_POWERCTRL,
        ST7567_REG_RATIO | REG_RATIO_DIMMING,
        ST7567_DISPON,
        ST7567_SETCONTRAST,
        CONTRAST_LEVEL,
    ]
}

/// A reset pulse: the reset line low, then high.
pub open spec fn reset_signals() -> Seq<Signal> {
    seq![Signal::ResetLow, Signal::ResetHigh]
}

/// Initialisation: a reset pulse, then each init command as a transfer of its own.
pub open spec fn init_signals(d: ScreenDirection, bias: Bias) -> Seq<Signal> {
    reset_signals() + Seq::new(
        init_commands(d, bias).len(),
        |i: int| Signal::Command(seq![init_commands(d, bias)[i]]),
    )
}

/// Column-address low-nibble command used before each page.
pub open spec fn column_low_command(d: ScreenDirection) -> u8 {
    match d {
        ScreenDirection::Normal => ST7567_SETCOLL,
        ScreenDirection::Reverse => ST7567_SETCOLL | REVERSE_COLUMN_SHIFT,
    }
}

/// Commands that address the start of page `p`.
pub open spec fn page_commands(d: ScreenDirection, p: int) -> Seq<u8> {
    seq![ST7567_SETPAGESTART | (p as u8), column_low_command(d), ST7567_SETCOLH]
}

/// The bytes of page `p` of the framebuffer `buf`.
pub open spec fn page_bytes(buf: Seq<u8>, p: int) -> Seq<u8> {
    buf.subrange(p * SCREEN_WIDTH as int, p * SCREEN_WIDTH as int + SCREEN_WIDTH as int)
}

/// Transfer `i` of a full-screen update: enter read-modify-write mode, then for
/// each page its address commands and its bytes, then leave the mode.
pub open spec fn show_signal(buf: Seq<u8>, d: ScreenDirection, i: int) -> Signal {
    if i == 0 {
        Signal::Command(seq![ST7567_ENTER_RMWMODE])
    } else if i == 2 * PAGE_COUNT as int + 1 {
        Signal::Command(seq![ST7567_EXIT_RMWMODE])
    } else if (i - 1) % 2 == 0 {
        Signal::Command(page_commands(d, (i - 1) / 2))
    } else {
        Signal::Data(page_bytes(buf, (i - 1) / 2))
    }
}

/// All transfers of a full-screen update of `buf`.
pub open spec fn show_signals(buf: Seq<u8>, d: ScreenDirection) -> Seq<Signal> {
    Seq::new(2 * PAGE_COUNT as nat + 2, |i: int| show_signal(buf, d, i))
}

/// A vector holding `b` alone.
fn single_byte(b: u8) -> (r: Vec<u8>)
    ensures
        r@ == seq![b],
{
    let mut r: Vec<u8> = Vec::new();
    r.push(b);
    assert(r@ =~= seq![b]);
    r
}

/// The driver state: the framebuffer and the fixed panel configuration.
pub struct ST7567 {
    buffer: [u8; BUFFER_SIZE],
    screen_direction: ScreenDirection,
    bias: Bias,
}

impl ST7567 {
    /// The framebuffer, page after page, `SCREEN_WIDTH` bytes per page.
    pub closed spec fn frame(self) -> Seq<u8> {
        self.buffer@
    }

    /// How the panel is mounted.
    pub closed spec fn direction(self) -> ScreenDirection {
        self.screen_direction
    }

    /// The configured bias ratio.
    pub closed spec fn bias_ratio(self) -> Bias {
        self.bias
    }

    /// The framebuffer holds exactly one bit per pixel.
    pub open spec fn wf(self) -> bool {
        self.frame().len() == BUFFER_SIZE as int
    }

    /// A driver with a blank framebuffer.
    pub fn new(screen_direction: ScreenDirection, bias: Bias) -> (r: ST7567)
        ensures
            r.wf(),
            r.direction() == screen_direction,
            r.bias_ratio() == bias,
            forall|i: int| 0 <= i < BUFFER_SIZE as int ==> #[trigger] r.frame()[i] == 0u8,
    {
        ST7567 { buffer: [0u8; BUFFER_SIZE], screen_direction, bias }
    }

    /// A single command transfer of `data`.
    pub fn command(data: &[u8]) -> (r: Op)
        ensures
            r@ == Signal::Command(data@),
    {
        Op::Command(copy_bytes(data))
    }

    /// A single data transfer of `data`.
    pub fn data(data: &[u8]) -> (r: Op)
        ensures
            r@ == Signal::Data(data@),
    {
        Op::Data(copy_bytes(data))
    }

    /// The reset pulse.
    pub fn reset() -> (r: Vec<Op>)
        ensures
            signals(r@) == reset_signals(),
    {
        let mut r: Vec<Op> = Vec::new();
        r.push(Op::ResetLow);
        r.push(Op::ResetHigh);
        assert(signals(r@) =~= reset_signals());
        r
    }

    /// Drives the backlight line high for `On`, low for `Off`.
    pub fn backlight(status: BacklightStatus) -> (r: Vec<Op>)
        ensures
            status == BacklightStatus::On ==> signals(r@) == seq![Signal::BacklightHigh],
            status == BacklightStatus::Off ==> signals(r@) == seq![Signal::BacklightLow],
    {
        let mut r: Vec<Op> = Vec::new();
        match status {
            BacklightStatus::On => r.push(Op::BacklightHigh),
            BacklightStatus::Off => r.push(Op::BacklightLow),
        }
        assert(signals(r@) =~= seq![r@[0]@]);
        r
    }

    /// Everything that brings the controller from power-on to displaying.
    pub fn init(&self) -> (r: Vec<Op>)
        ensures
            signals(r@) == init_signals(self.direction(), self.bias_ratio()),
    {
        let commands: Vec<u8> = vec![
            match self.bias {
                Bias::Bias7_1 => ST7567_BIAS_1_7,
                Bias::Bias9_1 => ST7567_BIAS_1_9,
            },
            match self.screen_direction {
                ScreenDirection::Normal => ST7567_SEG_DIR_NORMAL,
                ScreenDirection::Reverse => ST7567_SEG_DIR_REV,
            },
            match self.screen_direction {
                ScreenDirection::Normal => ST7567_SETCOMREVERSE,
                ScreenDirection::Reverse => ST7567_SETCOMNORMAL,
            },
            ST7567_DISPNORMAL,
            ST7567_SETSTARTLINE | 0u8,
            ST7567_POWERCTRL,
            ST7567_REG_RATIO | REG_RATIO_DIMMING,
            ST7567_DISPON,
            ST7567_SETCONTRAST,
            CONTRAST_LEVEL,
        ];
        let ghost target = init_signals(self.direction(), self.bias_ratio());
        assert(commands@ =~= init_commands(self.direction(), self.bias_ratio()));
        let mut r = Self::reset();
        let mut i: usize = 0;
        while i < commands.len()
            invariant
                commands@ == init_commands(self.direction(), self.bias_ratio()),
                target == init_signals(self.direction(), self.bias_ratio()),
                i <= commands@.len(),
                r@.len() == 2 + i,
                forall|k: int| 0 <= k < 2 + i ==> #[trigger] r@[k]@ == target[k],
            decreases commands@.len() - i,
        {
            r.push(Op::Command(single_byte(commands[i])));
            i = i + 1;
        }
        assert(signals(r@) =~= target);
        r
    }

    /// Everything that copies the framebuffer to the panel, page by page.
    pub fn show(&self) -> (r: Vec<Op>)
        ensures
            signals(r@) == show_signals(self.frame(), self.direction()),
    {
        let ghost target = show_signals(self.frame(), self.direction());
        let mut r: Vec<Op> = Vec::new();
        r.push(Op::Command(single_byte(ST7567_ENTER_RMWMODE)));
        assert(r@[0]@ == target[0]);
        let col_low: u8 = match self.screen_direction {
            ScreenDirection::Normal => ST7567_SETCOLL,
            ScreenDirection::Reverse => ST7567_SETCOLL | REVERSE_COLUMN_SHIFT,
        };
        let mut page: usize = 0;
        while page < PAGE_COUNT
            invariant
                target == show_signals(self.frame(), self.direction()),
                self.frame().len() == BUFFER_SIZE as int,
                col_low == column_low_command(self.direction()),
                page <= PAGE_COUNT,
                r@.len() == 1 + 2 * page,
                forall|k: int| 0 <= k < 1 + 2 * page ==> #[trigger] r@[k]@ == target[k],
            decreases PAGE_COUNT - page,
        {
            let mut address: Vec<u8> = Vec::new();
            address.push(ST7567_SETPAGESTART | page as u8);
            address.push(col_low);
            address.push(ST7567_SETCOLH);
            assert(address@ =~= page_commands(self.direction(), page as int));
            let offset: usize = page * SCREEN_WIDTH;
            let mut bytes: Vec<u8> = Vec::new();
            let mut j: usize = 0;
            while j < SCREEN_WIDTH
                invariant
                    self.frame().len() == BUFFER_SIZE as int,
                    page < PAGE_COUNT,
                    offset == page * SCREEN_WIDTH,
                    j <= SCREEN_WIDTH,
                    bytes@ == self.frame().subrange(offset as int, offset + j),
                decreases SCREEN_WIDTH - j,
            {
                bytes.push(self.buffer[offset + j]);
                j = j + 1;
                assert(bytes@ =~= self.frame().subrange(offset as int, offset + j));
            }
            let ghost k1 = 1 + 2 * page as int;
            assert((k1 - 1) % 2 == 0 && (k1 - 1) / 2 == page as int);
            assert((k1 + 1 - 1) % 2 == 1 && (k1 + 1 - 1) / 2 == page as int);
            r.push(Op::Command(address));
            r.push(Op::Data(bytes));
            page = page + 1;
        }
        r.push(Op::Command(single_byte(ST7567_EXIT_RMWMODE)));
        assert(signals(r@) =~= target);
        r
    }

    /// Byte `i` of the framebuffer.
    pub fn byte(&self, i: usize) -> (r: u8)
        requires
            i < BUFFER_SIZE,
        ensures
            r == self.frame()[i as int],
    {
        self.buffer[i]
    }

    /// Turns every pixel off.
    pub fn clear(&mut self) -> (r: Result<(), ()>)
        ensures
            r == Ok::<(), ()>(()),
            final(self).wf(),
            final(self).direction() == old(self).direction(),
            final(self).bias_ratio() == old(self).bias_ratio(),
            forall|i: int| 0 <= i < BUFFER_SIZE as int ==> #[trigger] final(self).frame()[i] == 0u8,
    {
        self.buffer = [0u8; BUFFER_SIZE];
        Ok(())
    }

    /// Sets pixel `(x, y)` on or off, leaving every other bit of the framebuffer alone.
    pub fn set_pixel(&mut self, x: usize, y: usize, value: bool) -> (r: Result<(), DisplayErrors>)
        ensures
            final(self).wf(),
            final(self).direction() == old(self).direction(),
            final(self).bias_ratio() == old(self).bias_ratio(),
            in_bounds(x as int, y as int) ==> r == Ok::<(), DisplayErrors>(()) && final(self).frame()
                == with_pixel(old(self).frame(), x as int, y as int, value),
            !in_bounds(x as int, y as int) ==> r == Err::<(), DisplayErrors>(
                DisplayErrors::OutOfBoundsError((x, y)),
            ) && final(self).frame() == old(self).frame(),
    {
        if x >= SCREEN_WIDTH || y >= SCREEN_HEIGHT {
            return Err(DisplayErrors::OutOfBoundsError((x, y)));
        }
        let offset: usize = (y / 8) * SCREEN_WIDTH + x;
        let bit: u8 = (y % 8) as u8;
        let old_byte: u8 = self.buffer[offset];
        let new_byte: u8 = if value {
            old_byte | (1u8 << bit)
        } else {
            old_byte & !(1u8 << bit)
        };
        self.buffer[offset] = new_byte;
        Ok(())
    }
}

proof fn lemma_with_bit(b: u8, k: u8, j: u8, value: bool)
    requires
        k < 8,
        j < 8,
    ensures
        bit_of(with_bit(b, k, value), k) == value,
        j != k ==> bit_of(with_bit(b, k, value), j) == bit_of(b, j),
        with_bit(with_bit(b, k, value), k, value) == with_bit(b, k, value),
{
    if value {
        assert(((b | (1u8 << k)) >> k) & 1u8 == 1u8) by (bit_vector)
            requires
                k < 8,
        ;
        assert(j != k ==> ((b | (1u8 << k)) >> j) & 1u8 == (b >> j) & 1u8) by (bit_vector)
            requires
                k < 8,
                j < 8,
        ;
        assert((b | (1u8 << k)) | (1u8 << k) == b | (1u8 << k)) by (bit_vector);
    } else {
        assert(((b & !(1u8 << k)) >> k) & 1u8 == 0u8) by (bit_vector)
            requires
                k < 8,
        ;
        assert(j != k ==> ((b & !(1u8 << k)) >> j) & 1u8 == (b >> j) & 1u8) by (bit_vector)
            requires
                k < 8,
                j < 8,
        ;
        assert((b & !(1u8 << k)) & !(1u8 << k) == b & !(1u8 << k)) by (bit_vector);
    }
}

proof fn lemma_pixel_address_unique(x: int, y: int, x2: int, y2: int)
    requires
        in_bounds(x, y),
        in_bounds(x2, y2),
        byte_index(x, y) == byte_index(x2, y2),
        bit_index(y) == bit_index(y2),
    ensures
        x == x2,
        y == y2,
{
    assert(x == x2 && y / 8 == y2 / 8) by (nonlinear_arith)
        requires
            0 <= x < 128,
            0 <= x2 < 128,
            0 <= y < 64,
            0 <= y2 < 64,
            (y / 8) * 128 + x == (y2 / 8) * 128 + x2,
    ;
    assert(y % 8 == y2 % 8);
}

/// Writing pixel `(x, y)` stores the value in bit `y % 8` of byte
/// `(y / 8) * SCREEN_WIDTH + x`, and no other bit of the framebuffer changes:
/// every other byte, every other bit of that byte and every other pixel keep
/// their values.
pub proof fn lemma_pixel_read_back(buf: Seq<u8>, x: int, y: int, value: bool)
    requires
        buf.len() == BUFFER_SIZE as int,
        in_bounds(x, y),
    ensures
        with_pixel(buf, x, y, value).len() == buf.len(),
        bit_of(with_pixel(buf, x, y, value)[(y / 8) * SCREEN_WIDTH as int + x], (y % 8) as u8)
            == value,
        pixel(with_pixel(buf, x, y, value), x, y) == value,
        forall|i: int|
            0 <= i < buf.len() && i != byte_index(x, y) ==> #[trigger] with_pixel(
                buf,
                x,
                y,
                value,
            )[i] == buf[i],
        forall|j: u8|
            j < 8 && j != bit_index(y) ==> #[trigger] bit_of(
                with_pixel(buf, x, y, value)[byte_index(x, y)],
                j,
            ) == bit_of(buf[byte_index(x, y)], j),
        forall|x2: int, y2: int|
            in_bounds(x2, y2) && (x2 != x || y2 != y) ==> #[trigger] pixel(
                with_pixel(buf, x, y, value),
                x2,
                y2,
            ) == pixel(buf, x2, y2),
{
    let idx = byte_index(x, y);
    assert(0 <= idx < BUFFER_SIZE as int) by (nonlinear_arith)
        requires
            idx == (y / 8) * 128 + x,
            0 <= x < 128,
            0 <= y < 64,
    ;
    let nb = with_pixel(buf, x, y, value);
    lemma_with_bit(buf[idx], bit_index(y), 0, value);
    assert forall|j: u8| j < 8 && j != bit_index(y) implies #[trigger] bit_of(nb[idx], j) == bit_of(
        buf[idx],
        j,
    ) by {
        lemma_with_bit(buf[idx], bit_index(y), j, value);
    }
    assert forall|x2: int, y2: int| in_bounds(x2, y2) && (x2 != x || y2 != y) implies #[trigger] pixel(
        nb,
        x2,
        y2,
    ) == pixel(buf, x2, y2) by {
        let idx2 = byte_index(x2, y2);
        assert(0 <= idx2 < BUFFER_SIZE as int) by (nonlinear_arith)
            requires
                idx2 == (y2 / 8) * 128 + x2,
                0 <= x2 < 128,
                0 <= y2 < 64,
        ;
        if idx2 == idx {
            if bit_index(y2) == bit_index(y) {
                lemma_pixel_address_unique(x, y, x2, y2);
            }
            lemma_with_bit(buf[idx], bit_index(y), bit_index(y2), value);
        }
    }
}

/// Writing the same value to the same pixel twice leaves the framebuffer as
/// one write does.
pub proof fn lemma_set_pixel_idempotent(buf: Seq<u8>, x: int, y: int, value: bool)
    requires
        buf.len() == BUFFER_SIZE as int,
        in_bounds(x, y),
    ensures
        with_pixel(with_pixel(buf, x, y, value), x, y, value) == with_pixel(buf, x, y, value),
{
    let idx = byte_index(x, y);
    assert(0 <= idx < BUFFER_SIZE as int) by (nonlinear_arith)
        requires
            idx == (y / 8) * 128 + x,
            0 <= x < 128,
            0 <= y < 64,
    ;
    lemma_with_bit(buf[idx], bit_index(y), 0, value);
    assert(with_pixel(with_pixel(buf, x, y, value), x, y, value) =~= with_pixel(buf, x, y, value));
}

/// Initialisation sends the segment-direction command and then the
/// COM-direction command, both before display-on: `0xA0` then `0xC8` for a
/// panel mounted normally, `0xA1` then `0xC0` for one mounted in reverse.
pub proof fn lemma_init_orientation(d: ScreenDirection, bias: Bias)
    ensures
        init_signals(d, bias).len() == 12,
        init_signals(d, bias)[3] == Signal::Command(seq![segment_command(d)]),
        init_signals(d, bias)[4] == Signal::Command(seq![com_command(d)]),
        init_signals(d, bias)[9] == Signal::Command(seq![ST7567_DISPON]),
        d == ScreenDirection::Normal ==> segment_command(d) == 0xA0u8 && com_command(d) == 0xC8u8,
        d == ScreenDirection::Reverse ==> segment_command(d) == 0xA1u8 && com_command(d) == 0xC0u8,
{
}

/// A full-screen update enters read-modify-write mode, sends exactly eight
/// page blocks and leaves the mode. Block `p` is a page-select command whose
/// low three bits are `p`, then one data transfer of the `SCREEN_WIDTH` bytes
/// `[p * SCREEN_WIDTH, p * SCREEN_WIDTH + SCREEN_WIDTH)` of the framebuffer.
pub proof fn lemma_show_pages(buf: Seq<u8>, d: ScreenDirection)
    requires
        buf.len() == BUFFER_SIZE as int,
    ensures
        show_signals(buf, d).len() == 2 * PAGE_COUNT as int + 2,
        show_signals(buf, d)[0] == Signal::Command(seq![ST7567_ENTER_RMWMODE]),
        show_signals(buf, d)[2 * PAGE_COUNT as int + 1] == Signal::Command(
            seq![ST7567_EXIT_RMWMODE],
        ),
        forall|p: int|
            0 <= p < PAGE_COUNT as int ==> {
                &&& #[trigger] show_signals(buf, d)[2 * p + 1] == Signal::Command(page_commands(d, p))
                &&& page_commands(d, p)[0] & ST7567_PAGESTART_MASK == p as u8
                &&& show_signals(buf, d)[2 * p + 2] == Signal::Data(page_bytes(buf, p))
                &&& page_bytes(buf, p).len() == SCREEN_WIDTH as int
                &&& forall|j: int|
                    0 <= j < SCREEN_WIDTH as int ==> #[trigger] page_bytes(buf, p)[j] == buf[p
                        * SCREEN_WIDTH as int + j]
            },
{
    assert forall|p: int| 0 <= p < PAGE_COUNT as int implies {
        &&& #[trigger] show_signals(buf, d)[2 * p + 1] == Signal::Command(page_commands(d, p))
        &&& page_commands(d, p)[0] & ST7567_PAGESTART_MASK == p as u8
        &&& show_signals(buf, d)[2 * p + 2] == Signal::Data(page_bytes(buf, p))
        &&& page_bytes(buf, p).len() == SCREEN_WIDTH as int
        &&& forall|j: int|
            0 <= j < SCREEN_WIDTH as int ==> #[trigger] page_bytes(buf, p)[j] == buf[p
                * SCREEN_WIDTH as int + j]
    } by {
        let q: u8 = p as u8;
        assert(q < 8 ==> (0xB0u8 | q) & 0x07u8 == q) by (bit_vector);
        assert((2 * p + 1 - 1) % 2 == 0 && (2 * p + 1 - 1) / 2 == p);
        assert((2 * p + 2 - 1) % 2 == 1 && (2 * p + 2 - 1) / 2 == p);
    }
}

} // verus!
