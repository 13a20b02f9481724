//! The picture that goes to the display: one bit per pixel, eight rows to a
//! byte, behind one control byte.

use vstd::prelude::*;

verus! {

/// We use only this address. Additional 0x3D unsupported
pub const I2C_ADDRESS: u8 = 0x3C;

pub const SCREEN_WIDTH: usize = 128;

pub const SCREEN_HEIGHT: usize = 64;

/// The rows of the screen come in pages of eight.
pub const PAGE_COUNT: usize = 8;

/// Buffer size - 128x64 resolutions /8 - each pixel is one bit, not byte.
pub const BUFFER_SIZE: usize = 1024;

/// The byte that announces picture data.
pub const DATA_CONTROL: u8 = 0x40;

#[derive(Debug, Clone, Copy, PartialEq, Eq, Structural)]
pub enum OperationError {
    I2CError,
    Busy,
}

/// Is the point on the screen?
pub open spec fn on_screen(x: int, y: int) -> bool {
    0 <= x < SCREEN_WIDTH && 0 <= y < SCREEN_HEIGHT
}

/// Is the point on the screen?
pub fn on_screen_point(x: i32, y: i32) -> (on: bool)
    ensures
        on == on_screen(x as int, y as int),
{
    0 <= x && x < 128 && 0 <= y && y < 64
}

/// The place in the buffer of the byte that holds the point.
pub open spec fn byte_index(x: int, y: int) -> int {
    (y / 8) * SCREEN_WIDTH + x + 1
}

/// The byte with only the bit of this row set.
pub open spec fn row_mask(y: int) -> u8 {
    1u8 << ((y % 8) as u8)
}

/// The commands that bring the display up, in the order sent.
pub open spec fn init_sequence() -> Seq<u8> {
    seq![
        0xAEu8, 0x20, 0x00, 0xC8, 0x00, 0x10, 0x40, 0xB0, 0x81, 0xCF, 0xA1, 0xA6, 0xA8, 0x3F,
        0xA4, 0xD3, 0x00, 0xD5, 0x80, 0xD9, 0x22, 0xDA, 0x12, 0xDB, 0x20, 0x8D, 0x14, 0xAF,
    ]
}

/// The commands that set the write position back to the first column of the
/// first page.
pub open spec fn reset_sequence() -> Seq<u8> {
    seq![0x21u8, 0, 127, 0x22, 0, 7]
}

proof fn lemma_set_bit(byte: u8, bit: u8, other: u8)
    requires
        bit < 8,
        other < 8,
        other != bit,
    ensures
        (byte | (1u8 << bit)) & (1u8 << bit) != 0,
        (byte & !(1u8 << bit)) & (1u8 << bit) == 0,
        (byte | (1u8 << bit)) & (1u8 << other) == byte & (1u8 << other),
        (byte & !(1u8 << bit)) & (1u8 << other) == byte & (1u8 << other),
{
    assert((byte | (1u8 << bit)) & (1u8 << bit) != 0) by (bit_vector)
        requires
            bit < 8,
    ;
    assert((byte & !(1u8 << bit)) & (1u8 << bit) == 0) by (bit_vector)
        requires
            bit < 8,
    ;
    assert((byte | (1u8 << bit)) & (1u8 << other) == byte & (1u8 << other)) by (bit_vector)
        requires
            bit < 8,
            other < 8,
            other != bit,
    ;
    assert((byte & !(1u8 << bit)) & (1u8 << other) == byte & (1u8 << other)) by (bit_vector)
        requires
            bit < 8,
            other < 8,
            other != bit,
    ;
}

/// The picture being drawn and the copy that is on its way to the display.
pub struct SSD1306 {
    buffer: [u8; 1025],
    send_buffer: [u8; 1025],
}

impl SSD1306 {
    /// The bytes of the picture being drawn, control byte first.
    pub closed spec fn picture(&self) -> Seq<u8> {
        self.buffer@
    }

    /// The bytes last handed out for sending.
    pub closed spec fn sent(&self) -> Seq<u8> {
        self.send_buffer@
    }

    /// Is the pixel lit in the picture being drawn?
    pub open spec fn pixel(&self, x: int, y: int) -> bool {
        self.picture()[byte_index(x, y)] & row_mask(y) != 0
    }

    /// Creates SSD1306 driver
    pub fn new() -> (display: SSD1306)
        ensures
            display.picture() == Seq::new(1025, |i: int| DATA_CONTROL),
            display.sent() == Seq::new(1025, |i: int| DATA_CONTROL),
    {
        let display = SSD1306 { buffer: [0x40u8;1025], send_buffer: [0x40u8;1025] };
        proof {
            assert(display.buffer@ =~= Seq::new(1025, |i: int| DATA_CONTROL));
            assert(display.send_buffer@ =~= Seq::new(1025, |i: int| DATA_CONTROL));
        }
        display
    }

    /// Lights or darkens one pixel, and no other.
    pub fn dot(&mut self, x: i32, y: i32, filled: bool)
        requires
            on_screen(x as int, y as int),
        ensures
            final(self).pixel(x as int, y as int) == filled,
            forall|x2: int, y2: int|
                on_screen(x2, y2) && (x2 != x || y2 != y) ==> #[trigger] final(self).pixel(x2, y2)
                    == old(self).pixel(x2, y2),
            final(self).picture()[0] == old(self).picture()[0],
            final(self).sent() == old(self).sent(),
    {
        let page = y / 8;
        let index = (page * 128 + x + 1) as usize;
        let bit: u8 = (y % 8) as u8;
        let before: u8 = self.buffer[index];
        if filled {
            self.buffer[index] = before | (1u8 << bit);
        } else {
            self.buffer[index] = before & !(1u8 << bit);
        }
        proof {
            assert forall|x2: int, y2: int| on_screen(x2, y2) && (x2 != x || y2 != y) implies #[trigger] self.pixel(
                x2,
                y2,
            ) == old(self).pixel(x2, y2) by {
                if byte_index(x2, y2) == index {
                    assert(x2 == x && y2 / 8 == y / 8);
                    lemma_set_bit(before, bit, (y2 % 8) as u8);
                }
            }
            lemma_set_bit(before, bit, ((bit + 1) % 8) as u8);
        }
    }

    /// Lights or darkens every pixel.
    pub fn clear(&mut self, on: bool)
        ensures
            final(self).picture()[0] == old(self).picture()[0],
            forall|i: int|
                1 <= i < 1025 ==> final(self).picture()[i] == if on { 255u8 } else { 0u8 },
            final(self).sent() == old(self).sent(),
    {
        let fill_byte: u8 = if on { 255 } else { 0 };
        let mut i: usize = 1;
        while i < 1025
            invariant
                1 <= i <= 1025,
                self.buffer[0] == old(self).buffer[0],
                forall|j: int| 1 <= j < i ==> self.buffer[j] == fill_byte,
                self.send_buffer == old(self).send_buffer,
            decreases 1025 - i,
        {
            self.buffer[i] = fill_byte;
            i += 1;
        }
    }

    /// Copies the picture being drawn and hands the copy out for sending.
    pub fn send_image(&mut self) -> (frame: &[u8])
        ensures
            frame@ == old(self).picture(),
            final(self).picture() == old(self).picture(),
            final(self).sent() == old(self).picture(),
    {
        self.send_buffer = self.buffer;
        vstd::array::array_as_slice(&self.send_buffer)
    }

    /// What is sent for one command: the control byte for commands, then the
    /// command.
    pub fn command_frame(cmd: u8) -> (frame: [u8; 2])
        ensures
            frame[0] == 0,
            frame[1] == cmd,
    {
        [0x0, cmd]
    }

    /// The commands that bring the display up.
    pub fn init_commands() -> (commands: Vec<u8>)
        ensures
            commands@ == init_sequence(),
    {
        let commands = vec![
            0xAEu8, 0x20, 0x00, 0xC8, 0x00, 0x10, 0x40, 0xB0, 0x81, 0xCF, 0xA1, 0xA6, 0xA8, 0x3F,
            0xA4, 0xD3, 0x00, 0xD5, 0x80, 0xD9, 0x22, 0xDA, 0x12, 0xDB, 0x20, 0x8D, 0x14, 0xAF,
        ];
        proof {
            assert(commands@ =~= init_sequence());
        }
        commands
    }

    /// The commands that set the write position back to the start.
    pub fn reset_position_commands() -> (commands: Vec<u8>)
        ensures
            commands@ == reset_sequence(),
    {
        let commands = vec![0x21u8, 0, 127, 0x22, 0, 7];
        proof {
            assert(commands@ =~= reset_sequence());
        }
        commands
    }
}

} // verus!
