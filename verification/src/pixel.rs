//! The packed pixel model.
//!
//! The buffer is page-major: byte `page * width + column` holds the 8
//! vertically stacked pixels of that column within the page, least
//! significant bit on top. These spec functions say where a pixel lives and
//! what reading and writing one bit means; the lemmas state the properties
//! a caller of `set_pixel` and `clear` relies on.

use vstd::prelude::*;

use crate::consts::{BUFFER_SIZE, DISPLAY_HEIGHT, DISPLAY_WIDTH};

verus! {

/// Index of the byte holding pixel `(x, y)`.
pub open spec fn pixel_index(x: u8, y: u8) -> int {
    (y / 8) * (DISPLAY_WIDTH as int) + x
}

/// Bit position of pixel `(x, y)` within its byte.
pub open spec fn pixel_bit(y: u8) -> u8 {
    (y % 8) as u8
}

/// The byte `byte` with bit `bit` forced to `value` and the other seven
/// bits kept.
pub open spec fn set_bit(byte: u8, bit: u8, value: bool) -> u8 {
    if value {
        byte | (1u8 << bit)
    } else {
        byte & !(1u8 << bit)
    }
}

/// Whether pixel `(x, y)` is on in the packed buffer: the bit-extraction
/// formula over the packed byte.
pub open spec fn spec_pixel(buf: Seq<u8>, x: u8, y: u8) -> bool {
    buf[pixel_index(x, y)] & (1u8 << pixel_bit(y)) != 0
}

/// The all-zero packed buffer: every pixel off.
pub open spec fn spec_zero_buffer() -> Seq<u8> {
    Seq::new(BUFFER_SIZE as nat, |i: int| 0u8)
}

/// Build the all-zero packed buffer.
pub(crate) fn zero_buffer_vec() -> (r: Vec<u8>)
    ensures
        r@ == spec_zero_buffer(),
{
    let mut zeros: Vec<u8> = Vec::new();
    let mut i: usize = 0;
    while i < BUFFER_SIZE
        invariant
            i <= BUFFER_SIZE,
            zeros@ =~= spec_zero_buffer().subrange(0, i as int),
        decreases BUFFER_SIZE - i,
    {
        zeros.push(0);
        i = i + 1;
    }
    proof {
        assert(zeros@ =~= spec_zero_buffer());
    }
    zeros
}

/// The byte index of an in-bounds pixel lies inside the buffer.
pub proof fn lemma_pixel_index_in_range(x: u8, y: u8)
    requires
        x < DISPLAY_WIDTH,
        y < DISPLAY_HEIGHT,
    ensures
        0 <= pixel_index(x, y) < BUFFER_SIZE,
        pixel_bit(y) < 8,
{
    assert(0 <= y / 8 <= 7);
}

/// Two distinct in-bounds pixels never share both byte index and bit
/// position.
pub proof fn lemma_pixel_index_injective(x1: u8, y1: u8, x2: u8, y2: u8)
    requires
        x1 < DISPLAY_WIDTH,
        y1 < DISPLAY_HEIGHT,
        x2 < DISPLAY_WIDTH,
        y2 < DISPLAY_HEIGHT,
        pixel_index(x1, y1) == pixel_index(x2, y2),
        pixel_bit(y1) == pixel_bit(y2),
    ensures
        x1 == x2,
        y1 == y2,
{
    let q1 = y1 / 8;
    let q2 = y2 / 8;
    assert(q1 == q2 && x1 == x2) by (nonlinear_arith)
        requires
            q1 * 128 + x1 == q2 * 128 + x2,
            0 <= x1 < 128,
            0 <= x2 < 128,
    ;
    vstd::arithmetic::div_mod::lemma_fundamental_div_mod(y1 as int, 8);
    vstd::arithmetic::div_mod::lemma_fundamental_div_mod(y2 as int, 8);
}

/// Writing a pixel reads back as written: the bit-extraction formula over
/// the updated buffer yields exactly the value that was set.
pub proof fn lemma_set_pixel_readback(buf: Seq<u8>, x: u8, y: u8, value: bool)
    requires
        buf.len() == BUFFER_SIZE,
        x < DISPLAY_WIDTH,
        y < DISPLAY_HEIGHT,
    ensures
        spec_pixel(
            buf.update(pixel_index(x, y), set_bit(buf[pixel_index(x, y)], pixel_bit(y), value)),
            x,
            y,
        ) == value,
{
    lemma_pixel_index_in_range(x, y);
    let b = buf[pixel_index(x, y)];
    let bit = pixel_bit(y);
    if value {
        assert((b | (1u8 << bit)) & (1u8 << bit) != 0) by (bit_vector)
            requires
                bit < 8,
        ;
    } else {
        assert((b & !(1u8 << bit)) & (1u8 << bit) == 0) by (bit_vector)
            requires
                bit < 8,
        ;
    }
}

/// Writing one pixel leaves every other in-bounds pixel unchanged, whether
/// it shares the packed byte or not.
pub proof fn lemma_set_pixel_no_cross_talk(buf: Seq<u8>, x: u8, y: u8, value: bool, x2: u8, y2: u8)
    requires
        buf.len() == BUFFER_SIZE,
        x < DISPLAY_WIDTH,
        y < DISPLAY_HEIGHT,
        x2 < DISPLAY_WIDTH,
        y2 < DISPLAY_HEIGHT,
        !(x2 == x && y2 == y),
    ensures
        spec_pixel(
            buf.update(pixel_index(x, y), set_bit(buf[pixel_index(x, y)], pixel_bit(y), value)),
            x2,
            y2,
        ) == spec_pixel(buf, x2, y2),
{
    lemma_pixel_index_in_range(x, y);
    lemma_pixel_index_in_range(x2, y2);
    if pixel_index(x2, y2) != pixel_index(x, y) {
        // The write lands in a different byte.
    } else {
        // Same byte: the bit positions must differ, and the write keeps
        // every other bit.
        if pixel_bit(y2) == pixel_bit(y) {
            lemma_pixel_index_injective(x, y, x2, y2);
        }
        let b = buf[pixel_index(x, y)];
        let bit = pixel_bit(y);
        let bit2 = pixel_bit(y2);
        if value {
            assert(((b | (1u8 << bit)) & (1u8 << bit2)) == (b & (1u8 << bit2))) by (bit_vector)
                requires
                    bit < 8,
                    bit2 < 8,
                    bit != bit2,
            ;
        } else {
            assert(((b & !(1u8 << bit)) & (1u8 << bit2)) == (b & (1u8 << bit2))) by (bit_vector)
                requires
                    bit < 8,
                    bit2 < 8,
                    bit != bit2,
            ;
        }
    }
}

/// Every pixel of the all-zero buffer reads back as off.
pub proof fn lemma_zero_buffer_reads_false(x: u8, y: u8)
    requires
        x < DISPLAY_WIDTH,
        y < DISPLAY_HEIGHT,
    ensures
        !spec_pixel(spec_zero_buffer(), x, y),
{
    lemma_pixel_index_in_range(x, y);
    let bit = pixel_bit(y);
    assert(0u8 & (1u8 << bit) == 0) by (bit_vector);
}

} // verus!
