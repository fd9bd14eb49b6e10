//! A model of the controller's command interpreter.
//!
//! The chip keeps a page register, a column register and display memory.
//! A page-address command selects the page, the two column nibble commands
//! set one half of the column register each, and a data write streams bytes
//! into memory from the selected address on, advancing the column. These
//! spec functions replay a chunk trace against that model; the lemmas show
//! that replaying a region flush writes exactly the rectangle's bytes, so
//! the wire protocol round-trips the buffer.

use vstd::prelude::*;

use crate::consts::{BUFFER_SIZE, DISPLAY_WIDTH};
use crate::encode::{flush_trace, page_trace, region_trace, ChunkModel};
use vstd::arithmetic::div_mod::{
    lemma_fundamental_div_mod, lemma_fundamental_div_mod_converse, lemma_mod_bound,
    lemma_mod_multiples_vanish, lemma_small_mod,
};

verus! {

/// The controller's addressing registers and display memory.
pub struct ControllerModel {
    /// Selected page register.
    pub page: int,
    /// Column address register.
    pub col: int,
    /// Display memory, one byte per page/column cell.
    pub mem: Seq<u8>,
}

/// One command byte: page-address selects the page, the column nibble
/// commands replace one half of the column register, and every other
/// opcode leaves the addressing model alone.
pub open spec fn apply_command_byte(s: ControllerModel, b: u8) -> ControllerModel {
    if 0xb0 <= b < 0xb8 {
        ControllerModel { page: b - 0xb0, col: s.col, mem: s.mem }
    } else if b < 0x10 {
        ControllerModel { page: s.page, col: 16 * (s.col / 16) + b, mem: s.mem }
    } else if b < 0x20 {
        ControllerModel { page: s.page, col: s.col % 16 + 16 * (b - 0x10), mem: s.mem }
    } else {
        s
    }
}

/// A run of command bytes, applied in order.
pub open spec fn apply_command_bytes(s: ControllerModel, bytes: Seq<u8>) -> ControllerModel
    decreases bytes.len(),
{
    if bytes.len() == 0 {
        s
    } else {
        apply_command_bytes(apply_command_byte(s, bytes[0]), bytes.drop_first())
    }
}

/// A data write: bytes stream into the selected page's row starting at the
/// column register, which advances past what was written. Bytes that would
/// fall outside the selected row or the memory are dropped.
pub open spec fn apply_data(s: ControllerModel, bytes: Seq<u8>) -> ControllerModel {
    ControllerModel {
        page: s.page,
        col: s.col + bytes.len(),
        mem: Seq::new(
            s.mem.len(),
            |i: int|
                {
                    let base = s.page * (DISPLAY_WIDTH as int);
                    if base <= i < base + (DISPLAY_WIDTH as int) && s.col <= i - base < s.col
                        + bytes.len() {
                        bytes[i - base - s.col]
                    } else {
                        s.mem[i]
                    }
                },
        ),
    }
}

/// Replay one transport write against the model.
pub open spec fn apply_chunk(s: ControllerModel, c: ChunkModel) -> ControllerModel {
    match c {
        ChunkModel::Commands(bytes) => apply_command_bytes(s, bytes),
        ChunkModel::Data(bytes) => apply_data(s, bytes),
    }
}

/// Replay a whole trace, in order.
pub open spec fn apply_trace(s: ControllerModel, t: Seq<ChunkModel>) -> ControllerModel
    decreases t.len(),
{
    if t.len() == 0 {
        s
    } else {
        apply_trace(apply_chunk(s, t[0]), t.drop_first())
    }
}

/// Replaying a concatenation is replaying the parts in turn.
pub proof fn lemma_apply_trace_append(s: ControllerModel, a: Seq<ChunkModel>, b: Seq<ChunkModel>)
    ensures
        apply_trace(s, a + b) == apply_trace(apply_trace(s, a), b),
    decreases a.len(),
{
    if a.len() == 0 {
        assert(a + b =~= b);
    } else {
        assert((a + b)[0] == a[0]);
        assert((a + b).drop_first() =~= a.drop_first() + b);
        lemma_apply_trace_append(apply_chunk(s, a[0]), a.drop_first(), b);
    }
}

/// A chunk of one command byte steps the model by that byte.
proof fn lemma_apply_single_command(s: ControllerModel, b: u8)
    ensures
        apply_chunk(s, ChunkModel::Commands(seq![b])) == apply_command_byte(s, b),
{
    reveal_with_fuel(apply_command_bytes, 2);
    assert(seq![b].drop_first().len() == 0);
}

/// Replaying the four writes of one page flush sets the page and column
/// registers and copies exactly the columns `col0 ..= col1` of that page
/// row out of `buf` into the model's memory.
pub proof fn lemma_page_trace_effect(
    buf: Seq<u8>,
    s: ControllerModel,
    page: u8,
    col0: u8,
    col1: u8,
)
    requires
        buf.len() == BUFFER_SIZE,
        s.mem.len() == BUFFER_SIZE,
        s.col >= 0,
        page < 8,
        col0 <= col1 < DISPLAY_WIDTH,
    ensures
        ({
            let s2 = apply_trace(s, page_trace(buf, page, col0, col1));
            &&& s2.page == page
            &&& s2.col == col1 + 1
            &&& s2.mem.len() == BUFFER_SIZE
            &&& forall|i: int|
                0 <= i < BUFFER_SIZE ==> s2.mem[i] == (if i / 128 == page && col0 <= i % 128
                    <= col1 {
                    buf[i]
                } else {
                    s.mem[i]
                })
        }),
{
    let b0 = 0xb0u8 | page;
    let b1 = col0 & 0x0fu8;
    let b2 = 0x10u8 | ((col0 >> 4u8) & 0x0fu8);
    let data = buf.subrange(
        page * (DISPLAY_WIDTH as int) + col0,
        page * (DISPLAY_WIDTH as int) + col1 + 1,
    );
    let t = page_trace(buf, page, col0, col1);
    assert(t[0] == ChunkModel::Commands(seq![b0]));
    assert(t[1] == ChunkModel::Commands(seq![b1]));
    assert(t[2] == ChunkModel::Commands(seq![b2]));
    assert(t[3] == ChunkModel::Data(data));

    assert(0xb0 <= b0 < 0xb8 && b0 - 0xb0 == page) by (bit_vector)
        requires
            page < 8,
            b0 == 0xb0u8 | page,
    ;
    assert(b1 < 0x10 && b1 == col0 % 16) by (bit_vector)
        requires
            b1 == col0 & 0x0fu8,
    ;
    assert(0x10 <= b2 < 0x20 && b2 - 0x10 == col0 / 16) by (bit_vector)
        requires
            col0 < 128,
            b2 == 0x10u8 | ((col0 >> 4u8) & 0x0fu8),
    ;

    let s0 = apply_command_byte(s, b0);
    let s1 = apply_command_byte(s0, b1);
    let s2 = apply_command_byte(s1, b2);
    let s3 = apply_data(s2, data);

    // Walk apply_trace down the four chunks.
    reveal_with_fuel(apply_trace, 3);
    lemma_apply_single_command(s, b0);
    lemma_apply_single_command(s0, b1);
    lemma_apply_single_command(s1, b2);
    let ta = seq![t[1], t[2], t[3]];
    let tb = seq![t[2], t[3]];
    let tc = seq![t[3]];
    assert(t.drop_first() =~= ta);
    assert(ta.drop_first() =~= tb);
    assert(tb.drop_first() =~= tc);
    assert(tc.drop_first().len() == 0);
    assert(apply_trace(s, t) == apply_trace(s0, ta));
    assert(apply_trace(s0, ta) == apply_trace(s1, tb));
    assert(apply_trace(s1, tb) == apply_trace(s2, tc));
    assert(apply_trace(s2, tc) == s3);

    // The registers land on the requested page and column.
    assert(s0.page == page);
    assert(s1.col == 16 * (s.col / 16) + col0 % 16);
    lemma_mod_bound(col0 as int, 16);
    lemma_mod_multiples_vanish(s.col / 16, col0 as int % 16, 16);
    lemma_small_mod((col0 as int % 16) as nat, 16);
    assert(s1.col % 16 == col0 % 16);
    lemma_fundamental_div_mod(col0 as int, 16);
    assert(s2.col == col0);
    assert(s3.col == col0 + data.len() == col1 + 1);

    // The data write lands on exactly the rectangle row.
    let base = page * (DISPLAY_WIDTH as int);
    assert forall|i: int| 0 <= i < BUFFER_SIZE implies s3.mem[i] == (if i / 128 == page && col0
        <= i % 128 <= col1 {
        buf[i]
    } else {
        s.mem[i]
    }) by {
        if base <= i < base + (DISPLAY_WIDTH as int) && col0 <= i - base < col0 + data.len() {
            lemma_fundamental_div_mod_converse(i, 128, page as int, i - base);
            assert(s3.mem[i] == data[i - base - col0] == buf[i]);
        } else {
            assert(s3.mem[i] == s.mem[i]);
            if i / 128 == page && col0 <= i % 128 <= col1 {
                lemma_fundamental_div_mod(i, 128);
                lemma_mod_bound(i, 128);
                assert(false);
            }
        }
    }
}

/// Replaying a region flush copies exactly the rectangle's bytes out of
/// `buf` into the model's memory and leaves every other byte alone.
pub proof fn lemma_region_trace_effect(
    buf: Seq<u8>,
    s: ControllerModel,
    page0: u8,
    page1: u8,
    col0: u8,
    col1: u8,
)
    requires
        buf.len() == BUFFER_SIZE,
        s.mem.len() == BUFFER_SIZE,
        s.col >= 0,
        page0 <= page1 < 8,
        col0 <= col1 < DISPLAY_WIDTH,
    ensures
        ({
            let s2 = apply_trace(s, region_trace(buf, page0, page1, col0, col1));
            &&& s2.page == page1
            &&& s2.col == col1 + 1
            &&& s2.mem.len() == BUFFER_SIZE
            &&& forall|i: int|
                0 <= i < BUFFER_SIZE ==> s2.mem[i] == (if page0 <= i / 128 <= page1 && col0 <= i
                    % 128 <= col1 {
                    buf[i]
                } else {
                    s.mem[i]
                })
        }),
    decreases page1 - page0,
{
    if page0 == page1 {
        lemma_page_trace_effect(buf, s, page0, col0, col1);
    } else {
        let head = page_trace(buf, page0, col0, col1);
        let rest = region_trace(buf, (page0 + 1) as u8, page1, col0, col1);
        assert(region_trace(buf, page0, page1, col0, col1) == head + rest);
        lemma_apply_trace_append(s, head, rest);
        lemma_page_trace_effect(buf, s, page0, col0, col1);
        let s1 = apply_trace(s, head);
        lemma_region_trace_effect(buf, s1, (page0 + 1) as u8, page1, col0, col1);
    }
}

/// Round trip: replaying the full-display flush trace of a buffer against
/// any controller state reconstructs that buffer exactly in the model's
/// memory.
pub proof fn lemma_flush_trace_round_trip(buf: Seq<u8>, s: ControllerModel)
    requires
        buf.len() == BUFFER_SIZE,
        s.mem.len() == BUFFER_SIZE,
        s.col >= 0,
    ensures
        apply_trace(s, flush_trace(buf, (0u8, 0u8), (127u8, 63u8))).mem == buf,
{
    lemma_region_trace_effect(buf, s, 0, 7, 0, 127);
    let s2 = apply_trace(s, flush_trace(buf, (0u8, 0u8), (127u8, 63u8)));
    assert forall|i: int| 0 <= i < BUFFER_SIZE implies s2.mem[i] == buf[i] by {
        lemma_fundamental_div_mod(i, 128);
        lemma_mod_bound(i, 128);
        assert(0 <= i / 128 <= 7);
    }
    assert(s2.mem =~= buf);
}

} // verus!
