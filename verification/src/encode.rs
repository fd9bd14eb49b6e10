//! Region flush encoder.
//!
//! The controller has no 2-D blit: it only understands "select a page,
//! select a column, stream bytes along that page". This module lowers an
//! inclusive pixel rectangle of the packed buffer into the exact transport
//! write sequence: for every page row the rectangle intersects, top to
//! bottom, one page-address command, the two column-address nibble commands
//! for the left column, and one data write holding that page's byte slice
//! `[left_column ..= right_column]`.

use vstd::prelude::*;

use crate::command::{
    encode_command, DisplayOnCommand, SetBiasCommand, SetCOMDirectionCommand,
    SetColumnAddressLSNibbleCommand, SetColumnAddressMSNibbleCommand, SetElectronicVolumeCommand,
    SetPageAddressCommand, SetPowerControlCommand, SetRegulationResistorRatioCommand,
    SetSEGDirectionCommand, SetStartLineCommand,
};
use crate::consts::{BUFFER_SIZE, DISPLAY_HEIGHT, DISPLAY_WIDTH};
use crate::error::Error;
use crate::pixel::spec_zero_buffer;

verus! {

/// One transport write: either a run of command bytes or a run of data
/// bytes. The transport distinguishes the two channels, so the encoder
/// keeps them apart as well.
pub enum Chunk {
    Commands(Vec<u8>),
    Data(Vec<u8>),
}

/// Mathematical shadow of [`Chunk`]: the same two channels over `Seq`.
pub enum ChunkModel {
    Commands(Seq<u8>),
    Data(Seq<u8>),
}

impl View for Chunk {
    type V = ChunkModel;

    open spec fn view(&self) -> ChunkModel {
        match self {
            Chunk::Commands(bytes) => ChunkModel::Commands(bytes@),
            Chunk::Data(bytes) => ChunkModel::Data(bytes@),
        }
    }
}

/// The views of a sequence of chunks.
pub open spec fn chunks_view(chunks: Seq<Chunk>) -> Seq<ChunkModel> {
    chunks.map_values(|c: Chunk| c@)
}

/// Whether an inclusive rectangle lies within the display and is properly
/// ordered, corner to corner.
pub open spec fn spec_valid_rect(top_left: (u8, u8), bottom_right: (u8, u8)) -> bool {
    &&& top_left.0 < DISPLAY_WIDTH
    &&& top_left.1 < DISPLAY_HEIGHT
    &&& bottom_right.0 < DISPLAY_WIDTH
    &&& bottom_right.1 < DISPLAY_HEIGHT
    &&& top_left.0 <= bottom_right.0
    &&& top_left.1 <= bottom_right.1
}

/// The four writes that flush columns `col0 ..= col1` of one page: the
/// page-address command, the column low and high nibble commands, and the
/// page's data slice.
pub open spec fn page_trace(buf: Seq<u8>, page: u8, col0: u8, col1: u8) -> Seq<ChunkModel> {
    seq![
        ChunkModel::Commands(seq![0xb0u8 | page]),
        ChunkModel::Commands(seq![col0 & 0x0fu8]),
        ChunkModel::Commands(seq![0x10u8 | ((col0 >> 4u8) & 0x0fu8)]),
        ChunkModel::Data(buf.subrange(
            page * DISPLAY_WIDTH as int + col0,
            page * DISPLAY_WIDTH as int + col1 + 1,
        )),
    ]
}

/// The writes that flush columns `col0 ..= col1` of every page in
/// `page0 ..= page1`, top to bottom.
pub open spec fn region_trace(
    buf: Seq<u8>,
    page0: u8,
    page1: u8,
    col0: u8,
    col1: u8,
) -> Seq<ChunkModel>
    decreases page1 - page0,
{
    if page0 > page1 {
        Seq::empty()
    } else if page0 == page1 {
        page_trace(buf, page0, col0, col1)
    } else {
        page_trace(buf, page0, col0, col1) + region_trace(
            buf,
            (page0 + 1) as u8,
            page1,
            col0,
            col1,
        )
    }
}

/// The full write sequence for flushing the rectangle
/// `top_left ..= bottom_right` out of `buf`.
pub open spec fn flush_trace(
    buf: Seq<u8>,
    top_left: (u8, u8),
    bottom_right: (u8, u8),
) -> Seq<ChunkModel> {
    region_trace(buf, top_left.1 / 8, bottom_right.1 / 8, top_left.0, bottom_right.0)
}

/// Encode the flush of one rectangle into its chunk sequence.
///
/// Validation comes first, so a malformed request yields `OutOfBounds` and
/// no trace at all: the buffer must have the exact packed size and the
/// rectangle must lie within the display, corners ordered.
pub fn encode_region(
    buffer: &[u8],
    top_left: (u8, u8),
    bottom_right: (u8, u8),
) -> (r: Result<Vec<Chunk>, Error>)
    ensures
        r is Ok <==> buffer@.len() == BUFFER_SIZE && spec_valid_rect(top_left, bottom_right),
        r matches Ok(chunks) ==> chunks_view(chunks@) == flush_trace(
            buffer@,
            top_left,
            bottom_right,
        ),
        r is Err ==> r == Err::<Vec<Chunk>, Error>(Error::OutOfBounds),
{
    if buffer.len() != BUFFER_SIZE {
        return Err(Error::OutOfBounds);
    }
    if top_left.0 >= DISPLAY_WIDTH || top_left.1 >= DISPLAY_HEIGHT {
        return Err(Error::OutOfBounds);
    }
    if bottom_right.0 >= DISPLAY_WIDTH || bottom_right.1 >= DISPLAY_HEIGHT {
        return Err(Error::OutOfBounds);
    }
    if top_left.0 > bottom_right.0 || top_left.1 > bottom_right.1 {
        return Err(Error::OutOfBounds);
    }

    let first_page = top_left.1 / 8;
    let last_page = bottom_right.1 / 8;
    let first_column = top_left.0;
    let last_column = bottom_right.0;

    let mut chunks: Vec<Chunk> = Vec::new();
    let mut page = first_page;
    while page <= last_page
        invariant
            first_page <= page <= last_page + 1,
            last_page <= 7,
            first_column <= last_column < DISPLAY_WIDTH,
            buffer@.len() == BUFFER_SIZE,
            chunks_view(chunks@) + region_trace(buffer@, page, last_page, first_column, last_column)
                == region_trace(buffer@, first_page, last_page, first_column, last_column),
        decreases last_page + 1 - page,
    {
        let ghost pre = chunks@;
        append_page_chunks(&mut chunks, buffer, page, first_column, last_column);
        proof {
            assert(chunks_view(chunks@) + region_trace(
                buffer@,
                (page + 1) as u8,
                last_page,
                first_column,
                last_column,
            ) =~= chunks_view(pre) + region_trace(
                buffer@,
                page,
                last_page,
                first_column,
                last_column,
            ));
        }
        page = page + 1;
    }
    assert(region_trace(buffer@, page, last_page, first_column, last_column) =~= Seq::empty());
    assert(chunks_view(chunks@) =~= region_trace(
        buffer@,
        first_page,
        last_page,
        first_column,
        last_column,
    ));
    Ok(chunks)
}

/// A rectangle spanning a single page row flushes with the fewest writes
/// the protocol admits: exactly three addressing commands of one byte each
/// and one data write, never more.
pub proof fn lemma_single_page_flush_minimal(
    buf: Seq<u8>,
    top_left: (u8, u8),
    bottom_right: (u8, u8),
)
    requires
        buf.len() == BUFFER_SIZE,
        spec_valid_rect(top_left, bottom_right),
        top_left.1 / 8 == bottom_right.1 / 8,
    ensures
        ({
            let t = flush_trace(buf, top_left, bottom_right);
            &&& t == page_trace(buf, (top_left.1 / 8) as u8, top_left.0, bottom_right.0)
            &&& t.len() == 4
            &&& t[0] matches ChunkModel::Commands(c0) && c0.len() == 1
            &&& t[1] matches ChunkModel::Commands(c1) && c1.len() == 1
            &&& t[2] matches ChunkModel::Commands(c2) && c2.len() == 1
            &&& t[3] matches ChunkModel::Data(d) && d.len() == bottom_right.0 - top_left.0 + 1
        }),
{
    let page = (top_left.1 / 8) as u8;
    assert(flush_trace(buf, top_left, bottom_right) == region_trace(
        buf,
        page,
        page,
        top_left.0,
        bottom_right.0,
    ));
    assert(region_trace(buf, page, page, top_left.0, bottom_right.0) == page_trace(
        buf,
        page,
        top_left.0,
        bottom_right.0,
    ));
}

/// The fixed power-up sequence: bias, SEG direction, COM direction,
/// resistor ratio, electronic volume 40, the three power stages, start
/// line 0, a full-display zero draw, then display on - and nothing else.
pub open spec fn init_trace() -> Seq<ChunkModel> {
    seq![
        ChunkModel::Commands(seq![0xa2u8]),
        ChunkModel::Commands(seq![0xa0u8]),
        ChunkModel::Commands(seq![0xc8u8]),
        ChunkModel::Commands(seq![0x24u8]),
        ChunkModel::Commands(seq![0x81u8, 40u8]),
        ChunkModel::Commands(seq![0x2cu8]),
        ChunkModel::Commands(seq![0x2eu8]),
        ChunkModel::Commands(seq![0x2fu8]),
        ChunkModel::Commands(seq![0x40u8]),
    ] + flush_trace(spec_zero_buffer(), (0u8, 0u8), (127u8, 63u8)) + seq![
        ChunkModel::Commands(seq![0xafu8]),
    ]
}

/// Encode the whole power-up sequence as chunks, byte for byte the trace
/// that `init_trace` states.
pub fn init_chunks() -> (r: Vec<Chunk>)
    ensures
        chunks_view(r@) == init_trace(),
{
    let mut chunks: Vec<Chunk> = Vec::new();
    chunks.push(Chunk::Commands(encode_command(SetBiasCommand::Bias1_9.command(), None)));
    chunks.push(Chunk::Commands(encode_command(SetSEGDirectionCommand::Normal.command(), None)));
    chunks.push(Chunk::Commands(encode_command(SetCOMDirectionCommand::Reverse.command(), None)));
    chunks.push(
        Chunk::Commands(
            encode_command(SetRegulationResistorRatioCommand::Ratio5_0.command(), None),
        ),
    );
    let volume = SetElectronicVolumeCommand::new(40).unwrap();
    chunks.push(Chunk::Commands(encode_command(volume.command(), volume.data())));
    chunks.push(Chunk::Commands(encode_command(SetPowerControlCommand::BoosterOn.command(), None)));
    chunks.push(
        Chunk::Commands(encode_command(SetPowerControlCommand::VoltageRegulatorOn.command(), None)),
    );
    chunks.push(
        Chunk::Commands(encode_command(SetPowerControlCommand::VoltageFollowerOn.command(), None)),
    );
    let start_line = SetStartLineCommand::new(0).unwrap();
    proof {
        assert(0x40u8 | 0u8 == 0x40u8) by (bit_vector);
    }
    chunks.push(Chunk::Commands(encode_command(start_line.command(), None)));

    let zeros = crate::pixel::zero_buffer_vec();
    let region = encode_region(zeros.as_slice(), (0, 0), (127, 63));
    let mut region_chunks = region.unwrap();
    chunks.append(&mut region_chunks);

    chunks.push(Chunk::Commands(encode_command(DisplayOnCommand::On.command(), None)));
    proof {
        assert(chunks_view(chunks@) =~= init_trace());
    }
    chunks
}

/// Whether every command write in a trace is short: at most an opcode and
/// one data byte. Every trace this crate emits satisfies it; transports
/// buffer command writes, so the senders insist on it.
pub open spec fn commands_fit(t: Seq<ChunkModel>) -> bool {
    forall|j: int|
        0 <= j < t.len() ==> match #[trigger] t[j] {
            ChunkModel::Commands(b) => b.len() <= 2,
            ChunkModel::Data(_) => true,
        }
}

/// Every command write of a region flush is a single opcode byte.
pub proof fn lemma_region_trace_commands_fit(
    buf: Seq<u8>,
    page0: u8,
    page1: u8,
    col0: u8,
    col1: u8,
)
    ensures
        commands_fit(region_trace(buf, page0, page1, col0, col1)),
    decreases page1 - page0,
{
    let t = region_trace(buf, page0, page1, col0, col1);
    if page0 > page1 {
    } else {
        let head = page_trace(buf, page0, col0, col1);
        if page0 == page1 {
            assert(t == head);
        } else {
            let rest = region_trace(buf, (page0 + 1) as u8, page1, col0, col1);
            lemma_region_trace_commands_fit(buf, (page0 + 1) as u8, page1, col0, col1);
            assert(t == head + rest);
            assert forall|j: int| 0 <= j < t.len() implies match #[trigger] t[j] {
                ChunkModel::Commands(b) => b.len() <= 2,
                ChunkModel::Data(_) => true,
            } by {
                if j >= 4 {
                    assert(t[j] == rest[j - 4]);
                }
            }
        }
    }
}

/// Every command write of a rectangle flush is a single opcode byte.
pub proof fn lemma_flush_trace_commands_fit(buf: Seq<u8>, top_left: (u8, u8), bottom_right: (u8, u8))
    ensures
        commands_fit(flush_trace(buf, top_left, bottom_right)),
{
    lemma_region_trace_commands_fit(buf, top_left.1 / 8, bottom_right.1 / 8, top_left.0, bottom_right.0);
}

/// Every command write of the power-up sequence is at most two bytes.
pub proof fn lemma_init_trace_commands_fit()
    ensures
        commands_fit(init_trace()),
{
    let pre = seq![
        ChunkModel::Commands(seq![0xa2u8]),
        ChunkModel::Commands(seq![0xa0u8]),
        ChunkModel::Commands(seq![0xc8u8]),
        ChunkModel::Commands(seq![0x24u8]),
        ChunkModel::Commands(seq![0x81u8, 40u8]),
        ChunkModel::Commands(seq![0x2cu8]),
        ChunkModel::Commands(seq![0x2eu8]),
        ChunkModel::Commands(seq![0x2fu8]),
        ChunkModel::Commands(seq![0x40u8]),
    ];
    let mid = flush_trace(spec_zero_buffer(), (0u8, 0u8), (127u8, 63u8));
    let post = seq![ChunkModel::Commands(seq![0xafu8])];
    lemma_flush_trace_commands_fit(spec_zero_buffer(), (0u8, 0u8), (127u8, 63u8));
    assert(init_trace() == pre + mid + post);
    assert forall|j: int| 0 <= j < init_trace().len() implies match #[trigger] init_trace()[j] {
        ChunkModel::Commands(b) => b.len() <= 2,
        ChunkModel::Data(_) => true,
    } by {
        if j < 9 {
            assert(init_trace()[j] == pre[j]);
        } else if j < 9 + mid.len() {
            assert(init_trace()[j] == mid[j - 9]);
        } else {
            assert(init_trace()[j] == post[j - 9 - mid.len()]);
        }
    }
}

/// Append the four writes of one page row to the chunk list.
fn append_page_chunks(chunks: &mut Vec<Chunk>, buffer: &[u8], page: u8, col0: u8, col1: u8)
    requires
        page <= 7,
        col0 <= col1 < DISPLAY_WIDTH,
        buffer@.len() == BUFFER_SIZE,
    ensures
        chunks_view(final(chunks)@) == chunks_view(old(chunks)@) + page_trace(
            buffer@,
            page,
            col0,
            col1,
        ),
{
    let page_cmd = SetPageAddressCommand::new(page).unwrap();
    let low_cmd = SetColumnAddressLSNibbleCommand::new(col0).unwrap();
    let high_cmd = SetColumnAddressMSNibbleCommand::new(col0).unwrap();

    let ghost chunks0 = chunks@;
    chunks.push(Chunk::Commands(encode_command(page_cmd.command(), None)));
    chunks.push(Chunk::Commands(encode_command(low_cmd.command(), None)));
    chunks.push(Chunk::Commands(encode_command(high_cmd.command(), None)));

    let mut data: Vec<u8> = Vec::new();
    let base: usize = page as usize * DISPLAY_WIDTH as usize;
    let mut col = col0;
    while col <= col1
        invariant
            page <= 7,
            col0 <= col <= col1 + 1,
            col1 < DISPLAY_WIDTH,
            base == page * DISPLAY_WIDTH as int,
            buffer@.len() == BUFFER_SIZE,
            data@ == buffer@.subrange(base + col0, base + col),
        decreases col1 + 1 - col,
    {
        let ghost data0 = data@;
        data.push(buffer[base + col as usize]);
        proof {
            assert(data@ =~= buffer@.subrange(base as int, base + col + 1).subrange(
                col0 as int,
                col + 1,
            )) by {
                assert(data@ =~= data0 + seq![buffer@[base + col]]);
            }
            assert(data@ =~= buffer@.subrange(base + col0, base + col + 1));
        }
        col = col + 1;
    }
    chunks.push(Chunk::Data(data));
    proof {
        assert(data@ =~= buffer@.subrange(base + col0, base + col1 + 1));
        assert(chunks_view(chunks@) =~= chunks_view(chunks0) + page_trace(
            buffer@,
            page,
            col0,
            col1,
        ));
    }
}

} // verus!
