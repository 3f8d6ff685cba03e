//! How a host block is cut into render blocks.
//!
//! A host may ask for any number of frames on any number of channels. The
//! engine renders two channels, in blocks of at most `BLOCK_FRAMES` frames;
//! for any other channel count nothing is rendered and the output is silence.

use vstd::prelude::*;
use crate::engine::BLOCK_FRAMES;

verus! {

/// The number of output channels of the graph.
pub const OUTPUT_CHANNELS: usize = 2;

/// The number of render blocks for a host block: none unless the channel
/// count is two, else as many as it takes to cover `frames`.
pub open spec fn spec_chunk_count(channels: int, frames: int) -> int {
    if channels == OUTPUT_CHANNELS as int {
        (frames + BLOCK_FRAMES - 1) / (BLOCK_FRAMES as int)
    } else {
        0
    }
}

/// Where the render block `index` starts in a host block.
pub open spec fn spec_chunk_start(index: int) -> int {
    index * BLOCK_FRAMES
}

/// How many frames of a host block of `frames` frames the render block
/// `index` fills: a whole block, or what is left at the end.
pub open spec fn spec_chunk_len(frames: int, index: int) -> int {
    let left = frames - spec_chunk_start(index);
    if left >= BLOCK_FRAMES as int {
        BLOCK_FRAMES as int
    } else if left > 0 {
        left
    } else {
        0
    }
}

/// The number of render blocks that a host block takes.
pub fn chunk_count(channels: usize, frames: usize) -> (r: usize)
    ensures
        r == spec_chunk_count(channels as int, frames as int),
        channels != OUTPUT_CHANNELS ==> r == 0,
{
    if channels != OUTPUT_CHANNELS {
        0
    } else {
        let whole: usize = frames / 64;
        if frames % 64 == 0 {
            whole
        } else {
            whole + 1
        }
    }
}

/// The start and length of the render block `index` within a host block of
/// `frames` frames, or `None` where the host block has no such render block.
pub fn sub_chunk(frames: usize, index: usize) -> (r: Option<(usize, usize)>)
    ensures
        r is Some <==> index < spec_chunk_count(OUTPUT_CHANNELS as int, frames as int),
        r is Some ==> r.unwrap() == (
            spec_chunk_start(index as int) as usize,
            spec_chunk_len(frames as int, index as int) as usize,
        ),
        r is Some ==> r.unwrap().0 + r.unwrap().1 <= frames,
{
    if index > frames / 64 {
        None
    } else {
        let start: usize = index * 64;
        if start >= frames {
            None
        } else {
            let left: usize = frames - start;
            if left >= 64 {
                Some((start, 64))
            } else {
                Some((start, left))
            }
        }
    }
}

/// The render blocks of a host block lie end to end and cover it exactly:
/// every block but the last is whole, the last ends where the host block
/// ends, and none is empty.
pub proof fn lemma_chunks_partition(frames: int, index: int)
    requires
        0 <= frames,
        0 <= index < spec_chunk_count(OUTPUT_CHANNELS as int, frames),
    ensures
        1 <= spec_chunk_len(frames, index) <= BLOCK_FRAMES,
        spec_chunk_start(index) + spec_chunk_len(frames, index) <= frames,
        index + 1 < spec_chunk_count(OUTPUT_CHANNELS as int, frames) ==> spec_chunk_start(index)
            + spec_chunk_len(frames, index) == spec_chunk_start(index + 1),
        index + 1 == spec_chunk_count(OUTPUT_CHANNELS as int, frames) ==> spec_chunk_start(index)
            + spec_chunk_len(frames, index) == frames,
{
}

/// Past the last render block there is nothing left to fill.
pub proof fn lemma_no_chunk_past_the_end(frames: int, index: int)
    requires
        0 <= frames,
        index >= spec_chunk_count(OUTPUT_CHANNELS as int, frames),
    ensures
        spec_chunk_len(frames, index) == 0,
{
}

/// With a channel count other than two, no block is rendered.
pub proof fn lemma_wrong_channel_count_renders_nothing(channels: int, frames: int)
    requires
        channels != OUTPUT_CHANNELS as int,
    ensures
        spec_chunk_count(channels, frames) == 0,
{
}

} // verus!
