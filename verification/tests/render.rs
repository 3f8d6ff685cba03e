use synthy::render::{chunk_count, sub_chunk, OUTPUT_CHANNELS};

#[test]
fn wrong_channel_count_renders_nothing() {
    for channels in [0usize, 1, 3, 4, 8, usize::MAX] {
        for frames in [0usize, 1, 64, 512, usize::MAX] {
            assert_eq!(chunk_count(channels, frames), 0);
        }
    }
}

#[test]
fn chunk_count_covers_the_frames() {
    assert_eq!(OUTPUT_CHANNELS, 2);
    assert_eq!(chunk_count(2, 0), 0);
    assert_eq!(chunk_count(2, 1), 1);
    assert_eq!(chunk_count(2, 63), 1);
    assert_eq!(chunk_count(2, 64), 1);
    assert_eq!(chunk_count(2, 65), 2);
    assert_eq!(chunk_count(2, 128), 2);
    assert_eq!(chunk_count(2, 130), 3);
    assert_eq!(chunk_count(2, 512), 8);
    assert_eq!(chunk_count(2, usize::MAX), usize::MAX / 64 + 1);
}

#[test]
fn sub_chunks_lie_end_to_end() {
    assert_eq!(sub_chunk(130, 0), Some((0, 64)));
    assert_eq!(sub_chunk(130, 1), Some((64, 64)));
    assert_eq!(sub_chunk(130, 2), Some((128, 2)));
    assert_eq!(sub_chunk(130, 3), None);
    assert_eq!(sub_chunk(128, 1), Some((64, 64)));
    assert_eq!(sub_chunk(128, 2), None);
    assert_eq!(sub_chunk(0, 0), None);
    assert_eq!(sub_chunk(1, 0), Some((0, 1)));
    assert_eq!(sub_chunk(10, usize::MAX), None);
    assert_eq!(sub_chunk(usize::MAX, usize::MAX / 64), Some((usize::MAX - 63, 63)));
}

#[test]
fn sub_chunks_agree_with_slice_chunks() {
    for frames in [0usize, 1, 5, 63, 64, 65, 127, 128, 129, 1000] {
        let samples: Vec<usize> = (0..frames).collect();
        let count = chunk_count(2, frames);
        assert_eq!(count, samples.chunks(64).count());
        let mut end = 0;
        for (index, chunk) in samples.chunks(64).enumerate() {
            assert_eq!(sub_chunk(frames, index), Some((chunk[0], chunk.len())));
            end = chunk[0] + chunk.len();
        }
        assert_eq!(end, frames);
        assert_eq!(sub_chunk(frames, count), None);
    }
}
