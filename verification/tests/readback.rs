use render_core::frame_stats::{decode_stats, stat_lines, stats_from_words, StatsError, STATS_BUFFER_SIZE};
use render_core::pipeline_statistics::{self, READBACK_SIZE};
use render_core::query::{
    readback_words, QueryResults, ReadbackError, QUERY_BUFFER_SIZE, READBACK_WORDS, TIMESTAMP_OFFSET,
    TIMESTAMP_WORD,
};

fn zero_results() -> QueryResults {
    QueryResults { vertex_shader_invocs: 0, clipper_invocs: 0, clipper_prims_out: 0, rpass_delta: 0 }
}

fn words_as_bytes(words: &[u64]) -> Vec<u8> {
    words.iter().flat_map(|w| w.to_ne_bytes()).collect()
}

#[test]
fn store_data_copies_counters_and_subtracts_timestamps() {
    let mut r = zero_results();
    r.store_data(&[10, 20, 30, 1_000, 1_250]);
    assert_eq!(r, QueryResults { vertex_shader_invocs: 10, clipper_invocs: 20, clipper_prims_out: 30, rpass_delta: 250 });
}

#[test]
fn store_data_wraps_when_clock_wraps() {
    let mut r = zero_results();
    r.store_data(&[0, 0, 0, u64::MAX, 4]);
    assert_eq!(r.rpass_delta, 5);
    assert_eq!(r.rpass_delta.wrapping_add(u64::MAX), 4);
}

#[test]
fn readback_words_picks_counters_and_timestamps() {
    let words: Vec<u64> = (0..34u64).map(|i| 100 + i).collect();
    assert_eq!(readback_words(&words), [100, 101, 102, 132, 133]);
}

#[test]
fn readback_layout_constants_agree() {
    assert_eq!(TIMESTAMP_WORD as u64 * 8, TIMESTAMP_OFFSET);
    assert_eq!(READBACK_WORDS as u64 * 8, QUERY_BUFFER_SIZE);
    assert_eq!(QUERY_BUFFER_SIZE, 272);
}

#[test]
fn store_readback_decodes_full_buffer() {
    let mut words = vec![0u64; 34];
    words[0] = 7;
    words[1] = 8;
    words[2] = 9;
    words[32] = 500;
    words[33] = 900;
    let aligned: Vec<u64> = words.clone();
    let bytes: &[u8] = bytemuck::cast_slice(&aligned);
    let mut r = zero_results();
    assert_eq!(r.store_readback(bytes), Ok(()));
    assert_eq!(r, QueryResults { vertex_shader_invocs: 7, clipper_invocs: 8, clipper_prims_out: 9, rpass_delta: 400 });
}

#[test]
fn store_readback_rejects_short_buffer() {
    let aligned = vec![1u64; 33];
    let bytes: &[u8] = bytemuck::cast_slice(&aligned);
    let mut r = zero_results();
    assert_eq!(r.store_readback(bytes), Err(ReadbackError::TooShort));
    assert_eq!(r, zero_results());
}

#[test]
fn store_readback_rejects_ragged_length() {
    let aligned = vec![1u64; 35];
    let bytes: &[u8] = bytemuck::cast_slice(&aligned);
    let mut r = zero_results();
    assert_eq!(r.store_readback(&bytes[..bytes.len() - 3]), Err(ReadbackError::PartialWord));
    assert_eq!(r, zero_results());
}

#[test]
fn pipeline_statistics_store_calls() {
    let mut r = pipeline_statistics::QueryResults { vertex_shader_invocs: 0, clipper_invocs: 0, clipper_prims_out: 0 };
    r.store_calls(&[3, 4, 5, 6]);
    assert_eq!(r, pipeline_statistics::QueryResults { vertex_shader_invocs: 3, clipper_invocs: 4, clipper_prims_out: 5 });
}

#[test]
fn pipeline_statistics_store_readback() {
    let mut r = pipeline_statistics::QueryResults { vertex_shader_invocs: 0, clipper_invocs: 0, clipper_prims_out: 0 };
    let bytes = words_as_bytes(&[11, 22, 33]);
    assert_eq!(bytes.len() as u64, READBACK_SIZE);
    assert_eq!(r.store_readback(&bytes), Ok(()));
    assert_eq!(r, pipeline_statistics::QueryResults { vertex_shader_invocs: 11, clipper_invocs: 22, clipper_prims_out: 33 });
}

#[test]
fn pipeline_statistics_readback_pads_last_word() {
    let mut r = pipeline_statistics::QueryResults { vertex_shader_invocs: 1, clipper_invocs: 1, clipper_prims_out: 1 };
    let bytes = vec![0u8; 17];
    assert_eq!(r.store_readback(&bytes), Ok(()));
    assert_eq!(r, pipeline_statistics::QueryResults { vertex_shader_invocs: 0, clipper_invocs: 0, clipper_prims_out: 0 });
}

#[test]
fn pipeline_statistics_readback_too_short() {
    let mut r = pipeline_statistics::QueryResults { vertex_shader_invocs: 1, clipper_invocs: 2, clipper_prims_out: 3 };
    assert_eq!(r.store_readback(&[0u8; 16]), Err(ReadbackError::TooShort));
    assert_eq!(r, pipeline_statistics::QueryResults { vertex_shader_invocs: 1, clipper_invocs: 2, clipper_prims_out: 3 });
}

#[test]
fn stats_from_words_needs_exactly_three() {
    assert_eq!(stats_from_words(&[1, 2, 3]), Ok([1, 2, 3]));
    assert_eq!(stats_from_words(&[1, 2]), Err(StatsError::WrongLength));
    assert_eq!(stats_from_words(&[1, 2, 3, 4]), Err(StatsError::WrongLength));
}

#[test]
fn decode_stats_errors() {
    let aligned = vec![9u64, 8, 7, 6];
    let bytes: &[u8] = bytemuck::cast_slice(&aligned);
    assert_eq!(decode_stats(&bytes[..STATS_BUFFER_SIZE as usize]), Ok([9, 8, 7]));
    assert_eq!(decode_stats(bytes), Err(StatsError::WrongLength));
    assert_eq!(decode_stats(&bytes[..23]), Err(StatsError::PartialWord));
}

#[test]
fn stat_lines_group_thousands() {
    let lines = stat_lines(&[1_234_567, 0, 1_000]);
    assert_eq!(lines, vec![
        "Vertex Shader Calls: 1,234,567".to_string(),
        "Triangles Sent:      0".to_string(),
        "Triangles Rendered:  1,000".to_string(),
    ]);
}

#[test]
fn stat_lines_edge_values() {
    let lines = stat_lines(&[999, 1_000_001, u64::MAX]);
    assert_eq!(lines[0], "Vertex Shader Calls: 999");
    assert_eq!(lines[1], "Triangles Sent:      1,000,001");
    assert_eq!(lines[2], "Triangles Rendered:  18,446,744,073,709,551,615");
}

#[test]
fn store_words_takes_counters_and_timestamp_difference() {
    let mut words = vec![0u64; 40];
    words[0] = 1;
    words[1] = 2;
    words[2] = 3;
    words[32] = 10;
    words[33] = 25;
    let mut r = zero_results();
    assert_eq!(r.store_words(&words), Ok(()));
    assert_eq!(r, QueryResults { vertex_shader_invocs: 1, clipper_invocs: 2, clipper_prims_out: 3, rpass_delta: 15 });
}

#[test]
fn store_words_rejects_too_few() {
    let mut r = zero_results();
    assert_eq!(r.store_words(&[1u64; 33]), Err(ReadbackError::TooShort));
    assert_eq!(r, zero_results());
}

#[test]
fn decode_stats_reads_native_words() {
    let bytes = words_as_bytes(&[0x0102_0304_0506_0708, 42, u64::MAX]);
    let aligned: Vec<u64> = bytes.chunks(8).map(|c| u64::from_ne_bytes(c.try_into().unwrap())).collect();
    let view: &[u8] = bytemuck::cast_slice(&aligned);
    assert_eq!(decode_stats(view), Ok([0x0102_0304_0506_0708, 42, u64::MAX]));
}

#[test]
fn decode_stats_accepts_any_address() {
    let mut buf = vec![0u8; 1];
    buf.extend(words_as_bytes(&[4, 5, 6]));
    assert_eq!(decode_stats(&buf[1..]), Ok([4, 5, 6]));
    let mut more = vec![0u8; 3];
    more.extend(words_as_bytes(&[0u64; 34]));
    let mut r = zero_results();
    r.rpass_delta = 9;
    assert_eq!(r.store_readback(&more[3..]), Ok(()));
    assert_eq!(r, zero_results());
}
