use flate2::read::{
    DeflateDecoder, DeflateEncoder, GzDecoder, GzEncoder, ZlibDecoder, ZlibEncoder,
};
use flate2::Compression;
use isal_node::blocking::run_blocking;
use isal_node::error::BindingError;
use isal_node::invocation::{Action, Event, Invocation, Job};
use isal_node::level::CompressionLevel;
use isal_node::operation::{Codec, Direction, Mode, Operation};
use std::cell::Cell;
use std::io::Read;

/// A codec that speaks the standard gzip, deflate and zlib stream formats.
fn codec(job: Job, input: &[u8]) -> Result<Vec<u8>, String> {
    let mut output: Vec<u8> = Vec::new();
    let read = match job {
        Job::Compress { codec: Codec::Gzip, level } => {
            GzEncoder::new(input, effort(level)).read_to_end(&mut output)
        }
        Job::Compress { codec: Codec::Deflate, level } => {
            DeflateEncoder::new(input, effort(level)).read_to_end(&mut output)
        }
        Job::Compress { codec: Codec::Zlib, level } => {
            ZlibEncoder::new(input, effort(level)).read_to_end(&mut output)
        }
        Job::Decompress { codec: Codec::Gzip } => GzDecoder::new(input).read_to_end(&mut output),
        Job::Decompress { codec: Codec::Deflate } => {
            DeflateDecoder::new(input).read_to_end(&mut output)
        }
        Job::Decompress { codec: Codec::Zlib } => ZlibDecoder::new(input).read_to_end(&mut output),
    };
    match read {
        Ok(_) => Ok(output),
        Err(error) => Err(error.to_string()),
    }
}

fn effort(level: CompressionLevel) -> Compression {
    Compression::new(u32::from(level.as_u8()))
}

fn samples() -> Vec<Vec<u8>> {
    vec![
        Vec::new(),
        vec![0],
        vec![0x68, 0x65, 0x6C, 0x6C, 0x6F],
        (0..=255).collect(),
        vec![0xAB; 100_000],
        (0..70_000u32).map(|n| (n.wrapping_mul(2_654_435_761) >> 24) as u8).collect(),
    ]
}

#[test]
fn compress_gzip_hello_round_trips() {
    let hello: Vec<u8> = vec![0x68, 0x65, 0x6C, 0x6C, 0x6F];
    let packed = run_blocking(Codec::Gzip, Direction::Compress, Some(1), &hello, codec)
        .expect("compressing succeeds");
    assert!(!packed.is_empty());
    let unpacked = run_blocking(Codec::Gzip, Direction::Decompress, None, &packed, codec);
    assert_eq!(unpacked, Ok(hello));
}

#[test]
fn every_codec_round_trips_at_every_level() {
    for which in [Codec::Gzip, Codec::Deflate, Codec::Zlib] {
        for level in [0, 1, 3] {
            for data in samples() {
                let packed = run_blocking(which, Direction::Compress, Some(level), &data, codec)
                    .expect("compressing succeeds");
                let unpacked = run_blocking(which, Direction::Decompress, None, &packed, codec);
                assert_eq!(unpacked, Ok(data));
            }
        }
    }
}

#[test]
fn the_result_is_exactly_what_the_codec_produced() {
    for data in samples() {
        let expected = codec(
            Job::Compress { codec: Codec::Zlib, level: CompressionLevel::Three },
            &data,
        );
        let got = run_blocking(Codec::Zlib, Direction::Compress, Some(3), &data, codec);
        assert_eq!(got.ok(), expected.ok());
    }
}

#[test]
fn compress_deflate_at_level_two_is_refused_with_the_exact_message() {
    for data in samples() {
        let result = run_blocking(Codec::Deflate, Direction::Compress, Some(2), &data, codec);
        let error = result.expect_err("level 2 is refused");
        assert_eq!(error, BindingError::InvalidLevel);
        assert_eq!(error.message(), "Invalid compression level. Must be 0, 1, or 3");
    }
}

#[test]
fn a_refused_level_never_reaches_the_codec() {
    let calls: Cell<u32> = Cell::new(0);
    for which in [Codec::Gzip, Codec::Deflate, Codec::Zlib] {
        for level in [Some(2), Some(-1), Some(255), None] {
            let counting = |job: Job, input: &[u8]| {
                calls.set(calls.get() + 1);
                codec(job, input)
            };
            let result = run_blocking(which, Direction::Compress, level, &[1, 2, 3], counting);
            assert_eq!(result, Err(BindingError::InvalidLevel));
        }
    }
    assert_eq!(calls.get(), 0);
}

#[test]
fn an_accepted_call_reaches_the_codec_once_with_the_callers_bytes() {
    let calls: Cell<u32> = Cell::new(0);
    let data: Vec<u8> = vec![4, 5, 6];
    let recording = |job: Job, input: &[u8]| {
        calls.set(calls.get() + 1);
        assert_eq!(job, Job::Compress { codec: Codec::Gzip, level: CompressionLevel::Zero });
        assert!(std::ptr::eq(input.as_ptr(), data.as_ptr()));
        assert_eq!(input, &data[..]);
        codec(job, input)
    };
    let result = run_blocking(Codec::Gzip, Direction::Compress, Some(0), &data, recording);
    assert!(result.is_ok());
    assert_eq!(calls.get(), 1);
}

#[test]
fn decompress_zlib_of_garbage_fails_with_the_decompression_prefix() {
    let result = run_blocking(Codec::Zlib, Direction::Decompress, None, &[0x00, 0x01, 0x02], codec);
    let error = result.expect_err("three arbitrary bytes are no zlib stream");
    assert!(matches!(error, BindingError::Decompression(_)));
    assert!(error.message().starts_with("Decompression failed: "));
    assert!(error.message().len() > "Decompression failed: ".len());
}

#[test]
fn malformed_streams_fail_as_decompression_errors_for_every_codec() {
    let malformed: Vec<Vec<u8>> = vec![
        vec![0x00, 0x01, 0x02],
        vec![0xFF; 64],
        vec![0x1F, 0x8B, 0x08, 0x00, 0xFF, 0xFF],
        vec![0x78, 0x9C, 0xFF, 0xFF, 0xFF, 0xFF],
    ];
    for which in [Codec::Gzip, Codec::Zlib] {
        for bytes in &malformed {
            let expected = codec(Job::Decompress { codec: which }, bytes)
                .expect_err("the stream is malformed");
            let result = run_blocking(which, Direction::Decompress, None, bytes, codec);
            assert_eq!(result, Err(BindingError::Decompression(expected)));
        }
    }
}

#[test]
fn a_truncated_stream_gives_an_error_and_no_partial_output() {
    let data: Vec<u8> = vec![0xAB; 10_000];
    let packed = run_blocking(Codec::Gzip, Direction::Compress, Some(3), &data, codec)
        .expect("compressing succeeds");
    let truncated = &packed[..packed.len() / 2];
    let result = run_blocking(Codec::Gzip, Direction::Decompress, None, truncated, codec);
    let error = result.expect_err("half a stream is no stream");
    assert!(error.message().starts_with("Decompression failed: "));
}

#[test]
fn compressing_twice_gives_the_same_length_and_both_results_decompress() {
    for which in [Codec::Gzip, Codec::Deflate, Codec::Zlib] {
        for level in [0, 1, 3] {
            for data in samples() {
                let first = run_blocking(which, Direction::Compress, Some(level), &data, codec)
                    .expect("compressing succeeds");
                let second = run_blocking(which, Direction::Compress, Some(level), &data, codec)
                    .expect("compressing succeeds");
                assert_eq!(first.len(), second.len());
                for packed in [first, second] {
                    assert_eq!(
                        run_blocking(which, Direction::Decompress, None, &packed, codec),
                        Ok(data.clone())
                    );
                }
            }
        }
    }
}

#[test]
fn the_non_blocking_path_round_trips_through_its_private_copy() {
    for which in [Codec::Gzip, Codec::Deflate, Codec::Zlib] {
        for data in samples() {
            let packed = settle(
                Operation::new(which, Direction::Compress, Mode::NonBlocking),
                Some(1),
                &data,
            )
            .expect("compressing succeeds");
            let unpacked = settle(
                Operation::new(which, Direction::Decompress, Mode::NonBlocking),
                None,
                &packed,
            );
            assert_eq!(unpacked, Ok(data));
        }
    }
}

#[test]
fn the_non_blocking_path_rejects_with_the_decompression_prefix() {
    let result = settle(
        Operation::new(Codec::Zlib, Direction::Decompress, Mode::NonBlocking),
        None,
        &[0x00, 0x01, 0x02],
    );
    let error = result.expect_err("three arbitrary bytes are no zlib stream");
    assert!(error.message().starts_with("Decompression failed: "));
}

/// Plays the host for a non-blocking operation: schedules, runs the codec on
/// the private copy, and settles.
fn settle(op: Operation, level: Option<i64>, input: &[u8]) -> Result<Vec<u8>, BindingError> {
    let mut invocation = Invocation::new(op);
    let (job, copy) = match invocation.step(Event::Called { level, input }) {
        Action::Schedule { job, input_copy } => (job, input_copy),
        Action::Raise { error } => return Err(error),
        other => panic!("a non-blocking call schedules or raises, got {:?}", other),
    };
    let outcome = codec(job, &copy);
    match invocation.step(Event::CodecFinished { outcome }) {
        Action::Resolve { output } => Ok(output),
        Action::Reject { error } => Err(error),
        other => panic!("a finished job resolves or rejects, got {:?}", other),
    }
}
