use std::io::Write;

use async_bzip::decoder::{step_after_decompress, BzDecoder, DecodeError, ParkedTask, WriteStep};

fn compress(text: &[u8]) -> Vec<u8> {
    let mut encoder = bzip2::write::BzEncoder::new(Vec::new(), bzip2::Compression::best());
    encoder.write_all(text).unwrap();
    encoder.finish().unwrap()
}

fn sample_text() -> Vec<u8> {
    let mut text = Vec::new();
    for i in 0..200u32 {
        text.extend_from_slice(format!("line {} of the sample text\n", i).as_bytes());
    }
    text
}

/// Feeds all of `compressed` to the decoder and reads everything out.
fn decode_all(decoder: &mut BzDecoder<u32>, compressed: &[u8]) -> Vec<u8> {
    let mut fed = 0;
    let mut out = Vec::new();
    let mut chunk = [0u8; 100];
    for _ in 0..100_000 {
        if fed < compressed.len() {
            // The last byte is held back until the rest is taken in, so that
            // writing it runs the decompressor while output is pending.
            let end = if fed + 1 < compressed.len() { compressed.len() - 1 } else { compressed.len() };
            let outcome = decoder.write(&compressed[fed..end], || 1);
            match outcome.result {
                Ok(n) => fed += n,
                Err(DecodeError::BufferFull) => {}
                Err(_) => panic!("refused"),
            }
        }
        let outcome = decoder.read(&mut chunk, || 2);
        match outcome.result {
            Ok(0) => break,
            Ok(n) => out.extend_from_slice(&chunk[..n]),
            Err(DecodeError::BufferEmpty) => {}
            Err(_) => panic!("unexpected error"),
        }
    }
    out
}

#[test]
fn decodes_whole_stream_in_order() {
    let text = sample_text();
    let compressed = compress(&text);
    let mut decoder: BzDecoder<u32> = BzDecoder::new(64 * 1024);
    let out = decode_all(&mut decoder, &compressed);
    assert_eq!(out, text);
    assert_eq!(decoder.total_in(), compressed.len() as u64);
}

#[test]
fn new_decoder_has_taken_nothing() {
    let decoder: BzDecoder<u32> = BzDecoder::new(16);
    assert_eq!(decoder.total_in(), 0);
}

#[test]
fn empty_write_takes_nothing() {
    let mut decoder: BzDecoder<u32> = BzDecoder::new(16);
    let outcome = decoder.write(&[], || 1);
    assert!(matches!(outcome.result, Ok(0)));
    assert!(outcome.wake.is_none());
    assert_eq!(decoder.total_in(), 0);
}

#[test]
fn write_after_end_takes_nothing() {
    let text = b"the end is final".to_vec();
    let compressed = compress(&text);
    let mut decoder: BzDecoder<u32> = BzDecoder::new(1024);
    let outcome = decoder.write(&compressed, || 1);
    assert!(matches!(outcome.result, Ok(n) if n == compressed.len()));
    let before = decoder.total_in();
    let outcome = decoder.write(&compressed, || 1);
    assert!(matches!(outcome.result, Ok(0)));
    assert_eq!(decoder.total_in(), before);
    let mut out = [0u8; 64];
    let outcome = decoder.read(&mut out, || 2);
    assert!(matches!(outcome.result, Ok(n) if n == text.len()));
    assert_eq!(&out[..text.len()], &text[..]);
    // End of the data: every byte has been read and the stream has ended.
    let outcome = decoder.read(&mut out, || 2);
    assert!(matches!(outcome.result, Ok(0)));
    assert!(outcome.wake.is_none());
}

#[test]
fn empty_read_parks_the_reader() {
    let mut decoder: BzDecoder<u32> = BzDecoder::new(16);
    let mut out = [9u8; 4];
    let outcome = decoder.read(&mut out, || 7);
    assert!(matches!(outcome.result, Err(DecodeError::BufferEmpty)));
    assert!(outcome.wake.is_none());
    assert_eq!(out, [9u8; 4]);
}

#[test]
fn write_wakes_parked_reader() {
    let compressed = compress(b"wake up");
    let mut decoder: BzDecoder<u32> = BzDecoder::new(64);
    let mut out = [0u8; 16];
    let outcome = decoder.read(&mut out, || 7);
    assert!(matches!(outcome.result, Err(DecodeError::BufferEmpty)));
    let outcome = decoder.write(&compressed, || 8);
    assert!(matches!(outcome.result, Ok(n) if n > 0));
    assert_eq!(outcome.wake, Some(7));
    let outcome = decoder.read(&mut out, || 7);
    assert!(matches!(outcome.result, Ok(7)));
    assert_eq!(&out[..7], b"wake up");
    // The reader was taken out of its slot: no writer to wake.
    assert!(outcome.wake.is_none());
}

#[test]
fn full_buffer_parks_the_writer_and_read_wakes_it() {
    let text = b"abcdefghijklmnopqrstuvwxyz".to_vec();
    let compressed = compress(&text);
    let mut decoder: BzDecoder<u32> = BzDecoder::new(4);
    let mut fed = 0;
    let mut blocked = false;
    while fed < compressed.len() {
        let outcome = decoder.write(&compressed[fed..fed + 1], || 9);
        match outcome.result {
            Ok(n) => fed += n,
            Err(DecodeError::BufferFull) => {
                assert!(outcome.wake.is_none());
                blocked = true;
                break;
            }
            Err(_) => panic!("refused"),
        }
    }
    assert!(blocked);
    let mut out = [0u8; 2];
    let outcome = decoder.read(&mut out, || 3);
    assert!(matches!(outcome.result, Ok(2)));
    assert_eq!(&out, b"ab");
    assert_eq!(outcome.wake, Some(9));
    let outcome = decoder.read(&mut out, || 3);
    assert!(matches!(outcome.result, Ok(2)));
    assert_eq!(&out, b"cd");
    assert!(outcome.wake.is_none());
}

#[test]
fn zero_capacity_blocks_both_sides() {
    let mut decoder: BzDecoder<u32> = BzDecoder::new(0);
    let outcome = decoder.write(&[1, 2, 3], || 5);
    assert!(matches!(outcome.result, Err(DecodeError::BufferFull)));
    let mut out = [0u8; 1];
    let outcome = decoder.read(&mut out, || 6);
    assert!(matches!(outcome.result, Err(DecodeError::BufferEmpty)));
    assert_eq!(decoder.total_in(), 0);
}

#[test]
fn read_into_empty_slice_moves_nothing() {
    let compressed = compress(b"xyz");
    let mut decoder: BzDecoder<u32> = BzDecoder::new(16);
    let outcome = decoder.write(&compressed, || 1);
    assert!(outcome.result.is_ok());
    let mut out: [u8; 0] = [];
    let outcome = decoder.read(&mut out, || 2);
    assert!(matches!(outcome.result, Ok(0)));
    let mut out = [0u8; 8];
    let outcome = decoder.read(&mut out, || 2);
    assert!(matches!(outcome.result, Ok(3)));
    assert_eq!(&out[..3], b"xyz");
}

#[test]
fn invalid_data_is_refused() {
    let mut decoder: BzDecoder<u32> = BzDecoder::new(16);
    let outcome = decoder.write(b"this is not a bzip2 stream", || 1);
    match outcome.result {
        Err(e) => {
            assert!(matches!(e, DecodeError::InvalidInput(_)));
            assert!(!e.is_would_block());
        }
        Ok(_) => panic!("garbage was accepted"),
    }
    assert!(outcome.wake.is_none());
}

#[test]
fn would_block_errors() {
    assert!(DecodeError::BufferFull.is_would_block());
    assert!(DecodeError::BufferEmpty.is_would_block());
}

#[test]
fn flush_is_always_ok() {
    let mut decoder: BzDecoder<u32> = BzDecoder::new(16);
    assert!(decoder.flush().is_ok());
}

#[test]
fn take_empties_the_slot() {
    let mut slot: ParkedTask<u32> = ParkedTask::ReadTask(4);
    let taken = slot.take();
    assert!(matches!(taken, ParkedTask::ReadTask(4)));
    assert!(matches!(slot, ParkedTask::NoTask));
    let mut slot: ParkedTask<u32> = ParkedTask::WriteTask(5);
    assert!(matches!(slot.take(), ParkedTask::WriteTask(5)));
    assert!(matches!(slot.take(), ParkedTask::NoTask));
}

#[test]
fn steps_after_decompressing() {
    assert!(matches!(
        step_after_decompress(Err(bzip2::Error::Data), 3, 1, 8),
        WriteStep::Refused(bzip2::Error::Data)
    ));
    assert!(matches!(
        step_after_decompress(Ok(false), 3, 1, 8),
        WriteStep::Accepted { taken_in: 3, ended: false }
    ));
    assert!(matches!(
        step_after_decompress(Ok(true), 0, 0, 8),
        WriteStep::Accepted { taken_in: 0, ended: true }
    ));
    assert!(matches!(step_after_decompress(Ok(false), 0, 4, 8), WriteStep::Again));
    assert!(matches!(step_after_decompress(Ok(false), 0, 0, 8), WriteStep::Blocked));
    assert!(matches!(step_after_decompress(Ok(false), 0, 8, 8), WriteStep::Blocked));
}

const EMPTY_STREAM: [u8; 14] = [0x42, 0x5A, 0x68, 0x39, 0x17, 0x72, 0x45, 0x38, 0x50, 0x90, 0, 0, 0, 0];

#[test]
fn empty_stream_ends_at_once() {
    let mut decoder: BzDecoder<u32> = BzDecoder::new(16);
    let outcome = decoder.write(&EMPTY_STREAM, || 1);
    assert!(matches!(outcome.result, Ok(14)));
    assert_eq!(decoder.total_in(), 14);
    // Bytes after the end of the stream are not taken in.
    let outcome = decoder.write(&[1, 2, 3], || 1);
    assert!(matches!(outcome.result, Ok(0)));
    assert_eq!(decoder.total_in(), 14);
    let mut out = [0u8; 4];
    assert!(matches!(decoder.read(&mut out, || 2).result, Ok(0)));
    assert_eq!(out, [0u8; 4]);
    assert!(matches!(decoder.read(&mut out, || 2).result, Ok(0)));
}

#[test]
fn bad_magic_is_refused_and_stream_goes_on() {
    let mut decoder: BzDecoder<u32> = BzDecoder::new(16);
    let outcome = decoder.write(b"hello", || 1);
    assert!(matches!(outcome.result, Err(DecodeError::InvalidInput(_))));
    // The decoder has not ended: a reader still waits for data.
    let mut out = [0u8; 4];
    assert!(matches!(decoder.read(&mut out, || 2).result, Err(DecodeError::BufferEmpty)));
}

#[test]
fn round_trip_through_small_buffer() {
    let text = sample_text();
    let compressed = compress(&text);
    let mut decoder: BzDecoder<u32> = BzDecoder::new(7);
    let out = decode_all(&mut decoder, &compressed);
    assert_eq!(out, text);
}
