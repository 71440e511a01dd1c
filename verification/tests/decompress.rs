//! Compression detection and bzip2 block-framing tests.

use std::io::Write;

use nexrad::decode::DataFile;
use nexrad::decompress::{decompress_file, is_compressed};
use nexrad::error::Error;
use nexrad::model::VOLUME_HEADER_SIZE;

fn push_u32(out: &mut Vec<u8>, v: u32) {
    out.extend_from_slice(&v.to_be_bytes());
}

/// A minimal plain archive: a 24-byte volume header and one type-31
/// message frame with a single reflectivity block.
fn plain_archive() -> Vec<u8> {
    let mut out = Vec::new();
    out.extend_from_slice(b"ARCHIVE2.001");
    push_u32(&mut out, 19000);
    push_u32(&mut out, 12345678);
    out.extend_from_slice(b"KCRP");
    assert_eq!(out.len(), VOLUME_HEADER_SIZE);

    // Message header, type 31.
    out.extend_from_slice(&[0u8; 12]);
    out.extend_from_slice(&1216u16.to_be_bytes());
    out.push(0);
    out.push(31);
    out.extend_from_slice(&1u16.to_be_bytes());
    out.extend_from_slice(&20000u16.to_be_bytes());
    push_u32(&mut out, 1000);
    out.extend_from_slice(&1u16.to_be_bytes());
    out.extend_from_slice(&1u16.to_be_bytes());

    // Message 31 header with one data block.
    out.extend_from_slice(b"KCRP");
    push_u32(&mut out, 5_000_000);
    out.extend_from_slice(&20000u16.to_be_bytes());
    out.extend_from_slice(&1u16.to_be_bytes());
    push_u32(&mut out, 45.0f32.to_bits());
    out.push(0);
    out.push(0);
    out.extend_from_slice(&100u16.to_be_bytes());
    out.push(1);
    out.push(0);
    out.push(1); // elev_num
    out.push(1);
    push_u32(&mut out, 0.5f32.to_bits());
    out.push(0);
    out.push(0);
    out.extend_from_slice(&1u16.to_be_bytes()); // data_block_count

    // Pointer table: one block right after it (header 32 + table 4).
    push_u32(&mut out, 36);

    // Reflectivity block: geometry plus two 8-bit samples.
    out.push(b'D');
    out.extend_from_slice(b"REF");
    push_u32(&mut out, 0);
    out.extend_from_slice(&2u16.to_be_bytes());
    out.extend_from_slice(&0u16.to_be_bytes());
    out.extend_from_slice(&250u16.to_be_bytes());
    out.extend_from_slice(&0u16.to_be_bytes());
    out.extend_from_slice(&16u16.to_be_bytes());
    out.push(0);
    out.push(8);
    push_u32(&mut out, 2.0f32.to_bits());
    push_u32(&mut out, 66.0f32.to_bits());
    out.extend_from_slice(&[120, 130]);
    out
}

fn bz_compress(bytes: &[u8]) -> Vec<u8> {
    let mut enc = bzip2::write::BzEncoder::new(Vec::new(), bzip2::Compression::best());
    enc.write_all(bytes).expect("compression failed");
    enc.finish().expect("compression failed")
}

/// The plain archive rewrapped as the compressed framing: the verbatim
/// volume header, then one size-prefixed bzip2 stream per chunk.
fn compressed_archive(chunks: &[&[u8]]) -> Vec<u8> {
    let plain = plain_archive();
    let mut out = plain[..VOLUME_HEADER_SIZE].to_vec();
    for chunk in chunks {
        let stream = bz_compress(chunk);
        push_u32(&mut out, stream.len() as u32);
        out.extend_from_slice(&stream);
    }
    out
}

#[test]
fn detects_compression_marker() {
    let plain = plain_archive();
    assert!(!is_compressed(&plain));
    let body = &plain[VOLUME_HEADER_SIZE..];
    let compressed = compressed_archive(&[body]);
    assert!(is_compressed(&compressed));
    assert_eq!(&compressed[28..30], b"BZ");
    assert!(!is_compressed(&compressed[..29]));
}

#[test]
fn plain_bytes_fail_with_decompression_unsupported() {
    let plain = plain_archive();
    let before = plain.clone();
    let r = decompress_file(&plain);
    assert!(matches!(r, Err(Error::DecompressionUnsupported)));
    // No input was consumed or altered.
    assert_eq!(plain, before);
}

#[test]
fn single_stream_roundtrip() {
    let plain = plain_archive();
    let body = &plain[VOLUME_HEADER_SIZE..];
    let compressed = compressed_archive(&[body]);
    let decompressed = decompress_file(&compressed).expect("decompression failed");
    assert_eq!(decompressed, plain);
}

#[test]
fn multi_stream_roundtrip() {
    let plain = plain_archive();
    let body = &plain[VOLUME_HEADER_SIZE..];
    let split = body.len() / 2;
    let compressed = compressed_archive(&[&body[..split], &body[split..]]);
    let decompressed = decompress_file(&compressed).expect("decompression failed");
    assert_eq!(decompressed, plain);
}

#[test]
fn decode_sees_through_compression() {
    let plain = plain_archive();
    let body = &plain[VOLUME_HEADER_SIZE..];
    let compressed = compressed_archive(&[body]);

    let from_plain = DataFile::from_vec(plain).expect("plain decode failed");
    let from_compressed = DataFile::from_vec(compressed).expect("compressed decode failed");

    assert_eq!(
        from_plain.volume_header().filename(),
        from_compressed.volume_header().filename()
    );
    let a = from_plain.elevation_scans();
    let b = from_compressed.elevation_scans();
    assert_eq!(a.len(), b.len());
    let ra = &a.get(&1).expect("missing")[0];
    let rb = &b.get(&1).expect("missing")[0];
    assert_eq!(ra.header().azm(), rb.header().azm());
    assert_eq!(
        ra.reflectivity_data().expect("missing").moment_data(),
        rb.reflectivity_data().expect("missing").moment_data()
    );
}

#[test]
fn corrupt_stream_aborts_with_no_partial_output() {
    let plain = plain_archive();
    let body = &plain[VOLUME_HEADER_SIZE..];
    let mut compressed = compressed_archive(&[body]);
    let len = compressed.len();
    compressed.truncate(len - 10);
    assert!(decompress_file(&compressed).is_err());
}
