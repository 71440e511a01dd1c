//! Whole-file decode tests over synthetic archives.

use nexrad::decode::DataFile;
use nexrad::error::Error;
use nexrad::model::{
    DataBlockProduct, MESSAGE31_HEADER_SIZE, MESSAGE_FRAME_SIZE, MESSAGE_HEADER_SIZE,
    VOLUME_HEADER_SIZE,
};

fn push_u16(out: &mut Vec<u8>, v: u16) {
    out.extend_from_slice(&v.to_be_bytes());
}

fn push_u32(out: &mut Vec<u8>, v: u32) {
    out.extend_from_slice(&v.to_be_bytes());
}

fn push_f32(out: &mut Vec<u8>, v: f32) {
    push_u32(out, v.to_bits());
}

/// The 24-byte volume header.
fn volume_header_bytes() -> Vec<u8> {
    let mut out = Vec::new();
    out.extend_from_slice(b"ARCHIVE2.001");
    push_u32(&mut out, 19000);
    push_u32(&mut out, 12345678);
    out.extend_from_slice(b"KCRP");
    assert_eq!(out.len(), VOLUME_HEADER_SIZE);
    out
}

/// A 28-byte message header announcing `msg_type`.
fn message_header_bytes(msg_type: u8) -> Vec<u8> {
    let mut out = Vec::new();
    out.extend_from_slice(&[0u8; 12]);
    push_u16(&mut out, 1216);
    out.push(0);
    out.push(msg_type);
    push_u16(&mut out, 1);
    push_u16(&mut out, 20000);
    push_u32(&mut out, 1000);
    push_u16(&mut out, 1);
    push_u16(&mut out, 1);
    assert_eq!(out.len(), MESSAGE_HEADER_SIZE);
    out
}

/// A 32-byte Message 31 header.
fn message31_header_bytes(elev_num: u8, azm: f32, data_block_count: u16) -> Vec<u8> {
    let mut out = Vec::new();
    out.extend_from_slice(b"KCRP");
    push_u32(&mut out, 5_000_000);
    push_u16(&mut out, 20000);
    push_u16(&mut out, 1);
    push_f32(&mut out, azm);
    out.push(0); // compression_code
    out.push(0); // spare
    push_u16(&mut out, 100); // radial_len
    out.push(1); // azm_res
    out.push(0); // radial_status
    out.push(elev_num);
    out.push(elev_num); // sector_cut_num
    push_f32(&mut out, 0.5); // elev
    out.push(0); // radial_spot_blanking
    out.push(0); // azm_indexing_mode
    push_u16(&mut out, data_block_count);
    assert_eq!(out.len(), MESSAGE31_HEADER_SIZE);
    out
}

/// A moment block: a 28-byte geometry record plus 8-bit samples.
fn moment_block_bytes(name: &[u8; 3], samples: &[u8]) -> Vec<u8> {
    let mut out = Vec::new();
    out.push(b'D');
    out.extend_from_slice(name);
    push_u32(&mut out, 0); // reserved
    push_u16(&mut out, samples.len() as u16); // number_data_moment_gates
    push_u16(&mut out, 0); // data_moment_range
    push_u16(&mut out, 250); // data_moment_range_sample_interval
    push_u16(&mut out, 0); // tover
    push_u16(&mut out, 16); // snr_threshold
    out.push(0); // control_flags
    out.push(8); // data_word_size
    push_f32(&mut out, 2.0); // scale
    push_f32(&mut out, 66.0); // offset
    out.extend_from_slice(samples);
    out
}

/// A 44-byte volume data block.
fn volume_data_block_bytes() -> Vec<u8> {
    let mut out = Vec::new();
    out.push(b'R');
    out.extend_from_slice(b"VOL");
    push_u16(&mut out, 44); // lrtup
    out.push(1);
    out.push(0);
    push_f32(&mut out, 27.784);
    push_f32(&mut out, -97.511);
    push_u16(&mut out, 10);
    push_u16(&mut out, 20);
    push_f32(&mut out, -45.0);
    push_f32(&mut out, 700000.0);
    push_f32(&mut out, 700000.0);
    push_f32(&mut out, 0.25);
    push_f32(&mut out, 30.0);
    push_u16(&mut out, 212);
    push_u16(&mut out, 0);
    assert_eq!(out.len(), 44);
    out
}

/// One complete type-31 message frame: message header, radial header,
/// pointer table, and the given blocks laid out in the given byte order,
/// with the pointer table listing them in `pointer_order`.
fn message31_frame(elev_num: u8, azm: f32, blocks: &[Vec<u8>], pointer_order: &[usize]) -> Vec<u8> {
    let count = pointer_order.len() as u16;
    // Offsets are relative to the message start, which is the first byte
    // of the Message 31 header.
    let table_size = 4 * pointer_order.len();
    let mut offsets = Vec::new();
    let mut at = MESSAGE31_HEADER_SIZE + table_size;
    for b in blocks {
        offsets.push(at);
        at += b.len();
    }
    let mut out = message_header_bytes(31);
    out.extend_from_slice(&message31_header_bytes(elev_num, azm, count));
    for &i in pointer_order {
        push_u32(&mut out, offsets[i] as u32);
    }
    for b in blocks {
        out.extend_from_slice(b);
    }
    out
}

/// A plain (uncompressed) archive from whole message frames.
fn archive(frames: &[Vec<u8>]) -> Vec<u8> {
    let mut out = volume_header_bytes();
    for f in frames {
        out.extend_from_slice(f);
    }
    out
}

#[test]
fn decode_single_radial() {
    let frame = message31_frame(
        3,
        45.0,
        &[volume_data_block_bytes(), moment_block_bytes(b"REF", &[0, 1, 2, 250])],
        &[0, 1],
    );
    let file = DataFile::from_vec(archive(&[frame])).expect("decode failed");

    assert_eq!(file.volume_header().radar_id().as_slice(), b"KCRP");
    assert_eq!(file.volume_header().filename().as_slice(), b"ARCHIVE2.001");
    assert_eq!(file.volume_header().file_date(), 19000);

    let scans = file.elevation_scans();
    assert_eq!(scans.len(), 1);
    let radials = scans.get(&3).expect("elevation 3 missing");
    assert_eq!(radials.len(), 1);
    let radial = &radials[0];
    assert_eq!(radial.header().elev_num(), 3);
    assert_eq!(radial.header().azm(), 45.0f32.to_bits());

    let vol = radial.volume_data().expect("volume data missing");
    assert_eq!(vol.data_block_header().data_name().as_slice(), b"VOL");
    assert_eq!(vol.lat(), 27.784f32.to_bits());
    assert_eq!(vol.volume_coverage_pattern_number(), 212);

    let refl = radial.reflectivity_data().expect("reflectivity missing");
    assert_eq!(refl.data().data_name().as_slice(), b"REF");
    assert_eq!(refl.data().number_data_moment_gates(), 4);
    assert_eq!(refl.data().data_word_size(), 8);
    assert_eq!(refl.moment_data().as_slice(), &[0, 1, 2, 250]);
    // Sample-length contract on concrete values.
    assert_eq!(refl.moment_data().len(), 4 * 8 / 8);
}

#[test]
fn nineteen_elevation_cuts() {
    let mut frames = Vec::new();
    for elev in 1u8..=19 {
        frames.push(message31_frame(
            elev,
            elev as f32 * 10.0,
            &[moment_block_bytes(b"REF", &[10, 20, 30])],
            &[0],
        ));
    }
    let file = DataFile::from_vec(archive(&frames)).expect("decode failed");
    let scans = file.elevation_scans();
    assert_eq!(scans.len(), 19);
    for (elevation_number, radials) in scans.iter() {
        assert!(!radials.is_empty());
        for radial in radials {
            assert!(radial.reflectivity_data().is_some());
            assert_eq!(*elevation_number, radial.header().elev_num());
        }
    }
}

#[test]
fn decoding_twice_gives_identical_results() {
    let frame = message31_frame(
        2,
        100.0,
        &[volume_data_block_bytes(), moment_block_bytes(b"VEL", &[5, 6, 7])],
        &[0, 1],
    );
    let bytes = archive(&[frame]);
    let a = DataFile::from_vec(bytes.clone()).expect("first decode failed");
    let b = DataFile::from_vec(bytes).expect("second decode failed");

    assert_eq!(a.volume_header().filename(), b.volume_header().filename());
    assert_eq!(a.volume_header().file_date(), b.volume_header().file_date());
    assert_eq!(a.volume_header().file_time(), b.volume_header().file_time());
    assert_eq!(a.volume_header().radar_id(), b.volume_header().radar_id());
    let sa = a.elevation_scans();
    let sb = b.elevation_scans();
    assert_eq!(sa.len(), sb.len());
    for (k, ra) in sa.iter() {
        let rb = sb.get(k).expect("key missing in second decode");
        assert_eq!(ra.len(), rb.len());
        for (ma, mb) in ra.iter().zip(rb.iter()) {
            assert_eq!(ma.header().azm(), mb.header().azm());
            assert_eq!(ma.header().elev_num(), mb.header().elev_num());
            let va = ma.velocity_data().expect("velocity missing");
            let vb = mb.velocity_data().expect("velocity missing");
            assert_eq!(va.moment_data(), vb.moment_data());
            assert_eq!(va.data().scale(), vb.data().scale());
        }
    }
}

#[test]
fn unknown_tag_aborts_whole_decode() {
    let mut bogus = moment_block_bytes(b"REF", &[1, 2]);
    bogus[1] = b'X';
    bogus[2] = b'Y';
    bogus[3] = b'Z';
    let frame = message31_frame(1, 0.0, &[bogus], &[0]);
    let r = DataFile::from_vec(archive(&[frame]));
    assert!(matches!(r, Err(Error::UnhandledProduct)));
}

#[test]
fn out_of_order_pointers_decode_with_backward_seek() {
    // The table lists the later block first, so the second pointer is
    // smaller than the first and forces a backward seek.
    let frame = message31_frame(
        1,
        10.0,
        &[volume_data_block_bytes(), moment_block_bytes(b"REF", &[9, 9])],
        &[1, 0],
    );
    let file = DataFile::from_vec(archive(&[frame])).expect("decode failed");
    let radials = file.elevation_scans().get(&1).expect("elevation missing");
    let radial = &radials[0];
    assert!(radial.volume_data().is_some());
    assert!(radial.reflectivity_data().is_some());
}

#[test]
fn non_31_frames_are_skipped_by_fixed_size() {
    let mut skip_frame = message_header_bytes(2);
    skip_frame.resize(MESSAGE_FRAME_SIZE, 0xAA);
    let m31 = message31_frame(7, 180.0, &[moment_block_bytes(b"REF", &[1])], &[0]);
    let file = DataFile::from_vec(archive(&[skip_frame, m31])).expect("decode failed");
    let scans = file.elevation_scans();
    assert_eq!(scans.len(), 1);
    assert!(scans.get(&7).is_some());
}

#[test]
fn later_duplicate_block_overwrites_earlier() {
    let frame = message31_frame(
        1,
        0.0,
        &[moment_block_bytes(b"REF", &[1, 1]), moment_block_bytes(b"REF", &[2, 2])],
        &[0, 1],
    );
    let file = DataFile::from_vec(archive(&[frame])).expect("decode failed");
    let radial = &file.elevation_scans().get(&1).expect("missing")[0];
    assert_eq!(
        radial.reflectivity_data().expect("reflectivity missing").moment_data().as_slice(),
        &[2, 2]
    );
}

#[test]
fn truncated_archive_fails() {
    let mut bytes = volume_header_bytes();
    bytes.extend_from_slice(&message_header_bytes(31));
    bytes.extend_from_slice(&[0u8; 10]); // not even a full radial header
    let r = DataFile::from_vec(bytes);
    assert!(matches!(r, Err(Error::Truncated)));
}

#[test]
fn short_buffer_fails() {
    assert!(matches!(DataFile::from_vec(vec![1, 2, 3]), Err(Error::Truncated)));
    assert!(matches!(DataFile::from_slice(&[0u8; 20]), Err(Error::Truncated)));
}

#[test]
fn first_volume_data_comes_from_lowest_elevation() {
    let with_vol = message31_frame(
        2,
        0.0,
        &[volume_data_block_bytes(), moment_block_bytes(b"REF", &[1])],
        &[0, 1],
    );
    let without_vol = message31_frame(5, 0.0, &[moment_block_bytes(b"REF", &[1])], &[0]);
    let file = DataFile::from_vec(archive(&[without_vol, with_vol])).expect("decode failed");
    // Elevation 2 is the lowest key and its first radial has volume data.
    let vol = file.first_volume_data().expect("volume data expected");
    assert_eq!(vol.data_block_header().data_name().as_slice(), b"VOL");
}

#[test]
fn first_volume_data_scans_past_radials_without_one() {
    // The lowest elevation's radials carry no volume data; the accessor
    // must scan on, keys ascending then list order, and find the block on
    // the higher elevation.
    let without_vol = message31_frame(1, 0.0, &[moment_block_bytes(b"REF", &[1])], &[0]);
    let with_vol = message31_frame(
        4,
        0.0,
        &[volume_data_block_bytes(), moment_block_bytes(b"REF", &[1])],
        &[0, 1],
    );
    let file = DataFile::from_vec(archive(&[without_vol, with_vol])).expect("decode failed");
    let vol = file.first_volume_data().expect("volume data expected");
    assert_eq!(vol.data_block_header().data_name().as_slice(), b"VOL");
    assert_eq!(vol.volume_coverage_pattern_number(), 212);
}

#[test]
fn first_volume_data_scans_within_an_elevation() {
    // Within one elevation, the first radial lacks the block and the
    // second carries it; list order decides.
    let bare = message31_frame(2, 0.0, &[moment_block_bytes(b"REF", &[1])], &[0]);
    let carrying = message31_frame(
        2,
        1.0,
        &[volume_data_block_bytes(), moment_block_bytes(b"REF", &[1])],
        &[0, 1],
    );
    let file = DataFile::from_vec(archive(&[bare, carrying])).expect("decode failed");
    assert!(file.first_volume_data().is_some());
}

#[test]
fn first_volume_data_none_only_when_absent_everywhere() {
    let a = message31_frame(1, 0.0, &[moment_block_bytes(b"REF", &[1])], &[0]);
    let b = message31_frame(9, 0.0, &[moment_block_bytes(b"VEL", &[2])], &[0]);
    let file = DataFile::from_vec(archive(&[a, b])).expect("decode failed");
    assert!(file.first_volume_data().is_none());
}

#[test]
fn as_elevation_scans_sorts_by_azimuth() {
    let frames = vec![
        message31_frame(1, 270.0, &[moment_block_bytes(b"REF", &[3])], &[0]),
        message31_frame(1, 10.5, &[moment_block_bytes(b"REF", &[1])], &[0]),
        message31_frame(1, 90.0, &[moment_block_bytes(b"REF", &[2])], &[0]),
    ];
    let file = DataFile::from_vec(archive(&frames)).expect("decode failed");
    // Decode keeps arrival order.
    let arrival: Vec<u32> = file.elevation_scans().get(&1).expect("missing").iter().map(
        |m| m.header().azm(),
    ).collect();
    assert_eq!(arrival, vec![270.0f32.to_bits(), 10.5f32.to_bits(), 90.0f32.to_bits()]);
    // The explicit finalize step sorts ascending.
    let sorted = file.as_elevation_scans();
    let azms: Vec<f32> = sorted.get(&1).expect("missing").iter().map(
        |m| f32::from_bits(m.header().azm()),
    ).collect();
    assert_eq!(azms, vec![10.5, 90.0, 270.0]);
}

#[test]
fn azimuth_sort_keeps_arrival_order_on_ties() {
    // Three radials share one azimuth and one sits between them; the
    // equal-azimuth radials must keep their arrival order (stable sort),
    // distinguishable by their moment bytes.
    let frames = vec![
        message31_frame(1, 45.0, &[moment_block_bytes(b"REF", &[1])], &[0]),
        message31_frame(1, 10.0, &[moment_block_bytes(b"REF", &[2])], &[0]),
        message31_frame(1, 45.0, &[moment_block_bytes(b"REF", &[3])], &[0]),
        message31_frame(1, 45.0, &[moment_block_bytes(b"REF", &[4])], &[0]),
    ];
    let file = DataFile::from_vec(archive(&frames)).expect("decode failed");
    let sorted = file.as_elevation_scans();
    let order: Vec<u8> = sorted.get(&1).expect("missing").iter().map(
        |m| m.reflectivity_data().expect("missing").moment_data()[0],
    ).collect();
    assert_eq!(order, vec![2, 1, 3, 4]);
}

#[test]
fn every_message31_field_decodes_from_known_bytes() {
    let frame = message31_frame(9, 123.25, &[moment_block_bytes(b"PHI", &[7])], &[0]);
    let file = DataFile::from_vec(archive(&[frame])).expect("decode failed");
    let radial = &file.elevation_scans().get(&9).expect("missing")[0];
    let h = radial.header();
    assert_eq!(h.radar_id().as_slice(), b"KCRP");
    assert_eq!(h.ray_time(), 5_000_000);
    assert_eq!(h.ray_date(), 20000);
    assert_eq!(h.azm_num(), 1);
    assert_eq!(f32::from_bits(h.azm()), 123.25);
    assert_eq!(h.compression_code(), 0);
    assert_eq!(h.radial_len(), 100);
    assert_eq!(h.azm_res(), 1);
    assert_eq!(h.elev_num(), 9);
    assert_eq!(h.sector_cut_num(), 9);
    assert_eq!(f32::from_bits(h.elev()), 0.5);
    assert_eq!(h.data_block_count(), 1);
    let phi = radial.get_data_moment(&DataBlockProduct::DifferentialPhase);
    assert!(phi.is_some());
}
