//! Record-level tests: encoded sizes, tag resolution, the moment scaling
//! contract, and file metadata.

use nexrad::codec::ByteCursor;
use nexrad::error::Error;
use nexrad::file_metadata::{Date, FileMetadata};
use nexrad::model::{
    scale_gate, DataBlockHeader, DataBlockProduct, DataMoment, ElevationData, GenericData,
    Message31Header, MessageHeader, Product, RadialData, ScaledGate, VolumeData,
    VolumeHeaderRecord, DATA_BLOCK_HEADER_SIZE, ELEVATION_DATA_SIZE, GENERIC_DATA_SIZE,
    MESSAGE31_HEADER_SIZE, MESSAGE_HEADER_SIZE, RADIAL_DATA_SIZE, VOLUME_DATA_SIZE,
    VOLUME_HEADER_SIZE,
};

/// Each record decoder must advance by exactly its encoded size.
#[test]
fn encoded_sizes_match_field_layout() {
    let bytes = vec![0u8; 4096];

    let mut c = ByteCursor::new(bytes.clone());
    assert!(VolumeHeaderRecord::decode(&mut c).is_ok());
    assert_eq!(c.position(), VOLUME_HEADER_SIZE);

    let mut c = ByteCursor::new(bytes.clone());
    assert!(MessageHeader::decode(&mut c).is_ok());
    assert_eq!(c.position(), MESSAGE_HEADER_SIZE);

    let mut c = ByteCursor::new(bytes.clone());
    assert!(Message31Header::decode(&mut c).is_ok());
    assert_eq!(c.position(), MESSAGE31_HEADER_SIZE);

    let mut c = ByteCursor::new(bytes.clone());
    assert!(DataBlockHeader::decode(&mut c).is_ok());
    assert_eq!(c.position(), DATA_BLOCK_HEADER_SIZE);

    let mut c = ByteCursor::new(bytes.clone());
    assert!(VolumeData::decode(&mut c).is_ok());
    assert_eq!(c.position(), VOLUME_DATA_SIZE);

    let mut c = ByteCursor::new(bytes.clone());
    assert!(ElevationData::decode(&mut c).is_ok());
    assert_eq!(c.position(), ELEVATION_DATA_SIZE);

    let mut c = ByteCursor::new(bytes.clone());
    assert!(RadialData::decode(&mut c).is_ok());
    assert_eq!(c.position(), RADIAL_DATA_SIZE);

    let mut c = ByteCursor::new(bytes);
    assert!(GenericData::decode(&mut c).is_ok());
    assert_eq!(c.position(), GENERIC_DATA_SIZE);
}

#[test]
fn decoders_fail_on_insufficient_bytes() {
    let mut c = ByteCursor::new(vec![0u8; MESSAGE_HEADER_SIZE - 1]);
    assert!(matches!(MessageHeader::decode(&mut c), Err(Error::Truncated)));
    // The cursor did not move.
    assert_eq!(c.position(), 0);
}

#[test]
fn cursor_reads_big_endian() {
    let mut c = ByteCursor::new(vec![0x12, 0x34, 0x56, 0x78, 0x9A]);
    assert_eq!(c.take_u16(), 0x1234);
    assert_eq!(c.take_u16(), 0x5678);
    assert_eq!(c.take_u8(), 0x9A);
    c.seek(1);
    assert_eq!(c.take_u32(), 0x3456789A);
}

fn header_of(name: &[u8; 3]) -> DataBlockHeader {
    DataBlockHeader { data_block_type: vec![b'D'], data_name: name.to_vec() }
}

#[test]
fn every_known_tag_resolves() {
    let cases: [(&[u8; 3], DataBlockProduct); 10] = [
        (b"REF", DataBlockProduct::Reflectivity),
        (b"VEL", DataBlockProduct::Velocity),
        (b"SW ", DataBlockProduct::SpectrumWidth),
        (b"ZDR", DataBlockProduct::DifferentialReflectivity),
        (b"PHI", DataBlockProduct::DifferentialPhase),
        (b"RHO", DataBlockProduct::CorrelationCoefficient),
        (b"CFP", DataBlockProduct::ClutterFilterProbability),
        (b"VOL", DataBlockProduct::VolumeData),
        (b"RAD", DataBlockProduct::RadialData),
        (b"ELV", DataBlockProduct::ElevationData),
    ];
    for (name, expected) in cases {
        let got = header_of(name).data_block_product().expect("tag should resolve");
        assert_eq!(got, expected);
    }
}

#[test]
fn unknown_tag_is_unhandled_product() {
    let r = header_of(b"XYZ").data_block_product();
    assert!(matches!(r, Err(Error::UnhandledProduct)));
    // Lowercase block tags are not in the exact set either.
    let r = header_of(b"ref").data_block_product();
    assert!(matches!(r, Err(Error::UnhandledProduct)));
}

#[test]
fn product_from_str_is_case_insensitive() {
    assert_eq!(Product::from_str("REF").expect("should resolve"), Product::Reflectivity);
    assert_eq!(Product::from_str("ref").expect("should resolve"), Product::Reflectivity);
    assert_eq!(Product::from_str("Vel").expect("should resolve"), Product::Velocity);
    assert_eq!(Product::from_str("SW ").expect("should resolve"), Product::SpectrumWidth);
    assert_eq!(Product::from_str("zdr").expect("should resolve"), Product::DifferentialReflectivity);
    assert_eq!(Product::from_str("PHI").expect("should resolve"), Product::DifferentialPhase);
    assert_eq!(Product::from_str("rho").expect("should resolve"), Product::CorrelationCoefficient);
    assert_eq!(Product::from_str("CFP").expect("should resolve"), Product::ClutterFilterProbability);
    assert!(matches!(Product::from_str("XYZ"), Err(Error::UnhandledProduct)));
    assert!(matches!(Product::from_str("REFL"), Err(Error::UnhandledProduct)));
    assert!(matches!(Product::from_str(""), Err(Error::UnhandledProduct)));
}

#[test]
fn product_converts_to_block_product() {
    assert_eq!(DataBlockProduct::from(Product::Reflectivity), DataBlockProduct::Reflectivity);
    assert_eq!(
        DataBlockProduct::from(Product::ClutterFilterProbability),
        DataBlockProduct::ClutterFilterProbability
    );
}

/// Raw code 0 is "below threshold" and raw code 1 is "folded" for any
/// scale and offset; the codes never reach the scaling formula.
#[test]
fn sentinel_codes_are_scale_independent() {
    assert_eq!(scale_gate(0), ScaledGate::BelowThreshold);
    assert_eq!(scale_gate(1), ScaledGate::RangeFolded);
    assert_eq!(scale_gate(2), ScaledGate::Value(2));
    assert_eq!(scale_gate(255), ScaledGate::Value(255));
    assert_eq!(scale_gate(65535), ScaledGate::Value(65535));
}

fn generic(gates: u16, word: u8) -> GenericData {
    GenericData {
        data_block_type: vec![b'D'],
        data_name: b"REF".to_vec(),
        reserved: 0,
        number_data_moment_gates: gates,
        data_moment_range: 0,
        data_moment_range_sample_interval: 250,
        tover: 0,
        snr_threshold: 16,
        control_flags: 0,
        data_word_size: word,
        scale: 2.0f32.to_bits(),
        offset: 66.0f32.to_bits(),
    }
}

#[test]
fn moment_size_follows_gate_count_and_word_size() {
    assert_eq!(generic(4, 8).moment_size(), 4);
    assert_eq!(generic(4, 16).moment_size(), 8);
    assert_eq!(generic(0, 16).moment_size(), 0);
    assert_eq!(generic(65535, 8).moment_size(), 65535);
}

#[test]
fn gate_codes_follow_word_size() {
    let m8 = DataMoment::new(DataBlockProduct::Reflectivity, generic(3, 8), vec![0, 1, 200]);
    assert_eq!(m8.gate_code(0), Some(0));
    assert_eq!(m8.gate_code(1), Some(1));
    assert_eq!(m8.gate_code(2), Some(200));
    assert_eq!(m8.gate_code(3), None);

    let m16 = DataMoment::new(
        DataBlockProduct::Velocity,
        {
            let mut g = generic(2, 16);
            g.data_name = b"VEL".to_vec();
            g
        },
        vec![0x01, 0x02, 0xFF, 0xFE],
    );
    assert_eq!(m16.gate_code(0), Some(0x0102));
    assert_eq!(m16.gate_code(1), Some(0xFFFE));
    assert_eq!(m16.gate_code(2), None);
}

#[test]
fn date_rejects_out_of_range_values() {
    assert!(Date::new(2017, 8, 25).is_some());
    assert!(Date::new(2017, 0, 25).is_none());
    assert!(Date::new(2017, 13, 1).is_none());
    assert!(Date::new(2017, 12, 0).is_none());
    assert!(Date::new(2017, 12, 32).is_none());
}

#[test]
fn file_metadata_holds_its_fields() {
    let date = Date::new(2017, 8, 25).expect("valid date");
    let meta = FileMetadata::new(
        String::from("KCRP"),
        date,
        String::from("KCRP20170825_235733_V06"),
    );
    assert_eq!(meta.site(), "KCRP");
    assert_eq!(meta.date().year, 2017);
    assert_eq!(meta.date().month, 8);
    assert_eq!(meta.date().day, 25);
    assert_eq!(meta.identifier(), "KCRP20170825_235733_V06");
}
