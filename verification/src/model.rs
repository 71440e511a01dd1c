//! Decoded NEXRAD Level II record types, each with its packed big-endian
//! wire layout stated field by field against the byte buffer.
//!
//! Angles, calibration constants and moment scale factors travel on the
//! wire as IEEE-754 single-precision words; they are held here as their
//! 32-bit bit patterns so that every field remains a plain integer.

use vstd::prelude::*;

use vstd::string::StringSliceAdditionalSpecFns;

use crate::codec::{be16, be32, ByteCursor};
use crate::error::Error;

verus! {

broadcast use ByteCursor::lemma_pos_range;

/// Encoded size in bytes of a `VolumeHeaderRecord`.
pub const VOLUME_HEADER_SIZE: usize = 24;

/// Encoded size in bytes of a `MessageHeader`.
pub const MESSAGE_HEADER_SIZE: usize = 28;

/// Encoded size in bytes of a `Message31Header`.
pub const MESSAGE31_HEADER_SIZE: usize = 32;

/// Encoded size in bytes of a `DataBlockHeader`.
pub const DATA_BLOCK_HEADER_SIZE: usize = 4;

/// Encoded size in bytes of a `VolumeData` sub-block.
pub const VOLUME_DATA_SIZE: usize = 44;

/// Encoded size in bytes of an `ElevationData` sub-block.
pub const ELEVATION_DATA_SIZE: usize = 12;

/// Encoded size in bytes of a `RadialData` sub-block.
pub const RADIAL_DATA_SIZE: usize = 28;

/// Encoded size in bytes of a `GenericData` record, raw samples excluded.
pub const GENERIC_DATA_SIZE: usize = 28;

/// Every message frame, type 31 or not, occupies this many bytes unless a
/// pointer table says otherwise. This is a documented assumption of the
/// archive family for the currently defined housekeeping message types,
/// not something read from an in-message length field.
pub const MESSAGE_FRAME_SIZE: usize = 2432;

/// NEXRAD data volume/file header: 24 bytes at offset 0, one per file.
pub struct VolumeHeaderRecord {
    /// Filename of the archive, 12 ASCII bytes.
    pub filename: Vec<u8>,
    /// Modified Julian date of the file.
    pub file_date: u32,
    /// Milliseconds of day since midnight of the file.
    pub file_time: u32,
    /// ICAO radar identifier in ASCII, 4 bytes.
    pub radar_id: Vec<u8>,
}

impl VolumeHeaderRecord {
    /// The fields are exactly the packed big-endian record at offset `p` of `s`.
    pub open spec fn matches_bytes(&self, s: Seq<u8>, p: int) -> bool {
        &&& self.filename@ == s.subrange(p, p + 12)
        &&& self.file_date == be32(s, p + 12)
        &&& self.file_time == be32(s, p + 16)
        &&& self.radar_id@ == s.subrange(p + 20, p + 24)
    }

    pub open spec fn wf(&self) -> bool {
        &&& self.filename@.len() == 12
        &&& self.radar_id@.len() == 4
    }

    /// Decodes the record at the cursor, advancing exactly past it.
    pub fn decode(cur: &mut ByteCursor) -> (r: Result<VolumeHeaderRecord, Error>)
        ensures
            final(cur).bytes() == old(cur).bytes(),
            r is Ok <==> old(cur).spec_pos() + VOLUME_HEADER_SIZE <= old(cur).bytes().len(),
            r matches Err(e) ==> e == Error::Truncated && final(cur).spec_pos() == old(
                cur,
            ).spec_pos(),
            r matches Ok(h) ==> {
                &&& final(cur).spec_pos() == old(cur).spec_pos() + VOLUME_HEADER_SIZE
                &&& h.matches_bytes(old(cur).bytes(), old(cur).spec_pos())
                &&& h.wf()
            },
    {
        match cur.demand(VOLUME_HEADER_SIZE) {
            Ok(()) => {},
            Err(e) => {
                return Err(e);
            },
        }
        let filename = cur.take_bytes(12);
        let file_date = cur.take_u32();
        let file_time = cur.take_u32();
        let radar_id = cur.take_bytes(4);
        Ok(VolumeHeaderRecord { filename, file_date, file_time, radar_id })
    }

    /// Filename of the archive.
    pub fn filename(&self) -> (r: &Vec<u8>)
        ensures
            r@ == self.filename@,
    {
        &self.filename
    }

    /// Modified Julian date of the file.
    pub fn file_date(&self) -> (r: u32)
        ensures
            r == self.file_date,
    {
        self.file_date
    }

    /// Milliseconds of day since midnight of the file.
    pub fn file_time(&self) -> (r: u32)
        ensures
            r == self.file_time,
    {
        self.file_time
    }

    /// ICAO radar identifier in ASCII.
    pub fn radar_id(&self) -> (r: &Vec<u8>)
        ensures
            r@ == self.radar_id@,
    {
        &self.radar_id
    }
}

/// Common envelope of every message frame; decides decode-versus-skip.
pub struct MessageHeader {
    /// 12 bytes inserted by the RPG communications manager; ignored.
    pub rpg: Vec<u8>,
    /// Message size for this segment, in halfwords.
    pub msg_size: u16,
    /// RDA redundant channel.
    pub channel: u8,
    /// Message type; per-radial data is type 31.
    pub msg_type: u8,
    /// Message sequence number.
    pub id_seq: u16,
    /// Modified Julian date.
    pub msg_date: u16,
    /// Packet generation time in milliseconds past midnight.
    pub msg_time: u32,
    /// Number of segments for this message.
    pub num_segs: u16,
    /// Number of this segment.
    pub seg_num: u16,
}

impl MessageHeader {
    /// The fields are exactly the packed big-endian record at offset `p` of `s`.
    pub open spec fn matches_bytes(&self, s: Seq<u8>, p: int) -> bool {
        &&& self.rpg@ == s.subrange(p, p + 12)
        &&& self.msg_size == be16(s, p + 12)
        &&& self.channel == s[p + 14]
        &&& self.msg_type == s[p + 15]
        &&& self.id_seq == be16(s, p + 16)
        &&& self.msg_date == be16(s, p + 18)
        &&& self.msg_time == be32(s, p + 20)
        &&& self.num_segs == be16(s, p + 24)
        &&& self.seg_num == be16(s, p + 26)
    }

    pub open spec fn wf(&self) -> bool {
        self.rpg@.len() == 12
    }

    /// Decodes the record at the cursor, advancing exactly past it.
    pub fn decode(cur: &mut ByteCursor) -> (r: Result<MessageHeader, Error>)
        ensures
            final(cur).bytes() == old(cur).bytes(),
            r is Ok <==> old(cur).spec_pos() + MESSAGE_HEADER_SIZE <= old(cur).bytes().len(),
            r matches Err(e) ==> e == Error::Truncated && final(cur).spec_pos() == old(
                cur,
            ).spec_pos(),
            r matches Ok(h) ==> {
                &&& final(cur).spec_pos() == old(cur).spec_pos() + MESSAGE_HEADER_SIZE
                &&& h.matches_bytes(old(cur).bytes(), old(cur).spec_pos())
                &&& h.wf()
            },
    {
        match cur.demand(MESSAGE_HEADER_SIZE) {
            Ok(()) => {},
            Err(e) => {
                return Err(e);
            },
        }
        let rpg = cur.take_bytes(12);
        let msg_size = cur.take_u16();
        let channel = cur.take_u8();
        let msg_type = cur.take_u8();
        let id_seq = cur.take_u16();
        let msg_date = cur.take_u16();
        let msg_time = cur.take_u32();
        let num_segs = cur.take_u16();
        let seg_num = cur.take_u16();
        Ok(
            MessageHeader {
                rpg,
                msg_size,
                channel,
                msg_type,
                id_seq,
                msg_date,
                msg_time,
                num_segs,
                seg_num,
            },
        )
    }

    /// 12 bytes inserted by the RPG communications manager. Ignored.
    pub fn rpg(&self) -> (r: &Vec<u8>)
        ensures
            r@ == self.rpg@,
    {
        &self.rpg
    }

    /// Message size for this segment, in halfwords.
    pub fn msg_size(&self) -> (r: u16)
        ensures
            r == self.msg_size,
    {
        self.msg_size
    }

    /// RDA redundant channel.
    pub fn channel(&self) -> (r: u8)
        ensures
            r == self.channel,
    {
        self.channel
    }

    /// Message type. For example, 31.
    pub fn msg_type(&self) -> (r: u8)
        ensures
            r == self.msg_type,
    {
        self.msg_type
    }

    /// Message sequence number.
    pub fn id_seq(&self) -> (r: u16)
        ensures
            r == self.id_seq,
    {
        self.id_seq
    }

    /// Modified Julian date.
    pub fn msg_date(&self) -> (r: u16)
        ensures
            r == self.msg_date,
    {
        self.msg_date
    }

    /// Packet generation time in milliseconds past midnight.
    pub fn msg_time(&self) -> (r: u32)
        ensures
            r == self.msg_time,
    {
        self.msg_time
    }

    /// Number of segments for this message.
    pub fn num_segs(&self) -> (r: u16)
        ensures
            r == self.num_segs,
    {
        self.num_segs
    }

    /// Number of this segment.
    pub fn seg_num(&self) -> (r: u16)
        ensures
            r == self.seg_num,
    {
        self.seg_num
    }
}

/// The kind of sub-block a 4-byte tag announces.
#[derive(Clone, Copy, Debug, PartialEq, Eq, Structural)]
pub enum DataBlockProduct {
    Reflectivity,
    Velocity,
    SpectrumWidth,
    DifferentialReflectivity,
    DifferentialPhase,
    CorrelationCoefficient,
    ClutterFilterProbability,
    VolumeData,
    ElevationData,
    RadialData,
}

/// Resolves a 3-byte tag name against the exact known product set.
pub open spec fn spec_product3(a: u8, b: u8, c: u8) -> Option<DataBlockProduct> {
    if a == 82 && b == 69 && c == 70 {  // REF
        Some(DataBlockProduct::Reflectivity)
    } else if a == 86 && b == 69 && c == 76 {  // VEL
        Some(DataBlockProduct::Velocity)
    } else if a == 83 && b == 87 && c == 32 {  // SW(space)
        Some(DataBlockProduct::SpectrumWidth)
    } else if a == 90 && b == 68 && c == 82 {  // ZDR
        Some(DataBlockProduct::DifferentialReflectivity)
    } else if a == 80 && b == 72 && c == 73 {  // PHI
        Some(DataBlockProduct::DifferentialPhase)
    } else if a == 82 && b == 72 && c == 79 {  // RHO
        Some(DataBlockProduct::CorrelationCoefficient)
    } else if a == 67 && b == 70 && c == 80 {  // CFP
        Some(DataBlockProduct::ClutterFilterProbability)
    } else if a == 86 && b == 79 && c == 76 {  // VOL
        Some(DataBlockProduct::VolumeData)
    } else if a == 82 && b == 65 && c == 68 {  // RAD
        Some(DataBlockProduct::RadialData)
    } else if a == 69 && b == 76 && c == 86 {  // ELV
        Some(DataBlockProduct::ElevationData)
    } else {
        None
    }
}

/// Resolves a tag name sequence; anything but a known 3-byte name is unknown.
pub open spec fn spec_product(name: Seq<u8>) -> Option<DataBlockProduct> {
    if name.len() == 3 {
        spec_product3(name[0], name[1], name[2])
    } else {
        None
    }
}

/// Whether the product is a moment kind (has a `GenericData` sub-block),
/// as opposed to one of the three fixed metadata sub-blocks.
pub open spec fn spec_is_moment(p: DataBlockProduct) -> bool {
    match p {
        DataBlockProduct::VolumeData => false,
        DataBlockProduct::ElevationData => false,
        DataBlockProduct::RadialData => false,
        _ => true,
    }
}

impl DataBlockProduct {
    /// Resolves a 3-byte tag name; an unknown name is an `UnhandledProduct`
    /// error, which aborts the whole-file decode.
    pub fn from_tag(a: u8, b: u8, c: u8) -> (r: Result<DataBlockProduct, Error>)
        ensures
            match spec_product3(a, b, c) {
                Some(p) => r == Ok::<DataBlockProduct, Error>(p),
                None => r == Err::<DataBlockProduct, Error>(Error::UnhandledProduct),
            },
    {
        if a == 82 && b == 69 && c == 70 {
            Ok(DataBlockProduct::Reflectivity)
        } else if a == 86 && b == 69 && c == 76 {
            Ok(DataBlockProduct::Velocity)
        } else if a == 83 && b == 87 && c == 32 {
            Ok(DataBlockProduct::SpectrumWidth)
        } else if a == 90 && b == 68 && c == 82 {
            Ok(DataBlockProduct::DifferentialReflectivity)
        } else if a == 80 && b == 72 && c == 73 {
            Ok(DataBlockProduct::DifferentialPhase)
        } else if a == 82 && b == 72 && c == 79 {
            Ok(DataBlockProduct::CorrelationCoefficient)
        } else if a == 67 && b == 70 && c == 80 {
            Ok(DataBlockProduct::ClutterFilterProbability)
        } else if a == 86 && b == 79 && c == 76 {
            Ok(DataBlockProduct::VolumeData)
        } else if a == 82 && b == 65 && c == 68 {
            Ok(DataBlockProduct::RadialData)
        } else if a == 69 && b == 76 && c == 86 {
            Ok(DataBlockProduct::ElevationData)
        } else {
            Err(Error::UnhandledProduct)
        }
    }

    /// Whether this product is a moment kind.
    pub fn is_moment(&self) -> (r: bool)
        ensures
            r == spec_is_moment(*self),
    {
        match self {
            DataBlockProduct::VolumeData => false,
            DataBlockProduct::ElevationData => false,
            DataBlockProduct::RadialData => false,
            _ => true,
        }
    }
}

/// A moment product a consumer can ask for by name, case-insensitively.
#[derive(Clone, Copy, Debug, PartialEq, Eq, PartialOrd, Ord, Structural)]
pub enum Product {
    Reflectivity,
    Velocity,
    SpectrumWidth,
    DifferentialReflectivity,
    DifferentialPhase,
    CorrelationCoefficient,
    ClutterFilterProbability,
}

/// ASCII lowercase folding of one byte.
pub open spec fn ascii_lower(b: u8) -> u8 {
    if 65 <= b <= 90 {
        (b + 32) as u8
    } else {
        b
    }
}

/// Resolves a lowercase 3-byte name against the moment product set.
pub open spec fn spec_product_lower3(a: u8, b: u8, c: u8) -> Option<Product> {
    if a == 114 && b == 101 && c == 102 {  // ref
        Some(Product::Reflectivity)
    } else if a == 118 && b == 101 && c == 108 {  // vel
        Some(Product::Velocity)
    } else if a == 115 && b == 119 && c == 32 {  // sw(space)
        Some(Product::SpectrumWidth)
    } else if a == 122 && b == 100 && c == 114 {  // zdr
        Some(Product::DifferentialReflectivity)
    } else if a == 112 && b == 104 && c == 105 {  // phi
        Some(Product::DifferentialPhase)
    } else if a == 114 && b == 104 && c == 111 {  // rho
        Some(Product::CorrelationCoefficient)
    } else if a == 99 && b == 102 && c == 112 {  // cfp
        Some(Product::ClutterFilterProbability)
    } else {
        None
    }
}

/// Case-insensitive resolution of a product name's bytes.
pub open spec fn spec_product_ci(name: Seq<u8>) -> Option<Product> {
    if name.len() == 3 {
        spec_product_lower3(ascii_lower(name[0]), ascii_lower(name[1]), ascii_lower(name[2]))
    } else {
        None
    }
}

impl Product {
    /// Resolves a product name case-insensitively; anything but a known
    /// 3-character name is an `UnhandledProduct` error.
    pub fn from_str(s: &str) -> (r: Result<Product, Error>)
        ensures
            match spec_product_ci(s.spec_bytes()) {
                Some(p) => r == Ok::<Product, Error>(p),
                None => r == Err::<Product, Error>(Error::UnhandledProduct),
            },
    {
        let bytes = s.as_bytes();
        if bytes.len() != 3 {
            return Err(Error::UnhandledProduct);
        }
        let a = lower_byte(bytes[0]);
        let b = lower_byte(bytes[1]);
        let c = lower_byte(bytes[2]);
        if a == 114 && b == 101 && c == 102 {
            Ok(Product::Reflectivity)
        } else if a == 118 && b == 101 && c == 108 {
            Ok(Product::Velocity)
        } else if a == 115 && b == 119 && c == 32 {
            Ok(Product::SpectrumWidth)
        } else if a == 122 && b == 100 && c == 114 {
            Ok(Product::DifferentialReflectivity)
        } else if a == 112 && b == 104 && c == 105 {
            Ok(Product::DifferentialPhase)
        } else if a == 114 && b == 104 && c == 111 {
            Ok(Product::CorrelationCoefficient)
        } else if a == 99 && b == 102 && c == 112 {
            Ok(Product::ClutterFilterProbability)
        } else {
            Err(Error::UnhandledProduct)
        }
    }
}

/// ASCII lowercase folding of one byte.
fn lower_byte(b: u8) -> (r: u8)
    ensures
        r == ascii_lower(b),
{
    if 65 <= b && b <= 90 {
        b + 32
    } else {
        b
    }
}

/// The sub-block kind a consumer-facing product names.
pub open spec fn spec_block_product_of(product: Product) -> DataBlockProduct {
    match product {
        Product::Reflectivity => DataBlockProduct::Reflectivity,
        Product::Velocity => DataBlockProduct::Velocity,
        Product::SpectrumWidth => DataBlockProduct::SpectrumWidth,
        Product::DifferentialReflectivity => DataBlockProduct::DifferentialReflectivity,
        Product::DifferentialPhase => DataBlockProduct::DifferentialPhase,
        Product::CorrelationCoefficient => DataBlockProduct::CorrelationCoefficient,
        Product::ClutterFilterProbability => DataBlockProduct::ClutterFilterProbability,
    }
}

impl From<Product> for DataBlockProduct {
    fn from(product: Product) -> Self {
        match product {
            Product::Reflectivity => DataBlockProduct::Reflectivity,
            Product::Velocity => DataBlockProduct::Velocity,
            Product::SpectrumWidth => DataBlockProduct::SpectrumWidth,
            Product::DifferentialReflectivity => DataBlockProduct::DifferentialReflectivity,
            Product::DifferentialPhase => DataBlockProduct::DifferentialPhase,
            Product::CorrelationCoefficient => DataBlockProduct::CorrelationCoefficient,
            Product::ClutterFilterProbability => DataBlockProduct::ClutterFilterProbability,
        }
    }
}

impl vstd::std_specs::convert::FromSpecImpl<Product> for DataBlockProduct {
    open spec fn obeys_from_spec() -> bool {
        true
    }

    open spec fn from_spec(product: Product) -> Self {
        spec_block_product_of(product)
    }
}

/// Introduces a data block containing data, such as VEL, REF, etc.
pub struct DataBlockHeader {
    /// 1-byte block type.
    pub data_block_type: Vec<u8>,
    /// 3-byte ASCII name, e.g. "REF", "VEL".
    pub data_name: Vec<u8>,
}

impl DataBlockHeader {
    /// The fields are exactly the packed record at offset `p` of `s`.
    pub open spec fn matches_bytes(&self, s: Seq<u8>, p: int) -> bool {
        &&& self.data_block_type@ == s.subrange(p, p + 1)
        &&& self.data_name@ == s.subrange(p + 1, p + 4)
    }

    pub open spec fn wf(&self) -> bool {
        &&& self.data_block_type@.len() == 1
        &&& self.data_name@.len() == 3
    }

    /// Decodes the 4-byte tag at the cursor, advancing exactly past it.
    pub fn decode(cur: &mut ByteCursor) -> (r: Result<DataBlockHeader, Error>)
        ensures
            final(cur).bytes() == old(cur).bytes(),
            r is Ok <==> old(cur).spec_pos() + DATA_BLOCK_HEADER_SIZE <= old(cur).bytes().len(),
            r matches Err(e) ==> e == Error::Truncated && final(cur).spec_pos() == old(
                cur,
            ).spec_pos(),
            r matches Ok(h) ==> {
                &&& final(cur).spec_pos() == old(cur).spec_pos() + DATA_BLOCK_HEADER_SIZE
                &&& h.matches_bytes(old(cur).bytes(), old(cur).spec_pos())
                &&& h.wf()
            },
    {
        match cur.demand(DATA_BLOCK_HEADER_SIZE) {
            Ok(()) => {},
            Err(e) => {
                return Err(e);
            },
        }
        let data_block_type = cur.take_bytes(1);
        let data_name = cur.take_bytes(3);
        Ok(DataBlockHeader { data_block_type, data_name })
    }

    pub fn data_block_type(&self) -> (r: &Vec<u8>)
        ensures
            r@ == self.data_block_type@,
    {
        &self.data_block_type
    }

    /// Data name, e.g. "REF", "VEL", etc.
    pub fn data_name(&self) -> (r: &Vec<u8>)
        ensures
            r@ == self.data_name@,
    {
        &self.data_name
    }

    /// Resolves the tag name against the known product set.
    pub fn data_block_product(&self) -> (r: Result<DataBlockProduct, Error>)
        requires
            self.wf(),
        ensures
            match spec_product(self.data_name@) {
                Some(p) => r == Ok::<DataBlockProduct, Error>(p),
                None => r == Err::<DataBlockProduct, Error>(Error::UnhandledProduct),
            },
    {
        DataBlockProduct::from_tag(self.data_name[0], self.data_name[1], self.data_name[2])
    }
}

/// Header of one type-31 radial.
pub struct Message31Header {
    /// Radar site identifier, 4 ASCII bytes.
    pub radar_id: Vec<u8>,
    /// Data collection time in milliseconds past midnight GMT.
    pub ray_time: u32,
    /// Modified Julian date of the ray.
    pub ray_date: u16,
    /// Radial number within the elevation scan.
    pub azm_num: u16,
    /// Azimuth angle in degrees; IEEE-754 single-precision bit pattern.
    pub azm: u32,
    /// 0 = uncompressed, 1 = BZIP2, 2 = zlib.
    pub compression_code: u8,
    /// For word alignment.
    pub spare: u8,
    /// Radial length in bytes, including the data header block.
    pub radial_len: u16,
    /// Azimuthal resolution.
    pub azm_res: u8,
    /// Radial status.
    pub radial_status: u8,
    /// Elevation number; the key this radial is grouped under.
    pub elev_num: u8,
    /// Sector cut number.
    pub sector_cut_num: u8,
    /// Elevation angle in degrees; IEEE-754 single-precision bit pattern.
    pub elev: u32,
    /// Radial spot blanking.
    pub radial_spot_blanking: u8,
    /// Azimuth indexing mode.
    pub azm_indexing_mode: u8,
    /// How many pointer-table entries follow this header.
    pub data_block_count: u16,
}

impl Message31Header {
    /// The fields are exactly the packed big-endian record at offset `p` of `s`.
    pub open spec fn matches_bytes(&self, s: Seq<u8>, p: int) -> bool {
        &&& self.radar_id@ == s.subrange(p, p + 4)
        &&& self.ray_time == be32(s, p + 4)
        &&& self.ray_date == be16(s, p + 8)
        &&& self.azm_num == be16(s, p + 10)
        &&& self.azm == be32(s, p + 12)
        &&& self.compression_code == s[p + 16]
        &&& self.spare == s[p + 17]
        &&& self.radial_len == be16(s, p + 18)
        &&& self.azm_res == s[p + 20]
        &&& self.radial_status == s[p + 21]
        &&& self.elev_num == s[p + 22]
        &&& self.sector_cut_num == s[p + 23]
        &&& self.elev == be32(s, p + 24)
        &&& self.radial_spot_blanking == s[p + 28]
        &&& self.azm_indexing_mode == s[p + 29]
        &&& self.data_block_count == be16(s, p + 30)
    }

    pub open spec fn wf(&self) -> bool {
        self.radar_id@.len() == 4
    }

    /// Decodes the record at the cursor, advancing exactly past it.
    pub fn decode(cur: &mut ByteCursor) -> (r: Result<Message31Header, Error>)
        ensures
            final(cur).bytes() == old(cur).bytes(),
            r is Ok <==> old(cur).spec_pos() + MESSAGE31_HEADER_SIZE <= old(cur).bytes().len(),
            r matches Err(e) ==> e == Error::Truncated && final(cur).spec_pos() == old(
                cur,
            ).spec_pos(),
            r matches Ok(h) ==> {
                &&& final(cur).spec_pos() == old(cur).spec_pos() + MESSAGE31_HEADER_SIZE
                &&& h.matches_bytes(old(cur).bytes(), old(cur).spec_pos())
                &&& h.wf()
            },
    {
        match cur.demand(MESSAGE31_HEADER_SIZE) {
            Ok(()) => {},
            Err(e) => {
                return Err(e);
            },
        }
        let radar_id = cur.take_bytes(4);
        let ray_time = cur.take_u32();
        let ray_date = cur.take_u16();
        let azm_num = cur.take_u16();
        let azm = cur.take_u32();
        let compression_code = cur.take_u8();
        let spare = cur.take_u8();
        let radial_len = cur.take_u16();
        let azm_res = cur.take_u8();
        let radial_status = cur.take_u8();
        let elev_num = cur.take_u8();
        let sector_cut_num = cur.take_u8();
        let elev = cur.take_u32();
        let radial_spot_blanking = cur.take_u8();
        let azm_indexing_mode = cur.take_u8();
        let data_block_count = cur.take_u16();
        Ok(
            Message31Header {
                radar_id,
                ray_time,
                ray_date,
                azm_num,
                azm,
                compression_code,
                spare,
                radial_len,
                azm_res,
                radial_status,
                elev_num,
                sector_cut_num,
                elev,
                radial_spot_blanking,
                azm_indexing_mode,
                data_block_count,
            },
        )
    }

    /// Radar site identifier.
    pub fn radar_id(&self) -> (r: &Vec<u8>)
        ensures
            r@ == self.radar_id@,
    {
        &self.radar_id
    }

    /// Data collection time in milliseconds past midnight GMT.
    pub fn ray_time(&self) -> (r: u32)
        ensures
            r == self.ray_time,
    {
        self.ray_time
    }

    /// Modified Julian date of the ray.
    pub fn ray_date(&self) -> (r: u16)
        ensures
            r == self.ray_date,
    {
        self.ray_date
    }

    /// Radial number within the elevation scan.
    pub fn azm_num(&self) -> (r: u16)
        ensures
            r == self.azm_num,
    {
        self.azm_num
    }

    /// Azimuth angle in degrees, as its IEEE-754 bit pattern.
    pub fn azm(&self) -> (r: u32)
        ensures
            r == self.azm,
    {
        self.azm
    }

    /// 0 = uncompressed, 1 = BZIP2, 2 = zlib.
    pub fn compression_code(&self) -> (r: u8)
        ensures
            r == self.compression_code,
    {
        self.compression_code
    }

    /// For word alignment.
    pub fn spare(&self) -> (r: u8)
        ensures
            r == self.spare,
    {
        self.spare
    }

    /// Radial length in bytes, including data header block.
    pub fn radial_len(&self) -> (r: u16)
        ensures
            r == self.radial_len,
    {
        self.radial_len
    }

    /// Azimuthal resolution.
    pub fn azm_res(&self) -> (r: u8)
        ensures
            r == self.azm_res,
    {
        self.azm_res
    }

    /// Radial status.
    pub fn radial_status(&self) -> (r: u8)
        ensures
            r == self.radial_status,
    {
        self.radial_status
    }

    /// Elevation number.
    pub fn elev_num(&self) -> (r: u8)
        ensures
            r == self.elev_num,
    {
        self.elev_num
    }

    /// Sector cut number.
    pub fn sector_cut_num(&self) -> (r: u8)
        ensures
            r == self.sector_cut_num,
    {
        self.sector_cut_num
    }

    /// Elevation angle in degrees, as its IEEE-754 bit pattern.
    pub fn elev(&self) -> (r: u32)
        ensures
            r == self.elev,
    {
        self.elev
    }

    /// Radial spot blanking.
    pub fn radial_spot_blanking(&self) -> (r: u8)
        ensures
            r == self.radial_spot_blanking,
    {
        self.radial_spot_blanking
    }

    /// Azimuth indexing mode.
    pub fn azm_indexing_mode(&self) -> (r: u8)
        ensures
            r == self.azm_indexing_mode,
    {
        self.azm_indexing_mode
    }

    /// Data block count.
    pub fn data_block_count(&self) -> (r: u16)
        ensures
            r == self.data_block_count,
    {
        self.data_block_count
    }
}

/// Per-volume coordinates and calibration metadata; at most one per radial.
pub struct VolumeData {
    pub data_block_header: DataBlockHeader,
    /// Size of data block in bytes.
    pub lrtup: u16,
    pub version_major: u8,
    pub version_minor: u8,
    /// Latitude in degrees; IEEE-754 single-precision bit pattern.
    pub lat: u32,
    /// Longitude in degrees; IEEE-754 single-precision bit pattern.
    pub long: u32,
    pub site_height: u16,
    pub feedhorn_height: u16,
    /// IEEE-754 single-precision bit pattern.
    pub calibration_constant: u32,
    /// IEEE-754 single-precision bit pattern.
    pub shvtx_power_hor: u32,
    /// IEEE-754 single-precision bit pattern.
    pub shvtx_power_ver: u32,
    /// IEEE-754 single-precision bit pattern.
    pub system_differential_reflectivity: u32,
    /// IEEE-754 single-precision bit pattern.
    pub initial_system_differential_phase: u32,
    pub volume_coverage_pattern_number: u16,
    pub processing_status: u16,
}

impl VolumeData {
    /// The fields are exactly the packed big-endian record at offset `p` of `s`.
    pub open spec fn matches_bytes(&self, s: Seq<u8>, p: int) -> bool {
        &&& self.data_block_header.matches_bytes(s, p)
        &&& self.lrtup == be16(s, p + 4)
        &&& self.version_major == s[p + 6]
        &&& self.version_minor == s[p + 7]
        &&& self.lat == be32(s, p + 8)
        &&& self.long == be32(s, p + 12)
        &&& self.site_height == be16(s, p + 16)
        &&& self.feedhorn_height == be16(s, p + 18)
        &&& self.calibration_constant == be32(s, p + 20)
        &&& self.shvtx_power_hor == be32(s, p + 24)
        &&& self.shvtx_power_ver == be32(s, p + 28)
        &&& self.system_differential_reflectivity == be32(s, p + 32)
        &&& self.initial_system_differential_phase == be32(s, p + 36)
        &&& self.volume_coverage_pattern_number == be16(s, p + 40)
        &&& self.processing_status == be16(s, p + 42)
    }

    pub open spec fn wf(&self) -> bool {
        &&& self.data_block_header.wf()
        &&& spec_product(self.data_block_header.data_name@) == Some(DataBlockProduct::VolumeData)
    }

    /// Decodes the record at the cursor, tag bytes included.
    pub fn decode(cur: &mut ByteCursor) -> (r: Result<VolumeData, Error>)
        ensures
            final(cur).bytes() == old(cur).bytes(),
            r is Ok <==> old(cur).spec_pos() + VOLUME_DATA_SIZE <= old(cur).bytes().len(),
            r matches Err(e) ==> e == Error::Truncated && final(cur).spec_pos() == old(
                cur,
            ).spec_pos(),
            r matches Ok(h) ==> {
                &&& final(cur).spec_pos() == old(cur).spec_pos() + VOLUME_DATA_SIZE
                &&& h.matches_bytes(old(cur).bytes(), old(cur).spec_pos())
                &&& h.data_block_header.wf()
            },
    {
        match cur.demand(VOLUME_DATA_SIZE) {
            Ok(()) => {},
            Err(e) => {
                return Err(e);
            },
        }
        let data_block_header = match DataBlockHeader::decode(cur) {
            Ok(h) => h,
            Err(e) => {
                return Err(e);
            },
        };
        let lrtup = cur.take_u16();
        let version_major = cur.take_u8();
        let version_minor = cur.take_u8();
        let lat = cur.take_u32();
        let long = cur.take_u32();
        let site_height = cur.take_u16();
        let feedhorn_height = cur.take_u16();
        let calibration_constant = cur.take_u32();
        let shvtx_power_hor = cur.take_u32();
        let shvtx_power_ver = cur.take_u32();
        let system_differential_reflectivity = cur.take_u32();
        let initial_system_differential_phase = cur.take_u32();
        let volume_coverage_pattern_number = cur.take_u16();
        let processing_status = cur.take_u16();
        Ok(
            VolumeData {
                data_block_header,
                lrtup,
                version_major,
                version_minor,
                lat,
                long,
                site_height,
                feedhorn_height,
                calibration_constant,
                shvtx_power_hor,
                shvtx_power_ver,
                system_differential_reflectivity,
                initial_system_differential_phase,
                volume_coverage_pattern_number,
                processing_status,
            },
        )
    }

    pub fn data_block_header(&self) -> (r: &DataBlockHeader)
        ensures
            r == self.data_block_header,
    {
        &self.data_block_header
    }

    /// Size of data block in bytes.
    pub fn lrtup(&self) -> (r: u16)
        ensures
            r == self.lrtup,
    {
        self.lrtup
    }

    pub fn version_major(&self) -> (r: u8)
        ensures
            r == self.version_major,
    {
        self.version_major
    }

    pub fn version_minor(&self) -> (r: u8)
        ensures
            r == self.version_minor,
    {
        self.version_minor
    }

    /// Latitude in degrees, as its IEEE-754 bit pattern.
    pub fn lat(&self) -> (r: u32)
        ensures
            r == self.lat,
    {
        self.lat
    }

    /// Longitude in degrees, as its IEEE-754 bit pattern.
    pub fn long(&self) -> (r: u32)
        ensures
            r == self.long,
    {
        self.long
    }

    pub fn site_height(&self) -> (r: u16)
        ensures
            r == self.site_height,
    {
        self.site_height
    }

    pub fn feedhorn_height(&self) -> (r: u16)
        ensures
            r == self.feedhorn_height,
    {
        self.feedhorn_height
    }

    /// Calibration constant, as its IEEE-754 bit pattern.
    pub fn calibration_constant(&self) -> (r: u32)
        ensures
            r == self.calibration_constant,
    {
        self.calibration_constant
    }

    pub fn shvtx_power_hor(&self) -> (r: u32)
        ensures
            r == self.shvtx_power_hor,
    {
        self.shvtx_power_hor
    }

    pub fn shvtx_power_ver(&self) -> (r: u32)
        ensures
            r == self.shvtx_power_ver,
    {
        self.shvtx_power_ver
    }

    pub fn system_differential_reflectivity(&self) -> (r: u32)
        ensures
            r == self.system_differential_reflectivity,
    {
        self.system_differential_reflectivity
    }

    pub fn initial_system_differential_phase(&self) -> (r: u32)
        ensures
            r == self.initial_system_differential_phase,
    {
        self.initial_system_differential_phase
    }

    pub fn volume_coverage_pattern_number(&self) -> (r: u16)
        ensures
            r == self.volume_coverage_pattern_number,
    {
        self.volume_coverage_pattern_number
    }

    pub fn processing_status(&self) -> (r: u16)
        ensures
            r == self.processing_status,
    {
        self.processing_status
    }
}

/// Per-elevation calibration metadata; at most one per radial.
pub struct ElevationData {
    pub data_block_header: DataBlockHeader,
    /// Size of data block in bytes.
    pub lrtup: u16,
    /// Atmospheric attenuation factor, 2 bytes.
    pub atmos: Vec<u8>,
    /// Reflectivity scaling constant; IEEE-754 single-precision bit pattern.
    pub calib_const: u32,
}

impl ElevationData {
    /// The fields are exactly the packed big-endian record at offset `p` of `s`.
    pub open spec fn matches_bytes(&self, s: Seq<u8>, p: int) -> bool {
        &&& self.data_block_header.matches_bytes(s, p)
        &&& self.lrtup == be16(s, p + 4)
        &&& self.atmos@ == s.subrange(p + 6, p + 8)
        &&& self.calib_const == be32(s, p + 8)
    }

    pub open spec fn wf(&self) -> bool {
        &&& self.data_block_header.wf()
        &&& self.atmos@.len() == 2
        &&& spec_product(self.data_block_header.data_name@) == Some(DataBlockProduct::ElevationData)
    }

    /// Decodes the record at the cursor, tag bytes included.
    pub fn decode(cur: &mut ByteCursor) -> (r: Result<ElevationData, Error>)
        ensures
            final(cur).bytes() == old(cur).bytes(),
            r is Ok <==> old(cur).spec_pos() + ELEVATION_DATA_SIZE <= old(cur).bytes().len(),
            r matches Err(e) ==> e == Error::Truncated && final(cur).spec_pos() == old(
                cur,
            ).spec_pos(),
            r matches Ok(h) ==> {
                &&& final(cur).spec_pos() == old(cur).spec_pos() + ELEVATION_DATA_SIZE
                &&& h.matches_bytes(old(cur).bytes(), old(cur).spec_pos())
                &&& h.data_block_header.wf()
                &&& h.atmos@.len() == 2
            },
    {
        match cur.demand(ELEVATION_DATA_SIZE) {
            Ok(()) => {},
            Err(e) => {
                return Err(e);
            },
        }
        let data_block_header = match DataBlockHeader::decode(cur) {
            Ok(h) => h,
            Err(e) => {
                return Err(e);
            },
        };
        let lrtup = cur.take_u16();
        let atmos = cur.take_bytes(2);
        let calib_const = cur.take_u32();
        Ok(ElevationData { data_block_header, lrtup, atmos, calib_const })
    }

    pub fn data_block_header(&self) -> (r: &DataBlockHeader)
        ensures
            r == self.data_block_header,
    {
        &self.data_block_header
    }

    /// Size of data block in bytes.
    pub fn lrtup(&self) -> (r: u16)
        ensures
            r == self.lrtup,
    {
        self.lrtup
    }

    /// Atmospheric attenuation factor.
    pub fn atmos(&self) -> (r: &Vec<u8>)
        ensures
            r@ == self.atmos@,
    {
        &self.atmos
    }

    /// Scaling constant used by the signal processor for this elevation to
    /// calculate reflectivity, as its IEEE-754 bit pattern.
    pub fn calib_const(&self) -> (r: u32)
        ensures
            r == self.calib_const,
    {
        self.calib_const
    }
}

/// Per-radial noise levels and calibration; at most one per radial.
pub struct RadialData {
    pub data_block_header: DataBlockHeader,
    /// Size of data block in bytes.
    pub lrtup: u16,
    /// Unambiguous range, interval size.
    pub unambiguous_range: u16,
    /// IEEE-754 single-precision bit pattern.
    pub noise_level_horz: u32,
    /// IEEE-754 single-precision bit pattern.
    pub noise_level_vert: u32,
    pub nyquist_velocity: u16,
    pub radial_flags: u16,
    /// IEEE-754 single-precision bit pattern.
    pub calib_const_horz_chan: u32,
    /// IEEE-754 single-precision bit pattern.
    pub calib_const_vert_chan: u32,
}

impl RadialData {
    /// The fields are exactly the packed big-endian record at offset `p` of `s`.
    pub open spec fn matches_bytes(&self, s: Seq<u8>, p: int) -> bool {
        &&& self.data_block_header.matches_bytes(s, p)
        &&& self.lrtup == be16(s, p + 4)
        &&& self.unambiguous_range == be16(s, p + 6)
        &&& self.noise_level_horz == be32(s, p + 8)
        &&& self.noise_level_vert == be32(s, p + 12)
        &&& self.nyquist_velocity == be16(s, p + 16)
        &&& self.radial_flags == be16(s, p + 18)
        &&& self.calib_const_horz_chan == be32(s, p + 20)
        &&& self.calib_const_vert_chan == be32(s, p + 24)
    }

    pub open spec fn wf(&self) -> bool {
        &&& self.data_block_header.wf()
        &&& spec_product(self.data_block_header.data_name@) == Some(DataBlockProduct::RadialData)
    }

    /// Decodes the record at the cursor, tag bytes included.
    pub fn decode(cur: &mut ByteCursor) -> (r: Result<RadialData, Error>)
        ensures
            final(cur).bytes() == old(cur).bytes(),
            r is Ok <==> old(cur).spec_pos() + RADIAL_DATA_SIZE <= old(cur).bytes().len(),
            r matches Err(e) ==> e == Error::Truncated && final(cur).spec_pos() == old(
                cur,
            ).spec_pos(),
            r matches Ok(h) ==> {
                &&& final(cur).spec_pos() == old(cur).spec_pos() + RADIAL_DATA_SIZE
                &&& h.matches_bytes(old(cur).bytes(), old(cur).spec_pos())
                &&& h.data_block_header.wf()
            },
    {
        match cur.demand(RADIAL_DATA_SIZE) {
            Ok(()) => {},
            Err(e) => {
                return Err(e);
            },
        }
        let data_block_header = match DataBlockHeader::decode(cur) {
            Ok(h) => h,
            Err(e) => {
                return Err(e);
            },
        };
        let lrtup = cur.take_u16();
        let unambiguous_range = cur.take_u16();
        let noise_level_horz = cur.take_u32();
        let noise_level_vert = cur.take_u32();
        let nyquist_velocity = cur.take_u16();
        let radial_flags = cur.take_u16();
        let calib_const_horz_chan = cur.take_u32();
        let calib_const_vert_chan = cur.take_u32();
        Ok(
            RadialData {
                data_block_header,
                lrtup,
                unambiguous_range,
                noise_level_horz,
                noise_level_vert,
                nyquist_velocity,
                radial_flags,
                calib_const_horz_chan,
                calib_const_vert_chan,
            },
        )
    }

    pub fn data_block_header(&self) -> (r: &DataBlockHeader)
        ensures
            r == self.data_block_header,
    {
        &self.data_block_header
    }

    /// Size of data block in bytes.
    pub fn lrtup(&self) -> (r: u16)
        ensures
            r == self.lrtup,
    {
        self.lrtup
    }

    /// Unambiguous range, interval size.
    pub fn unambiguous_range(&self) -> (r: u16)
        ensures
            r == self.unambiguous_range,
    {
        self.unambiguous_range
    }

    /// Horizontal-channel noise level, as its IEEE-754 bit pattern.
    pub fn noise_level_horz(&self) -> (r: u32)
        ensures
            r == self.noise_level_horz,
    {
        self.noise_level_horz
    }

    /// Vertical-channel noise level, as its IEEE-754 bit pattern.
    pub fn noise_level_vert(&self) -> (r: u32)
        ensures
            r == self.noise_level_vert,
    {
        self.noise_level_vert
    }

    pub fn nyquist_velocity(&self) -> (r: u16)
        ensures
            r == self.nyquist_velocity,
    {
        self.nyquist_velocity
    }

    pub fn radial_flags(&self) -> (r: u16)
        ensures
            r == self.radial_flags,
    {
        self.radial_flags
    }

    /// Horizontal-channel calibration constant, as its IEEE-754 bit pattern.
    pub fn calib_const_horz_chan(&self) -> (r: u32)
        ensures
            r == self.calib_const_horz_chan,
    {
        self.calib_const_horz_chan
    }

    /// Vertical-channel calibration constant, as its IEEE-754 bit pattern.
    pub fn calib_const_vert_chan(&self) -> (r: u32)
        ensures
            r == self.calib_const_vert_chan,
    {
        self.calib_const_vert_chan
    }
}

/// Sampling geometry and scaling for one moment kind, followed on the wire
/// by the raw sample array.
pub struct GenericData {
    /// 1-byte block type.
    pub data_block_type: Vec<u8>,
    /// 3-byte ASCII name of the moment kind.
    pub data_name: Vec<u8>,
    pub reserved: u32,
    /// Number of data moment gates for the current radial.
    pub number_data_moment_gates: u16,
    /// Range to the center of the first range gate.
    pub data_moment_range: u16,
    /// Size of the data moment sample interval.
    pub data_moment_range_sample_interval: u16,
    /// Overlay threshold parameter.
    pub tover: u16,
    /// SNR threshold for valid data.
    pub snr_threshold: u16,
    /// Special control features.
    pub control_flags: u8,
    /// Number of bits used for storing each data moment gate.
    pub data_word_size: u8,
    /// Scale for raw-to-physical conversion; IEEE-754 bit pattern.
    pub scale: u32,
    /// Offset for raw-to-physical conversion; IEEE-754 bit pattern.
    pub offset: u32,
}

/// How many raw sample bytes follow a `GenericData` record.
pub open spec fn spec_moment_size(g: GenericData) -> int {
    g.number_data_moment_gates * g.data_word_size / 8
}

impl GenericData {
    /// The fields are exactly the packed big-endian record at offset `p` of `s`.
    pub open spec fn matches_bytes(&self, s: Seq<u8>, p: int) -> bool {
        &&& self.data_block_type@ == s.subrange(p, p + 1)
        &&& self.data_name@ == s.subrange(p + 1, p + 4)
        &&& self.reserved == be32(s, p + 4)
        &&& self.number_data_moment_gates == be16(s, p + 8)
        &&& self.data_moment_range == be16(s, p + 10)
        &&& self.data_moment_range_sample_interval == be16(s, p + 12)
        &&& self.tover == be16(s, p + 14)
        &&& self.snr_threshold == be16(s, p + 16)
        &&& self.control_flags == s[p + 18]
        &&& self.data_word_size == s[p + 19]
        &&& self.scale == be32(s, p + 20)
        &&& self.offset == be32(s, p + 24)
    }

    pub open spec fn wf(&self) -> bool {
        &&& self.data_block_type@.len() == 1
        &&& self.data_name@.len() == 3
    }

    /// Decodes the record at the cursor, tag bytes included but the raw
    /// sample array excluded.
    pub fn decode(cur: &mut ByteCursor) -> (r: Result<GenericData, Error>)
        ensures
            final(cur).bytes() == old(cur).bytes(),
            r is Ok <==> old(cur).spec_pos() + GENERIC_DATA_SIZE <= old(cur).bytes().len(),
            r matches Err(e) ==> e == Error::Truncated && final(cur).spec_pos() == old(
                cur,
            ).spec_pos(),
            r matches Ok(h) ==> {
                &&& final(cur).spec_pos() == old(cur).spec_pos() + GENERIC_DATA_SIZE
                &&& h.matches_bytes(old(cur).bytes(), old(cur).spec_pos())
                &&& h.wf()
            },
    {
        match cur.demand(GENERIC_DATA_SIZE) {
            Ok(()) => {},
            Err(e) => {
                return Err(e);
            },
        }
        let data_block_type = cur.take_bytes(1);
        let data_name = cur.take_bytes(3);
        let reserved = cur.take_u32();
        let number_data_moment_gates = cur.take_u16();
        let data_moment_range = cur.take_u16();
        let data_moment_range_sample_interval = cur.take_u16();
        let tover = cur.take_u16();
        let snr_threshold = cur.take_u16();
        let control_flags = cur.take_u8();
        let data_word_size = cur.take_u8();
        let scale = cur.take_u32();
        let offset = cur.take_u32();
        Ok(
            GenericData {
                data_block_type,
                data_name,
                reserved,
                number_data_moment_gates,
                data_moment_range,
                data_moment_range_sample_interval,
                tover,
                snr_threshold,
                control_flags,
                data_word_size,
                scale,
                offset,
            },
        )
    }

    pub fn data_block_type(&self) -> (r: &Vec<u8>)
        ensures
            r@ == self.data_block_type@,
    {
        &self.data_block_type
    }

    pub fn data_name(&self) -> (r: &Vec<u8>)
        ensures
            r@ == self.data_name@,
    {
        &self.data_name
    }

    pub fn reserved(&self) -> (r: u32)
        ensures
            r == self.reserved,
    {
        self.reserved
    }

    /// Number of data moment gates for the current radial.
    pub fn number_data_moment_gates(&self) -> (r: u16)
        ensures
            r == self.number_data_moment_gates,
    {
        self.number_data_moment_gates
    }

    /// Range to the center of the first range gate.
    pub fn data_moment_range(&self) -> (r: u16)
        ensures
            r == self.data_moment_range,
    {
        self.data_moment_range
    }

    /// Size of the data moment sample interval.
    pub fn data_moment_range_sample_interval(&self) -> (r: u16)
        ensures
            r == self.data_moment_range_sample_interval,
    {
        self.data_moment_range_sample_interval
    }

    /// Overlay threshold parameter.
    pub fn tover(&self) -> (r: u16)
        ensures
            r == self.tover,
    {
        self.tover
    }

    /// SNR threshold for valid data.
    pub fn snr_threshold(&self) -> (r: u16)
        ensures
            r == self.snr_threshold,
    {
        self.snr_threshold
    }

    /// Special control features.
    pub fn control_flags(&self) -> (r: u8)
        ensures
            r == self.control_flags,
    {
        self.control_flags
    }

    /// Number of bits used for storing each data moment gate.
    pub fn data_word_size(&self) -> (r: u8)
        ensures
            r == self.data_word_size,
    {
        self.data_word_size
    }

    /// Scale for raw-to-physical conversion, as its IEEE-754 bit pattern.
    pub fn scale(&self) -> (r: u32)
        ensures
            r == self.scale,
    {
        self.scale
    }

    /// Offset for raw-to-physical conversion, as its IEEE-754 bit pattern.
    pub fn offset(&self) -> (r: u32)
        ensures
            r == self.offset,
    {
        self.offset
    }

    /// How many raw sample bytes follow this record on the wire.
    pub fn moment_size(&self) -> (r: usize)
        ensures
            r == spec_moment_size(*self),
    {
        let g = self.number_data_moment_gates;
        let w = self.data_word_size;
        proof {
            assert(g as int * w as int <= 65535 * 255) by (nonlinear_arith)
                requires
                    g <= 65535,
                    w <= 255,
            ;
        }
        g as usize * w as usize / 8
    }
}

/// One decoded moment sub-block: its kind, its sampling geometry, and the
/// raw sample array that followed it on the wire.
pub struct DataMoment {
    /// Which moment kind the sub-block's own tag announced.
    pub product: DataBlockProduct,
    /// The sampling geometry and scaling record.
    pub data: GenericData,
    /// The raw sample array, exactly as read from the wire.
    pub moment_data: Vec<u8>,
}

impl DataMoment {
    /// A moment sub-block is well formed when its stored kind is a moment
    /// kind, matches the tag its record carries, and its sample array holds
    /// exactly `number_data_moment_gates * data_word_size / 8` bytes.
    pub open spec fn wf(&self) -> bool {
        &&& self.data.wf()
        &&& spec_is_moment(self.product)
        &&& spec_product(self.data.data_name@) == Some(self.product)
        &&& self.moment_data@.len() == spec_moment_size(self.data)
    }

    pub fn new(product: DataBlockProduct, data: GenericData, moment_data: Vec<u8>) -> (m:
        DataMoment)
        ensures
            m.product == product,
            m.data == data,
            m.moment_data == moment_data,
    {
        DataMoment { product, data, moment_data }
    }

    pub fn data(&self) -> (r: &GenericData)
        ensures
            r == self.data,
    {
        &self.data
    }

    pub fn moment_data(&self) -> (r: &Vec<u8>)
        ensures
            r@ == self.moment_data@,
    {
        &self.moment_data
    }

    /// The raw code of gate `i`, read at the stored word size: one byte per
    /// gate for 8-bit words, a big-endian pair for 16-bit words.
    pub fn gate_code(&self, i: usize) -> (r: Option<u16>)
        requires
            self.wf(),
        ensures
            self.data.data_word_size == 8 ==> r == if i < self.data.number_data_moment_gates {
                Some(self.moment_data@[i as int] as u16)
            } else {
                None::<u16>
            },
            self.data.data_word_size == 16 ==> r == if i < self.data.number_data_moment_gates {
                Some((be16(self.moment_data@, 2 * i)) as u16)
            } else {
                None::<u16>
            },
            self.data.data_word_size != 8 && self.data.data_word_size != 16 ==> r is None,
    {
        if self.data.data_word_size == 8 {
            if i < self.data.number_data_moment_gates as usize {
                Some(self.moment_data[i] as u16)
            } else {
                None
            }
        } else if self.data.data_word_size == 16 {
            if i < self.data.number_data_moment_gates as usize {
                let b0 = self.moment_data[2 * i];
                let b1 = self.moment_data[2 * i + 1];
                Some((b0 as u16) * 0x100 + (b1 as u16))
            } else {
                None
            }
        } else {
            None
        }
    }
}

/// One radial's decoded message: its header and zero-or-one sub-block of
/// each kind, located through the message's pointer table. A later
/// duplicate of a kind silently overwrites the earlier one.
pub struct Message31 {
    pub header: Message31Header,
    pub volume_data: Option<VolumeData>,
    pub elevation_data: Option<ElevationData>,
    pub radial_data: Option<RadialData>,
    pub reflectivity_data: Option<DataMoment>,
    pub velocity_data: Option<DataMoment>,
    pub sw_data: Option<DataMoment>,
    pub zdr_data: Option<DataMoment>,
    pub phi_data: Option<DataMoment>,
    pub rho_data: Option<DataMoment>,
    pub cfp_data: Option<DataMoment>,
}

/// The moment slot a moment kind is stored under, as a spec-level view of
/// the message. The three fixed metadata kinds have no moment slot.
pub open spec fn spec_moment_slot(m: Message31, p: DataBlockProduct) -> Option<DataMoment> {
    match p {
        DataBlockProduct::Reflectivity => m.reflectivity_data,
        DataBlockProduct::Velocity => m.velocity_data,
        DataBlockProduct::SpectrumWidth => m.sw_data,
        DataBlockProduct::DifferentialReflectivity => m.zdr_data,
        DataBlockProduct::DifferentialPhase => m.phi_data,
        DataBlockProduct::CorrelationCoefficient => m.rho_data,
        DataBlockProduct::ClutterFilterProbability => m.cfp_data,
        DataBlockProduct::VolumeData => None,
        DataBlockProduct::ElevationData => None,
        DataBlockProduct::RadialData => None,
    }
}

impl Message31 {
    /// Every stored sub-block's own tag resolves to the kind of the slot it
    /// is stored under, and every moment slot's sample array has the length
    /// its geometry demands.
    pub open spec fn wf(&self) -> bool {
        &&& self.header.wf()
        &&& (self.volume_data matches Some(v) ==> v.wf())
        &&& (self.elevation_data matches Some(v) ==> v.wf())
        &&& (self.radial_data matches Some(v) ==> v.wf())
        &&& (self.reflectivity_data matches Some(d) ==> d.wf() && d.product
            == DataBlockProduct::Reflectivity)
        &&& (self.velocity_data matches Some(d) ==> d.wf() && d.product
            == DataBlockProduct::Velocity)
        &&& (self.sw_data matches Some(d) ==> d.wf() && d.product
            == DataBlockProduct::SpectrumWidth)
        &&& (self.zdr_data matches Some(d) ==> d.wf() && d.product
            == DataBlockProduct::DifferentialReflectivity)
        &&& (self.phi_data matches Some(d) ==> d.wf() && d.product
            == DataBlockProduct::DifferentialPhase)
        &&& (self.rho_data matches Some(d) ==> d.wf() && d.product
            == DataBlockProduct::CorrelationCoefficient)
        &&& (self.cfp_data matches Some(d) ==> d.wf() && d.product
            == DataBlockProduct::ClutterFilterProbability)
    }

    /// A fresh message holding only its header, every sub-block absent.
    pub fn new(header: Message31Header) -> (m: Message31)
        ensures
            m.header == header,
            m.volume_data is None,
            m.elevation_data is None,
            m.radial_data is None,
            m.reflectivity_data is None,
            m.velocity_data is None,
            m.sw_data is None,
            m.zdr_data is None,
            m.phi_data is None,
            m.rho_data is None,
            m.cfp_data is None,
    {
        Message31 {
            header,
            volume_data: None,
            elevation_data: None,
            radial_data: None,
            reflectivity_data: None,
            velocity_data: None,
            sw_data: None,
            zdr_data: None,
            phi_data: None,
            rho_data: None,
            cfp_data: None,
        }
    }

    /// The message 31 header.
    pub fn header(&self) -> (r: &Message31Header)
        ensures
            r == self.header,
    {
        &self.header
    }

    /// The volume data block.
    pub fn volume_data(&self) -> (r: Option<&VolumeData>)
        ensures
            match r {
                Some(v) => self.volume_data == Some(*v),
                None => self.volume_data is None,
            },
    {
        self.volume_data.as_ref()
    }

    /// The elevation data block.
    pub fn elevation_data(&self) -> (r: Option<&ElevationData>)
        ensures
            match r {
                Some(v) => self.elevation_data == Some(*v),
                None => self.elevation_data is None,
            },
    {
        self.elevation_data.as_ref()
    }

    /// The radial data block.
    pub fn radial_data(&self) -> (r: Option<&RadialData>)
        ensures
            match r {
                Some(v) => self.radial_data == Some(*v),
                None => self.radial_data is None,
            },
    {
        self.radial_data.as_ref()
    }

    /// The reflectivity data block.
    pub fn reflectivity_data(&self) -> (r: Option<&DataMoment>)
        ensures
            match r {
                Some(v) => self.reflectivity_data == Some(*v),
                None => self.reflectivity_data is None,
            },
    {
        self.reflectivity_data.as_ref()
    }

    /// The velocity data block.
    pub fn velocity_data(&self) -> (r: Option<&DataMoment>)
        ensures
            match r {
                Some(v) => self.velocity_data == Some(*v),
                None => self.velocity_data is None,
            },
    {
        self.velocity_data.as_ref()
    }

    /// The spectrum width data block.
    pub fn sw_data(&self) -> (r: Option<&DataMoment>)
        ensures
            match r {
                Some(v) => self.sw_data == Some(*v),
                None => self.sw_data is None,
            },
    {
        self.sw_data.as_ref()
    }

    /// The differential reflectivity data block.
    pub fn zdr_data(&self) -> (r: Option<&DataMoment>)
        ensures
            match r {
                Some(v) => self.zdr_data == Some(*v),
                None => self.zdr_data is None,
            },
    {
        self.zdr_data.as_ref()
    }

    /// The differential phase data block.
    pub fn phi_data(&self) -> (r: Option<&DataMoment>)
        ensures
            match r {
                Some(v) => self.phi_data == Some(*v),
                None => self.phi_data is None,
            },
    {
        self.phi_data.as_ref()
    }

    /// The correlation coefficient data block.
    pub fn rho_data(&self) -> (r: Option<&DataMoment>)
        ensures
            match r {
                Some(v) => self.rho_data == Some(*v),
                None => self.rho_data is None,
            },
    {
        self.rho_data.as_ref()
    }

    /// The clutter filter probability data block.
    pub fn cfp_data(&self) -> (r: Option<&DataMoment>)
        ensures
            match r {
                Some(v) => self.cfp_data == Some(*v),
                None => self.cfp_data is None,
            },
    {
        self.cfp_data.as_ref()
    }

    /// The moment slot for `product`; the three fixed metadata kinds have
    /// no moment slot.
    pub fn get_data_moment(&self, product: &DataBlockProduct) -> (r: Option<&DataMoment>)
        ensures
            match r {
                Some(v) => spec_moment_slot(*self, *product) == Some(*v),
                None => spec_moment_slot(*self, *product) is None,
            },
    {
        match product {
            DataBlockProduct::Reflectivity => self.reflectivity_data(),
            DataBlockProduct::Velocity => self.velocity_data(),
            DataBlockProduct::SpectrumWidth => self.sw_data(),
            DataBlockProduct::DifferentialReflectivity => self.zdr_data(),
            DataBlockProduct::DifferentialPhase => self.phi_data(),
            DataBlockProduct::CorrelationCoefficient => self.rho_data(),
            DataBlockProduct::ClutterFilterProbability => self.cfp_data(),
            DataBlockProduct::VolumeData => None,
            DataBlockProduct::ElevationData => None,
            DataBlockProduct::RadialData => None,
        }
    }

    /// Stores a moment sub-block into the slot its kind names, silently
    /// overwriting an earlier duplicate; the three fixed metadata kinds
    /// leave the message unchanged.
    pub fn set_data_moment(&mut self, data_moment: DataMoment)
        ensures
            final(self).header == old(self).header,
            final(self).volume_data == old(self).volume_data,
            final(self).elevation_data == old(self).elevation_data,
            final(self).radial_data == old(self).radial_data,
            forall|p: DataBlockProduct|
                spec_moment_slot(*final(self), p) == if spec_is_moment(data_moment.product) && p
                    == data_moment.product {
                    Some(data_moment)
                } else {
                    spec_moment_slot(*old(self), p)
                },
    {
        match data_moment.product {
            DataBlockProduct::Reflectivity => self.reflectivity_data = Some(data_moment),
            DataBlockProduct::Velocity => self.velocity_data = Some(data_moment),
            DataBlockProduct::SpectrumWidth => self.sw_data = Some(data_moment),
            DataBlockProduct::DifferentialReflectivity => self.zdr_data = Some(data_moment),
            DataBlockProduct::DifferentialPhase => self.phi_data = Some(data_moment),
            DataBlockProduct::CorrelationCoefficient => self.rho_data = Some(data_moment),
            DataBlockProduct::ClutterFilterProbability => self.cfp_data = Some(data_moment),
            DataBlockProduct::VolumeData => {},
            DataBlockProduct::ElevationData => {},
            DataBlockProduct::RadialData => {},
        }
    }

    /// Stores the volume data block, overwriting an earlier duplicate.
    pub fn set_volume_data(&mut self, volume_data: VolumeData)
        ensures
            *final(self) == (Message31 { volume_data: Some(volume_data), ..*old(self) }),
    {
        self.volume_data = Some(volume_data);
    }

    /// Stores the elevation data block, overwriting an earlier duplicate.
    pub fn set_elevation_data(&mut self, elevation_data: ElevationData)
        ensures
            *final(self) == (Message31 { elevation_data: Some(elevation_data), ..*old(self) }),
    {
        self.elevation_data = Some(elevation_data);
    }

    /// Stores the radial data block, overwriting an earlier duplicate.
    pub fn set_radial_data(&mut self, radial_data: RadialData)
        ensures
            *final(self) == (Message31 { radial_data: Some(radial_data), ..*old(self) }),
    {
        self.radial_data = Some(radial_data);
    }
}

/// Abstract value of a `VolumeHeaderRecord`: the same fields over
/// mathematical integers and byte sequences.
#[verifier::ext_equal]
pub ghost struct VolumeHeaderRecordV {
    pub filename: Seq<u8>,
    pub file_date: int,
    pub file_time: int,
    pub radar_id: Seq<u8>,
}

impl View for VolumeHeaderRecord {
    type V = VolumeHeaderRecordV;

    open spec fn view(&self) -> VolumeHeaderRecordV {
        VolumeHeaderRecordV {
            filename: self.filename@,
            file_date: self.file_date as int,
            file_time: self.file_time as int,
            radar_id: self.radar_id@,
        }
    }
}

/// The abstract volume header stored at offset `p` of `s`.
pub open spec fn spec_volume_header_at(s: Seq<u8>, p: int) -> VolumeHeaderRecordV {
    VolumeHeaderRecordV {
        filename: s.subrange(p, p + 12),
        file_date: be32(s, p + 12),
        file_time: be32(s, p + 16),
        radar_id: s.subrange(p + 20, p + 24),
    }
}

/// Abstract value of a `Message31Header`.
#[verifier::ext_equal]
pub ghost struct Message31HeaderV {
    pub radar_id: Seq<u8>,
    pub ray_time: int,
    pub ray_date: int,
    pub azm_num: int,
    pub azm: int,
    pub compression_code: int,
    pub spare: int,
    pub radial_len: int,
    pub azm_res: int,
    pub radial_status: int,
    pub elev_num: int,
    pub sector_cut_num: int,
    pub elev: int,
    pub radial_spot_blanking: int,
    pub azm_indexing_mode: int,
    pub data_block_count: int,
}

impl View for Message31Header {
    type V = Message31HeaderV;

    open spec fn view(&self) -> Message31HeaderV {
        Message31HeaderV {
            radar_id: self.radar_id@,
            ray_time: self.ray_time as int,
            ray_date: self.ray_date as int,
            azm_num: self.azm_num as int,
            azm: self.azm as int,
            compression_code: self.compression_code as int,
            spare: self.spare as int,
            radial_len: self.radial_len as int,
            azm_res: self.azm_res as int,
            radial_status: self.radial_status as int,
            elev_num: self.elev_num as int,
            sector_cut_num: self.sector_cut_num as int,
            elev: self.elev as int,
            radial_spot_blanking: self.radial_spot_blanking as int,
            azm_indexing_mode: self.azm_indexing_mode as int,
            data_block_count: self.data_block_count as int,
        }
    }
}

/// The abstract radial header stored at offset `p` of `s`.
pub open spec fn spec_message31_header_at(s: Seq<u8>, p: int) -> Message31HeaderV {
    Message31HeaderV {
        radar_id: s.subrange(p, p + 4),
        ray_time: be32(s, p + 4),
        ray_date: be16(s, p + 8),
        azm_num: be16(s, p + 10),
        azm: be32(s, p + 12),
        compression_code: s[p + 16] as int,
        spare: s[p + 17] as int,
        radial_len: be16(s, p + 18),
        azm_res: s[p + 20] as int,
        radial_status: s[p + 21] as int,
        elev_num: s[p + 22] as int,
        sector_cut_num: s[p + 23] as int,
        elev: be32(s, p + 24),
        radial_spot_blanking: s[p + 28] as int,
        azm_indexing_mode: s[p + 29] as int,
        data_block_count: be16(s, p + 30),
    }
}

/// Abstract value of a `DataBlockHeader`.
#[verifier::ext_equal]
pub ghost struct DataBlockHeaderV {
    pub data_block_type: Seq<u8>,
    pub data_name: Seq<u8>,
}

impl View for DataBlockHeader {
    type V = DataBlockHeaderV;

    open spec fn view(&self) -> DataBlockHeaderV {
        DataBlockHeaderV { data_block_type: self.data_block_type@, data_name: self.data_name@ }
    }
}

/// The abstract tag stored at offset `p` of `s`.
pub open spec fn spec_data_block_header_at(s: Seq<u8>, p: int) -> DataBlockHeaderV {
    DataBlockHeaderV { data_block_type: s.subrange(p, p + 1), data_name: s.subrange(p + 1, p + 4) }
}

/// Abstract value of a `VolumeData` sub-block.
#[verifier::ext_equal]
pub ghost struct VolumeDataV {
    pub data_block_header: DataBlockHeaderV,
    pub lrtup: int,
    pub version_major: int,
    pub version_minor: int,
    pub lat: int,
    pub long: int,
    pub site_height: int,
    pub feedhorn_height: int,
    pub calibration_constant: int,
    pub shvtx_power_hor: int,
    pub shvtx_power_ver: int,
    pub system_differential_reflectivity: int,
    pub initial_system_differential_phase: int,
    pub volume_coverage_pattern_number: int,
    pub processing_status: int,
}

impl View for VolumeData {
    type V = VolumeDataV;

    open spec fn view(&self) -> VolumeDataV {
        VolumeDataV {
            data_block_header: self.data_block_header@,
            lrtup: self.lrtup as int,
            version_major: self.version_major as int,
            version_minor: self.version_minor as int,
            lat: self.lat as int,
            long: self.long as int,
            site_height: self.site_height as int,
            feedhorn_height: self.feedhorn_height as int,
            calibration_constant: self.calibration_constant as int,
            shvtx_power_hor: self.shvtx_power_hor as int,
            shvtx_power_ver: self.shvtx_power_ver as int,
            system_differential_reflectivity: self.system_differential_reflectivity as int,
            initial_system_differential_phase: self.initial_system_differential_phase as int,
            volume_coverage_pattern_number: self.volume_coverage_pattern_number as int,
            processing_status: self.processing_status as int,
        }
    }
}

/// The abstract volume data block stored at offset `p` of `s`.
pub open spec fn spec_volume_data_at(s: Seq<u8>, p: int) -> VolumeDataV {
    VolumeDataV {
        data_block_header: spec_data_block_header_at(s, p),
        lrtup: be16(s, p + 4),
        version_major: s[p + 6] as int,
        version_minor: s[p + 7] as int,
        lat: be32(s, p + 8),
        long: be32(s, p + 12),
        site_height: be16(s, p + 16),
        feedhorn_height: be16(s, p + 18),
        calibration_constant: be32(s, p + 20),
        shvtx_power_hor: be32(s, p + 24),
        shvtx_power_ver: be32(s, p + 28),
        system_differential_reflectivity: be32(s, p + 32),
        initial_system_differential_phase: be32(s, p + 36),
        volume_coverage_pattern_number: be16(s, p + 40),
        processing_status: be16(s, p + 42),
    }
}

/// Abstract value of an `ElevationData` sub-block.
#[verifier::ext_equal]
pub ghost struct ElevationDataV {
    pub data_block_header: DataBlockHeaderV,
    pub lrtup: int,
    pub atmos: Seq<u8>,
    pub calib_const: int,
}

impl View for ElevationData {
    type V = ElevationDataV;

    open spec fn view(&self) -> ElevationDataV {
        ElevationDataV {
            data_block_header: self.data_block_header@,
            lrtup: self.lrtup as int,
            atmos: self.atmos@,
            calib_const: self.calib_const as int,
        }
    }
}

/// The abstract elevation data block stored at offset `p` of `s`.
pub open spec fn spec_elevation_data_at(s: Seq<u8>, p: int) -> ElevationDataV {
    ElevationDataV {
        data_block_header: spec_data_block_header_at(s, p),
        lrtup: be16(s, p + 4),
        atmos: s.subrange(p + 6, p + 8),
        calib_const: be32(s, p + 8),
    }
}

/// Abstract value of a `RadialData` sub-block.
#[verifier::ext_equal]
pub ghost struct RadialDataV {
    pub data_block_header: DataBlockHeaderV,
    pub lrtup: int,
    pub unambiguous_range: int,
    pub noise_level_horz: int,
    pub noise_level_vert: int,
    pub nyquist_velocity: int,
    pub radial_flags: int,
    pub calib_const_horz_chan: int,
    pub calib_const_vert_chan: int,
}

impl View for RadialData {
    type V = RadialDataV;

    open spec fn view(&self) -> RadialDataV {
        RadialDataV {
            data_block_header: self.data_block_header@,
            lrtup: self.lrtup as int,
            unambiguous_range: self.unambiguous_range as int,
            noise_level_horz: self.noise_level_horz as int,
            noise_level_vert: self.noise_level_vert as int,
            nyquist_velocity: self.nyquist_velocity as int,
            radial_flags: self.radial_flags as int,
            calib_const_horz_chan: self.calib_const_horz_chan as int,
            calib_const_vert_chan: self.calib_const_vert_chan as int,
        }
    }
}

/// The abstract radial data block stored at offset `p` of `s`.
pub open spec fn spec_radial_data_at(s: Seq<u8>, p: int) -> RadialDataV {
    RadialDataV {
        data_block_header: spec_data_block_header_at(s, p),
        lrtup: be16(s, p + 4),
        unambiguous_range: be16(s, p + 6),
        noise_level_horz: be32(s, p + 8),
        noise_level_vert: be32(s, p + 12),
        nyquist_velocity: be16(s, p + 16),
        radial_flags: be16(s, p + 18),
        calib_const_horz_chan: be32(s, p + 20),
        calib_const_vert_chan: be32(s, p + 24),
    }
}

/// Abstract value of a `GenericData` record.
#[verifier::ext_equal]
pub ghost struct GenericDataV {
    pub data_block_type: Seq<u8>,
    pub data_name: Seq<u8>,
    pub reserved: int,
    pub number_data_moment_gates: int,
    pub data_moment_range: int,
    pub data_moment_range_sample_interval: int,
    pub tover: int,
    pub snr_threshold: int,
    pub control_flags: int,
    pub data_word_size: int,
    pub scale: int,
    pub offset: int,
}

impl View for GenericData {
    type V = GenericDataV;

    open spec fn view(&self) -> GenericDataV {
        GenericDataV {
            data_block_type: self.data_block_type@,
            data_name: self.data_name@,
            reserved: self.reserved as int,
            number_data_moment_gates: self.number_data_moment_gates as int,
            data_moment_range: self.data_moment_range as int,
            data_moment_range_sample_interval: self.data_moment_range_sample_interval as int,
            tover: self.tover as int,
            snr_threshold: self.snr_threshold as int,
            control_flags: self.control_flags as int,
            data_word_size: self.data_word_size as int,
            scale: self.scale as int,
            offset: self.offset as int,
        }
    }
}

/// The abstract sampling geometry record stored at offset `p` of `s`.
pub open spec fn spec_generic_data_at(s: Seq<u8>, p: int) -> GenericDataV {
    GenericDataV {
        data_block_type: s.subrange(p, p + 1),
        data_name: s.subrange(p + 1, p + 4),
        reserved: be32(s, p + 4),
        number_data_moment_gates: be16(s, p + 8),
        data_moment_range: be16(s, p + 10),
        data_moment_range_sample_interval: be16(s, p + 12),
        tover: be16(s, p + 14),
        snr_threshold: be16(s, p + 16),
        control_flags: s[p + 18] as int,
        data_word_size: s[p + 19] as int,
        scale: be32(s, p + 20),
        offset: be32(s, p + 24),
    }
}

/// Abstract value of a `DataMoment`.
#[verifier::ext_equal]
pub ghost struct DataMomentV {
    pub product: DataBlockProduct,
    pub data: GenericDataV,
    pub moment_data: Seq<u8>,
}

/// Abstract value of a `Message31`.
#[verifier::ext_equal]
pub ghost struct Message31V {
    pub header: Message31HeaderV,
    pub volume_data: Option<VolumeDataV>,
    pub elevation_data: Option<ElevationDataV>,
    pub radial_data: Option<RadialDataV>,
    pub reflectivity_data: Option<DataMomentV>,
    pub velocity_data: Option<DataMomentV>,
    pub sw_data: Option<DataMomentV>,
    pub zdr_data: Option<DataMomentV>,
    pub phi_data: Option<DataMomentV>,
    pub rho_data: Option<DataMomentV>,
    pub cfp_data: Option<DataMomentV>,
}

impl View for DataMoment {
    type V = DataMomentV;

    open spec fn view(&self) -> DataMomentV {
        DataMomentV { product: self.product, data: self.data@, moment_data: self.moment_data@ }
    }
}

impl View for Message31 {
    type V = Message31V;

    open spec fn view(&self) -> Message31V {
        Message31V {
            header: self.header@,
            volume_data: match self.volume_data {
                Some(v) => Some(v@),
                None => None,
            },
            elevation_data: match self.elevation_data {
                Some(v) => Some(v@),
                None => None,
            },
            radial_data: match self.radial_data {
                Some(v) => Some(v@),
                None => None,
            },
            reflectivity_data: match self.reflectivity_data {
                Some(v) => Some(v@),
                None => None,
            },
            velocity_data: match self.velocity_data {
                Some(v) => Some(v@),
                None => None,
            },
            sw_data: match self.sw_data {
                Some(v) => Some(v@),
                None => None,
            },
            zdr_data: match self.zdr_data {
                Some(v) => Some(v@),
                None => None,
            },
            phi_data: match self.phi_data {
                Some(v) => Some(v@),
                None => None,
            },
            rho_data: match self.rho_data {
                Some(v) => Some(v@),
                None => None,
            },
            cfp_data: match self.cfp_data {
                Some(v) => Some(v@),
                None => None,
            },
        }
    }
}

/// A fresh abstract radial holding only its header.
pub open spec fn spec_fresh_message31(h: Message31HeaderV) -> Message31V {
    Message31V {
        header: h,
        volume_data: None,
        elevation_data: None,
        radial_data: None,
        reflectivity_data: None,
        velocity_data: None,
        sw_data: None,
        zdr_data: None,
        phi_data: None,
        rho_data: None,
        cfp_data: None,
    }
}

/// The abstract radial with one moment slot replaced.
pub open spec fn spec_with_moment(m: Message31V, d: DataMomentV) -> Message31V {
    match d.product {
        DataBlockProduct::Reflectivity => Message31V { reflectivity_data: Some(d), ..m },
        DataBlockProduct::Velocity => Message31V { velocity_data: Some(d), ..m },
        DataBlockProduct::SpectrumWidth => Message31V { sw_data: Some(d), ..m },
        DataBlockProduct::DifferentialReflectivity => Message31V { zdr_data: Some(d), ..m },
        DataBlockProduct::DifferentialPhase => Message31V { phi_data: Some(d), ..m },
        DataBlockProduct::CorrelationCoefficient => Message31V { rho_data: Some(d), ..m },
        DataBlockProduct::ClutterFilterProbability => Message31V { cfp_data: Some(d), ..m },
        DataBlockProduct::VolumeData => m,
        DataBlockProduct::ElevationData => m,
        DataBlockProduct::RadialData => m,
    }
}

/// One gate's raw code, classified under the moment scaling contract.
///
/// Raw code 0 and raw code 1 are reserved sentinels whatever the word size
/// and whatever the scale and offset; every other code carries a sample
/// that scales to a physical value through the per-moment scale and offset.
#[derive(Clone, Copy, Debug, PartialEq, Eq, Structural)]
pub enum ScaledGate {
    /// Raw code 0: the signal was below the detection threshold.
    BelowThreshold,
    /// Raw code 1: the measurement was range-folded / ambiguous.
    RangeFolded,
    /// Any other raw code, to be mapped through scale and offset.
    Value(u16),
}

/// Classifies one raw gate code under the moment scaling contract. This is
/// the single place sentinel handling is decided, so every consumer sees
/// the same contract: code 0 is "below threshold" and code 1 is "folded"
/// independently of word size, scale and offset; every other code is a
/// scalable sample.
pub fn scale_gate(raw: u16) -> (g: ScaledGate)
    ensures
        raw == 0 <==> g == ScaledGate::BelowThreshold,
        raw == 1 <==> g == ScaledGate::RangeFolded,
        raw >= 2 ==> g == ScaledGate::Value(raw),
{
    if raw == 0 {
        ScaledGate::BelowThreshold
    } else if raw == 1 {
        ScaledGate::RangeFolded
    } else {
        ScaledGate::Value(raw)
    }
}

} // verus!
