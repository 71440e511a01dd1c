//! Whole-file decoding: the message dispatcher walking fixed message
//! frames, the Message 31 sub-block resolver following the per-message
//! pointer table, and the elevation aggregator grouping radials by
//! elevation-cut number.

use std::collections::BTreeMap;

use vstd::prelude::*;

use crate::codec::{be32, ByteCursor};
use crate::decompress::{decompress_file, is_compressed, spec_decompress, spec_is_compressed};
use crate::error::Error;
use crate::model::{
    spec_elevation_data_at, spec_fresh_message31, spec_generic_data_at, spec_message31_header_at,
    spec_moment_slot, spec_product, spec_product3, spec_radial_data_at, spec_volume_data_at,
    spec_volume_header_at, spec_with_moment, DataBlockHeader, DataBlockProduct, DataMoment,
    DataMomentV, ElevationData, GenericData, Message31, Message31Header, Message31V,
    MessageHeader, RadialData, VolumeData, VolumeHeaderRecord, VolumeHeaderRecordV,
    DATA_BLOCK_HEADER_SIZE, ELEVATION_DATA_SIZE, GENERIC_DATA_SIZE, MESSAGE31_HEADER_SIZE,
    MESSAGE_FRAME_SIZE, MESSAGE_HEADER_SIZE, RADIAL_DATA_SIZE, VOLUME_DATA_SIZE,
    VOLUME_HEADER_SIZE,
};

verus! {

broadcast use
    crate::codec::ByteCursor::lemma_pos_range,
    vstd::std_specs::btree::group_btree_axioms,
    vstd::laws_cmp::group_laws_cmp,
    vstd::seq_lib::group_to_multiset_ensures,
;

/// Radials within one elevation, sorted when every earlier radial's
/// azimuth bit pattern is at most every later one's. The patterns are
/// IEEE-754 single precision; for the non-negative angles the format
/// stores, their unsigned order is the numeric order of the angles.
pub open spec fn sorted_by_azm(s: Seq<Message31>) -> bool {
    forall|i: int, j: int| 0 <= i < j < s.len() ==> s[i].header.azm <= s[j].header.azm
}

/// The radials of `s` whose azimuth bit pattern is exactly `a`, in their
/// order in `s`. A sort is stable precisely when it preserves this
/// sequence for every `a`.
pub open spec fn radials_with_azm(s: Seq<Message31>, a: u32) -> Seq<Message31> {
    s.filter(|m: Message31| m.header.azm == a)
}

/// Appending one radial extends the azimuth class it belongs to and
/// leaves every other class unchanged.
proof fn lemma_azm_class_push(s: Seq<Message31>, x: Message31, a: u32)
    ensures
        radials_with_azm(s.push(x), a) == if x.header.azm == a {
            radials_with_azm(s, a).push(x)
        } else {
            radials_with_azm(s, a)
        },
{
    reveal(Seq::filter);
    assert(s.push(x).drop_last() =~= s);
}

/// Removing the first radial of the minimal azimuth splits its class off
/// the front and leaves every other class unchanged.
proof fn lemma_azm_class_remove_first_min(s: Seq<Message31>, m: int, a: u32)
    ensures
        0 <= m < s.len() && (forall|i: int|
            0 <= i < m ==> s[i].header.azm > s[m].header.azm) ==> radials_with_azm(s, a) == (
        if s[m].header.azm == a {
            seq![s[m]] + radials_with_azm(s.remove(m), a)
        } else {
            radials_with_azm(s.remove(m), a)
        }),
{
    if 0 <= m < s.len() && (forall|i: int| 0 <= i < m ==> s[i].header.azm > s[m].header.azm) {
        let pred = |r: Message31| r.header.azm == a;
        let front = s.subrange(0, m);
        let back = s.subrange(m + 1, s.len() as int);
        let x = s[m];
        assert(s =~= front + seq![x] + back);
        assert(s.remove(m) =~= front + back);
        Seq::<Message31>::filter_distributes_over_add(front + seq![x], back, pred);
        Seq::<Message31>::filter_distributes_over_add(front, seq![x], pred);
        Seq::<Message31>::filter_distributes_over_add(front, back, pred);
        assert(seq![x].drop_last() =~= Seq::<Message31>::empty());
        reveal_with_fuel(Seq::filter, 3);
        if x.header.azm == a {
            assert(seq![x].filter(pred) =~= seq![x]);
            front.lemma_all_neg_filter_empty(pred);
            assert(front.filter(pred) =~= Seq::<Message31>::empty());
            assert(s.filter(pred) =~= seq![x] + (s.remove(m)).filter(pred));
        } else {
            assert(seq![x].filter(pred) =~= Seq::<Message31>::empty());
            assert(s.filter(pred) =~= (s.remove(m)).filter(pred));
        }
    }
}

/// The abstract result of resolving one sub-block pointer: the message
/// with that block stored, and the cursor's position just past the block.
/// Mirrors the resolver exactly, error for error.
pub open spec fn spec_apply_block(s: Seq<u8>, start: int, pointer: int, m: Message31V) -> Result<
    (Message31V, int),
    Error,
> {
    if start + pointer > usize::MAX {
        Err(Error::Overflow)
    } else {
        let p = start + pointer;
        if p + DATA_BLOCK_HEADER_SIZE > s.len() {
            Err(Error::Truncated)
        } else {
            match spec_product3(s[p + 1], s[p + 2], s[p + 3]) {
                None => Err(Error::UnhandledProduct),
                Some(DataBlockProduct::VolumeData) => {
                    if p + VOLUME_DATA_SIZE > s.len() {
                        Err(Error::Truncated)
                    } else {
                        Ok(
                            (
                                Message31V { volume_data: Some(spec_volume_data_at(s, p)), ..m },
                                p + VOLUME_DATA_SIZE,
                            ),
                        )
                    }
                },
                Some(DataBlockProduct::ElevationData) => {
                    if p + ELEVATION_DATA_SIZE > s.len() {
                        Err(Error::Truncated)
                    } else {
                        Ok(
                            (
                                Message31V {
                                    elevation_data: Some(spec_elevation_data_at(s, p)),
                                    ..m
                                },
                                p + ELEVATION_DATA_SIZE,
                            ),
                        )
                    }
                },
                Some(DataBlockProduct::RadialData) => {
                    if p + RADIAL_DATA_SIZE > s.len() {
                        Err(Error::Truncated)
                    } else {
                        Ok(
                            (
                                Message31V { radial_data: Some(spec_radial_data_at(s, p)), ..m },
                                p + RADIAL_DATA_SIZE,
                            ),
                        )
                    }
                },
                Some(pk) => {
                    if p + GENERIC_DATA_SIZE > s.len() {
                        Err(Error::Truncated)
                    } else {
                        let g = spec_generic_data_at(s, p);
                        let msize = g.number_data_moment_gates * g.data_word_size / 8;
                        if p + GENERIC_DATA_SIZE + msize > s.len() {
                            Err(Error::Truncated)
                        } else {
                            let d = DataMomentV {
                                product: pk,
                                data: g,
                                moment_data: s.subrange(
                                    p + GENERIC_DATA_SIZE,
                                    p + GENERIC_DATA_SIZE + msize,
                                ),
                            };
                            Ok((spec_with_moment(m, d), p + GENERIC_DATA_SIZE + msize))
                        }
                    }
                },
            }
        }
    }
}

/// Resolves the pointers from index `i` on, threading the partly filled
/// message and the cursor position.
pub open spec fn spec_resolve_blocks(
    s: Seq<u8>,
    start: int,
    count: int,
    i: int,
    m: Message31V,
    pos: int,
) -> Result<(Message31V, int), Error>
    decreases count - i,
{
    if i >= count {
        Ok((m, pos))
    } else {
        match spec_apply_block(s, start, be32(s, start + MESSAGE31_HEADER_SIZE + 4 * i), m) {
            Ok(pair) => spec_resolve_blocks(s, start, count, i + 1, pair.0, pair.1),
            Err(e) => Err(e),
        }
    }
}

/// The abstract decode of one whole type-31 message body at `start`: its
/// radial header, its pointer table, and every listed sub-block.
pub open spec fn spec_message31(s: Seq<u8>, start: int) -> Result<(Message31V, int), Error> {
    if start + MESSAGE31_HEADER_SIZE > s.len() {
        Err(Error::Truncated)
    } else {
        let h = spec_message31_header_at(s, start);
        let table_end = start + MESSAGE31_HEADER_SIZE + 4 * h.data_block_count;
        if table_end > s.len() {
            Err(Error::Truncated)
        } else {
            spec_resolve_blocks(s, start, h.data_block_count, 0, spec_fresh_message31(h), table_end)
        }
    }
}

/// The abstract message dispatcher: walks frames from `pos`, resolving
/// type-31 messages and skipping every other type by the fixed frame size.
pub open spec fn spec_dispatch(s: Seq<u8>, pos: int, acc: Map<u8, Seq<Message31V>>) -> Result<
    Map<u8, Seq<Message31V>>,
    Error,
>
    decreases s.len() - pos,
{
    if pos < 0 || pos >= s.len() {
        Ok(acc)
    } else if pos + MESSAGE_HEADER_SIZE > s.len() {
        Err(Error::Truncated)
    } else if s[pos + 15] == 31 {
        match spec_message31(s, pos + MESSAGE_HEADER_SIZE) {
            Ok(pair) => {
                let k = pair.0.header.elev_num as u8;
                let acc2 = acc.insert(
                    k,
                    (if acc.contains_key(k) {
                        acc[k]
                    } else {
                        Seq::empty()
                    }).push(pair.0),
                );
                let next = if pos < pair.1 <= s.len() {
                    pair.1
                } else {
                    pos + 1
                };
                spec_dispatch(s, next, acc2)
            },
            Err(e) => Err(e),
        }
    } else {
        let next = if pos + MESSAGE_FRAME_SIZE <= s.len() {
            pos + MESSAGE_FRAME_SIZE
        } else {
            s.len() as int
        };
        spec_dispatch(s, next, acc)
    }
}

/// The abstract decode of one plaintext archive: the volume header at
/// offset 0, then the dispatcher over the rest.
pub open spec fn spec_decode_plain(s: Seq<u8>) -> Result<
    (VolumeHeaderRecordV, Map<u8, Seq<Message31V>>),
    Error,
> {
    if s.len() < VOLUME_HEADER_SIZE {
        Err(Error::Truncated)
    } else {
        match spec_dispatch(s, VOLUME_HEADER_SIZE as int, Map::empty()) {
            Ok(m) => Ok((spec_volume_header_at(s, 0), m)),
            Err(e) => Err(e),
        }
    }
}

/// The abstract decode of one archive buffer, decompressing first when it
/// carries the compression marker. `DataFile::from_vec` returns exactly
/// this, which makes the decode a pure function of its input bytes.
pub open spec fn spec_decode(s: Seq<u8>) -> Result<
    (VolumeHeaderRecordV, Map<u8, Seq<Message31V>>),
    Error,
> {
    if spec_is_compressed(s) {
        match spec_decompress(s) {
            Ok(d) => spec_decode_plain(d),
            Err(e) => Err(e),
        }
    } else {
        spec_decode_plain(s)
    }
}

/// A decoded NEXRAD WSR-88D data file including sweep data.
pub struct DataFile {
    volume_header: VolumeHeaderRecord,
    elevation_scans: BTreeMap<u8, Vec<Message31>>,
}

impl DataFile {
    /// The volume/file header.
    pub closed spec fn spec_volume_header(&self) -> VolumeHeaderRecord {
        self.volume_header
    }

    /// The elevation-number-to-radials mapping.
    pub closed spec fn scans(&self) -> Map<u8, Vec<Message31>> {
        self.elevation_scans@
    }

    /// The elevation mapping as abstract values.
    pub open spec fn scans_view(&self) -> Map<u8, Seq<Message31V>> {
        Map::new(
            |k: u8| self.scans().contains_key(k),
            |k: u8| self.scans()[k]@.map_values(|m: Message31| m@),
        )
    }

    /// Every radial stored under key `k` is well formed and carries
    /// `elev_num == k`, and no elevation's list is empty.
    pub open spec fn wf(&self) -> bool {
        &&& self.spec_volume_header().wf()
        &&& forall|k: u8| #[trigger]
            self.scans().contains_key(k) ==> {
                &&& self.scans()[k]@.len() > 0
                &&& forall|i: int|
                    0 <= i < self.scans()[k]@.len() ==> (#[trigger] self.scans()[k]@[i]).wf()
                        && self.scans()[k]@[i].header.elev_num == k
            }
    }

    /// A new data file for the given header with no sweep data yet.
    pub(crate) fn from_header(file_header: VolumeHeaderRecord) -> (f: DataFile)
        ensures
            f.spec_volume_header() == file_header,
            f.scans() == Map::<u8, Vec<Message31>>::empty(),
    {
        DataFile { volume_header: file_header, elevation_scans: BTreeMap::new() }
    }

    /// The volume/file header information.
    pub fn volume_header(&self) -> (r: &VolumeHeaderRecord)
        ensures
            *r == self.spec_volume_header(),
    {
        &self.volume_header
    }

    /// Scan data grouped by elevation number, in arrival order.
    pub fn elevation_scans(&self) -> (r: &BTreeMap<u8, Vec<Message31>>)
        ensures
            r@ == self.scans(),
    {
        &self.elevation_scans
    }

    /// Appends one completed radial under its own elevation number.
    fn insert_radial(&mut self, m: Message31)
        requires
            old(self).wf(),
            m.wf(),
        ensures
            final(self).wf(),
            final(self).spec_volume_header() == old(self).spec_volume_header(),
            final(self).scans().dom() == old(self).scans().dom().insert(m.header.elev_num),
            final(self).scans()[m.header.elev_num]@ == (if old(self).scans().contains_key(
                m.header.elev_num,
            ) {
                old(self).scans()[m.header.elev_num]@
            } else {
                Seq::<Message31>::empty()
            }).push(m),
            forall|j: u8|
                j != m.header.elev_num && old(self).scans().contains_key(j)
                    ==> final(self).scans()[j] == old(self).scans()[j],
    {
        let k = m.header.elev_num;
        let mut list: Vec<Message31> = match self.elevation_scans.remove(&k) {
            Some(v) => v,
            None => Vec::new(),
        };
        list.push(m);
        self.elevation_scans.insert(k, list);
        proof {
            assert(self.scans().dom() =~= old(self).scans().dom().insert(k));
        }
    }

    /// First available volume data block: scans elevation keys ascending
    /// and each elevation's radials in list order, and returns the first
    /// volume data block present; `None` only when no radial carries one.
    pub fn first_volume_data(&self) -> (r: Option<&VolumeData>)
        ensures
            match r {
                Some(v) => exists|k: u8, i: int|
                    {
                        &&& self.scans().contains_key(k)
                        &&& 0 <= i < self.scans()[k]@.len()
                        &&& #[trigger] self.scans()[k]@[i].volume_data == Some(*v)
                        &&& forall|k2: u8, i2: int|
                            #![trigger self.scans()[k2]@[i2]]
                            self.scans().contains_key(k2) && 0 <= i2 < self.scans()[k2]@.len() && (
                            k2 < k || (k2 == k && i2 < i)) ==> self.scans()[k2]@[i2].volume_data
                                is None
                    },
                None => forall|k: u8, i: int|
                    #![trigger self.scans()[k]@[i]]
                    self.scans().contains_key(k) && 0 <= i < self.scans()[k]@.len()
                        ==> self.scans()[k]@[i].volume_data is None,
            },
    {
        let mut k: u16 = 0;
        while k < 256
            invariant
                k <= 256,
                forall|j: u8, i: int|
                    #![trigger self.scans()[j]@[i]]
                    j < k && self.scans().contains_key(j) && 0 <= i < self.scans()[j]@.len()
                        ==> self.scans()[j]@[i].volume_data is None,
            decreases 256 - k,
        {
            let key = k as u8;
            match self.elevation_scans.get(&key) {
                Some(list) => {
                    let mut i: usize = 0;
                    while i < list.len()
                        invariant
                            k < 256,
                            key == k as u8,
                            self.scans().contains_key(key),
                            list@ == self.scans()[key]@,
                            i <= list@.len(),
                            forall|j: u8, i2: int|
                                #![trigger self.scans()[j]@[i2]]
                                j < k && self.scans().contains_key(j)
                                    && 0 <= i2 < self.scans()[j]@.len()
                                    ==> self.scans()[j]@[i2].volume_data is None,
                            forall|i2: int|
                                0 <= i2 < i ==> (#[trigger] list@[i2]).volume_data is None,
                        decreases list@.len() - i,
                    {
                        match list[i].volume_data() {
                            Some(v) => {
                                proof {
                                    assert(self.scans()[key]@[i as int].volume_data == Some(*v));
                                }
                                return Some(v);
                            },
                            None => {},
                        }
                        i = i + 1;
                    }
                },
                None => {},
            }
            k = k + 1;
        }
        None
    }

    /// Resolves one sub-block pointer: seeks to `start + pointer`, peeks
    /// the tag, decodes the typed record, and stores it into the message's
    /// slot for its kind. Implements `spec_apply_block` exactly.
    #[verifier::rlimit(100)]
    fn apply_block(cur: &mut ByteCursor, message: &mut Message31, start: usize, pointer: u32) -> (r:
        Result<(), Error>)
        requires
            old(message).wf(),
        ensures
            final(cur).bytes() == old(cur).bytes(),
            final(message).wf(),
            final(message).header == old(message).header,
            r matches Ok(()) ==> {
                &&& spec_apply_block(
                    old(cur).bytes(),
                    start as int,
                    pointer as int,
                    old(message)@,
                ) == Ok::<(Message31V, int), Error>((final(message)@, final(cur).spec_pos()))
                &&& start as int + 12 <= final(cur).spec_pos() <= final(cur).bytes().len()
            },
            r matches Err(e) ==> {
                &&& spec_apply_block(
                    old(cur).bytes(),
                    start as int,
                    pointer as int,
                    old(message)@,
                ) == Err::<(Message31V, int), Error>(e)
                &&& final(message)@ == old(message)@
            },
    {
        let ghost bytes0 = cur.bytes();
        if pointer as usize > usize::MAX - start {
            return Err(Error::Overflow);
        }
        let target = start + pointer as usize;
        if cur.position() != target {
            cur.seek(target);
        }

        // Peek the tag without permanently consuming it: the typed
        // decoders re-read the full record from the tag on.
        let tag = match DataBlockHeader::decode(cur) {
            Ok(t) => t,
            Err(e) => {
                proof {
                    assert(spec_apply_block(bytes0, start as int, pointer as int, old(message)@)
                        == Err::<(Message31V, int), Error>(Error::Truncated));
                }
                return Err(e);
            },
        };
        let back = cur.position() - 4;
        cur.seek(back);

        let product = match tag.data_block_product() {
            Ok(p) => p,
            Err(e) => {
                proof {
                    assert(tag.data_name@[0] == bytes0[target as int + 1]);
                    assert(tag.data_name@[1] == bytes0[target as int + 2]);
                    assert(tag.data_name@[2] == bytes0[target as int + 3]);
                    assert(spec_apply_block(bytes0, start as int, pointer as int, old(message)@)
                        == Err::<(Message31V, int), Error>(Error::UnhandledProduct));
                }
                return Err(e);
            },
        };
        proof {
            assert(tag.data_name@[0] == bytes0[target as int + 1]);
            assert(tag.data_name@[1] == bytes0[target as int + 2]);
            assert(tag.data_name@[2] == bytes0[target as int + 3]);
            assert(spec_product3(
                bytes0[target as int + 1],
                bytes0[target as int + 2],
                bytes0[target as int + 3],
            ) == Some(product));
        }

        match product {
            DataBlockProduct::VolumeData => {
                let data = match VolumeData::decode(cur) {
                    Ok(d) => d,
                    Err(e) => {
                        proof {
                            assert(spec_apply_block(bytes0, start as int, pointer as int, old(message)@)
                                == Err::<(Message31V, int), Error>(Error::Truncated));
                        }
                        return Err(e);
                    },
                };
                proof {
                    assert(data.data_block_header.data_name@ == tag.data_name@);
                    assert(spec_product(data.data_block_header.data_name@) == Some(
                        DataBlockProduct::VolumeData,
                    ));
                    assert(data@ =~= spec_volume_data_at(bytes0, target as int));
                }
                let ghost prevm = *message;
                message.set_volume_data(data);
                proof {
                    assert(message@ =~= (Message31V { volume_data: Some(data@), ..prevm@ }));
                    assert(spec_apply_block(bytes0, start as int, pointer as int, prevm@)
                        == Ok::<(Message31V, int), Error>((message@, cur.spec_pos())));
                }
            },
            DataBlockProduct::ElevationData => {
                let data = match ElevationData::decode(cur) {
                    Ok(d) => d,
                    Err(e) => {
                        proof {
                            assert(spec_apply_block(bytes0, start as int, pointer as int, old(message)@)
                                == Err::<(Message31V, int), Error>(Error::Truncated));
                        }
                        return Err(e);
                    },
                };
                proof {
                    assert(data.data_block_header.data_name@ == tag.data_name@);
                    assert(spec_product(data.data_block_header.data_name@) == Some(
                        DataBlockProduct::ElevationData,
                    ));
                    assert(data@ =~= spec_elevation_data_at(bytes0, target as int));
                }
                let ghost prevm = *message;
                message.set_elevation_data(data);
                proof {
                    assert(message@ =~= (Message31V {
                        elevation_data: Some(data@),
                        ..prevm@
                    }));
                    assert(spec_apply_block(bytes0, start as int, pointer as int, prevm@)
                        == Ok::<(Message31V, int), Error>((message@, cur.spec_pos())));
                }
            },
            DataBlockProduct::RadialData => {
                let data = match RadialData::decode(cur) {
                    Ok(d) => d,
                    Err(e) => {
                        proof {
                            assert(spec_apply_block(bytes0, start as int, pointer as int, old(message)@)
                                == Err::<(Message31V, int), Error>(Error::Truncated));
                        }
                        return Err(e);
                    },
                };
                proof {
                    assert(data.data_block_header.data_name@ == tag.data_name@);
                    assert(spec_product(data.data_block_header.data_name@) == Some(
                        DataBlockProduct::RadialData,
                    ));
                    assert(data@ =~= spec_radial_data_at(bytes0, target as int));
                }
                let ghost prevm = *message;
                message.set_radial_data(data);
                proof {
                    assert(message@ =~= (Message31V { radial_data: Some(data@), ..prevm@ }));
                    assert(spec_apply_block(bytes0, start as int, pointer as int, prevm@)
                        == Ok::<(Message31V, int), Error>((message@, cur.spec_pos())));
                }
            },
            DataBlockProduct::Reflectivity
            | DataBlockProduct::Velocity
            | DataBlockProduct::SpectrumWidth
            | DataBlockProduct::DifferentialReflectivity
            | DataBlockProduct::DifferentialPhase
            | DataBlockProduct::CorrelationCoefficient
            | DataBlockProduct::ClutterFilterProbability => {
                let generic_data = match GenericData::decode(cur) {
                    Ok(d) => d,
                    Err(e) => {
                        proof {
                            assert(spec_apply_block(bytes0, start as int, pointer as int, old(message)@)
                                == Err::<(Message31V, int), Error>(Error::Truncated));
                        }
                        return Err(e);
                    },
                };
                proof {
                    assert(generic_data@ =~= spec_generic_data_at(bytes0, target as int));
                }
                let moment_size = generic_data.moment_size();
                match cur.demand(moment_size) {
                    Ok(()) => {},
                    Err(e) => {
                        proof {
                            assert(spec_apply_block(bytes0, start as int, pointer as int, old(message)@)
                                == Err::<(Message31V, int), Error>(Error::Truncated));
                        }
                        return Err(e);
                    },
                }
                let moment_data = cur.take_bytes(moment_size);
                proof {
                    assert(generic_data.data_name@ == tag.data_name@);
                    assert(spec_product(generic_data.data_name@) == Some(product));
                }
                let data = DataMoment::new(product, generic_data, moment_data);
                let ghost prev = *message;
                message.set_data_moment(data);
                proof {
                    assert(spec_moment_slot(prev, DataBlockProduct::Reflectivity)
                        == prev.reflectivity_data && spec_moment_slot(
                        *message,
                        DataBlockProduct::Reflectivity,
                    ) == message.reflectivity_data);
                    assert(spec_moment_slot(prev, DataBlockProduct::Velocity)
                        == prev.velocity_data && spec_moment_slot(
                        *message,
                        DataBlockProduct::Velocity,
                    ) == message.velocity_data);
                    assert(spec_moment_slot(prev, DataBlockProduct::SpectrumWidth)
                        == prev.sw_data && spec_moment_slot(
                        *message,
                        DataBlockProduct::SpectrumWidth,
                    ) == message.sw_data);
                    assert(spec_moment_slot(prev, DataBlockProduct::DifferentialReflectivity)
                        == prev.zdr_data && spec_moment_slot(
                        *message,
                        DataBlockProduct::DifferentialReflectivity,
                    ) == message.zdr_data);
                    assert(spec_moment_slot(prev, DataBlockProduct::DifferentialPhase)
                        == prev.phi_data && spec_moment_slot(
                        *message,
                        DataBlockProduct::DifferentialPhase,
                    ) == message.phi_data);
                    assert(spec_moment_slot(prev, DataBlockProduct::CorrelationCoefficient)
                        == prev.rho_data && spec_moment_slot(
                        *message,
                        DataBlockProduct::CorrelationCoefficient,
                    ) == message.rho_data);
                    assert(spec_moment_slot(prev, DataBlockProduct::ClutterFilterProbability)
                        == prev.cfp_data && spec_moment_slot(
                        *message,
                        DataBlockProduct::ClutterFilterProbability,
                    ) == message.cfp_data);
                    assert(message@ =~= spec_with_moment(prev@, data@));
                    assert(spec_apply_block(bytes0, start as int, pointer as int, prev@)
                        == Ok::<(Message31V, int), Error>((message@, cur.spec_pos())));
                }
            },
        }
        Ok(())
    }

    /// Resolves one type-31 message's sub-blocks. The cursor stands just
    /// past the message's `MessageHeader`; on success it is left just past
    /// the message's last listed sub-block, and one well-formed radial has
    /// been appended under its own elevation number.
    #[verifier::rlimit(100)]
    fn decode_message_31(cur: &mut ByteCursor, file: &mut DataFile) -> (r: Result<(), Error>)
        requires
            old(file).wf(),
        ensures
            final(cur).bytes() == old(cur).bytes(),
            r matches Err(e) ==> spec_message31(old(cur).bytes(), old(cur).spec_pos()) == Err::<
                (Message31V, int),
                Error,
            >(e),
            r is Err ==> *final(file) == *old(file),
            r matches Ok(()) ==> {
                &&& final(file).wf()
                &&& final(file).spec_volume_header() == old(file).spec_volume_header()
                &&& old(cur).spec_pos() + 12 <= final(cur).spec_pos() <= final(cur).bytes().len()
                &&& spec_message31(old(cur).bytes(), old(cur).spec_pos()) matches Ok(pair)
                    && pair.1 == final(cur).spec_pos()
                &&& ({
                    let pair = spec_message31(old(cur).bytes(), old(cur).spec_pos())->Ok_0;
                    let k = pair.0.header.elev_num as u8;
                    final(file).scans_view() == old(file).scans_view().insert(
                        k,
                        (if old(file).scans_view().contains_key(k) {
                            old(file).scans_view()[k]
                        } else {
                            Seq::<Message31V>::empty()
                        }).push(pair.0),
                    )
                })
                &&& exists|m: Message31|
                    {
                        &&& m.wf()
                        &&& m@ == spec_message31(old(cur).bytes(), old(cur).spec_pos())->Ok_0.0
                        &&& m.header.matches_bytes(old(cur).bytes(), old(cur).spec_pos())
                        &&& final(file).scans().dom() == old(file).scans().dom().insert(
                            m.header.elev_num,
                        )
                        &&& final(file).scans()[m.header.elev_num]@ == (if old(
                            file,
                        ).scans().contains_key(m.header.elev_num) {
                            old(file).scans()[m.header.elev_num]@
                        } else {
                            Seq::<Message31>::empty()
                        }).push(m)
                        &&& forall|j: u8|
                            j != m.header.elev_num && old(file).scans().contains_key(j)
                                ==> final(file).scans()[j] == old(file).scans()[j]
                    }
            },
    {
        let start = cur.position();
        let ghost bytes0 = cur.bytes();
        let ghost file0 = *file;

        let header = match Message31Header::decode(cur) {
            Ok(h) => h,
            Err(e) => {
                proof {
                    assert(spec_message31(bytes0, start as int) == Err::<
                        (Message31V, int),
                        Error,
                    >(Error::Truncated));
                }
                return Err(e);
            },
        };
        proof {
            assert(header@ =~= spec_message31_header_at(bytes0, start as int));
        }
        let count = header.data_block_count as usize;
        let mut message = Message31::new(header);
        let ghost header0 = message.header;

        // Read the pointer table: `count` big-endian offsets, each relative
        // to the message start.
        let mut pointers: Vec<u32> = Vec::new();
        let mut i: usize = 0;
        while i < count
            invariant
                i <= count,
                pointers@.len() == i,
                bytes0 == old(cur).bytes(),
                start == old(cur).spec_pos(),
                cur.bytes() == bytes0,
                cur.spec_pos() == start + MESSAGE31_HEADER_SIZE + 4 * i,
                cur.spec_pos() <= bytes0.len(),
                start + MESSAGE31_HEADER_SIZE <= bytes0.len(),
                count as int == spec_message31_header_at(bytes0, start as int).data_block_count,
                forall|q: int|
                    0 <= q < i ==> pointers@[q] == be32(
                        bytes0,
                        start + MESSAGE31_HEADER_SIZE + 4 * q,
                    ),
            decreases count - i,
        {
            match cur.demand(4) {
                Ok(()) => {},
                Err(e) => {
                    proof {
                        assert(start + MESSAGE31_HEADER_SIZE + 4 * (count as int)
                            > bytes0.len());
                        assert(spec_message31(bytes0, start as int) == Err::<
                            (Message31V, int),
                            Error,
                        >(Error::Truncated));
                    }
                    return Err(e);
                },
            }
            let p = cur.take_u32();
            pointers.push(p);
            i = i + 1;
        }

        proof {
            assert(message@ =~= spec_fresh_message31(
                spec_message31_header_at(bytes0, start as int),
            ));
            assert(spec_message31(bytes0, start as int) == spec_resolve_blocks(
                bytes0,
                start as int,
                count as int,
                0,
                message@,
                cur.spec_pos(),
            ));
        }

        // Follow each pointer in listed order; pointers need not be
        // monotonic, so this may seek backward.
        let mut j: usize = 0;
        while j < pointers.len()
            invariant
                bytes0 == old(cur).bytes(),
                start == old(cur).spec_pos(),
                file0 == *old(file),
                cur.bytes() == bytes0,
                start + 12 <= cur.spec_pos() <= bytes0.len(),
                *file == file0,
                message.wf(),
                message.header == header0,
                pointers@.len() == count,
                j <= count,
                forall|q: int|
                    0 <= q < count ==> pointers@[q] == be32(
                        bytes0,
                        start + MESSAGE31_HEADER_SIZE + 4 * q,
                    ),
                spec_message31(bytes0, start as int) == spec_resolve_blocks(
                    bytes0,
                    start as int,
                    count as int,
                    j as int,
                    message@,
                    cur.spec_pos(),
                ),
            decreases pointers@.len() - j,
        {
            let pointer = pointers[j];
            let ghost mtop = message@;
            let ghost postop = cur.spec_pos();
            match Self::apply_block(cur, &mut message, start, pointer) {
                Ok(()) => {},
                Err(e) => {
                    proof {
                        assert(spec_resolve_blocks(
                            bytes0,
                            start as int,
                            count as int,
                            j as int,
                            mtop,
                            postop,
                        ) == Err::<(Message31V, int), Error>(e));
                    }
                    return Err(e);
                },
            }
            proof {
                assert(spec_resolve_blocks(
                    bytes0,
                    start as int,
                    count as int,
                    j as int,
                    mtop,
                    postop,
                ) == spec_resolve_blocks(
                    bytes0,
                    start as int,
                    count as int,
                    j as int + 1,
                    message@,
                    cur.spec_pos(),
                ));
            }
            j = j + 1;
        }

        proof {
            assert(spec_message31(bytes0, start as int) == Ok::<(Message31V, int), Error>(
                (message@, cur.spec_pos()),
            ));
        }
        let ghost mv = message@;
        let ghost k = message.header.elev_num;
        file.insert_radial(message);
        proof {
            assert(mv.header.elev_num as u8 == k);
            let before = file0.scans_view();
            let target = before.insert(
                k,
                (if before.contains_key(k) {
                    before[k]
                } else {
                    Seq::<Message31V>::empty()
                }).push(mv),
            );
            let vf = |m: Message31| m@;
            assert(file.scans()[k]@.map_values(vf) =~= (if before.contains_key(k) {
                before[k]
            } else {
                Seq::<Message31V>::empty()
            }).push(mv));
            assert forall|q: u8| #[trigger]
                file.scans_view().contains_key(q) == target.contains_key(q) && (
                file.scans_view().contains_key(q) ==> file.scans_view()[q] == target[q]) by {
                if q == k {
                } else {
                    if file0.scans().contains_key(q) {
                        assert(file.scans()[q] == file0.scans()[q]);
                    }
                }
            }
            assert(file.scans_view() =~= target);
        }
        Ok(())
    }

    /// Decodes one archive buffer, decompressing it first when it carries
    /// the compression marker. Walks fixed message frames: type-31 messages
    /// are fully resolved, every other type is skipped by the fixed legacy
    /// frame size. Any error aborts the whole decode with no partial result.
    pub fn from_vec(data: Vec<u8>) -> (r: Result<DataFile, Error>)
        ensures
            r matches Ok(f) ==> {
                &&& f.wf()
                &&& f.spec_volume_header().matches_bytes(data@, 0)
                &&& data@.len() >= VOLUME_HEADER_SIZE
            },
            !spec_is_compressed(data@) && data@.len() < VOLUME_HEADER_SIZE ==> r is Err,
            spec_is_compressed(data@) && spec_decompress(data@) is Err ==> r == Err::<
                DataFile,
                Error,
            >(spec_decompress(data@)->Err_0),
            match r {
                Ok(f) => spec_decode(data@) == Ok::<
                    (VolumeHeaderRecordV, Map<u8, Seq<Message31V>>),
                    Error,
                >((f.spec_volume_header()@, f.scans_view())),
                Err(e) => spec_decode(data@) == Err::<
                    (VolumeHeaderRecordV, Map<u8, Seq<Message31V>>),
                    Error,
                >(e),
            },
    {
        let ghost given = data@;
        let mut buf = data;
        if is_compressed(buf.as_slice()) {
            buf = match decompress_file(buf.as_slice()) {
                Ok(d) => d,
                Err(e) => {
                    return Err(e);
                },
            };
            proof {
                // The volume header is copied verbatim by decompression.
                assert(buf@.subrange(0, 12) =~= given.subrange(0, 12));
                assert(buf@.subrange(20, 24) =~= given.subrange(20, 24));
                assert forall|i: int| 12 <= i < 20 implies buf@[i] == given[i] by {
                    assert(buf@[i] == given.take(VOLUME_HEADER_SIZE as int)[i]);
                }
            }
        }
        proof {
            assert(spec_decode(given) == spec_decode_plain(buf@));
        }

        let mut cur = ByteCursor::new(buf);
        let file_header = match VolumeHeaderRecord::decode(&mut cur) {
            Ok(h) => h,
            Err(e) => {
                proof {
                    assert(spec_decode_plain(cur.bytes()) == Err::<
                        (VolumeHeaderRecordV, Map<u8, Seq<Message31V>>),
                        Error,
                    >(Error::Truncated));
                }
                return Err(e);
            },
        };
        proof {
            assert(file_header.matches_bytes(given, 0));
            assert(file_header@ =~= spec_volume_header_at(cur.bytes(), 0));
        }
        let mut file = DataFile::from_header(file_header);
        let ghost bytes0 = cur.bytes();
        let ghost header0 = file_header;
        proof {
            assert(file.scans_view() =~= Map::<u8, Seq<Message31V>>::empty());
        }

        while cur.has_remaining()
            invariant
                file.wf(),
                file.spec_volume_header() == header0,
                header0@ == spec_volume_header_at(bytes0, 0),
                cur.bytes() == bytes0,
                VOLUME_HEADER_SIZE <= cur.spec_pos() <= bytes0.len(),
                given == data@,
                !(spec_is_compressed(data@) && spec_decompress(data@) is Err),
                spec_decode(given) == spec_decode_plain(bytes0),
                bytes0.len() >= VOLUME_HEADER_SIZE,
                spec_dispatch(bytes0, VOLUME_HEADER_SIZE as int, Map::empty())
                    == spec_dispatch(bytes0, cur.spec_pos(), file.scans_view()),
            decreases bytes0.len() - cur.spec_pos(),
        {
            let ghost postop = cur.spec_pos();
            let ghost viewtop = file.scans_view();
            let message_header = match MessageHeader::decode(&mut cur) {
                Ok(h) => h,
                Err(e) => {
                    proof {
                        assert(spec_dispatch(bytes0, postop, viewtop) == Err::<
                            Map<u8, Seq<Message31V>>,
                            Error,
                        >(Error::Truncated));
                    }
                    return Err(e);
                },
            };
            proof {
                assert(message_header.msg_type == bytes0[postop + 15]);
            }
            if message_header.msg_type() == 31 {
                match Self::decode_message_31(&mut cur, &mut file) {
                    Ok(()) => {},
                    Err(e) => {
                        proof {
                            assert(spec_dispatch(bytes0, postop, viewtop) == Err::<
                                Map<u8, Seq<Message31V>>,
                                Error,
                            >(e));
                        }
                        return Err(e);
                    },
                }
                proof {
                    assert(spec_dispatch(bytes0, postop, viewtop) == spec_dispatch(
                        bytes0,
                        cur.spec_pos(),
                        file.scans_view(),
                    ));
                }
            } else {
                // Every non-31 message occupies a constant legacy frame of
                // 2432 bytes; skip what the header did not already cover.
                cur.advance_at_most(MESSAGE_FRAME_SIZE - MESSAGE_HEADER_SIZE);
                proof {
                    assert(spec_dispatch(bytes0, postop, viewtop) == spec_dispatch(
                        bytes0,
                        cur.spec_pos(),
                        file.scans_view(),
                    ));
                }
            }
        }
        proof {
            assert(spec_dispatch(bytes0, cur.spec_pos(), file.scans_view()) == Ok::<
                Map<u8, Seq<Message31V>>,
                Error,
            >(file.scans_view()));
            assert(spec_decode(given) == Ok::<
                (VolumeHeaderRecordV, Map<u8, Seq<Message31V>>),
                Error,
            >((file.spec_volume_header()@, file.scans_view())));
        }
        Ok(file)
    }

    /// Scan data grouped by elevation number, each elevation's radials
    /// re-sorted by azimuth ascending. This is the explicit finalize step:
    /// decode itself never reorders.
    pub fn as_elevation_scans(self) -> (r: BTreeMap<u8, Vec<Message31>>)
        ensures
            r@.dom() == self.scans().dom(),
            forall|k: u8| #[trigger]
                r@.contains_key(k) ==> {
                    &&& sorted_by_azm(r@[k]@)
                    &&& r@[k]@.to_multiset() == self.scans()[k]@.to_multiset()
                    &&& r@[k]@.len() == self.scans()[k]@.len()
                    &&& forall|i: int|
                        0 <= i < r@[k]@.len() ==> self.scans()[k]@.contains(#[trigger] r@[k]@[i])
                    &&& forall|a: u32| #[trigger]
                        radials_with_azm(r@[k]@, a) == radials_with_azm(self.scans()[k]@, a)
                },
    {
        let ghost orig = self.scans();
        let mut scans = self.elevation_scans;
        let mut out: BTreeMap<u8, Vec<Message31>> = BTreeMap::new();
        let mut k: u16 = 0;
        while k < 256
            invariant
                k <= 256,
                orig == self.scans(),
                forall|j: u8| j >= k ==> !#[trigger] out@.contains_key(j),
                forall|j: u8|
                    j < k ==> (#[trigger] out@.contains_key(j) <==> orig.contains_key(j)),
                forall|j: u8| #[trigger]
                    out@.contains_key(j) ==> {
                        &&& sorted_by_azm(out@[j]@)
                        &&& out@[j]@.to_multiset() == orig[j]@.to_multiset()
                        &&& out@[j]@.len() == orig[j]@.len()
                        &&& forall|i: int|
                            0 <= i < out@[j]@.len() ==> orig[j]@.contains(#[trigger] out@[j]@[i])
                        &&& forall|a: u32| #[trigger]
                            radials_with_azm(out@[j]@, a) == radials_with_azm(orig[j]@, a)
                    },
                forall|j: u8|
                    j >= k ==> (#[trigger] scans@.contains_key(j) <==> orig.contains_key(j))
                        && (scans@.contains_key(j) ==> scans@[j] == orig[j]),
            decreases 256 - k,
        {
            let key = k as u8;
            match scans.remove(&key) {
                Some(list) => {
                    let sorted = sort_radials_by_azm(list);
                    out.insert(key, sorted);
                },
                None => {},
            }
            k = k + 1;
        }
        proof {
            assert(out@.dom() =~= orig.dom());
        }
        out
    }

    /// Decodes an archive from a borrowed byte slice.
    pub fn from_slice(data: &[u8]) -> (r: Result<DataFile, Error>)
        ensures
            r matches Ok(f) ==> {
                &&& f.wf()
                &&& f.spec_volume_header().matches_bytes(data@, 0)
                &&& data@.len() >= VOLUME_HEADER_SIZE
            },
            !spec_is_compressed(data@) && data@.len() < VOLUME_HEADER_SIZE ==> r is Err,
            spec_is_compressed(data@) && spec_decompress(data@) is Err ==> r == Err::<
                DataFile,
                Error,
            >(spec_decompress(data@)->Err_0),
            match r {
                Ok(f) => spec_decode(data@) == Ok::<
                    (VolumeHeaderRecordV, Map<u8, Seq<Message31V>>),
                    Error,
                >((f.spec_volume_header()@, f.scans_view())),
                Err(e) => spec_decode(data@) == Err::<
                    (VolumeHeaderRecordV, Map<u8, Seq<Message31V>>),
                    Error,
                >(e),
            },
    {
        Self::from_vec(vstd::slice::slice_to_vec(data))
    }
}

/// Sorts one elevation's radials by ascending azimuth bit pattern,
/// preserving the collection of radials. Repeatedly moves the first
/// minimal remaining radial to the output.
fn sort_radials_by_azm(v: Vec<Message31>) -> (r: Vec<Message31>)
    ensures
        sorted_by_azm(r@),
        r@.to_multiset() == v@.to_multiset(),
        r@.len() == v@.len(),
        forall|i: int| 0 <= i < r@.len() ==> v@.contains(#[trigger] r@[i]),
        forall|a: u32| #[trigger] radials_with_azm(r@, a) == radials_with_azm(v@, a),
{
    let mut input = v;
    let ghost orig = input@;
    let mut out: Vec<Message31> = Vec::new();
    while input.len() > 0
        invariant
            sorted_by_azm(out@),
            out@.to_multiset().add(input@.to_multiset()) == orig.to_multiset(),
            out@.len() + input@.len() == orig.len(),
            forall|i: int| 0 <= i < out@.len() ==> orig.contains(#[trigger] out@[i]),
            forall|i: int| 0 <= i < input@.len() ==> orig.contains(#[trigger] input@[i]),
            forall|i: int, j: int|
                0 <= i < out@.len() && 0 <= j < input@.len() ==> out@[i].header.azm
                    <= input@[j].header.azm,
            forall|a: u32| #[trigger]
                radials_with_azm(out@, a) + radials_with_azm(input@, a) == radials_with_azm(
                    orig,
                    a,
                ),
        decreases input@.len(),
    {
        // Index of the first radial with minimal azimuth.
        let mut m: usize = 0;
        let mut idx: usize = 1;
        while idx < input.len()
            invariant
                m < idx <= input@.len() || (idx <= input@.len() && m == 0),
                m < input@.len(),
                input@.len() > 0,
                forall|i: int| 0 <= i < idx ==> input@[m as int].header.azm <= #[trigger] input@[i].header.azm,
                forall|i: int| 0 <= i < m ==> #[trigger] input@[i].header.azm > input@[m as int].header.azm,
            decreases input@.len() - idx,
        {
            if input[idx].header.azm < input[m].header.azm {
                m = idx;
            }
            idx = idx + 1;
        }
        let ghost before = input@;
        let ghost outbefore = out@;
        let x = input.remove(m);
        proof {
            assert(before.remove(m as int).to_multiset() =~= before.to_multiset().remove(x));
            assert(out@.push(x).to_multiset() =~= out@.to_multiset().insert(x));
            assert(orig.contains(x));
            assert forall|j: int| 0 <= j < input@.len() implies x.header.azm
                <= #[trigger] input@[j].header.azm && orig.contains(input@[j]) by {
                if j < m {
                    assert(input@[j] == before[j]);
                } else {
                    assert(input@[j] == before[j + 1]);
                }
            }
        }
        out.push(x);
        proof {
            assert forall|a: u32| #[trigger]
                radials_with_azm(out@, a) + radials_with_azm(input@, a) == radials_with_azm(
                    orig,
                    a,
                ) by {
                lemma_azm_class_push(outbefore, x, a);
                lemma_azm_class_remove_first_min(before, m as int, a);
                if x.header.azm == a {
                    assert(radials_with_azm(outbefore, a).push(x) + radials_with_azm(input@, a)
                        =~= radials_with_azm(outbefore, a) + (seq![x] + radials_with_azm(
                        input@,
                        a,
                    )));
                }
            }
        }
    }
    proof {
        assert(out@.to_multiset() =~= orig.to_multiset());
    }
    out
}

} // verus!
