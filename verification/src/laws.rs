//! Library-wide laws, each proved from what the decoding contracts state.

use vstd::prelude::*;

use crate::decode::{spec_decode, spec_resolve_blocks, DataFile};
use crate::decompress::{spec_decompress, spec_frames, spec_is_compressed};
use crate::error::Error;
use crate::model::{
    spec_moment_size, spec_moment_slot, spec_product, DataBlockProduct, Message31, Message31V,
    VolumeHeaderRecordV,
};

verus! {

/// Every decoded sub-block's own tag matches the kind slot it is stored
/// under: the fixed metadata blocks carry their own kind's tag, and every
/// occupied moment slot holds a record whose tag resolves to that slot's
/// moment kind.
pub proof fn lemma_tag_matches_slot(m: Message31)
    requires
        m.wf(),
    ensures
        m.volume_data matches Some(v) ==> spec_product(v.data_block_header.data_name@) == Some(
            DataBlockProduct::VolumeData,
        ),
        m.elevation_data matches Some(v) ==> spec_product(v.data_block_header.data_name@) == Some(
            DataBlockProduct::ElevationData,
        ),
        m.radial_data matches Some(v) ==> spec_product(v.data_block_header.data_name@) == Some(
            DataBlockProduct::RadialData,
        ),
        forall|p: DataBlockProduct|
            #[trigger] spec_moment_slot(m, p) matches Some(d) ==> spec_product(d.data.data_name@)
                == Some(p),
{
}

/// Every radial a decoded file stores satisfies the tag–slot match: in
/// each of its messages, the fixed metadata blocks carry their own kind's
/// tag and every occupied moment slot's record resolves to that slot's
/// kind.
pub proof fn lemma_file_tag_matches_slot(f: DataFile)
    requires
        f.wf(),
    ensures
        forall|k: u8, i: int|
            #![trigger f.scans()[k]@[i]]
            f.scans().contains_key(k) && 0 <= i < f.scans()[k]@.len() ==> {
                let m = f.scans()[k]@[i];
                &&& (m.volume_data matches Some(v) ==> spec_product(v.data_block_header.data_name@)
                    == Some(DataBlockProduct::VolumeData))
                &&& (m.elevation_data matches Some(v) ==> spec_product(
                    v.data_block_header.data_name@,
                ) == Some(DataBlockProduct::ElevationData))
                &&& (m.radial_data matches Some(v) ==> spec_product(v.data_block_header.data_name@)
                    == Some(DataBlockProduct::RadialData))
                &&& forall|p: DataBlockProduct|
                    #[trigger] spec_moment_slot(m, p) matches Some(d) ==> spec_product(
                        d.data.data_name@,
                    ) == Some(p)
            },
{
}

/// Every moment sub-block a decoded file stores holds exactly
/// `number_data_moment_gates * data_word_size / 8` raw sample bytes.
pub proof fn lemma_file_moment_sample_length(f: DataFile)
    requires
        f.wf(),
    ensures
        forall|k: u8, i: int|
            #![trigger f.scans()[k]@[i]]
            f.scans().contains_key(k) && 0 <= i < f.scans()[k]@.len() ==> forall|
                p: DataBlockProduct,
            |
                #[trigger] spec_moment_slot(f.scans()[k]@[i], p) matches Some(d)
                    ==> d.moment_data@.len() == spec_moment_size(d.data),
{
}

/// Pointer navigation: each listed sub-block is read at
/// `message_start + pointer` alone; where the cursor stood before the
/// block — even past it, so that reaching it takes a backward seek —
/// never affects what is decoded. A pointer table whose entries decrease
/// therefore resolves exactly as a monotonic one would.
pub proof fn lemma_seek_origin_irrelevant(
    s: Seq<u8>,
    start: int,
    count: int,
    i: int,
    m: Message31V,
    pos1: int,
    pos2: int,
)
    requires
        i < count,
    ensures
        spec_resolve_blocks(s, start, count, i, m, pos1) == spec_resolve_blocks(
            s,
            start,
            count,
            i,
            m,
            pos2,
        ),
{
}

/// Every radial stored under elevation key `k` carries
/// `header.elev_num == k`.
pub proof fn lemma_elevation_grouping(f: DataFile)
    requires
        f.wf(),
    ensures
        forall|k: u8, i: int|
            #![trigger f.scans()[k]@[i]]
            f.scans().contains_key(k) && 0 <= i < f.scans()[k]@.len()
                ==> f.scans()[k]@[i].header.elev_num == k,
{
}

/// Every occupied moment slot's raw sample array holds exactly
/// `number_data_moment_gates * data_word_size / 8` bytes.
pub proof fn lemma_moment_sample_length(m: Message31)
    requires
        m.wf(),
    ensures
        forall|p: DataBlockProduct|
            #[trigger] spec_moment_slot(m, p) matches Some(d) ==> d.moment_data@.len()
                == spec_moment_size(d.data),
{
}

/// Determinism: the decode is a pure function of the input bytes, so two
/// decodes of the same buffer yield structurally identical results.
/// `DataFile::from_vec` returns exactly `spec_decode` of its input.
pub proof fn lemma_decode_deterministic(
    data: Seq<u8>,
    a: (VolumeHeaderRecordV, Map<u8, Seq<Message31V>>),
    b: (VolumeHeaderRecordV, Map<u8, Seq<Message31V>>),
)
    requires
        spec_decode(data) == Ok::<(VolumeHeaderRecordV, Map<u8, Seq<Message31V>>), Error>(a),
        spec_decode(data) == Ok::<(VolumeHeaderRecordV, Map<u8, Seq<Message31V>>), Error>(b),
    ensures
        a == b,
{
}

/// Compression transparency: decoding a compressed buffer equals decoding
/// its decompressed form, whenever the decompressed form does not itself
/// carry the compression marker at bytes 28 and 29.
pub proof fn lemma_compression_transparency(b: Seq<u8>, d: Seq<u8>)
    requires
        spec_is_compressed(b),
        spec_decompress(b) == Ok::<Seq<u8>, Error>(d),
        !spec_is_compressed(d),
    ensures
        spec_decode(b) == spec_decode(d),
{
}

/// Block framing fails only for want of bytes: its error is always
/// `Truncated`, never `DecompressionUnsupported`.
proof fn lemma_frames_error_is_truncated(rem: Seq<u8>)
    ensures
        spec_frames(rem) matches Err(e) ==> e == Error::Truncated,
    decreases rem.len(),
{
    if rem.len() >= 4 {
        let body = rem.skip(4);
        if bz_frames_used(body) >= 0 {
            lemma_frames_error_is_truncated(body.skip(bz_frames_used(body)));
        }
    }
}

/// The number of input bytes one framing step consumes of `body`, as
/// `spec_frames` accounts for them.
pub open spec fn bz_frames_used(body: Seq<u8>) -> int {
    if 0 <= crate::decompress::bz_stream_consumed(body) <= body.len() {
        crate::decompress::bz_stream_consumed(body)
    } else {
        body.len() as int
    }
}

/// Decompression rejects exactly the buffers that do not carry the
/// compression marker, and rejects them with
/// `DecompressionUnsupported`; a marked buffer can fail only as
/// `Truncated`.
pub proof fn lemma_decompress_plain_rejected(data: Seq<u8>)
    ensures
        spec_decompress(data) == Err::<Seq<u8>, Error>(Error::DecompressionUnsupported)
            <==> !spec_is_compressed(data),
{
    if spec_is_compressed(data) {
        lemma_frames_error_is_truncated(data.skip(crate::model::VOLUME_HEADER_SIZE as int));
    }
}

} // verus!
