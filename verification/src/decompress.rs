//! Bzip2 block framing: detection of the compression marker and
//! reassembly of the plaintext file from the archive's interleaved
//! size-prefixed bzip2 streams.

use vstd::prelude::*;

use crate::error::Error;
use crate::model::VOLUME_HEADER_SIZE;

verus! {

broadcast use crate::codec::ByteCursor::lemma_pos_range;

/// A compressed archive carries this two-byte marker at bytes 28 and 29:
/// the magic of the first bzip2 stream, just past the volume header and
/// the first block's 4-byte size prefix.
pub open spec fn spec_is_compressed(data: Seq<u8>) -> bool {
    &&& data.len() >= 30
    &&& data[28] == 66
    &&& data[29] == 90
}

/// Determines whether the provided archive buffer is compressed. A pure
/// function of bytes 28 and 29; no input is consumed.
pub fn is_compressed(data: &[u8]) -> (r: bool)
    ensures
        r == spec_is_compressed(data@),
{
    data.len() >= 30 && data[28] == 66 && data[29] == 90
}

/// Whether `BzDecoder::read_to_end` succeeds on this input: one complete
/// bzip2 stream stands at the front of the bytes.
pub uninterp spec fn bz_stream_ok(s: Seq<u8>) -> bool;

/// The plaintext that decompressing the single bzip2 stream at the front
/// of the bytes yields, a function of those bytes alone.
pub uninterp spec fn bz_stream_output(s: Seq<u8>) -> Seq<u8>;

/// How many input bytes the single bzip2 stream at the front of the bytes
/// occupies, as `BzDecoder::total_in` reports it.
pub uninterp spec fn bz_stream_consumed(s: Seq<u8>) -> int;

/// Relies on bzip2::read::BzDecoder: `read_to_end` decompresses exactly one
/// bzip2 stream from the front of `data` to its internal end marker, a pure
/// function of those bytes, and `total_in` reports how many input bytes the
/// decompressor consumed, which can be at most the input's length.
#[verifier::external_body]
fn bz_decompress_stream(data: &[u8]) -> (r: Result<(Vec<u8>, usize), Error>)
    ensures
        r is Ok <==> bz_stream_ok(data@),
        r matches Ok((out, used)) ==> {
            &&& out@ == bz_stream_output(data@)
            &&& used == bz_stream_consumed(data@)
            &&& used <= data@.len()
        },
        r matches Err(e) ==> e == Error::Truncated,
{
    let mut decoder = bzip2::read::BzDecoder::new(data);
    let mut out: Vec<u8> = Vec::new();
    if std::io::Read::read_to_end(&mut decoder, &mut out).is_err() {
        return Err(Error::Truncated);
    }
    match usize::try_from(decoder.total_in()) {
        Ok(used) => Ok((out, used)),
        Err(_) => Err(Error::Truncated),
    }
}

/// The plaintext that the block framing after the volume header yields:
/// repeatedly skip a 4-byte size prefix, decompress one bzip2 stream,
/// advance past the bytes it consumed, until no input remains. A corrupt
/// or truncated stream fails the whole file.
pub open spec fn spec_frames(rem: Seq<u8>) -> Result<Seq<u8>, Error>
    decreases rem.len(),
{
    if rem.len() == 0 {
        Ok(Seq::empty())
    } else if rem.len() < 4 {
        Err(Error::Truncated)
    } else {
        let body = rem.skip(4);
        if !bz_stream_ok(body) {
            Err(Error::Truncated)
        } else {
            let used = if 0 <= bz_stream_consumed(body) <= body.len() {
                bz_stream_consumed(body)
            } else {
                body.len() as int
            };
            match spec_frames(body.skip(used)) {
                Ok(rest) => Ok(bz_stream_output(body) + rest),
                Err(e) => Err(e),
            }
        }
    }
}

/// The whole decompression: the volume header is copied verbatim (it is
/// never compressed), and the block framing decodes the rest. Bytes not
/// carrying the compression marker are rejected outright.
pub open spec fn spec_decompress(data: Seq<u8>) -> Result<Seq<u8>, Error> {
    if !spec_is_compressed(data) {
        Err(Error::DecompressionUnsupported)
    } else {
        match spec_frames(data.skip(VOLUME_HEADER_SIZE as int)) {
            Ok(rest) => Ok(data.take(VOLUME_HEADER_SIZE as int) + rest),
            Err(e) => Err(e),
        }
    }
}

/// Given a compressed archive, decompresses it and returns a new copy of
/// the plaintext. Already-plain input fails with
/// `Error::DecompressionUnsupported`, consuming nothing.
pub fn decompress_file(data: &[u8]) -> (r: Result<Vec<u8>, Error>)
    ensures
        match r {
            Ok(out) => spec_decompress(data@) == Ok::<Seq<u8>, Error>(out@),
            Err(e) => spec_decompress(data@) == Err::<Seq<u8>, Error>(e),
        },
        r is Err <==> !spec_is_compressed(data@) || spec_frames(
            data@.skip(VOLUME_HEADER_SIZE as int),
        ) is Err,
        !spec_is_compressed(data@) ==> r == Err::<Vec<u8>, Error>(
            Error::DecompressionUnsupported,
        ),
{
    if !is_compressed(data) {
        return Err(Error::DecompressionUnsupported);
    }
    let mut out: Vec<u8> = Vec::new();
    let mut i: usize = 0;
    // The volume header is never compressed: copy it verbatim.
    while i < VOLUME_HEADER_SIZE
        invariant
            i <= VOLUME_HEADER_SIZE,
            data@.len() >= 30,
            out@ == data@.take(i as int),
        decreases VOLUME_HEADER_SIZE - i,
    {
        let b = data[i];
        out.push(b);
        i = i + 1;
        proof {
            assert(out@ =~= data@.take(i as int));
        }
    }

    let mut pos: usize = VOLUME_HEADER_SIZE;
    let ghost header: Seq<u8> = data@.take(VOLUME_HEADER_SIZE as int);
    let ghost full = spec_frames(data@.skip(VOLUME_HEADER_SIZE as int));
    let ghost mut acc: Seq<u8> = Seq::empty();
    proof {
        assert(out@ == header + acc);
    }
    loop
        invariant
            VOLUME_HEADER_SIZE <= pos < data@.len(),
            spec_is_compressed(data@),
            out@ == header + acc,
            header == data@.take(VOLUME_HEADER_SIZE as int),
            full == spec_frames(data@.skip(VOLUME_HEADER_SIZE as int)),
            (match spec_frames(data@.skip(pos as int)) {
                Ok(rest) => full == Ok::<Seq<u8>, Error>(acc + rest),
                Err(e) => full == Err::<Seq<u8>, Error>(e),
            }),
        decreases data@.len() - pos,
    {
        let len = data.len();
        if len - pos < 4 {
            return Err(Error::Truncated);
        }
        let body = vstd::slice::slice_subrange(data, pos + 4, len);
        proof {
            assert(body@ =~= data@.skip(pos as int).skip(4));
        }
        let (mut block, used) = match bz_decompress_stream(body) {
            Ok(pair) => pair,
            Err(e) => {
                return Err(e);
            },
        };
        out.append(&mut block);
        let next = pos + 4 + used;
        proof {
            let rem = data@.skip(pos as int);
            let b = rem.skip(4);
            assert(0 <= bz_stream_consumed(b) <= b.len());
            assert(data@.skip(next as int) =~= b.skip(used as int));
            let sub = spec_frames(data@.skip(next as int));
            if sub is Ok {
                assert(acc + (bz_stream_output(b) + sub->Ok_0) =~= (acc + bz_stream_output(b))
                    + sub->Ok_0);
            }
            acc = acc + bz_stream_output(b);
        }
        pos = next;
        if pos == len {
            proof {
                assert(data@.skip(pos as int) =~= Seq::<u8>::empty());
                assert(acc + Seq::<u8>::empty() =~= acc);
                assert(data@.take(VOLUME_HEADER_SIZE as int) + acc =~= out@);
            }
            return Ok(out);
        }
    }
}

} // verus!
