//! The frame codec: splitting a file into frames and reassembling them.
//!
//! Encoding emits one `Name` frame, then one `Chunk` frame per slice of at
//! most [`CHUNK_SIZE_BYTES`] bytes, in order. Decoding demands the `Name`
//! frame first and only `Chunk` frames after it; anything else is a protocol
//! violation and is fatal, since once the order is broken the rest of the
//! stream cannot be trusted.

use crate::frame::{Frame, FrameView, TransferError, CHUNK_SIZE_BYTES};
use vstd::arithmetic::div_mod::{lemma_div_is_ordered, lemma_fundamental_div_mod_converse_div};
use vstd::math::min;
use vstd::prelude::*;

verus! {

/// Number of `Chunk` frames that `len` file bytes produce:
/// the ceiling of `len / CHUNK_SIZE_BYTES`.
pub open spec fn spec_chunk_count(len: nat) -> nat {
    ((len + CHUNK_SIZE_BYTES - 1) / (CHUNK_SIZE_BYTES as int)) as nat
}

/// The bytes of the `i`-th chunk of `data`.
pub open spec fn spec_chunk_at(data: Seq<u8>, i: int) -> Seq<u8> {
    data.subrange(
        i * (CHUNK_SIZE_BYTES as int),
        min(data.len() as int, (i + 1) * (CHUNK_SIZE_BYTES as int)),
    )
}

/// The `Chunk` frames of `data`, in order.
pub open spec fn spec_chunk_frames(data: Seq<u8>) -> Seq<FrameView> {
    Seq::new(spec_chunk_count(data.len()), |i: int| FrameView::Chunk(spec_chunk_at(data, i)))
}

/// The full frame sequence of a transfer of file `name` with content `data`.
pub open spec fn spec_encoding(name: Seq<char>, data: Seq<u8>) -> Seq<FrameView> {
    seq![FrameView::Name(name)] + spec_chunk_frames(data)
}

/// The views of a sequence of frames.
pub open spec fn views_of(frames: Seq<Frame>) -> Seq<FrameView> {
    frames.map(|i: int, f: Frame| f@)
}

/// A well-formed transfer: non-empty, a `Name` frame first and only once,
/// `Chunk` frames after it.
pub open spec fn spec_valid_transfer(frames: Seq<FrameView>) -> bool {
    &&& frames.len() >= 1
    &&& frames[0] is Name
    &&& forall|i: int| 1 <= i < frames.len() ==> frames[i] is Chunk
}

/// The file name a valid transfer carries.
pub open spec fn spec_transfer_name(frames: Seq<FrameView>) -> Seq<char> {
    frames[0]->Name_0
}

/// The bytes one frame contributes to the file: a chunk's payload,
/// nothing for the name marker.
pub open spec fn spec_payload(f: FrameView) -> Seq<u8> {
    match f {
        FrameView::Name(_) => Seq::empty(),
        FrameView::Chunk(c) => c,
    }
}

/// The concatenation of the chunk payloads of `frames`, in order.
pub open spec fn spec_payload_concat(frames: Seq<FrameView>) -> Seq<u8>
    decreases frames.len(),
{
    if frames.len() == 0 {
        Seq::empty()
    } else {
        spec_payload_concat(frames.drop_last()) + spec_payload(frames.last())
    }
}

/// The file content a transfer carries: the payloads of everything
/// after the name marker.
pub open spec fn spec_transfer_data(frames: Seq<FrameView>) -> Seq<u8> {
    spec_payload_concat(frames.skip(1))
}

/// How `spec_chunk_count` relates to multiples of the chunk size:
/// `k` chunks cover fewer than `len` bytes exactly when a `(k+1)`-th
/// chunk is needed.
proof fn lemma_count_bounds(len: int, k: int)
    requires
        0 <= len,
        0 <= k,
    ensures
        k * (CHUNK_SIZE_BYTES as int) < len ==> k + 1 <= spec_chunk_count(len as nat),
        k * (CHUNK_SIZE_BYTES as int) >= len ==> spec_chunk_count(len as nat) <= k,
{
    let c = CHUNK_SIZE_BYTES as int;
    if k * c < len {
        assert((k + 1) * c == k * c + c) by (nonlinear_arith);
        lemma_div_is_ordered((k + 1) * c, len + c - 1, c);
        lemma_fundamental_div_mod_converse_div((k + 1) * c, c, k + 1, 0);
    } else {
        lemma_div_is_ordered(len + c - 1, k * c + c - 1, c);
        assert(k * c + c - 1 == k * c + (c - 1));
        lemma_fundamental_div_mod_converse_div(k * c + c - 1, c, k, c - 1);
    }
}

/// Law: the chunk count is the ceiling of `len / CHUNK_SIZE_BYTES` — zero
/// for an empty file, and otherwise the least count whose chunks cover all
/// `len` bytes.
pub proof fn lemma_chunk_count_is_ceiling(len: nat)
    ensures
        len == 0 ==> spec_chunk_count(len) == 0,
        len > 0 ==> spec_chunk_count(len) * CHUNK_SIZE_BYTES >= len,
        len > 0 ==> (spec_chunk_count(len) - 1) * CHUNK_SIZE_BYTES < len,
{
    let c = CHUNK_SIZE_BYTES as int;
    let count = spec_chunk_count(len) as int;
    if len == 0 {
        vstd::arithmetic::div_mod::lemma_basic_div(c - 1, c);
    } else {
        lemma_count_bounds(len as int, count);
        assert(count * c >= len);
        lemma_count_bounds(len as int, count - 1);
        assert((count - 1) * c < len);
    }
}

/// Splits `data` into the frames of a transfer named `name`: the name
/// marker, then chunks of at most `CHUNK_SIZE_BYTES` bytes each.
pub fn encode_frames(name: &str, data: &Vec<u8>) -> (frames: Vec<Frame>)
    ensures
        views_of(frames@) == spec_encoding(name@, data@),
        frames@.len() == 1 + spec_chunk_count(data@.len()),
{
    let ghost c = CHUNK_SIZE_BYTES as int;
    let ghost count = spec_chunk_count(data@.len()) as int;
    let mut frames: Vec<Frame> = Vec::new();
    frames.push(Frame::Name(name.to_owned()));
    let mut pos: usize = 0;
    let ghost mut k: int = 0;
    proof {
        lemma_count_bounds(data@.len() as int, 0);
    }
    while pos < data.len()
        invariant
            0 <= k <= count,
            count == spec_chunk_count(data@.len()),
            c == CHUNK_SIZE_BYTES as int,
            pos == min(k * c, data@.len() as int),
            frames@.len() == k + 1,
            views_of(frames@) =~= seq![FrameView::Name(name@)] + spec_chunk_frames(data@).take(k),
        decreases data@.len() - pos,
    {
        proof {
            lemma_count_bounds(data@.len() as int, k);
            assert(pos == k * c);
        }
        let end: usize = if data.len() - pos < CHUNK_SIZE_BYTES {
            data.len()
        } else {
            pos + CHUNK_SIZE_BYTES
        };
        proof {
            assert((k + 1) * c == k * c + c) by (nonlinear_arith);
            assert(end == min(data@.len() as int, (k + 1) * c));
        }
        let mut chunk: Vec<u8> = Vec::new();
        let mut j: usize = pos;
        while j < end
            invariant
                pos <= j <= end <= data@.len(),
                chunk@ =~= data@.subrange(pos as int, j as int),
            decreases end - j,
        {
            chunk.push(data[j]);
            j += 1;
        }
        assert(chunk@ =~= spec_chunk_at(data@, k));
        let ghost prev = frames@;
        frames.push(Frame::Chunk(chunk));
        pos = end;
        proof {
            assert(k + 1 <= count);
            assert(frames@ =~= prev.push(frames@.last()));
            assert(frames@.last()@ == spec_chunk_frames(data@)[k]);
            assert(views_of(frames@) =~= views_of(prev).push(spec_chunk_frames(data@)[k]));
            k = k + 1;
            assert(spec_chunk_frames(data@).take(k) =~= spec_chunk_frames(data@).take(k - 1).push(
                spec_chunk_frames(data@)[k - 1],
            ));
            assert(views_of(frames@) =~= seq![FrameView::Name(name@)]
                + spec_chunk_frames(data@).take(k));
        }
    }
    proof {
        lemma_count_bounds(data@.len() as int, k);
        assert(k == count);
        assert(spec_chunk_frames(data@).take(count) =~= spec_chunk_frames(data@));
        assert(views_of(frames@) =~= spec_encoding(name@, data@));
    }
    frames
}

/// One step of the encoding rule against a source that is read in slices of
/// at most `CHUNK_SIZE_BYTES` bytes: an empty read ends the stream with no
/// frame, any other read becomes one `Chunk` frame, and a short read means
/// the end of the file, so the caller keeps reading only after a full chunk.
pub fn chunk_read_step(bytes: Vec<u8>) -> (r: (Option<Frame>, bool))
    ensures
        bytes@.len() == 0 ==> r.0 is None,
        bytes@.len() > 0 ==> (r.0 matches Some(f) && f@ == FrameView::Chunk(bytes@)),
        r.1 == (bytes@.len() >= CHUNK_SIZE_BYTES),
{
    if bytes.len() == 0 {
        (None, false)
    } else {
        let keep_reading = bytes.len() >= CHUNK_SIZE_BYTES;
        (Some(Frame::Chunk(bytes)), keep_reading)
    }
}

/// Reassembles a transfer: demands the `Name` frame first and only `Chunk`
/// frames after it, and returns the file name with the concatenated chunk
/// payloads. Succeeds exactly on well-formed transfers; every other shape —
/// an empty stream, a first frame that is not `Name`, a later frame that is
/// not `Chunk` — is a protocol violation.
pub fn reassemble(frames: &Vec<Frame>) -> (r: Result<(String, Vec<u8>), TransferError>)
    ensures
        r is Ok <==> spec_valid_transfer(views_of(frames@)),
        r matches Ok(p) ==> p.0@ == spec_transfer_name(views_of(frames@)),
        r matches Ok(p) ==> p.1@ == spec_transfer_data(views_of(frames@)),
        r matches Err(e) ==> e == TransferError::ProtocolViolation,
{
    let ghost fs = views_of(frames@);
    if frames.len() == 0 {
        return Err(TransferError::ProtocolViolation);
    }
    let name: String = match &frames[0] {
        Frame::Name(n) => n.clone(),
        Frame::Chunk(_) => {
            assert(fs[0] is Chunk);
            return Err(TransferError::ProtocolViolation);
        },
    };
    let mut data: Vec<u8> = Vec::new();
    let mut i: usize = 1;
    while i < frames.len()
        invariant
            1 <= i <= frames@.len(),
            fs == views_of(frames@),
            fs[0] == FrameView::Name(name@),
            forall|j: int| 1 <= j < i ==> fs[j] is Chunk,
            data@ == spec_payload_concat(fs.subrange(1, i as int)),
        decreases frames@.len() - i,
    {
        match &frames[i] {
            Frame::Chunk(chunk) => {
                let ghost before = data@;
                let mut j: usize = 0;
                while j < chunk.len()
                    invariant
                        j <= chunk@.len(),
                        data@ == before + chunk@.take(j as int),
                    decreases chunk@.len() - j,
                {
                    data.push(chunk[j]);
                    j += 1;
                }
                proof {
                    assert(chunk@.take(chunk@.len() as int) =~= chunk@);
                    let ext = fs.subrange(1, i + 1);
                    assert(ext.drop_last() =~= fs.subrange(1, i as int));
                    assert(ext.last() == fs[i as int]);
                    assert(spec_payload(fs[i as int]) == chunk@);
                    assert(data@ == spec_payload_concat(ext));
                }
            },
            Frame::Name(_) => {
                assert(fs[i as int] is Name);
                return Err(TransferError::ProtocolViolation);
            },
        }
        i += 1;
    }
    proof {
        assert(spec_valid_transfer(fs));
        assert(fs.subrange(1, fs.len() as int) =~= fs.skip(1));
    }
    Ok((name, data))
}

/// The payloads of the chunk frames of `data`, taken `k` frames at a time,
/// concatenate back to the first `k * CHUNK_SIZE_BYTES` bytes of `data`.
proof fn lemma_payload_concat_chunks(data: Seq<u8>, k: int)
    requires
        0 <= k <= spec_chunk_count(data.len()),
    ensures
        spec_payload_concat(spec_chunk_frames(data).take(k)) == data.take(
            min(k * (CHUNK_SIZE_BYTES as int), data.len() as int),
        ),
    decreases k,
{
    let c = CHUNK_SIZE_BYTES as int;
    let chunks = spec_chunk_frames(data);
    if k == 0 {
        assert(chunks.take(0) =~= Seq::<FrameView>::empty());
        assert(spec_payload_concat(chunks.take(0)) =~= data.take(0));
    } else {
        lemma_payload_concat_chunks(data, k - 1);
        lemma_count_bounds(data.len() as int, k - 1);
        assert((k - 1) * c < data.len());
        assert(chunks.take(k).drop_last() =~= chunks.take(k - 1));
        assert(chunks.take(k).last() == FrameView::Chunk(spec_chunk_at(data, k - 1)));
        assert((k - 1) * c + c == k * c) by (nonlinear_arith);
        assert(data.take((k - 1) * c) + spec_chunk_at(data, k - 1) =~= data.take(
            min(k * c, data.len() as int),
        ));
    }
}

/// Law: a round trip through the codec is the identity. The encoding of any
/// file name and content is a well-formed transfer, and reassembling it
/// yields that name and byte-identical content.
pub proof fn lemma_round_trip(name: Seq<char>, data: Seq<u8>)
    ensures
        spec_valid_transfer(spec_encoding(name, data)),
        spec_transfer_name(spec_encoding(name, data)) == name,
        spec_transfer_data(spec_encoding(name, data)) == data,
{
    let c = CHUNK_SIZE_BYTES as int;
    let enc = spec_encoding(name, data);
    let chunks = spec_chunk_frames(data);
    let count = spec_chunk_count(data.len()) as int;
    assert(enc[0] == FrameView::Name(name));
    assert(forall|i: int| 1 <= i < enc.len() ==> enc[i] == chunks[i - 1] && enc[i] is Chunk);
    assert(enc.skip(1) =~= chunks);
    lemma_payload_concat_chunks(data, count);
    lemma_count_bounds(data.len() as int, count);
    assert(count * c >= data.len());
    assert(chunks.take(count) =~= chunks);
    assert(data.take(min(count * c, data.len() as int)) =~= data);
}

} // verus!
