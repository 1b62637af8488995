//! The client side of an upload: the driver that feeds the outbound stream
//! and judges the transfer's outcome.
//!
//! The driver runs two halves — a producer that encodes the local file into
//! frames, and the call that streams them to the server — and the transfer
//! succeeds only when both did: a short-circuit success of the call never
//! masks a failed producer.

use crate::codec;
use crate::frame::{Frame, TransferError};
use vstd::prelude::*;

verus! {

/// Builds the whole outbound stream of an upload: the name marker, then the
/// file's bytes in chunks of at most `CHUNK_SIZE_BYTES` each, in order.
pub fn build_upload_stream(file: &str, contents: &Vec<u8>) -> (frames: Vec<Frame>)
    ensures
        codec::views_of(frames@) == codec::spec_encoding(file@, contents@),
        frames@.len() == 1 + codec::spec_chunk_count(contents@.len()),
{
    codec::encode_frames(file, contents)
}

/// The driver's verdict over its two halves: success exactly when both the
/// call and the producer succeeded. A failed producer is reported even when
/// the call returned cleanly, and its error takes precedence.
pub fn upload_outcome(rpc: Result<(), TransferError>, producer: Result<(), TransferError>) -> (r:
    Result<(), TransferError>)
    ensures
        r is Ok <==> rpc is Ok && producer is Ok,
        producer matches Err(e) ==> r == Err::<(), TransferError>(e),
        producer is Ok ==> (rpc matches Err(e) ==> r == Err::<(), TransferError>(e)),
{
    match producer {
        Result::Err(e) => Err(e),
        Result::Ok(()) => rpc,
    }
}

} // verus!
