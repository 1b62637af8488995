//! A chunked file-transfer protocol library.
//!
//! A file travels as an ordered sequence of frames: one `Name` frame carrying
//! the file name, followed by `Chunk` frames carrying at most
//! [`frame::CHUNK_SIZE_BYTES`] bytes each. Frames flow through a bounded
//! backpressure channel between the disk side and the network side of a
//! transfer. This crate holds the codec, the channel, and the decision logic
//! of the upload, download and listing handlers; the surrounding process does
//! the actual disk and network work and feeds plain values in.

use vstd::prelude::*;
use vstd::string::StringExecFns;

pub mod channel;
pub mod client;
pub mod codec;
pub mod frame;
pub mod service;
pub mod upload;

verus! {

/// Capacity of the bounded transfer channel: at most this many frames or
/// directory entries are in flight between producer and consumer.
pub const CHANNEL_SIZE: usize = 10;

/// Joins the root directory and a client-supplied file name into one path,
/// with `/` between them. The name is not checked against path traversal;
/// that gap is a known open question of the protocol and is kept as it is.
pub fn join_path(directory: &str, name: &str) -> (p: String)
    ensures
        p@ == directory@ + seq!['/'] + name@,
{
    let mut p = directory.to_owned();
    p.append("/");
    p.append(name);
    proof {
        reveal_strlit("/");
        assert(directory@ + "/"@ + name@ =~= directory@ + seq!['/'] + name@);
    }
    p
}

} // verus!
