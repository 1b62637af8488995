//! The wire shape of one transfer unit, and the errors of the protocol.

use vstd::prelude::*;

verus! {

/// Largest number of file bytes one `Chunk` frame may carry (1 MiB).
pub const CHUNK_SIZE_BYTES: usize = 1048576;

/// One unit of the transfer protocol: either the file-name marker that opens
/// a transfer, or a bounded slice of file content.
pub enum Frame {
    Name(String),
    Chunk(Vec<u8>),
}

/// The mathematical shape of a [`Frame`]: the name as a sequence of
/// characters, or the chunk as a sequence of bytes.
pub enum FrameView {
    Name(Seq<char>),
    Chunk(Seq<u8>),
}

impl View for Frame {
    type V = FrameView;

    open spec fn view(&self) -> FrameView {
        match self {
            Frame::Name(n) => FrameView::Name(n@),
            Frame::Chunk(c) => FrameView::Chunk(c@),
        }
    }
}

/// Why a transfer failed.
#[derive(Clone, Copy, Debug, PartialEq, Eq, Structural)]
pub enum TransferError {
    /// A missing or misplaced `Name` frame, or an unexpected frame type.
    ProtocolViolation,
    /// An open, read, write, sync or directory-creation failure.
    IOFailure,
    /// A peer disconnect or a stream-level decode failure.
    TransportFailure,
    /// The requested download file is absent.
    NotFound,
}

/// Extraction helpers on the first event an inbound stream yields: either a
/// frame arrived cleanly, or the event stands for a failure (an empty stream,
/// or a stream-level error).
pub trait TypeExt: Sized {
    /// The frame the event carries, when it carries one cleanly.
    spec fn spec_frame(&self) -> Option<FrameView>;

    /// The failure the event stands for, when it carries no frame.
    spec fn spec_failure(&self) -> TransferError;

    /// The frame of the event, or why there is none.
    fn get_type(self) -> (r: Result<Frame, TransferError>)
        ensures
            r is Ok <==> self.spec_frame() is Some,
            r matches Ok(f) ==> self.spec_frame() == Some(f@),
            r matches Err(e) ==> e == self.spec_failure(),
    ;

    /// The file name of the event, owed exactly when its frame is the name
    /// marker; any other frame is a protocol violation.
    fn file_name(self) -> (r: Result<String, TransferError>)
        ensures
            r is Ok <==> (self.spec_frame() matches Some(f) && f is Name),
            r matches Ok(n) ==> self.spec_frame() == Some(FrameView::Name(n@)),
            r matches Err(e) ==> e == (if self.spec_frame() is Some {
                TransferError::ProtocolViolation
            } else {
                self.spec_failure()
            }),
    ;
}

impl TypeExt for Option<Result<Frame, TransferError>> {
    open spec fn spec_frame(&self) -> Option<FrameView> {
        match self {
            Option::Some(Result::Ok(f)) => Some(f@),
            _ => None,
        }
    }

    open spec fn spec_failure(&self) -> TransferError {
        match self {
            Option::None => TransferError::ProtocolViolation,
            Option::Some(Result::Err(e)) => *e,
            Option::Some(Result::Ok(_)) => TransferError::ProtocolViolation,
        }
    }

    fn get_type(self) -> (r: Result<Frame, TransferError>) {
        match self {
            Option::Some(Result::Ok(f)) => Ok(f),
            Option::Some(Result::Err(e)) => Err(e),
            Option::None => Err(TransferError::ProtocolViolation),
        }
    }

    fn file_name(self) -> (r: Result<String, TransferError>) {
        match self.get_type() {
            Result::Ok(Frame::Name(n)) => Ok(n),
            Result::Ok(Frame::Chunk(_)) => Err(TransferError::ProtocolViolation),
            Result::Err(e) => Err(e),
        }
    }
}

} // verus!
