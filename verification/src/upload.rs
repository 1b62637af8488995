//! The server side of an upload: a state machine that consumes the inbound
//! frame stream and decides what to do with the destination file.
//!
//! `AwaitName` expects the `Name` frame; `Receiving` appends chunk bytes;
//! the end of the stream completes the transfer; anything out of order is a
//! protocol violation and fails the transfer at once. An out-of-order frame
//! is never skipped: once the order is broken, the rest of the stream cannot
//! be trusted. A failed transfer leaves any partially written destination
//! file on disk; cleaning it up is an open question of the protocol, kept as
//! it is.

use crate::codec;
use crate::frame::{Frame, FrameView, TransferError};
use vstd::prelude::*;

verus! {

/// Where an upload stands: waiting for the name marker, receiving chunks of
/// the named file, completed, or failed.
pub enum UploadState {
    AwaitName,
    Receiving(String),
    Completed(String),
    Failed(TransferError),
}

/// The mathematical shape of an [`UploadState`].
pub enum UploadStateView {
    AwaitName,
    Receiving(Seq<char>),
    Completed(Seq<char>),
    Failed(TransferError),
}

impl View for UploadState {
    type V = UploadStateView;

    open spec fn view(&self) -> UploadStateView {
        match self {
            UploadState::AwaitName => UploadStateView::AwaitName,
            UploadState::Receiving(n) => UploadStateView::Receiving(n@),
            UploadState::Completed(n) => UploadStateView::Completed(n@),
            UploadState::Failed(e) => UploadStateView::Failed(*e),
        }
    }
}

impl UploadStateView {
    /// A state the machine never leaves.
    pub open spec fn is_terminal(&self) -> bool {
        self is Completed || self is Failed
    }
}

/// One thing the inbound stream can yield: a frame, its orderly end, or a
/// transport-level failure.
pub enum UploadEvent {
    Frame(Frame),
    EndOfStream,
    TransportError,
}

/// The mathematical shape of an [`UploadEvent`].
pub enum UploadEventView {
    Frame(FrameView),
    EndOfStream,
    TransportError,
}

impl View for UploadEvent {
    type V = UploadEventView;

    open spec fn view(&self) -> UploadEventView {
        match self {
            UploadEvent::Frame(f) => UploadEventView::Frame(f@),
            UploadEvent::EndOfStream => UploadEventView::EndOfStream,
            UploadEvent::TransportError => UploadEventView::TransportError,
        }
    }
}

/// What the handler must do after a transition: create the destination file,
/// append bytes to it, flush it durably and acknowledge, or answer with an
/// error status.
pub enum UploadAction {
    CreateFile(String),
    AppendChunk(Vec<u8>),
    SyncAndAcknowledge,
    Reject(TransferError),
}

/// The mathematical shape of an [`UploadAction`].
pub enum UploadActionView {
    CreateFile(Seq<char>),
    AppendChunk(Seq<u8>),
    SyncAndAcknowledge,
    Reject(TransferError),
}

impl View for UploadAction {
    type V = UploadActionView;

    open spec fn view(&self) -> UploadActionView {
        match self {
            UploadAction::CreateFile(n) => UploadActionView::CreateFile(n@),
            UploadAction::AppendChunk(b) => UploadActionView::AppendChunk(b@),
            UploadAction::SyncAndAcknowledge => UploadActionView::SyncAndAcknowledge,
            UploadAction::Reject(e) => UploadActionView::Reject(*e),
        }
    }
}

/// The upload handler's transition function. An empty stream or a first
/// frame that is not `Name` is a protocol violation; so is any `Name` frame
/// after the first. The end of the stream while receiving completes the
/// transfer; a transport failure fails it.
pub open spec fn spec_upload_step(state: UploadStateView, event: UploadEventView) -> (
    UploadStateView,
    UploadActionView,
) {
    match state {
        UploadStateView::AwaitName => match event {
            UploadEventView::Frame(FrameView::Name(n)) => (
                UploadStateView::Receiving(n),
                UploadActionView::CreateFile(n),
            ),
            UploadEventView::Frame(FrameView::Chunk(_)) => (
                UploadStateView::Failed(TransferError::ProtocolViolation),
                UploadActionView::Reject(TransferError::ProtocolViolation),
            ),
            UploadEventView::EndOfStream => (
                UploadStateView::Failed(TransferError::ProtocolViolation),
                UploadActionView::Reject(TransferError::ProtocolViolation),
            ),
            UploadEventView::TransportError => (
                UploadStateView::Failed(TransferError::TransportFailure),
                UploadActionView::Reject(TransferError::TransportFailure),
            ),
        },
        UploadStateView::Receiving(name) => match event {
            UploadEventView::Frame(FrameView::Chunk(b)) => (
                UploadStateView::Receiving(name),
                UploadActionView::AppendChunk(b),
            ),
            UploadEventView::Frame(FrameView::Name(_)) => (
                UploadStateView::Failed(TransferError::ProtocolViolation),
                UploadActionView::Reject(TransferError::ProtocolViolation),
            ),
            UploadEventView::EndOfStream => (
                UploadStateView::Completed(name),
                UploadActionView::SyncAndAcknowledge,
            ),
            UploadEventView::TransportError => (
                UploadStateView::Failed(TransferError::TransportFailure),
                UploadActionView::Reject(TransferError::TransportFailure),
            ),
        },
        _ => (state, UploadActionView::Reject(TransferError::ProtocolViolation)),
    }
}

/// One transition of the upload handler: consumes the next stream event and
/// returns the next state with the action the caller must perform.
pub fn upload_step(state: UploadState, event: UploadEvent) -> (r: (UploadState, UploadAction))
    requires
        !state@.is_terminal(),
    ensures
        (r.0@, r.1@) == spec_upload_step(state@, event@),
{
    match state {
        UploadState::AwaitName => match event {
            UploadEvent::Frame(Frame::Name(n)) => {
                let name_again = n.clone();
                (UploadState::Receiving(n), UploadAction::CreateFile(name_again))
            },
            UploadEvent::Frame(Frame::Chunk(_)) => (
                UploadState::Failed(TransferError::ProtocolViolation),
                UploadAction::Reject(TransferError::ProtocolViolation),
            ),
            UploadEvent::EndOfStream => (
                UploadState::Failed(TransferError::ProtocolViolation),
                UploadAction::Reject(TransferError::ProtocolViolation),
            ),
            UploadEvent::TransportError => (
                UploadState::Failed(TransferError::TransportFailure),
                UploadAction::Reject(TransferError::TransportFailure),
            ),
        },
        UploadState::Receiving(name) => match event {
            UploadEvent::Frame(Frame::Chunk(b)) => (
                UploadState::Receiving(name),
                UploadAction::AppendChunk(b),
            ),
            UploadEvent::Frame(Frame::Name(_)) => (
                UploadState::Failed(TransferError::ProtocolViolation),
                UploadAction::Reject(TransferError::ProtocolViolation),
            ),
            UploadEvent::EndOfStream => (
                UploadState::Completed(name),
                UploadAction::SyncAndAcknowledge,
            ),
            UploadEvent::TransportError => (
                UploadState::Failed(TransferError::TransportFailure),
                UploadAction::Reject(TransferError::TransportFailure),
            ),
        },
        UploadState::Completed(n) => (
            UploadState::Completed(n),
            UploadAction::Reject(TransferError::ProtocolViolation),
        ),
        UploadState::Failed(e) => (
            UploadState::Failed(e),
            UploadAction::Reject(TransferError::ProtocolViolation),
        ),
    }
}

/// The state of the machine after it has consumed `frames` one by one,
/// starting from `state`. A terminal state absorbs whatever follows.
pub open spec fn spec_upload_after(state: UploadStateView, frames: Seq<FrameView>) -> UploadStateView
    decreases frames.len(),
{
    if frames.len() == 0 {
        state
    } else {
        spec_upload_after(
            spec_upload_step(state, UploadEventView::Frame(frames[0])).0,
            frames.skip(1),
        )
    }
}

/// Where a whole inbound stream leaves the machine: its frames in order,
/// then the end of the stream.
pub open spec fn spec_upload_outcome(frames: Seq<FrameView>) -> UploadStateView {
    let after = spec_upload_after(UploadStateView::AwaitName, frames);
    if after.is_terminal() {
        after
    } else {
        spec_upload_step(after, UploadEventView::EndOfStream).0
    }
}

proof fn lemma_failed_absorbs(e: TransferError, frames: Seq<FrameView>)
    ensures
        spec_upload_after(UploadStateView::Failed(e), frames) == UploadStateView::Failed(e),
    decreases frames.len(),
{
    if frames.len() > 0 {
        lemma_failed_absorbs(e, frames.skip(1));
    }
}

proof fn lemma_receiving_runs(name: Seq<char>, frames: Seq<FrameView>)
    ensures
        (forall|i: int| 0 <= i < frames.len() ==> frames[i] is Chunk) ==> spec_upload_after(
            UploadStateView::Receiving(name),
            frames,
        ) == UploadStateView::Receiving(name),
        !(forall|i: int| 0 <= i < frames.len() ==> frames[i] is Chunk) ==> spec_upload_after(
            UploadStateView::Receiving(name),
            frames,
        ) is Failed,
    decreases frames.len(),
{
    if frames.len() > 0 {
        let rest = frames.skip(1);
        assert(forall|i: int| 0 <= i < rest.len() ==> rest[i] == frames[i + 1]);
        match frames[0] {
            FrameView::Chunk(_) => {
                lemma_receiving_runs(name, rest);
                if !(forall|i: int| 0 <= i < frames.len() ==> frames[i] is Chunk) {
                    let bad = choose|i: int| 0 <= i < frames.len() && !(frames[i] is Chunk);
                    assert(rest[bad - 1] == frames[bad]);
                    assert(!(forall|i: int| 0 <= i < rest.len() ==> rest[i] is Chunk));
                }
            },
            FrameView::Name(_) => {
                lemma_failed_absorbs(TransferError::ProtocolViolation, rest);
            },
        }
    }
}

/// Law: the incremental upload machine and the codec agree. Run from its
/// start over a whole inbound stream, the machine completes — naming exactly
/// the file of the transfer — on precisely the streams the codec calls
/// well-formed, and fails on every other.
pub proof fn lemma_upload_machine_matches_codec(frames: Seq<FrameView>)
    ensures
        codec::spec_valid_transfer(frames) ==> spec_upload_outcome(frames)
            == UploadStateView::Completed(codec::spec_transfer_name(frames)),
        !codec::spec_valid_transfer(frames) ==> spec_upload_outcome(frames) is Failed,
{
    if frames.len() == 0 {
    } else {
        let rest = frames.skip(1);
        assert(forall|i: int| 0 <= i < rest.len() ==> rest[i] == frames[i + 1]);
        match frames[0] {
            FrameView::Name(name) => {
                lemma_receiving_runs(name, rest);
                if codec::spec_valid_transfer(frames) {
                    assert(forall|i: int| 0 <= i < rest.len() ==> rest[i] is Chunk);
                } else {
                    let bad = choose|i: int|
                        1 <= i < frames.len() && !(frames[i] is Chunk);
                    assert(rest[bad - 1] == frames[bad]);
                    assert(!(forall|i: int| 0 <= i < rest.len() ==> rest[i] is Chunk));
                }
            },
            FrameView::Chunk(_) => {
                lemma_failed_absorbs(TransferError::ProtocolViolation, rest);
            },
        }
    }
}

/// The upload service: owns the root directory that destination paths are
/// resolved against.
pub struct MyUploadService {
    pub directory: String,
}

impl Default for MyUploadService {
    /// A service rooted at the empty path.
    fn default() -> (s: Self)
        ensures
            s.directory@ == Seq::<char>::empty(),
    {
        MyUploadService { directory: String::new() }
    }
}

impl MyUploadService {
    pub fn new(directory: String) -> (s: Self)
        ensures
            s.directory == directory,
    {
        MyUploadService { directory }
    }

    /// The destination path of an uploaded file: the root directory joined
    /// with the client-supplied name (unsanitized, as the protocol leaves it).
    pub fn destination_path(&self, name: &str) -> (p: String)
        ensures
            p@ == self.directory@ + seq!['/'] + name@,
    {
        crate::join_path(self.directory.as_str(), name)
    }

    /// Decides a whole upload at once: exactly the well-formed transfers
    /// succeed, yielding the file name and the bytes to write; every other
    /// stream shape is a protocol violation.
    pub fn upload_file(&self, frames: &Vec<Frame>) -> (r: Result<
        (String, Vec<u8>),
        TransferError,
    >)
        ensures
            r is Ok <==> codec::spec_valid_transfer(codec::views_of(frames@)),
            r matches Ok(p) ==> p.0@ == codec::spec_transfer_name(codec::views_of(frames@)),
            r matches Ok(p) ==> p.1@ == codec::spec_transfer_data(codec::views_of(frames@)),
            r matches Err(e) ==> e == TransferError::ProtocolViolation,
    {
        codec::reassemble(frames)
    }
}

} // verus!
