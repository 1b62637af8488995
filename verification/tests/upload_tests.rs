use file_transfer::client::{build_upload_stream, upload_outcome};
use file_transfer::frame::{Frame, TransferError, TypeExt};
use file_transfer::join_path;
use file_transfer::upload::{
    upload_step, MyUploadService, UploadAction, UploadEvent, UploadState,
};

#[test]
fn name_frame_opens_the_transfer() {
    let (state, action) = upload_step(
        UploadState::AwaitName,
        UploadEvent::Frame(Frame::Name("up.bin".to_string())),
    );
    match state {
        UploadState::Receiving(n) => assert_eq!(n, "up.bin"),
        _ => panic!("the name frame must move the machine to receiving"),
    }
    match action {
        UploadAction::CreateFile(n) => assert_eq!(n, "up.bin"),
        _ => panic!("the destination file must be created"),
    }
}

#[test]
fn empty_stream_fails_with_protocol_violation() {
    let (state, action) = upload_step(UploadState::AwaitName, UploadEvent::EndOfStream);
    assert!(matches!(
        state,
        UploadState::Failed(TransferError::ProtocolViolation)
    ));
    assert!(matches!(
        action,
        UploadAction::Reject(TransferError::ProtocolViolation)
    ));
}

#[test]
fn chunk_first_fails_with_protocol_violation() {
    let (state, action) = upload_step(
        UploadState::AwaitName,
        UploadEvent::Frame(Frame::Chunk(vec![1, 2, 3])),
    );
    assert!(matches!(
        state,
        UploadState::Failed(TransferError::ProtocolViolation)
    ));
    assert!(matches!(
        action,
        UploadAction::Reject(TransferError::ProtocolViolation)
    ));
}

#[test]
fn chunks_are_appended_while_receiving() {
    let (state, action) = upload_step(
        UploadState::Receiving("up.bin".to_string()),
        UploadEvent::Frame(Frame::Chunk(vec![9, 9])),
    );
    assert!(matches!(state, UploadState::Receiving(_)));
    match action {
        UploadAction::AppendChunk(bytes) => assert_eq!(bytes, vec![9, 9]),
        _ => panic!("a chunk must be appended to the destination file"),
    }
}

#[test]
fn second_name_frame_is_fatal() {
    let (state, action) = upload_step(
        UploadState::Receiving("up.bin".to_string()),
        UploadEvent::Frame(Frame::Name("other".to_string())),
    );
    assert!(matches!(
        state,
        UploadState::Failed(TransferError::ProtocolViolation)
    ));
    assert!(matches!(
        action,
        UploadAction::Reject(TransferError::ProtocolViolation)
    ));
}

#[test]
fn end_of_stream_completes_and_syncs() {
    let (state, action) = upload_step(
        UploadState::Receiving("up.bin".to_string()),
        UploadEvent::EndOfStream,
    );
    match state {
        UploadState::Completed(n) => assert_eq!(n, "up.bin"),
        _ => panic!("the end of the stream must complete the transfer"),
    }
    assert!(matches!(action, UploadAction::SyncAndAcknowledge));
}

#[test]
fn transport_error_fails_the_transfer() {
    let (state, _) = upload_step(
        UploadState::Receiving("up.bin".to_string()),
        UploadEvent::TransportError,
    );
    assert!(matches!(
        state,
        UploadState::Failed(TransferError::TransportFailure)
    ));
}

#[test]
fn machine_completes_a_well_formed_stream() {
    let frames = vec![
        Frame::Name("f.bin".to_string()),
        Frame::Chunk(vec![1]),
        Frame::Chunk(vec![2, 3]),
    ];
    let mut state = UploadState::AwaitName;
    for frame in frames {
        let (next, _) = upload_step(state, UploadEvent::Frame(frame));
        state = next;
    }
    let (end_state, action) = upload_step(state, UploadEvent::EndOfStream);
    match end_state {
        UploadState::Completed(n) => assert_eq!(n, "f.bin"),
        _ => panic!("a well-formed stream must complete the machine"),
    }
    assert!(matches!(action, UploadAction::SyncAndAcknowledge));
}

#[test]
fn upload_service_reassembles_a_transfer() {
    let service = MyUploadService::new("/srv/files".to_string());
    assert_eq!(service.directory, "/srv/files");
    let frames = vec![Frame::Name("up.bin".to_string()), Frame::Chunk(vec![4, 5])];
    let (name, data) = service.upload_file(&frames).expect("well-formed transfer");
    assert_eq!(name, "up.bin");
    assert_eq!(data, vec![4, 5]);
    assert_eq!(service.destination_path(&name), "/srv/files/up.bin");
}

#[test]
fn upload_service_rejects_an_empty_stream() {
    let service = MyUploadService::new("/srv/files".to_string());
    let frames: Vec<Frame> = Vec::new();
    assert_eq!(
        service.upload_file(&frames),
        Err(TransferError::ProtocolViolation)
    );
}

#[test]
fn join_path_puts_a_separator_between() {
    assert_eq!(join_path("/root", "x.bin"), "/root/x.bin");
}

#[test]
fn build_upload_stream_mirrors_the_codec() {
    let frames = build_upload_stream("c.bin", &vec![1, 2, 3]);
    assert_eq!(frames.len(), 2);
    assert!(matches!(&frames[0], Frame::Name(n) if n == "c.bin"));
    assert!(matches!(&frames[1], Frame::Chunk(c) if c == &vec![1, 2, 3]));
}

#[test]
fn outcome_is_ok_only_when_both_halves_are() {
    assert_eq!(upload_outcome(Ok(()), Ok(())), Ok(()));
    assert_eq!(
        upload_outcome(Err(TransferError::TransportFailure), Ok(())),
        Err(TransferError::TransportFailure)
    );
    assert_eq!(
        upload_outcome(Ok(()), Err(TransferError::IOFailure)),
        Err(TransferError::IOFailure)
    );
    assert_eq!(
        upload_outcome(
            Err(TransferError::TransportFailure),
            Err(TransferError::IOFailure)
        ),
        Err(TransferError::IOFailure)
    );
}

#[test]
fn get_type_of_a_clean_frame_is_the_frame() {
    let event: Option<Result<Frame, TransferError>> =
        Some(Ok(Frame::Name("n.bin".to_string())));
    match event.get_type() {
        Ok(Frame::Name(n)) => assert_eq!(n, "n.bin"),
        _ => panic!("a clean frame must come back unchanged"),
    }
}

#[test]
fn get_type_of_an_empty_stream_is_a_violation() {
    let event: Option<Result<Frame, TransferError>> = None;
    assert!(matches!(
        event.get_type(),
        Err(TransferError::ProtocolViolation)
    ));
}

#[test]
fn get_type_passes_a_stream_error_through() {
    let event: Option<Result<Frame, TransferError>> =
        Some(Err(TransferError::TransportFailure));
    assert!(matches!(
        event.get_type(),
        Err(TransferError::TransportFailure)
    ));
}

#[test]
fn file_name_is_owed_exactly_to_the_name_marker() {
    let name_event: Option<Result<Frame, TransferError>> =
        Some(Ok(Frame::Name("n.bin".to_string())));
    assert_eq!(name_event.file_name(), Ok("n.bin".to_string()));
    let chunk_event: Option<Result<Frame, TransferError>> =
        Some(Ok(Frame::Chunk(vec![1])));
    assert_eq!(
        chunk_event.file_name(),
        Err(TransferError::ProtocolViolation)
    );
    let empty_event: Option<Result<Frame, TransferError>> = None;
    assert_eq!(
        empty_event.file_name(),
        Err(TransferError::ProtocolViolation)
    );
}
