use mangater::errors::SdkError;
use mangater::util::resource::{
    download_resource, download_step, user_agent_or_default, DownloadAction, DownloadEvent,
    DEFAULT_USER_AGENT,
};

fn io_error(message: &str) -> std::io::Error {
    std::io::Error::new(std::io::ErrorKind::Other, message.to_string())
}

#[test]
fn the_default_user_agent_stands_in_where_none_is_named() {
    assert_eq!(DEFAULT_USER_AGENT, "mangater-sdk/0.1 (+https://github.com/quoeamaster/mangater)");
    assert_eq!(user_agent_or_default(None), DEFAULT_USER_AGENT);
    assert_eq!(user_agent_or_default(Some("probe/2".to_string())), "probe/2");
    assert_eq!(user_agent_or_default(Some(String::new())), "");
}

#[test]
fn a_fetched_body_becomes_its_bytes() {
    let bytes = download_resource(Ok("h\u{e9}llo".to_string())).expect("bytes");
    assert_eq!(bytes, vec![0x68, 0xc3, 0xa9, 0x6c, 0x6c, 0x6f]);
    assert_eq!(download_resource(Ok(String::new())).expect("bytes"), Vec::<u8>::new());
}

#[test]
fn a_failed_fetch_is_a_network_error() {
    match download_resource(Err("connection refused".to_string())) {
        Err(SdkError::Network(detail)) => assert_eq!(detail, "connection refused"),
        _ => panic!("expected a network error"),
    }
}

#[test]
fn a_response_leads_to_the_file() {
    assert!(matches!(download_step(DownloadEvent::Responded(Ok(()))), DownloadAction::CreateFile));
    match download_step(DownloadEvent::Responded(Err("status 404".to_string()))) {
        DownloadAction::Finish(Err(SdkError::Network(detail))) => assert_eq!(detail, "status 404"),
        _ => panic!("expected a network error"),
    }
}

#[test]
fn a_created_file_leads_to_the_first_chunk() {
    assert!(matches!(download_step(DownloadEvent::FileCreated(Ok(()))), DownloadAction::NextChunk));
    match download_step(DownloadEvent::FileCreated(Err(io_error("no such directory")))) {
        DownloadAction::Finish(Err(SdkError::Storage(cause))) => {
            assert!(cause.to_string().contains("no such directory"))
        }
        _ => panic!("expected a storage error"),
    }
}

#[test]
fn a_chunk_is_written_and_the_end_is_flushed() {
    match download_step(DownloadEvent::Chunk(Some(Ok(vec![1, 2, 3])))) {
        DownloadAction::Write(bytes) => assert_eq!(bytes, vec![1, 2, 3]),
        _ => panic!("expected a write"),
    }
    match download_step(DownloadEvent::Chunk(Some(Ok(Vec::new())))) {
        DownloadAction::Write(bytes) => assert!(bytes.is_empty()),
        _ => panic!("expected a write"),
    }
    assert!(matches!(download_step(DownloadEvent::Chunk(None)), DownloadAction::Flush));
    match download_step(DownloadEvent::Chunk(Some(Err("reset by peer".to_string())))) {
        DownloadAction::Finish(Err(SdkError::Network(detail))) => assert_eq!(detail, "reset by peer"),
        _ => panic!("expected a network error"),
    }
}

#[test]
fn a_write_leads_to_the_next_chunk() {
    assert!(matches!(download_step(DownloadEvent::Written(Ok(()))), DownloadAction::NextChunk));
    match download_step(DownloadEvent::Written(Err(io_error("disk full")))) {
        DownloadAction::Finish(Err(SdkError::Storage(cause))) => {
            assert!(cause.to_string().contains("disk full"))
        }
        _ => panic!("expected a storage error"),
    }
}

#[test]
fn a_flush_ends_the_download() {
    assert!(matches!(download_step(DownloadEvent::Flushed(Ok(()))), DownloadAction::Finish(Ok(()))));
    match download_step(DownloadEvent::Flushed(Err(io_error("lost")))) {
        DownloadAction::Finish(Err(SdkError::Storage(cause))) => assert!(cause.to_string().contains("lost")),
        _ => panic!("expected a storage error"),
    }
}

#[test]
fn a_download_of_two_chunks_runs_to_its_end() {
    let mut written: Vec<u8> = Vec::new();
    let mut chunks = vec![Ok(vec![1u8, 2]), Ok(vec![3u8])].into_iter();
    let mut event = DownloadEvent::Responded(Ok(()));
    let mut steps = 0;
    let outcome = loop {
        steps += 1;
        event = match download_step(event) {
            DownloadAction::CreateFile => DownloadEvent::FileCreated(Ok(())),
            DownloadAction::NextChunk => DownloadEvent::Chunk(chunks.next()),
            DownloadAction::Write(bytes) => {
                written.extend_from_slice(&bytes);
                DownloadEvent::Written(Ok(()))
            }
            DownloadAction::Flush => DownloadEvent::Flushed(Ok(())),
            DownloadAction::Finish(outcome) => break outcome,
        };
    };
    assert!(outcome.is_ok());
    assert_eq!(written, vec![1, 2, 3]);
    assert_eq!(steps, 8);
}
