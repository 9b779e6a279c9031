//! Downloads: what to send, what a fetched body becomes, and what to do next
//! while a body is streamed into a file.

use crate::errors::SdkError;
use vstd::prelude::*;
use vstd::string::StrSliceExecFns;

verus! {

/// The user agent sent where the caller names none.
pub const DEFAULT_USER_AGENT: &'static str =
    "mangater-sdk/0.1 (+https://github.com/quoeamaster/mangater)";

/// The user agent to send: the caller's, or the default one.
pub fn user_agent_or_default(user_agent: Option<String>) -> (agent: String)
    ensures
        agent@ == match user_agent {
            Some(given) => given@,
            None => DEFAULT_USER_AGENT@,
        },
{
    match user_agent {
        Some(given) => given,
        None => String::from_str(DEFAULT_USER_AGENT),
    }
}

/// What a download hands back once the transport has answered: the body as
/// UTF-8 bytes, or a network error that carries the transport's message.
pub fn download_resource(fetched: Result<String, String>) -> (outcome: Result<Vec<u8>, SdkError>)
    ensures
        match fetched {
            Ok(body) => outcome matches Ok(bytes) && bytes@ == vstd::utf8::encode_utf8(body@),
            Err(cause) => outcome matches Err(SdkError::Network(detail)) && detail == cause,
        },
{
    match fetched {
        Ok(body) => Ok(body.as_str().as_bytes_vec()),
        Err(cause) => Err(SdkError::Network(cause)),
    }
}

/// What happened last while a body is streamed into a file.
pub enum DownloadEvent {
    /// The request was sent and the status read: the transport's message where either failed.
    Responded(Result<(), String>),
    /// The file was created, or could not be.
    FileCreated(Result<(), std::io::Error>),
    /// The stream gave its next chunk, failed, or ended (`None`).
    Chunk(Option<Result<Vec<u8>, String>>),
    /// The last chunk was written, or could not be.
    Written(Result<(), std::io::Error>),
    /// The file was flushed, or could not be.
    Flushed(Result<(), std::io::Error>),
}

/// What to do next while a body is streamed into a file.
pub enum DownloadAction {
    /// Create the file.
    CreateFile,
    /// Ask the stream for its next chunk.
    NextChunk,
    /// Write these bytes to the file.
    Write(Vec<u8>),
    /// Flush the file.
    Flush,
    /// Stop with this result.
    Finish(Result<(), SdkError>),
}

/// The step that follows each event. A failure of the transport ends the
/// download with a network error, a failure of the file with a storage error;
/// the file is created once the response is in, each chunk is written before
/// the next is asked for, and the file is flushed when the stream ends.
pub open spec fn spec_download_step(event: DownloadEvent) -> DownloadAction {
    match event {
        DownloadEvent::Responded(Ok(_)) => DownloadAction::CreateFile,
        DownloadEvent::Responded(Err(cause)) => DownloadAction::Finish(
            Err(SdkError::Network(cause)),
        ),
        DownloadEvent::FileCreated(Ok(_)) => DownloadAction::NextChunk,
        DownloadEvent::FileCreated(Err(cause)) => DownloadAction::Finish(
            Err(SdkError::Storage(cause)),
        ),
        DownloadEvent::Chunk(None) => DownloadAction::Flush,
        DownloadEvent::Chunk(Some(Ok(bytes))) => DownloadAction::Write(bytes),
        DownloadEvent::Chunk(Some(Err(cause))) => DownloadAction::Finish(
            Err(SdkError::Network(cause)),
        ),
        DownloadEvent::Written(Ok(_)) => DownloadAction::NextChunk,
        DownloadEvent::Written(Err(cause)) => DownloadAction::Finish(
            Err(SdkError::Storage(cause)),
        ),
        DownloadEvent::Flushed(Ok(_)) => DownloadAction::Finish(Ok(())),
        DownloadEvent::Flushed(Err(cause)) => DownloadAction::Finish(
            Err(SdkError::Storage(cause)),
        ),
    }
}

/// Decides the step that follows `event`.
pub fn download_step(event: DownloadEvent) -> (action: DownloadAction)
    ensures
        action == spec_download_step(event),
{
    match event {
        DownloadEvent::Responded(Ok(_)) => DownloadAction::CreateFile,
        DownloadEvent::Responded(Err(cause)) => DownloadAction::Finish(
            Err(SdkError::Network(cause)),
        ),
        DownloadEvent::FileCreated(Ok(_)) => DownloadAction::NextChunk,
        DownloadEvent::FileCreated(Err(cause)) => DownloadAction::Finish(
            Err(SdkError::Storage(cause)),
        ),
        DownloadEvent::Chunk(None) => DownloadAction::Flush,
        DownloadEvent::Chunk(Some(Ok(bytes))) => DownloadAction::Write(bytes),
        DownloadEvent::Chunk(Some(Err(cause))) => DownloadAction::Finish(
            Err(SdkError::Network(cause)),
        ),
        DownloadEvent::Written(Ok(_)) => DownloadAction::NextChunk,
        DownloadEvent::Written(Err(cause)) => DownloadAction::Finish(
            Err(SdkError::Storage(cause)),
        ),
        DownloadEvent::Flushed(Ok(_)) => DownloadAction::Finish(Ok(())),
        DownloadEvent::Flushed(Err(cause)) => DownloadAction::Finish(
            Err(SdkError::Storage(cause)),
        ),
    }
}

} // verus!
