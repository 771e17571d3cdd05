//! Uploading a file to the provider and caching what the provider says of it.
//!
//! Reading the request, writing the temporary file and the upload itself belong to the
//! surrounding program, so the operation is a step function: it takes the shared state
//! and what just happened, and says what to do next.

use vstd::prelude::*;
use crate::artifacts::Artifact;
use crate::error::{bad_request, internal_error, ApiError};
use crate::orchestrator::token_missing;
use crate::state::{AppState, StateView};
use crate::types::optional_text;

verus! {

/// A file as it arrived in an upload.
#[derive(Debug)]
pub struct UploadedFile {
    /// The name the sender gave the file, if any.
    pub file_name: Option<String>,
    pub data: Vec<u8>,
}

/// What is sent back after an upload.
#[derive(Debug)]
pub struct FileUploadResponse {
    pub id: String,
    pub name: String,
    pub size: u64,
    pub file_class: String,
}

/// Where an upload failed.
#[derive(Clone, Copy, Debug, PartialEq, Eq, Structural)]
pub enum UploadFailure {
    /// No client could be set up for the credential.
    Connect,
    /// The parts of the request could not be told apart.
    Multipart,
    /// The file could not be read from the request.
    Read,
    /// The file could not be written to its temporary place.
    Save,
    /// The provider did not take the file.
    Upload,
}

/// What happens in the course of an upload.
#[derive(Debug)]
pub enum UploadEvent {
    /// A caller starts an upload.
    Requested,
    /// The request was read: the first part that is a file, if there is one.
    Received(Option<UploadedFile>),
    /// The provider took the file and described it.
    Uploaded(Artifact),
    /// A step failed, with these words.
    Failed(UploadFailure, String),
}

/// What is to be done next in the course of an upload.
#[derive(Debug)]
pub enum UploadAction {
    /// Set up a client for this credential and read the request.
    Receive(String),
    /// Write the data to this path, hand the file at the path to the provider, and
    /// remove it again.
    Send(String, Vec<u8>),
    /// Answer the caller: the file is uploaded and cached.
    Done(FileUploadResponse),
    /// Answer the caller with a failure.
    Reject(ApiError),
}

/// What an upload without a file is told.
pub open spec fn no_file_provided() -> Seq<char> {
    "No file provided in multipart request"@
}

/// Whether a part of an upload is the file: its field is named `file`, or not named.
pub open spec fn names_file_field(name: Option<Seq<char>>) -> bool {
    match name {
        Some(name) => name == "file"@,
        None => true,
    }
}

/// The name under which an uploaded file is kept: its own, or `unknown`.
pub open spec fn upload_name(file_name: Option<Seq<char>>) -> Seq<char> {
    match file_name {
        Some(name) => name,
        None => "unknown"@,
    }
}

/// The temporary place of an uploaded file.
pub open spec fn upload_path(file_name: Option<Seq<char>>) -> Seq<char> {
    "/tmp/"@ + upload_name(file_name)
}

/// How the message of a failed upload begins.
pub open spec fn upload_failure_prefix(stage: UploadFailure) -> Seq<char> {
    match stage {
        UploadFailure::Connect => "Could not create Qwen client: "@,
        UploadFailure::Multipart => "Multipart error: "@,
        UploadFailure::Read => "Failed to read file: "@,
        UploadFailure::Save => "Failed to save file: "@,
        UploadFailure::Upload => "File upload failed: "@,
    }
}

/// Whether the part of an upload whose field has this name is the file.
pub fn is_file_field(name: Option<&str>) -> (b: bool)
    ensures
        b == names_file_field(
            match name {
                Some(n) => Some(n@),
                None => None,
            },
        ),
{
    match name {
        Some(n) => n.to_owned() == "file".to_owned(),
        None => true,
    }
}

/// One step of an upload.
///
/// A request draws a credential; the file that was received is given its temporary
/// place; the artifact that the provider made of it is cached under its identifier
/// and shown to the caller.
pub fn upload_file_for_qwen(state: &mut AppState, event: UploadEvent) -> (action: UploadAction)
    ensures
        match event {
            UploadEvent::Requested => {
                &&& final(state)@ == old(state)@.with_credentials(
                    old(state)@.credentials.advance(),
                )
                &&& match action {
                    UploadAction::Receive(token) => old(state)@.credentials.issue() == Some(
                        token@,
                    ),
                    UploadAction::Reject(e) => old(state)@.credentials.issue() is None && e@
                        == bad_request(token_missing()),
                    _ => false,
                }
            },
            UploadEvent::Received(None) => {
                &&& final(state)@ == old(state)@
                &&& action matches UploadAction::Reject(e)
                &&& e@ == bad_request(no_file_provided())
            },
            UploadEvent::Received(Some(file)) => {
                &&& final(state)@ == old(state)@
                &&& action matches UploadAction::Send(path, data)
                &&& path@ == upload_path(optional_text(file.file_name))
                &&& data@ == file.data@
            },
            UploadEvent::Uploaded(artifact) => {
                &&& final(state)@ == (StateView {
                    files: old(state)@.files.insert(artifact.id@, artifact@),
                    ..old(state)@
                })
                &&& action matches UploadAction::Done(shown)
                &&& shown.id@ == artifact.id@
                &&& shown.name@ == artifact.name@
                &&& shown.size == artifact.size
                &&& shown.file_class@ == artifact.file_class@
            },
            UploadEvent::Failed(stage, detail) => {
                &&& final(state)@ == old(state)@
                &&& action matches UploadAction::Reject(e)
                &&& e@ == internal_error(upload_failure_prefix(stage) + detail@)
            },
        },
{
    match event {
        UploadEvent::Requested => match state.next_qwen_token() {
            Some(token) => UploadAction::Receive(token),
            None => UploadAction::Reject(
                ApiError::bad_request(
                    "Qwen token not configured. Please configure it via POST /v1/config/qwen",
                ),
            ),
        },
        UploadEvent::Received(None) => UploadAction::Reject(
            ApiError::bad_request("No file provided in multipart request"),
        ),
        UploadEvent::Received(Some(file)) => {
            let mut path = "/tmp/".to_owned();
            match &file.file_name {
                Some(name) => path.append(name.as_str()),
                None => path.append("unknown"),
            }
            UploadAction::Send(path, file.data)
        },
        UploadEvent::Uploaded(artifact) => {
            let name = artifact.name.clone();
            let size = artifact.size;
            let file_class = artifact.file_class.clone();
            let id = state.store_uploaded_file(artifact);
            UploadAction::Done(FileUploadResponse { id, name, size, file_class })
        },
        UploadEvent::Failed(stage, detail) => {
            let mut message = match stage {
                UploadFailure::Connect => "Could not create Qwen client: ".to_owned(),
                UploadFailure::Multipart => "Multipart error: ".to_owned(),
                UploadFailure::Read => "Failed to read file: ".to_owned(),
                UploadFailure::Save => "Failed to save file: ".to_owned(),
                UploadFailure::Upload => "File upload failed: ".to_owned(),
            };
            message.append(detail.as_str());
            UploadAction::Reject(ApiError::internal_error(message.as_str()))
        },
    }
}

} // verus!
