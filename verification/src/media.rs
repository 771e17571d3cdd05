//! Generating images and videos.
//!
//! The upstream call and the download belong to the surrounding program, so each
//! operation is a step function: it takes the shared state and what just happened, and
//! says what to do next.

use vstd::prelude::*;
use crate::ambient::epoch_seconds;
use crate::error::{bad_request, internal_error, not_found, ApiError, ErrorView};
use crate::orchestrator::{
    optional_continuation, token_missing, Continuation, ContinuationView, ProviderReply,
    ReplyView,
};
use crate::state::{thread_not_found, AppState, StateView};
use crate::text::{decimal, decimal_string};
use crate::threads::ThreadView;
use crate::types::{optional_text, views};

verus! {

/// What is generated.
#[derive(Clone, Copy, Debug, PartialEq, Eq, Structural)]
pub enum MediaKind {
    Image,
    Video,
}

/// A request to generate an image or a video.
#[derive(Debug)]
pub struct MediaRequest {
    pub prompt: String,
    pub size: Option<String>,
    pub model: String,
    /// The thread to continue, if any.
    pub thread_id: Option<String>,
    /// Whether to keep a local copy of what was generated.
    pub download: bool,
}

/// The mathematical content of a [`MediaRequest`].
pub struct MediaRequestView {
    pub prompt: Seq<char>,
    pub size: Option<Seq<char>>,
    pub model: Seq<char>,
    pub thread_id: Option<Seq<char>>,
    pub download: bool,
}

impl View for MediaRequest {
    type V = MediaRequestView;

    open spec fn view(&self) -> MediaRequestView {
        MediaRequestView {
            prompt: self.prompt@,
            size: optional_text(self.size),
            model: self.model@,
            thread_id: optional_text(self.thread_id),
            download: self.download,
        }
    }
}

/// Everything the upstream call that generates media needs.
#[derive(Debug)]
pub struct MediaPlan {
    pub token: String,
    pub prompt: String,
    pub size: Option<String>,
    pub model: String,
    pub continuation: Option<Continuation>,
    /// Whether a local copy is to be kept of what is generated.
    pub download: bool,
}

/// The mathematical content of a [`MediaPlan`].
pub struct MediaPlanView {
    pub token: Seq<char>,
    pub prompt: Seq<char>,
    pub size: Option<Seq<char>>,
    pub model: Seq<char>,
    pub continuation: Option<ContinuationView>,
    pub download: bool,
}

impl View for MediaPlan {
    type V = MediaPlanView;

    open spec fn view(&self) -> MediaPlanView {
        MediaPlanView {
            token: self.token@,
            prompt: self.prompt@,
            size: optional_text(self.size),
            model: self.model@,
            continuation: optional_continuation(self.continuation),
            download: self.download,
        }
    }
}

/// What is sent back once media was generated.
#[derive(Debug)]
pub struct MediaResponse {
    /// Where the provider keeps what it generated.
    pub url: String,
    pub prompt: String,
    pub chat_id: Option<String>,
    pub response_id: String,
    /// Where the local copy is, if one was asked for.
    pub local_path: Option<String>,
}

/// The mathematical content of a [`MediaResponse`].
pub struct MediaResponseView {
    pub url: Seq<char>,
    pub prompt: Seq<char>,
    pub chat_id: Option<Seq<char>>,
    pub response_id: Seq<char>,
    pub local_path: Option<Seq<char>>,
}

impl View for MediaResponse {
    type V = MediaResponseView;

    open spec fn view(&self) -> MediaResponseView {
        MediaResponseView {
            url: self.url@,
            prompt: self.prompt@,
            chat_id: optional_text(self.chat_id),
            response_id: self.response_id@,
            local_path: optional_text(self.local_path),
        }
    }
}

/// Where the generation of media failed.
#[derive(Clone, Copy, Debug, PartialEq, Eq, Structural)]
pub enum MediaFailure {
    /// No client could be set up for the credential.
    Connect,
    /// The provider did not generate anything.
    Generate,
    /// The directory for local copies could not be made.
    Directory,
    /// What was generated could not be fetched.
    Download,
}

/// What happens in the course of generating media.
#[derive(Debug)]
pub enum MediaEvent {
    /// A caller asks for an image or a video.
    Requested(MediaRequest),
    /// The provider generated what the plan asked for.
    Generated(MediaPlan, ProviderReply),
    /// The local copy was written to this path.
    Downloaded(MediaPlan, ProviderReply, String),
    /// A step failed, with these words.
    Failed(MediaFailure, String),
}

/// What is to be done next in the course of generating media.
#[derive(Debug)]
pub enum MediaAction {
    /// Call the provider as the plan says.
    Generate(MediaPlan),
    /// Make sure the directory exists and fetch what was generated to the path; come
    /// back with the plan, the reply and the path.
    Download(MediaPlan, ProviderReply, String),
    /// Answer the caller.
    Done(MediaResponse),
    /// Answer the caller with a failure.
    Reject(ApiError),
}

/// The directory that holds local copies.
pub open spec fn download_directory() -> Seq<char> {
    "./generated"@
}

/// The path of the local copy of what was generated at `timestamp`: in the directory
/// for local copies, named after the kind and the time.
pub open spec fn download_path(kind: MediaKind, timestamp: u64) -> Seq<char> {
    match kind {
        MediaKind::Image => download_directory() + "/generated_image_"@ + decimal(
            timestamp as nat,
        ) + ".png"@,
        MediaKind::Video => download_directory() + "/generated_video_"@ + decimal(
            timestamp as nat,
        ) + ".mp4"@,
    }
}

/// How the message of a failed generation begins.
pub open spec fn media_failure_prefix(kind: MediaKind, stage: MediaFailure) -> Seq<char> {
    match stage {
        MediaFailure::Connect => "Could not create Qwen client: "@,
        MediaFailure::Generate => match kind {
            MediaKind::Image => "Image generation failed: "@,
            MediaKind::Video => "Video generation failed: "@,
        },
        MediaFailure::Directory => "Failed to create directory: "@,
        MediaFailure::Download => match kind {
            MediaKind::Image => "Failed to download image: "@,
            MediaKind::Video => "Failed to download video: "@,
        },
    }
}

/// The continuation that a generation in thread `thread_id` is given: the thread stands
/// for the upstream session and its newest message for the turn to follow. A thread
/// without messages gives none.
pub open spec fn media_continuation(
    thread_id: Seq<char>,
    model: Seq<char>,
    thread: ThreadView,
) -> Option<ContinuationView> {
    if thread.messages.len() == 0 {
        None
    } else {
        Some(
            ContinuationView {
                chat_id: thread_id,
                model_id: model,
                parent_id: thread.messages.last().content,
            },
        )
    }
}

/// What planning a generation for `request` yields in `state`: a credential is drawn
/// first, then the thread is looked up, if one is named.
pub open spec fn media_plan_of(state: StateView, request: MediaRequestView) -> Result<
    MediaPlanView,
    ErrorView,
> {
    match state.credentials.issue() {
        None => Err(bad_request(token_missing())),
        Some(token) => match request.thread_id {
            Some(id) if !state.has_thread(id) => Err(not_found(thread_not_found())),
            _ => Ok(
                MediaPlanView {
                    token,
                    prompt: request.prompt,
                    size: request.size,
                    model: request.model,
                    continuation: match request.thread_id {
                        Some(id) => media_continuation(id, request.model, state.thread(id)),
                        None => None,
                    },
                    download: request.download,
                },
            ),
        },
    }
}

/// What the caller is shown of a generation.
pub open spec fn media_response(
    plan: MediaPlanView,
    reply: ReplyView,
    local_path: Option<Seq<char>>,
) -> MediaResponseView {
    MediaResponseView {
        url: reply.content,
        prompt: plan.prompt,
        chat_id: reply.chat_id,
        response_id: reply.response_id,
        local_path,
    }
}

/// Draws a credential and decides what to ask the provider to generate.
pub fn plan_media(state: &mut AppState, request: &MediaRequest) -> (planned: Result<
    MediaPlan,
    ApiError,
>)
    ensures
        final(state)@ == old(state)@.with_credentials(old(state)@.credentials.advance()),
        match planned {
            Ok(plan) => media_plan_of(old(state)@, request@) == Ok::<MediaPlanView, ErrorView>(
                plan@,
            ),
            Err(e) => media_plan_of(old(state)@, request@) == Err::<MediaPlanView, ErrorView>(
                e@,
            ),
        },
{
    let token = match state.next_qwen_token() {
        Some(token) => token,
        None => {
            return Err(
                ApiError::bad_request(
                    "Qwen token not configured. Please configure it via POST /v1/config/qwen",
                ),
            );
        },
    };
    let continuation = match &request.thread_id {
        Some(id) => {
            let thread = match state.get_thread(id.as_str()) {
                Ok(thread) => thread,
                Err(e) => {
                    return Err(e);
                },
            };
            let count = thread.messages.len();
            if count == 0 {
                None
            } else {
                assert(views(thread.messages@).last() == thread.messages@[count - 1]@);
                Some(
                    Continuation {
                        chat_id: id.clone(),
                        model_id: request.model.clone(),
                        parent_id: thread.messages[count - 1].content.clone(),
                    },
                )
            }
        },
        None => None,
    };
    Ok(
        MediaPlan {
            token,
            prompt: request.prompt.clone(),
            size: match &request.size {
                Some(size) => Some(size.clone()),
                None => None,
            },
            model: request.model.clone(),
            continuation,
            download: request.download,
        },
    )
}

/// The directory that holds local copies.
pub fn local_copy_directory() -> (directory: &'static str)
    ensures
        directory@ == download_directory(),
{
    "./generated"
}

/// The path for the local copy of what was generated at `timestamp`.
pub fn local_copy_path(kind: MediaKind, timestamp: u64) -> (path: String)
    ensures
        path@ == download_path(kind, timestamp),
{
    let mut path = local_copy_directory().to_owned();
    match kind {
        MediaKind::Image => path.append("/generated_image_"),
        MediaKind::Video => path.append("/generated_video_"),
    }
    path.append(decimal_string(timestamp).as_str());
    match kind {
        MediaKind::Image => path.append(".png"),
        MediaKind::Video => path.append(".mp4"),
    }
    path
}

fn show_media(plan: MediaPlan, reply: ProviderReply, local_path: Option<String>) -> (shown:
    MediaResponse)
    ensures
        shown@ == media_response(plan@, reply@, optional_text(local_path)),
{
    MediaResponse {
        url: reply.content,
        prompt: plan.prompt,
        chat_id: reply.chat_id,
        response_id: reply.response_id,
        local_path,
    }
}

/// What one step of generating media of the given kind does: from the state `before`
/// and the event to the action and the state `after`.
///
/// A request is planned, which draws a credential; what was generated is shown at
/// once, or first copied to a path named after the current time if the plan asks for
/// a copy; a failure at any step changes nothing.
pub open spec fn media_step(
    kind: MediaKind,
    before: StateView,
    event: MediaEvent,
    action: MediaAction,
    after: StateView,
) -> bool {
    match event {
        MediaEvent::Requested(request) => {
            &&& after == before.with_credentials(before.credentials.advance())
            &&& match action {
                MediaAction::Generate(plan) => media_plan_of(before, request@) == Ok::<
                    MediaPlanView,
                    ErrorView,
                >(plan@),
                MediaAction::Reject(e) => media_plan_of(before, request@) == Err::<
                    MediaPlanView,
                    ErrorView,
                >(e@),
                _ => false,
            }
        },
        MediaEvent::Generated(plan, reply) => {
            &&& after == before
            &&& match action {
                MediaAction::Done(shown) => !plan.download && shown@ == media_response(
                    plan@,
                    reply@,
                    None,
                ),
                MediaAction::Download(same_plan, same_reply, path) => {
                    &&& plan.download
                    &&& same_plan@ == plan@
                    &&& same_reply@ == reply@
                    &&& exists|timestamp: u64| path@ == #[trigger] download_path(kind, timestamp)
                },
                _ => false,
            }
        },
        MediaEvent::Downloaded(plan, reply, path) => {
            &&& after == before
            &&& action matches MediaAction::Done(shown)
            &&& shown@ == media_response(plan@, reply@, Some(path@))
        },
        MediaEvent::Failed(stage, detail) => {
            &&& after == before
            &&& action matches MediaAction::Reject(e)
            &&& e@ == internal_error(media_failure_prefix(kind, stage) + detail@)
        },
    }
}

/// One step of generating media of the given kind.
pub fn generate_media(kind: MediaKind, state: &mut AppState, event: MediaEvent) -> (action:
    MediaAction)
    ensures
        media_step(kind, old(state)@, event, action, final(state)@),
{
    match event {
        MediaEvent::Requested(request) => match plan_media(state, &request) {
            Ok(plan) => MediaAction::Generate(plan),
            Err(e) => MediaAction::Reject(e),
        },
        MediaEvent::Generated(plan, reply) => {
            if plan.download {
                let timestamp = epoch_seconds();
                let path = local_copy_path(kind, timestamp);
                MediaAction::Download(plan, reply, path)
            } else {
                MediaAction::Done(show_media(plan, reply, None))
            }
        },
        MediaEvent::Downloaded(plan, reply, path) => MediaAction::Done(
            show_media(plan, reply, Some(path)),
        ),
        MediaEvent::Failed(stage, detail) => {
            let mut message = match stage {
                MediaFailure::Connect => "Could not create Qwen client: ".to_owned(),
                MediaFailure::Generate => match kind {
                    MediaKind::Image => "Image generation failed: ".to_owned(),
                    MediaKind::Video => "Video generation failed: ".to_owned(),
                },
                MediaFailure::Directory => "Failed to create directory: ".to_owned(),
                MediaFailure::Download => match kind {
                    MediaKind::Image => "Failed to download image: ".to_owned(),
                    MediaKind::Video => "Failed to download video: ".to_owned(),
                },
            };
            message.append(detail.as_str());
            MediaAction::Reject(ApiError::internal_error(message.as_str()))
        },
    }
}

/// One step of generating an image.
pub fn generate_image(state: &mut AppState, event: MediaEvent) -> (action: MediaAction)
    ensures
        media_step(MediaKind::Image, old(state)@, event, action, final(state)@),
{
    generate_media(MediaKind::Image, state, event)
}

/// One step of generating a video.
pub fn generate_video(state: &mut AppState, event: MediaEvent) -> (action: MediaAction)
    ensures
        media_step(MediaKind::Video, old(state)@, event, action, final(state)@),
{
    generate_media(MediaKind::Video, state, event)
}

} // verus!
