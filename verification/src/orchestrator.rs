//! Turning "generate a response for this thread" into one upstream turn and one write.
//!
//! The upstream call may take minutes and cannot be made from here. The work is
//! therefore cut in two around it: [`plan_response`] reads the thread, draws a
//! credential and decides what to ask the provider; [`commit_response`] writes the
//! answer back, unless the thread changed in the meantime. [`create_response`] is the
//! step function that ties the two to the events of one turn.

use vstd::prelude::*;
use crate::ambient::{epoch_seconds, fresh_id};
use crate::artifacts::{resolve, Artifact, ArtifactView};
use crate::error::{bad_request, conflict, internal_error, not_found, ApiError, ErrorView};
use crate::state::{thread_changed, thread_not_found, AppState, StateView};
use crate::text::{contains, contains_str, has_prefix, is_blank, is_blank_str, starts_with};
use crate::threads::{last_user, ThreadState, ThreadView};
use crate::types::{
    optional_text, stamped, views, Role, SessionPointers, SessionView, ThreadMessage,
};

verus! {

/// A request to generate a response for a thread.
#[derive(Debug)]
pub struct CreateResponseRequest {
    pub thread_id: String,
    /// Free text; the words "search" and "thinking" in it select a conversational mode.
    pub instructions: Option<String>,
    /// Identifiers of uploaded artifacts to hand to the provider.
    pub file_ids: Option<Vec<String>>,
}

/// The mathematical content of a [`CreateResponseRequest`].
pub struct RequestView {
    pub thread_id: Seq<char>,
    pub instructions: Option<Seq<char>>,
    pub file_ids: Option<Seq<Seq<char>>>,
}

impl View for CreateResponseRequest {
    type V = RequestView;

    open spec fn view(&self) -> RequestView {
        RequestView {
            thread_id: self.thread_id@,
            instructions: optional_text(self.instructions),
            file_ids: match self.file_ids {
                Some(ids) => Some(views(ids@)),
                None => None,
            },
        }
    }
}

/// The way the provider is asked to answer.
#[derive(Clone, Copy, Debug, PartialEq, Eq, Structural)]
pub enum Mode {
    Plain,
    Search,
    Thinking,
    Multimodal,
}

/// What lets the provider continue a session it already holds.
#[derive(Debug)]
pub struct Continuation {
    pub chat_id: String,
    pub model_id: String,
    pub parent_id: String,
}

/// The mathematical content of a [`Continuation`].
pub struct ContinuationView {
    pub chat_id: Seq<char>,
    pub model_id: Seq<char>,
    pub parent_id: Seq<char>,
}

impl View for Continuation {
    type V = ContinuationView;

    open spec fn view(&self) -> ContinuationView {
        ContinuationView {
            chat_id: self.chat_id@,
            model_id: self.model_id@,
            parent_id: self.parent_id@,
        }
    }
}

/// The view of an optional continuation.
pub open spec fn optional_continuation(c: Option<Continuation>) -> Option<ContinuationView> {
    match c {
        Some(c) => Some(c@),
        None => None,
    }
}

/// Everything the upstream call of one turn needs, and what the write after it is
/// held against.
#[derive(Debug)]
pub struct TurnPlan {
    pub thread_id: String,
    /// The credential to call the provider with.
    pub token: String,
    pub mode: Mode,
    /// The content of the most recent user message.
    pub content: String,
    /// The model of the thread.
    pub model: String,
    /// The artifacts to attach; empty unless the mode is multimodal.
    pub files: Vec<Artifact>,
    /// Absent where the turn opens a new upstream session.
    pub continuation: Option<Continuation>,
    /// How many messages the thread held when it was read.
    pub expected_messages: usize,
}

/// The mathematical content of a [`TurnPlan`].
pub struct PlanView {
    pub thread_id: Seq<char>,
    pub token: Seq<char>,
    pub mode: Mode,
    pub content: Seq<char>,
    pub model: Seq<char>,
    pub files: Seq<ArtifactView>,
    pub continuation: Option<ContinuationView>,
    pub expected_messages: nat,
}

impl View for TurnPlan {
    type V = PlanView;

    open spec fn view(&self) -> PlanView {
        PlanView {
            thread_id: self.thread_id@,
            token: self.token@,
            mode: self.mode,
            content: self.content@,
            model: self.model@,
            files: views(self.files@),
            continuation: optional_continuation(self.continuation),
            expected_messages: self.expected_messages as nat,
        }
    }
}

impl TurnPlan {
    /// The model to name in the upstream call: the thread's, except that a multimodal
    /// turn leaves the choice to the provider.
    pub fn provider_model(&self) -> (model: Option<&str>)
        ensures
            match model {
                Some(m) => self.mode != Mode::Multimodal && m@ == self.model@,
                None => self.mode == Mode::Multimodal,
            },
    {
        if self.mode == Mode::Multimodal {
            None
        } else {
            Some(self.model.as_str())
        }
    }
}

/// What the provider returned for a turn.
#[derive(Debug)]
pub struct ProviderReply {
    pub content: String,
    /// The upstream session, where the provider named one.
    pub chat_id: Option<String>,
    /// The upstream identifier of this turn.
    pub response_id: String,
}

/// The mathematical content of a [`ProviderReply`].
pub struct ReplyView {
    pub content: Seq<char>,
    pub chat_id: Option<Seq<char>>,
    pub response_id: Seq<char>,
}

impl View for ProviderReply {
    type V = ReplyView;

    open spec fn view(&self) -> ReplyView {
        ReplyView {
            content: self.content@,
            chat_id: optional_text(self.chat_id),
            response_id: self.response_id@,
        }
    }
}

/// The answer to a request for a response.
#[derive(Debug)]
pub struct Response {
    pub id: String,
    pub created_at: u64,
    pub thread_id: String,
    pub model: String,
    pub response: Option<String>,
}

/// The mathematical content of a [`Response`].
pub struct ResponseView {
    pub id: Seq<char>,
    pub created_at: u64,
    pub thread_id: Seq<char>,
    pub model: Seq<char>,
    pub response: Option<Seq<char>>,
}

impl View for Response {
    type V = ResponseView;

    open spec fn view(&self) -> ResponseView {
        ResponseView {
            id: self.id@,
            created_at: self.created_at,
            thread_id: self.thread_id@,
            model: self.model@,
            response: optional_text(self.response),
        }
    }
}

impl Response {
    /// The kind of entity a response is listed as.
    pub fn object(&self) -> (name: &'static str)
        ensures
            name@ == "thread.response"@,
    {
        "thread.response"
    }

    /// A response exists only once its turn is complete.
    pub fn status(&self) -> (name: &'static str)
        ensures
            name@ == "completed"@,
    {
        "completed"
    }
}

/// What a request on a thread without a user message is told.
pub open spec fn no_user_message() -> Seq<char> {
    "No user message found in thread"@
}

/// What a request on a thread whose last user message is blank is told.
pub open spec fn empty_user_message() -> Seq<char> {
    "Last user message content is empty"@
}

/// What a request is told while no credential is configured.
pub open spec fn token_missing() -> Seq<char> {
    "Qwen token not configured. Please configure it via POST /v1/config/qwen"@
}

/// What a request is told when none of its artifacts is cached.
pub open spec fn no_valid_files() -> Seq<char> {
    "No valid files found for provided file_ids"@
}

/// What a request on a thread with a model that is not served is told.
pub open spec fn unsupported_model(model: Seq<char>) -> Seq<char> {
    "Unsupported model: "@ + model + ". Use 'qwen-*'"@
}

/// What the provider is asked: the content of the thread's most recent user message.
/// A thread without a user message, or whose last one is blank, cannot be answered.
pub open spec fn prompt_of(thread: ThreadView) -> Result<Seq<char>, ErrorView> {
    match last_user(thread.messages) {
        None => Err(bad_request(no_user_message())),
        Some(message) => if is_blank(message.content) {
            Err(bad_request(empty_user_message()))
        } else {
            Ok(message.content)
        },
    }
}

/// Whether `model` belongs to the upstream family that is served.
pub open spec fn supports(model: Seq<char>) -> bool {
    has_prefix(model, "qwen"@)
}

/// Whether the request names at least one artifact.
pub open spec fn wants_files(request: RequestView) -> bool {
    request.file_ids matches Some(ids) && ids.len() > 0
}

/// Whether the instructions of the request mention `word`.
pub open spec fn instructed(request: RequestView, word: Seq<char>) -> bool {
    request.instructions matches Some(text) && contains(text, word)
}

/// The one mode of a request: artifacts come before search, search before thinking,
/// and a request with none of them is plain.
pub open spec fn mode_of(request: RequestView) -> Mode {
    if wants_files(request) {
        Mode::Multimodal
    } else if instructed(request, "search"@) {
        Mode::Search
    } else if instructed(request, "thinking"@) {
        Mode::Thinking
    } else {
        Mode::Plain
    }
}

/// The continuation of the thread's upstream session, where it has one.
pub open spec fn continuation_of(thread: ThreadView) -> Option<ContinuationView> {
    match thread.session {
        Some(session) => Some(
            ContinuationView {
                chat_id: session.chat_id,
                model_id: thread.model,
                parent_id: session.parent_id,
            },
        ),
        None => None,
    }
}

/// The artifacts that the request attaches.
pub open spec fn attachments_of(state: StateView, request: RequestView) -> Seq<ArtifactView> {
    if wants_files(request) {
        resolve(state.files, request.file_ids->0)
    } else {
        Seq::empty()
    }
}

/// Whether planning gets as far as the credential pool: the thread exists, holds a
/// user message that is not blank, and names a model that is served.
pub open spec fn reaches_pool(state: StateView, request: RequestView) -> bool {
    &&& state.has_thread(request.thread_id)
    &&& prompt_of(state.thread(request.thread_id)) is Ok
    &&& supports(state.thread(request.thread_id).model)
}

/// What planning a turn for `request` yields in `state`: the plan, or the first
/// failure in the order thread, user message, model, credential, artifacts.
pub open spec fn plan_of(state: StateView, request: RequestView) -> Result<PlanView, ErrorView> {
    if !state.has_thread(request.thread_id) {
        Err(not_found(thread_not_found()))
    } else {
        let thread = state.thread(request.thread_id);
        match prompt_of(thread) {
            Err(e) => Err(e),
            Ok(content) => if !supports(thread.model) {
                Err(bad_request(unsupported_model(thread.model)))
            } else {
                match state.credentials.issue() {
                    None => Err(bad_request(token_missing())),
                    Some(token) => if wants_files(request) && attachments_of(
                        state,
                        request,
                    ).len() == 0 {
                        Err(bad_request(no_valid_files()))
                    } else {
                        Ok(
                            PlanView {
                                thread_id: request.thread_id,
                                token,
                                mode: mode_of(request),
                                content,
                                model: thread.model,
                                files: attachments_of(state, request),
                                continuation: continuation_of(thread),
                                expected_messages: thread.messages.len(),
                            },
                        )
                    },
                }
            },
        }
    }
}

/// The state after planning: a credential was drawn if planning reached the pool, and
/// nothing else changed.
pub open spec fn state_after_plan(state: StateView, request: RequestView) -> StateView {
    if reaches_pool(state, request) {
        state.with_credentials(state.credentials.advance())
    } else {
        state
    }
}

/// The session pointers that a reply brings: both, where the provider named a session,
/// and none otherwise.
pub open spec fn session_of(reply: ReplyView) -> Option<SessionView> {
    match reply.chat_id {
        Some(chat_id) => Some(SessionView { chat_id, parent_id: reply.response_id }),
        None => None,
    }
}

/// The state after the write of a turn: the reply stands at the end of the thread as a
/// message of the assistant, with the session pointers it brought, if the thread is as
/// the plan read it; otherwise nothing changed.
pub open spec fn state_after_commit(
    state: StateView,
    plan: PlanView,
    reply: ReplyView,
    replied_at: u64,
) -> StateView {
    state.with_threads(
        state.threads.commit(
            plan.thread_id,
            plan.expected_messages,
            stamped(Role::Assistant, reply.content, replied_at),
            session_of(reply),
        ),
    )
}

/// Why the write of a turn is refused, if it is: the thread is gone, or it no longer
/// holds the number of messages that the plan read.
pub open spec fn refusal_of(state: StateView, plan: PlanView) -> Option<ErrorView> {
    if !state.has_thread(plan.thread_id) {
        Some(not_found(thread_not_found()))
    } else if state.thread(plan.thread_id).messages.len() != plan.expected_messages {
        Some(conflict(thread_changed()))
    } else {
        None
    }
}

/// The response that reports a written turn.
pub open spec fn response_for(
    plan: PlanView,
    reply: ReplyView,
    response_id: Seq<char>,
    responded_at: u64,
) -> ResponseView {
    ResponseView {
        id: response_id,
        created_at: responded_at,
        thread_id: plan.thread_id,
        model: plan.model,
        response: Some(reply.content),
    }
}

/// Where in the course of the upstream call a turn failed.
#[derive(Clone, Copy, Debug, PartialEq, Eq, Structural)]
pub enum TurnFailure {
    /// No client could be set up for the credential.
    Connect,
    /// The provider did not answer the call.
    Call,
}

/// How the message of an upstream failure begins.
pub open spec fn failure_prefix(stage: TurnFailure, mode: Mode) -> Seq<char> {
    match stage {
        TurnFailure::Connect => "Could not create Qwen client: "@,
        TurnFailure::Call => match mode {
            Mode::Plain => "Qwen error: "@,
            Mode::Search => "Qwen search error: "@,
            Mode::Thinking => "Qwen thinking error: "@,
            Mode::Multimodal => "Qwen multimodal error: "@,
        },
    }
}

/// The failure that the caller is told of when the upstream call fails with `detail`.
pub open spec fn upstream_failure(stage: TurnFailure, mode: Mode, detail: Seq<char>) -> ErrorView {
    internal_error(failure_prefix(stage, mode) + detail)
}

/// A deleted thread cannot be found again: once thread `id` is removed, a request for a
/// response on it is refused as not found and draws no credential, an append to it
/// changes nothing, and the write of a turn that was planned on it is refused as not
/// found and changes nothing.
pub proof fn lemma_deleted_thread_is_gone(
    state: StateView,
    request: RequestView,
    plan: PlanView,
    message: crate::types::MessageView,
    reply: ReplyView,
    replied_at: u64,
)
    requires
        plan.thread_id == request.thread_id,
    ensures
        ({
            let id = request.thread_id;
            let after = state.with_threads(state.threads.without(id));
            &&& !after.has_thread(id)
            &&& after.threads.append(id, message) == after.threads
            &&& plan_of(after, request) == Err::<PlanView, ErrorView>(
                not_found(thread_not_found()),
            )
            &&& state_after_plan(after, request) == after
            &&& refusal_of(after, plan) == Some(not_found(thread_not_found()))
            &&& state_after_commit(after, plan, reply, replied_at) == after
        }),
{
}

/// A written turn shows in the thread and in the turn that follows: the thread holds
/// the messages it held before and the reply of the assistant after them; where the
/// reply named an upstream session, the thread points at that session and at the turn
/// of the reply, both together; and the next plan for the thread carries exactly these
/// as its continuation.
pub proof fn lemma_next_turn_continues_session(
    state: StateView,
    plan: PlanView,
    reply: ReplyView,
    replied_at: u64,
    request: RequestView,
)
    requires
        refusal_of(state, plan) is None,
        request.thread_id == plan.thread_id,
    ensures
        ({
            let id = plan.thread_id;
            let after = state_after_commit(state, plan, reply, replied_at);
            &&& after.has_thread(id)
            &&& after.thread(id).messages == state.thread(id).messages.push(
                stamped(Role::Assistant, reply.content, replied_at),
            )
            &&& reply.chat_id is Some ==> after.thread(id).session == Some(
                SessionView { chat_id: reply.chat_id->0, parent_id: reply.response_id },
            )
            &&& reply.chat_id is None ==> after.thread(id).session == state.thread(id).session
            &&& reply.chat_id is Some ==> (plan_of(after, request) matches Ok(next)
                ==> next.continuation == Some(
                ContinuationView {
                    chat_id: reply.chat_id->0,
                    model_id: state.thread(id).model,
                    parent_id: reply.response_id,
                },
            ))
        }),
{
}

/// A turn that finds its thread changed writes nothing: if the thread does not hold
/// the number of messages that the plan read, the write leaves the state as it is.
pub proof fn lemma_stale_turn_writes_nothing(
    state: StateView,
    plan: PlanView,
    reply: ReplyView,
    replied_at: u64,
)
    requires
        refusal_of(state, plan) is Some,
    ensures
        state_after_commit(state, plan, reply, replied_at) == state,
{
}

/// The conversational mode of `request`.
pub fn choose_mode(request: &CreateResponseRequest) -> (mode: Mode)
    ensures
        mode == mode_of(request@),
{
    let with_files = match &request.file_ids {
        Some(ids) => ids.len() > 0,
        None => false,
    };
    if with_files {
        return Mode::Multimodal;
    }
    match &request.instructions {
        Some(text) => {
            if contains_str(text.as_str(), "search") {
                Mode::Search
            } else if contains_str(text.as_str(), "thinking") {
                Mode::Thinking
            } else {
                Mode::Plain
            }
        },
        None => Mode::Plain,
    }
}

/// The continuation context for the next turn of `thread`.
pub fn continuation_for(thread: &ThreadState) -> (continuation: Option<Continuation>)
    ensures
        optional_continuation(continuation) == continuation_of(thread@),
{
    match &thread.session {
        Some(session) => Some(
            Continuation {
                chat_id: session.chat_id.clone(),
                model_id: thread.model.clone(),
                parent_id: session.parent_id.clone(),
            },
        ),
        None => None,
    }
}

/// Reads the thread, draws a credential and decides what to ask the provider.
pub fn plan_response(state: &mut AppState, request: &CreateResponseRequest) -> (planned: Result<
    TurnPlan,
    ApiError,
>)
    ensures
        final(state)@ == state_after_plan(old(state)@, request@),
        match planned {
            Ok(plan) => plan_of(old(state)@, request@) == Ok::<PlanView, ErrorView>(plan@),
            Err(e) => plan_of(old(state)@, request@) == Err::<PlanView, ErrorView>(e@),
        },
{
    let thread = match state.get_thread(request.thread_id.as_str()) {
        Ok(thread) => thread,
        Err(e) => {
            return Err(e);
        },
    };
    let content = match thread.last_user_message() {
        Some(message) => message.content.clone(),
        None => {
            return Err(ApiError::bad_request("No user message found in thread"));
        },
    };
    if is_blank_str(content.as_str()) {
        return Err(ApiError::bad_request("Last user message content is empty"));
    }
    if !starts_with(thread.model.as_str(), "qwen") {
        let mut message = "Unsupported model: ".to_owned();
        message.append(thread.model.as_str());
        message.append(". Use 'qwen-*'");
        return Err(ApiError::bad_request(message.as_str()));
    }
    let token = match state.next_qwen_token() {
        Some(token) => token,
        None => {
            return Err(
                ApiError::bad_request(
                    "Qwen token not configured. Please configure it via POST /v1/config/qwen",
                ),
            );
        },
    };
    let mode = choose_mode(request);
    let files = match &request.file_ids {
        Some(ids) => {
            if ids.len() > 0 {
                state.get_uploaded_files(ids.as_slice())
            } else {
                Vec::new()
            }
        },
        None => Vec::new(),
    };
    assert(views(files@) =~= attachments_of(old(state)@, request@));
    if mode == Mode::Multimodal && files.len() == 0 {
        return Err(ApiError::bad_request("No valid files found for provided file_ids"));
    }
    let continuation = continuation_for(&thread);
    let expected_messages = thread.messages.len();
    Ok(
        TurnPlan {
            thread_id: request.thread_id.clone(),
            token,
            mode,
            content,
            model: thread.model.clone(),
            files,
            continuation,
            expected_messages,
        },
    )
}

/// Writes the reply of the provider into the thread that `plan` was made for, and
/// answers the caller. Where the thread is gone, or was appended to since the plan read
/// it, nothing is written and the caller is told so.
pub fn commit_response(
    state: &mut AppState,
    plan: &TurnPlan,
    reply: ProviderReply,
    replied_at: u64,
    response_id: String,
    responded_at: u64,
) -> (answer: Result<Response, ApiError>)
    ensures
        final(state)@ == state_after_commit(old(state)@, plan@, reply@, replied_at),
        match answer {
            Ok(response) => refusal_of(old(state)@, plan@) is None && response@ == response_for(
                plan@,
                reply@,
                response_id@,
                responded_at,
            ),
            Err(e) => refusal_of(old(state)@, plan@) == Some(e@),
        },
{
    let session = match &reply.chat_id {
        Some(chat_id) => Some(
            SessionPointers { chat_id: chat_id.clone(), parent_id: reply.response_id.clone() },
        ),
        None => None,
    };
    let message = ThreadMessage {
        role: Role::Assistant,
        content: reply.content.clone(),
        created_at: Some(replied_at),
    };
    match state.update_thread(plan.thread_id.as_str(), plan.expected_messages, message, session) {
        Ok(_) => Ok(
            Response {
                id: response_id,
                created_at: responded_at,
                thread_id: plan.thread_id.clone(),
                model: plan.model.clone(),
                response: Some(reply.content),
            },
        ),
        Err(e) => Err(e),
    }
}

/// The failure to report for an upstream call that failed with `detail`.
pub fn turn_failure(stage: TurnFailure, mode: Mode, detail: &str) -> (e: ApiError)
    ensures
        e@ == upstream_failure(stage, mode, detail@),
{
    let mut message = match stage {
        TurnFailure::Connect => "Could not create Qwen client: ".to_owned(),
        TurnFailure::Call => match mode {
            Mode::Plain => "Qwen error: ".to_owned(),
            Mode::Search => "Qwen search error: ".to_owned(),
            Mode::Thinking => "Qwen thinking error: ".to_owned(),
            Mode::Multimodal => "Qwen multimodal error: ".to_owned(),
        },
    };
    message.append(detail);
    ApiError::internal_error(message.as_str())
}

/// What happens in the course of one turn.
#[derive(Debug)]
pub enum TurnEvent {
    /// A caller asks for a response.
    Requested(CreateResponseRequest),
    /// The provider answered the call that the plan asked for.
    Replied(TurnPlan, ProviderReply),
    /// The call that the plan asked for failed, with these words.
    Failed(TurnPlan, TurnFailure, String),
}

/// What is to be done next in the course of one turn.
#[derive(Debug)]
pub enum TurnAction {
    /// Call the provider as the plan says, and come back with its reply or failure.
    Call(TurnPlan),
    /// Answer the caller: the turn is written.
    Respond(Response),
    /// Answer the caller with a failure.
    Reject(ApiError),
}

/// One step of a turn: from the shared state and what just happened to the state
/// after it and what to do next.
///
/// A request is planned; a reply is written into its thread, stamped with the time of
/// the write, and answered under a fresh identifier; a failure of the upstream call
/// changes nothing.
pub fn create_response(state: &mut AppState, event: TurnEvent) -> (action: TurnAction)
    ensures
        match event {
            TurnEvent::Requested(request) => {
                &&& final(state)@ == state_after_plan(old(state)@, request@)
                &&& match action {
                    TurnAction::Call(plan) => plan_of(old(state)@, request@) == Ok::<
                        PlanView,
                        ErrorView,
                    >(plan@),
                    TurnAction::Reject(e) => plan_of(old(state)@, request@) == Err::<
                        PlanView,
                        ErrorView,
                    >(e@),
                    TurnAction::Respond(_) => false,
                }
            },
            TurnEvent::Replied(plan, reply) => {
                &&& exists|replied_at: u64|
                    final(state)@ == #[trigger] state_after_commit(
                        old(state)@,
                        plan@,
                        reply@,
                        replied_at,
                    )
                &&& match action {
                    TurnAction::Respond(response) => {
                        &&& refusal_of(old(state)@, plan@) is None
                        &&& response.id@.len() == 36
                        &&& response@ == response_for(
                            plan@,
                            reply@,
                            response.id@,
                            response.created_at,
                        )
                    },
                    TurnAction::Reject(e) => refusal_of(old(state)@, plan@) == Some(e@),
                    TurnAction::Call(_) => false,
                }
            },
            TurnEvent::Failed(plan, stage, detail) => {
                &&& final(state)@ == old(state)@
                &&& action matches TurnAction::Reject(e)
                &&& e@ == upstream_failure(stage, plan.mode, detail@)
            },
        },
{
    match event {
        TurnEvent::Requested(request) => match plan_response(state, &request) {
            Ok(plan) => TurnAction::Call(plan),
            Err(e) => TurnAction::Reject(e),
        },
        TurnEvent::Replied(plan, reply) => {
            let replied_at = epoch_seconds();
            let response_id = fresh_id();
            let responded_at = epoch_seconds();
            let ghost witness = state_after_commit(state@, plan@, reply@, replied_at);
            match commit_response(state, &plan, reply, replied_at, response_id, responded_at) {
                Ok(response) => {
                    assert(state@ == witness);
                    TurnAction::Respond(response)
                },
                Err(e) => {
                    assert(state@ == witness);
                    TurnAction::Reject(e)
                },
            }
        },
        TurnEvent::Failed(plan, stage, detail) => TurnAction::Reject(
            turn_failure(stage, plan.mode, detail.as_str()),
        ),
    }
}

} // verus!
