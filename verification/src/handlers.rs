//! What each operation on threads and messages answers, from the request as plain data
//! to the entity that is sent back.

use vstd::prelude::*;
use crate::ambient::{epoch_seconds, fresh_id};
use crate::error::{bad_request, not_found, ApiError, ErrorView};
use crate::state::{thread_not_found, AppState, StateView};
use crate::text::{decimal, decimal_string, is_blank, is_blank_str};
use crate::threads::{ThreadState, ThreadView};
use crate::types::{stamped, views, ModelInfo, ModelView, Role, ThreadMessage};

verus! {

/// A request to create a thread.
#[derive(Debug)]
pub struct CreateThreadRequest {
    pub messages: Vec<ThreadMessage>,
    pub metadata: Option<serde_json::Value>,
    pub model: String,
}

/// A thread as it is shown to callers.
#[derive(Debug)]
pub struct Thread {
    pub id: String,
    pub created_at: u64,
    pub metadata: Option<serde_json::Value>,
}

/// The mathematical content of a [`Thread`].
pub struct ThreadEntityView {
    pub id: Seq<char>,
    pub created_at: u64,
    pub metadata: Option<serde_json::Value>,
}

impl View for Thread {
    type V = ThreadEntityView;

    open spec fn view(&self) -> ThreadEntityView {
        ThreadEntityView { id: self.id@, created_at: self.created_at, metadata: self.metadata }
    }
}

impl Thread {
    /// The kind of entity a thread is listed as.
    pub fn object(&self) -> (name: &'static str)
        ensures
            name@ == "thread"@,
    {
        "thread"
    }
}

/// How thread `id` is shown to callers.
pub open spec fn thread_entity(id: Seq<char>, thread: ThreadView) -> ThreadEntityView {
    ThreadEntityView { id, created_at: thread.created_at, metadata: thread.metadata }
}

/// All threads, as they are shown to callers.
#[derive(Debug)]
pub struct ListThreadsResponse {
    pub data: Vec<Thread>,
    /// Always `false`: the list is complete.
    pub has_more: bool,
}

impl ListThreadsResponse {
    /// The kind of entity this is listed as.
    pub fn object(&self) -> (name: &'static str)
        ensures
            name@ == "list"@,
    {
        "list"
    }
}

/// The confirmation that a thread was deleted.
#[derive(Debug)]
pub struct DeletedThread {
    pub id: String,
    /// Always `true`.
    pub deleted: bool,
}

impl DeletedThread {
    /// The kind of entity this is listed as.
    pub fn object(&self) -> (name: &'static str)
        ensures
            name@ == "thread.deleted"@,
    {
        "thread.deleted"
    }
}

/// A request to append a message to a thread.
#[derive(Debug)]
pub struct AddMessageRequest {
    pub role: Role,
    pub content: String,
}

/// A message as it is shown to callers. Its content is one part of text.
#[derive(Debug)]
pub struct Message {
    pub id: String,
    pub created_at: u64,
    pub thread_id: String,
    pub role: Role,
    pub text: String,
}

/// The mathematical content of a [`Message`].
pub struct MessageEntityView {
    pub id: Seq<char>,
    pub created_at: u64,
    pub thread_id: Seq<char>,
    pub role: Role,
    pub text: Seq<char>,
}

impl View for Message {
    type V = MessageEntityView;

    open spec fn view(&self) -> MessageEntityView {
        MessageEntityView {
            id: self.id@,
            created_at: self.created_at,
            thread_id: self.thread_id@,
            role: self.role,
            text: self.text@,
        }
    }
}

impl Message {
    /// The kind of entity a message is listed as.
    pub fn object(&self) -> (name: &'static str)
        ensures
            name@ == "thread.message"@,
    {
        "thread.message"
    }

    /// The kind of the one content part of a message.
    pub fn content_type(&self) -> (name: &'static str)
        ensures
            name@ == "text"@,
    {
        "text"
    }
}

/// The messages of a thread, as they are shown to callers.
#[derive(Debug)]
pub struct ListMessagesResponse {
    pub data: Vec<Message>,
    /// Always `false`: the list is complete.
    pub has_more: bool,
}

impl ListMessagesResponse {
    /// The kind of entity this is listed as.
    pub fn object(&self) -> (name: &'static str)
        ensures
            name@ == "list"@,
    {
        "list"
    }
}

/// The identifier under which the message at `index` of thread `thread_id` is listed.
pub open spec fn listed_message_id(thread_id: Seq<char>, index: nat) -> Seq<char> {
    "msg_"@ + thread_id + "_"@ + decimal(index)
}

/// How the message at `index` of `thread` is listed: under an identifier made of the
/// thread's and its place, and with the time of the thread's creation where the
/// message has none of its own.
pub open spec fn listed_message(
    thread_id: Seq<char>,
    thread: ThreadView,
    index: int,
) -> MessageEntityView {
    let message = thread.messages[index];
    MessageEntityView {
        id: listed_message_id(thread_id, index as nat),
        created_at: match message.created_at {
            Some(at) => at,
            None => thread.created_at,
        },
        thread_id,
        role: message.role,
        text: message.content,
    }
}

/// What a request to append a blank message is told.
pub open spec fn empty_message() -> Seq<char> {
    "Message content cannot be empty"@
}

/// What the service reports of itself.
#[derive(Clone, Copy, Debug)]
pub struct Health {
    pub active_threads: usize,
}

impl Health {
    /// The status that a running service reports.
    pub fn status(&self) -> (name: &'static str)
        ensures
            name@ == "ok"@,
    {
        "ok"
    }
}

fn show_thread(id: &str, thread: ThreadState) -> (shown: Thread)
    ensures
        shown@ == thread_entity(id@, thread@),
{
    Thread { id: id.to_owned(), created_at: thread.created_at, metadata: thread.metadata }
}

/// Creates the thread that `payload` describes, under `thread_id` and as of
/// `created_at`.
pub fn create_thread_as(
    state: &mut AppState,
    payload: CreateThreadRequest,
    thread_id: String,
    created_at: u64,
) -> (created: Thread)
    ensures
        created@ == (ThreadEntityView {
            id: thread_id@,
            created_at,
            metadata: payload.metadata,
        }),
        final(state)@ == old(state)@.with_threads(
            old(state)@.threads.put(
                thread_id@,
                ThreadView::created(
                    created_at,
                    payload.metadata,
                    views(payload.messages@),
                    payload.model@,
                ),
            ),
        ),
{
    let (id, snapshot) = state.create_thread_as(
        thread_id,
        created_at,
        payload.messages,
        payload.metadata,
        payload.model.as_str(),
    );
    Thread { id, created_at: snapshot.created_at, metadata: snapshot.metadata }
}

/// Creates the thread that `payload` describes, under a fresh identifier and as of now.
pub fn create_thread(state: &mut AppState, payload: CreateThreadRequest) -> (created: Result<
    Thread,
    ApiError,
>)
    ensures
        match created {
            Ok(thread) => {
                &&& thread.id@.len() == 36
                &&& thread.metadata == payload.metadata
                &&& final(state)@ == old(state)@.with_threads(
                    old(state)@.threads.put(
                        thread.id@,
                        ThreadView::created(
                            thread.created_at,
                            payload.metadata,
                            views(payload.messages@),
                            payload.model@,
                        ),
                    ),
                )
            },
            Err(_) => false,
        },
{
    let thread_id = fresh_id();
    let created_at = epoch_seconds();
    Ok(create_thread_as(state, payload, thread_id, created_at))
}

/// Shows thread `thread_id`.
pub fn get_thread(state: &AppState, thread_id: &str) -> (found: Result<Thread, ApiError>)
    ensures
        match found {
            Ok(thread) => state@.has_thread(thread_id@) && thread@ == thread_entity(
                thread_id@,
                state@.thread(thread_id@),
            ),
            Err(e) => !state@.has_thread(thread_id@) && e@ == not_found(thread_not_found()),
        },
{
    match state.get_thread(thread_id) {
        Ok(thread) => Ok(show_thread(thread_id, thread)),
        Err(e) => Err(e),
    }
}

/// Shows all threads, oldest first.
pub fn list_threads(state: &AppState) -> (list: ListThreadsResponse)
    ensures
        !list.has_more,
        list.data.len() == state@.threads.order.len(),
        forall|i: int|
            0 <= i < list.data.len() ==> (#[trigger] list.data[i])@ == thread_entity(
                state@.threads.order[i],
                state@.thread(state@.threads.order[i]),
            ),
{
    let all = state.list_threads();
    let ghost listed = all@;
    let mut data: Vec<Thread> = Vec::new();
    let mut i: usize = 0;
    while i < all.len()
        invariant
            i <= all.len(),
            data.len() == i,
            all.len() == listed.len(),
            forall|j: int| i <= j < all.len() ==> all[j] == listed[j],
            forall|j: int|
                0 <= j < i ==> (#[trigger] data[j])@ == thread_entity(listed[j].0@, listed[j].1@),
        decreases all.len() - i,
    {
        let thread = all[i].1.clone();
        data.push(show_thread(all[i].0.as_str(), thread));
        i += 1;
    }
    ListThreadsResponse { data, has_more: false }
}

/// Deletes thread `thread_id` for good.
pub fn delete_thread(state: &mut AppState, thread_id: &str) -> (done: Result<
    DeletedThread,
    ApiError,
>)
    ensures
        final(state)@ == old(state)@.with_threads(old(state)@.threads.without(thread_id@)),
        match done {
            Ok(gone) => old(state)@.has_thread(thread_id@) && gone.id@ == thread_id@
                && gone.deleted,
            Err(e) => !old(state)@.has_thread(thread_id@) && e@ == not_found(
                thread_not_found(),
            ),
        },
{
    match state.delete_thread(thread_id) {
        Ok(_) => Ok(DeletedThread { id: thread_id.to_owned(), deleted: true }),
        Err(e) => Err(e),
    }
}

/// What appending `payload` to thread `thread_id` answers: a blank message is refused
/// before the thread is looked at, and an unknown thread is not found.
pub open spec fn append_refusal(
    state: StateView,
    thread_id: Seq<char>,
    content: Seq<char>,
) -> Option<ErrorView> {
    if is_blank(content) {
        Some(bad_request(empty_message()))
    } else if !state.has_thread(thread_id) {
        Some(not_found(thread_not_found()))
    } else {
        None
    }
}

/// Appends the message of `payload` to thread `thread_id`, stamped `stored_at`, and
/// shows it under `message_id` and as of `shown_at`.
pub fn add_message_as(
    state: &mut AppState,
    thread_id: &str,
    payload: AddMessageRequest,
    stored_at: u64,
    message_id: String,
    shown_at: u64,
) -> (added: Result<Message, ApiError>)
    ensures
        final(state)@ == if append_refusal(old(state)@, thread_id@, payload.content@) is None {
            old(state)@.with_threads(
                old(state)@.threads.append(
                    thread_id@,
                    stamped(payload.role, payload.content@, stored_at),
                ),
            )
        } else {
            old(state)@
        },
        match added {
            Ok(message) => {
                &&& append_refusal(old(state)@, thread_id@, payload.content@) is None
                &&& message@ == (MessageEntityView {
                    id: message_id@,
                    created_at: shown_at,
                    thread_id: thread_id@,
                    role: payload.role,
                    text: payload.content@,
                })
            },
            Err(e) => append_refusal(old(state)@, thread_id@, payload.content@) == Some(e@),
        },
{
    if is_blank_str(payload.content.as_str()) {
        return Err(ApiError::bad_request("Message content cannot be empty"));
    }
    let stored = payload.content.clone();
    match state.add_message_to_thread_at(thread_id, payload.role, stored, stored_at) {
        Ok(_) => Ok(
            Message {
                id: message_id,
                created_at: shown_at,
                thread_id: thread_id.to_owned(),
                role: payload.role,
                text: payload.content,
            },
        ),
        Err(e) => Err(e),
    }
}

/// Appends the message of `payload` to thread `thread_id`, stamped with the current
/// time, and shows it under a fresh identifier.
pub fn add_message(state: &mut AppState, thread_id: &str, payload: AddMessageRequest) -> (added:
    Result<Message, ApiError>)
    ensures
        append_refusal(old(state)@, thread_id@, payload.content@) is Some ==> final(state)@ == old(
            state,
        )@,
        append_refusal(old(state)@, thread_id@, payload.content@) is None ==> exists|
            stored_at: u64,
        |
            final(state)@ == old(state)@.with_threads(
                old(state)@.threads.append(
                    thread_id@,
                    #[trigger] stamped(payload.role, payload.content@, stored_at),
                ),
            ),
        match added {
            Ok(message) => {
                &&& append_refusal(old(state)@, thread_id@, payload.content@) is None
                &&& message.id@.len() == 36
                &&& message.thread_id@ == thread_id@
                &&& message.role == payload.role
                &&& message.text@ == payload.content@
            },
            Err(e) => append_refusal(old(state)@, thread_id@, payload.content@) == Some(e@),
        },
{
    let stored_at = epoch_seconds();
    let message_id = fresh_id();
    let shown_at = epoch_seconds();
    let added = add_message_as(state, thread_id, payload, stored_at, message_id, shown_at);
    assert(append_refusal(old(state)@, thread_id@, payload.content@) is None ==> final(state)@
        == old(state)@.with_threads(
        old(state)@.threads.append(
            thread_id@,
            stamped(payload.role, payload.content@, stored_at),
        ),
    ));
    added
}

/// Shows the messages of thread `thread_id`, oldest first.
pub fn list_messages(state: &AppState, thread_id: &str) -> (listed: Result<
    ListMessagesResponse,
    ApiError,
>)
    ensures
        match listed {
            Ok(list) => {
                &&& state@.has_thread(thread_id@)
                &&& !list.has_more
                &&& list.data.len() == state@.thread(thread_id@).messages.len()
                &&& forall|i: int|
                    0 <= i < list.data.len() ==> (#[trigger] list.data[i])@ == listed_message(
                        thread_id@,
                        state@.thread(thread_id@),
                        i,
                    )
            },
            Err(e) => !state@.has_thread(thread_id@) && e@ == not_found(thread_not_found()),
        },
{
    let thread = match state.get_thread(thread_id) {
        Ok(thread) => thread,
        Err(e) => {
            return Err(e);
        },
    };
    let messages = thread.get_messages();
    let mut data: Vec<Message> = Vec::new();
    let mut i: usize = 0;
    while i < messages.len()
        invariant
            i <= messages.len(),
            data.len() == i,
            messages@ == thread.messages@,
            forall|j: int|
                0 <= j < i ==> (#[trigger] data[j])@ == listed_message(thread_id@, thread@, j),
        decreases messages.len() - i,
    {
        let message = &messages[i];
        let mut id = "msg_".to_owned();
        id.append(thread_id);
        id.append("_");
        id.append(decimal_string(i as u64).as_str());
        let created_at = match message.created_at {
            Some(at) => at,
            None => thread.created_at,
        };
        data.push(
            Message {
                id,
                created_at,
                thread_id: thread_id.to_owned(),
                role: message.role,
                text: message.content.clone(),
            },
        );
        i += 1;
    }
    Ok(ListMessagesResponse { data, has_more: false })
}

/// Reports that the service is up, and how many threads it holds.
pub fn health_check(state: &AppState) -> (health: Health)
    ensures
        health.active_threads == state@.threads.threads.len(),
{
    Health { active_threads: state.thread_count() }
}

/// The models that callers may name: the cached list, or none while nothing is cached.
pub fn list_models(state: &AppState) -> (models: Vec<ModelInfo>)
    ensures
        views(models@) == match state@.models {
            Some(list) => list,
            None => Seq::<ModelView>::empty(),
        },
{
    match state.get_qwen_models() {
        Some(list) => list,
        None => {
            let none: Vec<ModelInfo> = Vec::new();
            assert(views(none@) =~= Seq::<ModelView>::empty());
            none
        },
    }
}

} // verus!
