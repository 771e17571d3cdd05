//! The shared state of the process: threads, credentials, cached models and uploaded
//! artifacts, as one value that is built once and handed to every request.

use vstd::prelude::*;
use crate::ambient::{epoch_seconds, fresh_id};
use crate::artifacts::{resolve, Artifact, ArtifactCache, ArtifactView};
use crate::error::{conflict, not_found, ApiError};
use crate::rotator::{CredentialRotator, RotatorView};
use crate::text::{parse_trimmed_lines, trimmed_lines};
use crate::store::{ThreadsView, ThreadStore, TurnWrite};
use crate::threads::{ThreadState, ThreadView};
use crate::types::{
    clone_models, optional_models, optional_session, stamped, views, ModelInfo, ModelView, Role,
    SessionPointers, ThreadMessage,
};

verus! {

/// The mathematical content of an [`AppState`].
pub struct StateView {
    pub threads: ThreadsView,
    pub credentials: RotatorView,
    pub models: Option<Seq<ModelView>>,
    pub files: Map<Seq<char>, ArtifactView>,
}

impl StateView {
    /// The state of a process that was started with `tokens`.
    pub open spec fn initial(tokens: Seq<Seq<char>>) -> StateView {
        StateView {
            threads: ThreadsView::empty(),
            credentials: RotatorView::configured(tokens),
            models: None,
            files: Map::empty(),
        }
    }

    /// This state with `threads` in place of its threads.
    pub open spec fn with_threads(self, threads: ThreadsView) -> StateView {
        StateView { threads, ..self }
    }

    /// This state with `credentials` in place of its credential pool.
    pub open spec fn with_credentials(self, credentials: RotatorView) -> StateView {
        StateView { credentials, ..self }
    }

    /// Whether a thread is stored under `id`.
    pub open spec fn has_thread(self, id: Seq<char>) -> bool {
        self.threads.threads.contains_key(id)
    }

    /// The thread stored under `id`.
    pub open spec fn thread(self, id: Seq<char>) -> ThreadView {
        self.threads.threads[id]
    }
}

/// What a request on an unknown thread is told.
pub open spec fn thread_not_found() -> Seq<char> {
    "Thread not found"@
}

/// What a turn is told whose thread was appended to while it ran.
pub open spec fn thread_changed() -> Seq<char> {
    "Thread changed while the response was being generated"@
}

/// Threads, credential pool, cached model list and artifact cache.
pub struct AppState {
    threads: ThreadStore,
    credentials: CredentialRotator,
    models: Option<Vec<ModelInfo>>,
    files: ArtifactCache,
}

impl View for AppState {
    type V = StateView;

    closed spec fn view(&self) -> StateView {
        StateView {
            threads: self.threads@,
            credentials: self.credentials@,
            models: optional_models(self.models),
            files: self.files@,
        }
    }
}

impl AppState {
    /// The state at startup: no threads, no artifacts, no model list. The credential
    /// pool holds the lines of `token_file`, the contents of the file that lists one
    /// credential per line, each trimmed and the blank ones left out; it is empty where
    /// there is no such file.
    pub fn new(token_file: Option<&str>) -> (state: AppState)
        ensures
            state@ == StateView::initial(
                match token_file {
                    Some(contents) => trimmed_lines(contents@),
                    None => Seq::empty(),
                },
            ),
    {
        let tokens = match token_file {
            Some(contents) => parse_trimmed_lines(contents),
            None => Vec::new(),
        };
        assert(token_file is None ==> views(tokens@) =~= Seq::<Seq<char>>::empty());
        let mut credentials = CredentialRotator::new();
        credentials.configure(tokens);
        AppState {
            threads: ThreadStore::new(),
            credentials,
            models: None,
            files: ArtifactCache::new(),
        }
    }

    /// Replaces the credential pool with `tokens` and starts the rotation over.
    pub fn set_qwen_tokens(&mut self, tokens: Vec<String>)
        ensures
            final(self)@ == old(self)@.with_credentials(RotatorView::configured(views(tokens@))),
    {
        self.credentials.configure(tokens);
    }

    /// Replaces the credential pool with the single `token`.
    pub fn set_qwen_token(&mut self, token: String)
        ensures
            final(self)@ == old(self)@.with_credentials(RotatorView::configured(seq![token@])),
    {
        let mut tokens: Vec<String> = Vec::new();
        tokens.push(token);
        assert(views(tokens@) =~= seq![token@]);
        self.credentials.configure(tokens);
    }

    /// Draws the next credential of the rotation; `None` while none is configured.
    pub fn next_qwen_token(&mut self) -> (token: Option<String>)
        ensures
            final(self)@ == old(self)@.with_credentials(old(self)@.credentials.advance()),
            match token {
                Some(t) => old(self)@.credentials.issue() == Some(t@),
                None => old(self)@.credentials.issue() is None,
            },
    {
        self.credentials.next()
    }

    /// A copy of the cached model list; `None` until one was set.
    pub fn get_qwen_models(&self) -> (models: Option<Vec<ModelInfo>>)
        ensures
            optional_models(models) == self@.models,
    {
        match &self.models {
            Some(list) => Some(clone_models(list)),
            None => None,
        }
    }

    /// Caches `models` as the model list, in place of the list cached before.
    pub fn set_qwen_models(&mut self, models: Vec<ModelInfo>)
        ensures
            final(self)@ == (StateView { models: Some(views(models@)), ..old(self)@ }),
    {
        self.models = Some(models);
    }

    /// Caches `file` under its identifier, over whatever was cached under it, and
    /// returns the identifier.
    pub fn store_uploaded_file(&mut self, file: Artifact) -> (id: String)
        ensures
            id@ == file.id@,
            final(self)@ == (StateView {
                files: old(self)@.files.insert(file.id@, file@),
                ..old(self)@
            }),
    {
        self.files.store(file)
    }

    /// A copy of the artifact cached under `file_id`, if there is one.
    pub fn get_uploaded_file(&self, file_id: &str) -> (found: Option<Artifact>)
        ensures
            match found {
                Some(a) => self@.files.contains_key(file_id@) && a@ == self@.files[file_id@],
                None => !self@.files.contains_key(file_id@),
            },
    {
        self.files.get(file_id)
    }

    /// The cached artifacts that `file_ids` name, in that order; identifiers without an
    /// artifact are passed over.
    pub fn get_uploaded_files(&self, file_ids: &[String]) -> (found: Vec<Artifact>)
        ensures
            views(found@) == resolve(self@.files, views(file_ids@)),
    {
        self.files.get_many(file_ids)
    }

    /// Stores a new thread under `thread_id`, created at `created_at`, and returns the
    /// identifier with a snapshot of the thread. A thread that was stored under the
    /// same identifier is replaced.
    pub fn create_thread_as(
        &mut self,
        thread_id: String,
        created_at: u64,
        messages: Vec<ThreadMessage>,
        metadata: Option<serde_json::Value>,
        model: &str,
    ) -> (created: (String, ThreadState))
        ensures
            created.0@ == thread_id@,
            created.1@ == ThreadView::created(created_at, metadata, views(messages@), model@),
            final(self)@ == old(self)@.with_threads(
                old(self)@.threads.put(thread_id@, created.1@),
            ),
    {
        let state = ThreadState::new(created_at, metadata, messages, model);
        let snapshot = state.clone();
        let id = thread_id.clone();
        self.threads.put(thread_id, state);
        (id, snapshot)
    }

    /// Stores a new thread under a fresh identifier, created now.
    pub fn create_thread(
        &mut self,
        messages: Vec<ThreadMessage>,
        metadata: Option<serde_json::Value>,
        model: &str,
    ) -> (created: Result<(String, ThreadState), ApiError>)
        ensures
            match created {
                Ok((id, snapshot)) => {
                    &&& id@.len() == 36
                    &&& snapshot@ == ThreadView::created(
                        snapshot.created_at,
                        metadata,
                        views(messages@),
                        model@,
                    )
                    &&& final(self)@ == old(self)@.with_threads(
                        old(self)@.threads.put(id@, snapshot@),
                    )
                },
                Err(_) => false,
            },
    {
        let thread_id = fresh_id();
        let created_at = epoch_seconds();
        Ok(self.create_thread_as(thread_id, created_at, messages, metadata, model))
    }

    /// A snapshot of thread `thread_id`.
    pub fn get_thread(&self, thread_id: &str) -> (found: Result<ThreadState, ApiError>)
        ensures
            match found {
                Ok(thread) => self@.has_thread(thread_id@) && thread@ == self@.thread(thread_id@),
                Err(e) => !self@.has_thread(thread_id@) && e@ == not_found(thread_not_found()),
            },
    {
        match self.threads.get(thread_id) {
            Some(thread) => Ok(thread),
            None => Err(ApiError::not_found("Thread not found")),
        }
    }

    /// Snapshots of all threads with their identifiers, oldest first.
    pub fn list_threads(&self) -> (all: Vec<(String, ThreadState)>)
        ensures
            self@.threads.valid(),
            all.len() == self@.threads.order.len(),
            forall|i: int|
                0 <= i < all.len() ==> {
                    &&& (#[trigger] all[i]).0@ == self@.threads.order[i]
                    &&& all[i].1@ == self@.thread(self@.threads.order[i])
                },
    {
        self.threads.list()
    }

    /// How many threads there are.
    pub fn thread_count(&self) -> (n: usize)
        ensures
            n == self@.threads.order.len(),
            n == self@.threads.threads.len(),
    {
        self.threads.len()
    }

    /// Removes thread `thread_id` for good.
    pub fn delete_thread(&mut self, thread_id: &str) -> (done: Result<(), ApiError>)
        ensures
            final(self)@ == old(self)@.with_threads(old(self)@.threads.without(thread_id@)),
            match done {
                Ok(_) => old(self)@.has_thread(thread_id@),
                Err(e) => !old(self)@.has_thread(thread_id@) && e@ == not_found(
                    thread_not_found(),
                ),
            },
    {
        if self.threads.remove(thread_id) {
            Ok(())
        } else {
            Err(ApiError::not_found("Thread not found"))
        }
    }

    /// Appends a message stamped `created_at` to thread `thread_id`.
    pub fn add_message_to_thread_at(
        &mut self,
        thread_id: &str,
        role: Role,
        content: String,
        created_at: u64,
    ) -> (done: Result<(), ApiError>)
        ensures
            final(self)@ == old(self)@.with_threads(
                old(self)@.threads.append(thread_id@, stamped(role, content@, created_at)),
            ),
            match done {
                Ok(_) => old(self)@.has_thread(thread_id@),
                Err(e) => !old(self)@.has_thread(thread_id@) && e@ == not_found(
                    thread_not_found(),
                ),
            },
    {
        let message = ThreadMessage { role, content, created_at: Some(created_at) };
        if self.threads.append(thread_id, message) {
            Ok(())
        } else {
            Err(ApiError::not_found("Thread not found"))
        }
    }

    /// Appends a message stamped with the current time to thread `thread_id`.
    pub fn add_message_to_thread(&mut self, thread_id: &str, role: Role, content: String) -> (done:
        Result<(), ApiError>)
        ensures
            exists|created_at: u64|
                final(self)@ == old(self)@.with_threads(
                    old(self)@.threads.append(
                        thread_id@,
                        #[trigger] stamped(role, content@, created_at),
                    ),
                ),
            match done {
                Ok(_) => old(self)@.has_thread(thread_id@),
                Err(e) => !old(self)@.has_thread(thread_id@) && e@ == not_found(
                    thread_not_found(),
                ),
            },
    {
        let now = epoch_seconds();
        let done = self.add_message_to_thread_at(thread_id, role, content, now);
        assert(final(self)@ == old(self)@.with_threads(
            old(self)@.threads.append(thread_id@, stamped(role, content@, now)),
        ));
        done
    }

    /// Writes the outcome of a turn into thread `thread_id`: appends `reply` and, where
    /// the turn brought session pointers, sets both of them.
    ///
    /// The write takes place only if the thread still holds `expected_messages`
    /// messages, the number it held when the turn read it. A thread that was appended
    /// to in the meantime is left as it is and the turn is reported as a conflict, so
    /// that a long turn never overwrites what others appended while it ran.
    pub fn update_thread(
        &mut self,
        thread_id: &str,
        expected_messages: usize,
        reply: ThreadMessage,
        session: Option<SessionPointers>,
    ) -> (done: Result<(), ApiError>)
        ensures
            final(self)@ == old(self)@.with_threads(
                old(self)@.threads.commit(
                    thread_id@,
                    expected_messages as nat,
                    reply@,
                    optional_session(session),
                ),
            ),
            match done {
                Ok(_) => old(self)@.threads.accepts_turn(thread_id@, expected_messages as nat),
                Err(e) => if old(self)@.has_thread(thread_id@) {
                    &&& old(self)@.thread(thread_id@).messages.len() != expected_messages
                    &&& e@ == conflict(thread_changed())
                } else {
                    e@ == not_found(thread_not_found())
                },
            },
    {
        match self.threads.commit(thread_id, expected_messages, reply, session) {
            TurnWrite::Applied => Ok(()),
            TurnWrite::Missing => Err(ApiError::not_found("Thread not found")),
            TurnWrite::Stale => Err(
                ApiError::conflict("Thread changed while the response was being generated"),
            ),
        }
    }
}

} // verus!
