//! A conversation thread: its messages, its model and its upstream session.

use vstd::prelude::*;
use crate::ambient::{clone_json, epoch_seconds};
use crate::types::{
    clone_messages, optional_session, stamped, views, MessageView, Role, SessionPointers,
    SessionView, ThreadMessage,
};

verus! {

/// One conversation: when it began, what it is about, what was said, and where the
/// upstream provider stands in it.
#[derive(Debug)]
pub struct ThreadState {
    /// Seconds since the Unix epoch at creation.
    pub created_at: u64,
    /// Free-form data of the caller; the library never looks inside.
    pub metadata: Option<serde_json::Value>,
    /// The messages in the order they were appended.
    pub messages: Vec<ThreadMessage>,
    /// The upstream model the conversation is held with.
    pub model: String,
    /// Set by the first successful turn and replaced by each later one that names a
    /// session.
    pub session: Option<SessionPointers>,
}

/// The mathematical content of a [`ThreadState`].
pub struct ThreadView {
    pub created_at: u64,
    pub metadata: Option<serde_json::Value>,
    pub messages: Seq<MessageView>,
    pub model: Seq<char>,
    pub session: Option<SessionView>,
}

impl ThreadView {
    /// A thread as it stands right after creation.
    pub open spec fn created(
        created_at: u64,
        metadata: Option<serde_json::Value>,
        messages: Seq<MessageView>,
        model: Seq<char>,
    ) -> ThreadView {
        ThreadView { created_at, metadata, messages, model, session: None }
    }

    /// This thread with `message` appended.
    pub open spec fn with_message(self, message: MessageView) -> ThreadView {
        ThreadView { messages: self.messages.push(message), ..self }
    }

    /// This thread after a turn: `reply` is appended, and the session pointers are
    /// replaced if the turn brought new ones.
    pub open spec fn with_turn(
        self,
        reply: MessageView,
        session: Option<SessionView>,
    ) -> ThreadView {
        ThreadView {
            messages: self.messages.push(reply),
            session: if session is Some {
                session
            } else {
                self.session
            },
            ..self
        }
    }
}

/// The most recent message of a user: the first that a scan from the newest entry
/// backward meets.
pub open spec fn last_user(messages: Seq<MessageView>) -> Option<MessageView>
    decreases messages.len(),
{
    if messages.len() == 0 {
        None
    } else if messages.last().role == Role::User {
        Some(messages.last())
    } else {
        last_user(messages.drop_last())
    }
}

/// The scan finds the newest user message: if the message at `at` is a user's and no
/// later one is, it is the one found; and if no message is a user's, none is found.
pub proof fn lemma_last_user_is_newest(messages: Seq<MessageView>, at: int)
    ensures
        0 <= at < messages.len() && messages[at].role == Role::User && (forall|j: int|
            at < j < messages.len() ==> messages[j].role != Role::User) ==> last_user(messages)
            == Some(messages[at]),
        (forall|j: int| 0 <= j < messages.len() ==> messages[j].role != Role::User)
            ==> last_user(messages) is None,
    decreases messages.len(),
{
    if messages.len() > 0 {
        lemma_last_user_is_newest(messages.drop_last(), at);
    }
}

impl View for ThreadState {
    type V = ThreadView;

    open spec fn view(&self) -> ThreadView {
        ThreadView {
            created_at: self.created_at,
            metadata: self.metadata,
            messages: views(self.messages@),
            model: self.model@,
            session: optional_session(self.session),
        }
    }
}

impl Clone for ThreadState {
    fn clone(&self) -> (copy: ThreadState)
        ensures
            copy@ == self@,
    {
        ThreadState {
            created_at: self.created_at,
            metadata: match &self.metadata {
                Some(value) => Some(clone_json(value)),
                None => None,
            },
            messages: clone_messages(&self.messages),
            model: self.model.clone(),
            session: match &self.session {
                Some(pointers) => Some(pointers.clone()),
                None => None,
            },
        }
    }
}

impl ThreadState {
    /// A thread without session pointers.
    pub fn new(
        created_at: u64,
        metadata: Option<serde_json::Value>,
        messages: Vec<ThreadMessage>,
        model: &str,
    ) -> (thread: ThreadState)
        ensures
            thread@ == ThreadView::created(created_at, metadata, views(messages@), model@),
    {
        ThreadState { created_at, metadata, messages, model: model.to_owned(), session: None }
    }

    /// The messages, oldest first.
    pub fn get_messages(&self) -> (messages: &[ThreadMessage])
        ensures
            messages@ == self.messages@,
    {
        self.messages.as_slice()
    }

    /// Appends a message stamped `created_at`.
    pub fn add_message_at(&mut self, role: Role, content: String, created_at: u64)
        ensures
            final(self)@ == old(self)@.with_message(stamped(role, content@, created_at)),
    {
        self.messages.push(ThreadMessage { role, content, created_at: Some(created_at) });
        assert(views(self.messages@) =~= views(old(self).messages@).push(
            stamped(role, content@, created_at),
        ));
    }

    /// Appends a message stamped with the current time.
    pub fn add_message(&mut self, role: Role, content: String)
        ensures
            exists|created_at: u64|
                final(self)@ == old(self)@.with_message(
                    #[trigger] stamped(role, content@, created_at),
                ),
    {
        let now = epoch_seconds();
        self.add_message_at(role, content, now);
        assert(self@ == old(self)@.with_message(stamped(role, content@, now)));
    }

    /// The most recent message of a user, if the thread holds one.
    pub fn last_user_message(&self) -> (found: Option<&ThreadMessage>)
        ensures
            match found {
                Some(m) => last_user(self@.messages) == Some(m@),
                None => last_user(self@.messages) is None,
            },
    {
        let ghost all = views(self.messages@);
        let mut i: usize = self.messages.len();
        assert(all.take(i as int) =~= all);
        while i > 0
            invariant
                i <= self.messages.len(),
                all == views(self.messages@),
                last_user(all) == last_user(all.take(i as int)),
            decreases i,
        {
            i -= 1;
            assert(all.take(i + 1).drop_last() =~= all.take(i as int));
            assert(all.take(i + 1).last() == self.messages@[i as int]@);
            if self.messages[i].role == Role::User {
                return Some(&self.messages[i]);
            }
        }
        None
    }
}

} // verus!
