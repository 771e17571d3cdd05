//! The plain data that conversations are made of.

use vstd::prelude::*;
use crate::ambient::clone_json;

verus! {

/// The views of a sequence of values.
pub open spec fn views<T: View>(items: Seq<T>) -> Seq<T::V> {
    items.map_values(|item: T| item@)
}

/// The view of an optional string.
pub open spec fn optional_text(text: Option<String>) -> Option<Seq<char>> {
    match text {
        Some(s) => Some(s@),
        None => None,
    }
}

/// Who wrote a message.
#[derive(Clone, Copy, Debug, PartialEq, Eq, Structural)]
pub enum Role {
    User,
    Assistant,
    System,
}

/// One entry of a conversation.
#[derive(Debug)]
pub struct ThreadMessage {
    pub role: Role,
    pub content: String,
    /// Seconds since the Unix epoch; absent on a message that was supplied without one.
    pub created_at: Option<u64>,
}

/// The mathematical content of a [`ThreadMessage`].
pub struct MessageView {
    pub role: Role,
    pub content: Seq<char>,
    pub created_at: Option<u64>,
}

impl View for ThreadMessage {
    type V = MessageView;

    open spec fn view(&self) -> MessageView {
        MessageView { role: self.role, content: self.content@, created_at: self.created_at }
    }
}

impl Clone for ThreadMessage {
    fn clone(&self) -> (copy: ThreadMessage)
        ensures
            copy@ == self@,
    {
        ThreadMessage {
            role: self.role,
            content: self.content.clone(),
            created_at: self.created_at,
        }
    }
}

/// A message stamped with the time of its insertion.
pub open spec fn stamped(role: Role, content: Seq<char>, created_at: u64) -> MessageView {
    MessageView { role, content, created_at: Some(created_at) }
}

/// The identifiers by which the upstream provider continues a conversation: the session
/// and the turn that the next one follows. They exist together or not at all.
#[derive(Debug)]
pub struct SessionPointers {
    pub chat_id: String,
    pub parent_id: String,
}

/// The mathematical content of [`SessionPointers`].
pub struct SessionView {
    pub chat_id: Seq<char>,
    pub parent_id: Seq<char>,
}

impl View for SessionPointers {
    type V = SessionView;

    open spec fn view(&self) -> SessionView {
        SessionView { chat_id: self.chat_id@, parent_id: self.parent_id@ }
    }
}

impl Clone for SessionPointers {
    fn clone(&self) -> (copy: SessionPointers)
        ensures
            copy@ == self@,
    {
        SessionPointers { chat_id: self.chat_id.clone(), parent_id: self.parent_id.clone() }
    }
}

/// The view of optional session pointers.
pub open spec fn optional_session(session: Option<SessionPointers>) -> Option<SessionView> {
    match session {
        Some(s) => Some(s@),
        None => None,
    }
}

/// An upstream model as the provider lists it.
#[derive(Debug)]
pub struct ModelInfo {
    pub id: String,
    pub object: String,
    pub name: String,
    pub owned_by: String,
    /// What else the provider says of the model; the library never looks inside.
    pub info: serde_json::Value,
}

/// The mathematical content of a [`ModelInfo`].
pub struct ModelView {
    pub id: Seq<char>,
    pub object: Seq<char>,
    pub name: Seq<char>,
    pub owned_by: Seq<char>,
    pub info: serde_json::Value,
}

impl View for ModelInfo {
    type V = ModelView;

    open spec fn view(&self) -> ModelView {
        ModelView {
            id: self.id@,
            object: self.object@,
            name: self.name@,
            owned_by: self.owned_by@,
            info: self.info,
        }
    }
}

impl Clone for ModelInfo {
    fn clone(&self) -> (copy: ModelInfo)
        ensures
            copy@ == self@,
    {
        ModelInfo {
            id: self.id.clone(),
            object: self.object.clone(),
            name: self.name.clone(),
            owned_by: self.owned_by.clone(),
            info: clone_json(&self.info),
        }
    }
}

/// The view of an optional list of models.
pub open spec fn optional_models(models: Option<Vec<ModelInfo>>) -> Option<Seq<ModelView>> {
    match models {
        Some(list) => Some(views(list@)),
        None => None,
    }
}

/// A copy of `models`, entry by entry.
pub fn clone_models(models: &Vec<ModelInfo>) -> (copy: Vec<ModelInfo>)
    ensures
        views(copy@) == views(models@),
{
    let mut copy: Vec<ModelInfo> = Vec::new();
    let mut i: usize = 0;
    while i < models.len()
        invariant
            i <= models.len(),
            copy.len() == i,
            forall|j: int| 0 <= j < i ==> (#[trigger] copy@[j])@ == models@[j]@,
        decreases models.len() - i,
    {
        copy.push(models[i].clone());
        i += 1;
    }
    assert(views(copy@) =~= views(models@));
    copy
}

/// A copy of `messages`, entry by entry.
pub fn clone_messages(messages: &Vec<ThreadMessage>) -> (copy: Vec<ThreadMessage>)
    ensures
        views(copy@) == views(messages@),
{
    let mut copy: Vec<ThreadMessage> = Vec::new();
    let mut i: usize = 0;
    while i < messages.len()
        invariant
            i <= messages.len(),
            copy.len() == i,
            forall|j: int| 0 <= j < i ==> (#[trigger] copy@[j])@ == messages@[j]@,
        decreases messages.len() - i,
    {
        copy.push(messages[i].clone());
        i += 1;
    }
    assert(views(copy@) =~= views(messages@));
    copy
}

} // verus!
