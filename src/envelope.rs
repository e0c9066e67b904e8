use vstd::prelude::*;

verus! {

/// serde_json's `Value`, opaque here: a document carried through unread.
#[verifier::external_type_specification]
#[verifier::external_body]
pub struct ExJsonValue(serde_json::Value);

/// Relies on serde_json's derived `Clone` for `Value`: a copy of the document.
pub assume_specification[ <serde_json::Value as Clone>::clone ](v: &serde_json::Value) -> serde_json::Value;

/// One change event: the unit that a topic carries to its subscribers.
///
/// The `payload` documents are opaque here: the fan-out layer carries them
/// through and never inspects them.
#[derive(Clone, Debug)]
pub enum WebSocketMessage {
    ElementUpdate {
        id: String,
        project_id: String,
        payload: serde_json::Value,
        timestamp: String,
        user_id: String,
    },
    ElementDelete { id: String, project_id: String, timestamp: String, user_id: String },
    RelationshipUpdate {
        id: String,
        project_id: String,
        payload: serde_json::Value,
        timestamp: String,
        user_id: String,
    },
    RelationshipDelete { id: String, project_id: String, timestamp: String, user_id: String },
    ViewUpdate {
        project_id: String,
        view_type: String,
        payload: serde_json::Value,
        timestamp: String,
        user_id: String,
    },
}

impl WebSocketMessage {
    /// The project that the event belongs to.
    pub open spec fn spec_project_id(&self) -> Seq<char> {
        match self {
            WebSocketMessage::ElementUpdate { project_id, .. } => project_id@,
            WebSocketMessage::ElementDelete { project_id, .. } => project_id@,
            WebSocketMessage::RelationshipUpdate { project_id, .. } => project_id@,
            WebSocketMessage::RelationshipDelete { project_id, .. } => project_id@,
            WebSocketMessage::ViewUpdate { project_id, .. } => project_id@,
        }
    }

    pub fn project_id(&self) -> (r: &str)
        ensures
            r@ == self.spec_project_id(),
    {
        match self {
            WebSocketMessage::ElementUpdate { project_id, .. } => project_id.as_str(),
            WebSocketMessage::ElementDelete { project_id, .. } => project_id.as_str(),
            WebSocketMessage::RelationshipUpdate { project_id, .. } => project_id.as_str(),
            WebSocketMessage::RelationshipDelete { project_id, .. } => project_id.as_str(),
            WebSocketMessage::ViewUpdate { project_id, .. } => project_id.as_str(),
        }
    }
}

} // verus!
