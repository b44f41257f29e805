//! The dialogue that a project keeps with the completion service.

use vstd::prelude::*;
use crate::moment::now;

verus! {

#[verifier::external_type_specification]
#[verifier::external_body]
pub struct ExValue(serde_json::Value);

/// What the service answered, as text and as the parsed document.
pub struct BlobInteractionResponse {
    pub response: String,
    pub value: serde_json::Value,
}

pub enum BlobInteractionKind {
    Complete,
    Edit,
    Insert,
}

/// One request to the service and, once it is there, the answer.
pub struct BlobInteraction {
    /// Seconds since the Unix epoch at which the request was made.
    pub timestamp: i64,
    pub prompt: String,
    pub kind: BlobInteractionKind,
    pub response: Option<Box<BlobInteractionResponse>>,
}

pub struct BlobProject {
    pub root_path: String,
    pub dialogue: Vec<Box<BlobInteraction>>,
}

impl BlobProject {
    /// A project without any dialogue yet.
    pub fn new(root_path: String) -> (project: Self)
        ensures
            project.root_path == root_path,
            project.dialogue@.len() == 0,
    {
        Self { root_path, dialogue: Vec::new() }
    }

    /// Adds a request of the given kind, made now and not yet answered, to
    /// the end of the dialogue.
    pub fn interact(&mut self, kind: BlobInteractionKind, prompt: String)
        ensures
            final(self).root_path == old(self).root_path,
            final(self).dialogue@.len() == old(self).dialogue@.len() + 1,
            final(self).dialogue@.drop_last() == old(self).dialogue@,
            final(self).dialogue@.last().prompt == prompt,
            final(self).dialogue@.last().kind == kind,
            final(self).dialogue@.last().response is None,
    {
        let timestamp = now();
        self.dialogue.push(Box::new(BlobInteraction { timestamp, prompt, kind, response: None }));
        assert(self.dialogue@.drop_last() =~= old(self).dialogue@);
    }
}

} // verus!
