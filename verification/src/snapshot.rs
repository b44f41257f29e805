//! A proposed change of the project structure.

use vstd::prelude::*;
use vstd::string::*;
use crate::script::{commented, commented_text};

verus! {

pub enum SnapshotState {
    Created,
    Proposed,
}

#[derive(Debug)]
pub struct SnapshotError(pub String);

pub struct Snapshot {
    pub path_root: String,
    pub prompt: String,
    pub current_structure: String,
    pub proposed_structure: String,
    pub state: SnapshotState,
}

impl Snapshot {
    /// A snapshot in the state `Proposed`.
    pub fn new(
        path_root: String,
        current_structure: String,
        proposed_structure: String,
        prompt: String,
    ) -> (snapshot: Self)
        ensures
            snapshot.path_root == path_root,
            snapshot.current_structure == current_structure,
            snapshot.proposed_structure == proposed_structure,
            snapshot.prompt == prompt,
            snapshot.state is Proposed,
    {
        Self { path_root, current_structure, proposed_structure, prompt, state: SnapshotState::Proposed }
    }
}

/// The script header that asks for the commands which turn the current
/// structure into the proposed one. `pwd_result` and `ls_result` are what
/// `pwd` and `ls` print in the directory the script will run in.
pub open spec fn snapshot_prompt(
    path_root: Seq<char>,
    current_structure: Seq<char>,
    prompt: Seq<char>,
    proposed_structure: Seq<char>,
    pwd_result: Seq<char>,
    ls_result: Seq<char>,
) -> Seq<char> {
    "\n#!/bin/bash\n# Context\n\n# current structure:\n# "@
        + path_root
        + "\n# "@
        + commented_text(current_structure)
        + "\n\n# prompt:\n# "@
        + commented_text(prompt)
        + "\n\n# proposed structure:\n# "@
        + commented_text(path_root)
        + "\n# "@
        + commented_text(proposed_structure)
        + "\n\n# `pwd` \n# "@
        + commented_text(pwd_result)
        + "\n\n# `ls`\n# "@
        + commented_text(ls_result)
        + "\n\n# unix commands to perform this transformation:\ncd "@
        + path_root
        + "\n"@
}

impl Snapshot {
    /// The prompt of a proposed snapshot. A snapshot that was only created
    /// has no proposal yet and gives an error.
    pub fn generate_prompt(&self, pwd_result: &str, ls_result: &str) -> (made: Result<String, SnapshotError>)
        ensures
            match self.state {
                SnapshotState::Created => made is Err
                    && made->Err_0.0@ == "Cannot generate prompt from a early created snapshot"@,
                SnapshotState::Proposed => made is Ok && made->Ok_0@ == snapshot_prompt(
                    self.path_root@,
                    self.current_structure@,
                    self.prompt@,
                    self.proposed_structure@,
                    pwd_result@,
                    ls_result@,
                ),
            },
    {
        match self.state {
            SnapshotState::Created => Err(
                SnapshotError(String::from_str("Cannot generate prompt from a early created snapshot")),
            ),
            SnapshotState::Proposed => {
                let mut text = String::from_str("\n#!/bin/bash\n# Context\n\n# current structure:\n# ");
                text.append(self.path_root.as_str());
                text.append("\n# ");
                text.append(commented(self.current_structure.as_str()).as_str());
                text.append("\n\n# prompt:\n# ");
                text.append(commented(self.prompt.as_str()).as_str());
                text.append("\n\n# proposed structure:\n# ");
                text.append(commented(self.path_root.as_str()).as_str());
                text.append("\n# ");
                text.append(commented(self.proposed_structure.as_str()).as_str());
                text.append("\n\n# `pwd` \n# ");
                text.append(commented(pwd_result).as_str());
                text.append("\n\n# `ls`\n# ");
                text.append(commented(ls_result).as_str());
                text.append("\n\n# unix commands to perform this transformation:\ncd ");
                text.append(self.path_root.as_str());
                text.append("\n");
                Ok(text)
            },
        }
    }
}

} // verus!
