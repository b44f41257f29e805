//! Mutations of a project and of single files, from the draft to the
//! script.

use vstd::prelude::*;
use vstd::string::*;
use crate::iterator::TreeIter;
use crate::moment::now;
use crate::script::{commented, commented_text, join_lines, joined_lines};
use crate::tree::{events_from, DirItem};

verus! {

#[derive(Debug, Clone)]
pub struct MutationError(pub String);

/// A requested change of the project structure.
#[derive(Debug, Clone)]
pub struct ProjectMutationDraft {
    pub path_root: String,
    pub prompt: String,
    pub context_lines: Option<Vec<String>>,
    /// Seconds since the Unix epoch at which the draft was made.
    pub created_at: i64,
}

/// A draft together with the structure as it is and as it should become.
#[derive(Debug, Clone)]
pub struct ProjectMutationProposed {
    pub parent: Box<ProjectMutationDraft>,
    pub current_structure: String,
    pub proposed_structure: String,
}

/// A proposal together with the commands that carry it out.
#[derive(Debug, Clone)]
pub struct ProjectMutation {
    pub parent: Box<ProjectMutationProposed>,
    pub predicted_commands: String,
    pub full_script: String,
}

/// A requested change of one file.
#[derive(Debug, Clone)]
pub struct SourceFileMutationDraft {
    pub file_path: String,
    pub prompt: String,
    /// Seconds since the Unix epoch at which the draft was made.
    pub created_at: i64,
}

/// A file draft together with the content as it is and as it should become.
#[derive(Debug, Clone)]
pub struct SourceFileMutation {
    pub parent: Box<SourceFileMutationDraft>,
    pub current_content: String,
    pub proposed_content: String,
}

impl ProjectMutationDraft {
    /// A draft made now.
    pub fn new(path_root: String, prompt: String, context_lines: Vec<String>) -> (draft: Self)
        ensures
            draft.path_root == path_root,
            draft.prompt == prompt,
            draft.context_lines == Some(context_lines),
    {
        ProjectMutationDraft { path_root, prompt, context_lines: Some(context_lines), created_at: now() }
    }

    /// The traversal of the entries `items` that were read under the root.
    pub fn tree_iter<'a>(&self, items: &'a Vec<DirItem>) -> (iter: TreeIter<'a>)
        ensures
            iter.wf(),
            iter.root@ == self.path_root@,
            iter.depth() == 1,
            iter.pending() == events_from(items@, 0),
    {
        TreeIter::new(self.path_root.clone(), items)
    }

    pub fn prompt(&self) -> (prompt: &str)
        ensures
            prompt@ == self.prompt@,
    {
        self.prompt.as_str()
    }

    /// The context lines as one text; empty if there are none.
    pub open spec fn context(self) -> Seq<char> {
        match self.context_lines {
            Some(lines) => joined_lines(lines@, lines@.len() as int),
            None => Seq::empty(),
        }
    }
}

/// The script header that asks for the commands of a project mutation.
/// `pwd_result` and `ls_result` are what `pwd` and `ls` print in the
/// directory the script will run in.
pub open spec fn mutation_prompt(
    context: Seq<char>,
    path_root: Seq<char>,
    current_structure: Seq<char>,
    prompt: Seq<char>,
    proposed_structure: Seq<char>,
    pwd_result: Seq<char>,
    ls_result: Seq<char>,
) -> Seq<char> {
    "#!/bin/bash\n\n# Project Context:\n# "@
        + commented_text(context)
        + "\n\n# Current structure:\n# "@
        + path_root
        + "\n# "@
        + commented_text(current_structure)
        + "\n\n# User prompt:\n# "@
        + commented_text(prompt)
        + "\n\n# Expected structure:\n# "@
        + commented_text(path_root)
        + "\n# "@
        + commented_text(proposed_structure)
        + "\n\n# Local Context:\n# `pwd` \n# "@
        + commented_text(pwd_result)
        + "\n\n# `ls`\n# "@
        + commented_text(ls_result)
        + "\n\n# Unix commands to perform transformation:\ncd "@
        + path_root
        + "\n"@
}

impl ProjectMutationProposed {
    pub fn new_from_parent(
        parent: Box<ProjectMutationDraft>,
        current_structure: String,
        proposed_structure: String,
    ) -> (proposed: Self)
        ensures
            proposed.parent == parent,
            proposed.current_structure == current_structure,
            proposed.proposed_structure == proposed_structure,
    {
        Self { parent, current_structure, proposed_structure }
    }

    /// The prompt that asks for the commands of this proposal.
    pub fn generate_prompt(&self, pwd_result: &str, ls_result: &str) -> (made: Result<String, MutationError>)
        ensures
            made is Ok,
            made->Ok_0@ == mutation_prompt(
                self.parent.context(),
                self.parent.path_root@,
                self.current_structure@,
                self.parent.prompt@,
                self.proposed_structure@,
                pwd_result@,
                ls_result@,
            ),
    {
        let context = match &self.parent.context_lines {
            Some(lines) => join_lines(lines),
            None => String::new(),
        };
        let mut text = String::from_str("#!/bin/bash\n\n# Project Context:\n# ");
        text.append(commented(context.as_str()).as_str());
        text.append("\n\n# Current structure:\n# ");
        text.append(self.parent.path_root.as_str());
        text.append("\n# ");
        text.append(commented(self.current_structure.as_str()).as_str());
        text.append("\n\n# User prompt:\n# ");
        text.append(commented(self.parent.prompt.as_str()).as_str());
        text.append("\n\n# Expected structure:\n# ");
        text.append(commented(self.parent.path_root.as_str()).as_str());
        text.append("\n# ");
        text.append(commented(self.proposed_structure.as_str()).as_str());
        text.append("\n\n# Local Context:\n# `pwd` \n# ");
        text.append(commented(pwd_result).as_str());
        text.append("\n\n# `ls`\n# ");
        text.append(commented(ls_result).as_str());
        text.append("\n\n# Unix commands to perform transformation:\ncd ");
        text.append(self.parent.path_root.as_str());
        text.append("\n");
        Ok(text)
    }
}

impl ProjectMutation {
    pub fn new_from_parent(
        parent: Box<ProjectMutationProposed>,
        predicted_commands: String,
        full_script: String,
    ) -> (mutation: Self)
        ensures
            mutation.parent == parent,
            mutation.predicted_commands == predicted_commands,
            mutation.full_script == full_script,
    {
        Self { parent, predicted_commands, full_script }
    }

    /// The mutation whose script is the prompt followed by the commands
    /// that were predicted for it.
    pub fn scripted(parent: Box<ProjectMutationProposed>, next_prompt: &str, predicted_commands: String) -> (mutation: Self)
        ensures
            mutation.parent == parent,
            mutation.predicted_commands == predicted_commands,
            mutation.full_script@ == next_prompt@ + predicted_commands@,
    {
        let mut full_script = String::from_str(next_prompt);
        full_script.append(predicted_commands.as_str());
        Self { parent, predicted_commands, full_script }
    }
}

impl SourceFileMutationDraft {
    /// A draft made now.
    pub fn new(file_path: String, prompt: String) -> (draft: Self)
        ensures
            draft.file_path == file_path,
            draft.prompt == prompt,
    {
        SourceFileMutationDraft { file_path, prompt, created_at: now() }
    }
}

impl SourceFileMutation {
    pub fn new_from_parent(
        parent: Box<SourceFileMutationDraft>,
        current_content: String,
        proposed_content: String,
    ) -> (mutation: Self)
        ensures
            mutation.parent == parent,
            mutation.current_content == current_content,
            mutation.proposed_content == proposed_content,
    {
        Self { parent, current_content, proposed_content }
    }
}

} // verus!
