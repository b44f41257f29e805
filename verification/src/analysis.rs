//! Drafts and results of a project analysis.

use vstd::prelude::*;
use vstd::string::*;
use crate::iterator::TreeIter;
use crate::growth::{Growth, MAX_PROMPT_CHARS};
use crate::script::trimmed;
use crate::templates::{interpretation_prompt, interpretation_prompt_template};
use crate::tree::{events_from, DirItem, Event, TreeError};

verus! {

/// The instruction used when the caller gives none.
pub const DEFAULT_ANALYSIS_PROMPT: &'static str = "Please generate a comprehensive, detailed, and specific summary of the following code snippet. Your summary should include the following information:

1. Purpose of the code: what does the code do, what problem does it solve, and what is its intended effect in the context of the overall system or business logic? Provide an overview of the code's main function and any notable behavior.
2. Programming constructs used: what programming language is the code written in, and what specific constructs are used (e.g. functions, classes, loops, conditionals, etc.)? Describe the syntax, purpose, and behavior of the constructs used.
3. Algorithms or data structures employed: does the code use any specific algorithms or data structures (e.g. sorting algorithms, tree structures, etc.)? If so, explain what they are and how they are used in the code. Discuss the time and space complexity of any algorithms used.
4. Business logic inferred from the code: what can you infer about the business logic or system the code is a part of based on the code itself? Provide examples of the inputs, outputs, and processing of the code that support your inference.
5. Notable features or challenges: are there any interesting or challenging aspects of the code that you would like to highlight? This can include efficiency, scalability, maintainability, edge cases, etc.

In your summary, please explicitly state any assumptions or contextual information necessary to understand the code and its behavior within the larger system. Additionally, use appropriate references to any external dependencies, data sources, or other related code snippets as needed.
        ";

/// The instruction used when the caller gives none.
pub open spec fn default_analysis_prompt() -> Seq<char> {
    DEFAULT_ANALYSIS_PROMPT@
}

/// A request to analyse the project at `path_root`.
#[derive(Debug, Clone)]
pub struct ProjectAnalysisDraft {
    pub path_root: String,
    pub prompt: String,
}

/// The analysis of one source file: the prompt that was sent, and either the
/// answer or the reason there is none.
#[derive(Debug, Clone)]
pub struct ProjectSourceFileAnalysis {
    pub file_path: String,
    pub prompt: String,
    pub analysis: String,
    pub error: Option<String>,
}

/// The analyses of all files of a draft.
#[derive(Debug, Clone)]
pub struct ProjectAnalysisResult {
    pub parent: Box<ProjectAnalysisDraft>,
    pub source_files: Vec<ProjectSourceFileAnalysis>,
}

impl ProjectAnalysisDraft {
    pub fn new(path_root: String, prompt: String) -> (draft: Self)
        ensures
            draft.path_root == path_root,
            draft.prompt == prompt,
    {
        ProjectAnalysisDraft { path_root, prompt }
    }

    pub fn new_with_default_prompt(path_root: String) -> (draft: Self)
        ensures
            draft.path_root == path_root,
            draft.prompt@ == default_analysis_prompt(),
    {
        ProjectAnalysisDraft {
            path_root,
            prompt: String::from_str(DEFAULT_ANALYSIS_PROMPT),
        }
    }

    /// The traversal of the entries `items` that were read under the root.
    pub fn tree_iter<'a>(&self, items: &'a Vec<DirItem>) -> (iter: TreeIter<'a>)
        ensures
            iter.wf(),
            iter.root@ == self.path_root@,
            iter.depth() == 1,
            iter.pending() == events_from(items@, 0),
    {
        TreeIter::new(self.path_root.clone(), items)
    }
}

impl ProjectAnalysisDraft {
    /// The file that an item of the event stream asks a prompt for: the
    /// path of a `File` event, and nothing for directories and failures.
    pub fn prompt_target(item: &Result<Event, TreeError>) -> (target: Option<String>)
        ensures
            match *item {
                Ok(Event::File(entry)) => target is Some && target->Some_0@ == entry.path@,
                _ => target is None,
            },
    {
        match item {
            Ok(Event::File(entry)) => Some(entry.path.clone()),
            _ => None,
        }
    }

    /// The prompt for one file of the project: the draft's instruction
    /// applied to the capped content of the file.
    pub fn file_prompt(&self, file: &str, content: &str) -> (prompt: String)
        ensures
            prompt@ == interpretation_prompt(
                file@,
                content@.take(if MAX_PROMPT_CHARS < content@.len() { MAX_PROMPT_CHARS as int } else { content@.len() as int }),
                self.prompt@,
            ),
    {
        interpretation_prompt_template(file, Growth::capped(content, MAX_PROMPT_CHARS), self.prompt.clone())
    }
}

impl ProjectSourceFileAnalysis {
    /// The analysis of a file once the completion call has returned: the
    /// trimmed answer, or the message of the failure and no analysis.
    pub fn from_completion(file_path: String, prompt: String, completion: Result<String, String>) -> (analysis: Self)
        ensures
            analysis.file_path == file_path,
            analysis.prompt == prompt,
            match completion {
                Ok(answer) => analysis.analysis@ == trimmed(answer@) && analysis.error is None,
                Err(message) => analysis.analysis@.len() == 0 && analysis.error == Some(message),
            },
    {
        match completion {
            Ok(answer) => ProjectSourceFileAnalysis {
                file_path,
                prompt,
                analysis: Growth::trim(answer.as_str()),
                error: None,
            },
            Err(message) => ProjectSourceFileAnalysis { file_path, prompt, analysis: String::new(), error: Some(message) },
        }
    }
}

impl ProjectAnalysisResult {
    /// The result of a draft, before any file was analysed.
    pub fn new(parent: Box<ProjectAnalysisDraft>) -> (result: Self)
        ensures
            result.parent == parent,
            result.source_files@.len() == 0,
    {
        ProjectAnalysisResult { parent, source_files: Vec::new() }
    }
}

} // verus!
