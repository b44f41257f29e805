//! The commands of the tool, as plain values.

use vstd::prelude::*;
use vstd::string::*;

verus! {

/// The arguments of one run.
#[derive(Debug)]
pub struct BlobTool {
    pub root: Option<String>,
    pub command: Commands,
}

#[derive(Debug)]
pub enum Commands {
    Do { instruction: Option<String>, file: Option<String>, yes: Option<bool> },
    Define { definition: Option<String> },
    Analyze { file: Option<String> },
}

impl BlobTool {
    /// The root to work on: the one given, or the current directory.
    pub fn root_or_default(&self) -> (root: String)
        ensures
            root@ == match self.root {
                Some(given) => given@,
                None => "."@,
            },
    {
        match &self.root {
            Some(given) => given.clone(),
            None => String::from_str("."),
        }
    }
}

} // verus!
