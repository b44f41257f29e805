//! The text sent to the completion service for one file.

use vstd::prelude::*;
use vstd::string::*;

verus! {

/// The prompt for one file: the path as a heading, the source in a fenced
/// block, and the instruction followed by a colon.
pub open spec fn interpretation_prompt(file: Seq<char>, file_source: Seq<char>, prompt: Seq<char>) -> Seq<char> {
    "\n    # "@ + file + "\n    ```\n    "@ + file_source + "\n    ```\n\n    "@ + prompt + ":\n\n    "@
}

pub fn interpretation_prompt_template(file: &str, file_source: String, prompt: String) -> (text: String)
    ensures
        text@ == interpretation_prompt(file@, file_source@, prompt@),
{
    let mut text = String::from_str("\n    # ");
    text.append(file);
    text.append("\n    ```\n    ");
    text.append(file_source.as_str());
    text.append("\n    ```\n\n    ");
    text.append(prompt.as_str());
    text.append(":\n\n    ");
    text
}

} // verus!
