//! Processing the digested tree: the prompt for each file and directory,
//! their fingerprints, and the folding of file results into directory
//! results.

use vstd::prelude::*;
use vstd::string::*;
use crate::script::{trim_text, trimmed};
use crate::templates::{interpretation_prompt, interpretation_prompt_template};

verus! {

#[derive(Debug, Clone, Default)]
pub struct Growth {}

/// The outcome of processing one file.
#[derive(Debug, Clone, Default)]
pub struct ProcessFileResult {
    pub llm_response: String,
    pub file_path: String,
    pub hash: String,
}

/// The outcome of processing one directory: the results of its files and
/// the summary made from them.
#[derive(Debug, Clone, Default)]
pub struct ProcessDirResult {
    pub llm_response: String,
    pub dir_path: String,
    pub processed_files: Vec<ProcessFileResult>,
    pub hash: String,
}

/// Why a unit of work gave no result.
#[derive(Debug)]
pub struct ProcessError {
    pub message: String,
}

/// A file result as contracts see it.
pub struct FileResultModel {
    pub llm_response: Seq<char>,
    pub file_path: Seq<char>,
    pub hash: Seq<char>,
}

impl View for ProcessFileResult {
    type V = FileResultModel;

    open spec fn view(&self) -> FileResultModel {
        FileResultModel { llm_response: self.llm_response@, file_path: self.file_path@, hash: self.hash@ }
    }
}

/// Most characters of a file that go into a prompt. What lies beyond is
/// left out without notice.
pub const MAX_PROMPT_CHARS: usize = 10000;

/// What is asked about a source file.
pub const DEFAULT_PROMPT_SOURCE_CODE: &'static str = "Please generate a comprehensive, detailed, and specific summary of the following code snippet.";

/// What is asked about a directory.
pub const DEFAULT_PROMPT_FOLDER: &'static str = "Please generate a comprehensive, detailed, and specific summary for all directory.";

/// What every summary is asked to cover.
pub const DEFAULT_PROMPT_GENERAL_INSTRUCTION: &'static str = "Your summary should include the following information:
1. Purpose of the code: what does the code do, what problem does it solve, and what is its intended effect in the context of the overall system or business logic? Provide an overview of the code's main function and any notable behavior.
2. Programming constructs used: what programming language is the code written in, and what specific constructs are used (e.g. functions, classes, loops, conditionals, etc.)? Describe the syntax, purpose, and behavior of the constructs used.
3. Algorithms or data structures employed: does the code use any specific algorithms or data structures (e.g. sorting algorithms, tree structures, etc.)? If so, explain what they are and how they are used in the code. Discuss the time and space complexity of any algorithms used.
4. Business logic inferred from the code: what can you infer about the business logic or system the code is a part of based on the code itself? Provide examples of the inputs, outputs, and processing of the code that support your inference.
5. Notable features or challenges: are there any interesting or challenging aspects of the code that you would like to highlight? This can include efficiency, scalability, maintainability, edge cases, etc.

In your summary, please explicitly state any assumptions or contextual information necessary to understand the code and its behavior within the larger system. Additionally, use appropriate references to any external dependencies, data sources, or other related code snippets as needed.
";

/// The instruction for a source file.
pub open spec fn source_code_instruction() -> Seq<char> {
    DEFAULT_PROMPT_SOURCE_CODE@ + DEFAULT_PROMPT_GENERAL_INSTRUCTION@
}

/// The instruction for a directory.
pub open spec fn folder_instruction() -> Seq<char> {
    DEFAULT_PROMPT_FOLDER@ + DEFAULT_PROMPT_GENERAL_INSTRUCTION@
}

/// The lower-case hexadecimal SHA-256 digest of a byte string.
pub uninterp spec fn sha256_hex(bytes: Seq<u8>) -> Seq<char>;

/// `sha2::Sha256::digest` on the bytes, written in lower-case hexadecimal.
/// The digest is a function of the bytes alone.
#[verifier::external_body]
fn sha256_hex_of(bytes: &Vec<u8>) -> (hash: String)
    ensures
        hash@ == sha256_hex(bytes@),
{
    format!("{:x}", <sha2::Sha256 as sha2::Digest>::digest(bytes.as_slice()))
}

/// The first `n` of `files`, one after the other.
pub open spec fn concat_bytes(files: Seq<Vec<u8>>, n: int) -> Seq<u8>
    decreases n,
{
    if n <= 0 {
        Seq::empty()
    } else {
        concat_bytes(files, n - 1) + files[n - 1]@
    }
}

/// The section of one file in the prompt of its directory.
pub open spec fn section(result: FileResultModel) -> Seq<char> {
    "#"@ + result.file_path + "\n"@ + result.llm_response + "\n"@
}

/// The sections of the first `n` results, with an empty line between them.
pub open spec fn files_block(results: Seq<ProcessFileResult>, n: int) -> Seq<char>
    decreases n,
{
    if n <= 0 {
        Seq::empty()
    } else if n == 1 {
        section(results[0]@)
    } else {
        files_block(results, n - 1) + "\n"@ + section(results[n - 1]@)
    }
}

/// The prompt that asks for the summary of a directory.
pub open spec fn directory_prompt(dir_path: Seq<char>, results: Seq<ProcessFileResult>) -> Seq<char> {
    files_block(results, results.len() as int)
        + "\n\nEach section above represents a file in the directory "@ + dir_path + ". "@
        + folder_instruction()
}

/// The results among the first `n` outcomes, in the order of the outcomes.
pub open spec fn successes_of(outcomes: Seq<Result<ProcessFileResult, ProcessError>>, n: int) -> Seq<FileResultModel>
    decreases n,
{
    if n <= 0 {
        Seq::empty()
    } else {
        match outcomes[n - 1] {
            Ok(result) => successes_of(outcomes, n - 1).push(result@),
            Err(_) => successes_of(outcomes, n - 1),
        }
    }
}

/// The views of `results`, in order.
pub open spec fn result_models(results: Seq<ProcessFileResult>) -> Seq<FileResultModel> {
    Seq::new(results.len(), |i: int| results[i]@)
}

impl Growth {
    /// The answer of the completion service without the white space around
    /// it.
    pub fn trim(answer: &str) -> (kept: String)
        ensures
            kept@ == trimmed(answer@),
    {
        trim_text(answer)
    }

    /// The part of `content` that goes into a prompt: all of it up to
    /// `max_chars` characters, and nothing of what follows.
    pub fn capped(content: &str, max_chars: usize) -> (kept: String)
        ensures
            kept@ == content@.take(if max_chars < content@.len() { max_chars as int } else { content@.len() as int }),
    {
        let len: usize = content.unicode_len();
        let upper: usize = if max_chars > len { len } else { max_chars };
        String::from_str(content.substring_char(0, upper))
    }

    /// The prompt for the file `child` with the given content.
    pub fn file_prompt(child: &str, content: &str) -> (prompt: String)
        ensures
            prompt@ == interpretation_prompt(
                child@,
                content@.take(if MAX_PROMPT_CHARS < content@.len() { MAX_PROMPT_CHARS as int } else { content@.len() as int }),
                source_code_instruction(),
            ),
    {
        let mut instruction = String::from_str(DEFAULT_PROMPT_SOURCE_CODE);
        instruction.append(DEFAULT_PROMPT_GENERAL_INSTRUCTION);
        interpretation_prompt_template(child, Self::capped(content, MAX_PROMPT_CHARS), instruction)
    }

    /// The fingerprint of a file: the SHA-256 digest of its bytes. Equal
    /// bytes give equal fingerprints.
    pub fn calculate_file_hash(bytes: &Vec<u8>) -> (hash: String)
        ensures
            hash@ == sha256_hex(bytes@),
    {
        sha256_hex_of(bytes)
    }

    /// The bytes of all `files`, one after the other.
    pub fn joined(files: &Vec<Vec<u8>>) -> (all: Vec<u8>)
        ensures
            all@ == concat_bytes(files@, files@.len() as int),
    {
        let mut all: Vec<u8> = Vec::new();
        let mut i: usize = 0;
        while i < files.len()
            invariant
                i <= files@.len(),
                all@ == concat_bytes(files@, i as int),
            decreases files@.len() - i,
        {
            all.extend_from_slice(files[i].as_slice());
            i += 1;
        }
        all
    }

    /// The fingerprint of a directory: the SHA-256 digest of the bytes of
    /// the files it holds directly, in the order the directory was read.
    /// Sub-directories do not count.
    pub fn calculate_dir_hash(files: &Vec<Vec<u8>>) -> (hash: String)
        ensures
            hash@ == sha256_hex(concat_bytes(files@, files@.len() as int)),
    {
        let all = Self::joined(files);
        sha256_hex_of(&all)
    }

    /// The result for a file once the completion call has returned. A
    /// failed call gives an error with the same message; an answer gives
    /// the result with the trimmed answer and the file's fingerprint.
    pub fn process_file(child: &str, bytes: &Vec<u8>, completion: Result<String, String>) -> (outcome: Result<ProcessFileResult, ProcessError>)
        ensures
            match completion {
                Ok(answer) => outcome is Ok && outcome->Ok_0@ == (FileResultModel {
                    llm_response: trimmed(answer@),
                    file_path: child@,
                    hash: sha256_hex(bytes@),
                }),
                Err(message) => outcome is Err && outcome->Err_0.message@ == message@,
            },
    {
        match completion {
            Ok(answer) => {
                let hash = Self::calculate_file_hash(bytes);
                Ok(ProcessFileResult {
                    llm_response: trim_text(answer.as_str()),
                    file_path: String::from_str(child),
                    hash,
                })
            },
            Err(message) => Err(ProcessError { message }),
        }
    }

    /// The results of the file tasks that succeeded, in the order of the
    /// tasks. A failed task is left out and does not affect the others.
    pub fn successes(outcomes: &Vec<Result<ProcessFileResult, ProcessError>>) -> (kept: Vec<ProcessFileResult>)
        ensures
            result_models(kept@) == successes_of(outcomes@, outcomes@.len() as int),
    {
        let mut kept: Vec<ProcessFileResult> = Vec::new();
        let mut i: usize = 0;
        assert(result_models(kept@) =~= successes_of(outcomes@, 0));
        while i < outcomes.len()
            invariant
                i <= outcomes@.len(),
                result_models(kept@) == successes_of(outcomes@, i as int),
            decreases outcomes@.len() - i,
        {
            let ghost had = kept@;
            match &outcomes[i] {
                Ok(result) => {
                    kept.push(ProcessFileResult {
                        llm_response: result.llm_response.clone(),
                        file_path: result.file_path.clone(),
                        hash: result.hash.clone(),
                    });
                    assert(result_models(kept@) =~= result_models(had).push(result@));
                },
                Err(_) => {},
            }
            i += 1;
        }
        kept
    }

    /// The prompt that asks for the summary of the directory `dir_path`
    /// from the results of its files.
    pub fn dir_prompt(dir_path: &str, results: &Vec<ProcessFileResult>) -> (prompt: String)
        ensures
            prompt@ == directory_prompt(dir_path@, results@),
    {
        let mut prompt = String::new();
        let mut i: usize = 0;
        while i < results.len()
            invariant
                i <= results@.len(),
                prompt@ == files_block(results@, i as int),
            decreases results@.len() - i,
        {
            if i > 0 {
                prompt.append("\n");
            }
            let ghost before = prompt@;
            prompt.append("#");
            prompt.append(results[i].file_path.as_str());
            prompt.append("\n");
            prompt.append(results[i].llm_response.as_str());
            prompt.append("\n");
            assert(prompt@ =~= before + section(results@[i as int]@));
            assert(i == 0 ==> before =~= Seq::<char>::empty());
            i += 1;
        }
        prompt.append("\n\nEach section above represents a file in the directory ");
        prompt.append(dir_path);
        prompt.append(". ");
        let ghost head = prompt@;
        prompt.append(DEFAULT_PROMPT_FOLDER);
        prompt.append(DEFAULT_PROMPT_GENERAL_INSTRUCTION);
        assert(prompt@ =~= head + folder_instruction());
        prompt
    }

    /// The result for a directory once the completion call for its summary
    /// has returned: the file results as they were handed in, the trimmed
    /// summary, and the fingerprint of the directory. A failed call gives
    /// an error with the same message.
    pub fn process_dir_results(
        dir_path: String,
        accumulated_results: Vec<ProcessFileResult>,
        file_bytes: &Vec<Vec<u8>>,
        completion: Result<String, String>,
    ) -> (outcome: Result<ProcessDirResult, ProcessError>)
        ensures
            match completion {
                Ok(answer) => {
                    &&& outcome is Ok
                    &&& outcome->Ok_0.dir_path == dir_path
                    &&& outcome->Ok_0.processed_files == accumulated_results
                    &&& outcome->Ok_0.llm_response@ == trimmed(answer@)
                    &&& outcome->Ok_0.hash@ == sha256_hex(concat_bytes(file_bytes@, file_bytes@.len() as int))
                },
                Err(message) => outcome is Err && outcome->Err_0.message@ == message@,
            },
    {
        match completion {
            Ok(answer) => {
                let hash = Self::calculate_dir_hash(file_bytes);
                Ok(ProcessDirResult {
                    dir_path,
                    processed_files: accumulated_results,
                    llm_response: trim_text(answer.as_str()),
                    hash,
                })
            },
            Err(message) => Err(ProcessError { message }),
        }
    }
}

/// Hashing the same content twice gives the same fingerprint.
pub proof fn lemma_content_hash_is_deterministic(first: Seq<u8>, second: Seq<u8>)
    requires
        first == second,
    ensures
        sha256_hex(first) == sha256_hex(second),
{
}

} // verus!
