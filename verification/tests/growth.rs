use blob::analysis::{ProjectAnalysisDraft, ProjectAnalysisResult, ProjectSourceFileAnalysis};
use blob::cli::{BlobTool, Commands};
use blob::context::{BlobContextProcessor, BlobDefinitionKind, BlobMutationKind};
use blob::growth::{Growth, ProcessError, ProcessFileResult, MAX_PROMPT_CHARS};
use blob::snapshot::{Snapshot, SnapshotError, SnapshotState};
use blob::templates::interpretation_prompt_template;
use blob::tree::{Entry, Event, TreeError};

const SOURCE_CODE: &str = "Please generate a comprehensive, detailed, and specific summary of the following code snippet.";
const FOLDER: &str = "Please generate a comprehensive, detailed, and specific summary for all directory.";
const GENERAL: &str = "Your summary should include the following information:
1. Purpose of the code: what does the code do, what problem does it solve, and what is its intended effect in the context of the overall system or business logic? Provide an overview of the code's main function and any notable behavior.
2. Programming constructs used: what programming language is the code written in, and what specific constructs are used (e.g. functions, classes, loops, conditionals, etc.)? Describe the syntax, purpose, and behavior of the constructs used.
3. Algorithms or data structures employed: does the code use any specific algorithms or data structures (e.g. sorting algorithms, tree structures, etc.)? If so, explain what they are and how they are used in the code. Discuss the time and space complexity of any algorithms used.
4. Business logic inferred from the code: what can you infer about the business logic or system the code is a part of based on the code itself? Provide examples of the inputs, outputs, and processing of the code that support your inference.
5. Notable features or challenges: are there any interesting or challenging aspects of the code that you would like to highlight? This can include efficiency, scalability, maintainability, edge cases, etc.

In your summary, please explicitly state any assumptions or contextual information necessary to understand the code and its behavior within the larger system. Additionally, use appropriate references to any external dependencies, data sources, or other related code snippets as needed.
";
const ANALYSIS: &str = "Please generate a comprehensive, detailed, and specific summary of the following code snippet. Your summary should include the following information:

1. Purpose of the code: what does the code do, what problem does it solve, and what is its intended effect in the context of the overall system or business logic? Provide an overview of the code's main function and any notable behavior.
2. Programming constructs used: what programming language is the code written in, and what specific constructs are used (e.g. functions, classes, loops, conditionals, etc.)? Describe the syntax, purpose, and behavior of the constructs used.
3. Algorithms or data structures employed: does the code use any specific algorithms or data structures (e.g. sorting algorithms, tree structures, etc.)? If so, explain what they are and how they are used in the code. Discuss the time and space complexity of any algorithms used.
4. Business logic inferred from the code: what can you infer about the business logic or system the code is a part of based on the code itself? Provide examples of the inputs, outputs, and processing of the code that support your inference.
5. Notable features or challenges: are there any interesting or challenging aspects of the code that you would like to highlight? This can include efficiency, scalability, maintainability, edge cases, etc.

In your summary, please explicitly state any assumptions or contextual information necessary to understand the code and its behavior within the larger system. Additionally, use appropriate references to any external dependencies, data sources, or other related code snippets as needed.
        ";

fn result(path: &str, response: &str, hash: &str) -> ProcessFileResult {
    ProcessFileResult { llm_response: response.to_string(), file_path: path.to_string(), hash: hash.to_string() }
}

#[test]
fn template_layout() {
    let text = interpretation_prompt_template("src/a.rs", "fn a() {}".to_string(), "Explain".to_string());
    assert_eq!(text, "\n    # src/a.rs\n    ```\n    fn a() {}\n    ```\n\n    Explain:\n\n    ");
}

#[test]
fn content_is_capped_silently() {
    assert_eq!(MAX_PROMPT_CHARS, 10000);
    assert_eq!(Growth::capped("hello", 3), "hel");
    assert_eq!(Growth::capped("hello", 5), "hello");
    assert_eq!(Growth::capped("hello", 50), "hello");
    assert_eq!(Growth::capped("hello", 0), "");
    assert_eq!(Growth::capped("äöü", 2), "äö");
}

#[test]
fn file_prompt_holds_at_most_the_cap() {
    let long: String = "x".repeat(10_050);
    let prompt = Growth::file_prompt("a.rs", long.as_str());
    let expected = format!(
        "\n    # {}\n    ```\n    {}\n    ```\n\n    {}:\n\n    ",
        "a.rs",
        "x".repeat(10_000),
        format!("{}{}", SOURCE_CODE, GENERAL)
    );
    assert_eq!(prompt, expected);
    let short = Growth::file_prompt("a.rs", "short");
    assert!(short.contains("\n    short\n"));
}

#[test]
fn file_hash_is_sha256_in_hex() {
    assert_eq!(
        Growth::calculate_file_hash(&b"abc".to_vec()),
        "ba7816bf8f01cfea414140de5dae2223b00361a396177a9cb410ff61f20015ad"
    );
    assert_eq!(
        Growth::calculate_file_hash(&Vec::new()),
        "e3b0c44298fc1c149afbf4c8996fb92427ae41e4649b934ca495991b7852b855"
    );
}

#[test]
fn file_hash_is_deterministic_and_content_sensitive() {
    let first = Growth::calculate_file_hash(&b"same content".to_vec());
    let second = Growth::calculate_file_hash(&b"same content".to_vec());
    let changed = Growth::calculate_file_hash(&b"same contenu".to_vec());
    assert_eq!(first, second);
    assert_ne!(first, changed);
}

#[test]
fn dir_hash_covers_the_files_in_order() {
    let files = vec![b"a".to_vec(), b"bc".to_vec()];
    assert_eq!(Growth::joined(&files), b"abc".to_vec());
    assert_eq!(
        Growth::calculate_dir_hash(&files),
        "ba7816bf8f01cfea414140de5dae2223b00361a396177a9cb410ff61f20015ad"
    );
    let swapped = vec![b"bc".to_vec(), b"a".to_vec()];
    assert_ne!(Growth::calculate_dir_hash(&swapped), Growth::calculate_dir_hash(&files));
    assert_eq!(
        Growth::calculate_dir_hash(&Vec::new()),
        "e3b0c44298fc1c149afbf4c8996fb92427ae41e4649b934ca495991b7852b855"
    );
}

#[test]
fn answered_file_gives_a_result() {
    let outcome = Growth::process_file("src/a.rs", &b"abc".to_vec(), Ok("  a summary \n".to_string())).unwrap();
    assert_eq!(outcome.llm_response, "a summary");
    assert_eq!(outcome.file_path, "src/a.rs");
    assert_eq!(outcome.hash, "ba7816bf8f01cfea414140de5dae2223b00361a396177a9cb410ff61f20015ad");
}

#[test]
fn failed_completion_fails_the_file() {
    let outcome = Growth::process_file("src/a.rs", &b"abc".to_vec(), Err("timeout".to_string()));
    assert_eq!(outcome.unwrap_err().message, "timeout");
}

#[test]
fn failed_files_are_left_out_of_the_fold() {
    let outcomes = vec![
        Growth::process_file("d/a", &b"a".to_vec(), Ok("A".to_string())),
        Growth::process_file("d/b", &b"b".to_vec(), Err("rate limit".to_string())),
        Growth::process_file("d/c", &b"c".to_vec(), Ok("C".to_string())),
    ];
    let kept = Growth::successes(&outcomes);
    let paths: Vec<&str> = kept.iter().map(|r| r.file_path.as_str()).collect();
    assert_eq!(paths, vec!["d/a", "d/c"]);
    let folded = Growth::process_dir_results(
        "d".to_string(),
        kept,
        &vec![b"a".to_vec(), b"b".to_vec(), b"c".to_vec()],
        Ok(" summary of d ".to_string()),
    )
    .unwrap();
    assert_eq!(folded.dir_path, "d");
    assert_eq!(folded.llm_response, "summary of d");
    assert_eq!(folded.processed_files.len(), 2);
    assert_eq!(folded.processed_files[0].llm_response, "A");
    assert_eq!(folded.processed_files[1].file_path, "d/c");
    assert_eq!(folded.hash, "ba7816bf8f01cfea414140de5dae2223b00361a396177a9cb410ff61f20015ad");
}

#[test]
fn all_failures_leave_an_empty_fold() {
    let outcomes: Vec<Result<ProcessFileResult, ProcessError>> =
        vec![Err(ProcessError { message: "x".to_string() }), Err(ProcessError { message: "y".to_string() })];
    assert!(Growth::successes(&outcomes).is_empty());
    assert!(Growth::successes(&Vec::new()).is_empty());
}

#[test]
fn failed_directory_summary_is_an_error() {
    let folded = Growth::process_dir_results("d".to_string(), Vec::new(), &Vec::new(), Err("down".to_string()));
    assert_eq!(folded.unwrap_err().message, "down");
}

#[test]
fn directory_prompt_layout() {
    let results = vec![result("d/a", "about a", "h1"), result("d/b", "about b", "h2")];
    let prompt = Growth::dir_prompt("d", &results);
    let block = "#d/a\nabout a\n\n#d/b\nabout b\n";
    let expected = format!(
        "{}\n\nEach section above represents a file in the directory {}. {}{}",
        block, "d", FOLDER, GENERAL
    );
    assert_eq!(prompt, expected);
    let empty = Growth::dir_prompt("d", &Vec::new());
    assert_eq!(
        empty,
        format!("\n\nEach section above represents a file in the directory d. {}{}", FOLDER, GENERAL)
    );
}

#[test]
fn trim_removes_surrounding_white_space() {
    assert_eq!(Growth::trim("\n\t text with  spaces \n"), "text with  spaces");
}

#[test]
fn analysis_draft() {
    let draft = ProjectAnalysisDraft::new("/proj".to_string(), "Explain".to_string());
    assert_eq!(draft.path_root, "/proj");
    assert_eq!(draft.prompt, "Explain");
    let with_default = ProjectAnalysisDraft::new_with_default_prompt("/proj".to_string());
    assert_eq!(with_default.path_root, "/proj");
    assert_eq!(with_default.prompt, ANALYSIS);
    assert_eq!(
        draft.file_prompt("a.rs", "fn a() {}"),
        "\n    # a.rs\n    ```\n    fn a() {}\n    ```\n\n    Explain:\n\n    "
    );
    let items = Vec::new();
    let mut iter = draft.tree_iter(&items);
    assert_eq!(iter.root(), "/proj");
    assert!(iter.next().is_none());
}

#[test]
fn only_files_get_a_prompt() {
    let file = Ok(Event::File(Entry { path: "a".to_string(), has_next_sibling: false, is_directory: false }));
    let dir = Ok(Event::OpenDir(Entry { path: "d".to_string(), has_next_sibling: false, is_directory: true }));
    assert_eq!(ProjectAnalysisDraft::prompt_target(&file), Some("a".to_string()));
    assert_eq!(ProjectAnalysisDraft::prompt_target(&dir), None);
    assert_eq!(ProjectAnalysisDraft::prompt_target(&Ok(Event::CloseDir)), None);
    assert_eq!(ProjectAnalysisDraft::prompt_target(&Err(TreeError::Io("e".to_string()))), None);
}

#[test]
fn analysis_of_a_completion() {
    let done = ProjectSourceFileAnalysis::from_completion("a".to_string(), "p".to_string(), Ok(" fine ".to_string()));
    assert_eq!(done.file_path, "a");
    assert_eq!(done.prompt, "p");
    assert_eq!(done.analysis, "fine");
    assert_eq!(done.error, None);
    let failed = ProjectSourceFileAnalysis::from_completion("a".to_string(), "p".to_string(), Err("no".to_string()));
    assert_eq!(failed.analysis, "");
    assert_eq!(failed.error, Some("no".to_string()));
    let result = ProjectAnalysisResult::new(Box::new(ProjectAnalysisDraft::new("r".to_string(), "p".to_string())));
    assert!(result.source_files.is_empty());
    assert_eq!(result.parent.path_root, "r");
}

#[test]
fn context_paths() {
    let ctx = BlobContextProcessor::new("/proj".to_string());
    assert_eq!(ctx.get_definitions_path(), "/proj/.blob/.definitions");
    assert_eq!(ctx.get_mutations_path(), "/proj/.blob/.mutations");
    assert_eq!(ctx.definitions_file(&BlobDefinitionKind::Project), "/proj/.blob/.definitions/_project.md");
    assert_eq!(ctx.definitions_file(&BlobDefinitionKind::SelfReference), "/proj/.blob/.definitions/_self.md");
    assert_eq!(ctx.mutation_path("20230101120000"), "/proj/.blob/.mutations/20230101120000");
    assert_eq!(BlobDefinitionKind::Project.as_filename(), "_project.md");
    assert_eq!(BlobDefinitionKind::SelfReference.as_filename(), "_self.md");
    assert_eq!(BlobContextProcessor::self_definitions().len(), 6);
    assert!(matches!(BlobMutationKind::Project, BlobMutationKind::Project));
}

#[test]
fn snapshot_starts_as_proposed() {
    let snapshot = Snapshot::new("/p".to_string(), "now".to_string(), "then".to_string(), "do it".to_string());
    assert_eq!(snapshot.path_root, "/p");
    assert_eq!(snapshot.current_structure, "now");
    assert_eq!(snapshot.proposed_structure, "then");
    assert_eq!(snapshot.prompt, "do it");
    assert!(matches!(snapshot.state, SnapshotState::Proposed));
    assert_eq!(SnapshotError("e".to_string()).0, "e");
}

#[test]
fn tool_root_defaults_to_the_current_directory() {
    let tool = BlobTool { root: None, command: Commands::Define { definition: None } };
    assert_eq!(tool.root_or_default(), ".");
    let given = BlobTool { root: Some("/p".to_string()), command: Commands::Analyze { file: None } };
    assert_eq!(given.root_or_default(), "/p");
}
