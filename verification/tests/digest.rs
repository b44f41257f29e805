use blob::digest::{
    default_kind, digest_file, file_tasks, insert_by_level, level_run_end, path_level, wave_end, DigestedSource, PayloadCache,
};
use blob::filters::{FilterError, FnFilter};
use blob::growth::Growth;
use blob::software::{Project, Source};
use blob::tree::{DirItem, ItemKind};

fn decide(path: &str) -> Result<bool, FilterError> {
    Ok(!path.ends_with("target"))
}

fn no_target() -> FnFilter<fn(&str) -> Result<bool, FilterError>> {
    FnFilter::new(decide)
}

fn dir_source(path: &str) -> Source<DigestedSource> {
    Source::Dir { path: path.to_string(), payload: DigestedSource::Undefined, children: Vec::new() }
}

fn roots(batch: &Vec<DigestedSource>) -> Vec<(String, usize)> {
    batch
        .iter()
        .map(|d| match d {
            DigestedSource::DigestedDir { root, level, .. } => (root.clone(), *level),
            _ => panic!("only directories are expected"),
        })
        .collect()
}

#[test]
fn level_counts_separators() {
    assert_eq!(path_level("proj"), 0);
    assert_eq!(path_level("/proj"), 1);
    assert_eq!(path_level("/proj/sub/b.txt"), 3);
    assert_eq!(path_level(""), 0);
}

#[test]
fn batch_is_deepest_first() {
    let sources = vec![dir_source("proj"), dir_source("proj/a"), dir_source("proj/a/b")];
    let batch = Growth::traversal_modules(sources);
    assert_eq!(
        roots(&batch),
        vec![("proj/a/b".to_string(), 2), ("proj/a".to_string(), 1), ("proj".to_string(), 0)]
    );
}

#[test]
fn batch_levels_never_rise() {
    let sources = vec![
        dir_source("p/a/b"),
        dir_source("p"),
        Source::File { path: "p/f".to_string(), payload: DigestedSource::Undefined },
        dir_source("p/c"),
        dir_source("p/a"),
        dir_source("p/a/b/c"),
        dir_source("p/d"),
    ];
    let batch = Growth::traversal_modules(sources);
    let got = roots(&batch);
    assert_eq!(got.len(), 6);
    for pair in got.windows(2) {
        assert!(pair[0].1 >= pair[1].1);
    }
    let levels: Vec<usize> = got.iter().map(|r| r.1).collect();
    assert_eq!(levels, vec![3, 2, 1, 1, 1, 0]);
    let mut names: Vec<String> = got.into_iter().map(|r| r.0).collect();
    names.sort();
    assert_eq!(names, vec!["p", "p/a", "p/a/b", "p/a/b/c", "p/c", "p/d"]);
}

#[test]
fn batch_keeps_the_children_of_each_directory() {
    let sources = vec![Source::Dir {
        path: "p".to_string(),
        payload: DigestedSource::Undefined,
        children: vec![Source::File {
            path: "p/f.rs".to_string(),
            payload: DigestedSource::DigestedFile { level: 1, mime_type: "text/rs".to_string() },
        }],
    }];
    let batch = Growth::traversal_modules(sources);
    match &batch[0] {
        DigestedSource::DigestedDir { root, level, children } => {
            assert_eq!(root, "p");
            assert_eq!(*level, 0);
            assert_eq!(children.len(), 1);
            assert_eq!(children[0].path(), "p/f.rs");
            assert_eq!(children[0].payload().mime_type(), Some("text/rs"));
            assert_eq!(children[0].payload().get_level(), 1);
            assert!(!children[0].is_dir());
        }
        _ => panic!("expected a directory"),
    }
}

#[test]
fn insertion_goes_before_the_first_not_deeper() {
    let mut batch = Growth::traversal_modules(vec![dir_source("a/b/c"), dir_source("a")]);
    insert_by_level(&mut batch, DigestedSource::DigestedFile { level: 1, mime_type: "x".to_string() });
    let levels: Vec<usize> = batch.iter().map(|d| d.get_level()).collect();
    assert_eq!(levels, vec![2, 1, 0]);
}

#[test]
fn runs_of_one_level() {
    let batch = Growth::traversal_modules(vec![
        dir_source("p"),
        dir_source("p/a"),
        dir_source("p/b"),
        dir_source("p/a/x"),
    ]);
    assert_eq!(level_run_end(&batch, 0), 1);
    assert_eq!(level_run_end(&batch, 1), 3);
    assert_eq!(level_run_end(&batch, 2), 3);
    assert_eq!(level_run_end(&batch, 3), 4);
}

#[test]
fn undefined_payload_has_level_zero() {
    assert_eq!(DigestedSource::Undefined.get_level(), 0);
    assert_eq!(DigestedSource::default().get_level(), 0);
    assert_eq!(DigestedSource::Undefined.mime_type(), None);
}

#[test]
fn default_kind_comes_from_the_extension() {
    assert_eq!(default_kind("/p/main.rs"), "text/rs");
    assert_eq!(default_kind("/p/archive.tar.gz"), "text/gz");
    assert_eq!(default_kind("/p/Makefile"), "unknown/unknown");
    assert_eq!(default_kind("/p/.gitignore"), "unknown/unknown");
    assert_eq!(default_kind("/p.d/readme"), "unknown/unknown");
    assert_eq!(default_kind("/p/trailing."), "text/");
}

#[test]
fn content_decides_before_the_extension() {
    let jpeg: Vec<u8> = vec![0xFF, 0xD8, 0xFF, 0xAA];
    match digest_file("/p/picture.txt", Some(&jpeg)) {
        DigestedSource::DigestedFile { level, mime_type } => {
            assert_eq!(level, 2);
            assert_eq!(mime_type, "image/jpeg");
        }
        _ => panic!("expected a file"),
    }
    let text: Vec<u8> = b"fn main() {}".to_vec();
    assert_eq!(digest_file("/p/main.rs", Some(&text)).mime_type(), Some("text/rs"));
    assert_eq!(digest_file("/p/main.rs", None).mime_type(), Some("text/rs"));
    assert_eq!(digest_file("/p/LICENSE", None).mime_type(), Some("unknown/unknown"));
}

#[test]
fn cache_returns_what_it_computed_first() {
    let mut cache = PayloadCache::new();
    let path = "/p/picture".to_string();
    assert!(cache.lookup(&path).is_none());
    let jpeg: Vec<u8> = vec![0xFF, 0xD8, 0xFF, 0xAA];
    let first = cache.digest_file(&path, Some(&jpeg));
    assert_eq!(first.mime_type(), Some("image/jpeg"));
    assert_eq!(cache.entries.len(), 1);
    let second = cache.digest_file(&path, None);
    assert_eq!(second.mime_type(), Some("image/jpeg"));
    assert_eq!(second.get_level(), 2);
    assert_eq!(cache.entries.len(), 1);
    let other = cache.digest_file(&"/p/other.md".to_string(), None);
    assert_eq!(other.mime_type(), Some("text/md"));
    assert_eq!(cache.entries.len(), 2);
    assert_eq!(cache.lookup(&path).unwrap().mime_type(), Some("image/jpeg"));
}

fn describe(sources: &Vec<Source<String>>) -> Vec<String> {
    sources
        .iter()
        .map(|s| match s {
            Source::File { path, payload } => format!("F {} [{}]", path, payload),
            Source::Dir { path, payload, children } => format!(
                "D {} [{}] ({})",
                path,
                payload,
                children
                    .iter()
                    .map(|c| format!("{}{}:{}", if c.is_dir() { "d " } else { "" }, c.path(), c.payload()))
                    .collect::<Vec<String>>()
                    .join(", ")
            ),
        })
        .collect()
}

#[test]
fn walk_lists_every_included_directory() {
    let filter = no_target();
    let root = DirItem::judged(
        "/proj".to_string(),
        ItemKind::Dir(vec![
            DirItem::judged("/proj/a.txt".to_string(), ItemKind::File, &filter),
            DirItem::judged(
                "/proj/target".to_string(),
                ItemKind::Dir(vec![DirItem::judged("/proj/target/out".to_string(), ItemKind::File, &filter)]),
                &filter,
            ),
            DirItem::judged(
                "/proj/sub".to_string(),
                ItemKind::Dir(vec![
                    DirItem::judged("/proj/sub/b.txt".to_string(), ItemKind::File, &filter),
                    DirItem::judged("/proj/sub/deep".to_string(), ItemKind::Dir(vec![]), &filter),
                ]),
                &filter,
            ),
            DirItem::judged("/proj/locked".to_string(), ItemKind::Unreadable("denied".to_string()), &filter),
        ]),
        &filter,
    );
    let project = Project { root_path: "/proj".to_string(), repository: None };
    let builder = |path: &String, is_dir: bool| format!("{}{}", if is_dir { "dir" } else { "file" }, path.len());
    let sources = project.calculate_source(&root, &builder);
    assert_eq!(
        describe(&sources),
        vec![
            "D /proj [dir5] (/proj/a.txt:file11, d /proj/sub:dir9)",
            "D /proj/sub [dir9] (/proj/sub/b.txt:file15, d /proj/sub/deep:dir14)",
            "D /proj/sub/deep [dir14] ()",
        ]
    );
}

#[test]
fn walk_of_a_file_is_the_file() {
    let root = DirItem::judged("/proj/a.txt".to_string(), ItemKind::File, &no_target());
    let project = Project { root_path: "/proj/a.txt".to_string(), repository: None };
    let builder = |_path: &String, _is_dir: bool| "p".to_string();
    assert_eq!(describe(&project.calculate_source(&root, &builder)), vec!["F /proj/a.txt [p]"]);
}

#[test]
fn walk_of_an_excluded_root_is_empty() {
    let root = DirItem::judged("/proj/target".to_string(), ItemKind::Dir(vec![]), &no_target());
    let project = Project { root_path: "/proj/target".to_string(), repository: None };
    let builder = |_path: &String, _is_dir: bool| "p".to_string();
    assert!(project.calculate_source(&root, &builder).is_empty());
}

#[test]
fn one_task_per_file_of_the_directory() {
    let dir = DigestedSource::DigestedDir {
        root: "p".to_string(),
        level: 0,
        children: vec![
            Source::File { path: "p/a".to_string(), payload: DigestedSource::Undefined },
            dir_source("p/sub"),
            Source::File { path: "p/b".to_string(), payload: DigestedSource::Undefined },
        ],
    };
    assert_eq!(file_tasks(&dir), vec!["p/a".to_string(), "p/b".to_string()]);
    assert!(file_tasks(&DigestedSource::Undefined).is_empty());
    assert!(file_tasks(&DigestedSource::DigestedFile { level: 0, mime_type: "x".to_string() }).is_empty());
}

#[test]
fn waves_are_bounded_by_the_workers() {
    assert_eq!(wave_end(0, 10, None), 10);
    assert_eq!(wave_end(0, 10, Some(4)), 4);
    assert_eq!(wave_end(4, 10, Some(4)), 8);
    assert_eq!(wave_end(8, 10, Some(4)), 10);
    assert_eq!(wave_end(3, 10, Some(0)), 4);
    assert_eq!(wave_end(9, 10, Some(usize::MAX)), 10);
}
