use blob::filters::{FilterError, FnFilter};
use blob::iterator::TreeIter;
use blob::print::{file_name_from_path, tree_line, PrintProcessor, TreeProcessorBuilder, TreeRepresentation};
use blob::reader::{TreeFileWalker, TreeVisitor};
use blob::representation::{construct, TreeProcessor};
use blob::tree::{DirItem, Entry, ItemKind};
use std::cell::RefCell;

fn yes(_path: &str) -> Result<bool, FilterError> {
    Ok(true)
}

fn all() -> FnFilter<fn(&str) -> Result<bool, FilterError>> {
    FnFilter::new(yes)
}

fn file(path: &str) -> DirItem {
    DirItem::judged(path.to_string(), ItemKind::File, &all())
}

fn dir(path: &str, children: Vec<DirItem>) -> DirItem {
    DirItem::judged(path.to_string(), ItemKind::Dir(children), &all())
}

fn sample() -> Vec<DirItem> {
    vec![
        file("./a"),
        dir("./b", vec![file("./b/1"), file("./b/2")]),
        dir("./c", vec![]),
        file("./d"),
    ]
}

#[test]
fn draws_the_documented_tree() {
    let items = sample();
    let mut tree = TreeIter::new(".".to_string(), &items);
    let mut drawing = TreeRepresentation::new();
    let text = construct(&mut drawing, &mut tree).unwrap();
    assert_eq!(
        text,
        "├── a\n├── b\n│   ├── 1\n│   └── 2\n├── c\n└── d\n"
    );
    assert_eq!(drawing.num_dirs, 2);
    assert_eq!(drawing.num_files, 4);
}

#[test]
fn print_processor_draws_the_same() {
    let items = sample();
    let mut tree = TreeIter::new(".".to_string(), &items);
    let builder = TreeProcessorBuilder::new(".".to_string());
    assert_eq!(builder.header(), ".\n");
    let mut printer: PrintProcessor = builder.build();
    let text = construct(&mut printer, &mut tree).unwrap();
    assert_eq!(
        text,
        "├── a\n├── b\n│   ├── 1\n│   └── 2\n├── c\n└── d\n"
    );
}

#[test]
fn blank_indent_under_a_last_directory() {
    let items = vec![dir("x", vec![dir("x/y", vec![file("x/y/z")])])];
    let mut tree = TreeIter::new(".".to_string(), &items);
    let mut drawing = TreeRepresentation::new();
    let text = construct(&mut drawing, &mut tree).unwrap();
    assert_eq!(text, "└── x\n    └── y\n        └── z\n");
}

#[test]
fn stripping_glyphs_recovers_the_names() {
    let items = sample();
    let mut tree = TreeIter::new(".".to_string(), &items);
    let mut drawing = TreeRepresentation::new();
    let text = construct(&mut drawing, &mut tree).unwrap();
    let names: Vec<String> = text
        .lines()
        .map(|l| l.chars().filter(|c| !"│├└─ ".contains(*c)).collect())
        .collect();
    assert_eq!(names, vec!["a", "b", "1", "2", "c", "d"]);
}

#[test]
fn first_failure_ends_the_construction() {
    let items = vec![
        file("a"),
        DirItem::judged("b".to_string(), ItemKind::Unreadable("no access".to_string()), &all()),
        file("c"),
    ];
    let mut tree = TreeIter::new(".".to_string(), &items);
    let mut drawing = TreeRepresentation::new();
    let err = construct(&mut drawing, &mut tree).unwrap_err();
    assert_eq!(err.to_text(), "no access");
}

#[test]
fn root_level_line_has_one_glyph() {
    assert_eq!(tree_line(&vec![true], "name"), "├── name\n");
    assert_eq!(tree_line(&vec![false], "name"), "└── name\n");
    assert_eq!(tree_line(&vec![], "name"), "name\n");
    assert_eq!(tree_line(&vec![true, false, true], "n"), "│       ├── n\n");
}

#[test]
fn file_name_is_the_last_segment() {
    assert_eq!(file_name_from_path("/proj/sub/b.txt"), "b.txt");
    assert_eq!(file_name_from_path("plain"), "plain");
    assert_eq!(file_name_from_path("päth/ünï"), "ünï");
    assert_eq!(file_name_from_path(""), "");
}

#[test]
fn construct_entry_uses_the_current_flags() {
    let mut drawing = TreeRepresentation::new();
    assert_eq!(drawing.construct_entry("x"), "├── x\n");
    let entry = Entry { path: "d".to_string(), has_next_sibling: false, is_directory: true };
    assert_eq!(drawing.construct_dir(&entry), "└── d\n");
    assert_eq!(drawing.dir_has_next, vec![false, true]);
    let inner = Entry { path: "d/f".to_string(), has_next_sibling: false, is_directory: false };
    assert_eq!(drawing.construct_file(&inner), "    └── f\n");
    drawing.close_dir();
    assert_eq!(drawing.dir_has_next, vec![false]);
}

struct Recorder {
    seen: RefCell<Vec<(String, bool)>>,
}

impl TreeVisitor for Recorder {
    fn visit(&self, path: &str, is_dir: bool) {
        self.seen.borrow_mut().push((path.to_string(), is_dir));
    }
}

#[test]
fn walker_reports_every_entry() {
    let items = sample();
    let mut tree = TreeIter::new(".".to_string(), &items);
    let mut walker = TreeFileWalker::new(Recorder { seen: RefCell::new(Vec::new()) });
    let text = construct(&mut walker, &mut tree).unwrap();
    assert_eq!(text, "./a./b./b/1./b/2./c./d");
    assert_eq!(
        *walker.visitor.seen.borrow(),
        vec![
            ("./a".to_string(), false),
            ("./b".to_string(), true),
            ("./b/1".to_string(), false),
            ("./b/2".to_string(), false),
            ("./c".to_string(), true),
            ("./d".to_string(), false),
        ]
    );
    assert_eq!(walker.num_dirs, 2);
    assert_eq!(walker.num_files, 4);
}
