use blob::filters::{Both, DiscoverFailure, FileFilter, FilterAggregate, FilterError, FnFilter, GitignoreFilter};
use blob::software::Project;
use std::cell::Cell;
use std::rc::Rc;

type Suffix = FnFilter<Box<dyn Fn(&str) -> Result<bool, FilterError>>>;

fn counted(suffix: &str, asked: Rc<Cell<usize>>) -> Suffix {
    let suffix = suffix.to_string();
    FnFilter::new(Box::new(move |path: &str| {
        asked.set(asked.get() + 1);
        if path == "broken" {
            return Err(FilterError::new("broken path".to_string()));
        }
        Ok(!path.ends_with(suffix.as_str()))
    }))
}

fn suffix(suffix: &str) -> Suffix {
    counted(suffix, Rc::new(Cell::new(0)))
}

#[test]
fn empty_aggregate_includes_everything() {
    let all: FilterAggregate<Suffix> = FilterAggregate::default();
    assert_eq!(all.len(), 0);
    assert_eq!(all.filter("anything").unwrap(), true);
    let fresh: FilterAggregate<Suffix> = FilterAggregate::new();
    assert_eq!(fresh.filter("anything").unwrap(), true);
}

#[test]
fn aggregate_is_a_conjunction() {
    let mut all = FilterAggregate::new();
    all.push(suffix(".log"));
    all.push(suffix(".tmp"));
    assert_eq!(all.len(), 2);
    assert_eq!(all.filter("a.rs").unwrap(), true);
    assert_eq!(all.filter("a.log").unwrap(), false);
    assert_eq!(all.filter("a.tmp").unwrap(), false);
}

#[test]
fn aggregate_stops_at_the_first_rejection() {
    let first = Rc::new(Cell::new(0));
    let second = Rc::new(Cell::new(0));
    let mut all = FilterAggregate::new();
    all.push(counted(".log", Rc::clone(&first)));
    all.push(counted(".tmp", Rc::clone(&second)));
    assert_eq!(all.filter("a.log").unwrap(), false);
    assert_eq!(first.get(), 1);
    assert_eq!(second.get(), 0);
    assert_eq!(all.filter("a.tmp").unwrap(), false);
    assert_eq!(first.get(), 2);
    assert_eq!(second.get(), 1);
}

#[test]
fn aggregate_hands_on_a_failure() {
    let mut all = FilterAggregate::new();
    all.push(suffix(".log"));
    let err = all.filter("broken").unwrap_err();
    assert_eq!(err.to_text(), "broken path");
    assert_eq!(err.duplicate().message, "broken path");
}

#[test]
fn settles_on_anything_but_inclusion() {
    assert!(FilterAggregate::<Suffix>::settles(Ok(true)).is_none());
    assert_eq!(FilterAggregate::<Suffix>::settles(Ok(false)).unwrap().unwrap(), false);
    assert!(FilterAggregate::<Suffix>::settles(Err(FilterError::new("e".to_string()))).unwrap().is_err());
}

#[test]
fn missing_repository_gives_no_filter() {
    let made = GitignoreFilter::from_discovery(Err(DiscoverFailure { not_found: true, message: "none".to_string() }));
    assert!(made.is_none());
}

#[test]
fn failed_discovery_is_an_error() {
    let made = GitignoreFilter::from_discovery(Err(DiscoverFailure { not_found: false, message: "corrupt".to_string() }));
    match made {
        Some(Err(err)) => assert_eq!(err.message, "corrupt"),
        _ => panic!("expected an error"),
    }
}

#[test]
fn ignored_paths_are_left_out() {
    assert_eq!(GitignoreFilter::verdict_of(Ok(true)).unwrap(), false);
    assert_eq!(GitignoreFilter::verdict_of(Ok(false)).unwrap(), true);
    assert_eq!(GitignoreFilter::verdict_of(Err("io".to_string())).unwrap_err().message, "io");
}

#[test]
fn project_without_repository_includes_everything() {
    let project = Project { root_path: "/proj".to_string(), repository: None };
    assert_eq!(project.filter("/proj/target").unwrap(), true);
    assert!(Project::usable(None).is_none());
    assert!(Project::usable(Some(Err(FilterError::new("e".to_string())))).is_none());
}

#[test]
fn function_filter_answers_as_its_function() {
    let filter = suffix(".log");
    assert_eq!(filter.filter("a.log").unwrap(), false);
    assert_eq!(filter.filter("a.rs").unwrap(), true);
    assert_eq!(filter.filter("broken").unwrap_err().message, "broken path");
}

#[test]
fn no_repository_above_a_path_without_one() {
    assert!(GitignoreFilter::new("/no/such/place/on/this/disk").is_none());
}

#[test]
fn both_asks_the_second_only_after_the_first_includes() {
    let first = Rc::new(Cell::new(0));
    let second = Rc::new(Cell::new(0));
    let mut inner = FilterAggregate::new();
    inner.push(counted(".tmp", Rc::clone(&second)));
    let both = Both { first: counted(".log", Rc::clone(&first)), second: inner };
    assert_eq!(both.filter("a.log").unwrap(), false);
    assert_eq!((first.get(), second.get()), (1, 0));
    assert_eq!(both.filter("a.tmp").unwrap(), false);
    assert_eq!((first.get(), second.get()), (2, 1));
    assert_eq!(both.filter("a.rs").unwrap(), true);
    assert_eq!((first.get(), second.get()), (3, 2));
    assert_eq!(both.filter("broken").unwrap_err().message, "broken path");
    assert_eq!((first.get(), second.get()), (4, 2));
}
