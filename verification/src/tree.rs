//! Types for walking a directory tree depth first, leaving out what a filter
//! rejected.

use vstd::prelude::*;
use crate::filters::{FileFilter, FilterError};

verus! {

/// What a directory entry turned out to be when it was read.
pub enum ItemKind {
    /// Any non-directory file.
    File,
    /// A directory with its entries, in the order the directory was read.
    Dir(Vec<DirItem>),
    /// An entry whose metadata, or a directory whose contents, could not be
    /// read; the text says why.
    Unreadable(String),
}

/// One entry of a directory as it was read, with the filter's verdict on it.
pub struct DirItem {
    pub path: String,
    /// `Ok(true)` if the filter includes the path, `Ok(false)` if it
    /// excludes it, `Err` if the filter failed on it.
    pub verdict: Result<bool, FilterError>,
    pub kind: ItemKind,
}

/// What went wrong at one node of the traversal.
#[derive(Debug)]
pub enum TreeError {
    /// The filter failed on the node's path.
    Filter(FilterError),
    /// The node could not be read.
    Io(String),
}

/// Represents an entry in the file system.
#[derive(Debug)]
pub struct Entry {
    pub path: String,
    pub has_next_sibling: bool,
    pub is_directory: bool,
}

/// Events yielded from `TreeIter`.
#[derive(Debug)]
pub enum Event {
    /// Any non-directory file in the current directory.
    File(Entry),
    /// A directory contained within the current directory. This is the new current directory.
    OpenDir(Entry),
    /// Signals end of current directory. The parent becomes the new current directory.
    CloseDir,
}

/// An entry as contracts see it.
pub struct EntryModel {
    pub path: Seq<char>,
    pub has_next_sibling: bool,
    pub is_directory: bool,
}

/// One item of the event stream as contracts see it: an event, or a failure
/// with its message.
pub enum EventModel {
    File(EntryModel),
    OpenDir(EntryModel),
    CloseDir,
    Failure(Seq<char>),
}

impl View for Entry {
    type V = EntryModel;

    open spec fn view(&self) -> EntryModel {
        EntryModel {
            path: self.path@,
            has_next_sibling: self.has_next_sibling,
            is_directory: self.is_directory,
        }
    }
}

impl View for Event {
    type V = EventModel;

    open spec fn view(&self) -> EventModel {
        match *self {
            Event::File(entry) => EventModel::File(entry@),
            Event::OpenDir(entry) => EventModel::OpenDir(entry@),
            Event::CloseDir => EventModel::CloseDir,
        }
    }
}

impl TreeError {
    /// The message of the error.
    pub open spec fn message(self) -> Seq<char> {
        match self {
            TreeError::Filter(err) => err.message@,
            TreeError::Io(text) => text@,
        }
    }

    /// The message as text.
    pub fn to_text(&self) -> (text: String)
        ensures
            text@ == self.message(),
    {
        match self {
            TreeError::Filter(err) => err.message.clone(),
            TreeError::Io(text) => text.clone(),
        }
    }
}

impl Entry {
    /// Path to the entry.
    pub fn path(&self) -> (path: &str)
        ensures
            path@ == self.path@,
    {
        self.path.as_str()
    }

    /// Whether the directory that yielded this entry has more entries that
    /// pass the filter.
    pub fn has_next_sibling(&self) -> (more: bool)
        ensures
            more == self.has_next_sibling,
    {
        self.has_next_sibling
    }

    /// Whether the entry is a directory.
    pub fn is_directory(&self) -> (dir: bool)
        ensures
            dir == self.is_directory,
    {
        self.is_directory
    }
}

/// One item of the stream as contracts see it.
pub open spec fn item_model(item: Result<Event, TreeError>) -> EventModel {
    match item {
        Ok(event) => event@,
        Err(err) => EventModel::Failure(err.message()),
    }
}

/// How an item of the stream changes the nesting depth.
pub open spec fn depth_change(event: EventModel) -> int {
    match event {
        EventModel::OpenDir(_) => 1,
        EventModel::CloseDir => -1,
        _ => 0,
    }
}

/// The filter includes the item.
pub open spec fn passes(item: DirItem) -> bool {
    match item.verdict {
        Ok(included) => included,
        Err(_) => false,
    }
}

/// The filter excludes the item.
pub open spec fn rejected(item: DirItem) -> bool {
    match item.verdict {
        Ok(included) => !included,
        Err(_) => false,
    }
}

/// Some item at position `from` or later passes the filter.
pub open spec fn has_more(items: Seq<DirItem>, from: int) -> bool {
    exists|j: int| from <= j < items.len() && passes(#[trigger] items[j])
}

/// The entry that stands for `items[at]` in the event stream.
pub open spec fn entry_of(items: Seq<DirItem>, at: int) -> EntryModel {
    EntryModel {
        path: items[at].path@,
        has_next_sibling: has_more(items, at + 1),
        is_directory: items[at].kind is Dir,
    }
}

/// The events of the entries `items[from..]` and of everything below them:
/// an excluded entry gives nothing, a failure gives one failure item, a file
/// gives `File`, and a directory gives `OpenDir`, the events of its own
/// entries, and `CloseDir`.
pub open spec fn events_from(items: Seq<DirItem>, from: int) -> Seq<EventModel>
    decreases items, items.len() - from,
{
    if from < 0 || from >= items.len() {
        Seq::empty()
    } else {
        let rest = events_from(items, from + 1);
        match items[from].verdict {
            Err(err) => seq![EventModel::Failure(err.message@)] + rest,
            Ok(false) => rest,
            Ok(true) => match items[from].kind {
                ItemKind::File => seq![EventModel::File(entry_of(items, from))] + rest,
                ItemKind::Unreadable(text) => seq![EventModel::Failure(text@)] + rest,
                ItemKind::Dir(children) => seq![EventModel::OpenDir(entry_of(items, from))]
                    + events_from(children@, 0) + seq![EventModel::CloseDir] + rest,
            },
        }
    }
}

/// Whether a directory is entered: only one that the filter includes.
pub fn descends(verdict: &Result<bool, FilterError>, is_dir: bool) -> (enter: bool)
    ensures
        enter == (is_dir && *verdict == Ok::<bool, FilterError>(true)),
{
    match verdict {
        Ok(included) => *included && is_dir,
        Err(_) => false,
    }
}

impl DirItem {
    /// An entry with the verdict that `filter` gives on its path.
    pub fn judged<F: FileFilter>(path: String, kind: ItemKind, filter: &F) -> (item: DirItem)
        ensures
            item.path == path,
            item.kind == kind,
            filter.admits(path@, item.verdict),
    {
        let verdict = filter.filter(path.as_str());
        DirItem { path, verdict, kind }
    }
}

/// Whether the directory has more entries that pass the filter, from
/// position `from` on. Nothing is consumed.
pub fn has_next_sibling(items: &Vec<DirItem>, from: usize) -> (more: bool)
    ensures
        more == has_more(items@, from as int),
{
    let mut j: usize = from;
    while j < items.len()
        invariant
            from <= j,
            forall|k: int| from <= k < j && k < items@.len() ==> !passes(#[trigger] items@[k]),
        decreases items@.len() - j,
    {
        let included = match &items[j].verdict {
            Ok(b) => *b,
            Err(_) => false,
        };
        if included {
            return true;
        }
        j += 1;
    }
    false
}

} // verus!
