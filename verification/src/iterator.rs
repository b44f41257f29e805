//! The depth-first iterator over a directory tree.

use vstd::prelude::*;
use crate::tree::{
    depth_change, entry_of, events_from, has_next_sibling, item_model, rejected, DirItem, Entry,
    EntryModel, Event, EventModel, ItemKind, TreeError,
};

verus! {

/// The entries of one open directory, and how many of them were consumed.
pub struct FilteredDir<'a> {
    pub items: &'a Vec<DirItem>,
    pub pos: usize,
}

impl<'a> FilteredDir<'a> {
    /// The stream over `items`, with nothing consumed.
    pub fn new(items: &'a Vec<DirItem>) -> (dir: Self)
        ensures
            dir.items == items,
            dir.pos == 0,
            dir.wf(),
    {
        FilteredDir { items, pos: 0 }
    }

    pub open spec fn wf(self) -> bool {
        self.pos <= self.items@.len()
    }

    /// The events that the rest of this directory still gives.
    pub open spec fn remaining(self) -> Seq<EventModel> {
        events_from(self.items@, self.pos as int)
    }
}

/// The first position at or after `from` whose entry the filter does not
/// exclude, or the number of entries if there is none.
pub open spec fn next_index(items: Seq<DirItem>, from: int) -> int
    decreases items.len() - from,
{
    if from < 0 || from >= items.len() {
        items.len() as int
    } else if rejected(items[from]) {
        next_index(items, from + 1)
    } else {
        from
    }
}

/// Excluded entries in front of the next one add nothing to the events.
pub proof fn lemma_skip_rejected(items: Seq<DirItem>, from: int)
    requires
        0 <= from <= items.len(),
    ensures
        from <= next_index(items, from) <= items.len(),
        events_from(items, from) == events_from(items, next_index(items, from)),
        next_index(items, from) < items.len() ==> !rejected(items[next_index(items, from)]),
    decreases items.len() - from,
{
    if from < items.len() && rejected(items[from]) {
        lemma_skip_rejected(items, from + 1);
    }
}

impl<'a> FilteredDir<'a> {
    /// Passes over the entries that the filter excludes and consumes the
    /// first that it does not exclude. Gives the position of that entry,
    /// or `None` when the directory is exhausted.
    pub fn next(&mut self) -> (at: Option<usize>)
        requires
            old(self).wf(),
        ensures
            final(self).wf(),
            final(self).items == old(self).items,
            match at {
                Some(i) => i == next_index(old(self).items@, old(self).pos as int) && i < old(self).items@.len()
                    && final(self).pos == i + 1,
                None => next_index(old(self).items@, old(self).pos as int) >= old(self).items@.len()
                    && final(self).pos == old(self).items@.len(),
            },
    {
        let items: &'a Vec<DirItem> = self.items;
        let mut at: usize = self.pos;
        let ghost start = self.pos as int;
        while at < items.len()
            invariant
                start <= at <= items@.len(),
                items == self.items,
                *self == *old(self),
                start == old(self).pos,
                next_index(items@, start) == next_index(items@, at as int),
            decreases items@.len() - at,
        {
            let excluded = match &items[at].verdict {
                Ok(included) => !*included,
                Err(_) => false,
            };
            if !excluded {
                self.pos = at + 1;
                return Some(at);
            }
            at += 1;
        }
        self.pos = at;
        None
    }
}

/// What the entry at `at`, which the filter did not exclude, gives: an
/// entry, or the failure that stands in its place.
pub open spec fn outcome_at(items: Seq<DirItem>, at: int) -> Result<EntryModel, Seq<char>> {
    match items[at].verdict {
        Err(err) => Err(err.message@),
        Ok(_) => match items[at].kind {
            ItemKind::Unreadable(text) => Err(text@),
            _ => Ok(entry_of(items, at)),
        },
    }
}

/// Pulls the next entry that the filter does not exclude from `dir`, with
/// its lookahead flag; `None` when the directory is exhausted.
pub fn next_entry<'a>(dir: &mut FilteredDir<'a>) -> (found: Option<Result<Entry, TreeError>>)
    requires
        old(dir).wf(),
    ensures
        final(dir).wf(),
        final(dir).items == old(dir).items,
        ({
            let at = next_index(old(dir).items@, old(dir).pos as int);
            if at >= old(dir).items@.len() {
                found is None && final(dir).pos == old(dir).items@.len()
            } else {
                &&& final(dir).pos == at + 1
                &&& found is Some
                &&& match found->Some_0 {
                    Ok(entry) => outcome_at(old(dir).items@, at) == Ok::<EntryModel, Seq<char>>(entry@),
                    Err(err) => outcome_at(old(dir).items@, at) == Err::<EntryModel, Seq<char>>(err.message()),
                }
            }
        }),
{
    let items: &'a Vec<DirItem> = dir.items;
    match dir.next() {
        None => None,
        Some(at) => {
            match &items[at].verdict {
                Err(err) => Some(Err(TreeError::Filter(err.duplicate()))),
                Ok(_) => {
                    let more = has_next_sibling(items, at + 1);
                    match &items[at].kind {
                        ItemKind::Unreadable(text) => Some(Err(TreeError::Io(text.clone()))),
                        ItemKind::File => Some(
                            Ok(Entry { path: items[at].path.clone(), has_next_sibling: more, is_directory: false }),
                        ),
                        ItemKind::Dir(_) => Some(
                            Ok(Entry { path: items[at].path.clone(), has_next_sibling: more, is_directory: true }),
                        ),
                    }
                },
            }
        },
    }
}

/// The events still to come from a stack of open directories, the deepest
/// last: what is left of the deepest directory, then `CloseDir` and what is
/// left of its parent, and so on. The directory at the bottom is the root,
/// which is not closed by an event.
pub open spec fn pending<'a>(stack: Seq<FilteredDir<'a>>) -> Seq<EventModel>
    decreases stack.len(),
{
    if stack.len() == 0 {
        Seq::empty()
    } else if stack.len() == 1 {
        stack[0].remaining()
    } else {
        stack.last().remaining() + seq![EventModel::CloseDir] + pending(stack.drop_last())
    }
}

proof fn lemma_pending_push<'a>(stack: Seq<FilteredDir<'a>>, dir: FilteredDir<'a>)
    ensures
        pending(stack.push(dir)) == if stack.len() == 0 {
            dir.remaining()
        } else {
            dir.remaining() + seq![EventModel::CloseDir] + pending(stack)
        },
{
    let grown = stack.push(dir);
    assert(grown.last() == dir);
    assert(grown.drop_last() =~= stack);
    assert(grown.len() == 1 ==> grown[0] == dir);
}

/// A filtered recursive directory iterator.
///
/// The iterator descends the tree depth first: all of a directory's entries
/// follow their parent at once. Entries that the filter excludes are left
/// out together with everything below them.
pub struct TreeIter<'a> {
    pub dir_stack: Vec<FilteredDir<'a>>,
    pub root: String,
}

impl<'a> TreeIter<'a> {
    /// Every open directory has consumed no more than it holds.
    pub open spec fn wf(self) -> bool {
        forall|i: int| 0 <= i < self.dir_stack@.len() ==> (#[trigger] self.dir_stack@[i]).wf()
    }

    /// Number of open directories, the root included.
    pub open spec fn depth(self) -> int {
        self.dir_stack@.len() as int
    }

    /// The events that the iterator has yet to yield.
    pub open spec fn pending(self) -> Seq<EventModel> {
        pending(self.dir_stack@)
    }

    /// Create a new iterator over the entries `items` of the directory `root`.
    pub fn new(root: String, items: &'a Vec<DirItem>) -> (iter: Self)
        ensures
            iter.wf(),
            iter.root == root,
            iter.depth() == 1,
            iter.pending() == events_from(items@, 0),
    {
        let mut dir_stack: Vec<FilteredDir<'a>> = Vec::new();
        dir_stack.push(FilteredDir::new(items));
        TreeIter { dir_stack, root }
    }

    /// The directory the traversal started from.
    pub fn root(&self) -> (root: &str)
        ensures
            root@ == self.root@,
    {
        self.root.as_str()
    }

    /// Yields the next item of the stream: an event, or the failure that
    /// stands in the place of an entry. `None` means that the traversal is
    /// finished; from then on every call returns `None`.
    ///
    /// The item is the first of the pending events and the rest stays
    /// pending. `OpenDir` opens one more directory, `CloseDir` closes one
    /// and never the root, every other item leaves the depth as it is.
    pub fn next(&mut self) -> (item: Option<Result<Event, TreeError>>)
        requires
            old(self).wf(),
        ensures
            final(self).wf(),
            final(self).root == old(self).root,
            match item {
                None => old(self).pending().len() == 0 && final(self).depth() == 0,
                Some(x) => {
                    &&& old(self).pending() == seq![item_model(x)] + final(self).pending()
                    &&& final(self).depth() == old(self).depth() + depth_change(item_model(x))
                    &&& final(self).depth() >= 1
                },
            },
    {
        if self.dir_stack.len() == 0 {
            return None;
        }
        let ghost stack = self.dir_stack@;
        let mut dir = self.dir_stack.pop().unwrap();
        let ghost below = self.dir_stack@;
        let ghost top = dir;
        let items: &'a Vec<DirItem> = dir.items;
        proof {
            assert(stack =~= below.push(top));
            lemma_pending_push(below, top);
            lemma_skip_rejected(items@, dir.pos as int);
            assert(top.wf());
        }
        let found = next_entry(&mut dir);
        match found {
            None => {
                if self.dir_stack.len() == 0 {
                    None
                } else {
                    proof {
                        assert(top.remaining() =~= Seq::<EventModel>::empty());
                        assert(pending(stack) =~= seq![EventModel::CloseDir] + pending(below));
                    }
                    Some(Ok(Event::CloseDir))
                }
            },
            Some(Err(err)) => {
                proof {
                    lemma_pending_push(below, dir);
                    assert(top.remaining() =~= seq![EventModel::Failure(err.message())] + dir.remaining());
                    assert(pending(stack) =~= seq![EventModel::Failure(err.message())] + pending(below.push(dir)));
                }
                self.dir_stack.push(dir);
                Some(Err(err))
            },
            Some(Ok(entry)) => {
                let at: usize = dir.pos - 1;
                match &items[at].kind {
                    ItemKind::Dir(children) => {
                        let child = FilteredDir::new(children);
                        proof {
                            lemma_pending_push(below, dir);
                            lemma_pending_push(below.push(dir), child);
                            assert(top.remaining() =~= seq![EventModel::OpenDir(entry@)]
                                + child.remaining() + seq![EventModel::CloseDir] + dir.remaining());
                            assert(pending(stack) =~= seq![EventModel::OpenDir(entry@)]
                                + pending(below.push(dir).push(child)));
                        }
                        self.dir_stack.push(dir);
                        self.dir_stack.push(child);
                        Some(Ok(Event::OpenDir(entry)))
                    },
                    _ => {
                        proof {
                            lemma_pending_push(below, dir);
                            assert(top.remaining() =~= seq![EventModel::File(entry@)] + dir.remaining());
                            assert(pending(stack) =~= seq![EventModel::File(entry@)] + pending(below.push(dir)));
                        }
                        self.dir_stack.push(dir);
                        Some(Ok(Event::File(entry)))
                    },
                }
            },
        }
    }
}

} // verus!
