//! A processor that reports every entry to a visitor.

use vstd::prelude::*;
use vstd::string::*;
use crate::print::{count_up, count_up_spec, set_last_flag};
use crate::representation::TreeProcessor;
use crate::tree::{Entry, EntryModel};

verus! {

/// Receives every entry that a `TreeFileWalker` comes across.
pub trait TreeVisitor {
    fn visit(&self, path: &str, is_dir: bool);
}

/// Walks the events, hands each entry to its visitor, and gives the path of
/// the entry as its text.
pub struct TreeFileWalker<V: TreeVisitor> {
    pub dir_has_next: Vec<bool>,
    pub num_dirs: usize,
    pub num_files: usize,
    pub visitor: V,
}

impl<V: TreeVisitor> TreeFileWalker<V> {
    /// A walker ready for the entries of the root.
    pub fn new(visitor: V) -> (walker: Self)
        ensures
            walker.dir_has_next@ == seq![true],
            walker.num_dirs == 0,
            walker.num_files == 0,
            walker.visitor == visitor,
    {
        let mut dir_has_next: Vec<bool> = Vec::new();
        dir_has_next.push(true);
        TreeFileWalker { dir_has_next, num_dirs: 0, num_files: 0, visitor }
    }
}

impl<V: TreeVisitor> TreeProcessor for TreeFileWalker<V> {
    open spec fn flags(&self) -> Seq<bool> {
        self.dir_has_next@
    }

    open spec fn entry_text(flags: Seq<bool>, entry: EntryModel) -> Seq<char> {
        entry.path
    }

    fn close_dir(&mut self)
        ensures
            final(self).num_dirs == old(self).num_dirs,
            final(self).num_files == old(self).num_files,
    {
        self.dir_has_next.pop();
    }

    fn construct_dir(&mut self, entry: &Entry) -> (text: String)
        ensures
            final(self).num_dirs == count_up_spec(old(self).num_dirs),
            final(self).num_files == old(self).num_files,
    {
        set_last_flag(&mut self.dir_has_next, entry.has_next_sibling());
        self.dir_has_next.push(true);
        self.num_dirs = count_up(self.num_dirs);
        self.visitor.visit(entry.path(), true);
        String::from_str(entry.path())
    }

    fn construct_file(&mut self, entry: &Entry) -> (text: String)
        ensures
            final(self).num_files == count_up_spec(old(self).num_files),
            final(self).num_dirs == old(self).num_dirs,
    {
        set_last_flag(&mut self.dir_has_next, entry.has_next_sibling());
        self.num_files = count_up(self.num_files);
        self.visitor.visit(entry.path(), false);
        String::from_str(entry.path())
    }
}

} // verus!
