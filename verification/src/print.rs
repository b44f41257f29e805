//! Processors that draw the tree in the format of the classic `tree`
//! command line utility.
//!
//! ```text
//! ├── a
//! ├── b
//! │   ├── 1
//! │   └── 2
//! ├── c
//! └── d
//! ```

use vstd::prelude::*;
use vstd::string::*;
use crate::representation::{flags_after, text_of, with_last, TreeProcessor};
use crate::tree::{Entry, EntryModel, EventModel};

verus! {

/// The four characters drawn for level `i` of `flags`: for the last level a
/// branch if a sibling follows and a corner if not, for every level before
/// it a vertical bar if a sibling follows there and blanks if not.
pub open spec fn glyph(flags: Seq<bool>, i: int) -> Seq<char> {
    if i < flags.len() - 1 {
        if flags[i] {
            "│   "@
        } else {
            "    "@
        }
    } else if flags[i] {
        "├── "@
    } else {
        "└── "@
    }
}

/// The glyphs of the first `n` levels.
pub open spec fn indent(flags: Seq<bool>, n: int) -> Seq<char>
    decreases n,
{
    if n <= 0 {
        Seq::empty()
    } else {
        indent(flags, n - 1) + glyph(flags, n - 1)
    }
}

/// One line of the drawing: the glyphs of all levels, the name, a newline.
pub open spec fn line(flags: Seq<bool>, name: Seq<char>) -> Seq<char> {
    indent(flags, flags.len() as int) + name + "\n"@
}

/// Where the last segment of `path[..n]` starts: behind its last `/`, or at
/// the front if it has none.
pub open spec fn name_start(path: Seq<char>, n: int) -> int
    decreases n,
{
    if n <= 0 {
        0
    } else if path[n - 1] == '/' {
        n
    } else {
        name_start(path, n - 1)
    }
}

/// The last segment of a path: what follows its last `/`.
pub open spec fn file_name(path: Seq<char>) -> Seq<char> {
    path.subrange(name_start(path, path.len() as int), path.len() as int)
}

/// The name of the entry at `path`, without the directories before it.
pub fn file_name_from_path(path: &str) -> (name: String)
    ensures
        name@ == file_name(path@),
{
    let len: usize = path.unicode_len();
    let mut start: usize = 0;
    let mut i: usize = 0;
    while i < len
        invariant
            len == path@.len(),
            i <= len,
            start == name_start(path@, i as int),
            start <= i,
        decreases len - i,
    {
        if path.get_char(i) == '/' {
            start = i + 1;
        }
        i += 1;
    }
    String::from_str(path.substring_char(start, len))
}

/// Draws one line for `name` under the given flags.
pub fn tree_line(flags: &Vec<bool>, name: &str) -> (entry: String)
    ensures
        entry@ == line(flags@, name@),
{
    let vertical_line = "│   ";
    let branched_line = "├── ";
    let terminal_line = "└── ";
    let empty_line = "    ";

    let mut entry = String::new();
    let len: usize = flags.len();
    let mut i: usize = 0;
    while i < len
        invariant
            len == flags@.len(),
            i <= len,
            entry@ == indent(flags@, i as int),
            vertical_line@ == "│   "@,
            branched_line@ == "├── "@,
            terminal_line@ == "└── "@,
            empty_line@ == "    "@,
        decreases len - i,
    {
        if i < len - 1 {
            if flags[i] {
                entry.append(vertical_line);
            } else {
                entry.append(empty_line);
            }
        } else if flags[i] {
            entry.append(branched_line);
        } else {
            entry.append(terminal_line);
        }
        i += 1;
    }
    entry.append(name);
    entry.append("\n");
    entry
}

/// The drawing has four characters per level in front of every name.
pub proof fn lemma_indent_len(flags: Seq<bool>, n: int)
    requires
        0 <= n <= flags.len(),
    ensures
        indent(flags, n).len() == 4 * n,
    decreases n,
{
    reveal_strlit("│   ");
    reveal_strlit("    ");
    reveal_strlit("├── ");
    reveal_strlit("└── ");
    if n > 0 {
        lemma_indent_len(flags, n - 1);
    }
}

/// Taking the glyphs and the newline off a line of the drawing gives back
/// the name it was drawn for: four characters per level, then the name.
pub proof fn lemma_line_strips_to_name(flags: Seq<bool>, name: Seq<char>)
    ensures
        line(flags, name).len() == 4 * flags.len() + name.len() + 1,
        line(flags, name).subrange(4 * flags.len() as int, 4 * flags.len() as int + name.len() as int) == name,
        line(flags, name).last() == '\n',
{
    reveal_strlit("\n");
    lemma_indent_len(flags, flags.len() as int);
    let l = line(flags, name);
    assert(l.subrange(4 * flags.len() as int, 4 * flags.len() as int + name.len() as int) =~= name);
}

/// A line of the drawing at the given depth without its glyphs and its
/// newline.
pub open spec fn stripped(drawn: Seq<char>, depth: nat) -> Seq<char> {
    drawn.subrange(4 * depth as int, drawn.len() - 1)
}

/// The names of the entries that `events` mention, in order.
pub open spec fn visited_names(events: Seq<EventModel>) -> Seq<Seq<char>>
    decreases events.len(),
{
    if events.len() == 0 {
        Seq::empty()
    } else {
        let rest = visited_names(events.drop_first());
        match events[0] {
            EventModel::File(entry) => seq![file_name(entry.path)] + rest,
            EventModel::OpenDir(entry) => seq![file_name(entry.path)] + rest,
            _ => rest,
        }
    }
}

/// What is left of the lines that the drawing gives for `events`, starting
/// from `flags`, when each is stripped of its glyphs and its newline.
pub open spec fn stripped_lines(flags: Seq<bool>, events: Seq<EventModel>) -> Seq<Seq<char>>
    decreases events.len(),
{
    if events.len() == 0 {
        Seq::empty()
    } else {
        let rest = stripped_lines(flags_after(flags, events[0]), events.drop_first());
        match events[0] {
            EventModel::File(entry) => seq![
                stripped(text_of::<PrintProcessor>(flags, events[0]), with_last(flags, entry.has_next_sibling).len()),
            ] + rest,
            EventModel::OpenDir(entry) => seq![
                stripped(text_of::<PrintProcessor>(flags, events[0]), with_last(flags, entry.has_next_sibling).len()),
            ] + rest,
            _ => rest,
        }
    }
}

/// The drawing, stripped of its glyphs, gives back the names of the visited
/// entries: one line per entry, in the order of the events, each holding
/// the entry's name behind four characters per level.
pub proof fn lemma_drawing_recovers_names(flags: Seq<bool>, events: Seq<EventModel>)
    ensures
        stripped_lines(flags, events) == visited_names(events),
    decreases events.len(),
{
    if events.len() > 0 {
        lemma_drawing_recovers_names(flags_after(flags, events[0]), events.drop_first());
        match events[0] {
            EventModel::File(entry) => {
                let level = with_last(flags, entry.has_next_sibling);
                lemma_line_strips_to_name(level, file_name(entry.path));
            },
            EventModel::OpenDir(entry) => {
                let level = with_last(flags, entry.has_next_sibling);
                lemma_line_strips_to_name(level, file_name(entry.path));
            },
            _ => {},
        }
    }
}

/// Adds one to a counter that stops at the largest value.
pub fn count_up(n: usize) -> (m: usize)
    ensures
        m == if n < usize::MAX { n + 1 } else { n as int },
{
    if n < usize::MAX {
        n + 1
    } else {
        n
    }
}

/// Replaces the last flag, or adds one if there is none.
pub fn set_last_flag(flags: &mut Vec<bool>, has_next: bool)
    ensures
        final(flags)@ == with_last(old(flags)@, has_next),
{
    flags.pop();
    flags.push(has_next);
}

/// Builder for `PrintProcessor`.
///
/// The root is not part of the drawing; `header` gives the line that stands
/// above it.
pub struct TreeProcessorBuilder {
    pub root: String,
}

impl TreeProcessorBuilder {
    /// Create a new builder.
    pub fn new(root: String) -> (builder: Self)
        ensures
            builder.root == root,
    {
        TreeProcessorBuilder { root }
    }

    /// The line with the root that goes before the drawing.
    pub fn header(&self) -> (text: String)
        ensures
            text@ == self.root@ + "\n"@,
    {
        let mut text = self.root.clone();
        text.append("\n");
        text
    }

    /// Build a `PrintProcessor`, ready for the entries of the root.
    pub fn build(&self) -> (processor: PrintProcessor)
        ensures
            processor.dir_has_next@ == seq![true],
            processor.num_dirs == 0,
            processor.num_files == 0,
    {
        let mut dir_has_next: Vec<bool> = Vec::new();
        dir_has_next.push(true);
        PrintProcessor { dir_has_next, num_dirs: 0, num_files: 0 }
    }
}

/// A `TreeProcessor` for drawing the events in a classic `tree`-like format.
pub struct PrintProcessor {
    pub dir_has_next: Vec<bool>,
    pub num_dirs: usize,
    pub num_files: usize,
}

impl PrintProcessor {
    /// The line for `name` at the current depth.
    pub fn construct_entry(&self, name: &str) -> (entry: String)
        ensures
            entry@ == line(self.dir_has_next@, name@),
    {
        tree_line(&self.dir_has_next, name)
    }
}

impl TreeProcessor for PrintProcessor {
    open spec fn flags(&self) -> Seq<bool> {
        self.dir_has_next@
    }

    open spec fn entry_text(flags: Seq<bool>, entry: EntryModel) -> Seq<char> {
        line(flags, file_name(entry.path))
    }

    fn close_dir(&mut self)
        ensures
            final(self).num_dirs == old(self).num_dirs,
            final(self).num_files == old(self).num_files,
    {
        self.dir_has_next.pop();
    }

    fn construct_dir(&mut self, entry: &Entry) -> (text: String)
        ensures
            final(self).num_dirs == count_up_spec(old(self).num_dirs),
            final(self).num_files == old(self).num_files,
    {
        set_last_flag(&mut self.dir_has_next, entry.has_next_sibling());
        let name = file_name_from_path(entry.path());
        let dir = self.construct_entry(name.as_str());
        self.dir_has_next.push(true);
        self.num_dirs = count_up(self.num_dirs);
        dir
    }

    fn construct_file(&mut self, entry: &Entry) -> (text: String)
        ensures
            final(self).num_files == count_up_spec(old(self).num_files),
            final(self).num_dirs == old(self).num_dirs,
    {
        set_last_flag(&mut self.dir_has_next, entry.has_next_sibling());
        let name = file_name_from_path(entry.path());
        let file = self.construct_entry(name.as_str());
        self.num_files = count_up(self.num_files);
        file
    }
}

/// One more, unless the counter is at its largest value.
pub open spec fn count_up_spec(n: usize) -> usize {
    if n < usize::MAX {
        (n + 1) as usize
    } else {
        n
    }
}

/// The tree drawing used as context for a prompt. It draws as
/// `PrintProcessor` does.
pub struct TreeRepresentation {
    pub dir_has_next: Vec<bool>,
    pub num_dirs: usize,
    pub num_files: usize,
}

impl TreeRepresentation {
    /// A representation ready for the entries of the root.
    pub fn new() -> (fresh: Self)
        ensures
            fresh.dir_has_next@ == seq![true],
            fresh.num_dirs == 0,
            fresh.num_files == 0,
    {
        let mut dir_has_next: Vec<bool> = Vec::new();
        dir_has_next.push(true);
        TreeRepresentation { dir_has_next, num_dirs: 0, num_files: 0 }
    }

    /// The line for `name` at the current depth.
    pub fn construct_entry(&self, name: &str) -> (entry: String)
        ensures
            entry@ == line(self.dir_has_next@, name@),
    {
        tree_line(&self.dir_has_next, name)
    }
}

impl TreeProcessor for TreeRepresentation {
    open spec fn flags(&self) -> Seq<bool> {
        self.dir_has_next@
    }

    open spec fn entry_text(flags: Seq<bool>, entry: EntryModel) -> Seq<char> {
        line(flags, file_name(entry.path))
    }

    fn close_dir(&mut self)
        ensures
            final(self).num_dirs == old(self).num_dirs,
            final(self).num_files == old(self).num_files,
    {
        self.dir_has_next.pop();
    }

    fn construct_dir(&mut self, entry: &Entry) -> (text: String)
        ensures
            final(self).num_dirs == count_up_spec(old(self).num_dirs),
            final(self).num_files == old(self).num_files,
    {
        set_last_flag(&mut self.dir_has_next, entry.has_next_sibling());
        let name = file_name_from_path(entry.path());
        let dir = self.construct_entry(name.as_str());
        self.dir_has_next.push(true);
        self.num_dirs = count_up(self.num_dirs);
        dir
    }

    fn construct_file(&mut self, entry: &Entry) -> (text: String)
        ensures
            final(self).num_files == count_up_spec(old(self).num_files),
            final(self).num_dirs == old(self).num_dirs,
    {
        set_last_flag(&mut self.dir_has_next, entry.has_next_sibling());
        let name = file_name_from_path(entry.path());
        let file = self.construct_entry(name.as_str());
        self.num_files = count_up(self.num_files);
        file
    }
}

} // verus!
