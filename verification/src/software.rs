//! The materialised view of a project: its directories, each with what it
//! holds directly, and a payload per node.

use vstd::prelude::*;
use crate::filters::{FileFilter, FilterError, GitignoreFilter};
use crate::tree::{passes, DirItem, ItemKind};

verus! {

/// A node of the project with a payload that the caller computed for it.
#[derive(Debug)]
pub enum Source<Payload> {
    File { path: String, payload: Payload },
    Dir { path: String, payload: Payload, children: Vec<Source<Payload>> },
}

impl<Payload> Source<Payload> {
    pub open spec fn spec_path(self) -> Seq<char> {
        match self {
            Source::File { path, .. } => path@,
            Source::Dir { path, .. } => path@,
        }
    }

    pub open spec fn spec_payload(self) -> Payload {
        match self {
            Source::File { payload, .. } => payload,
            Source::Dir { payload, .. } => payload,
        }
    }

    /// The node without its payload: its path, whether it is a directory,
    /// and the same for each of its children.
    pub open spec fn shape(self) -> NodeShape {
        match self {
            Source::File { path, .. } => NodeShape { path: path@, is_dir: false, children: Seq::empty() },
            Source::Dir { path, children, .. } => NodeShape {
                path: path@,
                is_dir: true,
                children: Seq::new(children@.len(), |i: int| (children@[i].spec_path(), children@[i] is Dir)),
            },
        }
    }

    pub fn path(&self) -> (path: &str)
        ensures
            path@ == self.spec_path(),
    {
        match self {
            Source::File { path, .. } => path.as_str(),
            Source::Dir { path, .. } => path.as_str(),
        }
    }

    pub fn payload(&self) -> (payload: &Payload)
        ensures
            *payload == self.spec_payload(),
    {
        match self {
            Source::File { payload, .. } => payload,
            Source::Dir { payload, .. } => payload,
        }
    }

    pub fn is_dir(&self) -> (dir: bool)
        ensures
            dir == (self is Dir),
    {
        match self {
            Source::File { .. } => false,
            Source::Dir { .. } => true,
        }
    }
}

/// A node as contracts see it when payloads do not matter.
pub struct NodeShape {
    pub path: Seq<char>,
    pub is_dir: bool,
    pub children: Seq<(Seq<char>, bool)>,
}

/// The entry is listed among the children of its directory: the ignore
/// source includes it and it could be read.
pub open spec fn listed(item: DirItem) -> bool {
    passes(item) && !(item.kind is Unreadable)
}

/// Path and kind of the listed entries among the first `n` of `items`.
pub open spec fn child_entries(items: Seq<DirItem>, n: int) -> Seq<(Seq<char>, bool)>
    decreases n,
{
    if n <= 0 {
        Seq::empty()
    } else if listed(items[n - 1]) {
        child_entries(items, n - 1).push((items[n - 1].path@, items[n - 1].kind is Dir))
    } else {
        child_entries(items, n - 1)
    }
}

/// Number of entries of a directory; none for anything else.
pub open spec fn entry_count(item: DirItem) -> nat {
    match item.kind {
        ItemKind::Dir(children) => children@.len(),
        _ => 0,
    }
}

/// The nodes that a walk from `item` gives: nothing for an entry that is not
/// listed, the file itself for a file, and for a directory the directory
/// with its listed entries, followed by the nodes of each of its listed
/// sub-directories in turn.
pub open spec fn walk_of(item: DirItem) -> Seq<NodeShape>
    decreases item, entry_count(item) + 1,
{
    if !listed(item) {
        Seq::empty()
    } else {
        match item.kind {
            ItemKind::Dir(children) => seq![
                NodeShape {
                    path: item.path@,
                    is_dir: true,
                    children: child_entries(children@, children@.len() as int),
                },
            ] + walk_below(item, children@.len()),
            _ => seq![NodeShape { path: item.path@, is_dir: false, children: Seq::empty() }],
        }
    }
}

/// The nodes of the sub-directories among the first `n` entries of the
/// directory `item`.
pub open spec fn walk_below(item: DirItem, n: nat) -> Seq<NodeShape>
    decreases item, n,
{
    match item.kind {
        ItemKind::Dir(children) => if n == 0 || n > children@.len() {
            Seq::empty()
        } else if children@[n - 1].kind is Dir {
            walk_below(item, (n - 1) as nat) + walk_of(children@[n - 1])
        } else {
            walk_below(item, (n - 1) as nat)
        },
        _ => Seq::empty(),
    }
}

/// The shapes of `sources`, in order.
pub open spec fn shapes<Payload>(sources: Seq<Source<Payload>>) -> Seq<NodeShape> {
    Seq::new(sources.len(), |i: int| sources[i].shape())
}

/// A project rooted at a directory, with the ignore rules of the repository
/// it lies in, if there is one.
pub struct Project {
    pub root_path: String,
    pub repository: Option<GitignoreFilter>,
}

impl Project {
    /// The project at `root_path`. A repository that cannot be found or
    /// opened leaves the project without ignore rules.
    pub fn new(root_path: String) -> (project: Self)
        ensures
            project.root_path == root_path,
    {
        let repository = Self::usable(GitignoreFilter::new(root_path.as_str()));
        Project { root_path, repository }
    }

    /// The ignore rules to use for an attempt to open them.
    pub fn usable(made: Option<Result<GitignoreFilter, FilterError>>) -> (repository: Option<GitignoreFilter>)
        ensures
            repository == match made {
                Some(Ok(filter)) => Some(filter),
                _ => None,
            },
    {
        match made {
            Some(Ok(filter)) => Some(filter),
            _ => None,
        }
    }
}

impl FileFilter for Project {
    /// Without a repository every path is included; with one, whatever its
    /// ignore rules say.
    open spec fn admits(&self, path: Seq<char>, verdict: Result<bool, FilterError>) -> bool {
        match self.repository {
            Some(rules) => rules.admits(path, verdict),
            None => verdict == Ok::<bool, FilterError>(true),
        }
    }

    /// Includes every path when the project has no repository, and asks the
    /// repository's ignore rules otherwise.
    fn filter(&self, path: &str) -> (verdict: Result<bool, FilterError>)
    {
        match &self.repository {
            Some(rules) => rules.filter(path),
            None => Ok(true),
        }
    }
}

/// Path and kind of each of `kids`, in order.
pub open spec fn entries_of<Payload>(kids: Seq<Source<Payload>>) -> Seq<(Seq<char>, bool)> {
    Seq::new(kids.len(), |i: int| (kids[i].spec_path(), kids[i] is Dir))
}

/// The payload of `source` is one that `builder` gives for its path and
/// kind, and a directory listed as a child has no children of its own.
pub open spec fn child_built<Payload, B: Fn(&String, bool) -> Payload>(source: Source<Payload>, builder: B) -> bool {
    match source {
        Source::File { path, payload } => builder.ensures((&path, false), payload),
        Source::Dir { path, payload, children } => builder.ensures((&path, true), payload)
            && children@.len() == 0,
    }
}

/// The payloads of `source` and of its children are those that `builder`
/// gives for their paths and kinds.
pub open spec fn built<Payload, B: Fn(&String, bool) -> Payload>(source: Source<Payload>, builder: B) -> bool {
    match source {
        Source::File { path, payload } => builder.ensures((&path, false), payload),
        Source::Dir { path, payload, children } => builder.ensures((&path, true), payload)
            && forall|i: int| 0 <= i < children@.len() ==> child_built(#[trigger] children@[i], builder),
    }
}

fn walk<Payload, B: Fn(&String, bool) -> Payload>(item: &DirItem, builder: &B, out: &mut Vec<Source<Payload>>)
    requires
        forall|path: &String, is_dir: bool| builder.requires((path, is_dir)),
    ensures
        final(out)@.len() >= old(out)@.len(),
        final(out)@.subrange(0, old(out)@.len() as int) == old(out)@,
        shapes(final(out)@) == shapes(old(out)@) + walk_of(*item),
        forall|i: int| old(out)@.len() <= i < final(out)@.len() ==> built(#[trigger] final(out)@[i], *builder),
    decreases item,
{
    let ghost before = out@;
    assert(out@.subrange(0, before.len() as int) =~= before);
    assert(shapes(before) + Seq::<NodeShape>::empty() =~= shapes(before));
    let included = match &item.verdict {
        Ok(b) => *b,
        Err(_) => false,
    };
    if !included {
        return;
    }
    match &item.kind {
        ItemKind::Unreadable(_) => {},
        ItemKind::File => {
            let path = item.path.clone();
            let payload = builder(&path, false);
            out.push(Source::File { path, payload });
            assert(out@.subrange(0, before.len() as int) =~= before);
            assert(shapes(out@) =~= shapes(before) + walk_of(*item));
        },
        ItemKind::Dir(children) => {
            let mut kids: Vec<Source<Payload>> = Vec::new();
            let mut i: usize = 0;
            while i < children.len()
                invariant
                    i <= children@.len(),
                    forall|path: &String, is_dir: bool| builder.requires((path, is_dir)),
                    entries_of(kids@) == child_entries(children@, i as int),
                    forall|k: int| 0 <= k < kids@.len() ==> child_built(#[trigger] kids@[k], *builder),
                decreases children@.len() - i,
            {
                let child = &children[i];
                let ghost kids_before = kids@;
                let child_included = match &child.verdict {
                    Ok(b) => *b,
                    Err(_) => false,
                };
                if child_included {
                    match &child.kind {
                        ItemKind::Unreadable(_) => {},
                        ItemKind::File => {
                            let path = child.path.clone();
                            let payload = builder(&path, false);
                            kids.push(Source::File { path, payload });
                            assert(entries_of(kids@) =~= entries_of(kids_before).push((child.path@, false)));
                        },
                        ItemKind::Dir(_) => {
                            let path = child.path.clone();
                            let payload = builder(&path, true);
                            kids.push(Source::Dir { path, payload, children: Vec::new() });
                            assert(entries_of(kids@) =~= entries_of(kids_before).push((child.path@, true)));
                        },
                    }
                }
                i += 1;
            }
            let path = item.path.clone();
            let payload = builder(&path, true);
            let dir = Source::Dir { path, payload, children: kids };
            let ghost dir_shape = dir.shape();
            assert(dir_shape.children =~= child_entries(children@, children@.len() as int));
            assert(built(dir, *builder));
            out.push(dir);
            assert(shapes(out@) =~= shapes(before) + seq![dir_shape]);
            let mut j: usize = 0;
            while j < children.len()
                invariant
                    j <= children@.len(),
                    item.kind == ItemKind::Dir(*children),
                    forall|path: &String, is_dir: bool| builder.requires((path, is_dir)),
                    out@.len() > before.len(),
                    out@.subrange(0, before.len() as int) == before,
                    shapes(out@) == shapes(before) + seq![dir_shape] + walk_below(*item, j as nat),
                    forall|k: int| before.len() <= k < out@.len() ==> built(#[trigger] out@[k], *builder),
                decreases children@.len() - j,
            {
                let ghost mid = out@;
                match &children[j].kind {
                    ItemKind::Dir(_) => {
                        walk(&children[j], builder, out);
                        proof {
                            assert(out@.subrange(0, before.len() as int) =~= mid.subrange(0, before.len() as int)) by {
                                assert(mid =~= out@.subrange(0, mid.len() as int));
                            }
                            assert(shapes(out@) =~= shapes(before) + seq![dir_shape] + walk_below(*item, (j + 1) as nat));
                            assert forall|k: int| before.len() <= k < out@.len() implies built(#[trigger] out@[k], *builder) by {
                                if k < mid.len() {
                                    assert(out@[k] == out@.subrange(0, mid.len() as int)[k]);
                                }
                            }
                        }
                    },
                    _ => {},
                }
                j += 1;
            }
        },
    }
}

impl Project {
    /// Walks the tree under `root` and gives every directory, with the
    /// entries it holds directly, and a payload from `builder` for each
    /// node. Entries that the ignore source excludes, or failed on, and
    /// entries that could not be read are left out with all that lies below
    /// them. A directory listed among the children of another carries no
    /// children there; it comes again as a node of its own.
    pub fn calculate_source<Payload, B: Fn(&String, bool) -> Payload>(&self, root: &DirItem, builder: &B) -> (sources: Vec<Source<Payload>>)
        requires
            forall|path: &String, is_dir: bool| builder.requires((path, is_dir)),
        ensures
            shapes(sources@) == walk_of(*root),
            forall|i: int| 0 <= i < sources@.len() ==> built(#[trigger] sources@[i], *builder),
    {
        let mut out: Vec<Source<Payload>> = Vec::new();
        walk(root, builder, &mut out);
        assert(shapes(Seq::<Source<Payload>>::empty()) + walk_of(*root) =~= walk_of(*root));
        out
    }
}

} // verus!
