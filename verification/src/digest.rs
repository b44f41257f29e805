//! What the digest records for each node: depth, content kind, and the
//! directories ordered deepest first.

use vstd::prelude::*;
use vstd::string::*;
use crate::print::{file_name, file_name_from_path};
use crate::growth::Growth;
use crate::software::Source;

verus! {

/// The payload of a digested node.
#[derive(Debug, Default)]
pub enum DigestedSource {
    DigestedFile { level: usize, mime_type: String },
    DigestedDir { root: String, level: usize, children: Vec<Source<DigestedSource>> },
    #[default]
    Undefined,
}

impl DigestedSource {
    /// Depth of the node; none for an undefined payload.
    pub open spec fn level(self) -> usize {
        match self {
            DigestedSource::DigestedFile { level, .. } => level,
            DigestedSource::DigestedDir { level, .. } => level,
            DigestedSource::Undefined => 0,
        }
    }

    pub fn get_level(&self) -> (level: usize)
        ensures
            level == self.level(),
    {
        match self {
            DigestedSource::DigestedFile { level, .. } => *level,
            DigestedSource::DigestedDir { level, .. } => *level,
            DigestedSource::Undefined => 0,
        }
    }

    /// The content kind of a file; none for anything else.
    pub fn mime_type(&self) -> (kind: Option<&str>)
        ensures
            match *self {
                DigestedSource::DigestedFile { mime_type, .. } => kind matches Some(k) && k@ == mime_type@,
                _ => kind is None,
            },
    {
        match self {
            DigestedSource::DigestedFile { mime_type, .. } => Some(mime_type.as_str()),
            _ => None,
        }
    }
}

/// Number of `/` among the first `n` characters of `path`.
pub open spec fn separators(path: Seq<char>, n: int) -> nat
    decreases n,
{
    if n <= 0 {
        0
    } else if path[n - 1] == '/' {
        separators(path, n - 1) + 1
    } else {
        separators(path, n - 1)
    }
}

/// The level of a path: the number of separators in it, which for an
/// absolute path is its depth below the file system root.
pub open spec fn level_of(path: Seq<char>) -> nat {
    separators(path, path.len() as int)
}

/// Computes the level of `path`.
pub fn path_level(path: &str) -> (level: usize)
    ensures
        level == level_of(path@),
{
    let len: usize = path.unicode_len();
    let mut level: usize = 0;
    let mut i: usize = 0;
    while i < len
        invariant
            len == path@.len(),
            i <= len,
            level == separators(path@, i as int),
            level <= i,
        decreases len - i,
    {
        if path.get_char(i) == '/' {
            level += 1;
        }
        i += 1;
    }
    level
}

/// Position of the last `.` among the first `n` characters of `name`, or
/// -1 if there is none.
pub open spec fn last_dot(name: Seq<char>, n: int) -> int
    decreases n,
{
    if n <= 0 {
        -1
    } else if name[n - 1] == '.' {
        n - 1
    } else {
        last_dot(name, n - 1)
    }
}

/// The extension of a path: what follows the last `.` of its file name,
/// unless the name has no `.` or only starts with one.
pub open spec fn extension_of(path: Seq<char>) -> Option<Seq<char>> {
    let name = file_name(path);
    let dot = last_dot(name, name.len() as int);
    if dot <= 0 {
        None
    } else {
        Some(name.subrange(dot + 1, name.len() as int))
    }
}

/// The kind assumed for a file whose content tells nothing: `text/` and the
/// extension, or `unknown/unknown` without one.
pub open spec fn default_kind_of(path: Seq<char>) -> Seq<char> {
    match extension_of(path) {
        Some(ext) => "text/"@ + ext,
        None => "unknown/unknown"@,
    }
}

/// Computes the default kind of `path`.
pub fn default_kind(path: &str) -> (kind: String)
    ensures
        kind@ == default_kind_of(path@),
{
    let name = file_name_from_path(path);
    let len: usize = name.as_str().unicode_len();
    let mut dot: Option<usize> = None;
    let mut i: usize = 0;
    while i < len
        invariant
            len == name@.len(),
            i <= len,
            match dot {
                Some(d) => d == last_dot(name@, i as int) && d < i,
                None => last_dot(name@, i as int) == -1,
            },
        decreases len - i,
    {
        if name.as_str().get_char(i) == '.' {
            dot = Some(i);
        }
        i += 1;
    }
    match dot {
        Some(d) => {
            if d == 0 {
                String::from_str("unknown/unknown")
            } else {
                let mut kind = String::from_str("text/");
                kind.append(name.as_str().substring_char(d + 1, len));
                kind
            }
        },
        None => String::from_str("unknown/unknown"),
    }
}

/// The MIME type that `infer::get` finds for a buffer, if it knows the
/// content.
pub uninterp spec fn sniffed_mime(head: Seq<u8>) -> Option<Seq<char>>;

/// `infer::get` on the first bytes of a file, with the MIME type of the
/// match as text. The crate compares the buffer with its table of
/// signatures, so the result depends on the bytes alone.
#[verifier::external_body]
fn sniff_mime(head: &Vec<u8>) -> (kind: Option<String>)
    ensures
        match kind {
            Some(k) => sniffed_mime(head@) == Some(k@),
            None => sniffed_mime(head@) is None,
        },
{
    infer::get(head.as_slice()).map(|kind| kind.mime_type().to_string())
}

/// The kind of a file: what its first bytes tell, and the default kind of
/// its path where the file could not be read or its content is not known.
pub open spec fn mime_type_of(path: Seq<char>, head: Option<Seq<u8>>) -> Seq<char> {
    match head {
        Some(bytes) => match sniffed_mime(bytes) {
            Some(kind) => kind,
            None => default_kind_of(path),
        },
        None => default_kind_of(path),
    }
}

/// The kind for a completed sniff of the content.
pub fn kind_or_default(path: &str, sniffed: Option<String>) -> (kind: String)
    ensures
        kind@ == match sniffed {
            Some(k) => k@,
            None => default_kind_of(path@),
        },
{
    match sniffed {
        Some(k) => k,
        None => default_kind(path),
    }
}

/// Computes the payload of the file at `path` from its first bytes, where
/// they could be read.
pub fn digest_file(path: &str, head: Option<&Vec<u8>>) -> (digested: DigestedSource)
    ensures
        digested matches DigestedSource::DigestedFile { level, mime_type }
            && level == level_of(path@)
            && mime_type@ == mime_type_of(path@, match head { Some(bytes) => Some(bytes@), None => None }),
{
    let sniffed = match head {
        Some(bytes) => sniff_mime(bytes),
        None => None,
    };
    DigestedSource::DigestedFile { level: path_level(path), mime_type: kind_or_default(path, sniffed) }
}

/// The kind that was computed for one path.
pub struct CachedKind {
    pub path: String,
    pub level: usize,
    pub mime_type: String,
}

/// Payloads computed so far, by path, so that no path is computed twice.
pub struct PayloadCache {
    pub entries: Vec<CachedKind>,
}

/// The first position at or after `from` that holds `path`, or the number of
/// entries if none does.
pub open spec fn position(entries: Seq<CachedKind>, path: Seq<char>, from: int) -> int
    decreases entries.len() - from,
{
    if from < 0 || from >= entries.len() {
        entries.len() as int
    } else if entries[from].path@ == path {
        from
    } else {
        position(entries, path, from + 1)
    }
}

impl PayloadCache {
    pub fn new() -> (cache: Self)
        ensures
            cache.entries@.len() == 0,
    {
        PayloadCache { entries: Vec::new() }
    }

    /// The payload remembered for `path`, if there is one.
    pub fn lookup(&self, path: &String) -> (found: Option<DigestedSource>)
        ensures
            ({
                let at = position(self.entries@, path@, 0);
                match found {
                    Some(digested) => {
                        &&& at < self.entries@.len()
                        &&& digested is DigestedFile
                        &&& digested->DigestedFile_level == self.entries@[at].level
                        &&& digested->DigestedFile_mime_type@ == self.entries@[at].mime_type@
                    },
                    None => at == self.entries@.len(),
                }
            }),
    {
        let mut i: usize = 0;
        while i < self.entries.len()
            invariant
                i <= self.entries@.len(),
                position(self.entries@, path@, 0) == position(self.entries@, path@, i as int),
            decreases self.entries@.len() - i,
        {
            if self.entries[i].path == *path {
                return Some(
                    DigestedSource::DigestedFile {
                        level: self.entries[i].level,
                        mime_type: self.entries[i].mime_type.clone(),
                    },
                );
            }
            i += 1;
        }
        None
    }

    /// The payload of the file at `path`: the one remembered for the path
    /// if there is one, and otherwise the one computed from `head`, which
    /// is remembered from then on.
    pub fn digest_file(&mut self, path: &String, head: Option<&Vec<u8>>) -> (digested: DigestedSource)
        ensures
            ({
                let at = position(old(self).entries@, path@, 0);
                &&& digested is DigestedFile
                &&& if at < old(self).entries@.len() {
                    &&& final(self).entries@ == old(self).entries@
                    &&& digested->DigestedFile_level == old(self).entries@[at].level
                    &&& digested->DigestedFile_mime_type@ == old(self).entries@[at].mime_type@
                } else {
                    &&& final(self).entries@.len() == old(self).entries@.len() + 1
                    &&& final(self).entries@.drop_last() == old(self).entries@
                    &&& final(self).entries@.last().path@ == path@
                    &&& final(self).entries@.last().level == level_of(path@)
                    &&& final(self).entries@.last().mime_type@ == digested->DigestedFile_mime_type@
                    &&& digested->DigestedFile_level == level_of(path@)
                    &&& digested->DigestedFile_mime_type@ == mime_type_of(
                        path@,
                        match head {
                            Some(bytes) => Some(bytes@),
                            None => None,
                        },
                    )
                }
            }),
    {
        match self.lookup(path) {
            Some(known) => known,
            None => {
                let fresh = digest_file(path.as_str(), head);
                match &fresh {
                    DigestedSource::DigestedFile { level, mime_type } => {
                        self.entries.push(CachedKind { path: path.clone(), level: *level, mime_type: mime_type.clone() });
                        assert(self.entries@.drop_last() =~= old(self).entries@);
                    },
                    _ => {},
                }
                fresh
            },
        }
    }
}

/// The directories among `sources`, each as a digested directory with its
/// level and the children it was walked with.
pub open spec fn dirs_of(sources: Seq<Source<DigestedSource>>) -> Seq<DigestedSource>
    decreases sources.len(),
{
    if sources.len() == 0 {
        Seq::empty()
    } else {
        let rest = dirs_of(sources.drop_last());
        match sources.last() {
            Source::Dir { path, payload: _, children } => rest.push(
                DigestedSource::DigestedDir { root: path, level: level_of(path@) as usize, children },
            ),
            _ => rest,
        }
    }
}

/// The levels never rise along the batch: the deepest directories come
/// first.
pub open spec fn deepest_first(batch: Seq<DigestedSource>) -> bool {
    forall|i: int, j: int| 0 <= i <= j < batch.len() ==> batch[i].level() >= batch[j].level()
}

proof fn lemma_insert_to_multiset(s: Seq<DigestedSource>, at: int, a: DigestedSource)
    requires
        0 <= at <= s.len(),
    ensures
        s.insert(at, a).to_multiset() == s.to_multiset().insert(a),
{
    let t = s.insert(at, a);
    t.to_multiset_ensures();
    assert(t.remove(at) =~= s);
    assert(t[at] == a);
    assert(t.contains(a));
    assert(t.to_multiset() =~= t.to_multiset().remove(a).insert(a));
}

/// Puts `dir` into a batch that is ordered deepest first, in front of the
/// first directory that is not deeper than it.
pub fn insert_by_level(batch: &mut Vec<DigestedSource>, dir: DigestedSource)
    requires
        deepest_first(old(batch)@),
    ensures
        deepest_first(final(batch)@),
        final(batch)@.to_multiset() == old(batch)@.to_multiset().insert(dir),
        final(batch)@.len() == old(batch)@.len() + 1,
{
    let level = dir.get_level();
    let mut at: usize = 0;
    while at < batch.len() && batch[at].get_level() > level
        invariant
            at <= batch@.len(),
            batch@ == old(batch)@,
            forall|k: int| 0 <= k < at ==> batch@[k].level() > level,
        decreases batch@.len() - at,
    {
        at += 1;
    }
    proof {
        lemma_insert_to_multiset(batch@, at as int, dir);
    }
    batch.insert(at, dir);
}

impl Growth {
    /// Turns the nodes of a walk into the batch of its directories, deepest
    /// first. The batch holds exactly the directories of `sources`; the order
    /// among directories of one level is not fixed.
    pub fn traversal_modules(sources: Vec<Source<DigestedSource>>) -> (data: Vec<DigestedSource>)
        ensures
            data@.to_multiset() == dirs_of(sources@).to_multiset(),
            deepest_first(data@),
    {
        let mut rest = sources;
        let mut data: Vec<DigestedSource> = Vec::new();
        proof {
            assert(data@.to_multiset().add(dirs_of(rest@).to_multiset()) =~= dirs_of(sources@).to_multiset()) by {
                data@.to_multiset_ensures();
            }
        }
        while rest.len() > 0
            invariant
                deepest_first(data@),
                data@.to_multiset().add(dirs_of(rest@).to_multiset()) == dirs_of(sources@).to_multiset(),
            decreases rest@.len(),
        {
            let ghost before = rest@;
            let ghost had = data@;
            let source = rest.pop().unwrap();
            assert(rest@ =~= before.drop_last());
            match source {
                Source::Dir { path, payload: _, children } => {
                    let level = path_level(path.as_str());
                    let dir = DigestedSource::DigestedDir { root: path, level, children };
                    proof {
                        dirs_of(rest@).to_multiset_ensures();
                        assert(dirs_of(before) == dirs_of(rest@).push(dir));
                    }
                    insert_by_level(&mut data, dir);
                    assert(data@.to_multiset().add(dirs_of(rest@).to_multiset()) =~= had.to_multiset().add(
                        dirs_of(before).to_multiset(),
                    ));
                },
                Source::File { .. } => {},
            }
        }
        proof {
            assert(dirs_of(rest@) =~= Seq::<DigestedSource>::empty());
            dirs_of(rest@).to_multiset_ensures();
            assert(data@.to_multiset().add(dirs_of(rest@).to_multiset()) =~= data@.to_multiset());
        }
        data
    }
}

/// Where the run of directories that share the level of `batch[from]`
/// ends: all of them can be worked on before any directory of the next
/// level up is started.
pub fn level_run_end(batch: &Vec<DigestedSource>, from: usize) -> (end: usize)
    requires
        from < batch@.len(),
    ensures
        from < end <= batch@.len(),
        forall|k: int| from <= k < end ==> batch@[k].level() == batch@[from as int].level(),
        end < batch@.len() ==> batch@[end as int].level() != batch@[from as int].level(),
{
    let total: usize = batch.len();
    let level = batch[from].get_level();
    let mut end: usize = from + 1;
    while end < batch.len() && batch[end].get_level() == level
        invariant
            from < end <= batch@.len(),
            level == batch@[from as int].level(),
            forall|k: int| from <= k < end ==> batch@[k].level() == level,
        decreases batch@.len() - end,
    {
        end += 1;
    }
    end
}

/// The paths of the files among the first `n` of `children`, in order.
pub open spec fn file_paths(children: Seq<Source<DigestedSource>>, n: int) -> Seq<Seq<char>>
    decreases n,
{
    if n <= 0 {
        Seq::empty()
    } else {
        match children[n - 1] {
            Source::File { path, .. } => file_paths(children, n - 1).push(path@),
            Source::Dir { .. } => file_paths(children, n - 1),
        }
    }
}

/// The texts of `paths`, in order.
pub open spec fn texts(paths: Seq<String>) -> Seq<Seq<char>> {
    Seq::new(paths.len(), |i: int| paths[i]@)
}

/// The files of a digested directory, one unit of work each, in the order
/// the directory was read. Sub-directories are units of their own, and
/// anything but a directory has no files.
pub fn file_tasks(dir: &DigestedSource) -> (paths: Vec<String>)
    ensures
        texts(paths@) == match *dir {
            DigestedSource::DigestedDir { children, .. } => file_paths(children@, children@.len() as int),
            _ => Seq::<Seq<char>>::empty(),
        },
{
    let mut paths: Vec<String> = Vec::new();
    match dir {
        DigestedSource::DigestedDir { children, .. } => {
            let mut i: usize = 0;
            assert(texts(paths@) =~= file_paths(children@, 0));
            while i < children.len()
                invariant
                    i <= children@.len(),
                    texts(paths@) == file_paths(children@, i as int),
                decreases children@.len() - i,
            {
                let ghost had = paths@;
                match &children[i] {
                    Source::File { path, .. } => {
                        paths.push(path.clone());
                        assert(texts(paths@) =~= texts(had).push(path@));
                    },
                    Source::Dir { .. } => {},
                }
                i += 1;
            }
        },
        _ => {
            assert(texts(paths@) =~= Seq::<Seq<char>>::empty());
        },
    }
    paths
}

/// Where the wave of tasks that starts at `from` ends when at most
/// `workers` tasks run at a time: all remaining tasks without a limit, and
/// at least one task whatever the limit.
pub fn wave_end(from: usize, total: usize, workers: Option<usize>) -> (end: usize)
    requires
        from < total,
    ensures
        from < end <= total,
        end == match workers {
            None => total as int,
            Some(width) => {
                let step = if width == 0 { 1 } else { width as int };
                if from + step < total { from + step } else { total as int }
            },
        },
{
    match workers {
        None => total,
        Some(width) => {
            let step: usize = if width == 0 { 1 } else { width };
            if step < total - from {
                from + step
            } else {
                total
            }
        },
    }
}

} // verus!
