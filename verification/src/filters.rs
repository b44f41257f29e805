//! File filters and abstractions for combining them.

use vstd::prelude::*;

verus! {

/// The reason a filter could not decide on a path.
#[derive(Debug)]
pub struct FilterError {
    pub message: String,
}

impl FilterError {
    pub fn new(message: String) -> (err: FilterError)
        ensures
            err.message@ == message@,
    {
        FilterError { message }
    }

    /// The message as text.
    pub fn to_text(&self) -> (text: String)
        ensures
            text@ == self.message@,
    {
        self.message.clone()
    }

    /// A second error with the same message.
    pub fn duplicate(&self) -> (same: FilterError)
        ensures
            same.message@ == self.message@,
    {
        FilterError { message: self.message.clone() }
    }
}

/// A filter used to decide whether to include a path in a collection.
///
/// `Ok(true)` means the path should be included, `Ok(false)` that it should
/// be left out. The answer may depend on anything the implementor consults;
/// `admits` says which answers the filter may give for a path, and a filter
/// that promises nothing admits them all.
pub trait FileFilter {
    /// Whether `verdict` is an answer that this filter may give for `path`.
    spec fn admits(&self, path: Seq<char>, verdict: Result<bool, FilterError>) -> bool;

    fn filter(&self, path: &str) -> (verdict: Result<bool, FilterError>)
        ensures
            self.admits(path@, verdict),
    ;
}

/// A filter given by a function from the path to the verdict.
pub struct FnFilter<F: Fn(&str) -> Result<bool, FilterError>> {
    f: F,
}

impl<F: Fn(&str) -> Result<bool, FilterError>> FnFilter<F> {
    #[verifier::type_invariant]
    spec fn callable(self) -> bool {
        forall|path: &str| self.f.requires((path,))
    }

    /// The function that decides.
    pub closed spec fn function(self) -> F {
        self.f
    }

    /// The filter that answers as `f` does. `f` must accept every path.
    pub fn new(f: F) -> (filter: Self)
        requires
            forall|path: &str| f.requires((path,)),
        ensures
            filter.function() == f,
    {
        FnFilter { f }
    }
}

impl<F: Fn(&str) -> Result<bool, FilterError>> FileFilter for FnFilter<F> {
    /// The verdicts that the function may return for the path.
    open spec fn admits(&self, path: Seq<char>, verdict: Result<bool, FilterError>) -> bool {
        exists|p: &str| p@ == path && self.function().ensures((p,), verdict)
    }

    fn filter(&self, path: &str) -> (verdict: Result<bool, FilterError>)
    {
        proof {
            use_type_invariant(self);
        }
        (self.f)(path)
    }
}

/// What one member's verdict means for the aggregate: `None` while the path
/// is still acceptable, otherwise the verdict that ends the evaluation.
pub open spec fn settled(verdict: Result<bool, FilterError>) -> Option<Result<bool, FilterError>> {
    match verdict {
        Ok(true) => None,
        _ => Some(verdict),
    }
}

/// A collection of filters acting as one: a path is included only if every
/// member includes it. Members are asked in the order they were added and the
/// first one that rejects the path, or fails, ends the evaluation.
pub struct FilterAggregate<F: FileFilter> {
    pub filters: Vec<F>,
}

impl<F: FileFilter> FilterAggregate<F> {
    /// An aggregate without members, which includes every path.
    pub fn new() -> (agg: Self)
        ensures
            agg.filters@.len() == 0,
    {
        FilterAggregate { filters: Vec::new() }
    }

    /// Add a filter to the collection, after those already there.
    pub fn push(&mut self, filter: F)
        ensures
            final(self).filters@ == old(self).filters@.push(filter),
    {
        self.filters.push(filter);
    }

    /// Number of member filters.
    pub fn len(&self) -> (n: usize)
        ensures
            n == self.filters@.len(),
    {
        self.filters.len()
    }

    /// Decides whether one member's verdict ends the evaluation.
    pub fn settles(verdict: Result<bool, FilterError>) -> (end: Option<Result<bool, FilterError>>)
        ensures
            end == settled(verdict),
    {
        match verdict {
            Ok(true) => None,
            Ok(false) => Some(Ok(false)),
            Err(err) => Some(Err(err)),
        }
    }
}

impl<F: FileFilter> Default for FilterAggregate<F> {
    fn default() -> (agg: Self)
        ensures
            agg.filters@.len() == 0,
    {
        FilterAggregate { filters: Vec::new() }
    }
}

impl<F: FileFilter> FileFilter for FilterAggregate<F> {
    /// The aggregate includes a path only if every member may include it;
    /// any other verdict is that of a member before which every member may
    /// include the path.
    open spec fn admits(&self, path: Seq<char>, verdict: Result<bool, FilterError>) -> bool {
        if verdict == Ok::<bool, FilterError>(true) {
            forall|i: int| 0 <= i < self.filters@.len() ==> (#[trigger] self.filters@[i]).admits(path, verdict)
        } else {
            exists|i: int|
                0 <= i < self.filters@.len() && (#[trigger] self.filters@[i]).admits(path, verdict) && forall|j: int|
                    0 <= j < i ==> (#[trigger] self.filters@[j]).admits(path, Ok::<bool, FilterError>(true))
        }
    }

    /// Asks the members in order and stops at the first that does not
    /// include the path. With no members the path is included.
    fn filter(&self, path: &str) -> (verdict: Result<bool, FilterError>)
        ensures
            self.filters@.len() == 0 ==> verdict == Ok::<bool, FilterError>(true),
    {
        let mut i: usize = 0;
        while i < self.filters.len()
            invariant
                i <= self.filters@.len(),
                forall|j: int| 0 <= j < i ==> (#[trigger] self.filters@[j]).admits(path@, Ok::<bool, FilterError>(true)),
            decreases self.filters@.len() - i,
        {
            let verdict = self.filters[i].filter(path);
            match Self::settles(verdict) {
                Some(end) => {
                    assert(self.filters@[i as int].admits(path@, end));
                    return end;
                },
                None => {},
            }
            i += 1;
        }
        Ok(true)
    }
}

/// Two filters of different kinds acting as one: a path is included only
/// if both include it, and the second is asked only if the first does.
pub struct Both<A: FileFilter, B: FileFilter> {
    pub first: A,
    pub second: B,
}

impl<A: FileFilter, B: FileFilter> FileFilter for Both<A, B> {
    /// Inclusion needs both filters; any other verdict is that of the
    /// first filter, or that of the second where the first may include the
    /// path.
    open spec fn admits(&self, path: Seq<char>, verdict: Result<bool, FilterError>) -> bool {
        if verdict == Ok::<bool, FilterError>(true) {
            self.first.admits(path, verdict) && self.second.admits(path, verdict)
        } else {
            self.first.admits(path, verdict) || (self.first.admits(path, Ok::<bool, FilterError>(true))
                && self.second.admits(path, verdict))
        }
    }

    fn filter(&self, path: &str) -> (verdict: Result<bool, FilterError>)
    {
        match self.first.filter(path) {
            Ok(true) => self.second.filter(path),
            other => other,
        }
    }
}

#[verifier::external_type_specification]
#[verifier::external_body]
pub struct ExRepository(git2::Repository);

#[verifier::external_type_specification]
#[verifier::external_body]
pub struct ExGitError(git2::Error);

/// `git2::Repository::discover`: looks for a repository at or above `path`.
/// What it finds depends on the disk, so nothing is claimed of the result.
#[verifier::external_body]
fn discover_repository(path: &str) -> (found: Result<git2::Repository, git2::Error>)
{
    git2::Repository::discover(path)
}

/// `git2::Error::code`, compared with `ErrorCode::NotFound`.
#[verifier::external_body]
fn is_not_found(err: &git2::Error) -> (not_found: bool)
{
    err.code() == git2::ErrorCode::NotFound
}

/// `git2::Error::message`, copied into a `String`.
#[verifier::external_body]
fn error_message(err: &git2::Error) -> (message: String)
{
    err.message().to_string()
}

/// `git2::Repository::status_should_ignore`: whether the repository's ignore
/// rules apply to `path`. The rules are read from disk, so nothing is
/// claimed of the result.
#[verifier::external_body]
fn should_ignore(repo: &git2::Repository, path: &str) -> (ignored: Result<bool, git2::Error>)
{
    repo.status_should_ignore(std::path::Path::new(path))
}

/// Why no repository could be opened.
pub struct DiscoverFailure {
    /// No repository exists at or above the path.
    pub not_found: bool,
    pub message: String,
}

/// Excludes the paths that a repository's ignore rules cover.
pub struct GitignoreFilter {
    pub repo: git2::Repository,
}

/// Turns "is ignored" into "should be included".
pub open spec fn included_when(ignored: bool) -> bool {
    !ignored
}

impl GitignoreFilter {
    /// Create a new filter for the repository found at or above `path`.
    ///
    /// Returns `None` when there is no repository, so that callers may go on
    /// without this filter, and `Some(Err(..))` when the search itself failed.
    pub fn new(path: &str) -> (made: Option<Result<GitignoreFilter, FilterError>>)
    {
        match discover_repository(path) {
            Ok(repo) => Self::from_discovery(Ok(repo)),
            Err(err) => {
                let failure = DiscoverFailure {
                    not_found: is_not_found(&err),
                    message: error_message(&err),
                };
                Self::from_discovery(Err(failure))
            },
        }
    }

    /// The filter for an already completed search: a repository gives a
    /// filter, a missing repository gives `None`, any other failure is an
    /// error that carries the failure's message.
    pub fn from_discovery(found: Result<git2::Repository, DiscoverFailure>) -> (made: Option<Result<GitignoreFilter, FilterError>>)
        ensures
            match found {
                Ok(repo) => made matches Some(Ok(f)) && f.repo == repo,
                Err(failure) => if failure.not_found {
                    made is None
                } else {
                    made matches Some(Err(e)) && e.message@ == failure.message@
                },
            },
    {
        match found {
            Ok(repo) => Some(Ok(GitignoreFilter { repo })),
            Err(failure) => {
                if failure.not_found {
                    None
                } else {
                    Some(Err(FilterError { message: failure.message }))
                }
            },
        }
    }

    /// The verdict for a completed ignore query: an ignored path is left
    /// out, any other path is included, and a failed query is an error with
    /// the same message.
    pub fn verdict_of(ignored: Result<bool, String>) -> (verdict: Result<bool, FilterError>)
        ensures
            match ignored {
                Ok(b) => verdict == Ok::<bool, FilterError>(included_when(b)),
                Err(m) => verdict matches Err(e) && e.message@ == m@,
            },
    {
        match ignored {
            Ok(b) => Ok(!b),
            Err(m) => Err(FilterError { message: m }),
        }
    }
}

impl FileFilter for GitignoreFilter {
    /// The ignore rules are read from disk when the filter is asked, so
    /// every verdict is possible.
    open spec fn admits(&self, path: Seq<char>, verdict: Result<bool, FilterError>) -> bool {
        true
    }

    /// Asks the repository whether `path` is ignored and inverts the answer.
    /// The path is handed to the repository as it is; relative paths of the
    /// form `./name` are not understood by it, so callers pass canonical
    /// paths.
    fn filter(&self, path: &str) -> (verdict: Result<bool, FilterError>)
    {
        match should_ignore(&self.repo, path) {
            Ok(ignored) => Self::verdict_of(Ok(ignored)),
            Err(err) => Self::verdict_of(Err(error_message(&err))),
        }
    }
}

} // verus!
