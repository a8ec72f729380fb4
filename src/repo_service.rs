use vstd::prelude::*;

use crate::git_runner::{outcome_of, preamble, Execution, GitRunner, Invocation, PROGRAM};
use crate::text::{trim, trimmed};
use crate::AppError;

verus! {

/// The error of a lookup that succeeded with nothing to say.
pub const NOT_A_REPOSITORY: &'static str = "Not a git repository";

/// The arguments, after the preamble, that ask git for the top level.
pub open spec fn locate_args() -> Seq<Seq<char>> {
    seq!["rev-parse"@, "--show-toplevel"@]
}

/// What opening a repository comes to, given the run of the top-level lookup:
/// the lookup's error as it is; an error where its text trims to nothing;
/// else the trimmed text as the root.
pub open spec fn opened(e: Execution) -> Result<Seq<char>, Seq<char>> {
    match outcome_of(e) {
        Err(m) => Err(m),
        Ok(t) => if trimmed(t).len() == 0 {
            Err(NOT_A_REPOSITORY@)
        } else {
            Ok(trimmed(t))
        },
    }
}

/// A handle result seen as text: the root, or the error's message.
pub open spec fn handle_result(r: Result<RepoService, AppError>) -> Result<Seq<char>, Seq<char>> {
    match r {
        Ok(h) => Ok(h@),
        Err(e) => Err(e@),
    }
}

/// A repository, known by the top-level directory that git reported once.
pub struct RepoService {
    root: String,
}

impl View for RepoService {
    type V = Seq<char>;

    closed spec fn view(&self) -> Seq<char> {
        self.root@
    }
}

impl RepoService {
    /// A handle always has a root.
    pub open spec fn wf(&self) -> bool {
        self@.len() > 0
    }

    /// The run that finds the top level of the repository holding `path`.
    pub fn locate(path: String) -> (r: Invocation)
        ensures
            r.program@ == PROGRAM@,
            r.args.deep_view() == preamble() + locate_args(),
            r.cwd@ == path@,
    {
        let args = vec!["rev-parse".to_owned(), "--show-toplevel".to_owned()];
        assert(args.deep_view() =~= locate_args());
        GitRunner::invocation(args, path)
    }

    /// Opens the repository from the run of `locate`: its failure is the
    /// error; success with blank text is `NOT_A_REPOSITORY`; else the trimmed
    /// text is the root.
    pub fn new(located: Execution) -> (r: Result<Self, AppError>)
        ensures
            handle_result(r) == opened(located),
            r matches Ok(h) ==> h.wf(),
            located.success && located.stdout@.len() == 0 && located.stderr@.len() == 0
                ==> handle_result(r) == Err::<Seq<char>, Seq<char>>(NOT_A_REPOSITORY@),
    {
        let output = GitRunner::outcome(located)?;
        RepoService::with_root(trim(output.as_str()).to_owned())
    }

    /// A handle on the repository whose top level is the already trimmed
    /// `root`; a blank root is `NOT_A_REPOSITORY`.
    pub fn with_root(root: String) -> (r: Result<Self, AppError>)
        ensures
            root@.len() == 0 ==> handle_result(r) == Err::<Seq<char>, Seq<char>>(NOT_A_REPOSITORY@),
            root@.len() > 0 ==> handle_result(r) == Ok::<Seq<char>, Seq<char>>(root@),
            r matches Ok(h) ==> h.wf(),
    {
        if root.as_str().is_empty() {
            return Err(AppError::new(NOT_A_REPOSITORY.to_owned()));
        }
        Ok(Self { root })
    }

    /// The top-level directory of the repository.
    pub fn root(&self) -> (r: String)
        ensures
            r@ == self@,
    {
        self.root.clone()
    }

    /// The run of `git status` at the root.
    pub fn status(&self) -> (r: Invocation)
        ensures
            r.program@ == PROGRAM@,
            r.args.deep_view() == preamble() + seq!["status"@],
            r.cwd@ == self@,
    {
        let args = vec!["status".to_owned()];
        assert(args.deep_view() =~= seq!["status"@]);
        GitRunner::invocation(args, self.root.clone())
    }

    /// The run of `git diff` at the root.
    pub fn diff(&self) -> (r: Invocation)
        ensures
            r.program@ == PROGRAM@,
            r.args.deep_view() == preamble() + seq!["diff"@],
            r.cwd@ == self@,
    {
        let args = vec!["diff".to_owned()];
        assert(args.deep_view() =~= seq!["diff"@]);
        GitRunner::invocation(args, self.root.clone())
    }
}

/// A lookup that succeeds with blank stdout and blank stderr opens no
/// repository: the error is `NOT_A_REPOSITORY`.
pub proof fn lemma_blank_lookup_is_not_a_repository(e: Execution)
    requires
        e.success,
        trimmed(e.stdout@).len() == 0,
        trimmed(e.stderr@).len() == 0,
    ensures
        opened(e) == Err::<Seq<char>, Seq<char>>(NOT_A_REPOSITORY@),
{
}

/// Whatever directory inside the repository the lookup ran in, the root is the
/// top level that git printed, without its trailing newline or other blank.
pub proof fn lemma_root_is_reported_top_level(e: Execution, top: Seq<char>)
    requires
        e.success,
        e.stdout@.len() > 0,
        trimmed(e.stdout@) == top,
        top.len() > 0,
    ensures
        opened(e) == Ok::<Seq<char>, Seq<char>>(top),
{
}

} // verus!
