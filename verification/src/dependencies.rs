//! Dependency provisioning: probing the executable search path for required
//! binaries, cloning git dependencies with progress reporting, and formatting
//! the batch invocation of the external package manager.

use vstd::prelude::*;
use crate::types::{GitDependency, LitDependency};
use git2::build::{CheckoutBuilder, RepoBuilder};
use git2::{ErrorCode, FetchOptions, RemoteCallbacks};
use is_executable::IsExecutable;
use std::path::Path;

verus! {

/// How a git dependency installation failed on the version-control side.
/// `AlreadyExists` is the distinguished "destination already exists" case,
/// which callers treat as already satisfied rather than fatal.
#[derive(Debug)]
pub enum GitFailure {
    /// The destination already exists as a repository.
    AlreadyExists,
    /// Any other failure; the payload is the underlying error's message.
    Other(String),
}

/// A dependency installation error: either the version-control layer failed,
/// or a filesystem step (such as removing the metadata directory) failed.
#[derive(Debug)]
pub enum Error {
    GitError(GitFailure),
    IoError(String),
}

/// What a finished installation attempt means for the overall run.
#[derive(Clone, Copy, Debug, PartialEq, Eq, Structural)]
pub enum InstallDisposition {
    /// The clone succeeded; the dependency is newly materialized.
    Installed,
    /// The destination already existed: treated as success-equivalent.
    AlreadySatisfied,
    /// Any other failure: fatal to the run.
    Fatal,
}

/// One event of the two progress channels a clone reports through: object
/// transfer (objects received, deltas indexed) and checkout (files written).
#[derive(Debug)]
pub enum ProgressEvent {
    Transfer { received: usize, total: usize, indexed_deltas: usize, total_deltas: usize },
    Checkout { path: Option<String>, current: usize, total: usize },
}

/// The rendering phase a progress event belongs to: transfer events report
/// delta resolution once every object has been received.
#[derive(Clone, Copy, Debug, PartialEq, Eq, Structural)]
pub enum Phase {
    Receiving,
    ResolvingDeltas,
    CheckingOut,
}

/// The phase of a progress event.
pub open spec fn phase_spec(ev: ProgressEvent) -> Phase {
    match ev {
        ProgressEvent::Transfer { received, total, .. } => if received == total {
            Phase::ResolvingDeltas
        } else {
            Phase::Receiving
        },
        ProgressEvent::Checkout { .. } => Phase::CheckingOut,
    }
}

/// Which phase a renderer should display the event under.
pub fn phase_of(ev: &ProgressEvent) -> (p: Phase)
    ensures
        p == phase_spec(*ev),
{
    match ev {
        ProgressEvent::Transfer { received, total, .. } => {
            if received == total {
                Phase::ResolvingDeltas
            } else {
                Phase::Receiving
            }
        },
        ProgressEvent::Checkout { .. } => Phase::CheckingOut,
    }
}

pub(crate) fn transfer_event(
    received: usize,
    total: usize,
    indexed_deltas: usize,
    total_deltas: usize,
) -> (e: ProgressEvent)
    ensures
        e == (ProgressEvent::Transfer { received, total, indexed_deltas, total_deltas }),
{
    ProgressEvent::Transfer { received, total, indexed_deltas, total_deltas }
}

pub(crate) fn checkout_event(path: Option<String>, current: usize, total: usize) -> (e:
    ProgressEvent)
    ensures
        e == (ProgressEvent::Checkout { path, current, total }),
{
    ProgressEvent::Checkout { path, current, total }
}

/// Whether a declared version means "take the latest": absent, or the
/// explicit `latest` sentinel.
pub open spec fn is_latest(version: Option<String>) -> bool {
    match version {
        None => true,
        Some(v) => v@ == "latest"@,
    }
}

/// The argument the external package manager receives for one dependency:
/// `author/name ` when the latest version is wanted, else
/// `author/name@version `.
pub open spec fn lit_arg(name: Seq<char>, dep: LitDependency) -> Seq<char> {
    if is_latest(dep.version) {
        dep.author@ + "/"@ + name + " "@
    } else {
        dep.author@ + "/"@ + name + "@"@ + dep.version->0@ + " "@
    }
}

/// An absent version and the explicit `latest` sentinel format the same
/// argument: for every package name and author, a dependency declaring no
/// version and one declaring the version `latest` hand the external package
/// manager identical text.
pub proof fn lemma_latest_default(name: Seq<char>, author: String, latest: String)
    requires
        latest@ == "latest"@,
    ensures
        lit_arg(name, (LitDependency { author, version: None })) == lit_arg(
            name,
            (LitDependency { author, version: Some(latest) }),
        ),
{
}

/// Format the whole lit dependency list, one argument per entry, in order.
pub fn get_lit_install(deps: &Vec<(String, LitDependency)>) -> (r: Vec<String>)
    ensures
        r@.len() == deps@.len(),
        forall|i: int| 0 <= i < deps@.len()
            ==> #[trigger] r@[i]@ == lit_arg(deps@[i].0@, deps@[i].1),
{
    let latest: String = String::from_str("latest");
    let mut strs: Vec<String> = Vec::new();
    let mut i: usize = 0;
    while i < deps.len()
        invariant
            0 <= i <= deps.len(),
            latest@ == "latest"@,
            strs@.len() == i,
            forall|j: int| 0 <= j < i
                ==> #[trigger] strs@[j]@ == lit_arg(deps@[j].0@, deps@[j].1),
        decreases deps.len() - i,
    {
        let name = &deps[i].0;
        let details = &deps[i].1;
        let base: String = details.author.clone().concat("/").concat(name.as_str());
        let arg: String = match &details.version {
            None => base.concat(" "),
            Some(v) => {
                if *v == latest {
                    base.concat(" ")
                } else {
                    base.concat("@").concat(v.as_str()).concat(" ")
                }
            },
        };
        proof {
            assert(arg@ =~= lit_arg(deps@[i as int].0@, deps@[i as int].1));
        }
        strs.push(arg);
        i += 1;
    }
    strs
}

/// The separator of the executable search path list: `:` on POSIX systems,
/// `;` elsewhere.
pub open spec fn sep_of(unix: bool) -> char {
    if unix {
        ':'
    } else {
        ';'
    }
}

/// Splitting a character sequence at a separator, built up one character at a
/// time from the left: the first component holds the components already
/// closed, the second the one still open.
pub open spec fn split_fold(s: Seq<char>, sep: char) -> (Seq<Seq<char>>, Seq<char>)
    decreases s.len(),
{
    if s.len() == 0 {
        (Seq::empty(), Seq::empty())
    } else {
        let p = split_fold(s.drop_last(), sep);
        if s.last() == sep {
            (p.0.push(p.1), Seq::empty())
        } else {
            (p.0, p.1.push(s.last()))
        }
    }
}

/// The components of `s` split at `sep`; the empty sequence has one empty
/// component, as `str::split` has it.
pub open spec fn split_parts(s: Seq<char>, sep: char) -> Seq<Seq<char>> {
    split_fold(s, sep).0.push(split_fold(s, sep).1)
}

/// The path probed for a file in one search directory.
pub open spec fn candidate(dir: Seq<char>, file: Seq<char>) -> Seq<char> {
    dir + "/"@ + file
}

/// Every path at which `file` may stand according to the search path `s`:
/// one candidate per component of `s`.
pub open spec fn candidates_spec(s: Seq<char>, sep: char, file: Seq<char>) -> Seq<Seq<char>> {
    split_parts(s, sep).map_values(|d: Seq<char>| candidate(d, file))
}

/// Split the search path at the platform separator and join each directory
/// with the probed file name.
pub fn candidate_paths(path_env: &String, unix: bool, file: &String) -> (r: Vec<String>)
    ensures
        r@.len() == candidates_spec(path_env@, sep_of(unix), file@).len(),
        forall|i: int| 0 <= i < r@.len()
            ==> #[trigger] r@[i]@ == candidates_spec(path_env@, sep_of(unix), file@)[i],
{
    let sep: char = if unix {
        ':'
    } else {
        ';'
    };
    let s = path_env.as_str();
    let len: usize = s.unicode_len();
    let mut out: Vec<String> = Vec::new();
    let mut cur: String = String::new();
    let mut i: usize = 0;
    while i < len
        invariant
            0 <= i <= len,
            len == path_env@.len(),
            s@ == path_env@,
            sep == sep_of(unix),
            out@.len() == split_fold(path_env@.subrange(0, i as int), sep).0.len(),
            forall|j: int| 0 <= j < out@.len() ==> #[trigger] out@[j]@ == candidate(
                split_fold(path_env@.subrange(0, i as int), sep).0[j],
                file@,
            ),
            cur@ == split_fold(path_env@.subrange(0, i as int), sep).1,
        decreases len - i,
    {
        let ghost prefix = path_env@.subrange(0, i as int);
        let ghost next_prefix = path_env@.subrange(0, i as int + 1);
        proof {
            assert(next_prefix.drop_last() =~= prefix);
            assert(next_prefix.last() == path_env@[i as int]);
        }
        let c: char = s.get_char(i);
        if c == sep {
            out.push(cur.concat("/").concat(file.as_str()));
            cur = String::new();
        } else {
            let piece: &str = s.substring_char(i, i + 1);
            cur.append(piece);
            proof {
                assert(cur@ =~= split_fold(next_prefix, sep).1);
            }
        }
        i += 1;
    }
    proof {
        assert(path_env@.subrange(0, len as int) =~= path_env@);
    }
    out.push(cur.concat("/").concat(file.as_str()));
    out
}

/// Relies on `std::path::Path::exists` and
/// `is_executable::IsExecutable::is_executable`: whether a file exists at
/// this path and carries execute permission. The answer depends on the state
/// of the filesystem, so nothing is promised of it.
#[verifier::external_body]
fn probe_executable(p: &String) -> bool {
    let location = std::path::Path::new(p.as_str());
    location.exists() && location.is_executable()
}

/// Whether any of a list of yes/no answers is a yes.
pub fn any_found(answers: &Vec<bool>) -> (r: bool)
    ensures
        r <==> exists|i: int| 0 <= i < answers@.len() && answers@[i],
{
    let mut i: usize = 0;
    while i < answers.len()
        invariant
            0 <= i <= answers.len(),
            forall|j: int| 0 <= j < i ==> !answers@[j],
        decreases answers.len() - i,
    {
        if answers[i] {
            return true;
        }
        i += 1;
    }
    false
}

/// Whether `file` is resolvable and runnable from some directory of the
/// executable search path. `path_env` is the value of the search-path
/// variable, `None` where it is unset; an unset search path never resolves
/// anything. Which candidate paths are probed is fixed by
/// [`candidate_paths`]; whether each of them is an executable file is the
/// filesystem's answer, of which nothing is promised; the answers are then
/// folded by [`any_found`]: the result is true exactly when some candidate
/// probed as executable.
pub fn is_in_path(path_env: &Option<String>, unix: bool, file: &String) -> (r: bool)
    ensures
        path_env is None ==> r == false,
{
    match path_env {
        None => false,
        Some(p) => {
            let cands: Vec<String> = candidate_paths(p, unix, file);
            let mut answers: Vec<bool> = Vec::new();
            let mut i: usize = 0;
            while i < cands.len()
                decreases cands.len() - i,
            {
                answers.push(probe_executable(&cands[i]));
                i += 1;
            }
            any_found(&answers)
        },
    }
}

/// Where a git dependency is materialized: its declared `path` override if
/// present, else the location key it was declared under.
pub open spec fn target_of(location: Seq<char>, details: GitDependency) -> Seq<char> {
    match details.path {
        Some(p) => p@,
        None => location,
    }
}

/// Relies on `git2::build::RepoBuilder::clone` (with
/// `git2::RemoteCallbacks::transfer_progress` and
/// `git2::build::CheckoutBuilder::progress` wired to the given sink): clones
/// `source` into `target`, reporting transfer and checkout progress
/// synchronously through `print`. The outcome depends on the network and the
/// filesystem, so nothing is promised of it. A failure comes back as plain
/// values: whether `git2::Error::code` is `git2::ErrorCode::Exists` (the
/// destination already exists), and the message of `git2::Error::message`.
#[verifier::external_body]
fn git_clone<F: Fn(ProgressEvent)>(source: &String, target: &String, print: F) -> Result<
    (),
    (bool, String),
> {
    let mut cb = RemoteCallbacks::new();
    cb.transfer_progress(|s| { print(transfer_event(s.received_objects(), s.total_objects(), s.indexed_deltas(), s.total_deltas())); true });
    let mut co = CheckoutBuilder::new();
    co.progress(|p, c, t| print(checkout_event(p.map(|q| q.to_string_lossy().into_owned()), c, t)));
    let mut fo = FetchOptions::new();
    fo.remote_callbacks(cb);
    RepoBuilder::new().fetch_options(fo).with_checkout(co).clone(source.as_str(), Path::new(target.as_str())).map(|_| ()).map_err(|e| (e.code() == ErrorCode::Exists, e.message().to_string()))
}

/// Build the version-control failure from the plain values a failed clone
/// hands back: the "destination already exists" flag selects the
/// distinguished `AlreadyExists` case, and any other failure keeps its
/// message.
pub fn git_failure_of(exists: bool, message: String) -> (f: GitFailure)
    ensures
        exists ==> f is AlreadyExists,
        !exists ==> (f matches GitFailure::Other(m) && m == message),
{
    if exists {
        GitFailure::AlreadyExists
    } else {
        GitFailure::Other(message)
    }
}

/// Clone one git dependency into its target path, reporting progress through
/// `print`. On success the working tree stands at the target path and the
/// returned string names its version-control metadata directory, which the
/// caller removes to leave a plain directory tree; a removal failure is the
/// caller's `Error::IoError`. One clone attempt, no retry; every error this
/// function returns is a `GitError`, built by [`git_failure_of`] from the
/// failure the clone handed back.
pub fn install_git_dep<F: Fn(ProgressEvent)>(
    location: &String,
    details: &GitDependency,
    print: F,
) -> (r: Result<String, Error>)
    ensures
        r matches Ok(metadata) ==> metadata@ == target_of(location@, *details) + "/.git"@,
        r matches Err(e) ==> e is GitError,
{
    let target: String = match &details.path {
        Some(p) => p.clone(),
        None => location.clone(),
    };
    let metadata: String = target.clone().concat("/.git");
    match git_clone(&details.source, &target, print) {
        Ok(_) => Ok(metadata),
        Err((exists, message)) => Err(Error::GitError(git_failure_of(exists, message))),
    }
}

/// Whether a dependency error is the distinguished "destination already
/// exists" case, which the caller treats as already satisfied.
pub fn is_already_installed(e: &Error) -> (r: bool)
    ensures
        r <==> e matches Error::GitError(GitFailure::AlreadyExists),
{
    match e {
        Error::GitError(GitFailure::AlreadyExists) => true,
        _ => false,
    }
}

/// Classify the outcome of one installation attempt: success installs, the
/// "already exists" error is success-equivalent, and every other error is
/// fatal to the run.
pub fn classify_install(r: &Result<String, Error>) -> (d: InstallDisposition)
    ensures
        d is Installed <==> r is Ok,
        d is AlreadySatisfied <==> r matches Err(Error::GitError(GitFailure::AlreadyExists)),
        d is Fatal <==> (r matches Err(e)
            && !(e matches Error::GitError(GitFailure::AlreadyExists))),
{
    match r {
        Ok(_) => InstallDisposition::Installed,
        Err(e) => {
            if is_already_installed(e) {
                InstallDisposition::AlreadySatisfied
            } else {
                InstallDisposition::Fatal
            }
        },
    }
}

} // verus!
