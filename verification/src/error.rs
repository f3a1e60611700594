//! The failures that a synchronisation can end in.

use vstd::prelude::*;

verus! {

/// A failure of the strategy that runs the `git` executable.
#[derive(Debug, PartialEq, Eq)]
pub enum GitCliError {
    /// The executable could not be started; the text is the system's.
    IoError(String),
    /// The command ran and reported failure: its command line, and its exit
    /// code where it had one.
    CommandError(String, Option<i32>),
    /// The destination has no parent folder to create.
    NoParentError(String),
}

/// A failure of the strategy that drives git's plumbing, one kind per stage.
/// The text is what the failing stage reported.
#[derive(Debug, PartialEq, Eq)]
pub enum GixError {
    /// The remote's URL could not be parsed.
    InvalidGitUrl(String),
    /// The clone could not be prepared at the destination.
    CloningError(String),
    /// The fetch of a clone failed.
    CloningFetchError(String),
    /// The checkout of a fresh clone's main worktree failed.
    CheckoutMainWorkTreeError(String),
    /// No repository could be opened at the destination.
    RepositoryMissing(String),
    /// The repository names no remote `origin`.
    RemoteMissing(String),
    /// No connection to the remote could be made.
    ConnectError(String),
    /// The fetch negotiation failed.
    FetchPrepareError(String),
    /// The fetch itself failed.
    FetchError(String),
    /// A ref name was invalid, the ref store was locked, or it rejected the
    /// commit of a transaction.
    RefTransaction(String),
    /// The requested revision is no branch and no tag of the remote, and no
    /// object id.
    RevisionNotFound(String),
    /// The repository has no working directory.
    NoWorkDir,
    /// HEAD could not be read or followed.
    HeadUnreadable(String),
    /// The object store lacks the tree that HEAD leads to.
    TreeMissing(String),
    /// No index could be built from the tree.
    IndexBuild(String),
    /// An entry could not be written to the working directory.
    CheckoutWrite(String),
    /// The index could not be written to disk.
    IndexWrite(String),
    /// The checkout was cancelled before every entry was written.
    Interrupted,
    /// This strategy cannot look up the configuration key.
    ConfigLookupUnsupported(String),
    /// Anything else.
    Other(String),
}

/// A failed synchronisation, with what was asked for.
#[allow(inconsistent_fields)]
#[derive(Debug, PartialEq, Eq)]
pub enum GitError {
    /// A folder could not be created.
    CreateFolder { path: String, source: String },
    /// The executable strategy failed; `msg` names the failing command.
    GitRetrieve { dst: String, url: String, rev: String, source: GitCliError, msg: String },
    /// The plumbing strategy failed at the stage that `source` names.
    Plumbing { dst: String, url: String, rev: String, source: GixError },
}

/// The view of a [`GitCliError`].
pub enum GitCliErrorView {
    IoError(Seq<char>),
    CommandError(Seq<char>, Option<i32>),
    NoParentError(Seq<char>),
}

impl View for GitCliError {
    type V = GitCliErrorView;

    open spec fn view(&self) -> GitCliErrorView {
        match *self {
            GitCliError::IoError(text) => GitCliErrorView::IoError(text@),
            GitCliError::CommandError(command, code) => GitCliErrorView::CommandError(
                command@,
                code,
            ),
            GitCliError::NoParentError(path) => GitCliErrorView::NoParentError(path@),
        }
    }
}

/// The view of a [`GixError`].
pub enum GixErrorView {
    InvalidGitUrl(Seq<char>),
    CloningError(Seq<char>),
    CloningFetchError(Seq<char>),
    CheckoutMainWorkTreeError(Seq<char>),
    RepositoryMissing(Seq<char>),
    RemoteMissing(Seq<char>),
    ConnectError(Seq<char>),
    FetchPrepareError(Seq<char>),
    FetchError(Seq<char>),
    RefTransaction(Seq<char>),
    RevisionNotFound(Seq<char>),
    NoWorkDir,
    HeadUnreadable(Seq<char>),
    TreeMissing(Seq<char>),
    IndexBuild(Seq<char>),
    CheckoutWrite(Seq<char>),
    IndexWrite(Seq<char>),
    Interrupted,
    ConfigLookupUnsupported(Seq<char>),
    Other(Seq<char>),
}

impl View for GixError {
    type V = GixErrorView;

    open spec fn view(&self) -> GixErrorView {
        match *self {
            GixError::InvalidGitUrl(text) => GixErrorView::InvalidGitUrl(text@),
            GixError::CloningError(text) => GixErrorView::CloningError(text@),
            GixError::CloningFetchError(text) => GixErrorView::CloningFetchError(text@),
            GixError::CheckoutMainWorkTreeError(text) => GixErrorView::CheckoutMainWorkTreeError(text@),
            GixError::RepositoryMissing(text) => GixErrorView::RepositoryMissing(text@),
            GixError::RemoteMissing(text) => GixErrorView::RemoteMissing(text@),
            GixError::ConnectError(text) => GixErrorView::ConnectError(text@),
            GixError::FetchPrepareError(text) => GixErrorView::FetchPrepareError(text@),
            GixError::FetchError(text) => GixErrorView::FetchError(text@),
            GixError::RefTransaction(text) => GixErrorView::RefTransaction(text@),
            GixError::RevisionNotFound(text) => GixErrorView::RevisionNotFound(text@),
            GixError::NoWorkDir => GixErrorView::NoWorkDir,
            GixError::HeadUnreadable(text) => GixErrorView::HeadUnreadable(text@),
            GixError::TreeMissing(text) => GixErrorView::TreeMissing(text@),
            GixError::IndexBuild(text) => GixErrorView::IndexBuild(text@),
            GixError::CheckoutWrite(text) => GixErrorView::CheckoutWrite(text@),
            GixError::IndexWrite(text) => GixErrorView::IndexWrite(text@),
            GixError::Interrupted => GixErrorView::Interrupted,
            GixError::ConfigLookupUnsupported(text) => GixErrorView::ConfigLookupUnsupported(text@),
            GixError::Other(text) => GixErrorView::Other(text@),
        }
    }
}

impl GixError {
    /// A failure of the same kind with the same text.
    pub fn duplicate(&self) -> (copy: GixError)
        ensures
            copy@ == self@,
    {
        match self {
            GixError::InvalidGitUrl(text) => GixError::InvalidGitUrl(text.clone()),
            GixError::CloningError(text) => GixError::CloningError(text.clone()),
            GixError::CloningFetchError(text) => GixError::CloningFetchError(text.clone()),
            GixError::CheckoutMainWorkTreeError(text) => GixError::CheckoutMainWorkTreeError(text.clone()),
            GixError::RepositoryMissing(text) => GixError::RepositoryMissing(text.clone()),
            GixError::RemoteMissing(text) => GixError::RemoteMissing(text.clone()),
            GixError::ConnectError(text) => GixError::ConnectError(text.clone()),
            GixError::FetchPrepareError(text) => GixError::FetchPrepareError(text.clone()),
            GixError::FetchError(text) => GixError::FetchError(text.clone()),
            GixError::RefTransaction(text) => GixError::RefTransaction(text.clone()),
            GixError::RevisionNotFound(text) => GixError::RevisionNotFound(text.clone()),
            GixError::NoWorkDir => GixError::NoWorkDir,
            GixError::HeadUnreadable(text) => GixError::HeadUnreadable(text.clone()),
            GixError::TreeMissing(text) => GixError::TreeMissing(text.clone()),
            GixError::IndexBuild(text) => GixError::IndexBuild(text.clone()),
            GixError::CheckoutWrite(text) => GixError::CheckoutWrite(text.clone()),
            GixError::IndexWrite(text) => GixError::IndexWrite(text.clone()),
            GixError::Interrupted => GixError::Interrupted,
            GixError::ConfigLookupUnsupported(text) => GixError::ConfigLookupUnsupported(text.clone()),
            GixError::Other(text) => GixError::Other(text.clone()),
        }
    }
}

/// The view of a [`GitError`].
#[allow(inconsistent_fields)]
pub enum GitErrorView {
    CreateFolder { path: Seq<char>, source: Seq<char> },
    GitRetrieve {
        dst: Seq<char>,
        url: Seq<char>,
        rev: Seq<char>,
        source: GitCliErrorView,
        msg: Seq<char>,
    },
    Plumbing { dst: Seq<char>, url: Seq<char>, rev: Seq<char>, source: GixErrorView },
}

impl View for GitError {
    type V = GitErrorView;

    open spec fn view(&self) -> GitErrorView {
        match *self {
            GitError::CreateFolder { path, source } => GitErrorView::CreateFolder {
                path: path@,
                source: source@,
            },
            GitError::GitRetrieve { dst, url, rev, source, msg } => GitErrorView::GitRetrieve {
                dst: dst@,
                url: url@,
                rev: rev@,
                source: source@,
                msg: msg@,
            },
            GitError::Plumbing { dst, url, rev, source } => GitErrorView::Plumbing {
                dst: dst@,
                url: url@,
                rev: rev@,
                source: source@,
            },
        }
    }
}

} // verus!
