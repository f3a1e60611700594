//! Synchronising by driving git's plumbing: fetch, ref transaction,
//! checkout.
//!
//! The library decides which stage comes next and what is written to the
//! ref store; its caller talks to the remote and to the disk and reports
//! back. Each stage fails in a kind of its own, and a failure ends the
//! synchronisation: no later stage is asked for.

use vstd::prelude::*;
use crate::destination::{Destination, DestinationView};
use crate::error::{GitError, GitErrorView, GixError, GixErrorView};
use crate::edits::{resolve, resync_keeps_refs, RefStore};
use crate::head::{commit, planned_update, remote_head, target_rejection, update_head};
use crate::head::{HeadUpdate, HeadUpdateView};
use crate::refs::{refs_view, RemoteRef, RemoteRefView};
use crate::revision::{head_leads_to_revision, wanted};
use crate::revision::{planned_rewire, rewire_head, tracking_rejection, RewireFailure};
use crate::text::join;

verus! {

/// A stage of a synchronisation, for the caller to carry out.
#[derive(Debug, PartialEq, Eq)]
pub enum Action {
    /// Create the folder at `path`, and every missing folder above it.
    CreateFolder { path: String },
    /// Open the repository at `path`.
    OpenRepository { path: String },
    /// Find the repository's remote of this name.
    FindRemote { name: String },
    /// Connect to the remote, to fetch from it.
    Connect,
    /// Negotiate the fetch with the default options; `packed_refs_only`
    /// says whether the fetched references go to the packed refs alone.
    PrepareFetch { packed_refs_only: bool },
    /// Fetch, and report the references that the remote advertised.
    Receive,
    /// Commit this update to the ref store.
    WriteHead(HeadUpdate),
    /// Check out the tree that HEAD leads to.
    Checkout,
    /// Parse the URL of the remote.
    ParseUrl { url: String },
    /// Prepare a clone of the repository at `url` in the folder `path`.
    PrepareClone { url: String, path: String },
    /// Fetch into the prepared clone, and report the references that the
    /// remote advertised.
    FetchThenCheckout,
    /// Check out the main worktree of the fresh clone.
    MainWorktree,
}

/// The view of an [`Action`].
#[allow(inconsistent_fields)]
pub enum ActionView {
    CreateFolder { path: Seq<char> },
    OpenRepository { path: Seq<char> },
    FindRemote { name: Seq<char> },
    Connect,
    PrepareFetch { packed_refs_only: bool },
    Receive,
    WriteHead(HeadUpdateView),
    Checkout,
    ParseUrl { url: Seq<char> },
    PrepareClone { url: Seq<char>, path: Seq<char> },
    FetchThenCheckout,
    MainWorktree,
}

impl View for Action {
    type V = ActionView;

    open spec fn view(&self) -> ActionView {
        match *self {
            Action::CreateFolder { path } => ActionView::CreateFolder { path: path@ },
            Action::OpenRepository { path } => ActionView::OpenRepository { path: path@ },
            Action::FindRemote { name } => ActionView::FindRemote { name: name@ },
            Action::Connect => ActionView::Connect,
            Action::PrepareFetch { packed_refs_only } => ActionView::PrepareFetch {
                packed_refs_only,
            },
            Action::Receive => ActionView::Receive,
            Action::WriteHead(update) => ActionView::WriteHead(update@),
            Action::Checkout => ActionView::Checkout,
            Action::ParseUrl { url } => ActionView::ParseUrl { url: url@ },
            Action::PrepareClone { url, path } => ActionView::PrepareClone {
                url: url@,
                path: path@,
            },
            Action::FetchThenCheckout => ActionView::FetchThenCheckout,
            Action::MainWorktree => ActionView::MainWorktree,
        }
    }
}

/// What the caller reports of a stage.
#[derive(Debug, PartialEq, Eq)]
pub enum Reply {
    /// It is done.
    Done,
    /// It is done, and the remote advertised these references.
    Refs(Vec<RemoteRef>),
    /// It failed; the text says why.
    Failed(String),
    /// It failed in a kind of its own.
    Refused(GixError),
}

/// The view of a [`Reply`].
pub enum ReplyView {
    Done,
    Refs(Seq<RemoteRefView>),
    Failed(Seq<char>),
    Refused(GixErrorView),
}

impl View for Reply {
    type V = ReplyView;

    open spec fn view(&self) -> ReplyView {
        match *self {
            Reply::Done => ReplyView::Done,
            Reply::Refs(refs) => ReplyView::Refs(refs_view(refs@)),
            Reply::Failed(text) => ReplyView::Failed(text@),
            Reply::Refused(error) => ReplyView::Refused(error@),
        }
    }
}

/// The views of a list of replies, in the order of the list.
pub open spec fn replies_view(replies: Seq<Reply>) -> Seq<ReplyView> {
    Seq::new(replies.len(), |i: int| replies[i]@)
}

/// What comes next in a fetch or a clone.
#[derive(Debug, PartialEq, Eq)]
pub enum Step {
    /// This stage, whose reply is to be reported.
    Do(Action),
    /// Nothing: it has succeeded.
    Done,
    /// Nothing: it has failed.
    Failed(GixError),
}

/// The view of a [`Step`].
pub enum StepView {
    Do(ActionView),
    Done,
    Failed(GixErrorView),
}

impl View for Step {
    type V = StepView;

    open spec fn view(&self) -> StepView {
        match *self {
            Step::Do(action) => StepView::Do(action@),
            Step::Done => StepView::Done,
            Step::Failed(error) => StepView::Failed(error@),
        }
    }
}

/// What comes next in a synchronisation.
#[derive(Debug, PartialEq, Eq)]
pub enum RetrieveStep {
    /// This stage, whose reply is to be reported.
    Do(Action),
    /// Nothing: the synchronisation has succeeded.
    Done,
    /// Nothing: the synchronisation has failed.
    Failed(GitError),
}

/// The view of a [`RetrieveStep`].
pub enum RetrieveStepView {
    Do(ActionView),
    Done,
    Failed(GitErrorView),
}

impl View for RetrieveStep {
    type V = RetrieveStepView;

    open spec fn view(&self) -> RetrieveStepView {
        match *self {
            RetrieveStep::Do(action) => RetrieveStepView::Do(action@),
            RetrieveStep::Done => RetrieveStepView::Done,
            RetrieveStep::Failed(error) => RetrieveStepView::Failed(error@),
        }
    }
}

/// The stages that can fail, each with a kind of failure of its own.
#[derive(Debug, Clone, Copy, PartialEq, Eq, Structural)]
pub enum Stage {
    OpenRepository,
    FindRemote,
    Connect,
    PrepareFetch,
    Receive,
    WriteHead,
    Checkout,
    ParseUrl,
    PrepareClone,
    FetchThenCheckout,
    MainWorktree,
}

/// The failure of the stage `stage`, with the text `text`.
pub open spec fn stage_error(stage: Stage, text: Seq<char>) -> GixErrorView {
    match stage {
        Stage::OpenRepository => GixErrorView::RepositoryMissing(text),
        Stage::FindRemote => GixErrorView::RemoteMissing(text),
        Stage::Connect => GixErrorView::ConnectError(text),
        Stage::PrepareFetch => GixErrorView::FetchPrepareError(text),
        Stage::Receive => GixErrorView::FetchError(text),
        Stage::WriteHead => GixErrorView::RefTransaction(text),
        Stage::Checkout => GixErrorView::CheckoutWrite(text),
        Stage::ParseUrl => GixErrorView::InvalidGitUrl(text),
        Stage::PrepareClone => GixErrorView::CloningError(text),
        Stage::FetchThenCheckout => GixErrorView::CloningFetchError(text),
        Stage::MainWorktree => GixErrorView::CheckoutMainWorkTreeError(text),
    }
}

/// The failure that the reply `reply` stands for at the stage `stage`, where
/// it is not the reply that the stage asks for: the kind that the reply
/// names itself, else the kind of the stage with the reply's text.
pub open spec fn reply_error(stage: Stage, reply: ReplyView) -> GixErrorView {
    match reply {
        ReplyView::Refused(error) => error,
        ReplyView::Failed(text) => stage_error(stage, text),
        _ => stage_error(stage, Seq::empty()),
    }
}

/// The line written to the reflog by every edit of a synchronisation.
pub open spec fn reflog_line() -> Seq<char> {
    "plop"@
}

/// The failure that stands for a revision that HEAD cannot be pointed at.
pub open spec fn rewire_error(failure: RewireFailure) -> GixErrorView {
    match failure {
        RewireFailure::InvalidName(text) => GixErrorView::RefTransaction(text),
        RewireFailure::NotFound(rev) => GixErrorView::RevisionNotFound(rev),
    }
}

/// What comes next at the stage `stage`, which is the `k`-th and asks for
/// `action`: the action where it has no reply yet, the failure that its
/// reply stands for where that is not `Done`, and else `rest`.
pub open spec fn staged(
    replies: Seq<ReplyView>,
    k: int,
    stage: Stage,
    action: ActionView,
    rest: StepView,
) -> StepView {
    if replies.len() <= k {
        StepView::Do(action)
    } else if !(replies[k] is Done) {
        StepView::Failed(reply_error(stage, replies[k]))
    } else {
        rest
    }
}

/// What comes next in a fetch once the remote has advertised `refs`: the
/// local HEAD is repointed to where the remote's HEAD is, then pointed at
/// the revision `rev`, and then the tree is checked out. An update that
/// cannot be made fails the fetch before anything of it is written.
pub open spec fn after_fetch(
    refs: Seq<RemoteRefView>,
    rev: Seq<char>,
    replies: Seq<ReplyView>,
) -> StepView {
    match planned_update(remote_head(refs), target_rejection(remote_head(refs)), reflog_line()) {
        Err(text) => StepView::Failed(GixErrorView::RefTransaction(text)),
        Ok(update) => staged(
            replies,
            5,
            Stage::WriteHead,
            ActionView::WriteHead(update),
            match planned_rewire(refs, rev, tracking_rejection(refs, rev), reflog_line()) {
                Err(failure) => StepView::Failed(rewire_error(failure)),
                Ok(update) => staged(
                    replies,
                    6,
                    Stage::WriteHead,
                    ActionView::WriteHead(update),
                    staged(replies, 7, Stage::Checkout, ActionView::Checkout, StepView::Done),
                ),
            },
        ),
    }
}

/// What comes next in the update of the repository at `dest` to the
/// revision `rev`, when the stages so far were answered by `replies`.
///
/// The stages are: open the repository; find its remote `origin`; connect;
/// negotiate the fetch, with the fetched references going to the packed
/// refs alone; fetch; and then what [`after_fetch`] states.
pub open spec fn fetch_step(dest: Seq<char>, rev: Seq<char>, replies: Seq<ReplyView>) -> StepView {
    staged(
        replies,
        0,
        Stage::OpenRepository,
        ActionView::OpenRepository { path: dest },
        staged(
            replies,
            1,
            Stage::FindRemote,
            ActionView::FindRemote { name: "origin"@ },
            staged(
                replies,
                2,
                Stage::Connect,
                ActionView::Connect,
                staged(
                    replies,
                    3,
                    Stage::PrepareFetch,
                    ActionView::PrepareFetch { packed_refs_only: true },
                    if replies.len() <= 4 {
                        StepView::Do(ActionView::Receive)
                    } else {
                        match replies[4] {
                            ReplyView::Refs(refs) => after_fetch(refs, rev, replies),
                            other => StepView::Failed(reply_error(Stage::Receive, other)),
                        }
                    },
                ),
            ),
        ),
    )
}

/// What comes next in the clone of the repository at `url` into the folder
/// `dest`, at the revision `rev`, when the stages so far were answered by
/// `replies`.
///
/// The stages are: parse the URL; prepare the clone; fetch; point HEAD at
/// the revision; check out the main worktree.
pub open spec fn clone_step(
    url: Seq<char>,
    dest: Seq<char>,
    rev: Seq<char>,
    replies: Seq<ReplyView>,
) -> StepView {
    staged(
        replies,
        0,
        Stage::ParseUrl,
        ActionView::ParseUrl { url },
        staged(
            replies,
            1,
            Stage::PrepareClone,
            ActionView::PrepareClone { url, path: dest },
            if replies.len() <= 2 {
                StepView::Do(ActionView::FetchThenCheckout)
            } else {
                match replies[2] {
                    ReplyView::Refs(refs) => match planned_rewire(
                        refs,
                        rev,
                        tracking_rejection(refs, rev),
                        reflog_line(),
                    ) {
                        Err(failure) => StepView::Failed(rewire_error(failure)),
                        Ok(update) => staged(
                            replies,
                            3,
                            Stage::WriteHead,
                            ActionView::WriteHead(update),
                            staged(
                                replies,
                                4,
                                Stage::MainWorktree,
                                ActionView::MainWorktree,
                                StepView::Done,
                            ),
                        ),
                    },
                    other => StepView::Failed(reply_error(Stage::FetchThenCheckout, other)),
                }
            },
        ),
    )
}

/// The step of a synchronisation that a step of a fetch or a clone stands
/// for: a failure carries what was asked for.
pub open spec fn in_context(
    step: StepView,
    dst: Seq<char>,
    url: Seq<char>,
    rev: Seq<char>,
) -> RetrieveStepView {
    match step {
        StepView::Do(action) => RetrieveStepView::Do(action),
        StepView::Done => RetrieveStepView::Done,
        StepView::Failed(source) => RetrieveStepView::Failed(
            GitErrorView::Plumbing { dst, url, rev, source },
        ),
    }
}

/// The text that a reply gives for a failure; empty where it gives none.
pub open spec fn reply_text(reply: ReplyView) -> Seq<char> {
    match reply {
        ReplyView::Failed(text) => text,
        _ => Seq::empty(),
    }
}

/// What comes next in the synchronisation of `dst` with the revision `rev`
/// of the repository at `url`, when the stages so far were answered by
/// `replies`.
///
/// A destination that exists is updated, as [`fetch_step`] states. One that
/// does not is created, with every missing folder above it, and the
/// repository is cloned into it, as [`clone_step`] states for the replies
/// after the first. A folder that could not be created fails the
/// synchronisation before anything else is asked for.
pub open spec fn retrieve_step(
    dst: DestinationView,
    url: Seq<char>,
    rev: Seq<char>,
    replies: Seq<ReplyView>,
) -> RetrieveStepView {
    if dst.exists {
        in_context(fetch_step(dst.path, rev, replies), dst.path, url, rev)
    } else if replies.len() == 0 {
        RetrieveStepView::Do(ActionView::CreateFolder { path: dst.path })
    } else if !(replies[0] is Done) {
        RetrieveStepView::Failed(
            GitErrorView::CreateFolder { path: dst.path, source: reply_text(replies[0]) },
        )
    } else {
        in_context(clone_step(url, dst.path, rev, replies.skip(1)), dst.path, url, rev)
    }
}

/// The failure of the stage `stage`, with the text `text`.
fn error_of(stage: Stage, text: String) -> (error: GixError)
    ensures
        error@ == stage_error(stage, text@),
{
    match stage {
        Stage::OpenRepository => GixError::RepositoryMissing(text),
        Stage::FindRemote => GixError::RemoteMissing(text),
        Stage::Connect => GixError::ConnectError(text),
        Stage::PrepareFetch => GixError::FetchPrepareError(text),
        Stage::Receive => GixError::FetchError(text),
        Stage::WriteHead => GixError::RefTransaction(text),
        Stage::Checkout => GixError::CheckoutWrite(text),
        Stage::ParseUrl => GixError::InvalidGitUrl(text),
        Stage::PrepareClone => GixError::CloningError(text),
        Stage::FetchThenCheckout => GixError::CloningFetchError(text),
        Stage::MainWorktree => GixError::CheckoutMainWorkTreeError(text),
    }
}

/// The failure that `reply` stands for at the stage `stage`.
fn refusal(stage: Stage, reply: &Reply) -> (error: GixError)
    ensures
        error@ == reply_error(stage, reply@),
{
    match reply {
        Reply::Refused(error) => error.duplicate(),
        Reply::Failed(text) => error_of(stage, text.clone()),
        _ => error_of(stage, String::new()),
    }
}

/// Whether the `k`-th stage is settled: `None` where its reply is `Done`,
/// else the failure that its reply stands for.
fn settled(replies: &[Reply], k: usize, stage: Stage) -> (failure: Option<GixError>)
    requires
        k < replies@.len(),
    ensures
        match failure {
            Some(error) => !(replies_view(replies@)[k as int] is Done) && error@ == reply_error(
                stage,
                replies_view(replies@)[k as int],
            ),
            None => replies_view(replies@)[k as int] is Done,
        },
{
    assert(replies_view(replies@)[k as int] == replies@[k as int]@);
    match &replies[k] {
        Reply::Done => None,
        other => Some(refusal(stage, other)),
    }
}

/// What comes next in the update of the repository at `dest` to the
/// revision `rev`, when the stages so far were answered by `replies`, the
/// first reply being that to the first stage. The repository knows its
/// remote: `url` is not looked at.
///
/// The result is exactly [`fetch_step`].
pub fn fetch_and_reset(_url: &str, dest: &str, rev: &str, replies: &[Reply]) -> (step: Step)
    ensures
        step@ == fetch_step(dest@, rev@, replies_view(replies@)),
{
    let ghost all = replies_view(replies@);
    let given = replies.len();
    if given == 0 {
        return Step::Do(Action::OpenRepository { path: dest.to_owned() });
    }
    if let Some(error) = settled(replies, 0, Stage::OpenRepository) {
        return Step::Failed(error);
    }
    if given == 1 {
        return Step::Do(Action::FindRemote { name: "origin".to_owned() });
    }
    if let Some(error) = settled(replies, 1, Stage::FindRemote) {
        return Step::Failed(error);
    }
    if given == 2 {
        return Step::Do(Action::Connect);
    }
    if let Some(error) = settled(replies, 2, Stage::Connect) {
        return Step::Failed(error);
    }
    if given == 3 {
        return Step::Do(Action::PrepareFetch { packed_refs_only: true });
    }
    if let Some(error) = settled(replies, 3, Stage::PrepareFetch) {
        return Step::Failed(error);
    }
    if given == 4 {
        return Step::Do(Action::Receive);
    }
    assert(all[4] == replies@[4]@);
    let refs = match &replies[4] {
        Reply::Refs(refs) => refs,
        other => {
            return Step::Failed(refusal(Stage::Receive, other));
        },
    };
    let update = match update_head(refs.as_slice(), "plop") {
        Ok(update) => update,
        Err(error) => {
            return Step::Failed(error);
        },
    };
    if given == 5 {
        return Step::Do(Action::WriteHead(update));
    }
    if let Some(error) = settled(replies, 5, Stage::WriteHead) {
        return Step::Failed(error);
    }
    let update = match rewire_head(refs.as_slice(), rev, "plop") {
        Ok(update) => update,
        Err(error) => {
            return Step::Failed(error);
        },
    };
    if given == 6 {
        return Step::Do(Action::WriteHead(update));
    }
    if let Some(error) = settled(replies, 6, Stage::WriteHead) {
        return Step::Failed(error);
    }
    if given == 7 {
        return Step::Do(Action::Checkout);
    }
    if let Some(error) = settled(replies, 7, Stage::Checkout) {
        return Step::Failed(error);
    }
    Step::Done
}

/// What comes next in the clone of the repository at `url` into the folder
/// `dest`, at the revision `rev`, when the stages so far were answered by
/// `replies`, the first reply being that to the first stage.
///
/// The result is exactly [`clone_step`].
pub fn clone(url: &str, dest: &str, rev: &str, replies: &[Reply]) -> (step: Step)
    ensures
        step@ == clone_step(url@, dest@, rev@, replies_view(replies@)),
{
    let ghost all = replies_view(replies@);
    let given = replies.len();
    if given == 0 {
        return Step::Do(Action::ParseUrl { url: url.to_owned() });
    }
    if let Some(error) = settled(replies, 0, Stage::ParseUrl) {
        return Step::Failed(error);
    }
    if given == 1 {
        return Step::Do(Action::PrepareClone { url: url.to_owned(), path: dest.to_owned() });
    }
    if let Some(error) = settled(replies, 1, Stage::PrepareClone) {
        return Step::Failed(error);
    }
    if given == 2 {
        return Step::Do(Action::FetchThenCheckout);
    }
    assert(all[2] == replies@[2]@);
    let refs = match &replies[2] {
        Reply::Refs(refs) => refs,
        other => {
            return Step::Failed(refusal(Stage::FetchThenCheckout, other));
        },
    };
    let update = match rewire_head(refs.as_slice(), rev, "plop") {
        Ok(update) => update,
        Err(error) => {
            return Step::Failed(error);
        },
    };
    if given == 3 {
        return Step::Do(Action::WriteHead(update));
    }
    if let Some(error) = settled(replies, 3, Stage::WriteHead) {
        return Step::Failed(error);
    }
    if given == 4 {
        return Step::Do(Action::MainWorktree);
    }
    if let Some(error) = settled(replies, 4, Stage::MainWorktree) {
        return Step::Failed(error);
    }
    Step::Done
}

/// The step of a synchronisation that `step` stands for.
fn with_context(step: Step, dst: &str, url: &str, rev: &str) -> (wrapped: RetrieveStep)
    ensures
        wrapped@ == in_context(step@, dst@, url@, rev@),
{
    match step {
        Step::Do(action) => RetrieveStep::Do(action),
        Step::Done => RetrieveStep::Done,
        Step::Failed(source) => RetrieveStep::Failed(
            GitError::Plumbing {
                dst: dst.to_owned(),
                url: url.to_owned(),
                rev: rev.to_owned(),
                source,
            },
        ),
    }
}

/// What comes next in the synchronisation of `dst` with the revision `rev`
/// of the repository at `url`, when the stages so far were answered by
/// `replies`, the first reply being that to the first stage.
///
/// The result is exactly [`retrieve_step`]: the failure of the first stage
/// that did not succeed; else the first stage that has no reply yet; else
/// success.
pub fn retrieve(dst: &Destination, url: &str, rev: &str, replies: &[Reply]) -> (step:
    RetrieveStep)
    ensures
        step@ == retrieve_step(dst@, url@, rev@, replies_view(replies@)),
{
    let path = dst.path.as_str();
    if dst.exists {
        return with_context(fetch_and_reset(url, path, rev, replies), path, url, rev);
    }
    if replies.len() == 0 {
        return RetrieveStep::Do(Action::CreateFolder { path: dst.path.clone() });
    }
    assert(replies_view(replies@)[0] == replies@[0]@);
    match &replies[0] {
        Reply::Done => {},
        Reply::Failed(text) => {
            return RetrieveStep::Failed(
                GitError::CreateFolder { path: dst.path.clone(), source: text.clone() },
            );
        },
        _ => {
            return RetrieveStep::Failed(
                GitError::CreateFolder { path: dst.path.clone(), source: String::new() },
            );
        },
    }
    let rest = vstd::slice::slice_subrange(replies, 1, replies.len());
    assert(replies_view(rest@) =~= replies_view(replies@).skip(1));
    with_context(clone(url, path, rev, rest), path, url, rev)
}

/// The value of the configuration key `value`. This strategy cannot look
/// configuration up, and says so: the result is always the failure that
/// names the key.
pub fn config_get_string(value: &str) -> (found: Result<String, GixError>)
    ensures
        found matches Err(GixError::ConfigLookupUnsupported(key)) && key@ == value@,
{
    Err(GixError::ConfigLookupUnsupported(value.to_owned()))
}

/// The command line of the tool that is configured for `kind`, such as
/// `merge` or `diff`. The tool's name would be read from the key
/// `<kind>.tool`; this strategy cannot look it up, and the result is always
/// the failure that names that key.
pub fn find_cmd_tool(kind: &str) -> (found: Result<String, GixError>)
    ensures
        found matches Err(GixError::ConfigLookupUnsupported(key)) && key@ == kind@ + ".tool"@,
{
    let key = join(kind, ".tool");
    let tool = match config_get_string(key.as_str()) {
        Ok(tool) => tool,
        Err(error) => {
            return Err(error);
        },
    };
    let mut key = join(kind, "tool.");
    key.push_str(tool.as_str());
    key.push_str(".cmd");
    config_get_string(key.as_str())
}

/// Whether a step asks for nothing more: it is a success or a failure.
pub open spec fn is_verdict(step: StepView) -> bool {
    !(step is Do)
}

/// A verdict of a fetch stands. Once the replies up to the `k`-th have led
/// to success or to a failure, every longer list of replies that starts
/// with them leads to the same: after a failure no later stage is asked
/// for, whatever is reported.
pub proof fn fetch_verdict_stands(
    dest: Seq<char>,
    rev: Seq<char>,
    replies: Seq<ReplyView>,
    k: int,
)
    requires
        0 <= k <= replies.len(),
        is_verdict(fetch_step(dest, rev, replies.take(k))),
    ensures
        fetch_step(dest, rev, replies) == fetch_step(dest, rev, replies.take(k)),
{
    let early = replies.take(k);
    assert(forall|i: int| 0 <= i < k ==> early[i] == replies[i]);
}

/// A verdict of a clone stands, as that of a fetch does.
pub proof fn clone_verdict_stands(
    url: Seq<char>,
    dest: Seq<char>,
    rev: Seq<char>,
    replies: Seq<ReplyView>,
    k: int,
)
    requires
        0 <= k <= replies.len(),
        is_verdict(clone_step(url, dest, rev, replies.take(k))),
    ensures
        clone_step(url, dest, rev, replies) == clone_step(url, dest, rev, replies.take(k)),
{
    let early = replies.take(k);
    assert(forall|i: int| 0 <= i < k ==> early[i] == replies[i]);
}

/// A verdict of a synchronisation stands. Once the replies up to the `k`-th
/// have led to success or to a failure, every longer list of replies that
/// starts with them leads to the same.
pub proof fn retrieve_verdict_stands(
    dst: DestinationView,
    url: Seq<char>,
    rev: Seq<char>,
    replies: Seq<ReplyView>,
    k: int,
)
    requires
        0 <= k <= replies.len(),
        !(retrieve_step(dst, url, rev, replies.take(k)) is Do),
    ensures
        retrieve_step(dst, url, rev, replies) == retrieve_step(dst, url, rev, replies.take(k)),
{
    let early = replies.take(k);
    assert(forall|i: int| 0 <= i < k ==> early[i] == replies[i]);
    if dst.exists {
        fetch_verdict_stands(dst.path, rev, replies, k);
    } else if k > 0 && replies[0] is Done {
        assert(early.skip(1) =~= replies.skip(1).take(k - 1));
        clone_verdict_stands(url, dst.path, rev, replies.skip(1), k - 1);
    }
}

/// A destination that cannot be created fails the synchronisation before
/// the repository is touched. Where the destination does not exist and its
/// creation did not succeed, the synchronisation has failed with that
/// folder's path, and no stage of the clone is asked for, whatever else was
/// reported.
pub proof fn uncreated_folder_fails(
    dst: DestinationView,
    url: Seq<char>,
    rev: Seq<char>,
    replies: Seq<ReplyView>,
)
    requires
        !dst.exists,
        replies.len() > 0,
        !(replies[0] is Done),
    ensures
        retrieve_step(dst, url, rev, replies) == RetrieveStepView::Failed(
            GitErrorView::CreateFolder { path: dst.path, source: reply_text(replies[0]) },
        ),
{
}

/// The ref store after a fetch that advertised `refs` has committed both
/// of its updates for the revision `rev`; `None` where one of them cannot
/// be made.
pub open spec fn refs_after_fetch(
    store: RefStore,
    refs: Seq<RemoteRefView>,
    rev: Seq<char>,
) -> Option<RefStore> {
    match planned_update(remote_head(refs), target_rejection(remote_head(refs)), reflog_line()) {
        Err(_) => None,
        Ok(first) => match planned_rewire(
            refs,
            rev,
            tracking_rejection(refs, rev),
            reflog_line(),
        ) {
            Err(_) => None,
            Ok(second) => Some(commit(commit(store, first), second)),
        },
    }
}

/// After a fetch HEAD leads to the revision. Whatever the ref store held
/// before, once both updates of a fetch are committed HEAD leads, directly
/// or through one symbolic reference, to the object that the remote
/// reports for `rev`, or to the object that `rev` names where the remote
/// reports none.
pub proof fn fetched_head_leads_to_revision(
    store: RefStore,
    refs: Seq<RemoteRefView>,
    rev: Seq<char>,
)
    ensures
        refs_after_fetch(store, refs, rev) matches Some(after) ==> resolve(after, "HEAD"@)
            == Some(wanted(refs, rev)),
{
    if let Ok(first) = planned_update(
        remote_head(refs),
        target_rejection(remote_head(refs)),
        reflog_line(),
    ) {
        head_leads_to_revision(
            commit(store, first),
            refs,
            rev,
            tracking_rejection(refs, rev),
            reflog_line(),
        );
    }
}

/// Fetching again changes no reference. Where the remote advertises the
/// same references, the ref store after a second fetch of the same
/// revision is the store after the first.
pub proof fn fetch_again_keeps_refs(store: RefStore, refs: Seq<RemoteRefView>, rev: Seq<char>)
    ensures
        refs_after_fetch(store, refs, rev) matches Some(once) ==> refs_after_fetch(
            once,
            refs,
            rev,
        ) == Some(once),
{
    if let Ok(first) = planned_update(
        remote_head(refs),
        target_rejection(remote_head(refs)),
        reflog_line(),
    ) {
        if let Ok(second) = planned_rewire(
            refs,
            rev,
            tracking_rejection(refs, rev),
            reflog_line(),
        ) {
            resync_keeps_refs(store, first.edits, second.edits);
        }
    }
}

/// A clone and an update end with the same HEAD. Where the remote
/// advertises the same references, the store of a fresh clone, which gets
/// the update for the revision alone, and the store of a repository that
/// held an older revision, which gets both updates of a fetch, have a HEAD
/// that leads to the same object.
pub proof fn clone_and_update_agree(
    fresh: RefStore,
    older: RefStore,
    refs: Seq<RemoteRefView>,
    rev: Seq<char>,
)
    ensures
        ({
            let second = planned_rewire(refs, rev, tracking_rejection(refs, rev), reflog_line());
            (second is Ok && refs_after_fetch(older, refs, rev) is Some) ==> resolve(
                commit(fresh, second->Ok_0),
                "HEAD"@,
            ) == resolve(refs_after_fetch(older, refs, rev).unwrap(), "HEAD"@)
        }),
{
    fetched_head_leads_to_revision(older, refs, rev);
    head_leads_to_revision(fresh, refs, rev, tracking_rejection(refs, rev), reflog_line());
}

} // verus!
