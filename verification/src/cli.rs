//! Synchronising by running the `git` executable.
//!
//! The library decides which command comes next; its caller runs it and
//! reports how it ended. A failure ends the sequence: no later command is
//! asked for.

use vstd::prelude::*;
use crate::destination::{Destination, DestinationView};
use crate::error::{GitCliError, GitCliErrorView, GitError, GitErrorView};
use crate::text::{decode, join, lossy_text, trim, trimmed};

verus! {

/// Something for the caller to do.
#[derive(Debug, PartialEq, Eq)]
pub enum CliAction {
    /// Create the folder at `path`, and every missing folder above it.
    CreateFolder { path: String },
    /// Run `git` with the arguments `args` in the folder `current_dir`, and
    /// wait for it to end.
    Run { args: Vec<String>, current_dir: String },
}

/// The view of a [`CliAction`].
pub enum CliActionView {
    CreateFolder { path: Seq<char> },
    Run { args: Seq<Seq<char>>, current_dir: Seq<char> },
}

/// The views of a list of texts, in the order of the list.
pub open spec fn texts_view(texts: Seq<String>) -> Seq<Seq<char>> {
    Seq::new(texts.len(), |i: int| texts[i]@)
}

impl View for CliAction {
    type V = CliActionView;

    open spec fn view(&self) -> CliActionView {
        match *self {
            CliAction::CreateFolder { path } => CliActionView::CreateFolder { path: path@ },
            CliAction::Run { args, current_dir } => CliActionView::Run {
                args: texts_view(args@),
                current_dir: current_dir@,
            },
        }
    }
}

/// How an action ended.
#[derive(Debug, PartialEq, Eq)]
pub enum Outcome {
    /// The folder is there.
    Created,
    /// The command ran and ended with this exit code, or with none where a
    /// signal ended it.
    Exited(Option<i32>),
    /// The system could not do it; the text is the system's.
    Io(String),
}

/// The view of an [`Outcome`].
pub enum OutcomeView {
    Created,
    Exited(Option<i32>),
    Io(Seq<char>),
}

impl View for Outcome {
    type V = OutcomeView;

    open spec fn view(&self) -> OutcomeView {
        match *self {
            Outcome::Created => OutcomeView::Created,
            Outcome::Exited(code) => OutcomeView::Exited(code),
            Outcome::Io(text) => OutcomeView::Io(text@),
        }
    }
}

/// The views of a list of outcomes, in the order of the list.
pub open spec fn outcomes_view(outcomes: Seq<Outcome>) -> Seq<OutcomeView> {
    Seq::new(outcomes.len(), |i: int| outcomes[i]@)
}

/// What comes next in a synchronisation.
#[derive(Debug, PartialEq, Eq)]
pub enum CliStep {
    /// This action, whose outcome is to be reported.
    Do(CliAction),
    /// Nothing: the synchronisation has succeeded.
    Done,
    /// Nothing: the synchronisation has failed.
    Failed(GitError),
}

/// The view of a [`CliStep`].
pub enum CliStepView {
    Do(CliActionView),
    Done,
    Failed(GitErrorView),
}

impl View for CliStep {
    type V = CliStepView;

    open spec fn view(&self) -> CliStepView {
        match *self {
            CliStep::Do(action) => CliStepView::Do(action@),
            CliStep::Done => CliStepView::Done,
            CliStep::Failed(error) => CliStepView::Failed(error@),
        }
    }
}

/// Whether an outcome is a success: the folder is there, or the command
/// ended with exit code 0.
pub open spec fn succeeded(outcome: OutcomeView) -> bool {
    outcome is Created || outcome == OutcomeView::Exited(Some(0i32))
}

/// The arguments, with one space between each two.
pub open spec fn joined(args: Seq<Seq<char>>) -> Seq<char>
    decreases args.len(),
{
    if args.len() == 0 {
        Seq::empty()
    } else if args.len() == 1 {
        args[0]
    } else {
        joined(args.drop_last()) + " "@ + args.last()
    }
}

/// The command line that runs `git` with the arguments `args`.
pub open spec fn command_line(args: Seq<Seq<char>>) -> Seq<char> {
    "git "@ + joined(args)
}

/// The text that says which command failed.
pub open spec fn failed_to_execute(command: Seq<char>) -> Seq<char> {
    "Fail to execute command: `"@ + command + "`"@
}

/// The text that says that a folder has no parent.
pub open spec fn no_parent_folder(path: Seq<char>) -> Seq<char> {
    "No parent folder for "@ + path
}

/// The actions of a synchronisation, in order; `None` where the destination
/// does not exist and has no parent.
///
/// - An existing destination is updated: `fetch origin` in it.
/// - A missing one is cloned: its parent is created, and `clone <url> <rev>`
///   runs in the parent.
/// - Both end with `checkout --force <rev>` and `reset --hard origin/<rev>`
///   in the destination.
pub open spec fn cli_plan(dst: DestinationView, url: Seq<char>, rev: Seq<char>) -> Option<
    Seq<CliActionView>,
> {
    let checkout = CliActionView::Run {
        args: seq!["checkout"@, "--force"@, rev],
        current_dir: dst.path,
    };
    let reset = CliActionView::Run {
        args: seq!["reset"@, "--hard"@, "origin/"@ + rev],
        current_dir: dst.path,
    };
    if dst.exists {
        Some(
            seq![
                CliActionView::Run { args: seq!["fetch"@, "origin"@], current_dir: dst.path },
                checkout,
                reset,
            ],
        )
    } else {
        match dst.parent {
            Some(parent) => Some(
                seq![
                    CliActionView::CreateFolder { path: parent },
                    CliActionView::Run { args: seq!["clone"@, url, rev], current_dir: parent },
                    checkout,
                    reset,
                ],
            ),
            None => None,
        }
    }
}

/// The failure of a synchronisation whose action `action` ended in the
/// outcome `outcome`, which is no success.
///
/// A command that ran names its command line and its exit code; one that
/// could not be started carries the system's text; a folder that could not
/// be created names its path.
pub open spec fn failure_of(
    action: CliActionView,
    outcome: OutcomeView,
    dst: Seq<char>,
    url: Seq<char>,
    rev: Seq<char>,
) -> GitErrorView {
    match action {
        CliActionView::CreateFolder { path } => GitErrorView::CreateFolder {
            path,
            source: match outcome {
                OutcomeView::Io(text) => text,
                _ => Seq::empty(),
            },
        },
        CliActionView::Run { args, .. } => GitErrorView::GitRetrieve {
            dst,
            url,
            rev,
            source: match outcome {
                OutcomeView::Io(text) => GitCliErrorView::IoError(text),
                OutcomeView::Exited(code) => GitCliErrorView::CommandError(
                    command_line(args),
                    code,
                ),
                OutcomeView::Created => GitCliErrorView::CommandError(command_line(args), None),
            },
            msg: failed_to_execute(command_line(args)),
        },
    }
}

/// The failure of a synchronisation to a destination without a parent.
pub open spec fn no_parent(dst: Seq<char>, url: Seq<char>, rev: Seq<char>) -> GitErrorView {
    GitErrorView::GitRetrieve {
        dst,
        url,
        rev,
        source: GitCliErrorView::NoParentError(dst),
        msg: failed_to_execute(no_parent_folder(dst)),
    }
}

/// What comes next when the actions before the `k`-th have succeeded: the
/// outcomes from the `k`-th on are gone through in order. The first that is
/// no success ends the synchronisation in the failure of its action; the
/// first action without an outcome is the next to do; and when no action is
/// left the synchronisation is done.
pub open spec fn replay(
    plan: Seq<CliActionView>,
    outcomes: Seq<OutcomeView>,
    k: int,
    dst: Seq<char>,
    url: Seq<char>,
    rev: Seq<char>,
) -> CliStepView
    decreases plan.len() - k,
{
    if k < 0 || k >= plan.len() {
        CliStepView::Done
    } else if k >= outcomes.len() {
        CliStepView::Do(plan[k])
    } else if succeeded(outcomes[k]) {
        replay(plan, outcomes, k + 1, dst, url, rev)
    } else {
        CliStepView::Failed(failure_of(plan[k], outcomes[k], dst, url, rev))
    }
}

/// What comes next in the synchronisation of `dst` with the revision `rev`
/// of the repository at `url`, when the actions asked for so far ended in
/// `outcomes`.
pub open spec fn next_step(
    dst: DestinationView,
    url: Seq<char>,
    rev: Seq<char>,
    outcomes: Seq<OutcomeView>,
) -> CliStepView {
    match cli_plan(dst, url, rev) {
        None => CliStepView::Failed(no_parent(dst.path, url, rev)),
        Some(plan) => replay(plan, outcomes, 0, dst.path, url, rev),
    }
}

/// The views of a list of actions, in the order of the list.
pub open spec fn actions_view(actions: Seq<CliAction>) -> Seq<CliActionView> {
    Seq::new(actions.len(), |i: int| actions[i]@)
}

/// The arguments `args`, with one space between each two.
pub fn join_args(args: &Vec<String>) -> (line: String)
    ensures
        line@ == joined(texts_view(args@)),
{
    let ghost all = texts_view(args@);
    let mut line = String::new();
    let mut i: usize = 0;
    while i < args.len()
        invariant
            i <= args@.len(),
            all == texts_view(args@),
            line@ == joined(all.take(i as int)),
        decreases args@.len() - i,
    {
        proof {
            let now = all.take(i as int + 1);
            assert(now.drop_last() =~= all.take(i as int));
            assert(now.last() == args@[i as int]@);
            if i == 0 {
                assert(joined(all.take(0)) =~= Seq::<char>::empty());
                assert(line@ + args@[0]@ =~= args@[0]@);
            }
        }
        if i > 0 {
            line.push_str(" ");
        }
        line.push_str(args[i].as_str());
        i += 1;
    }
    assert(all.take(i as int) =~= all);
    line
}

/// The command line that runs `git` with the arguments `args`.
pub fn command_of(args: &Vec<String>) -> (line: String)
    ensures
        line@ == command_line(texts_view(args@)),
{
    let rest = join_args(args);
    join("git ", rest.as_str())
}

/// The action that runs `git` with three arguments in `current_dir`.
fn run3(first: &str, second: &str, third: &str, current_dir: &str) -> (action: CliAction)
    ensures
        action@ == (CliActionView::Run {
            args: seq![first@, second@, third@],
            current_dir: current_dir@,
        }),
{
    let mut args: Vec<String> = Vec::new();
    args.push(first.to_owned());
    args.push(second.to_owned());
    args.push(third.to_owned());
    assert(texts_view(args@) =~= seq![first@, second@, third@]);
    CliAction::Run { args, current_dir: current_dir.to_owned() }
}

/// The actions of a synchronisation, in order, as [`cli_plan`] states them;
/// `None` where the destination does not exist and has no parent.
pub fn plan(dst: &Destination, url: &str, rev: &str) -> (actions: Option<Vec<CliAction>>)
    ensures
        match cli_plan(dst@, url@, rev@) {
            Some(planned) => actions matches Some(made) && actions_view(made@) == planned,
            None => actions is None,
        },
{
    let mut actions: Vec<CliAction> = Vec::new();
    if dst.exists {
        let mut args: Vec<String> = Vec::new();
        args.push("fetch".to_owned());
        args.push("origin".to_owned());
        assert(texts_view(args@) =~= seq!["fetch"@, "origin"@]);
        actions.push(CliAction::Run { args, current_dir: dst.path.clone() });
    } else {
        match &dst.parent {
            Some(parent) => {
                actions.push(CliAction::CreateFolder { path: parent.clone() });
                actions.push(run3("clone", url, rev, parent.as_str()));
            },
            None => {
                return None;
            },
        }
    }
    let upstream = join("origin/", rev);
    actions.push(run3("checkout", "--force", rev, dst.path.as_str()));
    actions.push(run3("reset", "--hard", upstream.as_str(), dst.path.as_str()));
    assert(actions_view(actions@) =~= cli_plan(dst@, url@, rev@).unwrap());
    Some(actions)
}

/// Whether an outcome is a success.
pub fn ended_well(outcome: &Outcome) -> (well: bool)
    ensures
        well == succeeded(outcome@),
{
    match outcome {
        Outcome::Created => true,
        Outcome::Exited(Some(code)) => *code == 0,
        Outcome::Exited(None) => false,
        Outcome::Io(_) => false,
    }
}

/// The text that says which command failed.
fn failed_text(command: &str) -> (text: String)
    ensures
        text@ == failed_to_execute(command@),
{
    let mut text = join("Fail to execute command: `", command);
    text.push_str("`");
    text
}

/// The failure of a synchronisation whose action `action` ended in the
/// outcome `outcome`, as [`failure_of`] states it.
pub fn failure(action: &CliAction, outcome: &Outcome, dst: &str, url: &str, rev: &str) -> (error:
    GitError)
    ensures
        error@ == failure_of(action@, outcome@, dst@, url@, rev@),
{
    match action {
        CliAction::CreateFolder { path } => GitError::CreateFolder {
            path: path.clone(),
            source: match outcome {
                Outcome::Io(text) => text.clone(),
                _ => String::new(),
            },
        },
        CliAction::Run { args, .. } => {
            let command = command_of(args);
            let msg = failed_text(command.as_str());
            let source = match outcome {
                Outcome::Io(text) => GitCliError::IoError(text.clone()),
                Outcome::Exited(code) => GitCliError::CommandError(command, *code),
                Outcome::Created => GitCliError::CommandError(command, None),
            };
            GitError::GitRetrieve {
                dst: dst.to_owned(),
                url: url.to_owned(),
                rev: rev.to_owned(),
                source,
                msg,
            }
        },
    }
}

/// What comes next in the synchronisation of `dst` with the revision `rev`
/// of the repository at `url`, when the actions asked for so far ended in
/// `outcomes`, the first outcome being that of the first action.
///
/// The result is exactly [`next_step`]: the failure of the first action that
/// did not succeed, whatever was reported after it; else the first action
/// that has no outcome yet; else success.
pub fn retrieve(dst: &Destination, url: &str, rev: &str, outcomes: &[Outcome]) -> (step:
    CliStep)
    ensures
        step@ == next_step(dst@, url@, rev@, outcomes_view(outcomes@)),
{
    let mut actions = match plan(dst, url, rev) {
        Some(actions) => actions,
        None => {
            let reason = join("No parent folder for ", dst.path.as_str());
            return CliStep::Failed(
                GitError::GitRetrieve {
                    dst: dst.path.clone(),
                    url: url.to_owned(),
                    rev: rev.to_owned(),
                    source: GitCliError::NoParentError(dst.path.clone()),
                    msg: failed_text(reason.as_str()),
                },
            );
        },
    };
    let ghost planned = actions_view(actions@);
    let ghost reported = outcomes_view(outcomes@);
    let mut k: usize = 0;
    while k < actions.len() && k < outcomes.len()
        invariant
            k <= actions@.len(),
            k <= outcomes@.len(),
            planned == actions_view(actions@),
            reported == outcomes_view(outcomes@),
            cli_plan(dst@, url@, rev@) == Some(planned),
            replay(planned, reported, 0, dst@.path, url@, rev@) == replay(
                planned,
                reported,
                k as int,
                dst@.path,
                url@,
                rev@,
            ),
        decreases actions@.len() - k,
    {
        assert(planned[k as int] == actions@[k as int]@);
        assert(reported[k as int] == outcomes@[k as int]@);
        if !ended_well(&outcomes[k]) {
            return CliStep::Failed(
                failure(&actions[k], &outcomes[k], dst.path.as_str(), url, rev),
            );
        }
        k += 1;
    }
    if k < actions.len() {
        assert(planned[k as int] == actions@[k as int]@);
        CliStep::Do(actions.remove(k))
    } else {
        CliStep::Done
    }
}

/// Whether the action at `k` is the first whose outcome is no success.
pub open spec fn first_failure_at(
    plan: Seq<CliActionView>,
    outcomes: Seq<OutcomeView>,
    k: int,
) -> bool {
    &&& 0 <= k < plan.len()
    &&& k < outcomes.len()
    &&& !succeeded(outcomes[k])
    &&& forall|j: int| 0 <= j < k ==> succeeded(#[trigger] outcomes[j])
}

/// Going through outcomes that are successes leads to the first that is not.
proof fn replay_reaches(
    plan: Seq<CliActionView>,
    outcomes: Seq<OutcomeView>,
    from: int,
    k: int,
    dst: Seq<char>,
    url: Seq<char>,
    rev: Seq<char>,
)
    requires
        first_failure_at(plan, outcomes, k),
        0 <= from <= k,
    ensures
        replay(plan, outcomes, from, dst, url, rev) == CliStepView::Failed(
            failure_of(plan[k], outcomes[k], dst, url, rev),
        ),
    decreases k - from,
{
    if from < k {
        assert(succeeded(outcomes[from]));
        replay_reaches(plan, outcomes, from + 1, k, dst, url, rev);
    }
}

/// A failure is final. Once an action has not succeeded, the
/// synchronisation has failed with the failure of that action, whatever is
/// reported after it: no later action is asked for.
pub proof fn failure_is_final(
    dst: DestinationView,
    url: Seq<char>,
    rev: Seq<char>,
    outcomes: Seq<OutcomeView>,
    k: int,
)
    requires
        cli_plan(dst, url, rev) is Some,
        first_failure_at(cli_plan(dst, url, rev).unwrap(), outcomes, k),
    ensures
        next_step(dst, url, rev, outcomes) == CliStepView::Failed(
            failure_of(cli_plan(dst, url, rev).unwrap()[k], outcomes[k], dst.path, url, rev),
        ),
{
    replay_reaches(cli_plan(dst, url, rev).unwrap(), outcomes, 0, k, dst.path, url, rev);
}

/// The place of the forced checkout among the actions of a synchronisation.
pub open spec fn checkout_place(dst: DestinationView) -> int {
    if dst.exists {
        1
    } else {
        2
    }
}

/// A failed checkout is reported and ends the synchronisation. Where every
/// action before the forced checkout succeeded and the checkout ended with
/// the exit code `code`, which is not 0, the synchronisation has failed with
/// an error that names the checkout's command line and that exit code, and
/// the reset is not asked for, whatever else was reported.
pub proof fn checkout_failure_ends(
    dst: DestinationView,
    url: Seq<char>,
    rev: Seq<char>,
    outcomes: Seq<OutcomeView>,
    code: Option<i32>,
)
    requires
        dst.exists || dst.parent is Some,
        code != Some(0i32),
        checkout_place(dst) < outcomes.len(),
        outcomes[checkout_place(dst)] == OutcomeView::Exited(code),
        forall|j: int| 0 <= j < checkout_place(dst) ==> succeeded(#[trigger] outcomes[j]),
    ensures
        next_step(dst, url, rev, outcomes) == CliStepView::Failed(
            GitErrorView::GitRetrieve {
                dst: dst.path,
                url,
                rev,
                source: GitCliErrorView::CommandError(
                    command_line(seq!["checkout"@, "--force"@, rev]),
                    code,
                ),
                msg: failed_to_execute(command_line(seq!["checkout"@, "--force"@, rev])),
            },
        ),
{
    failure_is_final(dst, url, rev, outcomes, checkout_place(dst));
}

/// A destination that cannot be made fails the synchronisation before any
/// command runs. Where the destination does not exist, one without a parent
/// fails at once, and one whose parent could not be created fails with that
/// folder's path; in both cases no command is asked for, whatever else was
/// reported.
pub proof fn missing_parent_fails(
    dst: DestinationView,
    url: Seq<char>,
    rev: Seq<char>,
    outcomes: Seq<OutcomeView>,
)
    requires
        !dst.exists,
    ensures
        dst.parent is None ==> next_step(dst, url, rev, outcomes) == CliStepView::Failed(
            no_parent(dst.path, url, rev),
        ),
        dst.parent is Some && outcomes.len() > 0 && !succeeded(outcomes[0]) ==> next_step(
            dst,
            url,
            rev,
            outcomes,
        ) == CliStepView::Failed(
            failure_of(
                CliActionView::CreateFolder { path: dst.parent.unwrap() },
                outcomes[0],
                dst.path,
                url,
                rev,
            ),
        ),
{
    if dst.parent is Some && outcomes.len() > 0 && !succeeded(outcomes[0]) {
        failure_is_final(dst, url, rev, outcomes, 0);
    }
}

/// A synchronisation that went well takes the same last two actions
/// whether the destination was cloned or updated: the forced checkout of
/// the revision and the hard reset to the branch of `origin`, both in the
/// destination.
pub proof fn clone_and_update_end_alike(
    path: Seq<char>,
    parent: Seq<char>,
    url: Seq<char>,
    rev: Seq<char>,
)
    ensures
        ({
            let cloned = cli_plan(
                DestinationView { path, exists: false, parent: Some(parent) },
                url,
                rev,
            ).unwrap();
            let updated = cli_plan(
                DestinationView { path, exists: true, parent: Some(parent) },
                url,
                rev,
            ).unwrap();
            cloned.subrange(2, 4) == updated.subrange(1, 3)
        }),
{
    let cloned = cli_plan(
        DestinationView { path, exists: false, parent: Some(parent) },
        url,
        rev,
    ).unwrap();
    let updated = cli_plan(
        DestinationView { path, exists: true, parent: Some(parent) },
        url,
        rev,
    ).unwrap();
    assert(cloned.subrange(2, 4) =~= updated.subrange(1, 3));
}

/// How a query of the configuration ended.
#[derive(Debug, PartialEq, Eq)]
pub enum ConfigReply {
    /// `git config` ran: its exit code, or none where a signal ended it,
    /// and what it wrote to its standard output.
    Output { status: Option<i32>, stdout: Vec<u8> },
    /// `git config` could not be started; the text is the system's.
    NotStarted(String),
}

/// The view of a [`ConfigReply`].
pub enum ConfigReplyView {
    Output { status: Option<i32>, stdout: Seq<u8> },
    NotStarted(Seq<char>),
}

impl View for ConfigReply {
    type V = ConfigReplyView;

    open spec fn view(&self) -> ConfigReplyView {
        match *self {
            ConfigReply::Output { status, stdout } => ConfigReplyView::Output {
                status,
                stdout: stdout@,
            },
            ConfigReply::NotStarted(text) => ConfigReplyView::NotStarted(text@),
        }
    }
}

/// The views of a list of replies, in the order of the list.
pub open spec fn config_replies_view(replies: Seq<ConfigReply>) -> Seq<ConfigReplyView> {
    Seq::new(replies.len(), |i: int| replies[i]@)
}

/// The value that the reply `reply` gives for the configuration key
/// `value`, or the failure.
///
/// Where `git config` ended with exit code 0, the value is what it wrote,
/// read as text and without the white space around it. Any other exit is a
/// failure that names the command line `git config <key>` and the exit
/// code; a command that could not be started is a failure with the
/// system's text.
pub open spec fn config_value(value: Seq<char>, reply: ConfigReplyView) -> Result<
    Seq<char>,
    GitCliErrorView,
> {
    match reply {
        ConfigReplyView::Output { status, stdout } => if status == Some(0i32) {
            Ok(trimmed(lossy_text(stdout)))
        } else {
            Err(GitCliErrorView::CommandError("git config "@ + value, status))
        },
        ConfigReplyView::NotStarted(text) => Err(GitCliErrorView::IoError(text)),
    }
}

/// Whether `found` is `wanted`, view for view.
pub open spec fn same_value(
    found: Result<String, GitCliError>,
    wanted: Result<Seq<char>, GitCliErrorView>,
) -> bool {
    match wanted {
        Ok(text) => found matches Ok(got) && got@ == text,
        Err(error) => found matches Err(got) && got@ == error,
    }
}

/// The value of the configuration key `value`, when `git config <value>`
/// ended with `status` and `cut` is what it wrote, as text without the
/// white space around it: `cut` where the exit code is 0, else the failure
/// that names the command line and the exit code.
pub fn value_of(value: &str, status: Option<i32>, cut: String) -> (found: Result<
    String,
    GitCliError,
>)
    ensures
        same_value(
            found,
            if status == Some(0i32) {
                Ok(cut@)
            } else {
                Err(GitCliErrorView::CommandError("git config "@ + value@, status))
            },
        ),
{
    match status {
        Some(0) => Ok(cut),
        _ => Err(GitCliError::CommandError(join("git config ", value), status)),
    }
}

/// The value that the reply `reply` gives for the configuration key
/// `value`, exactly as [`config_value`] states it.
pub fn config_get_string(value: &str, reply: &ConfigReply) -> (found: Result<String, GitCliError>)
    ensures
        same_value(found, config_value(value@, reply@)),
{
    match reply {
        ConfigReply::Output { status, stdout } => {
            let text = decode(stdout);
            value_of(value, *status, trim(text.as_str()))
        },
        ConfigReply::NotStarted(text) => Err(GitCliError::IoError(text.clone())),
    }
}

/// What comes next in the search for a tool.
#[derive(Debug, PartialEq, Eq)]
pub enum ToolStep {
    /// Query the configuration for this key, and report the reply.
    Ask(String),
    /// Nothing: this is the tool's command line.
    Found(String),
    /// Nothing: the search has failed.
    Failed(GitCliError),
}

/// The view of a [`ToolStep`].
pub enum ToolStepView {
    Ask(Seq<char>),
    Found(Seq<char>),
    Failed(GitCliErrorView),
}

impl View for ToolStep {
    type V = ToolStepView;

    open spec fn view(&self) -> ToolStepView {
        match *self {
            ToolStep::Ask(key) => ToolStepView::Ask(key@),
            ToolStep::Found(command) => ToolStepView::Found(command@),
            ToolStep::Failed(error) => ToolStepView::Failed(error@),
        }
    }
}

/// The key that holds the name of the tool for `kind`.
pub open spec fn tool_key(kind: Seq<char>) -> Seq<char> {
    kind + ".tool"@
}

/// The key that holds the command line of the tool `tool` for `kind`.
pub open spec fn command_key(kind: Seq<char>, tool: Seq<char>) -> Seq<char> {
    kind + "tool."@ + tool + ".cmd"@
}

/// What comes next in the search for the tool that is configured for
/// `kind`, when the queries so far were answered by `replies`.
///
/// The first query reads the tool's name from `<kind>.tool`; the second
/// reads its command line from `<kind>tool.<name>.cmd`. A query that fails
/// ends the search in its failure.
pub open spec fn tool_step(kind: Seq<char>, replies: Seq<ConfigReplyView>) -> ToolStepView {
    if replies.len() == 0 {
        ToolStepView::Ask(tool_key(kind))
    } else {
        match config_value(tool_key(kind), replies[0]) {
            Err(error) => ToolStepView::Failed(error),
            Ok(tool) => if replies.len() == 1 {
                ToolStepView::Ask(command_key(kind, tool))
            } else {
                match config_value(command_key(kind, tool), replies[1]) {
                    Err(error) => ToolStepView::Failed(error),
                    Ok(command) => ToolStepView::Found(command),
                }
            },
        }
    }
}

/// What comes next in the search for the command line of the tool that is
/// configured for `kind`, such as `merge` or `diff`, when the queries so
/// far were answered by `replies`, the first reply being that to the first
/// query.
///
/// The result is exactly [`tool_step`].
pub fn find_cmd_tool(kind: &str, replies: &[ConfigReply]) -> (step: ToolStep)
    ensures
        step@ == tool_step(kind@, config_replies_view(replies@)),
{
    let ghost all = config_replies_view(replies@);
    let key = join(kind, ".tool");
    if replies.len() == 0 {
        return ToolStep::Ask(key);
    }
    assert(all[0] == replies@[0]@);
    let tool = match config_get_string(key.as_str(), &replies[0]) {
        Ok(tool) => tool,
        Err(error) => {
            return ToolStep::Failed(error);
        },
    };
    let mut key = join(kind, "tool.");
    key.push_str(tool.as_str());
    key.push_str(".cmd");
    if replies.len() == 1 {
        return ToolStep::Ask(key);
    }
    assert(all[1] == replies@[1]@);
    match config_get_string(key.as_str(), &replies[1]) {
        Ok(command) => ToolStep::Found(command),
        Err(error) => ToolStep::Failed(error),
    }
}

} // verus!
