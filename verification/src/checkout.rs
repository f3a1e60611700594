//! Checking out the tree that HEAD leads to.
//!
//! The engine decides which stage comes next; its caller reads the object
//! store, writes the files and reports back. It looks at the cancellation
//! flag before each entry and writes nothing once the flag is set.

use vstd::prelude::*;
use crate::error::{GixError, GixErrorView};
use crate::refs::ObjectId;

verus! {

/// A stage of the checkout, for the caller to carry out.
#[derive(Debug, PartialEq, Eq)]
pub enum CheckoutAction {
    /// Find the repository's working directory.
    WorkDir,
    /// Follow HEAD to the commit it leads to.
    ResolveHead,
    /// Find the root tree of the commit.
    FindTree { commit: ObjectId },
    /// Build the index from the tree, expanding its subtrees.
    BuildIndex { tree: ObjectId },
    /// Write the entry at this place of the index to the working directory,
    /// creating the folders above it.
    WriteEntry { entry: usize },
    /// Write the index to its file on disk.
    WriteIndex,
}

/// The view of a [`CheckoutAction`].
pub enum CheckoutActionView {
    WorkDir,
    ResolveHead,
    FindTree { commit: Seq<char> },
    BuildIndex { tree: Seq<char> },
    WriteEntry { entry: usize },
    WriteIndex,
}

impl View for CheckoutAction {
    type V = CheckoutActionView;

    open spec fn view(&self) -> CheckoutActionView {
        match *self {
            CheckoutAction::WorkDir => CheckoutActionView::WorkDir,
            CheckoutAction::ResolveHead => CheckoutActionView::ResolveHead,
            CheckoutAction::FindTree { commit } => CheckoutActionView::FindTree {
                commit: commit@,
            },
            CheckoutAction::BuildIndex { tree } => CheckoutActionView::BuildIndex { tree: tree@ },
            CheckoutAction::WriteEntry { entry } => CheckoutActionView::WriteEntry { entry },
            CheckoutAction::WriteIndex => CheckoutActionView::WriteIndex,
        }
    }
}

/// What the caller reports of a stage.
#[derive(Debug, PartialEq, Eq)]
pub enum CheckoutReply {
    /// It is done.
    Done,
    /// There is nothing there: no working directory, or a HEAD that leads
    /// to no object yet.
    Missing,
    /// The object that was looked for.
    Object(ObjectId),
    /// The index is built and has this many entries.
    Entries(usize),
    /// The entry is written, and was this many bytes long.
    Written(u64),
    /// It failed; the text says why.
    Failed(String),
}

/// The view of a [`CheckoutReply`].
pub enum CheckoutReplyView {
    Done,
    Missing,
    Object(Seq<char>),
    Entries(usize),
    Written(u64),
    Failed(Seq<char>),
}

impl View for CheckoutReply {
    type V = CheckoutReplyView;

    open spec fn view(&self) -> CheckoutReplyView {
        match *self {
            CheckoutReply::Done => CheckoutReplyView::Done,
            CheckoutReply::Missing => CheckoutReplyView::Missing,
            CheckoutReply::Object(id) => CheckoutReplyView::Object(id@),
            CheckoutReply::Entries(count) => CheckoutReplyView::Entries(count),
            CheckoutReply::Written(bytes) => CheckoutReplyView::Written(bytes),
            CheckoutReply::Failed(text) => CheckoutReplyView::Failed(text@),
        }
    }
}

/// The views of a list of replies, in the order of the list.
pub open spec fn replies_view(replies: Seq<CheckoutReply>) -> Seq<CheckoutReplyView> {
    Seq::new(replies.len(), |i: int| replies[i]@)
}

/// What comes next in a checkout.
#[derive(Debug, PartialEq, Eq)]
pub enum CheckoutStep {
    /// This stage, whose reply is to be reported.
    Do(CheckoutAction),
    /// Nothing: the checkout has succeeded.
    Done,
    /// Nothing: the checkout has failed.
    Failed(GixError),
}

/// The view of a [`CheckoutStep`].
pub enum CheckoutStepView {
    Do(CheckoutActionView),
    Done,
    Failed(GixErrorView),
}

impl View for CheckoutStep {
    type V = CheckoutStepView;

    open spec fn view(&self) -> CheckoutStepView {
        match *self {
            CheckoutStep::Do(action) => CheckoutStepView::Do(action@),
            CheckoutStep::Done => CheckoutStepView::Done,
            CheckoutStep::Failed(error) => CheckoutStepView::Failed(error@),
        }
    }
}

/// The text that a reply gives for a failure; empty where it gives none.
pub open spec fn said(reply: CheckoutReplyView) -> Seq<char> {
    match reply {
        CheckoutReplyView::Failed(text) => text,
        _ => Seq::empty(),
    }
}

/// What comes next once the index of `count` entries is built and the
/// entries before `entry` are written. The reply to the entry at `entry` is
/// the one at `4 + entry`.
///
/// An entry whose writing has not been reported is the next to write,
/// unless the checkout is cancelled: then the checkout has failed as
/// interrupted, and neither that entry nor the index is written. When every
/// entry is written the index is written, and then the checkout is done.
pub open spec fn write_step(
    replies: Seq<CheckoutReplyView>,
    count: int,
    entry: int,
    cancelled: bool,
) -> CheckoutStepView
    decreases count - entry,
{
    if entry < 0 || entry >= count {
        if replies.len() <= 4 + count {
            CheckoutStepView::Do(CheckoutActionView::WriteIndex)
        } else {
            match replies[4 + count] {
                CheckoutReplyView::Done => CheckoutStepView::Done,
                other => CheckoutStepView::Failed(GixErrorView::IndexWrite(said(other))),
            }
        }
    } else if replies.len() <= 4 + entry {
        if cancelled {
            CheckoutStepView::Failed(GixErrorView::Interrupted)
        } else {
            CheckoutStepView::Do(CheckoutActionView::WriteEntry { entry: entry as usize })
        }
    } else {
        match replies[4 + entry] {
            CheckoutReplyView::Written(_) => write_step(replies, count, entry + 1, cancelled),
            other => CheckoutStepView::Failed(GixErrorView::CheckoutWrite(said(other))),
        }
    }
}

/// What comes next in a checkout whose stages so far were answered by
/// `replies`, the first reply being that to the first stage.
///
/// The stages are: find the working directory; follow HEAD; find the
/// commit's tree; build the index; write each entry; write the index. A
/// repository without a working directory fails the checkout. A HEAD that
/// leads to no object makes it a success with nothing written. Any other
/// reply that is not the one the stage asks for fails the checkout with the
/// failure of that stage, and no later stage is asked for.
pub open spec fn checkout_step(replies: Seq<CheckoutReplyView>, cancelled: bool) -> CheckoutStepView {
    if replies.len() == 0 {
        CheckoutStepView::Do(CheckoutActionView::WorkDir)
    } else if !(replies[0] is Done) {
        CheckoutStepView::Failed(GixErrorView::NoWorkDir)
    } else if replies.len() == 1 {
        CheckoutStepView::Do(CheckoutActionView::ResolveHead)
    } else {
        match replies[1] {
            CheckoutReplyView::Missing => CheckoutStepView::Done,
            CheckoutReplyView::Object(commit) => if replies.len() == 2 {
                CheckoutStepView::Do(CheckoutActionView::FindTree { commit })
            } else {
                match replies[2] {
                    CheckoutReplyView::Object(tree) => if replies.len() == 3 {
                        CheckoutStepView::Do(CheckoutActionView::BuildIndex { tree })
                    } else {
                        match replies[3] {
                            CheckoutReplyView::Entries(count) => write_step(
                                replies,
                                count as int,
                                0,
                                cancelled,
                            ),
                            other => CheckoutStepView::Failed(
                                GixErrorView::IndexBuild(said(other)),
                            ),
                        }
                    },
                    other => CheckoutStepView::Failed(GixErrorView::TreeMissing(said(other))),
                }
            },
            other => CheckoutStepView::Failed(GixErrorView::HeadUnreadable(said(other))),
        }
    }
}

/// The text that a reply gives for a failure; empty where it gives none.
fn reason(reply: &CheckoutReply) -> (text: String)
    ensures
        text@ == said(reply@),
{
    match reply {
        CheckoutReply::Failed(text) => text.clone(),
        _ => String::new(),
    }
}

/// What comes next in a checkout whose stages so far were answered by
/// `replies`, the first reply being that to the first stage, when the
/// cancellation flag reads `should_interrupt`.
///
/// The result is exactly [`checkout_step`]. In particular no entry is asked
/// for while `should_interrupt` is set.
pub fn checkout(replies: &[CheckoutReply], should_interrupt: bool) -> (step: CheckoutStep)
    ensures
        step@ == checkout_step(replies_view(replies@), should_interrupt),
{
    let ghost all = replies_view(replies@);
    let given = replies.len();
    if given == 0 {
        return CheckoutStep::Do(CheckoutAction::WorkDir);
    }
    assert(all[0] == replies@[0]@);
    match &replies[0] {
        CheckoutReply::Done => {},
        _ => {
            return CheckoutStep::Failed(GixError::NoWorkDir);
        },
    }
    if given == 1 {
        return CheckoutStep::Do(CheckoutAction::ResolveHead);
    }
    assert(all[1] == replies@[1]@);
    let commit = match &replies[1] {
        CheckoutReply::Missing => {
            return CheckoutStep::Done;
        },
        CheckoutReply::Object(commit) => commit,
        other => {
            return CheckoutStep::Failed(GixError::HeadUnreadable(reason(other)));
        },
    };
    if given == 2 {
        return CheckoutStep::Do(CheckoutAction::FindTree { commit: commit.duplicate() });
    }
    assert(all[2] == replies@[2]@);
    let tree = match &replies[2] {
        CheckoutReply::Object(tree) => tree,
        other => {
            return CheckoutStep::Failed(GixError::TreeMissing(reason(other)));
        },
    };
    if given == 3 {
        return CheckoutStep::Do(CheckoutAction::BuildIndex { tree: tree.duplicate() });
    }
    assert(all[3] == replies@[3]@);
    let count = match &replies[3] {
        CheckoutReply::Entries(count) => *count,
        other => {
            return CheckoutStep::Failed(GixError::IndexBuild(reason(other)));
        },
    };
    let answered = given - 4;
    let mut entry: usize = 0;
    while entry < count
        invariant
            entry <= count,
            given == replies@.len(),
            given >= 4,
            answered == given - 4,
            all == replies_view(replies@),
            checkout_step(all, should_interrupt) == write_step(
                all,
                count as int,
                entry as int,
                should_interrupt,
            ),
        decreases count - entry,
    {
        if answered <= entry {
            if should_interrupt {
                return CheckoutStep::Failed(GixError::Interrupted);
            }
            return CheckoutStep::Do(CheckoutAction::WriteEntry { entry });
        }
        assert(all[4 + entry] == replies@[4 + entry]@);
        match &replies[4 + entry] {
            CheckoutReply::Written(_) => {},
            other => {
                return CheckoutStep::Failed(GixError::CheckoutWrite(reason(other)));
            },
        }
        entry += 1;
    }
    if answered <= count {
        return CheckoutStep::Do(CheckoutAction::WriteIndex);
    }
    assert(all[4 + count] == replies@[4 + count]@);
    match &replies[4 + count] {
        CheckoutReply::Done => CheckoutStep::Done,
        other => CheckoutStep::Failed(GixError::IndexWrite(reason(other))),
    }
}

/// Cancelling changes the writing of entries and nothing else.
proof fn write_step_cancelled(replies: Seq<CheckoutReplyView>, count: int, entry: int)
    ensures
        write_step(replies, count, entry, false) is Do && write_step(
            replies,
            count,
            entry,
            false,
        )->Do_0 is WriteEntry ==> write_step(replies, count, entry, true)
            == CheckoutStepView::Failed(GixErrorView::Interrupted),
        !(write_step(replies, count, entry, false) is Do && write_step(
            replies,
            count,
            entry,
            false,
        )->Do_0 is WriteEntry) ==> write_step(replies, count, entry, true) == write_step(
            replies,
            count,
            entry,
            false,
        ),
    decreases count - entry,
{
    if 0 <= entry < count && replies.len() > 4 + entry {
        if replies[4 + entry] is Written {
            write_step_cancelled(replies, count, entry + 1);
        }
    }
}

/// Whether a step asks for an entry to be written.
pub open spec fn asks_for_entry(step: CheckoutStepView) -> bool {
    step is Do && step->Do_0 is WriteEntry
}

/// Cancellation stops the writing at once. With the flag set the engine
/// never asks for an entry: where it would have asked for one, the checkout
/// has failed as interrupted, so that neither a further entry nor the index
/// is written; everywhere else the flag changes nothing.
pub proof fn cancellation_stops_writing(replies: Seq<CheckoutReplyView>)
    ensures
        !asks_for_entry(checkout_step(replies, true)),
        asks_for_entry(checkout_step(replies, false)) ==> checkout_step(replies, true)
            == CheckoutStepView::Failed(GixErrorView::Interrupted),
        !asks_for_entry(checkout_step(replies, false)) ==> checkout_step(replies, true)
            == checkout_step(replies, false),
{
    if replies.len() >= 4 {
        if let CheckoutReplyView::Entries(count) = replies[3] {
            write_step_cancelled(replies, count as int, 0);
        }
    }
}

/// How far the writing of the entries has come.
#[derive(Debug, Clone, Copy, PartialEq, Eq, Structural)]
pub struct Progress {
    /// The number of entries of the index.
    pub files_total: usize,
    /// The number of entries written so far.
    pub files_done: usize,
    /// The number of bytes written so far.
    pub bytes_done: u128,
}

/// Whether the replies say that the index was built, and so how many
/// entries there are to write.
pub open spec fn index_built(replies: Seq<CheckoutReplyView>) -> bool {
    &&& replies.len() >= 4
    &&& replies[0] is Done
    &&& replies[1] is Object
    &&& replies[2] is Object
    &&& replies[3] is Entries
}

/// The number of entries from `entry` on that are reported as written,
/// counted up to the first that is not.
pub open spec fn files_from(replies: Seq<CheckoutReplyView>, count: int, entry: int) -> int
    decreases count - entry,
{
    if entry < 0 || entry >= count || replies.len() <= 4 + entry {
        0
    } else {
        match replies[4 + entry] {
            CheckoutReplyView::Written(_) => 1 + files_from(replies, count, entry + 1),
            _ => 0,
        }
    }
}

/// The number of bytes of the entries that [`files_from`] counts.
pub open spec fn bytes_from(replies: Seq<CheckoutReplyView>, count: int, entry: int) -> int
    decreases count - entry,
{
    if entry < 0 || entry >= count || replies.len() <= 4 + entry {
        0
    } else {
        match replies[4 + entry] {
            CheckoutReplyView::Written(bytes) => bytes + bytes_from(replies, count, entry + 1),
            _ => 0,
        }
    }
}

/// The product of two numbers below 2^64 is below 2^128.
proof fn product_fits(files: int, bytes: int)
    requires
        0 <= files <= usize::MAX,
        0 <= bytes <= files * u64::MAX,
    ensures
        bytes + u64::MAX <= u128::MAX,
{
    assert(files * u64::MAX <= usize::MAX * u64::MAX) by (nonlinear_arith)
        requires
            0 <= files <= usize::MAX,
    ;
    assert(usize::MAX * u64::MAX + u64::MAX <= u128::MAX) by (nonlinear_arith)
        requires
            usize::MAX <= 0xffff_ffff_ffff_ffff,
    ;
}

/// How far the writing has come after `replies`: all zero until the index
/// is built; then the number of entries, how many of them are written, and
/// the sum of their lengths.
pub fn progress(replies: &[CheckoutReply]) -> (now: Progress)
    ensures
        !index_built(replies_view(replies@)) ==> now == (Progress {
            files_total: 0,
            files_done: 0,
            bytes_done: 0,
        }),
        index_built(replies_view(replies@)) ==> {
            let all = replies_view(replies@);
            let count = all[3]->Entries_0;
            &&& now.files_total == count
            &&& now.files_done == files_from(all, count as int, 0)
            &&& now.bytes_done == bytes_from(all, count as int, 0)
        },
{
    let ghost all = replies_view(replies@);
    let nothing = Progress { files_total: 0, files_done: 0, bytes_done: 0 };
    let given = replies.len();
    if given < 4 {
        return nothing;
    }
    assert(all[0] == replies@[0]@ && all[1] == replies@[1]@ && all[2] == replies@[2]@ && all[3]
        == replies@[3]@);
    let built = match (&replies[0], &replies[1], &replies[2], &replies[3]) {
        (
            CheckoutReply::Done,
            CheckoutReply::Object(_),
            CheckoutReply::Object(_),
            CheckoutReply::Entries(count),
        ) => Some(*count),
        _ => None,
    };
    let count = match built {
        Some(count) => count,
        None => {
            return nothing;
        },
    };
    let answered = given - 4;
    let mut entry: usize = 0;
    let mut bytes_done: u128 = 0;
    while entry < count && entry < answered
        invariant
            entry <= count,
            entry <= answered,
            given == replies@.len(),
            answered == given - 4,
            all == replies_view(replies@),
            index_built(all),
            all[3] == CheckoutReplyView::Entries(count),
            bytes_done <= entry * u64::MAX,
            files_from(all, count as int, 0) == entry + files_from(all, count as int, entry as int),
            bytes_from(all, count as int, 0) == bytes_done + bytes_from(
                all,
                count as int,
                entry as int,
            ),
        decreases count - entry,
    {
        assert(all[4 + entry] == replies@[4 + entry]@);
        match &replies[4 + entry] {
            CheckoutReply::Written(bytes) => {
                proof {
                    product_fits(entry as int, bytes_done as int);
                    assert((entry + 1) * u64::MAX == entry * u64::MAX + u64::MAX)
                        by (nonlinear_arith);
                }
                bytes_done = bytes_done + (*bytes as u128);
            },
            _ => {
                return Progress { files_total: count, files_done: entry, bytes_done };
            },
        }
        entry += 1;
    }
    Progress { files_total: count, files_done: entry, bytes_done }
}

/// Whether the entries before `entry` are all reported as written.
pub open spec fn written_before(replies: Seq<CheckoutReplyView>, entry: int) -> bool {
    forall|i: int| 0 <= i < entry && 4 + i < replies.len() ==> #[trigger] replies[4 + i] is Written
}

/// Writing from `from` on reaches the entry `entry` when the entries between
/// them are written.
proof fn write_step_reaches(
    replies: Seq<CheckoutReplyView>,
    count: int,
    from: int,
    entry: int,
    cancelled: bool,
)
    requires
        0 <= from <= entry <= count,
        replies.len() >= 4 + entry,
        written_before(replies, entry),
    ensures
        write_step(replies, count, from, cancelled) == write_step(replies, count, entry, cancelled),
    decreases entry - from,
{
    if from < entry {
        assert(replies[4 + from] is Written);
        write_step_reaches(replies, count, from + 1, entry, cancelled);
    }
}

/// Every entry is written, in the order of the index, and the index after
/// them. While the checkout is not cancelled and every entry so far is
/// reported as written, the engine asks for the next entry of the index
/// and, when none is left, for the index to be written: what a checkout
/// writes depends on the index alone.
pub proof fn writes_every_entry_in_order(replies: Seq<CheckoutReplyView>, entry: int)
    requires
        index_built(replies),
        0 <= entry <= replies[3]->Entries_0,
        replies.len() == 4 + entry,
        written_before(replies, entry),
    ensures
        entry < replies[3]->Entries_0 ==> checkout_step(replies, false) == CheckoutStepView::Do(
            CheckoutActionView::WriteEntry { entry: entry as usize },
        ),
        entry == replies[3]->Entries_0 ==> checkout_step(replies, false) == CheckoutStepView::Do(
            CheckoutActionView::WriteIndex,
        ),
{
    let count = replies[3]->Entries_0 as int;
    write_step_reaches(replies, count, 0, entry, false);
}

} // verus!
