//! Repointing the local HEAD from what a remote advertised.
//!
//! A fetch cannot write HEAD by a refspec, so HEAD is computed here from the
//! remote's references and written by a transaction of its own, together
//! with the branch it points at where that branch may not exist yet.

use vstd::prelude::*;
use crate::edits::{apply_edit, apply_edits, edit_option_view, edits_view, RefStore};
use crate::edits::{LockPolicy, PreviousValue, RefEdit, RefEditView, RefLog, Target, TargetView};
use crate::error::GixError;
use crate::names::{check_full_name, full_name_rejection};
use crate::refs::{refs_view, RemoteRef, RemoteRefView};
use crate::text::{join, same};

verus! {

/// What has to be written to the ref store to repoint HEAD.
#[derive(Debug, PartialEq, Eq)]
pub struct HeadUpdate {
    /// The edits of one transaction: all of them are committed, or none.
    pub edits: Vec<RefEdit>,
    /// Whether the transaction writes updates to objects into the packed
    /// refs, so that no loose file is left for each.
    pub packed_refs: bool,
    /// What the committer does where the ref store is locked.
    pub lock: LockPolicy,
    /// An edit of HEAD's own log, made once the transaction is committed.
    pub log_only: Option<RefEdit>,
}

/// The view of a [`HeadUpdate`].
pub struct HeadUpdateView {
    pub edits: Seq<RefEditView>,
    pub packed_refs: bool,
    pub lock: LockPolicy,
    pub log_only: Option<RefEditView>,
}

impl View for HeadUpdate {
    type V = HeadUpdateView;

    open spec fn view(&self) -> HeadUpdateView {
        HeadUpdateView {
            edits: edits_view(self.edits@),
            packed_refs: self.packed_refs,
            lock: self.lock,
            log_only: edit_option_view(self.log_only),
        }
    }
}

/// The ref store after an update is committed: its transaction first, then
/// the edit of HEAD's log.
pub open spec fn commit(store: RefStore, update: HeadUpdateView) -> RefStore {
    let after = apply_edits(store, update.edits);
    match update.log_only {
        Some(edit) => apply_edit(after, edit),
        None => after,
    }
}

/// Whether a reference is one that says where the remote's HEAD is: it is
/// named exactly `HEAD` and is direct, symbolic or unborn.
pub open spec fn speaks_of_head(r: RemoteRefView) -> bool {
    r.name() == "HEAD"@ && !(r is Peeled)
}

/// The first reference of the set that speaks of HEAD, if there is one.
pub open spec fn remote_head(refs: Seq<RemoteRefView>) -> Option<RemoteRefView>
    decreases refs.len(),
{
    if refs.len() == 0 {
        None
    } else if speaks_of_head(refs[0]) {
        Some(refs[0])
    } else {
        remote_head(refs.skip(1))
    }
}

/// An edit that expects any previous value, forces no log and follows no
/// symbolic reference.
pub open spec fn plain_edit(
    name: Seq<char>,
    new: TargetView,
    mode: RefLog,
    message: Seq<char>,
) -> RefEditView {
    RefEditView {
        name,
        new,
        expected: PreviousValue::Any,
        mode,
        force_create_reflog: false,
        message,
        deref: false,
    }
}

/// The text of the failure for a HEAD that points at `target`, a name that
/// the ref store rejects for the reason `why`.
pub open spec fn invalid_head_ref(target: Seq<char>, why: Seq<char>) -> Seq<char> {
    "Error::InvalidHeadRef(head_ref_name: "@ + target + ", source: "@ + why + ")"@
}

/// The update for a remote HEAD, or the text of the failure.
///
/// `rejection` is the ref store's verdict on the name that HEAD points at,
/// and is not looked at where HEAD points at no name.
///
/// - No HEAD among the references: nothing is written.
/// - HEAD points at a branch: one transaction makes the local HEAD symbolic
///   to that branch and, where the remote named the branch's object, sets
///   the branch to it; HEAD's own log then gets a line for that object.
/// - HEAD points straight at an object: one edit detaches the local HEAD at it.
pub open spec fn planned_update(
    head: Option<RemoteRefView>,
    rejection: Option<Seq<char>>,
    message: Seq<char>,
) -> Result<HeadUpdateView, Seq<char>> {
    match head {
        None => Ok(
            HeadUpdateView {
                edits: Seq::empty(),
                packed_refs: false,
                lock: LockPolicy::FailImmediately,
                log_only: None,
            },
        ),
        Some(head) => match head.target() {
            Some(target) => match rejection {
                Some(why) => Err(invalid_head_ref(target, why)),
                None => {
                    let to_branch = plain_edit(
                        "HEAD"@,
                        TargetView::Symbolic(target),
                        RefLog::AndReference,
                        message,
                    );
                    match head.object() {
                        Some(id) => Ok(
                            HeadUpdateView {
                                edits: seq![
                                    to_branch,
                                    plain_edit(
                                        target,
                                        TargetView::Peeled(id),
                                        RefLog::AndReference,
                                        message,
                                    ),
                                ],
                                packed_refs: true,
                                lock: LockPolicy::FailImmediately,
                                log_only: Some(
                                    plain_edit(
                                        "HEAD"@,
                                        TargetView::Peeled(id),
                                        RefLog::Only,
                                        message,
                                    ),
                                ),
                            },
                        ),
                        None => Ok(
                            HeadUpdateView {
                                edits: seq![to_branch],
                                packed_refs: true,
                                lock: LockPolicy::FailImmediately,
                                log_only: None,
                            },
                        ),
                    }
                },
            },
            None => match head.object() {
                Some(id) => Ok(
                    HeadUpdateView {
                        edits: seq![
                            plain_edit(
                                "HEAD"@,
                                TargetView::Peeled(id),
                                RefLog::AndReference,
                                message,
                            ),
                        ],
                        packed_refs: false,
                        lock: LockPolicy::FailImmediately,
                        log_only: None,
                    },
                ),
                None => Ok(
                    HeadUpdateView {
                        edits: Seq::empty(),
                        packed_refs: false,
                        lock: LockPolicy::FailImmediately,
                        log_only: None,
                    },
                ),
            },
        },
    }
}

/// Whether `outcome` is what `planned` asks for: the same update, or a
/// failed ref transaction with the same text.
pub open spec fn as_planned(
    outcome: Result<HeadUpdate, GixError>,
    planned: Result<HeadUpdateView, Seq<char>>,
) -> bool {
    match planned {
        Ok(update) => outcome matches Ok(made) && made@ == update,
        Err(text) => outcome matches Err(GixError::RefTransaction(said)) && said@ == text,
    }
}

/// The ref store's verdict on the name that `head` points at; no verdict
/// where it points at no name.
pub open spec fn target_rejection(head: Option<RemoteRefView>) -> Option<Seq<char>> {
    match head {
        Some(head) => match head.target() {
            Some(target) => full_name_rejection(target),
            None => None,
        },
        None => None,
    }
}

/// The view of a reference that may be absent.
pub open spec fn found_view(head: Option<&RemoteRef>) -> Option<RemoteRefView> {
    match head {
        Some(head) => Some(head@),
        None => None,
    }
}

/// Skipping a reference that does not speak of HEAD changes nothing.
proof fn remote_head_skips(refs: Seq<RemoteRefView>, i: int)
    requires
        0 <= i < refs.len(),
        !speaks_of_head(refs[i]),
    ensures
        remote_head(refs.skip(i)) == remote_head(refs.skip(i + 1)),
{
    assert(refs.skip(i).skip(1) =~= refs.skip(i + 1));
}

/// Whether `r` speaks of HEAD.
fn is_head(r: &RemoteRef) -> (yes: bool)
    ensures
        yes == speaks_of_head(r@),
{
    match r {
        RemoteRef::Peeled { .. } => false,
        _ => same(r.name().as_str(), "HEAD"),
    }
}

/// The place of the first reference that speaks of HEAD: no reference
/// before it does, and `None` says that none does at all.
pub fn find_head(remote_refs: &[RemoteRef]) -> (found: Option<usize>)
    ensures
        match found {
            Some(i) => {
                &&& i < remote_refs@.len()
                &&& speaks_of_head(remote_refs@[i as int]@)
                &&& forall|j: int| 0 <= j < i ==> !speaks_of_head(#[trigger] remote_refs@[j]@)
                &&& remote_head(refs_view(remote_refs@)) == Some(remote_refs@[i as int]@)
            },
            None => {
                &&& forall|j: int|
                    0 <= j < remote_refs@.len() ==> !speaks_of_head(#[trigger] remote_refs@[j]@)
                &&& remote_head(refs_view(remote_refs@)) is None
            },
        },
{
    let ghost all = refs_view(remote_refs@);
    let mut i: usize = 0;
    assert(all.skip(0) =~= all);
    while i < remote_refs.len()
        invariant
            i <= remote_refs@.len(),
            all == refs_view(remote_refs@),
            remote_head(all) == remote_head(all.skip(i as int)),
            forall|j: int| 0 <= j < i ==> !speaks_of_head(#[trigger] remote_refs@[j]@),
        decreases remote_refs@.len() - i,
    {
        if is_head(&remote_refs[i]) {
            assert(all.skip(i as int)[0] == remote_refs@[i as int]@);
            return Some(i);
        }
        proof {
            remote_head_skips(all, i as int);
        }
        i += 1;
    }
    assert(all.skip(i as int).len() == 0);
    None
}

/// An edit that expects any previous value, forces no log and follows no
/// symbolic reference.
pub(crate) fn plain(name: String, new: Target, mode: RefLog, message: &str) -> (edit: RefEdit)
    ensures
        edit@ == plain_edit(name@, new@, mode, message@),
{
    RefEdit {
        name,
        new,
        expected: PreviousValue::Any,
        mode,
        force_create_reflog: false,
        message: message.to_owned(),
        deref: false,
    }
}

/// An update that writes nothing.
fn nothing_to_write() -> (update: HeadUpdate)
    ensures
        update@ == (HeadUpdateView {
            edits: Seq::empty(),
            packed_refs: false,
            lock: LockPolicy::FailImmediately,
            log_only: None,
        }),
{
    let update = HeadUpdate {
        edits: Vec::new(),
        packed_refs: false,
        lock: LockPolicy::FailImmediately,
        log_only: None,
    };
    assert(edits_view(update.edits@) =~= Seq::empty());
    update
}

/// The update for the remote HEAD `head`, given the ref store's verdict
/// `rejection` on the name that it points at, exactly as
/// [`planned_update`] states it.
pub fn plan_head_update(
    head: Option<&RemoteRef>,
    rejection: Option<String>,
    reflog_message: &str,
) -> (outcome: Result<HeadUpdate, GixError>)
    ensures
        as_planned(
            outcome,
            planned_update(
                found_view(head),
                crate::text::text_option_view(rejection),
                reflog_message@,
            ),
        ),
{
    let head = match head {
        Some(head) => head,
        None => {
            return Ok(nothing_to_write());
        },
    };
    let (target, object) = match head {
        RemoteRef::Peeled { object, .. } => (None, Some(object)),
        RemoteRef::Direct { object, .. } => (None, Some(object)),
        RemoteRef::Symbolic { target, object, .. } => (Some(target), object.as_ref()),
        RemoteRef::Unborn { target, .. } => (Some(target), None),
    };
    match target {
        Some(target) => {
            if let Some(why) = rejection {
                let mut said = join("Error::InvalidHeadRef(head_ref_name: ", target.as_str());
                said.push_str(", source: ");
                said.push_str(why.as_str());
                said.push_str(")");
                return Err(GixError::RefTransaction(said));
            }
            let mut edits: Vec<RefEdit> = Vec::new();
            edits.push(
                plain(
                    "HEAD".to_owned(),
                    Target::Symbolic(target.clone()),
                    RefLog::AndReference,
                    reflog_message,
                ),
            );
            let log_only = match object {
                Some(id) => {
                    edits.push(
                        plain(
                            target.clone(),
                            Target::Peeled(id.duplicate()),
                            RefLog::AndReference,
                            reflog_message,
                        ),
                    );
                    Some(
                        plain(
                            "HEAD".to_owned(),
                            Target::Peeled(id.duplicate()),
                            RefLog::Only,
                            reflog_message,
                        ),
                    )
                },
                None => None,
            };
            let update = HeadUpdate {
                edits,
                packed_refs: true,
                lock: LockPolicy::FailImmediately,
                log_only,
            };
            proof {
                let planned = planned_update(Some(head@), None, reflog_message@);
                assert(planned is Ok);
                assert(update@.edits =~= planned->Ok_0.edits);
            }
            Ok(update)
        },
        None => match object {
            Some(id) => {
                let mut edits: Vec<RefEdit> = Vec::new();
                edits.push(
                    plain(
                        "HEAD".to_owned(),
                        Target::Peeled(id.duplicate()),
                        RefLog::AndReference,
                        reflog_message,
                    ),
                );
                let update = HeadUpdate {
                    edits,
                    packed_refs: false,
                    lock: LockPolicy::FailImmediately,
                    log_only: None,
                };
                proof {
                    let planned = planned_update(
                        Some(head@),
                        crate::text::text_option_view(rejection),
                        reflog_message@,
                    );
                    assert(planned is Ok);
                    assert(update@.edits =~= planned->Ok_0.edits);
                }
                Ok(update)
            },
            None => Ok(nothing_to_write()),
        },
    }
}

/// The update that repoints the local HEAD to where the remote's HEAD is.
///
/// The remote's HEAD is the first of `remote_refs` that speaks of HEAD.
/// Where it points at a branch, the branch's name is put to the ref store's
/// name check; the update is then exactly what [`planned_update`] states for
/// that HEAD, that verdict and `reflog_message`.
pub fn update_head(remote_refs: &[RemoteRef], reflog_message: &str) -> (outcome: Result<
    HeadUpdate,
    GixError,
>)
    ensures
        as_planned(
            outcome,
            planned_update(
                remote_head(refs_view(remote_refs@)),
                target_rejection(remote_head(refs_view(remote_refs@))),
                reflog_message@,
            ),
        ),
{
    match find_head(remote_refs) {
        None => plan_head_update(None, None, reflog_message),
        Some(i) => {
            let head = &remote_refs[i];
            let rejection = match head {
                RemoteRef::Symbolic { target, .. } => check_full_name(target.as_str()),
                RemoteRef::Unborn { target, .. } => check_full_name(target.as_str()),
                _ => None,
            };
            plan_head_update(Some(head), rejection, reflog_message)
        },
    }
}

} // verus!
