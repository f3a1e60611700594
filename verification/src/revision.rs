//! Pointing HEAD at the revision that was asked for: a branch, a tag or an
//! object id.

use vstd::prelude::*;
use vstd::string::StringSliceAdditionalSpecFns;
use crate::edits::{apply_edits, resolve};
use crate::edits::{LockPolicy, RefEdit, RefLog, RefStore, Target, TargetView};
use crate::error::GixError;
use crate::head::{invalid_head_ref, plain, plain_edit, HeadUpdate, HeadUpdateView};
use crate::names::{check_full_name, full_name_rejection};
use crate::refs::{borrowed_id_view, refs_view, ObjectId, RemoteRef, RemoteRefView};
use crate::text::{join, same, text_option_view};

verus! {

/// The name under which a remote advertises the branch `rev`.
pub open spec fn branch_ref(rev: Seq<char>) -> Seq<char> {
    "refs/heads/"@ + rev
}

/// The name under which a remote advertises the tag `rev`.
pub open spec fn tag_ref(rev: Seq<char>) -> Seq<char> {
    "refs/tags/"@ + rev
}

/// The local name that tracks the branch `rev` of the remote `origin`.
pub open spec fn tracking_ref(rev: Seq<char>) -> Seq<char> {
    "refs/remotes/origin/"@ + rev
}

/// Whether `c` is a digit of a lower-case hexadecimal number.
pub open spec fn is_hex_digit(c: char) -> bool {
    ('0' <= c && c <= '9') || ('a' <= c && c <= 'f')
}

/// Whether `rev` is the text of an object id: forty lower-case hexadecimal
/// digits.
pub open spec fn is_object_id(rev: Seq<char>) -> bool {
    rev.len() == 40 && forall|i: int| 0 <= i < rev.len() ==> is_hex_digit(#[trigger] rev[i])
}

/// The object of the first reference named `name` that leads to one.
pub open spec fn advertised(refs: Seq<RemoteRefView>, name: Seq<char>) -> Option<Seq<char>>
    decreases refs.len(),
{
    if refs.len() == 0 {
        None
    } else if refs[0].name() == name && refs[0].object() is Some {
        refs[0].object()
    } else {
        advertised(refs.skip(1), name)
    }
}

/// The object that the remote reports for the revision `rev`: that of the
/// branch of that name, else that of the tag of that name.
pub open spec fn reported(refs: Seq<RemoteRefView>, rev: Seq<char>) -> Option<Seq<char>> {
    match advertised(refs, branch_ref(rev)) {
        Some(id) => Some(id),
        None => advertised(refs, tag_ref(rev)),
    }
}

/// Whether `rev` is the text of an object id.
pub fn names_object(rev: &str) -> (yes: bool)
    ensures
        yes == is_object_id(rev@),
{
    let bytes = rev.as_bytes();
    if !rev.is_ascii() {
        proof {
            let i = choose|i: int|
                0 <= i < rev@.len() && !('\0' <= #[trigger] rev@[i] && rev@[i] <= '\u{7f}');
            assert(!is_hex_digit(rev@[i]));
        }
        return false;
    }
    proof {
        vstd::utf8::is_ascii_chars_encode_utf8(rev@);
    }
    if bytes.len() != 40 {
        return false;
    }
    let mut i: usize = 0;
    while i < 40
        invariant
            i <= 40,
            bytes@ == rev.spec_bytes(),
            bytes@.len() == 40,
            rev@.len() == 40,
            vstd::utf8::is_ascii_chars(rev@),
            forall|k: int| 0 <= k < rev@.len() ==> rev@[k] as u8 == #[trigger] bytes@[k],
            forall|k: int| 0 <= k < i ==> is_hex_digit(#[trigger] rev@[k]),
        decreases 40 - i,
    {
        let b = bytes[i];
        let digit = (48 <= b && b <= 57) || (97 <= b && b <= 102);
        proof {
            let c = rev@[i as int];
            assert(c as u8 == bytes@[i as int]);
            assert('\0' <= c <= '\u{7f}');
            assert(digit == is_hex_digit(c));
        }
        if !digit {
            return false;
        }
        i += 1;
    }
    true
}

/// Skipping a reference that is not the one looked for changes nothing.
proof fn advertised_skips(refs: Seq<RemoteRefView>, name: Seq<char>, i: int)
    requires
        0 <= i < refs.len(),
        !(refs[i].name() == name && refs[i].object() is Some),
    ensures
        advertised(refs.skip(i), name) == advertised(refs.skip(i + 1), name),
{
    assert(refs.skip(i).skip(1) =~= refs.skip(i + 1));
}

/// The object of the first reference named `name` that leads to one;
/// `None` says that there is none.
pub fn find_advertised<'a>(remote_refs: &'a [RemoteRef], name: &str) -> (found: Option<
    &'a ObjectId,
>)
    ensures
        borrowed_id_view(found) == advertised(refs_view(remote_refs@), name@),
{
    let ghost all = refs_view(remote_refs@);
    let mut i: usize = 0;
    assert(all.skip(0) =~= all);
    while i < remote_refs.len()
        invariant
            i <= remote_refs@.len(),
            all == refs_view(remote_refs@),
            advertised(all, name@) == advertised(all.skip(i as int), name@),
        decreases remote_refs@.len() - i,
    {
        let candidate = &remote_refs[i];
        assert(all.skip(i as int)[0] == candidate@);
        if same(candidate.name().as_str(), name) {
            if let Some(id) = candidate.object() {
                return Some(id);
            }
        }
        proof {
            advertised_skips(all, name@, i as int);
        }
        i += 1;
    }
    assert(all.skip(i as int).len() == 0);
    None
}

/// Why HEAD cannot be pointed at a revision.
pub enum RewireFailure {
    /// The ref store rejects the name of the tracking branch; the text says
    /// why.
    InvalidName(Seq<char>),
    /// The revision is no branch and no tag of the remote, and no object id.
    NotFound(Seq<char>),
}

/// The update that detaches HEAD at the object `id`.
pub open spec fn detached_at(id: Seq<char>, message: Seq<char>) -> HeadUpdateView {
    HeadUpdateView {
        edits: seq![plain_edit("HEAD"@, TargetView::Peeled(id), RefLog::AndReference, message)],
        packed_refs: false,
        lock: LockPolicy::FailImmediately,
        log_only: None,
    }
}

/// The update that sets the branch tracking `rev` to the object `id` and
/// makes HEAD symbolic to that branch.
pub open spec fn tracking(rev: Seq<char>, id: Seq<char>, message: Seq<char>) -> HeadUpdateView {
    HeadUpdateView {
        edits: seq![
            plain_edit(tracking_ref(rev), TargetView::Peeled(id), RefLog::AndReference, message),
            plain_edit(
                "HEAD"@,
                TargetView::Symbolic(tracking_ref(rev)),
                RefLog::AndReference,
                message,
            ),
        ],
        packed_refs: true,
        lock: LockPolicy::FailImmediately,
        log_only: None,
    }
}

/// The update that points HEAD at the revision `rev`, or why there is none.
///
/// `rejection` is the ref store's verdict on the name of the branch that
/// tracks `rev`, and is looked at only where `rev` is a branch of the remote.
///
/// - `rev` is a branch of the remote: HEAD follows the tracking branch, which
///   is set to the branch's object in the same transaction.
/// - Else `rev` is a tag of the remote: HEAD is detached at the object that
///   the tag leads to.
/// - Else `rev` is the text of an object id: HEAD is detached at that object.
pub open spec fn planned_rewire(
    refs: Seq<RemoteRefView>,
    rev: Seq<char>,
    rejection: Option<Seq<char>>,
    message: Seq<char>,
) -> Result<HeadUpdateView, RewireFailure> {
    match advertised(refs, branch_ref(rev)) {
        Some(id) => match rejection {
            Some(why) => Err(
                RewireFailure::InvalidName(invalid_head_ref(tracking_ref(rev), why)),
            ),
            None => Ok(tracking(rev, id, message)),
        },
        None => match advertised(refs, tag_ref(rev)) {
            Some(id) => Ok(detached_at(id, message)),
            None => if is_object_id(rev) {
                Ok(detached_at(rev, message))
            } else {
                Err(RewireFailure::NotFound(rev))
            },
        },
    }
}

/// Whether `outcome` is what `planned` asks for: the same update, or the
/// failure of the same kind with the same text.
pub open spec fn as_rewired(
    outcome: Result<HeadUpdate, GixError>,
    planned: Result<HeadUpdateView, RewireFailure>,
) -> bool {
    match planned {
        Ok(update) => outcome matches Ok(made) && made@ == update,
        Err(RewireFailure::InvalidName(text)) => outcome matches Err(
            GixError::RefTransaction(said),
        ) && said@ == text,
        Err(RewireFailure::NotFound(rev)) => outcome matches Err(
            GixError::RevisionNotFound(said),
        ) && said@ == rev,
    }
}

/// The update that detaches HEAD at the object whose id has the text `hex`.
fn detach(hex: &str, message: &str) -> (update: HeadUpdate)
    ensures
        update@ == detached_at(hex@, message@),
{
    let mut edits: Vec<RefEdit> = Vec::new();
    let id = ObjectId { hex: hex.to_owned() };
    edits.push(plain("HEAD".to_owned(), Target::Peeled(id), RefLog::AndReference, message));
    let update = HeadUpdate {
        edits,
        packed_refs: false,
        lock: LockPolicy::FailImmediately,
        log_only: None,
    };
    assert(update@.edits =~= detached_at(hex@, message@).edits);
    update
}

/// The update that points HEAD at the revision `rev`, given the ref store's
/// verdict `rejection` on the name of the branch that tracks `rev`, exactly
/// as [`planned_rewire`] states it.
pub fn plan_rewire(
    remote_refs: &[RemoteRef],
    rev: &str,
    rejection: Option<String>,
    reflog_message: &str,
) -> (outcome: Result<HeadUpdate, GixError>)
    ensures
        as_rewired(
            outcome,
            planned_rewire(
                refs_view(remote_refs@),
                rev@,
                text_option_view(rejection),
                reflog_message@,
            ),
        ),
{
    let branch = join("refs/heads/", rev);
    if let Some(id) = find_advertised(remote_refs, branch.as_str()) {
        let local = join("refs/remotes/origin/", rev);
        if let Some(why) = rejection {
            let mut said = join("Error::InvalidHeadRef(head_ref_name: ", local.as_str());
            said.push_str(", source: ");
            said.push_str(why.as_str());
            said.push_str(")");
            return Err(GixError::RefTransaction(said));
        }
        let mut edits: Vec<RefEdit> = Vec::new();
        edits.push(
            plain(
                local.clone(),
                Target::Peeled(id.duplicate()),
                RefLog::AndReference,
                reflog_message,
            ),
        );
        edits.push(
            plain("HEAD".to_owned(), Target::Symbolic(local), RefLog::AndReference, reflog_message),
        );
        let update = HeadUpdate {
            edits,
            packed_refs: true,
            lock: LockPolicy::FailImmediately,
            log_only: None,
        };
        assert(update@.edits =~= tracking(rev@, id@, reflog_message@).edits);
        return Ok(update);
    }
    let tag = join("refs/tags/", rev);
    if let Some(id) = find_advertised(remote_refs, tag.as_str()) {
        return Ok(detach(id.hex.as_str(), reflog_message));
    }
    if names_object(rev) {
        Ok(detach(rev, reflog_message))
    } else {
        Err(GixError::RevisionNotFound(rev.to_owned()))
    }
}

/// The ref store's verdict on the name of the branch that tracks `rev`; no
/// verdict where `rev` is no branch of the remote.
pub open spec fn tracking_rejection(refs: Seq<RemoteRefView>, rev: Seq<char>) -> Option<
    Seq<char>,
> {
    if advertised(refs, branch_ref(rev)) is Some {
        full_name_rejection(tracking_ref(rev))
    } else {
        None
    }
}

/// The update that points the local HEAD at the revision `rev` of the
/// remote that advertised `remote_refs`.
///
/// Where `rev` is a branch of the remote, the name of the branch that tracks
/// it is put to the ref store's name check; the update is then exactly what
/// [`planned_rewire`] states for that verdict.
pub fn rewire_head(remote_refs: &[RemoteRef], rev: &str, reflog_message: &str) -> (outcome:
    Result<HeadUpdate, GixError>)
    ensures
        as_rewired(
            outcome,
            planned_rewire(
                refs_view(remote_refs@),
                rev@,
                tracking_rejection(refs_view(remote_refs@), rev@),
                reflog_message@,
            ),
        ),
{
    let branch = join("refs/heads/", rev);
    let rejection = match find_advertised(remote_refs, branch.as_str()) {
        Some(_) => {
            let local = join("refs/remotes/origin/", rev);
            check_full_name(local.as_str())
        },
        None => None,
    };
    plan_rewire(remote_refs, rev, rejection, reflog_message)
}

/// The object that HEAD is to lead to for the revision `rev`: what the
/// remote reports for it, else the object that `rev` itself names.
pub open spec fn wanted(refs: Seq<RemoteRefView>, rev: Seq<char>) -> Seq<char> {
    match reported(refs, rev) {
        Some(id) => id,
        None => rev,
    }
}

/// HEAD leads to the revision. Wherever there is an update that points HEAD
/// at `rev`, committing its edits to any ref store leaves a HEAD that leads,
/// directly or through one symbolic reference, to the object that the
/// remote reports for `rev`, or to the object that `rev` names where the
/// remote reports none.
pub proof fn head_leads_to_revision(
    store: RefStore,
    refs: Seq<RemoteRefView>,
    rev: Seq<char>,
    rejection: Option<Seq<char>>,
    message: Seq<char>,
)
    ensures
        planned_rewire(refs, rev, rejection, message) matches Ok(update) ==> resolve(
            apply_edits(store, update.edits),
            "HEAD"@,
        ) == Some(wanted(refs, rev)),
{
    reveal_strlit("HEAD");
    reveal_strlit("refs/remotes/origin/");
    reveal_with_fuel(apply_edits, 3);
    if let Ok(update) = planned_rewire(refs, rev, rejection, message) {
        assert(tracking_ref(rev).len() >= 20);
        assert(tracking_ref(rev) != "HEAD"@);
        if update.edits.len() == 2 {
            assert(update.edits.drop_last().len() == 1);
            assert(update.edits.drop_last().drop_last().len() == 0);
        } else {
            assert(update.edits.drop_last().len() == 0);
        }
    }
}

/// What was there before does not matter. Two ref stores that get the edits
/// of the same update, one after a fresh clone and one that held an older
/// revision, have a HEAD that leads to the same object.
pub proof fn head_forgets_history(
    fresh: RefStore,
    older: RefStore,
    refs: Seq<RemoteRefView>,
    rev: Seq<char>,
    rejection: Option<Seq<char>>,
    message: Seq<char>,
)
    ensures
        planned_rewire(refs, rev, rejection, message) matches Ok(update) ==> resolve(
            apply_edits(fresh, update.edits),
            "HEAD"@,
        ) == resolve(apply_edits(older, update.edits), "HEAD"@),
{
    head_leads_to_revision(fresh, refs, rev, rejection, message);
    head_leads_to_revision(older, refs, rev, rejection, message);
}

} // verus!
