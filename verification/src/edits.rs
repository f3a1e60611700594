//! Ref edits, and what a batch of them does to a ref store.

use vstd::prelude::*;
use crate::refs::ObjectId;

verus! {

/// What a reference is set to.
#[derive(Debug, PartialEq, Eq)]
pub enum Target {
    /// Another reference, by its full name.
    Symbolic(String),
    /// An object.
    Peeled(ObjectId),
}

/// The view of a [`Target`].
pub enum TargetView {
    Symbolic(Seq<char>),
    Peeled(Seq<char>),
}

impl View for Target {
    type V = TargetView;

    open spec fn view(&self) -> TargetView {
        match *self {
            Target::Symbolic(name) => TargetView::Symbolic(name@),
            Target::Peeled(id) => TargetView::Peeled(id@),
        }
    }
}

/// Whether an edit changes the reference and its log, or the log alone.
#[derive(Debug, Clone, Copy, PartialEq, Eq, Structural)]
pub enum RefLog {
    AndReference,
    Only,
}

/// What an edit expects the reference to hold before it is applied.
#[derive(Debug, Clone, Copy, PartialEq, Eq, Structural)]
pub enum PreviousValue {
    /// Whatever is there, or nothing.
    Any,
    /// The reference must not exist yet.
    MustNotExist,
}

/// How long a committer waits for a ref store that another holds locked.
#[derive(Debug, Clone, Copy, PartialEq, Eq, Structural)]
pub enum LockPolicy {
    /// Not at all: a busy lock is a failure.
    FailImmediately,
    /// Until the lock is free.
    Wait,
}

/// One update of one reference.
#[derive(Debug, PartialEq, Eq)]
pub struct RefEdit {
    /// The full name of the reference to update.
    pub name: String,
    /// Its new value.
    pub new: Target,
    /// What it must hold before.
    pub expected: PreviousValue,
    /// Whether the reference itself changes, or only its log.
    pub mode: RefLog,
    /// Whether a log is created where the store would keep none.
    pub force_create_reflog: bool,
    /// The line written to the log.
    pub message: String,
    /// Whether a symbolic reference is followed before the edit is applied.
    pub deref: bool,
}

/// The view of a [`RefEdit`].
pub struct RefEditView {
    pub name: Seq<char>,
    pub new: TargetView,
    pub expected: PreviousValue,
    pub mode: RefLog,
    pub force_create_reflog: bool,
    pub message: Seq<char>,
    pub deref: bool,
}

impl View for RefEdit {
    type V = RefEditView;

    open spec fn view(&self) -> RefEditView {
        RefEditView {
            name: self.name@,
            new: self.new@,
            expected: self.expected,
            mode: self.mode,
            force_create_reflog: self.force_create_reflog,
            message: self.message@,
            deref: self.deref,
        }
    }
}

/// The views of a batch of edits, in the order of the batch.
pub open spec fn edits_view(edits: Seq<RefEdit>) -> Seq<RefEditView> {
    Seq::new(edits.len(), |i: int| edits[i]@)
}

/// The view of an optional edit.
pub open spec fn edit_option_view(edit: Option<RefEdit>) -> Option<RefEditView> {
    match edit {
        Some(edit) => Some(edit@),
        None => None,
    }
}

/// A ref store: what each existing reference holds, by full name.
pub type RefStore = Map<Seq<char>, TargetView>;

/// The store after one edit that expects any previous value: an edit of the
/// log alone leaves every reference as it was, any other sets its reference
/// and no other.
pub open spec fn apply_edit(store: RefStore, edit: RefEditView) -> RefStore {
    match edit.mode {
        RefLog::Only => store,
        RefLog::AndReference => store.insert(edit.name, edit.new),
    }
}

/// The store after a batch of edits, applied in order.
pub open spec fn apply_edits(store: RefStore, edits: Seq<RefEditView>) -> RefStore
    decreases edits.len(),
{
    if edits.len() == 0 {
        store
    } else {
        apply_edit(apply_edits(store, edits.drop_last()), edits.last())
    }
}

/// The object that `name` leads to in `store`, directly or through one
/// symbolic reference; `None` where it leads to none.
pub open spec fn resolve(store: RefStore, name: Seq<char>) -> Option<Seq<char>> {
    if !store.contains_key(name) {
        None
    } else {
        match store[name] {
            TargetView::Peeled(id) => Some(id),
            TargetView::Symbolic(to) => if store.contains_key(to) {
                match store[to] {
                    TargetView::Peeled(id) => Some(id),
                    TargetView::Symbolic(_) => None,
                }
            } else {
                None
            },
        }
    }
}

/// A batch of edits overrides a store with what the batch alone writes.
pub proof fn edits_override(store: RefStore, edits: Seq<RefEditView>)
    ensures
        apply_edits(store, edits) == store.union_prefer_right(apply_edits(Map::empty(), edits)),
    decreases edits.len(),
{
    let written = apply_edits(Map::empty(), edits);
    if edits.len() == 0 {
        assert(store =~= store.union_prefer_right(written));
    } else {
        edits_override(store, edits.drop_last());
        let before = apply_edits(Map::empty(), edits.drop_last());
        assert(apply_edit(store.union_prefer_right(before), edits.last())
            =~= store.union_prefer_right(apply_edit(before, edits.last())));
    }
}

/// Committing a batch of edits a second time changes nothing: the store
/// after two commits of the batch is the store after one.
pub proof fn edits_twice(store: RefStore, edits: Seq<RefEditView>)
    ensures
        apply_edits(apply_edits(store, edits), edits) == apply_edits(store, edits),
{
    let written = apply_edits(Map::empty(), edits);
    edits_override(store, edits);
    edits_override(apply_edits(store, edits), edits);
    assert(store.union_prefer_right(written).union_prefer_right(written)
        =~= store.union_prefer_right(written));
}

/// Committing two batches one after the other is committing their edits as
/// one batch.
pub proof fn edits_in_sequence(store: RefStore, first: Seq<RefEditView>, second: Seq<RefEditView>)
    ensures
        apply_edits(apply_edits(store, first), second) == apply_edits(store, first + second),
    decreases second.len(),
{
    if second.len() == 0 {
        assert(first + second =~= first);
    } else {
        edits_in_sequence(store, first, second.drop_last());
        assert((first + second).drop_last() =~= first + second.drop_last());
        assert((first + second).last() == second.last());
    }
}

/// Synchronising again changes no reference. Where a synchronisation
/// commits the batch `first` and then the batch `second`, the store after
/// two synchronisations is the store after one.
pub proof fn resync_keeps_refs(store: RefStore, first: Seq<RefEditView>, second: Seq<RefEditView>)
    ensures
        ({
            let once = apply_edits(apply_edits(store, first), second);
            apply_edits(apply_edits(once, first), second) == once
        }),
{
    let once = apply_edits(apply_edits(store, first), second);
    edits_in_sequence(store, first, second);
    edits_in_sequence(once, first, second);
    edits_twice(store, first + second);
}

} // verus!
