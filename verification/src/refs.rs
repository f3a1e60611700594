//! What a remote advertises and what is written to the local ref store:
//! object ids, remote references and ref edits, each with its view.

use vstd::prelude::*;

verus! {

/// The id of a git object, held as its lower-case hexadecimal text.
#[derive(Debug, PartialEq, Eq)]
pub struct ObjectId {
    pub hex: String,
}

impl View for ObjectId {
    type V = Seq<char>;

    open spec fn view(&self) -> Seq<char> {
        self.hex@
    }
}

impl ObjectId {
    /// An id with the same text.
    pub fn duplicate(&self) -> (copy: ObjectId)
        ensures
            copy@ == self@,
    {
        ObjectId { hex: self.hex.clone() }
    }
}

/// One reference that a remote advertised during the fetch negotiation.
#[allow(inconsistent_fields)]
#[derive(Debug, PartialEq, Eq)]
pub enum RemoteRef {
    /// The name points at the tag object `tag`, which leads to `object`.
    Peeled { full_ref_name: String, tag: ObjectId, object: ObjectId },
    /// The name points straight at an object.
    Direct { full_ref_name: String, object: ObjectId },
    /// The name points at another reference, which may already be peeled to
    /// an object.
    Symbolic { full_ref_name: String, target: String, object: Option<ObjectId> },
    /// The name points at a reference that has no object yet.
    Unborn { full_ref_name: String, target: String },
}

/// The view of a [`RemoteRef`].
#[allow(inconsistent_fields)]
pub enum RemoteRefView {
    Peeled { full_ref_name: Seq<char>, tag: Seq<char>, object: Seq<char> },
    Direct { full_ref_name: Seq<char>, object: Seq<char> },
    Symbolic { full_ref_name: Seq<char>, target: Seq<char>, object: Option<Seq<char>> },
    Unborn { full_ref_name: Seq<char>, target: Seq<char> },
}

impl RemoteRefView {
    /// The name under which the remote advertised the reference.
    pub open spec fn name(self) -> Seq<char> {
        match self {
            RemoteRefView::Peeled { full_ref_name, .. } => full_ref_name,
            RemoteRefView::Direct { full_ref_name, .. } => full_ref_name,
            RemoteRefView::Symbolic { full_ref_name, .. } => full_ref_name,
            RemoteRefView::Unborn { full_ref_name, .. } => full_ref_name,
        }
    }

    /// The object that the reference leads to in the end, if the remote
    /// named one.
    pub open spec fn object(self) -> Option<Seq<char>> {
        match self {
            RemoteRefView::Peeled { object, .. } => Some(object),
            RemoteRefView::Direct { object, .. } => Some(object),
            RemoteRefView::Symbolic { object, .. } => object,
            RemoteRefView::Unborn { .. } => None,
        }
    }

    /// The reference that this one points at, if it is not direct.
    pub open spec fn target(self) -> Option<Seq<char>> {
        match self {
            RemoteRefView::Peeled { .. } => None,
            RemoteRefView::Direct { .. } => None,
            RemoteRefView::Symbolic { target, .. } => Some(target),
            RemoteRefView::Unborn { target, .. } => Some(target),
        }
    }
}

/// The view of an optional object id.
pub open spec fn id_view(id: Option<ObjectId>) -> Option<Seq<char>> {
    match id {
        Some(id) => Some(id@),
        None => None,
    }
}

impl View for RemoteRef {
    type V = RemoteRefView;

    open spec fn view(&self) -> RemoteRefView {
        match *self {
            RemoteRef::Peeled { full_ref_name, tag, object } => RemoteRefView::Peeled {
                full_ref_name: full_ref_name@,
                tag: tag@,
                object: object@,
            },
            RemoteRef::Direct { full_ref_name, object } => RemoteRefView::Direct {
                full_ref_name: full_ref_name@,
                object: object@,
            },
            RemoteRef::Symbolic { full_ref_name, target, object } => RemoteRefView::Symbolic {
                full_ref_name: full_ref_name@,
                target: target@,
                object: id_view(object),
            },
            RemoteRef::Unborn { full_ref_name, target } => RemoteRefView::Unborn {
                full_ref_name: full_ref_name@,
                target: target@,
            },
        }
    }
}

/// The view of an optional borrowed object id.
pub open spec fn borrowed_id_view(id: Option<&ObjectId>) -> Option<Seq<char>> {
    match id {
        Some(id) => Some(id@),
        None => None,
    }
}

/// The views of a remote reference set, in the order of the set.
pub open spec fn refs_view(refs: Seq<RemoteRef>) -> Seq<RemoteRefView> {
    Seq::new(refs.len(), |i: int| refs[i]@)
}

impl RemoteRef {
    /// The name under which the remote advertised the reference.
    pub fn name(&self) -> (name: &String)
        ensures
            name@ == self@.name(),
    {
        match self {
            RemoteRef::Peeled { full_ref_name, .. } => full_ref_name,
            RemoteRef::Direct { full_ref_name, .. } => full_ref_name,
            RemoteRef::Symbolic { full_ref_name, .. } => full_ref_name,
            RemoteRef::Unborn { full_ref_name, .. } => full_ref_name,
        }
    }

    /// The object that the reference leads to in the end, if the remote
    /// named one.
    pub fn object(&self) -> (object: Option<&ObjectId>)
        ensures
            borrowed_id_view(object) == self@.object(),
    {
        match self {
            RemoteRef::Peeled { object, .. } => Some(object),
            RemoteRef::Direct { object, .. } => Some(object),
            RemoteRef::Symbolic { object, .. } => object.as_ref(),
            RemoteRef::Unborn { .. } => None,
        }
    }
}

} // verus!
