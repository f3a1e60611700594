//! Where a repository is to be synchronised to.

use vstd::prelude::*;

verus! {

/// A local folder that may or may not exist yet, as its caller found it.
#[derive(Debug, PartialEq, Eq)]
pub struct Destination {
    /// The path of the folder.
    pub path: String,
    /// Whether anything exists at that path.
    pub exists: bool,
    /// The path of the folder's parent, where it has one.
    pub parent: Option<String>,
}

/// The view of a [`Destination`].
pub struct DestinationView {
    pub path: Seq<char>,
    pub exists: bool,
    pub parent: Option<Seq<char>>,
}

impl View for Destination {
    type V = DestinationView;

    open spec fn view(&self) -> DestinationView {
        DestinationView {
            path: self.path@,
            exists: self.exists,
            parent: crate::text::text_option_view(self.parent),
        }
    }
}

} // verus!
