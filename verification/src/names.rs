//! Full reference names, as the ref store accepts them.

use vstd::prelude::*;
use crate::text::text_option_view;

verus! {

/// The verdict of `gix_ref::FullName::try_from` on `name`: `None` where it
/// accepts the text as a full reference name, else the text of the error it
/// returns.
pub uninterp spec fn full_name_rejection(name: Seq<char>) -> Option<Seq<char>>;

/// Calls `gix_ref::FullName::try_from` on `name`. Nothing is proved of it:
/// the contract only gives its verdict the name [`full_name_rejection`],
/// which is to say that the verdict depends on the text of `name` alone.
#[verifier::external_body]
pub(crate) fn check_full_name(name: &str) -> (rejection: Option<String>)
    ensures
        text_option_view(rejection) == full_name_rejection(name@),
{
    match gix_ref::FullName::try_from(name) {
        Ok(_) => None,
        Err(err) => Some(err.to_string()),
    }
}

} // verus!
