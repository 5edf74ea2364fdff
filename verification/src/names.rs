//! Short names for the paths of types.

use vstd::prelude::*;

verus! {

/// The short form of the path of a type: the path with the modules taken off every segment, as
/// in `Vec<Option<u32>>` for `alloc::vec::Vec<core::option::Option<u32>>`.
pub uninterp spec fn short_name(full_name: Seq<char>) -> Seq<char>;

/// Shortens the path of a type with `disqualified::ShortName`, through its `to_string`. The
/// contract only names the result: it is the same for the same path, and nothing more is claimed
/// of it.
#[verifier::external_body]
pub(crate) fn shorten(full_name: &str) -> (short: String)
    ensures
        short@ == short_name(full_name@),
{
    disqualified::ShortName(full_name).to_string()
}

} // verus!
