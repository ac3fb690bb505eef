//! Looking up installation directories: what can go wrong, and how the
//! candidates below a directory that was found are laid out.
//!
//! A lookup that fails is no failure of the enumeration. It contributes no
//! candidates, and the enumeration goes on with the next source.

use crate::paths::{join_each, push_joined, PathStyle};
use vstd::prelude::*;

verus! {

/// Why a lookup of an installation directory gave no directory.
#[derive(Clone, Copy, Debug, PartialEq, Eq, Structural)]
pub enum LookupError {
    /// The host does not name the place to look in: a variable is not set.
    Unsupported,
    /// The place is named, and nothing is there.
    NotFound,
    /// The lookup failed for another reason.
    Other,
}

/// What a lookup gave: the path of the directory that it found, or nothing.
/// Why a lookup failed plays no part in what follows.
pub open spec fn found(root: Result<String, LookupError>) -> Option<Seq<char>> {
    match root {
        Ok(dir) => Some(dir@),
        Err(_) => None,
    }
}

/// The candidates that one source contributes: each of `subs` below the
/// directory that the lookup found, in the order of `subs`, and none where
/// the lookup found nothing.
pub open spec fn candidates_below(
    style: PathStyle,
    root: Option<Seq<char>>,
    subs: Seq<Seq<char>>,
) -> Seq<Seq<char>> {
    match root {
        Some(dir) => join_each(style, dir, subs),
        None => Seq::empty(),
    }
}

/// Appends to `out` the candidates that the source with the lookup result
/// `root` contributes.
pub fn push_candidates_below(
    out: &mut Vec<String>,
    style: PathStyle,
    root: &Result<String, LookupError>,
    subs: &Vec<&str>,
)
    ensures
        final(out).deep_view() == old(out).deep_view() + candidates_below(
            style,
            found(*root),
            subs.deep_view(),
        ),
{
    match root {
        Ok(dir) => {
            push_joined(out, style, dir.as_str(), subs);
        },
        Err(_) => {
            assert(out.deep_view() + Seq::<Seq<char>>::empty() == out.deep_view());
        },
    }
}

} // verus!
