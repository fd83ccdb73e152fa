//! Where an item's files live: home expansion and the ignore-list artifact.

use vstd::prelude::*;
use vstd::string::*;
use crate::text::ends_with;

verus! {

/// The path begins with a tilde that stands alone or is followed by a
/// separator: the only paths that home expansion may change.
pub open spec fn tilde_led(path: Seq<char>) -> bool {
    &&& path.len() >= 1
    &&& path[0] == '~'
    &&& (path.len() == 1 || path[1] == '/' || path[1] == '\\')
}

/// What home expansion may return for `path`, whatever the home directory
/// is: a path without a leading tilde comes back unchanged, and an expanded
/// one keeps everything that followed the tilde.
pub open spec fn home_expanded(path: Seq<char>, expanded: Seq<char>) -> bool {
    if tilde_led(path) {
        ends_with(expanded, path.skip(1))
    } else {
        expanded == path
    }
}

/// Calls `shellexpand::tilde`.
///
/// Trusted: the result depends on the user's home directory, so only what
/// holds of every outcome is stated. `shellexpand` leaves the input as it is
/// unless it starts with `~` alone or `~` and a separator; otherwise it
/// replaces that tilde by the home directory, or leaves the input as it is
/// when no home directory is known.
#[verifier::external_body]
pub(crate) fn tilde(path: &str) -> (expanded: String)
    ensures
        home_expanded(path@, expanded@),
{
    shellexpand::tilde(path).into_owned()
}

/// The result of `std::path::Path::join` on two paths given as text, on the
/// platform the library is built for.
pub uninterp spec fn path_join(base: Seq<char>, leaf: Seq<char>) -> Seq<char>;

/// Calls `std::path::Path::join`.
///
/// Trusted: the joined path is a function of the two paths alone. Both are
/// valid UTF-8, so the text of the result loses nothing.
#[verifier::external_body]
pub(crate) fn join(base: &str, leaf: &str) -> (joined: String)
    ensures
        joined@ == path_join(base@, leaf@),
{
    std::path::Path::new(base).join(leaf).to_string_lossy().into_owned()
}

} // verus!
