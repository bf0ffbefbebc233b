//! Resolution of IANA timezone identifiers against the compiled-in timezone
//! database. The decoder accepts a payload's timezone field only when the
//! database knows the identifier.

use vstd::prelude::*;

verus! {

/// Whether the text is an IANA timezone identifier that the timezone
/// database resolves. The answer depends on the text alone.
pub uninterp spec fn tz_valid(s: Seq<char>) -> bool;

/// Relies on chrono_tz's `FromStr` impl for `Tz`: a lookup of the exact
/// identifier in the compiled-in IANA table, succeeding for a fixed set of
/// names independent of machine and environment.
#[verifier::external_body]
pub(crate) fn tz_resolves(s: &str) -> (r: bool)
    ensures
        r == tz_valid(s@),
{
    s.parse::<chrono_tz::Tz>().is_ok()
}

} // verus!
