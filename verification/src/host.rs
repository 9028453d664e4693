//! Host validation, through the `url` crate.
//!
//! The adapter fails at construction when the configured host is not one
//! the URL parser accepts; everything built on the host after that point
//! is plain verified string assembly.

use vstd::prelude::*;

verus! {

/// Whether the `url` crate accepts `s` as a URL host: a domain name after
/// IDNA processing, an IPv4 address, or a bracketed IPv6 address. The
/// answer depends on the string alone.
pub uninterp spec fn host_ok(s: Seq<char>) -> bool;

/// Relies on url::Host::parse, which accepts or rejects a host string.
#[verifier::external_body]
pub(crate) fn host_is_valid(s: &str) -> (r: bool)
    ensures
        r == host_ok(s@),
{
    url::Host::parse(s).is_ok()
}

} // verus!
