//! Workflow helpers: the sidecar address the workflow client connects to,
//! and the options for fetching workflow metadata.

use vstd::prelude::*;

use crate::config::ClientEnv;
use crate::text::{contains_str, find};

verus! {

/// The address with `http://` in front when it has no URL scheme (no `://`).
pub open spec fn with_url_scheme(address: Seq<char>) -> Seq<char> {
    if find(address, "://"@) is Some {
        address
    } else {
        "http://"@ + address
    }
}

/// Prepends `http://` to `address` when no URL scheme is present, so that
/// the gRPC channel can parse it.
pub fn ensure_url_scheme(address: String) -> (r: String)
    ensures
        r@ == with_url_scheme(address@),
{
    if contains_str(address.as_str(), "://") {
        address
    } else {
        String::from_str("http://").concat(address.as_str())
    }
}

/// Adding the scheme twice adds it once: an address with a scheme is kept.
pub proof fn lemma_url_scheme_idempotent(address: Seq<char>)
    ensures
        with_url_scheme(with_url_scheme(address)) == with_url_scheme(address),
{
    reveal_strlit("http://");
    reveal_strlit("://");
    if find(address, "://"@) is None {
        let a = "http://"@ + address;
        assert(crate::text::occurs_at(a, "://"@, 4)) by {
            assert(a.subrange(4, 7) =~= "://"@);
        }
        crate::text::lemma_find_from(a, "://"@, 0);
    }
}

/// The address the workflow client dials always carries a URL scheme.
pub proof fn lemma_url_scheme_present(address: Seq<char>)
    ensures
        find(with_url_scheme(address), "://"@) is Some,
{
    reveal_strlit("http://");
    reveal_strlit("://");
    if find(address, "://"@) is None {
        let a = "http://"@ + address;
        assert(crate::text::occurs_at(a, "://"@, 4)) by {
            assert(a.subrange(4, 7) =~= "://"@);
        }
        crate::text::lemma_find_from(a, "://"@, 0);
    }
}

/// The sidecar address the workflow client uses: the client's default
/// address, with `http://` in front when it lacks a scheme.
pub fn default_sidecar_address(env: &ClientEnv) -> (r: String)
    ensures
        r@ == with_url_scheme(env.spec_address()),
{
    ensure_url_scheme(crate::config::default_sidecar_address(env))
}

/// Options for fetching workflow metadata.
#[derive(Debug, Clone, Copy, Default)]
pub struct FetchOptions {
    /// When `true`, the metadata includes the workflow's inputs and outputs.
    pub fetch_payloads: bool,
}

impl FetchOptions {
    /// Options that leave payloads out.
    pub fn new() -> (r: FetchOptions)
        ensures
            !r.fetch_payloads,
    {
        FetchOptions { fetch_payloads: false }
    }

    /// Sets whether inputs and outputs are included.
    pub fn with_fetch_payloads(self, fetch_payloads: bool) -> (r: FetchOptions)
        ensures
            r.fetch_payloads == fetch_payloads,
    {
        FetchOptions { fetch_payloads }
    }
}

} // verus!
