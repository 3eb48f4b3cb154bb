//! Errors of the SDK, and the endpoint text that diagnostics may show.

use vstd::prelude::*;

use crate::text::{
    find, find_from, find_str, is_whitespace, occurs_at, skip_whitespace_from, trim, trim_end_at,
    trim_str,
};

verus! {

#[verifier::external_type_specification]
#[verifier::external_body]
pub struct ExStatus(tonic::Status);

/// Errors returned by the Dapr SDK client and helpers.
#[derive(Debug)]
#[non_exhaustive]
pub enum Error {
    /// The transport layer failed to establish or maintain a connection.
    TransportError,
    /// A gRPC call returned a non-OK status.
    GrpcError(GrpcError),
    /// A value could not be parsed as an integer (for example
    /// `DAPR_GRPC_PORT` or `DAPR_CLIENT_TIMEOUT_SECONDS`).
    ParseIntError,
    /// An environment variable lookup failed.
    VarError,
    /// A payload could not be (de)serialized.
    SerializationError,
    /// A gRPC endpoint could not be parsed; the text is the sanitized endpoint.
    InvalidEndpoint(String),
    /// Establishing the gRPC connection exceeded the connect timeout.
    ConnectTimeout,
    /// A value supplied as gRPC metadata held characters that HTTP/2 metadata
    /// does not allow.
    InvalidMetadata,
}

/// A failed gRPC call's status.
#[derive(Debug)]
pub struct GrpcError {
    _status: tonic::Status,
}

/// The error that wraps `status`.
pub closed spec fn grpc_error_of(status: tonic::Status) -> GrpcError {
    GrpcError { _status: status }
}

impl GrpcError {
    /// The status of the failed call.
    pub closed spec fn status(&self) -> tonic::Status {
        self._status
    }

    /// Wraps the status of a failed call.
    pub fn new(status: tonic::Status) -> (r: GrpcError)
        ensures
            r == grpc_error_of(status),
            r.status() == status,
    {
        GrpcError { _status: status }
    }

    /// The status of the failed call, handed back.
    pub fn into_status(self) -> (r: tonic::Status)
        ensures
            r == self.status(),
    {
        self._status
    }
}

impl From<tonic::Status> for Error {
    /// A failed call's status is a [`Error::GrpcError`].
    fn from(status: tonic::Status) -> (r: Error)
        ensures
            r == Error::GrpcError(grpc_error_of(status)),
    {
        Error::GrpcError(GrpcError::new(status))
    }
}

impl vstd::std_specs::convert::FromSpecImpl<tonic::Status> for Error {
    open spec fn obeys_from_spec() -> bool {
        true
    }

    open spec fn from_spec(v: tonic::Status) -> Error {
        Error::GrpcError(grpc_error_of(v))
    }
}

impl From<tonic::metadata::errors::InvalidMetadataValue> for Error {
    /// A metadata value that HTTP/2 refuses is a [`Error::InvalidMetadata`].
    fn from(_error: tonic::metadata::errors::InvalidMetadataValue) -> (r: Error)
        ensures
            r == Error::InvalidMetadata,
    {
        Error::InvalidMetadata
    }
}

impl vstd::std_specs::convert::FromSpecImpl<tonic::metadata::errors::InvalidMetadataValue> for Error {
    open spec fn obeys_from_spec() -> bool {
        true
    }

    open spec fn from_spec(v: tonic::metadata::errors::InvalidMetadataValue) -> Error {
        Error::InvalidMetadata
    }
}

/// Characters that end the authority part of an endpoint.
pub open spec fn is_authority_end(c: char) -> bool {
    c == '/' || c == '?' || c == '#'
}

/// Index of the first authority terminator at or after `i` (the length when
/// there is none).
pub open spec fn authority_end_from(s: Seq<char>, i: int) -> int
    decreases s.len() - i,
{
    if i < 0 || i >= s.len() {
        s.len() as int
    } else if is_authority_end(s[i]) {
        i
    } else {
        authority_end_from(s, i + 1)
    }
}

/// Index just after the last `@` of `s.take(j)` (zero when there is none).
pub open spec fn after_last_at_sign(s: Seq<char>, j: int) -> int
    decreases j,
{
    if j <= 0 || j > s.len() {
        0
    } else if s[j - 1] == '@' {
        j
    } else {
        after_last_at_sign(s, j - 1)
    }
}

/// The text in front of the first `://` and the text behind it, as
/// `str::split_once("://")` gives them.
pub open spec fn split_scheme(s: Seq<char>) -> Option<(Seq<char>, Seq<char>)> {
    match find(s, "://"@) {
        Some(i) => Some((s.take(i), s.skip(i + 3))),
        None => None,
    }
}

/// Host and port of the text behind the scheme: the authority (up to the
/// first `/`, `?` or `#`), behind its last `@`, trimmed.
pub open spec fn host_port_of(rest: Seq<char>) -> Seq<char> {
    let authority = rest.take(authority_end_from(rest, 0));
    trim(authority.skip(after_last_at_sign(authority, authority.len() as int)))
}

/// The diagnostics-safe form of an endpoint: `<empty>` for blank input,
/// `<invalid>` when no host remains, otherwise `scheme://host[:port]` when a
/// scheme is present and `host[:port]` when not.
pub open spec fn sanitized_endpoint(input: Seq<char>) -> Seq<char> {
    let t = trim(input);
    if t.len() == 0 {
        "<empty>"@
    } else {
        match split_scheme(t) {
            Some((scheme, rest)) => {
                let hp = host_port_of(rest);
                if hp.len() == 0 {
                    "<invalid>"@
                } else {
                    scheme + "://"@ + hp
                }
            },
            None => {
                let hp = host_port_of(t);
                if hp.len() == 0 {
                    "<invalid>"@
                } else {
                    hp
                }
            },
        }
    }
}

/// Whether `s` holds none of the characters that set off user information,
/// a path, a query or a fragment.
pub open spec fn is_bare_host(s: Seq<char>) -> bool {
    forall|i: int| 0 <= i < s.len() ==> s[i] != '@' && !is_authority_end(#[trigger] s[i])
}

proof fn lemma_authority_end_bound(s: Seq<char>, i: int)
    requires
        0 <= i <= s.len(),
    ensures
        i <= authority_end_from(s, i) <= s.len(),
        forall|j: int| i <= j < authority_end_from(s, i) ==> !is_authority_end(#[trigger] s[j]),
    decreases s.len() - i,
{
    if i < s.len() && !is_authority_end(s[i]) {
        lemma_authority_end_bound(s, i + 1);
    }
}

proof fn lemma_after_last_at_bound(s: Seq<char>, j: int)
    requires
        0 <= j <= s.len(),
    ensures
        0 <= after_last_at_sign(s, j) <= j,
        forall|k: int| after_last_at_sign(s, j) <= k < j ==> #[trigger] s[k] != '@',
    decreases j,
{
    if j > 0 && s[j - 1] != '@' {
        lemma_after_last_at_bound(s, j - 1);
    }
}

proof fn lemma_skip_whitespace_bound(s: Seq<char>, i: int)
    requires
        0 <= i <= s.len(),
    ensures
        i <= skip_whitespace_from(s, i) <= s.len(),
    decreases s.len() - i,
{
    if i < s.len() && is_whitespace(s[i]) {
        lemma_skip_whitespace_bound(s, i + 1);
    }
}

proof fn lemma_trim_end_bound(s: Seq<char>, j: int)
    requires
        0 <= j <= s.len(),
    ensures
        0 <= trim_end_at(s, j) <= j,
    decreases j,
{
    if j > 0 && is_whitespace(s[j - 1]) {
        lemma_trim_end_bound(s, j - 1);
    }
}

/// Trimming keeps only characters of the text, in place.
proof fn lemma_trim_keeps_bare_host(s: Seq<char>)
    requires
        is_bare_host(s),
    ensures
        is_bare_host(trim(s)),
{
    lemma_skip_whitespace_bound(s, 0);
    lemma_trim_end_bound(s, s.len() as int);
    let a = skip_whitespace_from(s, 0);
    let b = trim_end_at(s, s.len() as int);
    if a < b {
        assert forall|i: int| 0 <= i < trim(s).len() implies trim(s)[i] != '@' && !is_authority_end(
            #[trigger] trim(s)[i],
        ) by {
            assert(trim(s)[i] == s[a + i]);
        }
    }
}

/// The host part that a sanitized endpoint shows holds no user
/// information, path, query or fragment.
proof fn lemma_host_port_is_bare(rest: Seq<char>)
    ensures
        is_bare_host(host_port_of(rest)),
{
    lemma_authority_end_bound(rest, 0);
    let authority = rest.take(authority_end_from(rest, 0));
    lemma_after_last_at_bound(authority, authority.len() as int);
    let start = after_last_at_sign(authority, authority.len() as int);
    let tail = authority.skip(start);
    assert forall|i: int| 0 <= i < tail.len() implies tail[i] != '@' && !is_authority_end(
        #[trigger] tail[i],
    ) by {
        assert(tail[i] == authority[start + i]);
        assert(authority[start + i] == rest[start + i]);
    }
    lemma_trim_keeps_bare_host(tail);
}

/// Credentials never reach diagnostics: a sanitized endpoint is one of the
/// markers `<empty>` and `<invalid>`, or a non-empty host (with its port)
/// free of `@`, `/`, `?` and `#`, behind the scheme of the input and `://`
/// when the input has a scheme.
pub proof fn lemma_sanitized_endpoint_hides_credentials(input: Seq<char>)
    ensures
        ({
            let r = sanitized_endpoint(input);
            ||| r == "<empty>"@
            ||| r == "<invalid>"@
            ||| exists|host: Seq<char>|
                host.len() > 0 && is_bare_host(host) && r == match split_scheme(trim(input)) {
                    Some((scheme, _)) => scheme + "://"@ + host,
                    None => host,
                }
        }),
{
    let t = trim(input);
    if t.len() != 0 {
        match split_scheme(t) {
            Some((scheme, rest)) => {
                lemma_host_port_is_bare(rest);
            },
            None => {
                lemma_host_port_is_bare(t);
            },
        }
    }
}

proof fn lemma_skip_whitespace_lands(s: Seq<char>, i: int)
    requires
        0 <= i <= s.len(),
    ensures
        skip_whitespace_from(s, i) < s.len() ==> !is_whitespace(s[skip_whitespace_from(s, i)]),
    decreases s.len() - i,
{
    if i < s.len() && is_whitespace(s[i]) {
        lemma_skip_whitespace_lands(s, i + 1);
    }
}

proof fn lemma_trim_end_lands(s: Seq<char>, j: int)
    requires
        0 <= j <= s.len(),
    ensures
        trim_end_at(s, j) > 0 ==> !is_whitespace(s[trim_end_at(s, j) - 1]),
    decreases j,
{
    if j > 0 && is_whitespace(s[j - 1]) {
        lemma_trim_end_lands(s, j - 1);
    }
}

/// Trimmed text neither starts nor ends with whitespace.
proof fn lemma_trim_ends(s: Seq<char>)
    ensures
        trim(s).len() > 0 ==> !is_whitespace(trim(s)[0]) && !is_whitespace(trim(s).last()),
{
    lemma_skip_whitespace_bound(s, 0);
    lemma_trim_end_bound(s, s.len() as int);
    lemma_skip_whitespace_lands(s, 0);
    lemma_trim_end_lands(s, s.len() as int);
}

/// The host part neither starts nor ends with whitespace.
proof fn lemma_host_port_trimmed(rest: Seq<char>)
    ensures
        host_port_of(rest).len() > 0 ==> !is_whitespace(host_port_of(rest)[0])
            && !is_whitespace(host_port_of(rest).last()),
{
    let authority = rest.take(authority_end_from(rest, 0));
    lemma_trim_ends(authority.skip(after_last_at_sign(authority, authority.len() as int)));
}

/// Text that neither starts nor ends with whitespace is its own trim.
proof fn lemma_trim_fixed(s: Seq<char>)
    requires
        s.len() > 0 ==> !is_whitespace(s[0]) && !is_whitespace(s.last()),
    ensures
        trim(s) == s,
{
    if s.len() > 0 {
        assert(skip_whitespace_from(s, 0) == 0);
        assert(trim_end_at(s, s.len() as int) == s.len());
        assert(s.subrange(0, s.len() as int) =~= s);
    } else {
        assert(trim(s) =~= s);
    }
}

proof fn lemma_authority_end_none(s: Seq<char>, i: int)
    requires
        0 <= i <= s.len(),
        forall|j: int| i <= j < s.len() ==> !is_authority_end(#[trigger] s[j]),
    ensures
        authority_end_from(s, i) == s.len(),
    decreases s.len() - i,
{
    if i < s.len() {
        lemma_authority_end_none(s, i + 1);
    }
}

proof fn lemma_after_last_at_none(s: Seq<char>, j: int)
    requires
        0 <= j <= s.len(),
        forall|k: int| 0 <= k < j ==> #[trigger] s[k] != '@',
    ensures
        after_last_at_sign(s, j) == 0,
    decreases j,
{
    if j > 0 {
        lemma_after_last_at_none(s, j - 1);
    }
}

/// A bare, trimmed host is its own host part.
proof fn lemma_host_port_fixed(h: Seq<char>)
    requires
        is_bare_host(h),
        trim(h) == h,
    ensures
        host_port_of(h) == h,
{
    lemma_authority_end_none(h, 0);
    assert(h.take(h.len() as int) =~= h);
    lemma_after_last_at_none(h, h.len() as int);
    assert(h.skip(0) =~= h);
}

/// A bare host holds no `://`.
proof fn lemma_bare_host_has_no_scheme(h: Seq<char>)
    requires
        is_bare_host(h),
    ensures
        split_scheme(h) is None,
{
    reveal_strlit("://");
    crate::text::lemma_find_from(h, "://"@, 0);
    if find(h, "://"@) is Some {
        let k = find(h, "://"@)->0;
        assert(h.subrange(k, k + 3)[1] == h[k + 1]);
        assert(!is_authority_end(h[k + 1]));
    }
}

/// The first occurrence is found: `p` occurs at `k` and nowhere before.
proof fn lemma_find_first(s: Seq<char>, p: Seq<char>, i: int, k: int)
    requires
        0 <= i <= k,
        occurs_at(s, p, k),
        forall|j: int| i <= j < k ==> !occurs_at(s, p, j),
    ensures
        find_from(s, p, i) == Some(k),
    decreases k - i,
{
    if i < k {
        lemma_find_first(s, p, i + 1, k);
    }
}

/// Sanitizing twice is sanitizing once: what diagnostics show of an
/// endpoint is itself shown unchanged.
pub proof fn lemma_sanitize_idempotent(input: Seq<char>)
    ensures
        sanitized_endpoint(sanitized_endpoint(input)) == sanitized_endpoint(input),
{
    reveal_strlit("<empty>");
    reveal_strlit("<invalid>");
    reveal_strlit("://");
    let r = sanitized_endpoint(input);
    if r == "<empty>"@ || r == "<invalid>"@ {
        assert(is_bare_host(r));
        lemma_trim_fixed(r);
        lemma_bare_host_has_no_scheme(r);
        lemma_host_port_fixed(r);
        return;
    }
    let t = trim(input);
    lemma_trim_ends(input);
    match split_scheme(t) {
        Some((scheme, rest)) => {
            let hp = host_port_of(rest);
            lemma_host_port_is_bare(rest);
            lemma_host_port_trimmed(rest);
            assert(hp == trim(hp)) by {
                lemma_trim_fixed(hp);
            }
            let i = find(t, "://"@)->0;
            crate::text::lemma_find_from(t, "://"@, 0);
            assert(scheme == t.take(i));
            assert(r == scheme + "://"@ + hp);
            assert(r.len() == i + 3 + hp.len());
            // The separator is found again where it was.
            assert(occurs_at(r, "://"@, i)) by {
                assert(r.subrange(i, i + 3) =~= "://"@);
            }
            assert(t.subrange(i, i + 3) == "://"@);
            assert forall|x: int| 0 <= x < i + 3 implies r[x] == t[x] by {
                if x >= i {
                    assert(t.subrange(i, i + 3)[x - i] == t[x]);
                }
            }
            assert forall|j: int| 0 <= j < i implies !occurs_at(r, "://"@, j) by {
                assert(!occurs_at(t, "://"@, j));
                assert(r.subrange(j, j + 3) =~= t.subrange(j, j + 3));
            }
            lemma_find_first(r, "://"@, 0, i);
            assert(r.take(i) =~= scheme);
            assert(r.skip(i + 3) =~= hp);
            // The result is already trimmed.
            if i > 0 {
                assert(r[0] == t[0]);
            } else {
                assert(r[0] == ':');
            }
            assert(r.last() == hp.last());
            lemma_trim_fixed(r);
            lemma_host_port_fixed(hp);
        },
        None => {
            let hp = host_port_of(t);
            lemma_host_port_is_bare(t);
            lemma_host_port_trimmed(t);
            lemma_trim_fixed(hp);
            lemma_bare_host_has_no_scheme(hp);
            lemma_host_port_fixed(hp);
        },
    }
}

proof fn lemma_trim_end_at_least(s: Seq<char>, j: int, k: int)
    requires
        0 < k <= j <= s.len(),
        !is_whitespace(s[k - 1]),
    ensures
        k <= trim_end_at(s, j) <= j,
    decreases j,
{
    if j > k && is_whitespace(s[j - 1]) {
        lemma_trim_end_at_least(s, j - 1, k);
    }
}

proof fn lemma_authority_end_at(s: Seq<char>, i: int, k: int)
    requires
        0 <= i <= k <= s.len(),
        forall|m: int| i <= m < k ==> !is_authority_end(#[trigger] s[m]),
        k == s.len() || is_authority_end(s[k]),
    ensures
        authority_end_from(s, i) == k,
    decreases k - i,
{
    if i < k {
        lemma_authority_end_at(s, i + 1, k);
    }
}

proof fn lemma_after_last_at_is(s: Seq<char>, j: int, k: int)
    requires
        0 < k <= j <= s.len(),
        s[k - 1] == '@',
        forall|m: int| k <= m < j ==> #[trigger] s[m] != '@',
    ensures
        after_last_at_sign(s, j) == k,
    decreases j,
{
    if j > k {
        lemma_after_last_at_is(s, j - 1, k);
    }
}

/// User information and whatever follows the host (a path, a query or a
/// fragment) never influence what diagnostics show: an endpoint
/// `scheme://user@host<tail>` is shown as `scheme://host`, whatever `user`
/// and `tail` are.
pub proof fn lemma_sanitize_ignores_user_info_and_tail(
    scheme: Seq<char>,
    user: Seq<char>,
    host: Seq<char>,
    tail: Seq<char>,
)
    requires
        scheme.len() > 0,
        !is_whitespace(scheme[0]),
        find(scheme, "://"@) is None,
        forall|i: int| 0 <= i < user.len() ==> !is_authority_end(#[trigger] user[i]),
        host.len() > 0,
        is_bare_host(host),
        !is_whitespace(host[0]),
        !is_whitespace(host.last()),
        tail.len() == 0 || is_authority_end(tail[0]),
    ensures
        sanitized_endpoint(scheme + "://"@ + user + seq!['@'] + host + tail) == scheme + "://"@
            + host,
{
    reveal_strlit("://");
    let sep = "://"@;
    assert(sep =~= seq![':', '/', '/']);
    let input = scheme + sep + user + seq!['@'] + host + tail;
    let l = scheme.len() as int;
    let u = user.len() as int;
    let h = host.len() as int;
    let e0 = l + 4 + u + h;
    // Trimming keeps everything up to the end of the host and the first
    // character of the tail.
    assert(input[0] == scheme[0]);
    assert(skip_whitespace_from(input, 0) == 0);
    let e1 = if tail.len() == 0 {
        e0
    } else {
        e0 + 1
    };
    if tail.len() == 0 {
        assert(input[e0 - 1] == host.last());
    } else {
        assert(input[e0] == tail[0]);
    }
    lemma_trim_end_at_least(input, input.len() as int, e1);
    let b = trim_end_at(input, input.len() as int);
    let t = trim(input);
    assert(t == input.subrange(0, b));
    // The first `://` is the one behind the scheme.
    assert(occurs_at(t, sep, l)) by {
        assert(t.subrange(l, l + 3) =~= sep);
    }
    crate::text::lemma_find_from(scheme, sep, 0);
    assert forall|j: int| 0 <= j < l implies !occurs_at(t, sep, j) by {
        if j + 3 <= l {
            assert(t.subrange(j, j + 3) =~= scheme.subrange(j, j + 3));
            assert(!occurs_at(scheme, sep, j));
        } else if j == l - 2 {
            assert(t[j + 2] == ':');
            assert(t.subrange(j, j + 3)[2] == t[j + 2]);
        } else {
            assert(t[j + 1] == ':');
            assert(t.subrange(j, j + 3)[1] == t[j + 1]);
        }
    }
    lemma_find_first(t, sep, 0, l);
    assert(t.take(l) =~= scheme);
    let rest = t.skip(l + 3);
    // The authority ends where the tail starts.
    assert forall|m: int| 0 <= m < u + 1 + h implies !is_authority_end(#[trigger] rest[m]) by {
        if m < u {
            assert(rest[m] == user[m]);
        } else if m > u {
            assert(rest[m] == host[m - u - 1]);
        }
    }
    if rest.len() > u + 1 + h {
        assert(rest[u + 1 + h] == tail[0]);
    }
    lemma_authority_end_at(rest, 0, u + 1 + h);
    let authority = rest.take(u + 1 + h);
    assert(authority[u] == '@');
    assert forall|m: int| u + 1 <= m < u + 1 + h implies #[trigger] authority[m] != '@' by {
        assert(authority[m] == host[m - u - 1]);
    }
    lemma_after_last_at_is(authority, u + 1 + h, u + 1);
    assert(authority.skip(u + 1) =~= host);
    lemma_trim_fixed(host);
}

fn host_port(rest: &str) -> (r: &str)
    ensures
        r@ == host_port_of(rest@),
{
    let n = rest.unicode_len();
    let mut e: usize = 0;
    while e < n && !(rest.get_char(e) == '/' || rest.get_char(e) == '?' || rest.get_char(e)
        == '#')
        invariant
            e <= n,
            n == rest@.len(),
            authority_end_from(rest@, 0) == authority_end_from(rest@, e as int),
        decreases n - e,
    {
        e = e + 1;
    }
    let authority = rest.substring_char(0, e);
    assert(authority@ =~= rest@.take(authority_end_from(rest@, 0)));
    let mut b: usize = e;
    while b > 0 && authority.get_char(b - 1) != '@'
        invariant
            b <= e,
            e == authority@.len(),
            after_last_at_sign(authority@, e as int) == after_last_at_sign(authority@, b as int),
        decreases b,
    {
        b = b - 1;
    }
    let tail = authority.substring_char(b, e);
    assert(tail@ =~= authority@.skip(b as int));
    trim_str(tail)
}

/// Returns a diagnostics-safe endpoint string: keeps the scheme when present
/// and strips path, query, fragment and user information, so that
/// credentials never appear in logs or error messages.
pub fn sanitize_endpoint_for_diagnostics(input: &str) -> (r: String)
    ensures
        r@ == sanitized_endpoint(input@),
{
    let trimmed = trim_str(input);
    if trimmed.unicode_len() == 0 {
        return String::from_str("<empty>");
    }
    match find_str(trimmed, "://") {
        Some(i) => {
            proof {
                reveal_strlit("://");
                crate::text::lemma_find_from(trimmed@, "://"@, 0);
            }
            let n = trimmed.unicode_len();
            let scheme = trimmed.substring_char(0, i);
            let rest = trimmed.substring_char(i + 3, n);
            assert(scheme@ =~= trimmed@.take(i as int));
            assert(rest@ =~= trimmed@.skip(i + 3));
            let hp = host_port(rest);
            if hp.unicode_len() == 0 {
                String::from_str("<invalid>")
            } else {
                String::from_str(scheme).concat("://").concat(hp)
            }
        },
        None => {
            let hp = host_port(trimmed);
            if hp.unicode_len() == 0 {
                String::from_str("<invalid>")
            } else {
                String::from_str(hp)
            }
        },
    }
}

} // verus!
