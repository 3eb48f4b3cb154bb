//! Dapr API tokens on gRPC calls: the outbound token that every request
//! carries, and the inbound check against `APP_API_TOKEN`.

use vstd::prelude::*;

use crate::config::{non_empty, opt_view};
use crate::error::Error;
use crate::text::{i64_to_string, int_text};

verus! {

#[verifier::external_type_specification]
#[verifier::external_body]
pub struct ExInvalidMetadataValue(tonic::metadata::errors::InvalidMetadataValue);

/// Whether a character may appear in an ASCII gRPC metadata value: HTTP
/// header values refuse the control characters other than tab, and DEL.
pub open spec fn metadata_char_ok(c: char) -> bool {
    (c as u32 >= 32 && c != '\u{7f}') || c == '\t'
}

/// Whether every character of `s` may appear in an ASCII metadata value.
pub open spec fn metadata_text_ok(s: Seq<char>) -> bool {
    forall|i: int| 0 <= i < s.len() ==> metadata_char_ok(#[trigger] s[i])
}

/// Parses `s` as a `tonic` ASCII metadata value and keeps only whether that
/// succeeded. `tonic` defers to `http::HeaderValue::from_str`, which refuses
/// a value exactly when one of its UTF-8 bytes is below 32 (other than tab)
/// or is 127; the bytes of non-ASCII characters are all 128 or more.
#[verifier::external_body]
fn check_ascii_metadata(s: &str) -> (r: Result<(), tonic::metadata::errors::InvalidMetadataValue>)
    ensures
        r is Ok <==> metadata_text_ok(s@),
{
    match s.parse::<tonic::metadata::MetadataValue<tonic::metadata::Ascii>>() {
        Ok(_) => Ok(()),
        Err(e) => Err(e),
    }
}

/// The numeric gRPC status code `Unauthenticated` of `tonic::Code`, which
/// `tonic` defines as 16.
#[verifier::external_body]
fn unauthenticated_code() -> (r: i32)
    ensures
        r == 16,
{
    tonic::Code::Unauthenticated as i32
}

/// Outbound token holder: the Dapr API token that each request carries as
/// `dapr-api-token` metadata. Without a token it adds nothing.
#[derive(Clone, Debug)]
pub struct ApiTokenInterceptor {
    token: Option<String>,
}

impl View for ApiTokenInterceptor {
    type V = Option<Seq<char>>;

    /// The token that requests carry, if any.
    closed spec fn view(&self) -> Option<Seq<char>> {
        opt_view(self.token)
    }
}

/// Whether a token would be refused as metadata.
pub open spec fn token_refused(token: Option<Seq<char>>) -> bool {
    match non_empty(token) {
        Some(t) => !metadata_text_ok(t),
        None => false,
    }
}

impl ApiTokenInterceptor {
    /// An interceptor that adds nothing.
    pub fn empty() -> (r: ApiTokenInterceptor)
        ensures
            r@ is None,
    {
        ApiTokenInterceptor { token: None }
    }

    /// An interceptor that injects `token`; `None`, an empty token, or a
    /// token that is not valid metadata yields one that adds nothing.
    pub fn new(token: Option<String>) -> (r: ApiTokenInterceptor)
        ensures
            r@ == (if token_refused(opt_view(token)) {
                None
            } else {
                non_empty(opt_view(token))
            }),
    {
        match ApiTokenInterceptor::try_new(token) {
            Ok(i) => i,
            Err(_) => ApiTokenInterceptor::empty(),
        }
    }

    /// An interceptor that injects `token`, failing with
    /// [`Error::InvalidMetadata`] when the token holds characters that are not
    /// valid in ASCII metadata. `None` or an empty token adds nothing.
    pub fn try_new(token: Option<String>) -> (r: Result<ApiTokenInterceptor, Error>)
        ensures
            token_refused(opt_view(token)) ==> r matches Err(Error::InvalidMetadata),
            !token_refused(opt_view(token)) ==> (r matches Ok(i) && i@ == non_empty(
                opt_view(token),
            )),
    {
        match token {
            Some(t) => {
                if t.as_str().unicode_len() == 0 {
                    return Ok(ApiTokenInterceptor { token: None });
                }
                match check_ascii_metadata(t.as_str()) {
                    Ok(()) => Ok(ApiTokenInterceptor { token: Some(t) }),
                    Err(_) => Err(Error::InvalidMetadata),
                }
            },
            None => Ok(ApiTokenInterceptor { token: None }),
        }
    }

    /// Whether a non-empty token is configured.
    pub fn has_token(&self) -> (r: bool)
        ensures
            r == self@ is Some,
    {
        self.token.is_some()
    }

    /// The token that requests carry, if any.
    pub fn token(&self) -> (r: Option<&str>)
        ensures
            match r {
                Some(t) => self@ == Some(t@),
                None => self@ is None,
            },
    {
        match &self.token {
            Some(t) => Some(t.as_str()),
            None => None,
        }
    }
}

/// What the inbound check does with a request.
#[derive(Debug, PartialEq, Eq)]
pub enum AuthDecision {
    /// Hand the request to the inner service.
    Allow,
    /// Answer it at once, without calling the inner service.
    Reject(Rejection),
}

/// The answer to a request that lacks the expected token.
#[derive(Debug, PartialEq, Eq)]
pub struct Rejection {
    /// HTTP status of the answer.
    pub http_status: u16,
    /// Value of its `grpc-status` header.
    pub grpc_status: String,
    /// Value of its `grpc-message` header.
    pub grpc_message: String,
}

/// The rejection sent for a missing or wrong token: HTTP 401 with gRPC status
/// `Unauthenticated` (16).
pub open spec fn is_unauthenticated(r: Rejection) -> bool {
    &&& r.http_status == 401
    &&& r.grpc_status@ == int_text(16)
    &&& r.grpc_message@ == "invalid or missing dapr-api-token"@
}

/// Inbound layer that enforces an expected `dapr-api-token` on requests. Without
/// an expected token it lets every request through.
#[derive(Clone, Debug)]
pub struct AppApiTokenLayer {
    expected: Option<String>,
}

impl View for AppApiTokenLayer {
    type V = Option<Seq<char>>;

    /// The token that requests must present, if any.
    closed spec fn view(&self) -> Option<Seq<char>> {
        opt_view(self.expected)
    }
}

/// The service that [`AppApiTokenLayer`] wraps around `inner`.
#[derive(Clone, Debug)]
pub struct AppApiTokenService<S> {
    inner: S,
    expected: Option<String>,
}

/// Whether a request presenting `presented` passes a check expecting `expected`.
pub open spec fn token_accepted(expected: Option<Seq<char>>, presented: Option<Seq<char>>) -> bool {
    match expected {
        Some(e) => presented == Some(e),
        None => true,
    }
}

fn rejection() -> (r: Rejection)
    ensures
        is_unauthenticated(r),
{
    let code = unauthenticated_code();
    Rejection {
        http_status: 401,
        grpc_status: i64_to_string(code as i64),
        grpc_message: String::from_str("invalid or missing dapr-api-token"),
    }
}

fn decide(expected: &Option<String>, presented: Option<&str>) -> (r: AuthDecision)
    ensures
        token_accepted(opt_view(*expected), match presented {
            Some(p) => Some(p@),
            None => None,
        }) ==> r == AuthDecision::Allow,
        !token_accepted(opt_view(*expected), match presented {
            Some(p) => Some(p@),
            None => None,
        }) ==> (r matches AuthDecision::Reject(j) && is_unauthenticated(j)),
{
    match expected {
        Some(e) => {
            let ok = match presented {
                Some(p) => {
                    let ps = String::from_str(p);
                    ps == *e
                },
                None => false,
            };
            if ok {
                AuthDecision::Allow
            } else {
                AuthDecision::Reject(rejection())
            }
        },
        None => AuthDecision::Allow,
    }
}

impl AppApiTokenLayer {
    /// A layer enforcing `expected`; `None` or an empty token yields a layer
    /// that lets everything through.
    pub fn new(expected: Option<String>) -> (r: AppApiTokenLayer)
        ensures
            r@ == non_empty(opt_view(expected)),
    {
        let expected = match expected {
            Some(s) => if s.as_str().unicode_len() > 0 {
                Some(s)
            } else {
                None
            },
            None => None,
        };
        AppApiTokenLayer { expected }
    }

    /// Whether this layer rejects requests without the expected token.
    pub fn is_enforcing(&self) -> (r: bool)
        ensures
            r == self@ is Some,
    {
        self.expected.is_some()
    }

    /// Wraps `inner` in the token check.
    pub fn layer<S>(&self, inner: S) -> (r: AppApiTokenService<S>)
        ensures
            r.inner() == inner,
            r.expected() == self@,
    {
        AppApiTokenService { inner, expected: self.expected.clone() }
    }
}

impl<S> AppApiTokenService<S> {
    /// The wrapped service.
    pub closed spec fn inner(&self) -> S {
        self.inner
    }

    /// The token that requests must present, if any.
    pub closed spec fn expected(&self) -> Option<Seq<char>> {
        opt_view(self.expected)
    }

    /// The wrapped service.
    pub fn inner_mut(&mut self) -> (r: &mut S)
        ensures
            *r == old(self).inner(),
            final(self).inner() == *final(r),
            final(self).expected() == old(self).expected(),
    {
        &mut self.inner
    }

    /// Decides a request that presents `presented` as its `dapr-api-token`
    /// header (`None` when the header is missing or not visible ASCII): it
    /// passes when no token is expected or when it presents exactly the
    /// expected one, and is answered `Unauthenticated` otherwise.
    pub fn authorize(&self, presented: Option<&str>) -> (r: AuthDecision)
        ensures
            token_accepted(self.expected(), match presented {
                Some(p) => Some(p@),
                None => None,
            }) ==> r == AuthDecision::Allow,
            !token_accepted(self.expected(), match presented {
                Some(p) => Some(p@),
                None => None,
            }) ==> (r matches AuthDecision::Reject(j) && is_unauthenticated(j)),
    {
        decide(&self.expected, presented)
    }
}


/// An inbound layer built from no token or an empty one lets every request
/// through; one built from a non-empty token lets through exactly the
/// requests that present that token, and answers the others
/// `Unauthenticated`.
pub proof fn lemma_layer_admits_exactly_the_expected_token(
    expected: Option<Seq<char>>,
    presented: Option<Seq<char>>,
)
    ensures
        non_empty(expected) is None ==> token_accepted(non_empty(expected), presented),
        non_empty(expected) matches Some(e) ==> (token_accepted(non_empty(expected), presented)
            <==> presented == Some(e)),
{
}

} // verus!
