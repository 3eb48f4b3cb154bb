//! Client configuration: the environment variables the SDK honours,
//! [`ClientOptions`] with builder-style setters, and how the sidecar address
//! and connect timeout are resolved from them.

use vstd::prelude::*;

use crate::duration::{Duration, NANOS_PER_SEC};
use crate::error::Error;
use crate::text::{nat_digits, parse_u64, parse_unsigned_at_most};

verus! {

/// Environment variable holding the full gRPC endpoint of the Dapr sidecar
/// (e.g. `http://127.0.0.1:50001`, `https://my-sidecar:443?tls=true`). When
/// set, it overrides [`DAPR_GRPC_PORT_ENV`].
pub const DAPR_GRPC_ENDPOINT_ENV: &'static str = "DAPR_GRPC_ENDPOINT";

/// Environment variable holding the gRPC port of the Dapr sidecar on
/// `127.0.0.1`; used when [`DAPR_GRPC_ENDPOINT_ENV`] is not set.
pub const DAPR_GRPC_PORT_ENV: &'static str = "DAPR_GRPC_PORT";

/// Environment variable holding the Dapr API token used for outbound calls.
pub const DAPR_API_TOKEN_ENV: &'static str = "DAPR_API_TOKEN";

/// Environment variable holding the gRPC connect timeout in seconds.
pub const DAPR_CLIENT_TIMEOUT_SECONDS_ENV: &'static str = "DAPR_CLIENT_TIMEOUT_SECONDS";

/// Environment variable holding the API token expected on inbound calls.
pub const APP_API_TOKEN_ENV: &'static str = "APP_API_TOKEN";

/// gRPC metadata key that carries the Dapr API token.
pub const API_TOKEN_METADATA_KEY: &'static str = "dapr-api-token";

/// Default gRPC port of the Dapr sidecar when no variable is set.
pub const DEFAULT_DAPR_GRPC_PORT: u16 = 50001;

/// Default connect timeout, in seconds, of the gRPC channel.
pub const DEFAULT_CLIENT_TIMEOUT_SECONDS: u64 = 5;

/// The values of the client's environment variables, each `None` when the
/// variable is unset (or not valid Unicode).
pub struct ClientEnv {
    /// Value of [`DAPR_GRPC_ENDPOINT_ENV`].
    pub grpc_endpoint: Option<String>,
    /// Value of [`DAPR_GRPC_PORT_ENV`].
    pub grpc_port: Option<String>,
    /// Value of [`DAPR_API_TOKEN_ENV`].
    pub api_token: Option<String>,
    /// Value of [`DAPR_CLIENT_TIMEOUT_SECONDS_ENV`].
    pub client_timeout_seconds: Option<String>,
}

/// The text of an optional string.
pub open spec fn opt_view(o: Option<String>) -> Option<Seq<char>> {
    match o {
        Some(s) => Some(s@),
        None => None,
    }
}

/// A variable's value when it is set and not empty.
pub open spec fn non_empty(v: Option<Seq<char>>) -> Option<Seq<char>> {
    match v {
        Some(s) => if s.len() > 0 { Some(s) } else { None },
        None => None,
    }
}

/// The sidecar address: the endpoint variable when set and not empty, else
/// `http://127.0.0.1:<port>` with the port variable when set and not empty,
/// else `http://127.0.0.1:50001`.
pub open spec fn spec_sidecar_address(
    endpoint: Option<Seq<char>>,
    port: Option<Seq<char>>,
) -> Seq<char> {
    match non_empty(endpoint) {
        Some(e) => e,
        None => match non_empty(port) {
            Some(p) => "http://127.0.0.1:"@ + p,
            None => "http://127.0.0.1:"@ + nat_digits(DEFAULT_DAPR_GRPC_PORT as nat),
        },
    }
}

/// The connect timeout, in seconds, that the timeout variable asks for: the
/// default when unset or empty, the parsed number when it is a positive
/// `u64`, and an error otherwise.
pub open spec fn spec_timeout_secs(v: Option<Seq<char>>) -> Result<u64, ()> {
    match non_empty(v) {
        Some(s) => match parse_unsigned_at_most(s, u64::MAX as nat) {
            Some(n) => if n == 0 { Err(()) } else { Ok(n as u64) },
            None => Err(()),
        },
        None => Ok(DEFAULT_CLIENT_TIMEOUT_SECONDS),
    }
}

impl ClientEnv {
    /// The sidecar address these values resolve to.
    pub open spec fn spec_address(&self) -> Seq<char> {
        spec_sidecar_address(opt_view(self.grpc_endpoint), opt_view(self.grpc_port))
    }
}

/// Builds the default sidecar gRPC address from the environment, in this
/// order: [`DAPR_GRPC_ENDPOINT_ENV`] if set; `http://127.0.0.1:$DAPR_GRPC_PORT`
/// if [`DAPR_GRPC_PORT_ENV`] is set; `http://127.0.0.1:50001` otherwise.
pub fn default_sidecar_address(env: &ClientEnv) -> (r: String)
    ensures
        r@ == env.spec_address(),
{
    proof { reveal_strlit("http://127.0.0.1:"); }
    match &env.grpc_endpoint {
        Some(e) => {
            if e.as_str().unicode_len() > 0 {
                return e.clone();
            }
        },
        None => {},
    }
    let mut s = String::from_str("http://127.0.0.1:");
    match &env.grpc_port {
        Some(p) => {
            if p.as_str().unicode_len() > 0 {
                s.append(p.as_str());
                return s;
            }
        },
        None => {},
    }
    crate::text::append_u64(&mut s, DEFAULT_DAPR_GRPC_PORT as u64);
    s
}

/// Reads an optional variable: its value when set and not empty.
fn read_optional(v: &Option<String>) -> (r: Option<String>)
    ensures
        opt_view(r) == non_empty(opt_view(*v)),
{
    match v {
        Some(s) => {
            if s.as_str().unicode_len() > 0 {
                Some(s.clone())
            } else {
                None
            }
        },
        None => None,
    }
}

/// Resolves the connect timeout in seconds from its variable.
pub fn read_timeout_secs(v: &Option<String>) -> (r: Result<u64, Error>)
    ensures
        match spec_timeout_secs(opt_view(*v)) {
            Ok(n) => r == Ok::<u64, Error>(n),
            Err(_) => r matches Err(Error::ParseIntError),
        },
{
    match v {
        Some(s) => {
            if s.as_str().unicode_len() > 0 {
                match parse_u64(s.as_str()) {
                    Some(secs) => {
                        if secs == 0 {
                            return Err(Error::ParseIntError);
                        }
                        Ok(secs)
                    },
                    None => Err(Error::ParseIntError),
                }
            } else {
                Ok(DEFAULT_CLIENT_TIMEOUT_SECONDS)
            }
        },
        None => Ok(DEFAULT_CLIENT_TIMEOUT_SECONDS),
    }
}

/// The options that [`ClientOptions::new`] reads from `env`.
pub open spec fn spec_new(env: ClientEnv) -> ClientOptionsView {
    ClientOptionsView {
        address: env.spec_address(),
        api_token: non_empty(opt_view(env.api_token)),
        timeout: Duration::spec_from_secs(
            match spec_timeout_secs(opt_view(env.client_timeout_seconds)) {
                Ok(n) => n,
                Err(_) => DEFAULT_CLIENT_TIMEOUT_SECONDS,
            },
        ),
    }
}

/// The options that [`ClientOptions::from_env`] reads from `env`, or `Err`
/// when the timeout variable is invalid.
pub open spec fn spec_from_env(env: ClientEnv) -> Result<ClientOptionsView, ()> {
    match spec_timeout_secs(opt_view(env.client_timeout_seconds)) {
        Ok(n) => Ok(
            ClientOptionsView {
                address: env.spec_address(),
                api_token: non_empty(opt_view(env.api_token)),
                timeout: Duration::spec_from_secs(n),
            },
        ),
        Err(_) => Err(()),
    }
}

/// Reading the environment leniently agrees with reading it strictly
/// whenever the strict read succeeds, and otherwise differs only in using
/// the default timeout.
pub proof fn lemma_new_agrees_with_from_env(env: ClientEnv)
    ensures
        spec_from_env(env) matches Ok(o) ==> spec_new(env) == o,
        spec_from_env(env) is Err ==> spec_new(env) == (ClientOptionsView {
            timeout: Duration::spec_from_secs(DEFAULT_CLIENT_TIMEOUT_SECONDS),
            ..spec_new(env)
        }),
{
}

/// Configuration for the gRPC client: sidecar address, optional Dapr API
/// token, and connect timeout.
#[derive(Debug, Clone)]
#[non_exhaustive]
pub struct ClientOptions {
    address: String,
    api_token: Option<String>,
    timeout: Duration,
}

/// The abstract content of [`ClientOptions`].
pub struct ClientOptionsView {
    pub address: Seq<char>,
    pub api_token: Option<Seq<char>>,
    pub timeout: Duration,
}

impl View for ClientOptions {
    type V = ClientOptionsView;

    closed spec fn view(&self) -> ClientOptionsView {
        ClientOptionsView {
            address: self.address@,
            api_token: opt_view(self.api_token),
            timeout: self.timeout,
        }
    }
}

impl ClientOptions {
    /// Options read from the environment, falling back to the default
    /// timeout when the timeout variable is missing or invalid.
    pub fn new(env: &ClientEnv) -> (r: ClientOptions)
        ensures
            r@ == spec_new(*env),
    {
        let secs = match read_timeout_secs(&env.client_timeout_seconds) {
            Ok(n) => n,
            Err(_) => DEFAULT_CLIENT_TIMEOUT_SECONDS,
        };
        ClientOptions {
            address: default_sidecar_address(env),
            api_token: read_optional(&env.api_token),
            timeout: Duration::from_secs(secs),
        }
    }

    /// Options read from the environment, failing with
    /// [`Error::ParseIntError`] when the timeout variable is set to a value
    /// that is not a positive integer.
    pub fn from_env(env: &ClientEnv) -> (r: Result<ClientOptions, Error>)
        ensures
            match spec_from_env(*env) {
                Ok(o) => r matches Ok(opts) && opts@ == o,
                Err(_) => r matches Err(Error::ParseIntError),
            },
    {
        let address = default_sidecar_address(env);
        let api_token = read_optional(&env.api_token);
        let secs = match read_timeout_secs(&env.client_timeout_seconds) {
            Ok(n) => n,
            Err(e) => return Err(e),
        };
        Ok(ClientOptions { address, api_token, timeout: Duration::from_secs(secs) })
    }

    /// Overrides the gRPC endpoint.
    pub fn with_address(self, address: &str) -> (r: ClientOptions)
        ensures
            r@.address == address@,
            r@.api_token == self@.api_token,
            r@.timeout == self@.timeout,
    {
        ClientOptions { address: String::from_str(address), ..self }
    }

    /// Sets the Dapr API token sent on every outgoing call; an empty token
    /// clears it.
    pub fn with_api_token(self, token: &str) -> (r: ClientOptions)
        ensures
            r@.address == self@.address,
            r@.api_token == (if token@.len() == 0 {
                None::<Seq<char>>
            } else {
                Some(token@)
            }),
            r@.timeout == self@.timeout,
    {
        let t = String::from_str(token);
        let api_token = if t.as_str().unicode_len() == 0 {
            None
        } else {
            Some(t)
        };
        ClientOptions { api_token, ..self }
    }

    /// Clears any Dapr API token set before.
    pub fn without_api_token(self) -> (r: ClientOptions)
        ensures
            r@.address == self@.address,
            r@.api_token is None,
            r@.timeout == self@.timeout,
    {
        ClientOptions { api_token: None, ..self }
    }

    /// Sets the gRPC connect timeout.
    pub fn with_timeout(self, timeout: Duration) -> (r: ClientOptions)
        ensures
            r@.address == self@.address,
            r@.api_token == self@.api_token,
            r@.timeout == timeout,
    {
        ClientOptions { timeout, ..self }
    }

    /// The configured gRPC endpoint.
    pub fn address(&self) -> (r: &str)
        ensures
            r@ == self@.address,
    {
        self.address.as_str()
    }

    /// The configured Dapr API token, if any.
    pub fn api_token(&self) -> (r: Option<&str>)
        ensures
            match r {
                Some(t) => self@.api_token == Some(t@),
                None => self@.api_token is None,
            },
    {
        match &self.api_token {
            Some(t) => Some(t.as_str()),
            None => None,
        }
    }

    /// The configured connect timeout.
    pub fn timeout(&self) -> (r: Duration)
        ensures
            r == self@.timeout,
    {
        self.timeout
    }
}


/// An unset or empty timeout variable means the default timeout of five
/// seconds, and reading the environment strictly then succeeds with the
/// sidecar address and token the other variables give. A timeout error comes
/// only from a variable that is set, not empty, and not a positive `u64`:
/// any such positive number is read as itself.
pub proof fn lemma_timeout_defaults_when_unset(env: ClientEnv, n: u64)
    ensures
        opt_view(env.client_timeout_seconds) is None || opt_view(env.client_timeout_seconds)
            == Some(Seq::<char>::empty()) ==> {
            &&& spec_timeout_secs(opt_view(env.client_timeout_seconds)) == Ok::<u64, ()>(5)
            &&& spec_from_env(env) == Ok::<ClientOptionsView, ()>(
                ClientOptionsView {
                    address: env.spec_address(),
                    api_token: non_empty(opt_view(env.api_token)),
                    timeout: Duration::spec_from_secs(5),
                },
            )
            &&& spec_new(env).timeout == Duration::spec_from_secs(5)
        },
        spec_timeout_secs(opt_view(env.client_timeout_seconds)) is Err ==> (
        env.client_timeout_seconds matches Some(v) && v@.len() > 0),
        n > 0 && opt_view(env.client_timeout_seconds) == Some(nat_digits(n as nat))
            ==> spec_timeout_secs(opt_view(env.client_timeout_seconds)) == Ok::<u64, ()>(n),
{
    if n > 0 && opt_view(env.client_timeout_seconds) == Some(nat_digits(n as nat)) {
        crate::text::lemma_parse_digits(n as nat, u64::MAX as nat);
    }
}

/// The endpoint variable, when set and not empty, is the sidecar address
/// whatever the port variable holds. Otherwise a port variable that is set
/// and not empty gives `http://127.0.0.1:<port>`, and with neither the
/// address is `http://127.0.0.1:50001`. An empty variable counts as unset.
pub proof fn lemma_sidecar_address_precedence(e: Seq<char>, port: Option<Seq<char>>, p: Seq<char>)
    ensures
        e.len() > 0 ==> spec_sidecar_address(Some(e), port) == e,
        p.len() > 0 ==> spec_sidecar_address(None, Some(p)) == "http://127.0.0.1:"@ + p,
        p.len() > 0 ==> spec_sidecar_address(Some(Seq::empty()), Some(p))
            == "http://127.0.0.1:"@ + p,
        spec_sidecar_address(None, None) == "http://127.0.0.1:50001"@,
        spec_sidecar_address(Some(Seq::empty()), Some(Seq::empty()))
            == "http://127.0.0.1:50001"@,
{
    reveal_strlit("http://127.0.0.1:");
    reveal_strlit("http://127.0.0.1:50001");
    reveal_with_fuel(nat_digits, 6);
    assert(nat_digits(50001) =~= seq!['5', '0', '0', '0', '1']);
    assert(spec_sidecar_address(None, None) =~= "http://127.0.0.1:50001"@);
}

} // verus!
