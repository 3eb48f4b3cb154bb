//! Decisions of the Dapr HTTP server: which sidecar it connects to, how it
//! retries while the sidecar is not ready, and where it listens.

use vstd::prelude::*;

use crate::client::{host_port_text, join_address_port, parse_port, spec_port};
use crate::config::DEFAULT_DAPR_GRPC_PORT;
use crate::duration::{Duration, NANOS_PER_SEC};
use crate::text::nat_digits;

verus! {

/// How many times the server tries to reach the sidecar.
pub const MAX_CONNECT_ATTEMPTS: u32 = 10;

/// The pause after the first failed attempt, in milliseconds.
pub const INITIAL_RETRY_DELAY_MS: u64 = 500;

/// The longest pause between attempts, in milliseconds.
pub const MAX_RETRY_DELAY_MS: u64 = 2000;

/// The port the app listens on when neither the caller nor `APP_PORT` names one.
pub const DEFAULT_APP_PORT: u16 = 8080;

/// The pause, in milliseconds, after failed attempt `attempt` (counting
/// from 1): 500 ms, doubled after each failure, at most 2 s.
pub open spec fn retry_delay_ms(attempt: nat) -> nat
    decreases attempt,
{
    if attempt <= 1 {
        INITIAL_RETRY_DELAY_MS as nat
    } else {
        let d = 2 * retry_delay_ms((attempt - 1) as nat);
        if d <= MAX_RETRY_DELAY_MS {
            d
        } else {
            MAX_RETRY_DELAY_MS as nat
        }
    }
}

/// Where a connection attempt sequence stands: the number of the attempt
/// about to be made and the pause that follows it if it fails.
#[derive(Clone, Copy, Debug)]
pub struct ConnectRetry {
    attempt: u32,
    delay: Duration,
}

/// What to do after a failed attempt.
#[derive(Clone, Copy, Debug)]
pub enum RetryStep {
    /// Wait `delay`, then make the attempt that `next` describes.
    RetryAfter { delay: Duration, next: ConnectRetry },
    /// Stop and report the last error.
    GiveUp,
}

impl ConnectRetry {
    /// The number of the attempt about to be made (from 1).
    pub closed spec fn attempt(&self) -> nat {
        self.attempt as nat
    }

    /// The pause that follows this attempt if it fails.
    pub closed spec fn delay(&self) -> Duration {
        self.delay
    }

    /// Whether the state is one that the retry sequence reaches.
    pub closed spec fn wf(&self) -> bool {
        &&& 1 <= self.attempt <= MAX_CONNECT_ATTEMPTS
        &&& self.delay.wf()
        &&& self.delay@ == retry_delay_ms(self.attempt as nat) * 1_000_000
    }

    /// Every retry state that exists at run time is one the sequence
    /// reaches; callers learn it of a value `s` with `use_type_invariant(&s)`.
    #[verifier::type_invariant]
    pub open spec fn reachable(self) -> bool {
        self.wf()
    }

    /// The state before the first attempt.
    pub fn start() -> (r: ConnectRetry)
        ensures
            r.wf(),
            r.attempt() == 1,
            r.delay()@ == INITIAL_RETRY_DELAY_MS * 1_000_000,
    {
        ConnectRetry { attempt: 1, delay: Duration::from_millis(INITIAL_RETRY_DELAY_MS) }
    }

    /// The number of the attempt about to be made (from 1).
    pub fn attempt_number(&self) -> (r: u32)
        ensures
            r == self.attempt(),
    {
        self.attempt
    }

    /// The decision after the current attempt failed: wait and try again
    /// while attempts remain (the pause doubles each time, up to 2 s), and
    /// give up after the tenth failure.
    pub fn after_failure(&self) -> (r: RetryStep)
        ensures
            self.attempt() < MAX_CONNECT_ATTEMPTS ==> (r matches RetryStep::RetryAfter {
                delay,
                next,
            } && delay == self.delay() && delay@ == retry_delay_ms(self.attempt()) * 1_000_000
                && next.wf() && next.attempt() == self.attempt() + 1 && next.delay()@
                == retry_delay_ms(next.attempt()) * 1_000_000),
            self.attempt() >= MAX_CONNECT_ATTEMPTS ==> r matches RetryStep::GiveUp,
    {
        proof {
            use_type_invariant(self);
        }
        if self.attempt < MAX_CONNECT_ATTEMPTS {
            proof {
                Duration::lemma_parts(&self.delay);
            }
            let max = Duration::from_millis(MAX_RETRY_DELAY_MS);
            assert(self.delay.spec_secs() <= 2) by (nonlinear_arith)
                requires
                    self.delay@ == self.delay.spec_secs() * 1_000_000_000
                        + self.delay.spec_subsec_nanos(),
                    self.delay@ <= 2_000_000_000,
            {
                lemma_retry_delay_bounded(self.attempt as nat);
            }
            let doubled = self.delay.double();
            let next_delay = doubled.min(max);
            RetryStep::RetryAfter {
                delay: self.delay,
                next: ConnectRetry { attempt: self.attempt + 1, delay: next_delay },
            }
        } else {
            RetryStep::GiveUp
        }
    }
}

/// No pause is longer than 2 s nor shorter than 500 ms.
pub proof fn lemma_retry_delay_bounded(attempt: nat)
    ensures
        INITIAL_RETRY_DELAY_MS <= retry_delay_ms(attempt) <= MAX_RETRY_DELAY_MS,
    decreases attempt,
{
    if attempt > 1 {
        lemma_retry_delay_bounded((attempt - 1) as nat);
    }
}

/// The pauses, attempt by attempt: 500 ms, 1 s, then 2 s.
pub proof fn lemma_retry_delay_values(attempt: nat)
    ensures
        attempt <= 1 ==> retry_delay_ms(attempt) == 500,
        attempt == 2 ==> retry_delay_ms(attempt) == 1000,
        attempt >= 3 ==> retry_delay_ms(attempt) == 2000,
    decreases attempt,
{
    if attempt > 1 {
        lemma_retry_delay_values((attempt - 1) as nat);
    }
}

/// The pauses never shrink from one attempt to the next.
pub proof fn lemma_retry_delay_monotone(attempt: nat)
    ensures
        retry_delay_ms(attempt) <= retry_delay_ms(attempt + 1),
{
    lemma_retry_delay_bounded(attempt);
}

/// `http://127.0.0.1:<port>`, the sidecar the server's actor runtime calls.
pub open spec fn sidecar_http_address(port: u16) -> Seq<char> {
    host_port_text("http://127.0.0.1"@, port)
}

/// The sidecar address for a given gRPC port.
pub fn sidecar_address_for_port(port: u16) -> (r: String)
    ensures
        r@ == sidecar_http_address(port),
{
    join_address_port("http://127.0.0.1", port)
}

/// The sidecar gRPC port named by `DAPR_GRPC_PORT` (`value`, `None` when
/// unset): the default when unset, the parsed port otherwise, and `None`
/// when the value is not a port (the server refuses to start then).
pub fn dapr_grpc_port(value: Option<&str>) -> (r: Option<u16>)
    ensures
        r == match value {
            Some(v) => spec_port(v@),
            None => Some(DEFAULT_DAPR_GRPC_PORT),
        },
{
    match value {
        Some(v) => parse_port(v),
        None => Some(DEFAULT_DAPR_GRPC_PORT),
    }
}

/// The port the app listens on: the one asked for, else `APP_PORT`'s value
/// (`app_port_var`) when it is a port, else 8080.
pub open spec fn spec_listen_port(port: Option<u16>, app_port_var: Option<Seq<char>>) -> u16 {
    match port {
        Some(p) => p,
        None => match app_port_var {
            Some(v) => match spec_port(v) {
                Some(p) => p,
                None => DEFAULT_APP_PORT,
            },
            None => DEFAULT_APP_PORT,
        },
    }
}

/// The address the app listens on: `127.0.0.1:<port>`, the port chosen as
/// [`spec_listen_port`] says.
pub fn listen_address(port: Option<u16>, app_port_var: Option<&str>) -> (r: String)
    ensures
        r@ == host_port_text(
            "127.0.0.1"@,
            spec_listen_port(
                port,
                match app_port_var {
                    Some(v) => Some(v@),
                    None => None,
                },
            ),
        ),
{
    let default_port: u16 = match app_port_var {
        Some(v) => match parse_port(v) {
            Some(p) => p,
            None => DEFAULT_APP_PORT,
        },
        None => DEFAULT_APP_PORT,
    };
    let chosen = match port {
        Some(p) => p,
        None => default_port,
    };
    join_address_port("127.0.0.1", chosen)
}

/// A port given by the caller is the port listened on, whatever `APP_PORT`
/// holds. Without one, `APP_PORT` decides when it names a port, and 8080 is
/// used when it is unset or names none.
pub proof fn lemma_listen_port_choice(p: u16, app_port_var: Option<Seq<char>>, v: Seq<char>)
    ensures
        spec_listen_port(Some(p), app_port_var) == p,
        spec_listen_port(None, None) == 8080,
        spec_port(v) == Some(p) ==> spec_listen_port(None, Some(v)) == p,
        spec_port(v) is None ==> spec_listen_port(None, Some(v)) == 8080,
{
}

} // verus!
