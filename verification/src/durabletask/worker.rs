//! The default name a worker registers under.

use vstd::prelude::*;

use crate::durabletask::history::{is_uuid_text, new_uuid_v4};
use crate::text::{append_u64, nat_digits};

verus! {

/// The machine's host name from `gethostname::gethostname`, or `None` when
/// it is not valid Unicode. Which name comes back depends on the machine.
#[verifier::external_body]
fn host_name() -> (r: Option<String>) {
    match gethostname::gethostname().to_str() {
        Some(s) => Some(s.to_string()),
        None => None,
    }
}

/// `host,pid,id`, with `unknown` for a host name that is not valid Unicode.
pub open spec fn spec_worker_name(host: Option<Seq<char>>, pid: u32, id: Seq<char>) -> Seq<char> {
    let h = match host {
        Some(h) => h,
        None => "unknown"@,
    };
    h + ","@ + nat_digits(pid as nat) + ","@ + id
}

/// Formats a worker name from its parts (see [`spec_worker_name`]).
pub fn format_worker_name(host: Option<&str>, pid: u32, id: &str) -> (r: String)
    ensures
        r@ == spec_worker_name(
            match host {
                Some(h) => Some(h@),
                None => None,
            },
            pid,
            id@,
        ),
{
    let mut s = match host {
        Some(h) => String::from_str(h),
        None => String::from_str("unknown"),
    };
    s.append(",");
    append_u64(&mut s, pid as u64);
    s.append(",");
    s.append(id);
    s
}

/// The default worker name: this machine's host name, the process id `pid`,
/// and a fresh random UUID, joined with commas.
pub fn get_default_worker_name(pid: u32) -> (r: String)
    ensures
        exists|host: Option<Seq<char>>, id: Seq<char>|
            is_uuid_text(id) && r@ == spec_worker_name(host, pid, id),
{
    let host = host_name();
    let id = new_uuid_v4();
    let host_ref: Option<&str> = match &host {
        Some(h) => Some(h.as_str()),
        None => None,
    };
    let r = format_worker_name(host_ref, pid, id.as_str());
    proof {
        let hv: Option<Seq<char>> = match host_ref {
            Some(h) => Some(h@),
            None => None,
        };
        assert(is_uuid_text(id@) && r@ == spec_worker_name(hv, pid, id@));
    }
    r
}

} // verus!
