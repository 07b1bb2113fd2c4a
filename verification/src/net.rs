//! What every service request shares: the endpoint URL, the proxy choice and
//! the bounded retry schedule.

use vstd::prelude::*;
use vstd::string::*;
use crate::text::{is_blank, join2, join3, non_blank, strip_trailing, trim_end_char};

verus! {

/// How many times a request is sent before giving up.
pub const MAX_ATTEMPTS: u32 = 5;

/// The back-off step between attempts, in milliseconds.
pub const BACKOFF_MS: u64 = 250;

/// `base` without trailing slashes, followed by `path`.
pub open spec fn endpoint(base: Seq<char>, path: Seq<char>) -> Seq<char> {
    strip_trailing(base, '/') + path
}

/// Joins a service base URL and an endpoint path, dropping the base's trailing slashes.
pub fn endpoint_url(base: &str, path: &str) -> (r: String)
    ensures
        r@ == endpoint(base@, path@),
{
    let b = trim_end_char(base, '/');
    join2(b.as_str(), path)
}

/// The proxy to use: the configured one unless blank, else `HTTPS_PROXY`, else
/// `https_proxy` (the two environment values as read by the caller).
pub open spec fn chosen_proxy(
    configured: Option<Seq<char>>,
    env_upper: Option<Seq<char>>,
    env_lower: Option<Seq<char>>,
) -> Option<Seq<char>> {
    match configured {
        Some(p) if !is_blank(p) => Some(p),
        _ => match env_upper {
            Some(e) => Some(e),
            None => env_lower,
        },
    }
}

pub open spec fn opt_view(o: Option<String>) -> Option<Seq<char>> {
    match o {
        Some(s) => Some(s@),
        None => None,
    }
}

/// The first proxy variable that is set, in the order `HTTPS_PROXY`, `https_proxy`,
/// `HTTP_PROXY`, `http_proxy` (the values as read by the caller).
pub fn env_proxy(
    https_upper: Option<String>,
    https_lower: Option<String>,
    http_upper: Option<String>,
    http_lower: Option<String>,
) -> (r: Option<String>)
    ensures
        https_upper is Some ==> r == https_upper,
        https_upper is None && https_lower is Some ==> r == https_lower,
        https_upper is None && https_lower is None && http_upper is Some ==> r == http_upper,
        https_upper is None && https_lower is None && http_upper is None ==> r == http_lower,
{
    match https_upper {
        Some(p) => Some(p),
        None => match https_lower {
            Some(p) => Some(p),
            None => match http_upper {
                Some(p) => Some(p),
                None => http_lower,
            },
        },
    }
}

/// Picks the proxy URL (see [`chosen_proxy`]).
pub fn resolve_proxy(
    configured: &Option<String>,
    env_upper: Option<String>,
    env_lower: Option<String>,
) -> (r: Option<String>)
    ensures
        opt_view(r) == chosen_proxy(opt_view(*configured), opt_view(env_upper), opt_view(
            env_lower,
        )),
{
    if let Some(p) = configured {
        if let Some(q) = non_blank(p.as_str()) {
            return Some(q);
        }
    }
    match env_upper {
        Some(e) => Some(e),
        None => env_lower,
    }
}

/// What to do next with a request that may be retried.
#[derive(Debug, PartialEq, Eq, Structural)]
pub enum Attempt {
    /// Wait this many milliseconds, then send.
    Send { delay_ms: u64 },
    /// Give up: every attempt failed.
    Exhausted,
}

/// Bookkeeping of a request retried up to [`MAX_ATTEMPTS`] times with a
/// linearly growing pause (`250 ms × attempt`).
pub struct Retry {
    pub attempt: u32,
    pub last: String,
}

/// The step after `attempt` failed attempts.
pub open spec fn next_attempt(attempt: u32) -> Attempt {
    if attempt < MAX_ATTEMPTS {
        Attempt::Send { delay_ms: (BACKOFF_MS * attempt) as u64 }
    } else {
        Attempt::Exhausted
    }
}

impl Retry {
    pub fn new() -> (r: Retry)
        ensures
            r.attempt == 0,
            r.last@ == Seq::<char>::empty(),
    {
        Retry { attempt: 0, last: String::new() }
    }

    /// Whether to send (and after what pause) or to give up.
    pub fn next(&self) -> (r: Attempt)
        ensures
            r == next_attempt(self.attempt),
    {
        if self.attempt < MAX_ATTEMPTS {
            Attempt::Send { delay_ms: BACKOFF_MS * (self.attempt as u64) }
        } else {
            Attempt::Exhausted
        }
    }

    /// Records a failed attempt and why it failed.
    pub fn failed(&mut self, why: String)
        requires
            old(self).attempt < MAX_ATTEMPTS,
        ensures
            final(self).attempt == old(self).attempt + 1,
            final(self).last@ == why@,
    {
        self.attempt = self.attempt + 1;
        self.last = why;
    }
}

/// The error after the last attempt: `"<service> <url> 重试 5 次仍失败：<last>"`.
pub fn give_up_message(service: &str, url: &str, last: &str) -> (r: String)
    ensures
        r@ == service@ + " "@ + url@ + " 重试 5 次仍失败："@ + last@,
{
    let head = join3(service, " ", url);
    join3(head.as_str(), " 重试 5 次仍失败：", last)
}

/// Starting fresh and recording every failure, the schedule sends exactly
/// [`MAX_ATTEMPTS`] times, the `k`-th time after `250 × k` ms, then gives up.
pub proof fn lemma_retry_schedule(k: u32)
    ensures
        k < MAX_ATTEMPTS ==> next_attempt(k) == (Attempt::Send { delay_ms: (250 * k) as u64 }),
        k >= MAX_ATTEMPTS ==> next_attempt(k) == Attempt::Exhausted,
{
}

} // verus!
