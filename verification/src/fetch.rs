//! The decisions taken while a report is fetched: keep it, give up, or try
//! again after a delay that doubles each time; and how long a kept report
//! stays fresh.
use vstd::prelude::*;
use vstd::string::StringExecFns;
use crate::model::AppError;
use crate::numeric::{dec_text, push_dec};

verus! {

/// How long a kept report is used before it is fetched again, in seconds.
pub const CACHE_TTL_SECS: u64 = 600;

/// The most attempts made to reach the service.
pub const MAX_RETRY_ATTEMPTS: u32 = 20;

/// The delay before the first new attempt, in milliseconds.
pub const RETRY_DELAY_BASE_MS: u64 = 500;

/// Whether a kept report of age `age_secs` is still used.
pub fn is_cache_age_fresh(age_secs: u64, ttl_secs: u64) -> (r: bool)
    ensures
        r == (age_secs < ttl_secs),
{
    age_secs < ttl_secs
}

/// The delay before the next attempt once `failures` attempts have failed:
/// the base delay after the first, twice the previous delay after each later
/// one.
pub open spec fn retry_delay_ms(failures: nat) -> nat
    decreases failures,
{
    if failures <= 1 {
        RETRY_DELAY_BASE_MS as nat
    } else {
        2 * retry_delay_ms((failures - 1) as nat)
    }
}

/// What follows `failures` failed attempts: a new attempt after the delay, or,
/// once the most attempts have been made, none.
pub open spec fn retry_after(failures: nat) -> Option<nat> {
    if failures >= MAX_RETRY_ATTEMPTS {
        None
    } else {
        Some(retry_delay_ms(failures))
    }
}

/// What became of one attempt to fetch the report.
pub enum FetchEvent {
    /// The service answered with a report that reads as JSON.
    Received,
    /// The service answered with a status that is not a success; the status
    /// as text.
    BadStatus(String),
    /// The service answered with a body that is not JSON; the reason.
    BadBody(String),
    /// The service could not be reached; the reason.
    Unreachable(String),
}

/// What to do after an attempt.
pub enum FetchAction {
    /// Keep the report and use it.
    Keep,
    /// Stop with this error.
    Fail(AppError),
    /// Wait this many milliseconds, then try again.
    RetryAfter(u64),
}

/// Delays grow with the failures behind them.
proof fn lemma_retry_delay_grows(a: nat, b: nat)
    requires
        a <= b,
    ensures
        retry_delay_ms(a) <= retry_delay_ms(b),
    decreases b,
{
    if a < b {
        lemma_retry_delay_grows(a, (b - 1) as nat);
    }
}

/// The delay after `failures` failed attempts, short of the most attempts.
fn retry_delay(failures: u32) -> (d: u64)
    requires
        1 <= failures < MAX_RETRY_ATTEMPTS,
    ensures
        d == retry_delay_ms(failures as nat),
{
    proof {
        reveal_with_fuel(retry_delay_ms, 20);
        assert(retry_delay_ms(19) == 131_072_000);
    }
    let mut d: u64 = RETRY_DELAY_BASE_MS;
    let mut k: u32 = 1;
    while k < failures
        invariant
            1 <= k <= failures < MAX_RETRY_ATTEMPTS,
            d == retry_delay_ms(k as nat),
            retry_delay_ms(19) == 131_072_000,
        decreases failures - k,
    {
        proof {
            lemma_retry_delay_grows((k + 1) as nat, 19);
        }
        d = d * 2;
        k = k + 1;
    }
    d
}

/// The message for giving up after `attempts` attempts, the last of which
/// failed for `reason`.
pub open spec fn give_up_message(attempts: nat, reason: Seq<char>) -> Seq<char> {
    "Não foi possível acessar wttr.in após "@ + dec_text(attempts) + " tentativas: "@ + reason
}

/// The next step of fetching after an attempt that ended in `event`, when
/// `failures` attempts had failed before it: the count of failed attempts now,
/// and what to do. A report that reads is kept; a bad status or a bad body
/// ends the fetch at once; a service out of reach is tried again after a
/// delay that doubles each time, until the most attempts have been made.
pub fn next_fetch_step(failures: u32, event: FetchEvent) -> (r: (u32, FetchAction))
    requires
        failures < MAX_RETRY_ATTEMPTS,
    ensures
        match event {
            FetchEvent::Received => r.0 == failures && r.1 is Keep,
            FetchEvent::BadStatus(s) => {
                &&& r.0 == failures
                &&& r.1 matches FetchAction::Fail(AppError::NetworkError(m)) && m@ == "API retornou status "@ + s@
            },
            FetchEvent::BadBody(e) => {
                &&& r.0 == failures
                &&& r.1 matches FetchAction::Fail(AppError::ParseError(m)) && m@ == "Resposta inválida da API: "@ + e@
            },
            FetchEvent::Unreachable(e) => {
                &&& r.0 == failures + 1
                &&& match retry_after(r.0 as nat) {
                    Some(d) => r.1 matches FetchAction::RetryAfter(x) && x == d,
                    None => r.1 matches FetchAction::Fail(AppError::NetworkError(m)) && m@
                        == give_up_message(r.0 as nat, e@),
                }
            },
        },
{
    match event {
        FetchEvent::Received => (failures, FetchAction::Keep),
        FetchEvent::BadStatus(s) => {
            let mut m = String::new();
            m.append("API retornou status ");
            m.append(s.as_str());
            (failures, FetchAction::Fail(AppError::NetworkError(m)))
        },
        FetchEvent::BadBody(e) => {
            let mut m = String::new();
            m.append("Resposta inválida da API: ");
            m.append(e.as_str());
            (failures, FetchAction::Fail(AppError::ParseError(m)))
        },
        FetchEvent::Unreachable(e) => {
            let n = failures + 1;
            if n >= MAX_RETRY_ATTEMPTS {
                let mut m = String::new();
                m.append("Não foi possível acessar wttr.in após ");
                push_dec(&mut m, n as u64);
                m.append(" tentativas: ");
                m.append(e.as_str());
                (n, FetchAction::Fail(AppError::NetworkError(m)))
            } else {
                (n, FetchAction::RetryAfter(retry_delay(n)))
            }
        },
    }
}

/// Law: a service out of reach is tried again after each of the first 19
/// failures, and given up at the 20th.
pub proof fn law_gives_up_at_most_attempts(failures: nat)
    ensures
        1 <= failures < MAX_RETRY_ATTEMPTS ==> retry_after(failures) is Some,
        failures >= MAX_RETRY_ATTEMPTS ==> retry_after(failures) is None,
{
}

/// Law: the backoff is exponential: each delay is twice the one before, the
/// first being the base delay.
pub proof fn law_backoff_doubles(failures: nat)
    requires
        1 <= failures,
        failures + 1 < MAX_RETRY_ATTEMPTS,
    ensures
        retry_after(1) == Some(RETRY_DELAY_BASE_MS as nat),
        retry_after(failures + 1) matches Some(next) && retry_after(failures) matches Some(prev)
            && next == 2 * prev,
{
}

} // verus!
