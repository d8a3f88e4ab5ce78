//! Media resolution: from the stream address of the API to the address that
//! serves the audio bytes.
//!
//! The request goes to the stream address with the bearer token and does not
//! follow redirects; the `Location` header of the answer is the media
//! address. This module decides what follows each answer, and writes the
//! header values of the requests.

use vstd::prelude::*;
use vstd::string::*;
use crate::retry::{RetryPolicy, RetryStep};
use crate::text::{append_decimal, decimal};

verus! {

/// What came back from one request for the redirect.
#[derive(Debug)]
pub enum RedirectOutcome {
    /// The `Location` header of the answer.
    Location(String),
    /// An answer without a readable `Location` header.
    NoLocation,
    /// The request did not get through.
    TransportError,
}

/// Which resolution ran out of attempts.
#[derive(Clone, Copy, Debug, PartialEq, Eq, Structural)]
pub enum ResolveError {
    /// Resolving the address of the track to play.
    RedirectFailed,
    /// Resolving the address of the next track ahead of time.
    PrefetchFailed,
}

/// What follows one request for the redirect.
#[derive(Debug)]
pub enum ResolveStep {
    /// The media address.
    Resolved(String),
    /// Wait, then ask again.
    RetryAfter { wait_ms: u64, next_attempt: u32 },
    Failed(ResolveError),
}

/// What follows attempt number `attempt` with `outcome`: the address if
/// there is one; else another attempt after 500 ms times the attempt's
/// number, if this was the first attempt; else the failure `error`.
pub open spec fn resolve_step(attempt: u32, outcome: RedirectOutcome, error: ResolveError) -> ResolveStep {
    match outcome {
        RedirectOutcome::Location(url) => ResolveStep::Resolved(url),
        _ => if attempt < 2 {
            ResolveStep::RetryAfter {
                wait_ms: (500 * attempt) as u64,
                next_attempt: (attempt + 1) as u32,
            }
        } else {
            ResolveStep::Failed(error)
        },
    }
}

fn resolve_with(attempt: u32, outcome: RedirectOutcome, error: ResolveError) -> (step: ResolveStep)
    ensures
        step == resolve_step(attempt, outcome, error),
{
    match outcome {
        RedirectOutcome::Location(url) => ResolveStep::Resolved(url),
        _ => match RetryPolicy::redirect().after_failure(attempt) {
            RetryStep::RetryAfter { wait_ms, next_attempt } => {
                assert(wait_ms == 500 * attempt) by (nonlinear_arith)
                    requires
                        wait_ms == (500 as nat) * (attempt as nat),
                ;
                ResolveStep::RetryAfter { wait_ms, next_attempt }
            },
            RetryStep::GiveUp => ResolveStep::Failed(error),
        },
    }
}

/// Decides what follows attempt number `attempt`, counted from 1, at
/// resolving the stream address of the track to play.
pub fn resolve_redirect(attempt: u32, outcome: RedirectOutcome) -> (step: ResolveStep)
    ensures
        step == resolve_step(attempt, outcome, ResolveError::RedirectFailed),
{
    resolve_with(attempt, outcome, ResolveError::RedirectFailed)
}

/// Decides what follows attempt number `attempt`, counted from 1, at
/// resolving the stream address of the next track ahead of time.
pub fn prefetch_stream_url(attempt: u32, outcome: RedirectOutcome) -> (step: ResolveStep)
    ensures
        step == resolve_step(attempt, outcome, ResolveError::PrefetchFailed),
{
    resolve_with(attempt, outcome, ResolveError::PrefetchFailed)
}

impl ResolveError {
    /// The text of the error.
    pub open spec fn message_text(self) -> Seq<char> {
        match self {
            ResolveError::RedirectFailed => "Redirect failed: no Location header after 2 attempts"@,
            ResolveError::PrefetchFailed => "No Location header in redirect"@,
        }
    }

    pub fn message(&self) -> (text: String)
        ensures
            text@ == self.message_text(),
    {
        match self {
            ResolveError::RedirectFailed => String::from_str(
                "Redirect failed: no Location header after 2 attempts",
            ),
            ResolveError::PrefetchFailed => String::from_str("No Location header in redirect"),
        }
    }
}

/// True for the status codes of an answer that carries media: the codes of
/// success, 200 and 206 among them.
pub open spec fn is_success_status(status: u16) -> bool {
    200 <= status < 300
}

/// Whether a media fetch that was answered with `status` is accepted.
pub fn accepts_status(status: u16) -> (ok: bool)
    ensures
        ok == is_success_status(status),
        status == 200 || status == 206 ==> ok,
{
    200 <= status && status < 300
}

/// The value of the `Authorization` header for `token`.
pub fn authorization_header(token: &str) -> (value: String)
    ensures
        value@ == "OAuth "@ + token@,
{
    String::from_str("OAuth ").concat(token)
}

/// The value of the `Range` header that asks for the bytes from `offset`.
pub fn range_header(offset: u64) -> (value: String)
    ensures
        value@ == "bytes="@ + decimal(offset as nat) + "-"@,
{
    let mut value = String::from_str("bytes=");
    append_decimal(&mut value, offset);
    value.append("-");
    value
}

/// Resolution asks twice and no more: an attempt that brings no address is
/// followed by another after 500 ms times its number if it was the first,
/// and is final otherwise.
pub proof fn lemma_resolution_gives_up_after_two(
    attempt: u32,
    outcome: RedirectOutcome,
    error: ResolveError,
)
    requires
        !(outcome is Location),
    ensures
        attempt >= 2 ==> resolve_step(attempt, outcome, error) == ResolveStep::Failed(error),
        attempt < 2 ==> resolve_step(attempt, outcome, error) == (ResolveStep::RetryAfter {
            wait_ms: (500 * attempt) as u64,
            next_attempt: (attempt + 1) as u32,
        }),
{
}

} // verus!
