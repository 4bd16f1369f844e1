//! Keyed long-running operations of the core: how their results are
//! classified, and the cancellation tokens that stop them.

use vstd::prelude::*;
use tokio_util::sync::CancellationToken;

verus! {

/// Declares tokio-util's cancellation token to Verus as an opaque type.
#[verifier::external_type_specification]
#[verifier::external_body]
pub struct ExCancellationToken(CancellationToken);

/// A new token in the non-cancelled state.
///
/// Trusted: calls `CancellationToken::new`; nothing is stated about the
/// token, whose state is shared with its clones.
#[verifier::external_body]
pub(crate) fn new_token() -> CancellationToken {
    CancellationToken::new()
}

/// A handle to the same token.
///
/// Trusted: calls `<CancellationToken as Clone>::clone`, which tokio-util
/// documents as a token that is cancelled whenever the one it copies is; that
/// shared state is not stated.
#[verifier::external_body]
pub(crate) fn share_token(token: &CancellationToken) -> CancellationToken {
    token.clone()
}

/// Requests cancellation.
///
/// Trusted: calls `CancellationToken::cancel`; the effect on the shared
/// token state is not stated.
#[verifier::external_body]
pub(crate) fn cancel_token(token: &CancellationToken) {
    token.cancel();
}

/// Whether cancellation was requested.
///
/// Trusted: calls `CancellationToken::is_cancelled`; the answer depends on
/// state shared with other handles, so nothing is stated about it.
#[verifier::external_body]
pub(crate) fn token_is_cancelled(token: &CancellationToken) -> bool {
    token.is_cancelled()
}

/// A failure reported by the core: whether it is the core's cancellation
/// error, and the error's display text.
#[derive(Debug, Clone)]
pub struct CoreFailure {
    pub cancelled: bool,
    pub text: String,
}

/// Progress of an operation as reported by the core.
#[derive(Debug, Clone)]
pub struct Progress {
    /// Completed fraction in millionths, when known.
    pub fraction_millionths: Option<u32>,
    /// Total size of the transfer in bytes, when known.
    pub total_bytes: Option<u64>,
}

/// How a keyed operation ended.
#[derive(Debug, Clone)]
pub enum Outcome<T> {
    Succeeded(T),
    Cancelled,
    Failed(CoreFailure),
}

/// What a keyed operation reports.
#[derive(Debug, Clone)]
pub enum Event<K, T> {
    Progress { key: K, progress: Progress },
    Finished { key: K, outcome: Outcome<T> },
}

pub open spec fn outcome_spec<T>(result: Result<T, CoreFailure>) -> Outcome<T> {
    match result {
        Ok(value) => Outcome::Succeeded(value),
        Err(error) => if error.cancelled { Outcome::Cancelled } else { Outcome::Failed(error) },
    }
}

/// Classifies an operation's result: the core's cancellation error becomes
/// `Cancelled`, any other error `Failed`.
pub fn outcome<T>(result: Result<T, CoreFailure>) -> (res: Outcome<T>)
    ensures
        res == outcome_spec(result),
{
    match result {
        Ok(value) => Outcome::Succeeded(value),
        Err(error) => if error.cancelled { Outcome::Cancelled } else { Outcome::Failed(error) },
    }
}

/// The successor of a generation counter, wrapping at the top.
pub open spec fn next_generation(generation: u64) -> u64 {
    if generation == u64::MAX { 0 } else { (generation + 1) as u64 }
}

/// Advances a generation counter the way the workflows do.
pub fn bump(generation: u64) -> (res: u64)
    ensures
        res == next_generation(generation),
{
    generation.wrapping_add(1)
}

} // verus!
