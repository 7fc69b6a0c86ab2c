//! The request-driving logic shared by every endpoint: URL path assembly,
//! and the attempt-by-attempt decisions of the retry loop.
//!
//! The transport itself lives outside this crate. It reports what each
//! attempt came to as an `AttemptOutcome`; the driver answers with the
//! `NextAction` to take: parse the body, wait and retry, or give up with the
//! exhausted-retries error, which carries every failed attempt's error. A
//! deserialization failure is never retried — it is a schema mismatch, not a
//! transient fault — while transport and status failures are retried as the
//! strategy directs.

use vstd::prelude::*;
use vstd::string::StringExecFns;

use crate::errors::{snippet_around, spec_snippet, Error};
use crate::retry_strategy::RetryStrategy;
use crate::world::World;

verus! {

/// The endpoint for server information (the API root of a world).
pub const SERVER_PATH: &'static str = "";

/// The endpoint for town summaries and town detail queries.
pub const TOWNS_PATH: &'static str = "towns";

/// The endpoint for nation summaries and nation detail queries.
pub const NATIONS_PATH: &'static str = "nations";

/// The endpoint for player summaries and player detail queries.
pub const PLAYERS_PATH: &'static str = "players";

/// The endpoint for proximity searches.
pub const NEARBY_PATH: &'static str = "nearby";

/// The endpoint for quarter summaries and quarter detail queries.
pub const QUARTERS_PATH: &'static str = "quarters";

/// The endpoint for chat-account link lookups.
pub const DISCORD_PATH: &'static str = "discord";

/// The endpoint for the top-fifty leaderboard.
pub const MYSTERY_MASTER_PATH: &'static str = "mm";

/// The endpoint for coordinate lookups.
pub const LOCATION_PATH: &'static str = "location";

/// The endpoint for the aggregate player-statistics map.
pub const PLAYER_STATS_PATH: &'static str = "player-stats";

/// How many characters of context a deserialization snippet shows on each
/// side of the reported position.
pub const SNIPPET_CONTEXT: usize = 10;

/// The relative path of an endpoint on a world: `{world}/{endpoint}`.
pub fn request_path(world: &World, endpoint: &str) -> (r: String)
    ensures
        r@ == world.spec_string() + "/"@ + endpoint@,
{
    let mut out = world.as_string();
    out.append("/");
    out.append(endpoint);
    out
}

/// What one attempt of a request came to, as the transport reports it.
#[derive(Debug)]
pub enum AttemptOutcome {
    /// The transport failed before any HTTP status was available; carries
    /// its description.
    TransportFailure(String),
    /// A response arrived with a status outside the 2xx range.
    HttpFailure(u16),
    /// A 2xx response arrived; carries the raw body text.
    Success(String),
}

/// What the driver asks the transport to do next.
#[derive(Debug)]
pub enum NextAction {
    /// Wait this many milliseconds, then send the same request again.
    RetryAfter(u64),
    /// Give up and surface this error.
    Abort(Error),
    /// The body arrived; parse it into the expected response type.
    Parse(String),
}

/// The error one failed attempt stands for on its own.
pub open spec fn spec_outcome_error(outcome: AttemptOutcome) -> Error {
    match outcome {
        AttemptOutcome::TransportFailure(msg) => Error::Transport(msg),
        AttemptOutcome::HttpFailure(status) => Error::HttpStatus(status),
        AttemptOutcome::Success(_) => Error::HttpStatus(0),
    }
}

/// Turns a failed attempt and the strategy's decision into the next action
/// and the updated error log: a granted wait is obeyed exactly and the
/// failure is appended to the log; a refusal surfaces the exhausted-retries
/// error carrying every failed attempt's error, the terminal one last, and
/// leaves the log empty.
pub fn resolve_failure(decision: Option<u64>, errors: Vec<Error>, err: Error) -> (r: (
    NextAction,
    Vec<Error>,
))
    ensures
        (decision matches Some(d) ==> r.0 == NextAction::RetryAfter(d) && r.1@ == errors@.push(
            err,
        )),
        (decision is None ==> (r.0 matches NextAction::Abort(e) && e matches Error::TooManyRetry(
            errs,
        ) && errs@ == errors@.push(err)) && r.1@.len() == 0),
{
    let mut errors = errors;
    errors.push(err);
    match decision {
        Some(d) => (NextAction::RetryAfter(d), errors),
        None => (NextAction::Abort(Error::TooManyRetry(errors)), Vec::new()),
    }
}

/// Drives one request through its attempts, consulting a retry strategy
/// after each failure. The strategy is polymorphic: nothing is assumed of
/// its answers beyond how each answer is acted on.
pub struct RequestDriver<S: RetryStrategy> {
    /// The strategy consulted after each failed attempt.
    pub strategy: S,
    /// How many failed attempts have been retried so far.
    pub attempts: usize,
    /// The errors of the failed attempts retried so far, oldest first.
    pub errors: Vec<Error>,
}

impl<S: RetryStrategy> RequestDriver<S> {
    /// A driver for one request, starting before its first attempt.
    pub fn new(strategy: S) -> (r: Self)
        ensures
            r.attempts == 0,
            r.errors@.len() == 0,
    {
        RequestDriver { strategy, attempts: 0, errors: Vec::new() }
    }

    /// Feeds the outcome of one attempt and decides what happens next.
    ///
    /// A successful body goes straight to parsing, with the attempt count
    /// and the error log untouched. On a failure the strategy is consulted
    /// with the count of failures so far: a granted wait is passed on, the
    /// retry is counted and the failure logged; a refusal surfaces the
    /// exhausted-retries error, which carries the error of every failed
    /// attempt in order, the terminal one last. Whatever the strategy
    /// answers, no successful body is ever dropped and no failure is ever
    /// parsed.
    pub fn step(&mut self, outcome: AttemptOutcome) -> (r: NextAction)
        requires
            old(self).attempts < usize::MAX,
        ensures
            (outcome matches AttemptOutcome::Success(body) ==> r == NextAction::Parse(body)
                && final(self).attempts == old(self).attempts && final(self).errors == old(
                self,
            ).errors),
            (!(outcome is Success) ==> ((r matches NextAction::RetryAfter(_)
                && final(self).attempts == old(self).attempts + 1 && final(self).errors@ == old(
                self,
            ).errors@.push(spec_outcome_error(outcome))) || (r matches NextAction::Abort(e)
                && e matches Error::TooManyRetry(errs) && errs@ == old(self).errors@.push(
                spec_outcome_error(outcome),
            ) && final(self).attempts == old(self).attempts && final(self).errors@.len() == 0))),
    {
        match outcome {
            AttemptOutcome::Success(body) => NextAction::Parse(body),
            AttemptOutcome::TransportFailure(msg) => {
                let decision = self.strategy.should_retry_after(self.attempts);
                if decision.is_some() {
                    self.attempts = self.attempts + 1;
                }
                let mut errors: Vec<Error> = Vec::new();
                core::mem::swap(&mut errors, &mut self.errors);
                let (action, rest) = resolve_failure(decision, errors, Error::Transport(msg));
                self.errors = rest;
                action
            },
            AttemptOutcome::HttpFailure(status) => {
                let decision = self.strategy.should_retry_after(self.attempts);
                if decision.is_some() {
                    self.attempts = self.attempts + 1;
                }
                let mut errors: Vec<Error> = Vec::new();
                core::mem::swap(&mut errors, &mut self.errors);
                let (action, rest) = resolve_failure(decision, errors, Error::HttpStatus(status));
                self.errors = rest;
                action
            },
        }
    }
}

/// The error surfaced when a POST response parses as JSON text but not as
/// the expected schema: the parser's description, together with a snippet of
/// the body around the position the parser reported. GET responses surface
/// the bare description instead, a deliberate asymmetry: only POST bodies
/// are captured as text before parsing.
pub fn post_parse_failure(body: &str, message: String, line: usize, column: usize) -> (r: Error)
    ensures
        (r matches Error::DeserializationWithSnippet { message: m, snippet } && m == message
            && snippet@ == spec_snippet(
            body@,
            line as nat,
            column as nat,
            SNIPPET_CONTEXT as nat,
        )),
{
    let snippet = snippet_around(body, line, column, SNIPPET_CONTEXT);
    Error::DeserializationWithSnippet { message, snippet }
}

} // verus!
