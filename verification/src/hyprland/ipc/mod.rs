//! The command socket: one request per connection, answered by one JSON
//! document, and retried from scratch when the compositor drops the connection.
//!
//! The sockets themselves belong to the caller. This module decides: it names
//! the socket, frames the request, and after every attempt says whether the
//! request is answered, has failed, or is to be tried again.

use vstd::prelude::*;
use vstd::string::StringExecFns;

use crate::hyprland::error::{Error, IoError, IoErrorKind, JsonError};
use crate::hyprland::ipc::commands::Command;
use crate::hyprland::ipc::json::{json_document, parse_document};
use crate::hyprland::ipc::schema::FromJson;

pub mod commands;
pub mod json;
pub mod schema;

verus! {

/// How many attempts one request may take.
pub const MAX_ATTEMPTS: u32 = 6;

/// The directory that holds the sockets of the compositor instance `signature`.
pub open spec fn runtime_dir(signature: Seq<char>) -> Seq<char> {
    "/tmp/hypr/"@ + signature
}

/// Path of the socket on which the compositor answers commands.
pub open spec fn command_socket(signature: Seq<char>) -> Seq<char> {
    runtime_dir(signature) + "/.socket.sock"@
}

/// Path of the socket on which the compositor announces events.
pub open spec fn event_socket(signature: Seq<char>) -> Seq<char> {
    runtime_dir(signature) + "/.socket2.sock"@
}

/// The text that asks for the JSON form of `command`.
pub open spec fn request_text(command: Seq<char>) -> Seq<char> {
    "j/"@ + command
}

/// Path of the command socket of the compositor instance `signature`.
pub fn command_socket_path(signature: &str) -> (path: String)
    ensures
        path@ == command_socket(signature@),
{
    let mut path = String::from_str("/tmp/hypr/");
    path.append(signature);
    path.append("/.socket.sock");
    path
}

/// Path of the event socket of the compositor instance `signature`.
pub fn event_socket_path(signature: &str) -> (path: String)
    ensures
        path@ == event_socket(signature@),
{
    let mut path = String::from_str("/tmp/hypr/");
    path.append(signature);
    path.append("/.socket2.sock");
    path
}

/// The request that asks for the JSON form of `command`.
pub fn request_message(command: &str) -> (message: String)
    ensures
        message@ == request_text(command@),
{
    let mut message = String::from_str("j/");
    message.append(command);
    message
}

/// The request that asks for the response of type `T`: `j/workspaces` for
/// the workspaces, and so on for each command.
pub fn request_for<T: Command>() -> (message: String)
    ensures
        message@ == request_text(T::name()),
{
    request_message(T::command_name())
}

/// `r` is what the response `bytes` comes to when it is read as a `T`: the
/// value that the document holds, a syntax error where `bytes` are no JSON
/// document, a schema error where the document has not the shape of `T`.
pub open spec fn is_response<T: Command>(bytes: Seq<u8>, r: Result<T, Error>) -> bool {
    match json_document(bytes) {
        Some(document) => match T::decoded(document) {
            Some(model) => r matches Ok(x) && x.model() == model,
            None => r == Err::<T, Error>(Error::JsonParse(JsonError::Schema)),
        },
        None => r matches Err(Error::JsonParse(JsonError::Syntax(_))),
    }
}

/// Decodes a response into the type `T` of its command.
pub fn decode_response<T: Command>(bytes: &[u8]) -> (r: Result<T, Error>)
    ensures
        is_response::<T>(bytes@, r),
{
    match parse_document(bytes) {
        Ok(document) => match T::from_json(&document) {
            Some(x) => Ok(x),
            None => Err(Error::JsonParse(JsonError::Schema)),
        },
        Err(e) => Err(Error::JsonParse(JsonError::Syntax(e))),
    }
}

/// How one attempt at the exchange ended.
#[derive(Debug, Clone, PartialEq, Eq)]
pub enum Attempt {
    /// The peer answered and closed the connection: everything that was read.
    Response(Vec<u8>),
    /// Connecting, writing or reading failed.
    Failed(IoError),
}

/// What follows an attempt.
#[derive(Debug, Clone, PartialEq, Eq)]
pub enum Decision {
    /// Open a fresh connection and try again.
    Retry,
    /// The request is answered: these bytes are the response.
    Respond(Vec<u8>),
    /// The request has failed for good.
    Fail(Error),
}

/// A transport failure is worth another attempt only if it is a broken pipe.
pub open spec fn is_transient_kind(kind: IoErrorKind) -> bool {
    kind == IoErrorKind::BrokenPipe
}

/// Whether `error` is worth another attempt.
pub fn is_transient(error: &IoError) -> (r: bool)
    ensures
        r == is_transient_kind(error.kind),
{
    match error.kind {
        IoErrorKind::BrokenPipe => true,
        _ => false,
    }
}

/// What follows the attempt number `made` (counted from one) that ended as
/// `outcome`.
pub open spec fn decision_after(made: nat, outcome: Attempt) -> Decision {
    match outcome {
        Attempt::Response(bytes) => Decision::Respond(bytes),
        Attempt::Failed(error) => if !is_transient_kind(error.kind) {
            Decision::Fail(Error::Io(error))
        } else if made < MAX_ATTEMPTS {
            Decision::Retry
        } else {
            Decision::Fail(Error::MaxRetriesExceeded())
        },
    }
}

/// How a request ends whose attempts end, one after the other, as `script`
/// says, when `made` attempts came before: the final decision and the number
/// of attempts made in all. `None` where the script runs out before the
/// request has ended.
pub open spec fn request_outcome(script: Seq<Attempt>, made: nat) -> Option<(Decision, nat)>
    decreases script.len(),
{
    if script.len() == 0 {
        None
    } else {
        let decision = decision_after(made + 1, script[0]);
        if decision is Retry {
            request_outcome(script.drop_first(), made + 1)
        } else {
            Some((decision, made + 1))
        }
    }
}

/// The progress of one request: how many attempts it has taken. Nothing is
/// shared between requests; each starts afresh.
#[derive(Debug)]
pub struct Request {
    attempts: u32,
}

impl Request {
    /// Attempts taken so far, counted up to `MAX_ATTEMPTS`.
    pub closed spec fn attempts_made(self) -> nat {
        self.attempts as nat
    }

    /// A request that has not been tried yet.
    pub fn new() -> (r: Request)
        ensures
            r.attempts_made() == 0,
    {
        Request { attempts: 0 }
    }

    /// Attempts taken so far, counted up to `MAX_ATTEMPTS`.
    pub fn attempts(&self) -> (n: u32)
        ensures
            n == self.attempts_made(),
    {
        self.attempts
    }

    /// Takes note of how an attempt ended and decides what follows.
    ///
    /// A response ends the request. A broken pipe asks for another attempt
    /// until `MAX_ATTEMPTS` are made, and then fails the request as exhausted.
    /// Any other failure fails it at once, with that failure.
    pub fn record(&mut self, outcome: Attempt) -> (decision: Decision)
        ensures
            decision == decision_after(old(self).attempts_made() + 1, outcome),
            final(self).attempts_made() == if old(self).attempts_made() < MAX_ATTEMPTS {
                old(self).attempts_made() + 1
            } else {
                old(self).attempts_made()
            },
    {
        let could_retry = self.attempts < MAX_ATTEMPTS - 1;
        if self.attempts < MAX_ATTEMPTS {
            self.attempts = self.attempts + 1;
        }
        match outcome {
            Attempt::Response(bytes) => Decision::Respond(bytes),
            Attempt::Failed(error) => {
                if !is_transient(&error) {
                    Decision::Fail(Error::Io(error))
                } else if could_retry {
                    Decision::Retry
                } else {
                    Decision::Fail(Error::MaxRetriesExceeded())
                }
            },
        }
    }
}

/// What follows an attempt of a request whose response is a `T`.
#[derive(Debug)]
pub enum Step<T> {
    /// Open a fresh connection and try again.
    Retry,
    /// The request is over, with this result.
    Done(Result<T, Error>),
}

/// One turn of a request for a `T`: takes note of how an attempt ended, and
/// either asks for another attempt or ends the request, with the decoded
/// response or with the failure.
///
/// The caller makes the attempts: for each, it opens a fresh connection to the
/// command socket, writes the request, reads until the peer closes, and hands
/// what came of it to this function, until the step is `Done`.
pub fn request<T: Command>(progress: &mut Request, outcome: Attempt) -> (step: Step<T>)
    ensures
        final(progress).attempts_made() == if old(progress).attempts_made() < MAX_ATTEMPTS {
            old(progress).attempts_made() + 1
        } else {
            old(progress).attempts_made()
        },
        match decision_after(old(progress).attempts_made() + 1, outcome) {
            Decision::Retry => step is Retry,
            Decision::Respond(bytes) => step matches Step::Done(r) && is_response::<T>(bytes@, r),
            Decision::Fail(e) => step == Step::<T>::Done(Err(e)),
        },
{
    match progress.record(outcome) {
        Decision::Retry => Step::Retry,
        Decision::Respond(bytes) => Step::Done(decode_response::<T>(bytes.as_slice())),
        Decision::Fail(e) => Step::Done(Err(e)),
    }
}

/// A request that follows the decisions never takes more than `MAX_ATTEMPTS`
/// attempts, however its attempts end.
pub proof fn lemma_attempts_are_bounded(script: Seq<Attempt>, made: nat)
    requires
        made < MAX_ATTEMPTS,
    ensures
        request_outcome(script, made) matches Some((_, total)) ==> made < total <= MAX_ATTEMPTS,
    decreases script.len(),
{
    if script.len() > 0 {
        let decision = decision_after(made + 1, script[0]);
        if decision is Retry {
            lemma_attempts_are_bounded(script.drop_first(), made + 1);
        }
    }
}

/// A request whose first `k` attempts meet a broken pipe, with `k` below
/// `MAX_ATTEMPTS`, and whose next attempt is answered, yields that answer
/// after exactly `k + 1` attempts.
pub proof fn lemma_retry_until_answered(script: Seq<Attempt>, k: nat, bytes: Vec<u8>)
    requires
        k < MAX_ATTEMPTS,
        k < script.len(),
        forall|i: int|
            0 <= i < k ==> (#[trigger] script[i] matches Attempt::Failed(e) && is_transient_kind(
                e.kind,
            )),
        script[k as int] == Attempt::Response(bytes),
    ensures
        request_outcome(script, 0) == Some((Decision::Respond(bytes), k + 1)),
{
    lemma_retry_from(script, 0, k, bytes);
}

proof fn lemma_retry_from(script: Seq<Attempt>, made: nat, k: nat, bytes: Vec<u8>)
    requires
        made + k < MAX_ATTEMPTS,
        k < script.len(),
        forall|i: int|
            0 <= i < k ==> (#[trigger] script[i] matches Attempt::Failed(e) && is_transient_kind(
                e.kind,
            )),
        script[k as int] == Attempt::Response(bytes),
    ensures
        request_outcome(script, made) == Some((Decision::Respond(bytes), made + k + 1)),
    decreases k,
{
    if k > 0 {
        let rest = script.drop_first();
        assert(script[0] is Failed);
        assert forall|i: int| 0 <= i < k - 1 implies (#[trigger] rest[i] matches Attempt::Failed(e)
            && is_transient_kind(e.kind)) by {
            assert(rest[i] == script[i + 1]);
        }
        assert(rest[k - 1] == script[k as int]);
        lemma_retry_from(rest, made + 1, (k - 1) as nat, bytes);
    }
}

/// A request whose first `MAX_ATTEMPTS` attempts all meet a broken pipe fails
/// as exhausted, after exactly `MAX_ATTEMPTS` attempts.
pub proof fn lemma_retries_run_out(script: Seq<Attempt>)
    requires
        script.len() >= MAX_ATTEMPTS,
        forall|i: int|
            0 <= i < MAX_ATTEMPTS ==> (#[trigger] script[i] matches Attempt::Failed(e)
                && is_transient_kind(e.kind)),
    ensures
        request_outcome(script, 0) == Some(
            (Decision::Fail(Error::MaxRetriesExceeded()), MAX_ATTEMPTS as nat),
        ),
{
    lemma_run_out_from(script, 0);
}

proof fn lemma_run_out_from(script: Seq<Attempt>, made: nat)
    requires
        made < MAX_ATTEMPTS,
        script.len() >= MAX_ATTEMPTS - made,
        forall|i: int|
            0 <= i < MAX_ATTEMPTS - made ==> (#[trigger] script[i] matches Attempt::Failed(e)
                && is_transient_kind(e.kind)),
    ensures
        request_outcome(script, made) == Some(
            (Decision::Fail(Error::MaxRetriesExceeded()), MAX_ATTEMPTS as nat),
        ),
    decreases MAX_ATTEMPTS - made,
{
    assert(script[0] is Failed);
    if made + 1 < MAX_ATTEMPTS {
        let rest = script.drop_first();
        assert forall|i: int| 0 <= i < MAX_ATTEMPTS - (made + 1) implies (
        #[trigger] rest[i] matches Attempt::Failed(e) && is_transient_kind(e.kind)) by {
            assert(rest[i] == script[i + 1]);
        }
        lemma_run_out_from(rest, made + 1);
    }
}

/// A failure that is no broken pipe fails the request at the first attempt,
/// with that failure, whatever would have followed.
pub proof fn lemma_other_failure_is_final(script: Seq<Attempt>, error: IoError)
    requires
        script.len() > 0,
        script[0] == Attempt::Failed(error),
        !is_transient_kind(error.kind),
    ensures
        request_outcome(script, 0) == Some((Decision::Fail(Error::Io(error)), 1nat)),
{
}

} // verus!
