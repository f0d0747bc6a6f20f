//! The three endpoint decisions, each behind the same bearer gate: submit a
//! command, poll for the oldest unclaimed one, deliver a result. Each
//! rejects an unauthorized caller before any shared state is touched.

use vstd::prelude::*;
use crate::auth::{authorize, authorized, header_view};
use crate::broker::{registers, resolves, untouched, Broker, PendingCommand};

verus! {

/// How long a submission waits for a consumer to claim its command.
pub const PICKUP_DEADLINE_SECS: u64 = 5;

/// How long a claimed submission then waits for its result. An independent
/// budget: it starts only once the pickup has happened.
pub const EXECUTION_DEADLINE_SECS: u64 = 10;

/// The fixed local port the transport front listens on.
pub const CONTROL_BUS_PORT: u16 = 8083;

/// Relies on `uuid::Uuid::new_v4` and its `Display` impl: a freshly drawn
/// random version-4 UUID rendered in the hyphenated form, 36 characters.
/// Nothing else is assumed of the value — in particular not that it is new;
/// the caller checks for a collision and refuses it.
#[verifier::external_body]
fn mint_request_id() -> (r: String)
    ensures
        r@.len() == 36,
{
    uuid::Uuid::new_v4().to_string()
}

/// What the submit endpoint decided before any waiting starts.
pub enum SubmitStart {
    /// The bearer gate refused the caller; nothing was registered.
    Unauthorized,
    /// The freshly minted identifier was already registered — possible only
    /// on a random collision — so nothing was changed.
    IdCollision,
    /// The command is registered in both tables under this identifier.
    Registered(String),
}

/// Authenticates the caller, mints a fresh identifier and registers the
/// command in both tables under it. The caller then waits on its notifier up
/// to the pickup deadline and on its waiter up to the execution deadline;
/// the tables change here and nowhere else on this path. A collision can
/// only be reported when some 36-character identifier already occupies a
/// table: an authorized submission to an empty broker always registers.
pub fn submit_endpoint<W, N>(
    b: &mut Broker<W, N>,
    header: Option<&String>,
    token: &String,
    command: String,
    waiter: W,
    notifier: N,
) -> (r: SubmitStart)
    requires
        old(b).wf(),
    ensures
        final(b).wf(),
        !authorized(header_view(header), token@) ==> r is Unauthorized && untouched(
            *old(b),
            *final(b),
        ),
        authorized(header_view(header), token@) && r is IdCollision ==> exists|id: Seq<char>|
            id.len() == 36 && (#[trigger] old(b).corr_has(id) || old(b).queue_has(id)),
        authorized(header_view(header), token@) ==> match r {
            SubmitStart::Unauthorized => false,
            SubmitStart::IdCollision => untouched(*old(b), *final(b)),
            SubmitStart::Registered(id) => id@.len() == 36 && registers(
                *old(b),
                *final(b),
                id@,
                command@,
                waiter,
                notifier,
            ),
        },
{
    if !authorize(header, token) {
        return SubmitStart::Unauthorized;
    }
    let id = mint_request_id();
    let caller_id = id.clone();
    let fresh = b.register(id, command, waiter, notifier);
    if fresh {
        SubmitStart::Registered(caller_id)
    } else {
        SubmitStart::IdCollision
    }
}

/// What the poll endpoint answered.
pub enum PollOutcome<N> {
    /// The bearer gate refused the caller; the queue was not read.
    Unauthorized,
    /// No command is waiting: not an error, the consumer polls again.
    Empty,
    /// The oldest queued command, now claimed, with its pickup notifier for
    /// the caller to resolve.
    Picked(PendingCommand, N),
}

/// Authenticates the consumer and claims the oldest queued command, if any.
/// A claimed identifier never comes out of this endpoint again.
pub fn poll_endpoint<W, N>(b: &mut Broker<W, N>, header: Option<&String>, token: &String) -> (r:
    PollOutcome<N>)
    requires
        old(b).wf(),
    ensures
        final(b).wf(),
        !authorized(header_view(header), token@) ==> r is Unauthorized && untouched(
            *old(b),
            *final(b),
        ),
        authorized(header_view(header), token@) && old(b).queue().len() == 0 ==> r is Empty
            && untouched(*old(b), *final(b)),
        authorized(header_view(header), token@) && old(b).queue().len() > 0 ==> match r {
            PollOutcome::Picked(c, n) => c.request_id@ == old(b).queue()[0].0 && c.command@ == old(
                b,
            ).queue()[0].1.0 && n == old(b).queue()[0].1.1 && final(b).corr() == old(b).corr()
                && final(b).queue() == old(b).queue().remove(0) && !final(b).queue_has(
                c.request_id@,
            ),
            _ => false,
        },
{
    if !authorize(header, token) {
        return PollOutcome::Unauthorized;
    }
    match b.poll() {
        Option::None => PollOutcome::Empty,
        Option::Some((cmd, notifier)) => PollOutcome::Picked(cmd, notifier),
    }
}

/// What the result endpoint answered.
pub enum ResultOutcome<W> {
    /// The bearer gate refused the caller; the table was not read.
    Unauthorized,
    /// The request carried no identifier: a malformed request.
    MissingId,
    /// No waiter is registered under the identifier: it timed out, was
    /// already resolved, or never existed. Stale and unknown identifiers are
    /// indistinguishable here, by design.
    UnknownId,
    /// The waiter registered under the identifier, removed for good; the
    /// caller resolves it with the delivered value.
    Deliver(W),
}

/// Authenticates the consumer and takes the waiter registered under the
/// given identifier out of the correlation table. Succeeds at most once per
/// identifier: the entry is consumed by the first delivery.
pub fn result_endpoint<W, N>(
    b: &mut Broker<W, N>,
    header: Option<&String>,
    token: &String,
    request_id: Option<&String>,
) -> (r: ResultOutcome<W>)
    requires
        old(b).wf(),
    ensures
        final(b).wf(),
        !authorized(header_view(header), token@) ==> r is Unauthorized && untouched(
            *old(b),
            *final(b),
        ),
        authorized(header_view(header), token@) ==> match request_id {
            Option::None => r is MissingId && untouched(*old(b), *final(b)),
            Option::Some(id) => if old(b).corr_has(id@) {
                r matches ResultOutcome::Deliver(w) && w == old(b).waiter_of(id@) && resolves(
                    *old(b),
                    *final(b),
                    id@,
                    w,
                )
            } else {
                r is UnknownId && untouched(*old(b), *final(b))
            },
        },
{
    if !authorize(header, token) {
        return ResultOutcome::Unauthorized;
    }
    match request_id {
        Option::None => ResultOutcome::MissingId,
        Option::Some(id) => match b.take_waiter(id) {
            Option::None => ResultOutcome::UnknownId,
            Option::Some(w) => ResultOutcome::Deliver(w),
        },
    }
}

/// The structured reply reported to a submitting caller. All four failure
/// paths travel as a successful transport response with `success == false`.
pub struct ControlResponse<V> {
    pub success: bool,
    pub result: Option<V>,
    pub error: Option<String>,
}

/// How a submission ended after its command was registered.
pub enum SubmitOutcome<V> {
    /// The consumer delivered this value before the execution deadline.
    Resolved(V),
    /// No consumer claimed the command within the pickup deadline.
    PickupTimeout,
    /// The command was claimed but no result arrived within the execution
    /// deadline.
    ExecutionTimeout,
    /// The consumer abandoned the waiter without ever resolving it.
    Disconnected,
}

/// Turns a submission's outcome into the reply its caller receives: the
/// delivered value on success, otherwise the exact error text for the
/// failure path taken.
pub fn submit_response<V>(outcome: SubmitOutcome<V>) -> (r: ControlResponse<V>)
    ensures
        match outcome {
            SubmitOutcome::Resolved(v) => r.success && r.result == Option::Some(v)
                && r.error is None,
            SubmitOutcome::PickupTimeout => !r.success && r.result is None && (
            r.error matches Option::Some(e) && e@ == "pickup timeout"@),
            SubmitOutcome::ExecutionTimeout => !r.success && r.result is None && (
            r.error matches Option::Some(e) && e@ == "execution timeout"@),
            SubmitOutcome::Disconnected => !r.success && r.result is None && (
            r.error matches Option::Some(e) && e@ == "disconnected before responding"@),
        },
{
    match outcome {
        SubmitOutcome::Resolved(v) => ControlResponse {
            success: true,
            result: Option::Some(v),
            error: Option::None,
        },
        SubmitOutcome::PickupTimeout => ControlResponse {
            success: false,
            result: Option::None,
            error: Option::Some("pickup timeout".to_owned()),
        },
        SubmitOutcome::ExecutionTimeout => ControlResponse {
            success: false,
            result: Option::None,
            error: Option::Some("execution timeout".to_owned()),
        },
        SubmitOutcome::Disconnected => ControlResponse {
            success: false,
            result: Option::None,
            error: Option::Some("disconnected before responding".to_owned()),
        },
    }
}

} // verus!
