//! The conversion orchestrator, written as a step function: from the
//! current state of one request and the event the transport reports, it
//! returns the next state and the next action. The server owns the loop —
//! it performs each action (resolve a country, sleep, fetch the rate) and
//! hands the outcome back — while every decision, including the strict
//! ordering and the sanctions-delay policy, is made and verified here.

use crate::error::AppError;
use crate::models::ConvertCurrency;
use crate::models::ConvertResult;
use crate::text::str_eq;
use vstd::prelude::*;

verus! {

/// The fixed sanctions throttle, in seconds.
pub const SANCTIONS_DELAY_SECS: u64 = 30;

/// Whether a destination currency code is in the disallowed set that
/// triggers the sanctions delay.
pub open spec fn spec_sanctioned(code: Seq<char>) -> bool {
    code == "RUB"@
}

/// Decides `spec_sanctioned` for a resolved currency code.
pub fn is_sanctioned(code: &str) -> (r: bool)
    ensures
        r == spec_sanctioned(code@),
{
    str_eq(code, "RUB")
}

/// Where one conversion request stands.
#[derive(Debug, PartialEq)]
pub enum FlowState {
    /// The source country name is being resolved.
    ResolvingFrom,
    /// The destination country name is being resolved.
    ResolvingTo { from_code: String },
    /// The sanctions delay is running; the rate request comes after it.
    Waiting { from_code: String, to_code: String },
    /// The rate request is outstanding.
    Fetching { from_code: String, to_code: String },
    /// A response or an error has been produced.
    Complete,
}

/// What the server reports back after performing an action.
#[derive(Debug, PartialEq)]
pub enum FlowEvent {
    /// A resolver step finished with this outcome.
    Resolved { outcome: Result<String, AppError> },
    /// The delay has elapsed in full.
    Waited,
    /// The rate conversion finished with this outcome.
    RateFetched { outcome: Result<String, AppError> },
}

/// What the server must do next.
#[derive(Debug, PartialEq)]
pub enum FlowAction {
    /// Resolve this country name (as received, untrimmed).
    Resolve { name: String },
    /// Suspend the request for this many seconds.
    Wait { seconds: u64 },
    /// Request the conversion of `amount` between the two resolved codes.
    FetchRate { from_code: String, to_code: String, amount: String },
    /// Answer the request with this result.
    Respond { result: ConvertResult },
    /// Answer the request with this error, unchanged from the step that
    /// produced it.
    Fail { error: AppError },
}

/// The event that fits each state: resolver outcomes while resolving, the
/// elapsed delay while waiting, the rate outcome while fetching. A
/// complete request takes no further event.
pub open spec fn compatible(state: FlowState, event: FlowEvent) -> bool {
    match (state, event) {
        (FlowState::ResolvingFrom, FlowEvent::Resolved { .. }) => true,
        (FlowState::ResolvingTo { .. }, FlowEvent::Resolved { .. }) => true,
        (FlowState::Waiting { .. }, FlowEvent::Waited) => true,
        (FlowState::Fetching { .. }, FlowEvent::RateFetched { .. }) => true,
        _ => false,
    }
}

/// The orchestrator's transition function. Strictly ordered: source
/// resolution, destination resolution, the sanctions delay exactly when
/// the destination code is sanctioned, then the rate request; the first
/// failing step's error is returned unchanged, and a success echoes the
/// original names with the converted amount.
pub open spec fn spec_flow_step(state: FlowState, req: ConvertCurrency, event: FlowEvent) -> (
    FlowState,
    FlowAction,
) {
    match (state, event) {
        (FlowState::ResolvingFrom, FlowEvent::Resolved { outcome }) => match outcome {
            Ok(code) => (
                FlowState::ResolvingTo { from_code: code },
                FlowAction::Resolve { name: req.to },
            ),
            Err(e) => (FlowState::Complete, FlowAction::Fail { error: e }),
        },
        (FlowState::ResolvingTo { from_code }, FlowEvent::Resolved { outcome }) => match outcome {
            Ok(code) => if spec_sanctioned(code@) {
                (
                    FlowState::Waiting { from_code, to_code: code },
                    FlowAction::Wait { seconds: SANCTIONS_DELAY_SECS },
                )
            } else {
                (
                    FlowState::Fetching { from_code: from_code, to_code: code },
                    FlowAction::FetchRate { from_code, to_code: code, amount: req.amount },
                )
            },
            Err(e) => (FlowState::Complete, FlowAction::Fail { error: e }),
        },
        (FlowState::Waiting { from_code, to_code }, FlowEvent::Waited) => (
            FlowState::Fetching { from_code: from_code, to_code: to_code },
            FlowAction::FetchRate { from_code, to_code, amount: req.amount },
        ),
        (FlowState::Fetching { .. }, FlowEvent::RateFetched { outcome }) => match outcome {
            Ok(amount) => (
                FlowState::Complete,
                FlowAction::Respond {
                    result: ConvertResult { from: req.from, to: req.to, amount },
                },
            ),
            Err(e) => (FlowState::Complete, FlowAction::Fail { error: e }),
        },
        _ => vstd::pervasive::arbitrary(),
    }
}

/// A fresh request starts by resolving the source country.
pub fn flow_start(req: &ConvertCurrency) -> (r: (FlowState, FlowAction))
    ensures
        r.0 == FlowState::ResolvingFrom,
        r.1 == (FlowAction::Resolve { name: req.from }),
{
    (FlowState::ResolvingFrom, FlowAction::Resolve { name: req.from.clone() })
}

/// Performs one transition of the orchestrator.
pub fn flow_step(state: FlowState, req: &ConvertCurrency, event: FlowEvent) -> (r: (
    FlowState,
    FlowAction,
))
    requires
        compatible(state, event),
    ensures
        r == spec_flow_step(state, *req, event),
{
    match (state, event) {
        (FlowState::ResolvingFrom, FlowEvent::Resolved { outcome }) => match outcome {
            Ok(code) => (
                FlowState::ResolvingTo { from_code: code },
                FlowAction::Resolve { name: req.to.clone() },
            ),
            Err(e) => (FlowState::Complete, FlowAction::Fail { error: e }),
        },
        (FlowState::ResolvingTo { from_code }, FlowEvent::Resolved { outcome }) => match outcome {
            Ok(code) => if is_sanctioned(code.as_str()) {
                (
                    FlowState::Waiting { from_code, to_code: code },
                    FlowAction::Wait { seconds: SANCTIONS_DELAY_SECS },
                )
            } else {
                (
                    FlowState::Fetching { from_code: from_code.clone(), to_code: code.clone() },
                    FlowAction::FetchRate {
                        from_code,
                        to_code: code,
                        amount: req.amount.clone(),
                    },
                )
            },
            Err(e) => (FlowState::Complete, FlowAction::Fail { error: e }),
        },
        (FlowState::Waiting { from_code, to_code }, FlowEvent::Waited) => (
            FlowState::Fetching { from_code: from_code.clone(), to_code: to_code.clone() },
            FlowAction::FetchRate { from_code, to_code, amount: req.amount.clone() },
        ),
        (FlowState::Fetching { .. }, FlowEvent::RateFetched { outcome }) => match outcome {
            Ok(amount) => (
                FlowState::Complete,
                FlowAction::Respond {
                    result: ConvertResult {
                        from: req.from.clone(),
                        to: req.to.clone(),
                        amount,
                    },
                },
            ),
            Err(e) => (FlowState::Complete, FlowAction::Fail { error: e }),
        },
        _ => vstd::pervasive::unreached(),
    }
}

/// The sanctions delay triggers only on the destination: a step yields a
/// `Wait` action exactly when the destination resolution just returned a
/// sanctioned code, and then for the fixed interval.
pub proof fn lemma_delay_only_on_destination(
    state: FlowState,
    req: ConvertCurrency,
    event: FlowEvent,
)
    requires
        compatible(state, event),
    ensures
        spec_flow_step(state, req, event).1 matches FlowAction::Wait { seconds } ==> {
            &&& seconds == SANCTIONS_DELAY_SECS
            &&& state matches FlowState::ResolvingTo { .. }
            &&& event matches FlowEvent::Resolved { outcome: Ok(code) } && spec_sanctioned(code@)
        },
{
}

/// Resolving the source country never delays, whatever its code — even a
/// sanctioned one.
pub proof fn lemma_source_code_never_delays(req: ConvertCurrency, code: String)
    ensures
        spec_flow_step(
            FlowState::ResolvingFrom,
            req,
            FlowEvent::Resolved { outcome: Ok(code) },
        ) == (
            FlowState::ResolvingTo { from_code: code },
            FlowAction::Resolve { name: req.to },
        ),
{
}

/// A sanctioned destination code delays for the fixed interval, and the
/// rate request is issued only by the step after the delay has elapsed.
pub proof fn lemma_sanctioned_destination_delays(
    req: ConvertCurrency,
    from_code: String,
    to_code: String,
)
    requires
        spec_sanctioned(to_code@),
    ensures
        ({
            let (s1, a1) = spec_flow_step(
                FlowState::ResolvingTo { from_code: from_code },
                req,
                FlowEvent::Resolved { outcome: Ok(to_code) },
            );
            let (s2, a2) = spec_flow_step(s1, req, FlowEvent::Waited);
            &&& a1 == (FlowAction::Wait { seconds: SANCTIONS_DELAY_SECS })
            &&& s1 == (FlowState::Waiting { from_code: from_code, to_code: to_code })
            &&& a2 == (FlowAction::FetchRate {
                from_code: from_code,
                to_code: to_code,
                amount: req.amount,
            })
            &&& s2 == (FlowState::Fetching { from_code: from_code, to_code: to_code })
        }),
{
}

/// The happy path end to end: both names resolve, the destination is not
/// sanctioned, the rate request succeeds, and the response echoes the
/// original request names verbatim with the converted amount.
pub proof fn lemma_happy_path(
    req: ConvertCurrency,
    from_code: String,
    to_code: String,
    amount: String,
)
    requires
        !spec_sanctioned(to_code@),
    ensures
        ({
            let (s1, a1) = spec_flow_step(
                FlowState::ResolvingFrom,
                req,
                FlowEvent::Resolved { outcome: Ok(from_code) },
            );
            let (s2, a2) = spec_flow_step(s1, req, FlowEvent::Resolved { outcome: Ok(to_code) });
            let (s3, a3) = spec_flow_step(s2, req, FlowEvent::RateFetched { outcome: Ok(amount) });
            &&& a1 == (FlowAction::Resolve { name: req.to })
            &&& a2 == (FlowAction::FetchRate {
                from_code: from_code,
                to_code: to_code,
                amount: req.amount,
            })
            &&& s3 == FlowState::Complete
            &&& a3 == (FlowAction::Respond {
                result: ConvertResult { from: req.from, to: req.to, amount: amount },
            })
        }),
{
}

/// Upstream failure passthrough: whichever step fails first, its error is
/// returned unchanged and the request completes with no partial result.
pub proof fn lemma_failure_passthrough(state: FlowState, req: ConvertCurrency, e: AppError)
    ensures
        (state matches FlowState::ResolvingFrom || state matches FlowState::ResolvingTo { .. })
            ==> spec_flow_step(state, req, FlowEvent::Resolved { outcome: Err(e) }) == (
            FlowState::Complete,
            FlowAction::Fail { error: e },
        ),
        (state matches FlowState::Fetching { .. }) ==> spec_flow_step(
            state,
            req,
            FlowEvent::RateFetched { outcome: Err(e) },
        ) == (FlowState::Complete, FlowAction::Fail { error: e }),
{
}

} // verus!
