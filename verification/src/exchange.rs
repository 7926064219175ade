//! The probe of the older catalog layouts: a WebSocket exchange under one hard
//! timeout, side by side with the NIP-11 document request.
//!
//! The exchange opens the WebSocket, sends a bounded `REQ` for a single event,
//! and waits for `EVENT`, `EOSE`, or `NOTICE`. Any of those proves the server
//! speaks the Nostr protocol. The document is not needed: the relay is still
//! considered alive without it.
//!
//! The order of the steps and the verdict are decided here, by
//! [`exchange_begin`], [`exchange_next`] and [`conclude`]. Whoever drives the
//! exchange performs each [`ExchangeAction`] and reports what came of it.

use vstd::prelude::*;
use vstd::string::*;

use crate::duration::Duration;
use crate::probe;
use crate::probe::{is_success_status, millis_saturating, parse_frame_kind, WsMessage};
use crate::probe_types::{Nip11, ProbeError};
use crate::relay_url;
use crate::relay_url::RelayUrl;
use crate::text;

verus! {

// ---- frames ---------------------------------------------------------------

/// The frames that answer a subscription.
pub open spec fn answers(kind: Option<Seq<char>>) -> bool {
    match kind {
        Some(k) => k == "EVENT"@ || k == "EOSE"@ || k == "NOTICE"@,
        None => false,
    }
}

/// `true` for the kinds of frames that answer a subscription.
pub fn is_answer(kind: &Option<String>) -> (yes: bool)
    ensures
        yes == answers(text::opt_text(*kind)),
{
    match kind {
        Some(k) => text::same_text(k.as_str(), "EVENT") || text::same_text(k.as_str(), "EOSE")
            || text::same_text(k.as_str(), "NOTICE"),
        None => false,
    }
}

/// `true` when the message is an `EVENT`, `EOSE` or `NOTICE` frame.
pub fn is_protocol_frame(message: &str) -> (yes: bool)
    ensures
        yes == answers(probe::frame_kind(message@)),
{
    let kind = parse_frame_kind(message);
    is_answer(&kind)
}

/// The HTTP address under which a relay publishes its NIP-11 document, or what
/// is wrong with its own.
pub fn ws_to_http(url: &RelayUrl) -> (http: Result<RelayUrl, String>)
    ensures
        match http {
            Ok(h) => probe::http_address(url@) == Ok::<relay_url::UrlView, Seq<char>>(h@),
            Err(cause) => probe::http_address(url@) == Err::<relay_url::UrlView, Seq<char>>(
                cause@,
            ),
        },
        http matches Ok(h) ==> probe::http_scheme(url@.scheme) == Some(h@.scheme),
{
    match probe::ws_to_http(url) {
        Ok(http) => Ok(http),
        Err(ProbeError::InvalidUrl(cause)) => Err(cause),
        Err(error) => Err(error.message()),
    }
}

// ---- the exchange ---------------------------------------------------------

/// The messages that open and end a subscription.
pub struct Subscription {
    pub req: &'static str,
    pub close: &'static str,
}

/// How far an exchange has come.
#[derive(Debug)]
pub enum ExchangeState {
    /// The connection is being opened.
    Connecting,
    /// The subscription is being sent.
    Asking,
    /// A frame is awaited.
    Listening,
    /// A ping is being answered.
    Answering,
    /// A frame was seen, and the subscription is being ended.
    Leaving,
    /// The connection is being closed.
    Closing,
    /// The verdict is in.
    Finished,
}

/// What whoever drives the exchange has to do next.
#[derive(Debug)]
pub enum ExchangeAction {
    Connect,
    SendText { body: &'static str },
    Receive,
    /// Answer a ping with what it carried.
    SendPong { payload: Vec<u8> },
    CloseSocket,
    /// The exchange is over: the relay answered, or why not.
    Finish { result: Result<(), String> },
}

/// What came of an action.
#[derive(Debug)]
pub enum ExchangeEvent {
    /// The action succeeded.
    Done,
    /// The action failed, in these words.
    Failed { message: String },
    /// A message arrived.
    Received { message: WsMessage },
    /// The stream ended.
    Ended,
}

/// A state together with what has to be done in it.
#[derive(Debug)]
pub struct ExchangeStep {
    pub state: ExchangeState,
    pub action: ExchangeAction,
}

/// `event` can come of the action that goes with `state`.
pub open spec fn fits(state: ExchangeState, event: ExchangeEvent) -> bool {
    match state {
        ExchangeState::Listening => event is Received || event is Ended || event is Failed,
        ExchangeState::Finished => false,
        _ => event is Done || event is Failed,
    }
}

/// The exchange waits for the next message.
pub open spec fn listens(step: ExchangeStep) -> bool {
    step.state is Listening && step.action is Receive
}

/// The exchange is over because the relay answered.
pub open spec fn answered(step: ExchangeStep) -> bool {
    step.state is Finished && step.action == (ExchangeAction::Finish { result: Ok(()) })
}

/// The exchange is over because of `message`.
pub open spec fn failed(step: ExchangeStep, message: Seq<char>) -> bool {
    &&& step.state is Finished
    &&& step.action matches ExchangeAction::Finish { result: Err(cause) }
    &&& cause@ == message
}

/// What follows from `event` in `state`.
pub open spec fn follows(
    subscription: Subscription,
    state: ExchangeState,
    event: ExchangeEvent,
    step: ExchangeStep,
) -> bool {
    match (state, event) {
        (ExchangeState::Leaving, _) => step.state is Closing && step.action is CloseSocket,
        (ExchangeState::Closing, _) => answered(step),
        (_, ExchangeEvent::Failed { message }) => failed(step, message@),
        (ExchangeState::Connecting, ExchangeEvent::Done) => {
            &&& step.state is Asking
            &&& step.action == (ExchangeAction::SendText { body: subscription.req })
        },
        (ExchangeState::Asking, ExchangeEvent::Done) => listens(step),
        (ExchangeState::Answering, ExchangeEvent::Done) => listens(step),
        (ExchangeState::Listening, ExchangeEvent::Ended) => failed(
            step,
            "closed without valid frame"@,
        ),
        (ExchangeState::Listening, ExchangeEvent::Received { message }) => match message {
            WsMessage::Text { body } => if answers(probe::frame_kind(body@)) {
                &&& step.state is Leaving
                &&& step.action == (ExchangeAction::SendText { body: subscription.close })
            } else {
                listens(step)
            },
            WsMessage::Ping { payload } => {
                &&& step.state is Answering
                &&& step.action matches ExchangeAction::SendPong { payload: answer }
                &&& answer@ == payload@
            },
            WsMessage::Close => failed(step, "closed without valid frame"@),
            WsMessage::Other => listens(step),
        },
        _ => false,
    }
}

/// What an exchange starts with.
pub fn exchange_begin() -> (step: ExchangeStep)
    ensures
        step.state is Connecting,
        step.action is Connect,
{
    ExchangeStep { state: ExchangeState::Connecting, action: ExchangeAction::Connect }
}

fn listen() -> (step: ExchangeStep)
    ensures
        listens(step),
{
    ExchangeStep { state: ExchangeState::Listening, action: ExchangeAction::Receive }
}

fn fail(message: String) -> (step: ExchangeStep)
    ensures
        failed(step, message@),
{
    ExchangeStep {
        state: ExchangeState::Finished,
        action: ExchangeAction::Finish { result: Err(message) },
    }
}

/// The step that follows when `event` comes of the action that goes with
/// `state`; nothing when the two do not go together.
pub fn exchange_next(
    subscription: &Subscription,
    state: ExchangeState,
    event: ExchangeEvent,
) -> (next: Option<ExchangeStep>)
    ensures
        match next {
            Some(step) => fits(state, event) && follows(*subscription, state, event, step),
            None => !fits(state, event),
        },
{
    match (state, event) {
        (ExchangeState::Leaving, ExchangeEvent::Done) | (
            ExchangeState::Leaving,
            ExchangeEvent::Failed { .. },
        ) => Some(
            ExchangeStep { state: ExchangeState::Closing, action: ExchangeAction::CloseSocket },
        ),
        (ExchangeState::Closing, ExchangeEvent::Done) | (
            ExchangeState::Closing,
            ExchangeEvent::Failed { .. },
        ) => Some(
            ExchangeStep {
                state: ExchangeState::Finished,
                action: ExchangeAction::Finish { result: Ok(()) },
            },
        ),
        (ExchangeState::Finished, _) => None,
        (_, ExchangeEvent::Failed { message }) => Some(fail(message)),
        (ExchangeState::Connecting, ExchangeEvent::Done) => Some(
            ExchangeStep {
                state: ExchangeState::Asking,
                action: ExchangeAction::SendText { body: subscription.req },
            },
        ),
        (ExchangeState::Asking, ExchangeEvent::Done) => Some(listen()),
        (ExchangeState::Answering, ExchangeEvent::Done) => Some(listen()),
        (ExchangeState::Listening, ExchangeEvent::Ended) => Some(
            fail("closed without valid frame".to_owned()),
        ),
        (ExchangeState::Listening, ExchangeEvent::Received { message }) => Some(
            match message {
                WsMessage::Text { body } => if is_protocol_frame(body.as_str()) {
                    ExchangeStep {
                        state: ExchangeState::Leaving,
                        action: ExchangeAction::SendText { body: subscription.close },
                    }
                } else {
                    listen()
                },
                WsMessage::Ping { payload } => ExchangeStep {
                    state: ExchangeState::Answering,
                    action: ExchangeAction::SendPong { payload },
                },
                WsMessage::Close => fail("closed without valid frame".to_owned()),
                WsMessage::Other => listen(),
            },
        ),
        _ => None,
    }
}

// ---- the verdict ----------------------------------------------------------

/// How an exchange under a hard timeout ended.
#[derive(Debug)]
pub enum ExchangeEnd {
    /// The relay answered this long after the start.
    Answered { elapsed: Duration },
    /// The exchange failed, in these words.
    Failed { message: String },
    /// The timeout struck first.
    TimedOut,
}

/// The handshake time in milliseconds, or why there is none.
pub open spec fn round_trip(end: ExchangeEnd) -> Result<int, Seq<char>> {
    match end {
        ExchangeEnd::Answered { elapsed } => Ok(probe::handshake_millis(elapsed)),
        ExchangeEnd::Failed { message } => Err(message@),
        ExchangeEnd::TimedOut => Err("probe timeout"@),
    }
}

/// The document of a successful answer. A body that is no document counts as
/// an empty one.
pub open spec fn document_of(status: Option<u16>, document: Option<Nip11>) -> Option<Nip11> {
    match status {
        Some(code) => if probe::success_status(code) {
            match document {
                Some(d) => Some(d),
                None => Some(
                    Nip11 { name: None, software: None, version: None, supported_nips: None },
                ),
            }
        } else {
            None
        },
        None => None,
    }
}

/// The verdict of a probe: the round trip and the document, or why the relay is
/// not reachable. `status` is the HTTP status of the document request, where
/// there was an answer.
pub fn conclude(end: ExchangeEnd, status: Option<u16>, document: Option<Nip11>) -> (verdict: Result<
    (u64, Option<Nip11>),
    String,
>)
    ensures
        match verdict {
            Ok((rtt_ms, nip11)) => round_trip(end) == Ok::<int, Seq<char>>(rtt_ms as int) && nip11
                == document_of(status, document),
            Err(cause) => round_trip(end) == Err::<int, Seq<char>>(cause@),
        },
{
    let elapsed = match end {
        ExchangeEnd::Answered { elapsed } => elapsed,
        ExchangeEnd::Failed { message } => return Err(message),
        ExchangeEnd::TimedOut => return Err("probe timeout".to_owned()),
    };
    let rtt_ms: u64 = millis_saturating(elapsed.as_millis());
    let nip11 = match status {
        Some(code) => if is_success_status(code) {
            match document {
                Some(d) => Some(d),
                None => Some(
                    Nip11 { name: None, software: None, version: None, supported_nips: None },
                ),
            }
        } else {
            None
        },
        None => None,
    };
    Ok((rtt_ms, nip11))
}

// ---- laws -----------------------------------------------------------------

/// The relay counts as answering only after one of its messages was an `EVENT`,
/// `EOSE` or `NOTICE` frame; from there on nothing can fail the exchange.
pub proof fn law_success_needs_an_answer(
    subscription: Subscription,
    state: ExchangeState,
    event: ExchangeEvent,
    step: ExchangeStep,
)
    requires
        fits(state, event),
        follows(subscription, state, event, step),
    ensures
        answered(step) ==> state is Closing,
        step.state is Closing ==> state is Leaving,
        step.state is Leaving ==> (event matches ExchangeEvent::Received {
            message: WsMessage::Text { body },
        } && answers(probe::frame_kind(body@))),
        state is Leaving || state is Closing ==> !(step.action matches ExchangeAction::Finish {
            result: Err(_),
        }),
{
}

/// The document never decides whether the relay is reachable.
pub proof fn law_document_is_not_needed(
    end: ExchangeEnd,
    status: Option<u16>,
    document: Option<Nip11>,
)
    ensures
        round_trip(end) is Ok <==> end is Answered,
        document_of(None, document) is None,
        document_of(status, document) is Some <==> (status matches Some(code)
            && probe::success_status(code)),
{
}

/// The frames that answer a subscription are these three.
pub proof fn law_answers(kind: Option<Seq<char>>)
    ensures
        kind is None ==> !answers(kind),
        kind matches Some(k) ==> (answers(kind) <==> k == "EVENT"@ || k == "EOSE"@ || k
            == "NOTICE"@),
{
}

/// An opened connection is followed by the subscription, which is followed by the
/// wait for an answer; so is an answered ping.
pub proof fn law_exchanges_ask_and_listen(
    subscription: Subscription,
    state: ExchangeState,
    event: ExchangeEvent,
    step: ExchangeStep,
)
    requires
        fits(state, event),
        follows(subscription, state, event, step),
        event is Done,
    ensures
        state is Connecting ==> step.state is Asking && step.action is SendText
            && step.action->body@ == subscription.req@,
        state is Asking || state is Answering ==> step.state is Listening && step.action is Receive,
        state is Leaving ==> step.state is Closing && step.action is CloseSocket,
        state is Closing ==> step.state is Finished && step.action == (ExchangeAction::Finish {
            result: Ok(()),
        }),
{
}

/// A failure before the answer is the verdict, in its own words; behind the answer
/// it changes nothing.
pub proof fn law_failures_before_the_answer_are_the_verdict(
    subscription: Subscription,
    state: ExchangeState,
    event: ExchangeEvent,
    step: ExchangeStep,
)
    requires
        fits(state, event),
        follows(subscription, state, event, step),
        event is Failed,
    ensures
        state is Connecting || state is Asking || state is Listening || state is Answering
            ==> step.state is Finished && (step.action matches ExchangeAction::Finish {
            result: Err(cause),
        } && cause@ == event->Failed_message@),
        state is Leaving ==> step.state is Closing && step.action is CloseSocket,
        state is Closing ==> step.state is Finished && step.action == (ExchangeAction::Finish {
            result: Ok(()),
        }),
{
}

/// What each message leads to: an answer to the goodbye, a ping to a pong with its
/// payload, a close message or the end of the stream to failure, and anything else to
/// waiting on.
pub proof fn law_exchanges_hear_messages(
    subscription: Subscription,
    state: ExchangeState,
    event: ExchangeEvent,
    step: ExchangeStep,
)
    requires
        fits(state, event),
        follows(subscription, state, event, step),
        state is Listening,
        !(event is Failed),
    ensures
        ({
            let ended = event is Ended || (event is Received && event->Received_message is Close);
            let message = event->Received_message;
            let kind = probe::frame_kind(message->Text_body@);
            let answer = event is Received && message is Text && kind is Some && (kind->0
                == "EVENT"@ || kind->0 == "EOSE"@ || kind->0 == "NOTICE"@);
            let ping = event is Received && message is Ping;
            &&& answer ==> step.state is Leaving && step.action is SendText && step.action->body@
                == subscription.close@
            &&& ping ==> step.state is Answering && step.action is SendPong
                && step.action->payload@ == message->payload@
            &&& ended ==> step.state is Finished && (step.action matches ExchangeAction::Finish {
                result: Err(cause),
            } && cause@ == "closed without valid frame"@)
            &&& !answer && !ping && !ended ==> step.state is Listening && step.action is Receive
        }),
{
}

/// Each action has its own outcomes, and nothing comes after the verdict.
pub proof fn law_events_fit_their_actions(state: ExchangeState, event: ExchangeEvent)
    ensures
        state is Finished ==> !fits(state, event),
        event is Failed ==> (fits(state, event) <==> !(state is Finished)),
        event is Received || event is Ended ==> (fits(state, event) <==> state is Listening),
        event is Done ==> (fits(state, event) <==> !(state is Finished) && !(state is Listening)),
{
}

/// The verdict on how an exchange ended: the time to the answer in milliseconds, the
/// words of the failure, or that the time was up.
pub proof fn law_verdicts(end: ExchangeEnd)
    ensures
        end matches ExchangeEnd::Answered { elapsed } ==> (round_trip(end) matches Ok(millis) && (
        elapsed.total_nanos() / 1_000_000 <= 18_446_744_073_709_551_615 ==> millis
            == elapsed.total_nanos() / 1_000_000) && (elapsed.total_nanos() / 1_000_000
            > 18_446_744_073_709_551_615 ==> millis == 18_446_744_073_709_551_615)),
        end matches ExchangeEnd::Failed { message } ==> round_trip(end) == Err::<int, Seq<char>>(
            message@,
        ),
        end is TimedOut ==> round_trip(end) == Err::<int, Seq<char>>("probe timeout"@),
{
}

/// The document of an answer with a status from 200 to 299 is reported as it came,
/// field by field; a body that is none is reported as an empty one, and other answers
/// have none.
pub proof fn law_documents_are_reported(status: Option<u16>, document: Option<Nip11>)
    ensures
        ({
            let reported = document_of(status, document);
            let answered = status is Some && 200 <= status->0 <= 299;
            &&& reported is Some <==> answered
            &&& answered && document is Some ==> {
                &&& reported->0.name == document->0.name
                &&& reported->0.software == document->0.software
                &&& reported->0.version == document->0.version
                &&& reported->0.supported_nips == document->0.supported_nips
            }
            &&& answered && document is None ==> reported->0.name is None
                && reported->0.software is None && reported->0.version is None
                && reported->0.supported_nips is None
        }),
{
}

} // verus!
