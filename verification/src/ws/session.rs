// The decisions of the relay connection. One connection attempt runs the
// NIP-42 handshake (wait for the relay's challenge, answer it, wait for the
// relay's OK) and then handles relay messages until the socket fails; the
// connection loop around it reconnects with a doubling, capped delay.
// The caller performs the socket work and hands each outcome back.

use vstd::prelude::*;

use crate::converters::{json_to_message, message_from_json, message_json_ok};
use crate::error::SproutError;
use crate::event::{event_to_json, event_written};
use crate::json::JsonValue;
use crate::relay_protocol::{OkResponse, ProtocolError, RelayMessage};
use crate::types::{ConnectionState, Message};

verus! {

/// Delay before the first reconnect, in seconds.
pub const INITIAL_BACKOFF_SECS: u64 = 1;

/// Longest delay between reconnects, in seconds.
pub const MAX_BACKOFF_SECS: u64 = 30;

/// How long each step of the handshake may take, in seconds.
pub const AUTH_TIMEOUT_SECS: u64 = 10;

/// Where a connection attempt stands.
#[derive(Debug, Clone, Copy, PartialEq, Eq, Structural)]
pub enum Phase {
    /// Connected; waiting for the relay's AUTH challenge.
    AwaitingChallenge,
    /// The signed AUTH event is sent; waiting for the relay's OK.
    AwaitingAuthOk,
    /// Authenticated; relay messages are handled as they come.
    Live,
}

/// What the socket delivered.
#[derive(Debug)]
pub enum Incoming {
    /// A text frame, read as a relay message.
    Text(Result<RelayMessage, ProtocolError>),
    /// A ping frame with its payload.
    Ping(Vec<u8>),
    /// A close frame.
    Close,
    /// Any other frame (binary, pong).
    Other,
    /// The socket failed; the text says how.
    Failed(String),
    /// The socket was closed (the stream ended).
    Ended,
    /// The handshake step in progress took longer than [`AUTH_TIMEOUT_SECS`].
    TimedOut,
}

/// What the caller does next.
#[derive(Debug)]
pub enum Action {
    /// Nothing.
    Ignore,
    /// Answer a ping with a pong carrying the same payload.
    Pong(Vec<u8>),
    /// Sign an AUTH event for this challenge and send it.
    Authenticate(String),
    /// The handshake succeeded: announce [`ConnectionState::Connected`] and
    /// replay the active subscriptions.
    Connected,
    /// Hand this message to the event listener.
    Deliver(Message),
    /// Settle the pending publication of this event, if one waits.
    Settle { event_id: String, result: Result<OkResponse, SproutError> },
    /// The relay ended this subscription: forget it.
    Forget(String),
    /// The connection attempt ends with this error.
    Fail(SproutError),
}

/// `a` ends the attempt with a WebSocket error saying `msg`.
pub open spec fn fails_with(a: Action, msg: Seq<char>) -> bool {
    a matches Action::Fail(SproutError::WebSocketError { message }) && message@ == msg
}

/// `a` is what a live connection does with event `e`: the message that
/// [`json_to_message`] reads from the event's NIP-01 object is delivered,
/// and an event that is no message is ignored.
pub open spec fn delivers_event(a: Action, e: crate::event::NostrEvent) -> bool {
    exists|v: JsonValue| #[trigger]
        event_written(v, e) && if message_json_ok(v) {
            a matches Action::Deliver(m) && message_from_json(m, v)
        } else {
            a is Ignore
        }
}

/// `(next, a)` is the step a connection in `phase` takes on `input`.
///
/// During the handshake, a ping is answered, other relay messages are
/// skipped, and a socket failure, a closed socket or a timeout ends the
/// attempt. An OK that refuses the AUTH event ends it with an auth failure.
/// Once live, events are delivered, OKs settle publications (a refusal as a
/// relay error with status 400), CLOSED drops the subscription, a close
/// frame, a failure or the end of the stream ends the attempt, and the rest
/// is ignored.
pub open spec fn session_step(phase: Phase, input: Incoming, next: Phase, a: Action) -> bool {
    match phase {
        Phase::AwaitingChallenge => match input {
            Incoming::Text(Ok(RelayMessage::Auth { challenge })) => {
                &&& next == Phase::AwaitingAuthOk
                &&& a matches Action::Authenticate(c) && c@ == challenge@
            },
            Incoming::Ping(d) => next == phase && a == Action::Pong(d),
            Incoming::Failed(e) => next == phase && fails_with(a, e@),
            Incoming::Ended => next == phase && fails_with(a, "connection closed before auth"@),
            Incoming::TimedOut => next == phase && fails_with(a, "timeout waiting for AUTH challenge"@),
            _ => next == phase && a is Ignore,
        },
        Phase::AwaitingAuthOk => match input {
            Incoming::Text(Ok(RelayMessage::OkReply(ok))) => if ok.accepted {
                next == Phase::Live && a is Connected
            } else {
                &&& next == phase
                &&& a matches Action::Fail(SproutError::AuthFailed { message }) && message@ == ok.message@
            },
            Incoming::Ping(d) => next == phase && a == Action::Pong(d),
            Incoming::Failed(e) => next == phase && fails_with(a, e@),
            Incoming::Ended => next == phase && fails_with(a, "connection closed during auth"@),
            Incoming::TimedOut => next == phase && fails_with(a, "timeout waiting for auth OK"@),
            _ => next == phase && a is Ignore,
        },
        Phase::Live => next == phase && match input {
            Incoming::Text(Ok(RelayMessage::Event { subscription_id, event })) => delivers_event(a, event),
            Incoming::Text(Ok(RelayMessage::OkReply(ok))) => a matches Action::Settle { event_id, result }
                && event_id@ == ok.event_id@ && if ok.accepted {
                result == Ok::<OkResponse, SproutError>(ok)
            } else {
                result matches Err(SproutError::RelayError { status, message }) && status == 400
                    && message@ == ok.message@
            },
            Incoming::Text(Ok(RelayMessage::Closed { subscription_id, message })) => a matches Action::Forget(
                s,
            ) && s@ == subscription_id@,
            Incoming::Ping(d) => a == Action::Pong(d),
            Incoming::Close => fails_with(a, "relay closed connection"@),
            Incoming::Failed(e) => fails_with(a, e@),
            Incoming::Ended => fails_with(a, "connection stream ended"@),
            _ => a is Ignore,
        },
    }
}

/// An action that hands relay data to the application.
pub open spec fn hands_out(a: Action) -> bool {
    a is Deliver || a is Settle || a is Forget
}

/// Nothing reaches the application before the relay has accepted the
/// client's AUTH event: a connection becomes live only on an accepted OK
/// while it waits for one, and only a live connection delivers messages,
/// settles publications or drops subscriptions.
pub proof fn law_auth_before_delivery(phase: Phase, input: Incoming, next: Phase, a: Action)
    requires
        session_step(phase, input, next, a),
    ensures
        next == Phase::Live && phase != Phase::Live ==> {
            &&& phase == Phase::AwaitingAuthOk
            &&& input matches Incoming::Text(Ok(RelayMessage::OkReply(ok))) && ok.accepted
            &&& a is Connected
        },
        hands_out(a) ==> phase == Phase::Live,
        phase == Phase::Live ==> next == Phase::Live,
{
}

/// On a live connection an OK reply settles the publication of the event it
/// names: the publication succeeds exactly when the relay accepted the
/// event, an accepted publication yields the relay's reply unchanged, and a
/// refused one yields a relay error with status 400 and the relay's reason.
pub proof fn law_ok_settles_publication(ok: OkResponse, next: Phase, a: Action)
    requires
        session_step(Phase::Live, Incoming::Text(Ok(RelayMessage::OkReply(ok))), next, a),
    ensures
        next == Phase::Live,
        a is Settle,
        a matches Action::Settle { event_id, result } ==> {
            &&& event_id@ == ok.event_id@
            &&& (result is Ok <==> ok.accepted)
            &&& ok.accepted ==> result == Ok::<OkResponse, SproutError>(ok)
            &&& !ok.accepted ==> (result matches Err(SproutError::RelayError { status, message })
                && status == 400 && message@ == ok.message@)
        },
{
}

/// The handshake answers the relay's challenge with an AUTH event for that
/// very challenge, becomes live exactly on an OK that accepts it, and ends
/// with an auth failure carrying the relay's reason on an OK that refuses it.
pub proof fn law_handshake(challenge: String, ok: OkResponse, n1: Phase, a1: Action, n2: Phase, a2: Action)
    requires
        session_step(Phase::AwaitingChallenge, Incoming::Text(Ok(RelayMessage::Auth { challenge })), n1, a1),
        session_step(Phase::AwaitingAuthOk, Incoming::Text(Ok(RelayMessage::OkReply(ok))), n2, a2),
    ensures
        n1 == Phase::AwaitingAuthOk,
        a1 matches Action::Authenticate(c) && c@ == challenge@,
        n2 == Phase::Live <==> ok.accepted,
        ok.accepted ==> a2 is Connected,
        !ok.accepted ==> (a2 matches Action::Fail(SproutError::AuthFailed { message }) && message@ == ok.message@),
{
}

/// A live connection answers a ping with the same payload, forgets exactly
/// the subscription that the relay closed, and a close frame, a socket
/// failure or the end of the stream ends it with a WebSocket error.
pub proof fn law_live_control(
    data: Vec<u8>,
    sub: String,
    reason: String,
    err: String,
    n1: Phase,
    a1: Action,
    n2: Phase,
    a2: Action,
    n3: Phase,
    a3: Action,
    n4: Phase,
    a4: Action,
)
    requires
        session_step(Phase::Live, Incoming::Ping(data), n1, a1),
        session_step(
            Phase::Live,
            Incoming::Text(Ok(RelayMessage::Closed { subscription_id: sub, message: reason })),
            n2,
            a2,
        ),
        session_step(Phase::Live, Incoming::Close, n3, a3),
        session_step(Phase::Live, Incoming::Failed(err), n4, a4),
    ensures
        a1 matches Action::Pong(d) && d@ == data@,
        a2 matches Action::Forget(s) && s@ == sub@,
        a3 matches Action::Fail(SproutError::WebSocketError { .. }),
        a4 matches Action::Fail(SproutError::WebSocketError { message }) && message@ == err@,
        n1 == Phase::Live && n2 == Phase::Live && n3 == Phase::Live && n4 == Phase::Live,
{
}

/// A WebSocket error ending the attempt.
fn fail(message: &str) -> (a: Action)
    ensures
        fails_with(a, message@),
{
    Action::Fail(SproutError::WebSocketError { message: message.to_string() })
}

/// The message that a live connection delivers for an event.
fn deliver(event: &crate::event::NostrEvent) -> (a: Action)
    ensures
        delivers_event(a, *event),
{
    let v = event_to_json(event);
    let a = match json_to_message(&v) {
        Some(m) => Action::Deliver(m),
        None => Action::Ignore,
    };
    assert(event_written(v, *event));
    a
}

/// The step a connection in `phase` takes on `input`.
pub fn step(phase: Phase, input: Incoming) -> (r: (Phase, Action))
    ensures
        session_step(phase, input, r.0, r.1),
{
    match phase {
        Phase::AwaitingChallenge => match input {
            Incoming::Text(Ok(RelayMessage::Auth { challenge })) => (
                Phase::AwaitingAuthOk,
                Action::Authenticate(challenge),
            ),
            Incoming::Ping(d) => (phase, Action::Pong(d)),
            Incoming::Failed(e) => (phase, Action::Fail(SproutError::WebSocketError { message: e })),
            Incoming::Ended => (phase, fail("connection closed before auth")),
            Incoming::TimedOut => (phase, fail("timeout waiting for AUTH challenge")),
            _ => (phase, Action::Ignore),
        },
        Phase::AwaitingAuthOk => match input {
            Incoming::Text(Ok(RelayMessage::OkReply(ok))) => if ok.accepted {
                (Phase::Live, Action::Connected)
            } else {
                (phase, Action::Fail(SproutError::AuthFailed { message: ok.message }))
            },
            Incoming::Ping(d) => (phase, Action::Pong(d)),
            Incoming::Failed(e) => (phase, Action::Fail(SproutError::WebSocketError { message: e })),
            Incoming::Ended => (phase, fail("connection closed during auth")),
            Incoming::TimedOut => (phase, fail("timeout waiting for auth OK")),
            _ => (phase, Action::Ignore),
        },
        Phase::Live => match input {
            Incoming::Text(Ok(RelayMessage::Event { subscription_id: _, event })) => (phase, deliver(&event)),
            Incoming::Text(Ok(RelayMessage::OkReply(ok))) => {
                let event_id = ok.event_id.clone();
                if ok.accepted {
                    (phase, Action::Settle { event_id, result: Ok(ok) })
                } else {
                    (
                        phase,
                        Action::Settle {
                            event_id,
                            result: Err(SproutError::RelayError { status: 400, message: ok.message }),
                        },
                    )
                }
            },
            Incoming::Text(Ok(RelayMessage::Closed { subscription_id, message: _ })) => (
                phase,
                Action::Forget(subscription_id),
            ),
            Incoming::Ping(d) => (phase, Action::Pong(d)),
            Incoming::Close => (phase, fail("relay closed connection")),
            Incoming::Failed(e) => (phase, Action::Fail(SproutError::WebSocketError { message: e })),
            Incoming::Ended => (phase, fail("connection stream ended")),
            _ => (phase, Action::Ignore),
        },
    }
}

/// The reconnect schedule: the delay before the next reconnect and how many
/// reconnects have been made.
#[derive(Debug, Clone, Copy, PartialEq, Eq, Structural)]
pub struct Backoff {
    /// Seconds to wait before the next reconnect.
    pub delay_secs: u64,
    /// Reconnects made so far.
    pub attempt: u32,
}

/// The schedule of a fresh connection loop.
pub fn initial_backoff() -> (b: Backoff)
    ensures
        b == (Backoff { delay_secs: INITIAL_BACKOFF_SECS, attempt: 0 }),
{
    Backoff { delay_secs: INITIAL_BACKOFF_SECS, attempt: 0 }
}

/// The state announced when an attempt starts: connecting on the first,
/// reconnecting (with the count) on every later one.
pub open spec fn attempt_state_spec(b: Backoff) -> ConnectionState {
    if b.attempt == 0 {
        ConnectionState::Connecting
    } else {
        ConnectionState::Reconnecting { attempt: b.attempt }
    }
}

/// The state announced when an attempt starts.
pub fn attempt_state(b: &Backoff) -> (s: ConnectionState)
    ensures
        s == attempt_state_spec(*b),
{
    if b.attempt == 0 {
        ConnectionState::Connecting
    } else {
        ConnectionState::Reconnecting { attempt: b.attempt }
    }
}

/// Twice the delay, but no more than [`MAX_BACKOFF_SECS`].
pub open spec fn doubled_delay(d: u64) -> u64 {
    if 2 * d < MAX_BACKOFF_SECS {
        (2 * d) as u64
    } else {
        MAX_BACKOFF_SECS
    }
}

/// The schedule after a failed attempt.
pub open spec fn backoff_after_failure(b: Backoff) -> Backoff {
    Backoff { delay_secs: doubled_delay(b.delay_secs), attempt: (b.attempt + 1) as u32 }
}

/// After a failed attempt: the state to announce (reconnecting, with the
/// next count), how long to wait (the current delay), and the schedule
/// for the next attempt (the delay doubled up to the cap, the count one
/// more).
pub fn after_failure(b: &Backoff) -> (r: (ConnectionState, u64, Backoff))
    requires
        b.attempt < u32::MAX,
    ensures
        r.0 == (ConnectionState::Reconnecting { attempt: (b.attempt + 1) as u32 }),
        r.1 == b.delay_secs,
        r.2 == backoff_after_failure(*b),
{
    let delay = if b.delay_secs < MAX_BACKOFF_SECS / 2 {
        2 * b.delay_secs
    } else {
        MAX_BACKOFF_SECS
    };
    let attempt = b.attempt + 1;
    (ConnectionState::Reconnecting { attempt }, b.delay_secs, Backoff { delay_secs: delay, attempt })
}

/// `2^n`.
pub open spec fn power_of_two(n: nat) -> nat
    decreases n,
{
    if n == 0 {
        1
    } else {
        2 * power_of_two((n - 1) as nat)
    }
}

/// The schedule after `n` failed attempts of a fresh loop.
pub open spec fn backoff_after(n: nat) -> Backoff
    decreases n,
{
    if n == 0 {
        Backoff { delay_secs: INITIAL_BACKOFF_SECS, attempt: 0 }
    } else {
        backoff_after_failure(backoff_after((n - 1) as nat))
    }
}

/// After `n` failed attempts the loop has counted `n` reconnects and waits
/// `2^n` seconds, but never more than [`MAX_BACKOFF_SECS`].
pub proof fn law_backoff_schedule(n: nat)
    requires
        n <= u32::MAX,
    ensures
        backoff_after(n).attempt == n,
        backoff_after(n).delay_secs == if power_of_two(n) < MAX_BACKOFF_SECS {
            power_of_two(n)
        } else {
            MAX_BACKOFF_SECS as nat
        },
    decreases n,
{
    if n > 0 {
        law_backoff_schedule((n - 1) as nat);
    }
}

/// The reconnect delays of a fresh loop are 1, 2, 4, 8 and 16 seconds and
/// then 30 seconds for good; the first attempt is announced as connecting
/// and the `n`-th reconnect as reconnecting with count `n`.
pub proof fn law_backoff_bounds(n: nat)
    requires
        n <= u32::MAX,
    ensures
        backoff_after(0).delay_secs == 1,
        1 <= backoff_after(n).delay_secs <= 30,
        n >= 5 ==> backoff_after(n).delay_secs == 30,
        n < 5 ==> backoff_after(n).delay_secs == power_of_two(n),
        n == 0 ==> attempt_state_spec(backoff_after(n)) == ConnectionState::Connecting,
        n > 0 ==> attempt_state_spec(backoff_after(n)) == (ConnectionState::Reconnecting { attempt: n as u32 }),
    decreases n,
{
    law_backoff_schedule(n);
    if n > 0 {
        law_backoff_bounds((n - 1) as nat);
    }
    reveal_with_fuel(power_of_two, 6);
    if n >= 5 {
        lemma_power_of_two_grows(n);
    }
}

/// `2^n` is at least 32 from `n = 5` on.
proof fn lemma_power_of_two_grows(n: nat)
    requires
        n >= 5,
    ensures
        power_of_two(n) >= 32,
    decreases n,
{
    if n == 5 {
        reveal_with_fuel(power_of_two, 6);
    } else {
        lemma_power_of_two_grows((n - 1) as nat);
    }
}

} // verus!
