//! The decisions of the MQTT connection: what each event of a running session leads to, and
//! why a session ended.

use vstd::prelude::*;

verus! {

/// How long to wait before connecting again after a session ended, in milliseconds.
pub const RECONNECT_DELAY_MILLIS: u64 = 5000;

/// How long a running session waits for an event before it pings the broker, in milliseconds.
pub const PING_INTERVAL_MILLIS: u64 = 30000;

/// The keep-alive interval announced to the broker, and the socket timeout, in seconds.
pub const KEEP_ALIVE_SECS: u16 = 60;

/// The identifier given to the subscription when the broker supports identifiers.
pub const SUBSCRIPTION_IDENTIFIER: u16 = 42;

/// The topic that the device subscribes to.
pub fn subscribed_topic() -> (r: &'static str)
    ensures
        r@ == "owlimatronic/event"@,
{
    "owlimatronic/event"
}

/// The step of a session at which something failed.
#[derive(Debug, Clone, Copy, PartialEq, Eq, Structural)]
pub enum SessionStage {
    /// Opening the TCP connection.
    TcpConnect,
    /// The MQTT connect handshake.
    MqttConnect,
    /// Subscribing to the topic.
    Subscribe,
    /// Polling the running session.
    Poll,
}

/// The step that follows `stage` when it succeeds: the TCP connection, then the MQTT
/// handshake, then the subscription, then polling for as long as the session runs.
pub open spec fn next_stage(stage: SessionStage) -> SessionStage {
    match stage {
        SessionStage::TcpConnect => SessionStage::MqttConnect,
        SessionStage::MqttConnect => SessionStage::Subscribe,
        SessionStage::Subscribe => SessionStage::Poll,
        SessionStage::Poll => SessionStage::Poll,
    }
}

/// Where a session is after the outcomes `outcomes` of its steps from the TCP connection on:
/// `Ok` with the step it is at, or `Err` with the step that failed and ended it.
pub open spec fn stage_after(outcomes: Seq<bool>) -> Result<SessionStage, SessionStage>
    decreases outcomes.len(),
{
    if outcomes.len() == 0 {
        Ok(SessionStage::TcpConnect)
    } else {
        match stage_after(outcomes.drop_last()) {
            Ok(stage) => if outcomes.last() {
                Ok(next_stage(stage))
            } else {
                Err(stage)
            },
            Err(stage) => Err(stage),
        }
    }
}

/// The step a session starts with.
pub fn first_stage() -> (r: SessionStage)
    ensures
        r == SessionStage::TcpConnect,
{
    SessionStage::TcpConnect
}

/// Moves a session on from `stage`: to the next step when it succeeded, else the session
/// ends with `stage` as its failure.
pub fn advance(stage: SessionStage, succeeded: bool) -> (r: Result<SessionStage, SessionStage>)
    ensures
        r == (if succeeded { Ok(next_stage(stage)) } else { Err(stage) }),
{
    if !succeeded {
        return Err(stage);
    }
    match stage {
        SessionStage::TcpConnect => Ok(SessionStage::MqttConnect),
        SessionStage::MqttConnect => Ok(SessionStage::Subscribe),
        SessionStage::Subscribe => Ok(SessionStage::Poll),
        SessionStage::Poll => Ok(SessionStage::Poll),
    }
}

/// Whether the connection counts as up at `stage`: only once the subscription succeeded
/// and the session polls.
pub fn connection_active(stage: SessionStage) -> (r: bool)
    ensures
        r == (stage == SessionStage::Poll),
{
    match stage {
        SessionStage::Poll => true,
        _ => false,
    }
}

/// The step a session is at after `n` successful steps.
pub open spec fn stage_at(n: nat) -> SessionStage {
    if n == 0 {
        SessionStage::TcpConnect
    } else if n == 1 {
        SessionStage::MqttConnect
    } else if n == 2 {
        SessionStage::Subscribe
    } else {
        SessionStage::Poll
    }
}

/// A session is still going exactly when every step so far succeeded, and it is then at the
/// step that so many successes lead to; a session whose first step failed ended at the TCP
/// connection.
pub proof fn lemma_stage_after(outcomes: Seq<bool>)
    ensures
        (forall|i: int| 0 <= i < outcomes.len() ==> outcomes[i]) ==> stage_after(outcomes)
            == Ok::<SessionStage, SessionStage>(stage_at(outcomes.len())),
        stage_after(outcomes) is Ok ==> forall|i: int| 0 <= i < outcomes.len() ==> outcomes[i],
        outcomes.len() >= 1 && !outcomes[0] ==> stage_after(outcomes) == Err::<SessionStage, SessionStage>(
            SessionStage::TcpConnect,
        ),
    decreases outcomes.len(),
{
    if outcomes.len() > 0 {
        let prev = outcomes.drop_last();
        lemma_stage_after(prev);
        if prev.len() >= 1 {
            assert(prev[0] == outcomes[0]);
        }
        if forall|i: int| 0 <= i < outcomes.len() ==> outcomes[i] {
            assert forall|i: int| 0 <= i < prev.len() implies prev[i] by {
                assert(prev[i] == outcomes[i]);
            }
        }
        if stage_after(outcomes) is Ok {
            assert forall|i: int| 0 <= i < outcomes.len() implies outcomes[i] by {
                if i < prev.len() {
                    assert(prev[i] == outcomes[i]);
                }
            }
        }
    }
}

/// A session polls, and so counts as connected, only after its first three steps (the TCP
/// connection, the MQTT handshake and the subscription) all succeeded; with three successes
/// it does.
pub proof fn lemma_polling_needs_three_successes(outcomes: Seq<bool>)
    ensures
        stage_after(outcomes) == Ok::<SessionStage, SessionStage>(SessionStage::Poll) ==> outcomes.len()
            >= 3 && outcomes[0] && outcomes[1] && outcomes[2],
        stage_after(seq![true, true, true]) == Ok::<SessionStage, SessionStage>(SessionStage::Poll),
{
    lemma_stage_after(outcomes);
    lemma_stage_after(seq![true, true, true]);
}

/// The message with which a session that failed at `stage` ends.
pub open spec fn stage_message(stage: SessionStage) -> Seq<char> {
    match stage {
        SessionStage::TcpConnect => "tcp connect failed"@,
        SessionStage::MqttConnect => "mqtt connect failed"@,
        SessionStage::Subscribe => "subscribe failed"@,
        SessionStage::Poll => "poll failed"@,
    }
}

/// The message with which a session that failed at `stage` ends.
pub fn failure_message(stage: SessionStage) -> (r: &'static str)
    ensures
        r@ == stage_message(stage),
{
    match stage {
        SessionStage::TcpConnect => "tcp connect failed",
        SessionStage::MqttConnect => "mqtt connect failed",
        SessionStage::Subscribe => "subscribe failed",
        SessionStage::Poll => "poll failed",
    }
}

/// The subscription identifier to ask for: `SUBSCRIPTION_IDENTIFIER` when the broker supports
/// identifiers, none otherwise.
pub fn subscription_identifier(supported: bool) -> (r: Option<u16>)
    ensures
        r == (if supported { Some(SUBSCRIPTION_IDENTIFIER) } else { None }),
{
    if supported {
        Some(SUBSCRIPTION_IDENTIFIER)
    } else {
        None
    }
}

/// What happened while a session was running.
#[derive(Debug, Clone, Copy, PartialEq, Eq, Structural)]
pub enum LinkEvent {
    /// A message is waiting to be published.
    Message,
    /// The broker answered a ping.
    PingResponse,
    /// The broker sent some other packet.
    OtherPacket,
    /// Polling the broker failed.
    PollError,
    /// No event came for `PING_INTERVAL_MILLIS`.
    Idle,
}

/// What a running session does about an event.
#[derive(Debug, Clone, Copy, PartialEq, Eq, Structural)]
pub enum LinkAction {
    /// Show that an action was sent, and publish the message (a failed publish is only
    /// reported).
    Publish,
    /// Nothing.
    Continue,
    /// End the session with the poll failure.
    Fail(SessionStage),
    /// Ping the broker.
    Ping,
}

/// The action for an event of a running session.
pub fn on_link_event(event: LinkEvent) -> (r: LinkAction)
    ensures
        r == match event {
            LinkEvent::Message => LinkAction::Publish,
            LinkEvent::PingResponse => LinkAction::Continue,
            LinkEvent::OtherPacket => LinkAction::Continue,
            LinkEvent::PollError => LinkAction::Fail(SessionStage::Poll),
            LinkEvent::Idle => LinkAction::Ping,
        },
{
    match event {
        LinkEvent::Message => LinkAction::Publish,
        LinkEvent::PingResponse => LinkAction::Continue,
        LinkEvent::OtherPacket => LinkAction::Continue,
        LinkEvent::PollError => LinkAction::Fail(SessionStage::Poll),
        LinkEvent::Idle => LinkAction::Ping,
    }
}

} // verus!
