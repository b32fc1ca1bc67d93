//! Publishing readings over MQTT: where each kind of reading goes, and the
//! decisions of the loop that keeps a broker session alive.

use vstd::prelude::*;

verus! {

/// Client identifier the station presents to the broker.
pub const MQTT_CLIENT_ID: &'static str = "wetterstation";
/// TCP port of the broker.
pub const MQTT_BROKER_PORT: u16 = 1883;
/// Keep-alive interval announced to the broker, in seconds.
pub const MQTT_KEEP_ALIVE_SECS: u16 = 30;

/// The kinds of reading the station publishes.
#[derive(Debug, Clone, Copy, PartialEq, Eq, Structural)]
pub enum ReadingKind {
    Light,
    Climate,
    Gas,
    WindSpeed,
}

/// The topic each kind of reading is published to.
pub open spec fn topic_spec(kind: ReadingKind) -> Seq<char> {
    match kind {
        ReadingKind::Light => "balkon/licht"@,
        ReadingKind::Climate => "balkon/klima"@,
        ReadingKind::Gas => "balkon/gas"@,
        ReadingKind::WindSpeed => "balkon/wind"@,
    }
}

impl ReadingKind {
    /// The MQTT topic for readings of this kind.
    pub fn topic(&self) -> (t: &'static str)
        ensures
            t@ == topic_spec(*self),
    {
        match self {
            ReadingKind::Light => "balkon/licht",
            ReadingKind::Climate => "balkon/klima",
            ReadingKind::Gas => "balkon/gas",
            ReadingKind::WindSpeed => "balkon/wind",
        }
    }
}

/// Each kind of reading has a topic of its own.
pub proof fn lemma_topics_distinct(a: ReadingKind, b: ReadingKind)
    requires
        a != b,
    ensures
        topic_spec(a) != topic_spec(b),
{
    reveal_strlit("balkon/licht");
    reveal_strlit("balkon/klima");
    reveal_strlit("balkon/gas");
    reveal_strlit("balkon/wind");
    assert(topic_spec(a)[7] != topic_spec(b)[7] || topic_spec(a)[8] != topic_spec(b)[8]);
}

// ---------------------------------------------------------------------------
// The broker session
// ---------------------------------------------------------------------------

/// Seconds to wait before a new TCP connection after a failed one.
pub const TCP_RETRY_SECS: u64 = 3;
/// Seconds to wait before a new TCP connection after a failed MQTT
/// handshake or a failed publication.
pub const SESSION_RETRY_SECS: u64 = 5;

/// Where the MQTT loop stands.
#[derive(Debug, Clone, Copy, PartialEq, Eq, Structural)]
pub enum MqttPhase {
    /// No TCP connection to the broker.
    OpeningTcp,
    /// TCP is up; the MQTT handshake is under way.
    Handshaking,
    /// The session is established; readings are published.
    Publishing,
}

/// The outcome of the operation the loop performed last.
#[derive(Debug, Clone, Copy, PartialEq, Eq, Structural)]
pub enum MqttEvent {
    TcpConnected,
    TcpFailed,
    HandshakeSucceeded,
    HandshakeFailed,
    Published,
    PublishFailed,
}

/// The operation the loop performs next.
#[derive(Debug, Clone, Copy, PartialEq, Eq, Structural)]
pub enum MqttOp {
    /// Open a fresh TCP connection to the broker.
    OpenTcp,
    /// Perform the MQTT handshake on the open connection.
    Handshake,
    /// Take the next reading from the sensor channel and publish it.
    PublishNext,
}

/// Wait `delay_secs` seconds, then perform `op`.
#[derive(Debug, Clone, Copy, PartialEq, Eq, Structural)]
pub struct MqttAction {
    pub delay_secs: u64,
    pub op: MqttOp,
}

/// The operation that belongs to a phase.
pub open spec fn mqtt_phase_op(phase: MqttPhase) -> MqttOp {
    match phase {
        MqttPhase::OpeningTcp => MqttOp::OpenTcp,
        MqttPhase::Handshaking => MqttOp::Handshake,
        MqttPhase::Publishing => MqttOp::PublishNext,
    }
}

/// The transition table of the MQTT loop. A failed TCP connection is
/// retried after 3 s; a failed handshake or a failed publication drops the
/// session and opens a new TCP connection after 5 s. An event that does not
/// belong to the phase changes nothing, and the phase's operation is
/// performed again at once.
pub open spec fn mqtt_transition(phase: MqttPhase, event: MqttEvent) -> (MqttPhase, MqttAction) {
    match (phase, event) {
        (MqttPhase::OpeningTcp, MqttEvent::TcpConnected) =>
            (MqttPhase::Handshaking, MqttAction { delay_secs: 0, op: MqttOp::Handshake }),
        (MqttPhase::OpeningTcp, MqttEvent::TcpFailed) =>
            (MqttPhase::OpeningTcp, MqttAction { delay_secs: TCP_RETRY_SECS, op: MqttOp::OpenTcp }),
        (MqttPhase::Handshaking, MqttEvent::HandshakeSucceeded) =>
            (MqttPhase::Publishing, MqttAction { delay_secs: 0, op: MqttOp::PublishNext }),
        (MqttPhase::Handshaking, MqttEvent::HandshakeFailed) =>
            (MqttPhase::OpeningTcp, MqttAction { delay_secs: SESSION_RETRY_SECS, op: MqttOp::OpenTcp }),
        (MqttPhase::Publishing, MqttEvent::Published) =>
            (MqttPhase::Publishing, MqttAction { delay_secs: 0, op: MqttOp::PublishNext }),
        (MqttPhase::Publishing, MqttEvent::PublishFailed) =>
            (MqttPhase::OpeningTcp, MqttAction { delay_secs: SESSION_RETRY_SECS, op: MqttOp::OpenTcp }),
        _ => (phase, MqttAction { delay_secs: 0, op: mqtt_phase_op(phase) }),
    }
}

/// The state of the MQTT loop.
pub struct MqttSession {
    pub phase: MqttPhase,
}

impl MqttSession {
    /// A loop without a connection; its first action is to open one at once.
    pub fn new() -> (r: (MqttSession, MqttAction))
        ensures
            r.0.phase == MqttPhase::OpeningTcp,
            r.1 == (MqttAction { delay_secs: 0, op: MqttOp::OpenTcp }),
    {
        (MqttSession { phase: MqttPhase::OpeningTcp }, MqttAction { delay_secs: 0, op: MqttOp::OpenTcp })
    }

    /// Records the outcome of the last operation and returns the next one.
    pub fn step(&mut self, event: MqttEvent) -> (action: MqttAction)
        ensures
            (final(self).phase, action) == mqtt_transition(old(self).phase, event),
    {
        let (phase, action) = match (self.phase, event) {
            (MqttPhase::OpeningTcp, MqttEvent::TcpConnected) =>
                (MqttPhase::Handshaking, MqttAction { delay_secs: 0, op: MqttOp::Handshake }),
            (MqttPhase::OpeningTcp, MqttEvent::TcpFailed) =>
                (MqttPhase::OpeningTcp, MqttAction { delay_secs: TCP_RETRY_SECS, op: MqttOp::OpenTcp }),
            (MqttPhase::Handshaking, MqttEvent::HandshakeSucceeded) =>
                (MqttPhase::Publishing, MqttAction { delay_secs: 0, op: MqttOp::PublishNext }),
            (MqttPhase::Handshaking, MqttEvent::HandshakeFailed) =>
                (MqttPhase::OpeningTcp, MqttAction { delay_secs: SESSION_RETRY_SECS, op: MqttOp::OpenTcp }),
            (MqttPhase::Publishing, MqttEvent::Published) =>
                (MqttPhase::Publishing, MqttAction { delay_secs: 0, op: MqttOp::PublishNext }),
            (MqttPhase::Publishing, MqttEvent::PublishFailed) =>
                (MqttPhase::OpeningTcp, MqttAction { delay_secs: SESSION_RETRY_SECS, op: MqttOp::OpenTcp }),
            (phase, _) => {
                let op = match phase {
                    MqttPhase::OpeningTcp => MqttOp::OpenTcp,
                    MqttPhase::Handshaking => MqttOp::Handshake,
                    MqttPhase::Publishing => MqttOp::PublishNext,
                };
                (phase, MqttAction { delay_secs: 0, op })
            },
        };
        self.phase = phase;
        action
    }
}

/// The next operation is always the one of the phase the loop is in, and
/// the loop waits only after a failure.
pub proof fn lemma_mqtt_action_matches_phase(phase: MqttPhase, event: MqttEvent)
    ensures
        ({
            let (next, action) = mqtt_transition(phase, event);
            &&& (next == MqttPhase::OpeningTcp <==> action.op == MqttOp::OpenTcp)
            &&& (next == MqttPhase::Handshaking <==> action.op == MqttOp::Handshake)
            &&& (next == MqttPhase::Publishing <==> action.op == MqttOp::PublishNext)
            &&& action.delay_secs > 0 ==> (event == MqttEvent::TcpFailed
                || event == MqttEvent::HandshakeFailed || event == MqttEvent::PublishFailed)
        }),
{
}

/// Only a successful TCP connection leads into the handshake, and only a
/// successful handshake leads into publishing.
pub proof fn lemma_mqtt_entered_by_success(phase: MqttPhase, event: MqttEvent)
    ensures
        mqtt_transition(phase, event).0 == MqttPhase::Handshaking ==> phase == MqttPhase::Handshaking
            || (phase == MqttPhase::OpeningTcp && event == MqttEvent::TcpConnected),
        mqtt_transition(phase, event).0 == MqttPhase::Publishing ==> phase == MqttPhase::Publishing
            || (phase == MqttPhase::Handshaking && event == MqttEvent::HandshakeSucceeded),
{
}

/// A failure of the phase's own operation leaves the loop without a
/// connection and opens a new one after a pause: 3 s after a failed TCP
/// connection, 5 s after a failed handshake or publication.
pub proof fn lemma_mqtt_failures_reconnect(phase: MqttPhase, event: MqttEvent)
    ensures
        phase == MqttPhase::OpeningTcp && event == MqttEvent::TcpFailed ==> mqtt_transition(phase, event)
            == (MqttPhase::OpeningTcp, MqttAction { delay_secs: 3, op: MqttOp::OpenTcp }),
        (phase == MqttPhase::Handshaking && event == MqttEvent::HandshakeFailed) || (phase
            == MqttPhase::Publishing && event == MqttEvent::PublishFailed) ==> mqtt_transition(phase, event)
            == (MqttPhase::OpeningTcp, MqttAction { delay_secs: 5, op: MqttOp::OpenTcp }),
{
}

/// The phase the loop is in after the events `events`, starting without a
/// connection.
pub open spec fn mqtt_phase_after(events: Seq<MqttEvent>) -> MqttPhase
    decreases events.len(),
{
    if events.len() == 0 {
        MqttPhase::OpeningTcp
    } else {
        mqtt_transition(mqtt_phase_after(events.drop_last()), events.last()).0
    }
}

/// Readings are published only on an established session: whenever the
/// loop is publishing, some earlier event was a successful handshake, and
/// the loop has been publishing ever since.
#[verifier::spinoff_prover]
#[verifier::rlimit(40)]
pub proof fn lemma_publishing_follows_handshake(events: Seq<MqttEvent>)
    requires
        mqtt_phase_after(events) == MqttPhase::Publishing,
    ensures
        exists|i: int|
            0 <= i < events.len() && events[i] == MqttEvent::HandshakeSucceeded
                && #[trigger] mqtt_phase_after(events.take(i)) == MqttPhase::Handshaking
                && forall|j: int| i < j <= events.len()
                    ==> #[trigger] mqtt_phase_after(events.take(j)) == MqttPhase::Publishing,
    decreases events.len(),
{
    let n = events.len() as int;
    let prefix = events.drop_last();
    let before = mqtt_phase_after(prefix);
    assert(events.take(n) =~= events);
    assert(events.take(n - 1) =~= prefix);
    if before == MqttPhase::Handshaking && events.last() == MqttEvent::HandshakeSucceeded {
        assert forall|j: int| n - 1 < j <= n implies #[trigger] mqtt_phase_after(events.take(j))
            == MqttPhase::Publishing by {
            assert(j == n);
        }
    } else {
        assert(before == MqttPhase::Publishing);
        lemma_publishing_follows_handshake(prefix);
        let i = choose|i: int|
            0 <= i < prefix.len() && prefix[i] == MqttEvent::HandshakeSucceeded
                && #[trigger] mqtt_phase_after(prefix.take(i)) == MqttPhase::Handshaking
                && forall|j: int| i < j <= prefix.len()
                    ==> #[trigger] mqtt_phase_after(prefix.take(j)) == MqttPhase::Publishing;
        assert(prefix.take(i) =~= events.take(i));
        assert forall|j: int| i < j <= n implies #[trigger] mqtt_phase_after(events.take(j))
            == MqttPhase::Publishing by {
            if j < n {
                assert(prefix.take(j) =~= events.take(j));
            }
        }
        assert(events[i] == MqttEvent::HandshakeSucceeded);
        assert(mqtt_phase_after(events.take(i)) == MqttPhase::Handshaking);
    }
}

} // verus!
