//! WiFi and IP configuration: the network stack's seed and static address,
//! and the decisions of the loops that bring the link up and watch it.

use vstd::prelude::*;

verus! {

// ---------------------------------------------------------------------------
// Stack configuration
// ---------------------------------------------------------------------------

/// The 64-bit seed made of two 32-bit random words, `hi` in the upper half.
pub open spec fn seed_spec(hi: u32, lo: u32) -> int {
    hi as int * 0x1_0000_0000 + lo as int
}

/// Combines two 32-bit random words into the network stack's 64-bit seed.
pub fn network_seed(hi: u32, lo: u32) -> (seed: u64)
    ensures
        seed as int == seed_spec(hi, lo),
        seed as int / 0x1_0000_0000 == hi,
        seed as int % 0x1_0000_0000 == lo,
{
    let seed: u64 = ((hi as u64) << 32u32) | (lo as u64);
    assert(seed as int == hi as int * 0x1_0000_0000 + lo as int) by (bit_vector)
        requires seed == ((hi as u64) << 32u32) | (lo as u64);
    seed
}

/// No randomness is lost: distinct pairs of words give distinct seeds.
pub proof fn lemma_seed_injective(hi1: u32, lo1: u32, hi2: u32, lo2: u32)
    requires
        seed_spec(hi1, lo1) == seed_spec(hi2, lo2),
    ensures
        hi1 == hi2,
        lo1 == lo2,
{
}

/// The outcome of `core::net::Ipv4Addr::from_str` on a string: the four
/// octets of the dotted-decimal address it denotes, or `None` where the
/// string is not one.
pub uninterp spec fn ipv4_from_str(s: Seq<char>) -> Option<Seq<u8>>;

/// `core::net::Ipv4Addr::from_str`, followed by `Ipv4Addr::octets`: the
/// result is `ipv4_from_str` of the text.
#[verifier::external_body]
fn parse_ipv4(s: &str) -> (r: Option<[u8; 4]>)
    ensures
        ipv4_from_str(s@) == match r {
            Some(o) => Some(o@),
            None => None,
        },
{
    match <core::net::Ipv4Addr as core::str::FromStr>::from_str(s) {
        Ok(addr) => Some(addr.octets()),
        Err(_) => None,
    }
}

/// `heapless::Vec`, the fixed-capacity vector the network stack's static
/// configuration keeps its DNS servers in.
#[verifier::external_type_specification]
#[verifier::external_body]
#[verifier::reject_recursive_types(T)]
pub struct ExHeaplessVec<T, const N: usize>(heapless::Vec<T, N>);

/// The addresses held by a list of DNS servers, in order.
pub uninterp spec fn dns_servers_of(v: heapless::Vec<[u8; 4], 3>) -> Seq<[u8; 4]>;

/// `heapless::Vec::new`: an empty list.
#[verifier::external_body]
fn dns_list_new() -> (v: heapless::Vec<[u8; 4], 3>)
    ensures
        dns_servers_of(v) == Seq::<[u8; 4]>::empty(),
{
    heapless::Vec::new()
}

/// `heapless::Vec::push`: appends the address if fewer than the capacity
/// (3) are held, and hands it back otherwise, leaving the list unchanged.
#[verifier::external_body]
fn dns_list_push(v: &mut heapless::Vec<[u8; 4], 3>, address: [u8; 4]) -> (r: Result<(), [u8; 4]>)
    ensures
        r is Ok <==> dns_servers_of(*old(v)).len() < 3,
        r is Ok ==> dns_servers_of(*final(v)) == dns_servers_of(*old(v)).push(address),
        r matches Err(back) ==> back == address,
        r is Err ==> dns_servers_of(*final(v)) == dns_servers_of(*old(v)),
{
    v.push(address)
}

/// Prefix length of the station's static address.
pub const STATIC_PREFIX_LEN: u8 = 8;

/// The static IPv4 configuration of the station.
pub struct StaticIpv4Config {
    /// The station's address.
    pub address: [u8; 4],
    /// Prefix length of the station's subnet.
    pub prefix_len: u8,
    /// Default gateway.
    pub gateway: [u8; 4],
    /// DNS servers, in order of preference.
    pub dns_servers: heapless::Vec<[u8; 4], 3>,
}

impl StaticIpv4Config {
    /// The configuration for this address, gateway and DNS server: a /8
    /// subnet and the one DNS server.
    pub fn new(address: [u8; 4], gateway: [u8; 4], dns_server: [u8; 4]) -> (c: StaticIpv4Config)
        ensures
            c.address == address,
            c.prefix_len == STATIC_PREFIX_LEN,
            c.gateway == gateway,
            dns_servers_of(c.dns_servers) == seq![dns_server],
    {
        let mut dns_servers = dns_list_new();
        match dns_list_push(&mut dns_servers, dns_server) {
            Ok(()) => {},
            Err(_) => {
                assert(false);
            },
        }
        StaticIpv4Config { address, prefix_len: STATIC_PREFIX_LEN, gateway, dns_servers }
    }

    /// The configuration from the three addresses in dotted-decimal text;
    /// `None` where one of them is not an IPv4 address.
    pub fn from_strs(address: &str, gateway: &str, dns_server: &str) -> (c: Option<StaticIpv4Config>)
        ensures
            c is Some <==> (ipv4_from_str(address@) is Some && ipv4_from_str(gateway@) is Some
                && ipv4_from_str(dns_server@) is Some),
            c matches Some(c) ==> {
                &&& ipv4_from_str(address@) == Some(c.address@)
                &&& ipv4_from_str(gateway@) == Some(c.gateway@)
                &&& c.prefix_len == STATIC_PREFIX_LEN
                &&& dns_servers_of(c.dns_servers).len() == 1
                &&& ipv4_from_str(dns_server@) == Some(dns_servers_of(c.dns_servers)[0]@)
            },
    {
        let a = match parse_ipv4(address) { Some(a) => a, None => return None };
        let g = match parse_ipv4(gateway) { Some(g) => g, None => return None };
        let d = match parse_ipv4(dns_server) { Some(d) => d, None => return None };
        Some(StaticIpv4Config::new(a, g, d))
    }
}

// ---------------------------------------------------------------------------
// Bringing the WiFi link up
// ---------------------------------------------------------------------------

/// Seconds to wait before starting the radio again after a failed start.
pub const WIFI_START_RETRY_SECS: u64 = 3;
/// Seconds to wait before connecting again after a failure or a lost link.
pub const WIFI_RECONNECT_SECS: u64 = 5;
/// Seconds between two polls of the link state while it is up.
pub const LINK_POLL_SECS: u64 = 30;

/// Where the WiFi connection loop stands.
#[derive(Debug, Clone, Copy, PartialEq, Eq, Structural)]
pub enum WifiPhase {
    /// The radio is not started yet.
    Starting,
    /// The radio runs; the station is not associated.
    Connecting,
    /// Associated; the link is being watched.
    Online,
}

/// The outcome of the operation the loop performed last.
#[derive(Debug, Clone, Copy, PartialEq, Eq, Structural)]
pub enum WifiEvent {
    StartSucceeded,
    StartFailed,
    ConnectSucceeded,
    ConnectFailed,
    /// The supervision of an established link ended: the link is down.
    LinkLost,
}

/// The operation the loop performs next.
#[derive(Debug, Clone, Copy, PartialEq, Eq, Structural)]
pub enum WifiOp {
    StartRadio,
    Connect,
    Supervise,
}

/// Wait `delay_secs` seconds, then perform `op`.
#[derive(Debug, Clone, Copy, PartialEq, Eq, Structural)]
pub struct WifiAction {
    pub delay_secs: u64,
    pub op: WifiOp,
}

/// The operation that belongs to a phase.
pub open spec fn wifi_phase_op(phase: WifiPhase) -> WifiOp {
    match phase {
        WifiPhase::Starting => WifiOp::StartRadio,
        WifiPhase::Connecting => WifiOp::Connect,
        WifiPhase::Online => WifiOp::Supervise,
    }
}

/// The transition table of the WiFi connection loop. The radio is started
/// until that succeeds (3 s apart), then the station connects (5 s after a
/// failure) and watches the link; a lost link goes back to connecting after
/// 5 s. An event that does not belong to the phase changes nothing, and the
/// phase's operation is performed again at once.
pub open spec fn wifi_transition(phase: WifiPhase, event: WifiEvent) -> (WifiPhase, WifiAction) {
    match (phase, event) {
        (WifiPhase::Starting, WifiEvent::StartSucceeded) =>
            (WifiPhase::Connecting, WifiAction { delay_secs: 0, op: WifiOp::Connect }),
        (WifiPhase::Starting, WifiEvent::StartFailed) =>
            (WifiPhase::Starting, WifiAction { delay_secs: WIFI_START_RETRY_SECS, op: WifiOp::StartRadio }),
        (WifiPhase::Connecting, WifiEvent::ConnectSucceeded) =>
            (WifiPhase::Online, WifiAction { delay_secs: 0, op: WifiOp::Supervise }),
        (WifiPhase::Connecting, WifiEvent::ConnectFailed) =>
            (WifiPhase::Connecting, WifiAction { delay_secs: WIFI_RECONNECT_SECS, op: WifiOp::Connect }),
        (WifiPhase::Online, WifiEvent::LinkLost) =>
            (WifiPhase::Connecting, WifiAction { delay_secs: WIFI_RECONNECT_SECS, op: WifiOp::Connect }),
        _ => (phase, WifiAction { delay_secs: 0, op: wifi_phase_op(phase) }),
    }
}

/// The state of the WiFi connection loop.
pub struct WifiLink {
    pub phase: WifiPhase,
}

impl WifiLink {
    /// A loop that has not started the radio yet; its first action is to
    /// start it at once.
    pub fn new() -> (r: (WifiLink, WifiAction))
        ensures
            r.0.phase == WifiPhase::Starting,
            r.1 == (WifiAction { delay_secs: 0, op: WifiOp::StartRadio }),
    {
        (WifiLink { phase: WifiPhase::Starting }, WifiAction { delay_secs: 0, op: WifiOp::StartRadio })
    }

    /// Records the outcome of the last operation and returns the next one.
    pub fn step(&mut self, event: WifiEvent) -> (action: WifiAction)
        ensures
            (final(self).phase, action) == wifi_transition(old(self).phase, event),
    {
        let (phase, action) = match (self.phase, event) {
            (WifiPhase::Starting, WifiEvent::StartSucceeded) =>
                (WifiPhase::Connecting, WifiAction { delay_secs: 0, op: WifiOp::Connect }),
            (WifiPhase::Starting, WifiEvent::StartFailed) =>
                (WifiPhase::Starting, WifiAction { delay_secs: WIFI_START_RETRY_SECS, op: WifiOp::StartRadio }),
            (WifiPhase::Connecting, WifiEvent::ConnectSucceeded) =>
                (WifiPhase::Online, WifiAction { delay_secs: 0, op: WifiOp::Supervise }),
            (WifiPhase::Connecting, WifiEvent::ConnectFailed) =>
                (WifiPhase::Connecting, WifiAction { delay_secs: WIFI_RECONNECT_SECS, op: WifiOp::Connect }),
            (WifiPhase::Online, WifiEvent::LinkLost) =>
                (WifiPhase::Connecting, WifiAction { delay_secs: WIFI_RECONNECT_SECS, op: WifiOp::Connect }),
            (phase, _) => {
                let op = match phase {
                    WifiPhase::Starting => WifiOp::StartRadio,
                    WifiPhase::Connecting => WifiOp::Connect,
                    WifiPhase::Online => WifiOp::Supervise,
                };
                (phase, WifiAction { delay_secs: 0, op })
            },
        };
        self.phase = phase;
        action
    }
}

/// The radio is started once: no event leads back to `Starting` from a
/// later phase.
pub proof fn lemma_radio_started_once(phase: WifiPhase, event: WifiEvent)
    requires
        phase != WifiPhase::Starting,
    ensures
        wifi_transition(phase, event).0 != WifiPhase::Starting,
{
}

/// The next operation is always the one of the phase the loop is in, and
/// the loop waits only after a failure or a lost link.
pub proof fn lemma_wifi_action_matches_phase(phase: WifiPhase, event: WifiEvent)
    ensures
        ({
            let (next, action) = wifi_transition(phase, event);
            &&& (next == WifiPhase::Starting <==> action.op == WifiOp::StartRadio)
            &&& (next == WifiPhase::Connecting <==> action.op == WifiOp::Connect)
            &&& (next == WifiPhase::Online <==> action.op == WifiOp::Supervise)
            &&& action.delay_secs > 0 ==> (event == WifiEvent::StartFailed
                || event == WifiEvent::ConnectFailed || event == WifiEvent::LinkLost)
        }),
{
}

/// Each phase is entered only through the success that leads to it: the
/// radio must have started before a connection is attempted, and a
/// connection must have succeeded before the link is watched.
pub proof fn lemma_wifi_entered_by_success(phase: WifiPhase, event: WifiEvent)
    ensures
        wifi_transition(phase, event).0 == WifiPhase::Connecting ==> phase == WifiPhase::Connecting
            || (phase == WifiPhase::Starting && event == WifiEvent::StartSucceeded)
            || (phase == WifiPhase::Online && event == WifiEvent::LinkLost),
        wifi_transition(phase, event).0 == WifiPhase::Online ==> phase == WifiPhase::Online
            || (phase == WifiPhase::Connecting && event == WifiEvent::ConnectSucceeded),
{
}

/// A failure of the phase's own operation is retried after a pause: a
/// failed start restarts the radio after 3 s, a failed connection or a lost
/// link connects again after 5 s.
pub proof fn lemma_wifi_failures_retry(phase: WifiPhase, event: WifiEvent)
    ensures
        phase == WifiPhase::Starting && event == WifiEvent::StartFailed ==> wifi_transition(phase, event)
            == (WifiPhase::Starting, WifiAction { delay_secs: 3, op: WifiOp::StartRadio }),
        (phase == WifiPhase::Connecting && event == WifiEvent::ConnectFailed) || (phase == WifiPhase::Online
            && event == WifiEvent::LinkLost) ==> wifi_transition(phase, event)
            == (WifiPhase::Connecting, WifiAction { delay_secs: 5, op: WifiOp::Connect }),
{
}

/// The phase the WiFi loop is in after the events `events`, starting before
/// the radio is started.
pub open spec fn wifi_phase_after(events: Seq<WifiEvent>) -> WifiPhase
    decreases events.len(),
{
    if events.len() == 0 {
        WifiPhase::Starting
    } else {
        wifi_transition(wifi_phase_after(events.drop_last()), events.last()).0
    }
}

/// Only a successful connection leads into `Online` from another phase.
proof fn lemma_enter_online(phase: WifiPhase, event: WifiEvent)
    requires
        wifi_transition(phase, event).0 == WifiPhase::Online,
    ensures
        phase == WifiPhase::Online || (phase == WifiPhase::Connecting && event == WifiEvent::ConnectSucceeded),
{
}

/// The link is watched only after a successful connection: whenever the
/// loop is online, some earlier event was a successful connect, and the loop
/// has been online ever since.
#[verifier::spinoff_prover]
#[verifier::rlimit(40)]
pub proof fn lemma_online_follows_connect(events: Seq<WifiEvent>)
    requires
        wifi_phase_after(events) == WifiPhase::Online,
    ensures
        exists|i: int|
            0 <= i < events.len() && events[i] == WifiEvent::ConnectSucceeded
                && #[trigger] wifi_phase_after(events.take(i)) == WifiPhase::Connecting
                && forall|j: int| i < j <= events.len()
                    ==> #[trigger] wifi_phase_after(events.take(j)) == WifiPhase::Online,
    decreases events.len(),
{
    let n = events.len() as int;
    let prefix = events.drop_last();
    let before = wifi_phase_after(prefix);
    lemma_enter_online(before, events.last());
    assert(events.take(n) =~= events);
    assert(events.take(n - 1) =~= prefix);
    if before == WifiPhase::Connecting && events.last() == WifiEvent::ConnectSucceeded {
        assert forall|j: int| n - 1 < j <= n implies #[trigger] wifi_phase_after(events.take(j))
            == WifiPhase::Online by {
            assert(j == n);
        }
    } else {
        assert(before == WifiPhase::Online);
        lemma_online_follows_connect(prefix);
        let i = choose|i: int|
            0 <= i < prefix.len() && prefix[i] == WifiEvent::ConnectSucceeded
                && #[trigger] wifi_phase_after(prefix.take(i)) == WifiPhase::Connecting
                && forall|j: int| i < j <= prefix.len()
                    ==> #[trigger] wifi_phase_after(prefix.take(j)) == WifiPhase::Online;
        assert(prefix.take(i) =~= events.take(i));
        assert forall|j: int| i < j <= n implies #[trigger] wifi_phase_after(events.take(j))
            == WifiPhase::Online by {
            if j < n {
                assert(prefix.take(j) =~= events.take(j));
            }
        }
        assert(events[i] == WifiEvent::ConnectSucceeded);
        assert(wifi_phase_after(events.take(i)) == WifiPhase::Connecting);
    }
}

// ---------------------------------------------------------------------------
// Watching an established link
// ---------------------------------------------------------------------------

/// What one round of supervision observed: either the disconnect event
/// arrived, or the wait timed out and the link state was polled.
#[derive(Debug, Clone, Copy, PartialEq, Eq, Structural)]
pub enum LinkCheck {
    /// The driver reported that the station was disconnected.
    DisconnectEvent,
    /// No event within the poll interval; the poll says connected.
    PollConnected,
    /// No event within the poll interval; the poll says not connected.
    PollDisconnected,
    /// No event within the poll interval; the poll itself failed.
    PollError,
}

/// What supervision does after a round.
#[derive(Debug, Clone, Copy, PartialEq, Eq, Structural)]
pub enum Supervision {
    /// The link is up: wait for the next round.
    KeepWatching,
    /// The link is down; with `disconnect_first`, tell the driver to
    /// disconnect before the loop reconnects.
    LinkDown { disconnect_first: bool },
}

/// Decides, after one round of supervision, whether the link is still up.
/// A link that died silently (or whose state cannot be read) is
/// disconnected explicitly before the loop reconnects.
pub fn supervise(check: LinkCheck) -> (s: Supervision)
    ensures
        check == LinkCheck::PollConnected ==> s == Supervision::KeepWatching,
        check == LinkCheck::DisconnectEvent ==> s == (Supervision::LinkDown { disconnect_first: false }),
        check == LinkCheck::PollDisconnected ==> s == (Supervision::LinkDown { disconnect_first: true }),
        check == LinkCheck::PollError ==> s == (Supervision::LinkDown { disconnect_first: true }),
{
    match check {
        LinkCheck::DisconnectEvent => Supervision::LinkDown { disconnect_first: false },
        LinkCheck::PollConnected => Supervision::KeepWatching,
        LinkCheck::PollDisconnected => Supervision::LinkDown { disconnect_first: true },
        LinkCheck::PollError => Supervision::LinkDown { disconnect_first: true },
    }
}

} // verus!
