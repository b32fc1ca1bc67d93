use wetterstation::network::{
    network_seed, supervise, LinkCheck, StaticIpv4Config, Supervision, WifiAction, WifiEvent,
    WifiLink, WifiOp, WifiPhase, STATIC_PREFIX_LEN,
};

#[test]
fn seed_puts_first_word_in_upper_half() {
    assert_eq!(network_seed(0x1234_5678, 0x9ABC_DEF0), 0x1234_5678_9ABC_DEF0);
    assert_eq!(network_seed(0, 0), 0);
    assert_eq!(network_seed(u32::MAX, u32::MAX), u64::MAX);
}

#[test]
fn seed_keeps_both_words_apart() {
    assert_ne!(network_seed(1, 0), network_seed(0, 1));
    assert_ne!(network_seed(0xFFFF, 0), network_seed(0, 0xFFFF));
}

#[test]
fn static_config_from_addresses() {
    let c = StaticIpv4Config::from_strs("10.0.0.42", "10.0.0.1", "192.168.178.1").unwrap();
    assert_eq!(c.address, [10, 0, 0, 42]);
    assert_eq!(c.gateway, [10, 0, 0, 1]);
    assert_eq!(c.prefix_len, STATIC_PREFIX_LEN);
    assert_eq!(c.prefix_len, 8);
    assert_eq!(c.dns_servers.as_slice(), &[[192, 168, 178, 1]]);
}

#[test]
fn static_config_rejects_malformed_address() {
    assert!(StaticIpv4Config::from_strs("10.0.0.256", "10.0.0.1", "8.8.8.8").is_none());
    assert!(StaticIpv4Config::from_strs("10.0.0.42", "gateway", "8.8.8.8").is_none());
    assert!(StaticIpv4Config::from_strs("10.0.0.42", "10.0.0.1", "").is_none());
}

#[test]
fn static_config_new() {
    let c = StaticIpv4Config::new([1, 2, 3, 4], [1, 2, 3, 1], [9, 9, 9, 9]);
    assert_eq!(c.address, [1, 2, 3, 4]);
    assert_eq!(c.gateway, [1, 2, 3, 1]);
    assert_eq!(c.prefix_len, 8);
    assert_eq!(c.dns_servers.as_slice(), &[[9, 9, 9, 9]]);
}

#[test]
fn supervision_decisions() {
    assert_eq!(supervise(LinkCheck::PollConnected), Supervision::KeepWatching);
    assert_eq!(supervise(LinkCheck::DisconnectEvent), Supervision::LinkDown { disconnect_first: false });
    assert_eq!(supervise(LinkCheck::PollDisconnected), Supervision::LinkDown { disconnect_first: true });
    assert_eq!(supervise(LinkCheck::PollError), Supervision::LinkDown { disconnect_first: true });
}

#[test]
fn wifi_loop_starts_connects_and_reconnects() {
    let (mut link, first) = WifiLink::new();
    assert_eq!(first, WifiAction { delay_secs: 0, op: WifiOp::StartRadio });
    assert_eq!(link.step(WifiEvent::StartFailed), WifiAction { delay_secs: 3, op: WifiOp::StartRadio });
    assert_eq!(link.phase, WifiPhase::Starting);
    assert_eq!(link.step(WifiEvent::StartSucceeded), WifiAction { delay_secs: 0, op: WifiOp::Connect });
    assert_eq!(link.step(WifiEvent::ConnectFailed), WifiAction { delay_secs: 5, op: WifiOp::Connect });
    assert_eq!(link.step(WifiEvent::ConnectSucceeded), WifiAction { delay_secs: 0, op: WifiOp::Supervise });
    assert_eq!(link.phase, WifiPhase::Online);
    assert_eq!(link.step(WifiEvent::LinkLost), WifiAction { delay_secs: 5, op: WifiOp::Connect });
    assert_eq!(link.phase, WifiPhase::Connecting);
}

#[test]
fn wifi_loop_never_restarts_the_radio() {
    let (mut link, _) = WifiLink::new();
    link.step(WifiEvent::StartSucceeded);
    for event in [WifiEvent::StartFailed, WifiEvent::StartSucceeded, WifiEvent::ConnectFailed,
                  WifiEvent::ConnectSucceeded, WifiEvent::LinkLost, WifiEvent::StartFailed] {
        link.step(event);
        assert_ne!(link.phase, WifiPhase::Starting);
    }
}

#[test]
fn wifi_loop_ignores_unexpected_events() {
    let (mut link, _) = WifiLink::new();
    assert_eq!(link.step(WifiEvent::LinkLost), WifiAction { delay_secs: 0, op: WifiOp::StartRadio });
    assert_eq!(link.phase, WifiPhase::Starting);
}

#[test]
fn wifi_online_only_after_successful_connect() {
    let (mut link, _) = WifiLink::new();
    let events = [WifiEvent::ConnectSucceeded, WifiEvent::StartSucceeded, WifiEvent::LinkLost,
                  WifiEvent::ConnectFailed, WifiEvent::ConnectSucceeded];
    let mut phases = Vec::new();
    for e in events {
        link.step(e);
        phases.push(link.phase);
    }
    assert_eq!(phases, vec![WifiPhase::Starting, WifiPhase::Connecting, WifiPhase::Connecting,
                            WifiPhase::Connecting, WifiPhase::Online]);
}
