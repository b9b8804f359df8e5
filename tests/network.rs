use water::network::{
    is_wifi_connected, AddressPhase, AddressWait, ConnectivityState, NetAction, NetEvent,
    NetStatus, NetStep, NetworkSupervisor, WaitStep, WIFI_ALIVE_MS, HEARTBEAT_DEFAULT_MS, HEARTBEAT_INIT_MS,
    HEARTBEAT_NET_AWAIT_MS, NET_REFRESH_MS, RECONNECT_DELAY_MS,
};

fn step(action: NetAction, status: Option<NetStatus>) -> NetStep {
    NetStep { action, status }
}

fn connected_supervisor() -> NetworkSupervisor {
    let mut sup = NetworkSupervisor::new();
    sup.on_event(NetEvent::Resume);
    sup.on_event(NetEvent::StartSucceeded);
    sup.on_event(NetEvent::ScanFinished);
    sup.on_event(NetEvent::ConnectSucceeded);
    sup
}

#[test]
fn successful_bring_up() {
    let mut sup = NetworkSupervisor::new();
    assert_eq!(sup.state(), ConnectivityState::Disconnected);
    assert_eq!(sup.cadence_ms(), HEARTBEAT_INIT_MS);
    assert_eq!(
        sup.on_event(NetEvent::Resume),
        step(NetAction::StartRadio, Some(NetStatus::StartingWifi))
    );
    assert_eq!(sup.state(), ConnectivityState::Starting);
    assert_eq!(
        sup.on_event(NetEvent::StartSucceeded),
        step(NetAction::Scan, Some(NetStatus::Scanning))
    );
    assert_eq!(sup.state(), ConnectivityState::Scanning);
    assert_eq!(
        sup.on_event(NetEvent::ScanFinished),
        step(NetAction::Connect, Some(NetStatus::Connecting))
    );
    assert_eq!(sup.state(), ConnectivityState::Connecting);
    assert!(!is_wifi_connected(&sup));
    assert_eq!(
        sup.on_event(NetEvent::ConnectSucceeded),
        step(NetAction::AwaitDisconnect(WIFI_ALIVE_MS), Some(NetStatus::Connected))
    );
    assert_eq!(sup.state(), ConnectivityState::Connected);
    assert!(is_wifi_connected(&sup));
    assert_eq!(sup.cadence_ms(), HEARTBEAT_DEFAULT_MS);
    assert_eq!(HEARTBEAT_DEFAULT_MS, 5000);
}

#[test]
fn connect_failure_backs_off_once() {
    let mut sup = NetworkSupervisor::new();
    sup.on_event(NetEvent::Resume);
    sup.on_event(NetEvent::StartSucceeded);
    sup.on_event(NetEvent::ScanFinished);
    assert_eq!(
        sup.on_event(NetEvent::ConnectFailed),
        step(NetAction::Backoff(5000), Some(NetStatus::Failed))
    );
    assert_eq!(sup.state(), ConnectivityState::Disconnected);
    assert!(!is_wifi_connected(&sup));
    assert_eq!(sup.cadence_ms(), HEARTBEAT_NET_AWAIT_MS);
    // the radio still runs: the retry goes straight to association
    assert_eq!(
        sup.on_event(NetEvent::Resume),
        step(NetAction::Connect, Some(NetStatus::Connecting))
    );
}

#[test]
fn scenario_three_failed_associations() {
    let mut sup = NetworkSupervisor::new();
    sup.on_event(NetEvent::Resume);
    sup.on_event(NetEvent::StartSucceeded);
    sup.on_event(NetEvent::ScanFinished);
    let mut delays = Vec::new();
    let mut retries = 0;
    for _ in 0..3 {
        match sup.on_event(NetEvent::ConnectFailed).action {
            NetAction::Backoff(ms) => delays.push(ms),
            other => panic!("unexpected action {:?}", other),
        }
        assert!(!is_wifi_connected(&sup));
        if sup.on_event(NetEvent::Resume).action == NetAction::Connect {
            retries += 1;
        }
    }
    assert_eq!(retries, 3);
    assert_eq!(delays, vec![RECONNECT_DELAY_MS; 3]);
    assert_eq!(RECONNECT_DELAY_MS, 5000);
    assert_eq!(
        sup.on_event(NetEvent::ConnectSucceeded),
        step(NetAction::AwaitDisconnect(WIFI_ALIVE_MS), Some(NetStatus::Connected))
    );
}

#[test]
fn start_failure_backs_off_and_restarts_radio() {
    let mut sup = NetworkSupervisor::new();
    sup.on_event(NetEvent::Resume);
    assert_eq!(
        sup.on_event(NetEvent::StartFailed),
        step(NetAction::Backoff(5000), Some(NetStatus::Failed))
    );
    assert_eq!(sup.state(), ConnectivityState::Disconnected);
    assert_eq!(
        sup.on_event(NetEvent::Resume),
        step(NetAction::StartRadio, Some(NetStatus::StartingWifi))
    );
}

#[test]
fn lost_association_backs_off_and_reconnects() {
    let mut sup = connected_supervisor();
    assert_eq!(
        sup.on_event(NetEvent::LinkLost),
        step(NetAction::Backoff(5000), Some(NetStatus::Disconnected))
    );
    assert!(!is_wifi_connected(&sup));
    assert_eq!(sup.cadence_ms(), 1000);
    assert_eq!(
        sup.on_event(NetEvent::Resume),
        step(NetAction::Connect, Some(NetStatus::Connecting))
    );
}

#[test]
fn unexpected_events_are_ignored() {
    let mut sup = connected_supervisor();
    for ev in [
        NetEvent::Resume,
        NetEvent::StartSucceeded,
        NetEvent::StartFailed,
        NetEvent::ScanFinished,
        NetEvent::ConnectSucceeded,
        NetEvent::ConnectFailed,
    ] {
        assert_eq!(sup.on_event(ev), step(NetAction::Ignore, None));
        assert_eq!(sup.state(), ConnectivityState::Connected);
        assert!(is_wifi_connected(&sup));
    }
    let mut idle = NetworkSupervisor::new();
    assert_eq!(idle.on_event(NetEvent::LinkLost), step(NetAction::Ignore, None));
    assert_eq!(idle.on_event(NetEvent::StillAssociated), step(NetAction::Ignore, None));
    assert_eq!(idle.state(), ConnectivityState::Disconnected);
}

#[test]
fn status_texts() {
    assert_eq!(NetStatus::StartingWifi.text(), "Starting WiFi");
    assert_eq!(NetStatus::Scanning.text(), "WiFi scan");
    assert_eq!(NetStatus::Connecting.text(), "Connecting to WiFi");
    assert_eq!(NetStatus::Connected.text(), "Wifi connected!");
    assert_eq!(NetStatus::Disconnected.text(), "WiFi disconnected");
    assert_eq!(NetStatus::Failed.text(), "WiFi fail: ");
}

#[test]
fn address_wait_polls_at_a_fixed_interval() {
    let mut w = AddressWait::new();
    assert_eq!(w.phase(), AddressPhase::AwaitingLink);
    assert_eq!(w.phase().status_text(), "Waiting for net");
    assert_eq!(w.phase().cadence_ms(), HEARTBEAT_NET_AWAIT_MS);
    assert_eq!(w.poll(false, true), WaitStep::Retry(NET_REFRESH_MS));
    assert_eq!(w.poll(false, false), WaitStep::Retry(500));
    assert_eq!(w.poll(true, false), WaitStep::Proceed);
    assert_eq!(w.phase(), AddressPhase::AwaitingAddress);
    assert_eq!(w.phase().status_text(), "Waiting for IP");
    assert_eq!(w.phase().cadence_ms(), 1000);
    assert_eq!(w.poll(true, false), WaitStep::Retry(500));
    assert_eq!(w.poll(false, false), WaitStep::Retry(500));
    assert_eq!(w.poll(false, true), WaitStep::Done);
    assert_eq!(w.phase(), AddressPhase::Ready);
    assert_eq!(w.phase().status_text(), "IP: ");
    assert_eq!(w.phase().cadence_ms(), HEARTBEAT_DEFAULT_MS);
    assert_eq!(w.poll(false, false), WaitStep::Done);
}

#[test]
fn association_reports_alive_while_it_holds() {
    let mut sup = connected_supervisor();
    for _ in 0..3 {
        assert_eq!(
            sup.on_event(NetEvent::StillAssociated),
            step(NetAction::AwaitDisconnect(30_000), None)
        );
        assert_eq!(sup.state(), ConnectivityState::Connected);
        assert!(is_wifi_connected(&sup));
        assert_eq!(sup.cadence_ms(), HEARTBEAT_DEFAULT_MS);
    }
    assert_eq!(WIFI_ALIVE_MS, 30_000);
}
