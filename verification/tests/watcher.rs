use statusbar::volatile::{BatterySample, Connection, VolatileState};
use statusbar::watcher::{
    same_connection, watch_interval, WatchAction, WatchEvent, WatchPhase, WatchStep, Watcher,
    ALERT_INTERVAL, IDLE_INTERVAL,
};

fn state(charging: bool, on_full_charge: bool, connection: Connection) -> VolatileState {
    VolatileState { charging, on_full_charge, connection }
}

fn sample(charging: bool, on_full_charge: bool) -> BatterySample {
    BatterySample { charging, on_full_charge }
}

#[test]
fn interval_constants() {
    assert_eq!(IDLE_INTERVAL, 20);
    assert_eq!(ALERT_INTERVAL, 2);
}

#[test]
fn interval_full_and_wired_is_long() {
    assert_eq!(watch_interval(&state(true, true, Connection::Wired)), 20);
    assert_eq!(watch_interval(&state(false, true, Connection::Wired)), 20);
}

#[test]
fn interval_full_and_wifi_is_long() {
    assert_eq!(watch_interval(&state(true, true, Connection::Wifi)), 20);
    assert_eq!(watch_interval(&state(false, true, Connection::Wifi)), 20);
}

#[test]
fn interval_not_full_is_short() {
    for connection in [Connection::Wired, Connection::Wifi, Connection::Offline] {
        for charging in [false, true] {
            assert_eq!(watch_interval(&state(charging, false, connection)), 2);
        }
    }
}

#[test]
fn interval_offline_is_short() {
    for charging in [false, true] {
        for full in [false, true] {
            assert_eq!(watch_interval(&state(charging, full, Connection::Offline)), 2);
        }
    }
}

#[test]
fn volatile_state_new_and_battery() {
    let s = VolatileState::new(sample(true, false), Connection::Wifi);
    assert_eq!(s, state(true, false, Connection::Wifi));
    assert_eq!(s.battery(), sample(true, false));
}

#[test]
fn same_connection_compares_types() {
    let all = [Connection::Wired, Connection::Wifi, Connection::Offline];
    for a in all {
        for b in all {
            assert_eq!(same_connection(a, b), a == b);
        }
    }
}

#[test]
fn new_watcher_sleeps_first() {
    let watcher = Watcher::new(state(false, false, Connection::Wifi));
    assert_eq!(watcher.phase, WatchPhase::Sleeping);
    assert_eq!(watcher.action(), WatchAction::Sleep(2));
    assert!(watcher.accepts(&WatchEvent::Slept));
    assert!(!watcher.accepts(&WatchEvent::Battery(sample(false, false))));
    assert!(!watcher.accepts(&WatchEvent::Network(Connection::Wifi)));
}

#[test]
fn battery_reaching_full_raises_nothing_and_backs_off() {
    // Discharging on wifi: the short interval.
    let mut watcher = Watcher::new(state(false, false, Connection::Wifi));
    assert_eq!(watcher.action(), WatchAction::Sleep(2));
    let step = watcher.step(WatchEvent::Slept);
    assert_eq!(step, WatchStep { raise: false, action: WatchAction::SampleBattery });
    // The battery is now full; the charging state flipped with it.
    let step = watcher.step(WatchEvent::Battery(sample(true, true)));
    assert_eq!(step, WatchStep { raise: false, action: WatchAction::SampleNetwork });
    let step = watcher.step(WatchEvent::Network(Connection::Wifi));
    // The pair is derived afresh: full and connected gives the long interval.
    assert_eq!(step, WatchStep { raise: false, action: WatchAction::Sleep(20) });
    assert_eq!(watcher.previous, state(true, true, Connection::Wifi));
    assert_eq!(watcher.phase, WatchPhase::Sleeping);
}

#[test]
fn battery_reaching_full_while_draining_raises_nothing() {
    let mut watcher = Watcher::new(state(false, false, Connection::Wifi));
    assert_eq!(watcher.action(), WatchAction::Sleep(2));
    assert!(!watcher.step(WatchEvent::Slept).raise);
    let step = watcher.step(WatchEvent::Battery(sample(false, true)));
    assert_eq!(step, WatchStep { raise: false, action: WatchAction::SampleNetwork });
    let step = watcher.step(WatchEvent::Network(Connection::Wifi));
    assert!(!step.raise);
    assert_eq!(step.action, WatchAction::Sleep(watch_interval(&watcher.previous)));
    assert_eq!(watcher.previous, state(false, true, Connection::Wifi));
}

#[test]
fn full_flag_alone_keeps_short_interval_when_offline() {
    let mut watcher = Watcher::new(state(false, false, Connection::Offline));
    watcher.step(WatchEvent::Slept);
    watcher.step(WatchEvent::Battery(sample(false, true)));
    let step = watcher.step(WatchEvent::Network(Connection::Offline));
    assert_eq!(step, WatchStep { raise: false, action: WatchAction::Sleep(2) });
}

#[test]
fn charging_flip_raises_and_skips_network() {
    let mut watcher = Watcher::new(state(false, false, Connection::Wired));
    watcher.step(WatchEvent::Slept);
    let step = watcher.step(WatchEvent::Battery(sample(true, false)));
    assert_eq!(step, WatchStep { raise: true, action: WatchAction::Sleep(2) });
    assert_eq!(watcher.phase, WatchPhase::Sleeping);
    assert_eq!(watcher.previous, state(true, false, Connection::Wired));
    assert!(!watcher.accepts(&WatchEvent::Network(Connection::Wifi)));
}

#[test]
fn unplugging_raises() {
    let mut watcher = Watcher::new(state(true, false, Connection::Wifi));
    watcher.step(WatchEvent::Slept);
    let step = watcher.step(WatchEvent::Battery(sample(false, false)));
    assert!(step.raise);
}

#[test]
fn charging_flip_at_full_charge_does_not_raise() {
    let mut watcher = Watcher::new(state(false, true, Connection::Wired));
    assert_eq!(watcher.action(), WatchAction::Sleep(20));
    watcher.step(WatchEvent::Slept);
    let step = watcher.step(WatchEvent::Battery(sample(true, true)));
    assert_eq!(step, WatchStep { raise: false, action: WatchAction::SampleNetwork });
    assert_eq!(watcher.phase, WatchPhase::NetworkDue { battery: sample(true, true) });
}

#[test]
fn connection_change_raises() {
    let mut watcher = Watcher::new(state(true, true, Connection::Wifi));
    watcher.step(WatchEvent::Slept);
    watcher.step(WatchEvent::Battery(sample(true, true)));
    let step = watcher.step(WatchEvent::Network(Connection::Offline));
    assert_eq!(step, WatchStep { raise: true, action: WatchAction::Sleep(2) });
    assert_eq!(watcher.previous.connection, Connection::Offline);
}

#[test]
fn steady_state_raises_nothing() {
    let mut watcher = Watcher::new(state(true, true, Connection::Wired));
    for _ in 0..5 {
        assert_eq!(watcher.action(), WatchAction::Sleep(20));
        assert!(!watcher.step(WatchEvent::Slept).raise);
        assert!(!watcher.step(WatchEvent::Battery(sample(true, true))).raise);
        assert!(!watcher.step(WatchEvent::Network(Connection::Wired)).raise);
    }
}

#[test]
fn at_most_one_raise_per_cycle() {
    let connections = [Connection::Wired, Connection::Wifi, Connection::Offline];
    for before in connections {
        for after in connections {
            for bits in 0..16u8 {
                let start = state(bits & 1 != 0, bits & 2 != 0, before);
                let reading = sample(bits & 4 != 0, bits & 8 != 0);
                let mut watcher = Watcher::new(start);
                let mut raises = 0;
                if watcher.step(WatchEvent::Slept).raise {
                    raises += 1;
                }
                let step = watcher.step(WatchEvent::Battery(reading));
                if step.raise {
                    raises += 1;
                }
                if step.action == WatchAction::SampleNetwork {
                    if watcher.step(WatchEvent::Network(after)).raise {
                        raises += 1;
                    }
                }
                assert!(raises <= 1);
                assert_eq!(watcher.phase, WatchPhase::Sleeping);
            }
        }
    }
}
