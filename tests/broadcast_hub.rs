use sim_server::body::{Quat, Vec3};
use sim_server::hub::{BroadcastHub, HubError, RecvOutcome};
use sim_server::updates::{SimulationUpdate, SpatialSnapshot};

fn update(n: i64) -> SimulationUpdate {
    SimulationUpdate::from_snapshots(vec![SpatialSnapshot {
        id: 1,
        position: Vec3 { x: 0, y: n, z: 0 },
        orientation: Quat { i: 0, j: 0, k: 0, w: 1_000_000 },
    }])
}

fn height(r: &RecvOutcome) -> i64 {
    match r {
        RecvOutcome::Update(u) => u.snapshots[0].position.y,
        other => panic!("expected an update, got {other:?}"),
    }
}

#[test]
fn publish_with_no_subscribers_succeeds() {
    let mut hub = BroadcastHub::new(10);
    for n in 0..100 {
        assert_eq!(hub.publish(update(n)), Ok(()));
    }
    assert_eq!(hub.published_count(), 100);
}

#[test]
fn subscriber_sees_only_later_updates_in_order() {
    let mut hub = BroadcastHub::new(10);
    hub.publish(update(1)).unwrap();
    let mut sub = hub.subscribe();
    assert_eq!(sub.next_sequence(), 1);
    assert!(matches!(hub.recv(&mut sub), RecvOutcome::Empty));
    hub.publish(update(2)).unwrap();
    hub.publish(update(3)).unwrap();
    assert_eq!(height(&hub.recv(&mut sub)), 2);
    assert_eq!(height(&hub.recv(&mut sub)), 3);
    assert!(matches!(hub.recv(&mut sub), RecvOutcome::Empty));
}

#[test]
fn stalled_subscriber_does_not_hold_back_publishing() {
    let mut hub = BroadcastHub::new(10);
    let _stalled = hub.subscribe();
    for n in 0..1000 {
        assert_eq!(hub.publish(update(n)), Ok(()));
    }
    assert_eq!(hub.published_count(), 1000);
}

#[test]
fn lagging_subscriber_gets_one_lag_signal_then_resumes() {
    let mut hub = BroadcastHub::new(10);
    let mut sub = hub.subscribe();
    for n in 0..25 {
        hub.publish(update(n)).unwrap();
    }
    match hub.recv(&mut sub) {
        RecvOutcome::Lagged(k) => assert_eq!(k, 15),
        other => panic!("expected a lag signal, got {other:?}"),
    }
    for n in 15..25 {
        assert_eq!(height(&hub.recv(&mut sub)), n);
    }
    assert!(matches!(hub.recv(&mut sub), RecvOutcome::Empty));
}

#[test]
fn subscriber_within_retention_is_not_lagged() {
    let mut hub = BroadcastHub::new(3);
    let mut sub = hub.subscribe();
    for n in 0..3 {
        hub.publish(update(n)).unwrap();
    }
    for n in 0..3 {
        assert_eq!(height(&hub.recv(&mut sub)), n);
    }
}

#[test]
fn terminal_update_closes_the_hub_and_is_last() {
    let mut hub = BroadcastHub::new(4);
    let mut sub = hub.subscribe();
    hub.publish(update(1)).unwrap();
    assert_eq!(hub.publish(SimulationUpdate::terminal_update()), Ok(()));
    assert!(hub.is_closed());
    assert_eq!(hub.publish(update(2)), Err(HubError::Closed));
    assert_eq!(hub.publish(SimulationUpdate::terminal_update()), Err(HubError::Closed));
    assert_eq!(hub.published_count(), 2);
    assert_eq!(height(&hub.recv(&mut sub)), 1);
    match hub.recv(&mut sub) {
        RecvOutcome::Update(u) => {
            assert!(u.is_terminal());
            assert!(u.snapshots.is_empty());
        }
        other => panic!("expected the terminal update, got {other:?}"),
    }
    assert!(matches!(hub.recv(&mut sub), RecvOutcome::Closed));
    assert!(matches!(hub.recv(&mut sub), RecvOutcome::Closed));
}

#[test]
fn subscribing_to_a_closed_hub_observes_closed() {
    let mut hub = BroadcastHub::new(4);
    hub.publish(SimulationUpdate::terminal_update()).unwrap();
    let mut late = hub.subscribe();
    assert!(matches!(hub.recv(&mut late), RecvOutcome::Closed));
}

#[test]
fn duplicate_keeps_snapshots_and_flag() {
    let u = update(42);
    let d = u.duplicate();
    assert_eq!(d.snapshots, u.snapshots);
    assert_eq!(d.terminal, None);
    assert!(!d.is_terminal());
    let t = SimulationUpdate::terminal_update().duplicate();
    assert_eq!(t.terminal, Some(true));
}
