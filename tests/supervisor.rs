use std::collections::HashSet;
use tweet_provider::backoff::UpstreamError;
use tweet_provider::session::{ClientMessage, Frame, Reaction, Session};
use tweet_provider::supervisor::{Supervisor, SupervisorAction, RESTART_DELAY_MS};

fn set(items: &[u64]) -> HashSet<u64> {
    items.iter().copied().collect()
}

fn scheduled(a: &SupervisorAction) -> Option<u64> {
    match a {
        SupervisorAction::ScheduleRestart { delay_ms } => Some(*delay_ms),
        _ => None,
    }
}

fn started(a: SupervisorAction) -> HashSet<u64> {
    match a {
        SupervisorAction::StartConsumer { follows } => follows,
        other => panic!("expected a consumer start, got {:?}", other),
    }
}

fn command(session: &mut Session, msg: ClientMessage) -> HashSet<u64> {
    match session.handle_ws_message(Frame::Command(msg)) {
        Reaction::Update { delta, .. } => delta,
        other => panic!("expected an update, got {:?}", other),
    }
}

#[test]
fn two_clients_share_one_consumer() {
    let mut sup = Supervisor::new(false);
    let mut a = Session::new(b"xd".to_vec());
    let mut b = Session::new(b"xd".to_vec());

    let delta = command(&mut a, ClientMessage::SetSubscriptions(set(&[10])));
    assert_eq!(scheduled(&sup.on_delta(1, &delta)), Some(RESTART_DELAY_MS));
    let delta = command(&mut b, ClientMessage::SetSubscriptions(set(&[20])));
    assert_eq!(scheduled(&sup.on_delta(2, &delta)), Some(10_000));

    assert_eq!(started(sup.on_restart()), set(&[10, 20]));
    assert!(sup.consumer_running());

    assert!(a.wants(10) && !a.wants(20));
    assert!(b.wants(20) && !b.wants(10));
}

#[test]
fn rapid_edits_coalesce_into_one_restart() {
    let mut sup = Supervisor::new(false);
    assert_eq!(scheduled(&sup.on_delta(1, &set(&[10]))), Some(10_000));
    // the second delta re-arms the same timer
    assert_eq!(scheduled(&sup.on_delta(1, &set(&[10, 30]))), Some(10_000));
    assert_eq!(started(sup.on_restart()), set(&[10, 30]));
}

#[test]
fn known_authors_do_not_restart() {
    let mut sup = Supervisor::new(false);
    sup.on_delta(1, &set(&[10, 30]));
    started(sup.on_restart());
    assert!(matches!(sup.on_delta(2, &set(&[10])), SupervisorAction::Wait));
    // dropping one of two authors keeps the filter without always_restart
    assert!(matches!(sup.on_delta(1, &set(&[10])), SupervisorAction::Wait));
}

#[test]
fn always_restart_tightens_the_filter() {
    let mut sup = Supervisor::new(true);
    sup.on_delta(1, &set(&[10, 30]));
    started(sup.on_restart());
    assert_eq!(scheduled(&sup.on_delta(1, &set(&[10]))), Some(10_000));
    assert_eq!(started(sup.on_restart()), set(&[10]));
}

#[test]
fn rate_limit_backs_off_and_caps() {
    let mut sup = Supervisor::new(false);
    sup.on_delta(1, &set(&[10]));
    started(sup.on_restart());
    let expected = [60_000, 120_000, 240_000, 480_000, 960_000, 960_000];
    for want in expected {
        let a = sup.on_consumer_exit(UpstreamError::BadStatus(420));
        assert_eq!(scheduled(&a), Some(want));
        assert!(!sup.consumer_running());
        assert_eq!(started(sup.on_restart()), set(&[10]));
    }
    assert_eq!(sup.backoff_exponent(), 6);
}

#[test]
fn deltas_while_backing_off_do_not_reschedule() {
    let mut sup = Supervisor::new(false);
    sup.on_delta(1, &set(&[10]));
    started(sup.on_restart());
    sup.on_consumer_exit(UpstreamError::NetError);
    assert!(matches!(sup.on_delta(2, &set(&[99])), SupervisorAction::Wait));
    // the backoff restart picks up the new author
    assert_eq!(started(sup.on_restart()), set(&[10, 99]));
}

#[test]
fn unspecific_failure_resets_backoff() {
    let mut sup = Supervisor::new(false);
    sup.on_delta(1, &set(&[10]));
    started(sup.on_restart());
    sup.on_consumer_exit(UpstreamError::BadStatus(503));
    sup.on_restart();
    sup.on_consumer_exit(UpstreamError::BadStatus(503));
    assert_eq!(sup.backoff_exponent(), 2);
    sup.on_restart();
    let a = sup.on_consumer_exit(UpstreamError::InvalidFollowSet(0));
    assert_eq!(scheduled(&a), Some(250));
    assert_eq!(sup.backoff_exponent(), 0);
}

#[test]
fn stalled_session_tears_down_its_authors() {
    let mut sup = Supervisor::new(false);
    let mut s = Session::new(b"xd".to_vec());
    let delta = command(&mut s, ClientMessage::SetSubscriptions(set(&[42])));
    sup.on_delta(5, &delta);
    started(sup.on_restart());

    // the socket went silent: the session ends and withdraws its interests
    let last = s.teardown();
    assert!(last.is_empty());
    assert_eq!(scheduled(&sup.on_delta(5, &last)), Some(10_000));
    assert!(matches!(sup.on_restart(), SupervisorAction::StopConsumer));
    assert!(!sup.consumer_running());
}

#[test]
fn restart_with_nobody_interested_waits() {
    let mut sup = Supervisor::new(false);
    assert!(matches!(sup.on_restart(), SupervisorAction::Wait));
    assert!(!sup.consumer_running());
    assert!(matches!(sup.on_delta(1, &set(&[])), SupervisorAction::Wait));
}
