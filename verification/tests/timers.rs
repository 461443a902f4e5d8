use wireguard::consts::{KEEPALIVE_TIMEOUT, REJECT_AFTER_TIME, REKEY_AFTER_TIME, REKEY_TIMEOUT};
use wireguard::interface::peer_server::{PollCycle, Readiness, Source, Step};
use wireguard::protocol::timer::{deadline_after, PeerTimers};

#[test]
fn constants_are_in_order() {
    assert_eq!(REKEY_AFTER_TIME, 120);
    assert_eq!(REJECT_AFTER_TIME, 180);
    assert_eq!(KEEPALIVE_TIMEOUT, 10);
    assert_eq!(REKEY_TIMEOUT, 5);
    assert!(REKEY_AFTER_TIME < REJECT_AFTER_TIME);
}

#[test]
fn deadlines_stop_at_the_end_of_time() {
    assert_eq!(deadline_after(1000, 120), 1120);
    assert_eq!(deadline_after(0, 0), 0);
    assert_eq!(deadline_after(u64::MAX - 5, 5), u64::MAX);
    assert_eq!(deadline_after(u64::MAX - 5, 6), u64::MAX);
    assert_eq!(deadline_after(u64::MAX, 120), u64::MAX);
}

#[test]
fn idle_timers_never_go_off() {
    let mut timers = PeerTimers::new();
    assert_eq!(timers.rekey_at, None);
    assert_eq!(timers.keepalive_at, None);
    assert_eq!(timers.poll(0), (false, false));
    assert_eq!(timers.poll(u64::MAX), (false, false));
    assert_eq!(timers, PeerTimers::new());
}

#[test]
fn rekey_waits_its_full_duration() {
    let mut timers = PeerTimers::new();
    timers.arm(1000, true);
    assert_eq!(timers.rekey_at, Some(1120));
    assert_eq!(timers.keepalive_at, Some(1010));
    assert_eq!(timers.poll(1000), (false, false));
    assert_eq!(timers.poll(1009), (false, false));
    let mut at_119 = timers;
    assert_eq!(at_119.poll(1119).0, false);
    let mut at_120 = timers;
    assert_eq!(at_120.poll(1120).0, true);
    assert!(1120 < 1000 + REJECT_AFTER_TIME);
}

#[test]
fn rekey_fires_exactly_once() {
    let mut timers = PeerTimers::new();
    timers.arm(50, true);
    let mut fired = 0;
    for now in 50..600 {
        if timers.poll(now).0 {
            fired += 1;
            assert_eq!(now, 170);
        }
    }
    assert_eq!(fired, 1);
    assert_eq!(timers.rekey_at, None);
    timers.arm(600, true);
    assert_eq!(timers.rekey_at, Some(720));
    assert_eq!(timers.poll(720).0, true);
    assert_eq!(timers.poll(720).0, false);
}

#[test]
fn keepalive_recurs_every_interval() {
    let mut timers = PeerTimers::new();
    timers.arm(0, true);
    let mut ticks = Vec::new();
    for now in 0..=45 {
        if timers.poll(now).1 {
            ticks.push(now);
        }
    }
    assert_eq!(ticks, vec![10, 20, 30, 40]);
    assert_eq!(timers.keepalive_at, Some(50));
}

#[test]
fn late_poll_ticks_once_and_counts_from_then() {
    let mut timers = PeerTimers::new();
    timers.arm(0, true);
    assert_eq!(timers.poll(35), (false, true));
    assert_eq!(timers.keepalive_at, Some(45));
    assert_eq!(timers.poll(35), (false, false));
    assert_eq!(timers.poll(200), (true, true));
    assert_eq!(timers.rekey_at, None);
    assert_eq!(timers.keepalive_at, Some(210));
}

#[test]
fn cycle_drains_timers_first() {
    let mut cycle = PollCycle::new();
    assert_eq!(cycle.source, Source::Timers);
    assert_eq!(cycle.poll(Readiness::Ready), Step::Poll(Source::Timers));
    assert_eq!(cycle.poll(Readiness::Ready), Step::Poll(Source::Timers));
    assert_eq!(cycle.poll(Readiness::NotReady), Step::Poll(Source::Datagrams));
    assert_eq!(cycle.poll(Readiness::Ready), Step::Poll(Source::Datagrams));
    assert_eq!(cycle.poll(Readiness::NotReady), Step::Poll(Source::Plaintext));
    assert_eq!(cycle.poll(Readiness::Ready), Step::Poll(Source::Plaintext));
    assert_eq!(cycle.poll(Readiness::NotReady), Step::Suspend);
    assert_eq!(cycle.source, Source::Timers);
}

#[test]
fn idle_cycle_suspends_after_three_polls() {
    let mut cycle = PollCycle::new();
    assert_eq!(cycle.poll(Readiness::NotReady), Step::Poll(Source::Datagrams));
    assert_eq!(cycle.poll(Readiness::NotReady), Step::Poll(Source::Plaintext));
    assert_eq!(cycle.poll(Readiness::NotReady), Step::Suspend);
    assert_eq!(cycle, PollCycle::new());
}

#[test]
fn closed_queue_ends_the_loop() {
    for polls in 0..3 {
        let mut cycle = PollCycle::new();
        for _ in 0..polls {
            cycle.poll(Readiness::NotReady);
        }
        assert_eq!(cycle.poll(Readiness::Closed), Step::Fail);
        assert_eq!(cycle.source, Source::Timers);
    }
}

#[test]
fn responder_arms_the_keepalive_alone() {
    let mut timers = PeerTimers::new();
    timers.arm(1000, true);
    timers.arm(2000, false);
    assert_eq!(timers.rekey_at, None);
    assert_eq!(timers.keepalive_at, Some(2010));
    assert_eq!(timers.poll(u64::MAX), (false, true));
}
