use splice_coordinator::scheduler::{AdWindow, Rejection, SpliceOutPlan, SpliceScheduler};
use splice_coordinator::section::{build_splice_in, build_splice_out, SectionError, SpliceEvent};
use splice_coordinator::sequencer::EventId;

const SEC: u64 = 1_000_000_000;

#[test]
fn event_ids_start_at_one_and_increase() {
    let mut ids = EventId::new();
    assert_eq!(ids.last_issued(), 0);
    let mut prev = 0u32;
    for expected in 1..=100u32 {
        let id = ids.next();
        assert_eq!(id, expected);
        assert!(id > prev);
        prev = id;
    }
    assert_eq!(ids.remaining(), u32::MAX - 100);
}

#[test]
fn event_ids_shared_behind_a_lock_are_distinct() {
    let shared = std::sync::Arc::new(std::sync::Mutex::new(EventId::default()));
    let other = std::sync::Arc::clone(&shared);
    let mut seen = Vec::new();
    for i in 0..50 {
        let handle = if i % 2 == 0 { &shared } else { &other };
        seen.push(handle.lock().unwrap().next());
    }
    for w in seen.windows(2) {
        assert!(w[0] < w[1]);
    }
    assert_eq!(seen.len(), 50);
}

#[test]
fn splice_out_with_negative_duration_is_invalid() {
    assert_eq!(build_splice_out(7, 5 * SEC, Some(-1)), Err(SectionError::InvalidDuration));
    assert_eq!(build_splice_out(7, 5 * SEC, Some(i64::MIN)), Err(SectionError::InvalidDuration));
}

#[test]
fn splice_out_sections_carry_their_fields() {
    let out = build_splice_out(3, 42 * SEC, Some(10 * SEC as i64)).unwrap();
    assert_eq!(out, SpliceEvent::SpliceOut { id: 3, time: 42 * SEC, duration: Some(10 * SEC) });
    assert_eq!(out.id(), 3);
    assert_eq!(out.time(), 42 * SEC);
    assert!(out.is_out_of_network());
    let zero = build_splice_out(4, 0, Some(0)).unwrap();
    assert_eq!(zero, SpliceEvent::SpliceOut { id: 4, time: 0, duration: Some(0) });
    let open = build_splice_out(5, 9, None).unwrap();
    assert_eq!(open, SpliceEvent::SpliceOut { id: 5, time: 9, duration: None });
}

#[test]
fn splice_in_sections_carry_their_fields() {
    let inn = build_splice_in(8, 110 * SEC);
    assert_eq!(inn, SpliceEvent::SpliceIn { id: 8, time: 110 * SEC });
    assert_eq!(inn.id(), 8);
    assert_eq!(inn.time(), 110 * SEC);
    assert!(!inn.is_out_of_network());
}

#[test]
fn content_match_scenario() {
    let mut s = SpliceScheduler::new();
    assert_eq!(s.ad_window(), AdWindow::Idle);
    let plan = s.on_splice_out_requested(Some(100 * SEC), 0, 10 * SEC as i64).unwrap();
    assert_eq!(
        plan,
        SpliceOutPlan {
            section: SpliceEvent::SpliceOut { id: 1, time: 100 * SEC, duration: Some(10 * SEC) },
            window_id: 1,
            arm_after: 10 * SEC,
        }
    );
    assert_eq!(
        s.ad_window(),
        AdWindow::Active { start_event_id: 1, armed_end_time: 110 * SEC }
    );
    assert!(s.is_ad_active());
    assert_eq!(
        s.on_splice_out_requested(Some(105 * SEC), 0, 10 * SEC as i64),
        Err(Rejection::AdActive)
    );
    assert_eq!(
        s.ad_window(),
        AdWindow::Active { start_event_id: 1, armed_end_time: 110 * SEC }
    );
    let jitter = 110 * SEC + 200_000_000;
    let inn = s.on_splice_in_due(plan.window_id, Some(jitter)).unwrap();
    assert_eq!(inn, SpliceEvent::SpliceIn { id: 2, time: jitter });
    assert_eq!(s.ad_window(), AdWindow::Idle);
    assert!(!s.is_ad_active());
}

#[test]
fn periodic_scenario_drops_ticks_inside_a_window() {
    let ahead = 5 * SEC;
    let duration = 10 * SEC as i64;
    let mut s = SpliceScheduler::new();
    let mut next_id = 1u32;
    for k in 1..=5u64 {
        let tick = 60 * SEC * k;
        let plan = s.on_splice_out_requested(Some(tick), ahead, duration).unwrap();
        assert_eq!(
            plan.section,
            SpliceEvent::SpliceOut { id: next_id, time: tick + ahead, duration: Some(10 * SEC) }
        );
        assert_eq!(plan.arm_after, 10 * SEC);
        let fire = tick + 10 * SEC;
        let inn = s.on_splice_in_due(plan.window_id, Some(fire)).unwrap();
        assert_eq!(inn, SpliceEvent::SpliceIn { id: next_id + 1, time: fire });
        next_id += 2;
    }
    // A period shorter than ahead + duration: the tick inside the window is dropped.
    let mut short = SpliceScheduler::new();
    let plan = short.on_splice_out_requested(Some(8 * SEC), ahead, duration).unwrap();
    assert_eq!(plan.section.id(), 1);
    assert_eq!(short.on_splice_out_requested(Some(16 * SEC), ahead, duration), Err(Rejection::AdActive));
    let inn = short.on_splice_in_due(plan.window_id, Some(18 * SEC)).unwrap();
    assert_eq!(inn, SpliceEvent::SpliceIn { id: 2, time: 18 * SEC });
    let again = short.on_splice_out_requested(Some(24 * SEC), ahead, duration).unwrap();
    assert_eq!(again.section, SpliceEvent::SpliceOut { id: 3, time: 29 * SEC, duration: Some(10 * SEC) });
}

#[test]
fn splice_in_fires_once_per_window() {
    let mut s = SpliceScheduler::new();
    let plan = s.on_splice_out_requested(Some(SEC), 0, 2).unwrap();
    let inn = s.on_splice_in_due(plan.window_id, Some(SEC + 2)).unwrap();
    assert!(inn.id() > plan.section.id());
    assert_eq!(s.on_splice_in_due(plan.window_id, Some(SEC + 3)), None);
    assert_eq!(s.ad_window(), AdWindow::Idle);
}

#[test]
fn stale_timer_does_not_close_a_newer_window() {
    let mut s = SpliceScheduler::new();
    let first = s.on_splice_out_requested(Some(0), 0, 5).unwrap();
    s.on_splice_in_due(first.window_id, Some(5)).unwrap();
    let second = s.on_splice_out_requested(Some(10), 0, 5).unwrap();
    assert_eq!(second.window_id, 3);
    assert_eq!(s.on_splice_in_due(first.window_id, Some(11)), None);
    assert_eq!(s.ad_window(), AdWindow::Active { start_event_id: 3, armed_end_time: 15 });
}

#[test]
fn splice_in_without_clock_uses_announced_end() {
    let mut s = SpliceScheduler::new();
    let plan = s.on_splice_out_requested(Some(100), 7, 20).unwrap();
    let inn = s.on_splice_in_due(plan.window_id, None).unwrap();
    assert_eq!(inn, SpliceEvent::SpliceIn { id: 2, time: 127 });
}

#[test]
fn rejected_requests_change_nothing() {
    let mut s = SpliceScheduler::new();
    assert_eq!(s.on_splice_out_requested(None, 0, 10), Err(Rejection::ClockUnavailable));
    assert_eq!(s.on_splice_out_requested(Some(100), 0, -1), Err(Rejection::InvalidDuration));
    assert_eq!(
        s.on_splice_out_requested(Some(u64::MAX - 5), 3, 3),
        Err(Rejection::TimeOutOfRange)
    );
    assert_eq!(s.on_splice_out_requested(Some(u64::MAX), 1, 0), Err(Rejection::TimeOutOfRange));
    assert_eq!(s.ad_window(), AdWindow::Idle);
    // No identifier was consumed by the rejections.
    let plan = s.on_splice_out_requested(Some(u64::MAX - 6), 3, 3).unwrap();
    assert_eq!(plan.window_id, 1);
    assert_eq!(
        s.ad_window(),
        AdWindow::Active { start_event_id: 1, armed_end_time: u64::MAX }
    );
}

#[test]
fn timer_on_idle_scheduler_is_ignored() {
    let mut s = SpliceScheduler::new();
    assert_eq!(s.on_splice_in_due(1, Some(5)), None);
    assert_eq!(s.ad_window(), AdWindow::Idle);
}
