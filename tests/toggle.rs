use overlay_toggle::toggle::{
    release_at, Action, Coordinator, Event, Phase, Visibility, COOLDOWN_MS, ENFORCE_ATTEMPTS, RETRY_DELAY_MS,
    SETTLE_MS,
};

/// Runs the coordinator's requests against a simulated window that always
/// succeeds, starting with the action `first` at time `now`, until it asks
/// for nothing. Returns the final time and the actions performed.
fn drive(c: &mut Coordinator, first: Action, mut now: u64) -> (u64, Vec<Action>) {
    let mut log = vec![first];
    let mut action = first;
    loop {
        let event = match action {
            Action::Nothing => break,
            Action::Show | Action::Hide | Action::Enforce => Event::Completed { now_ms: now, ok: true },
            Action::Sleep { ms } => {
                now += ms;
                Event::Elapsed { now_ms: now }
            },
        };
        action = c.handle(event);
        log.push(action);
    }
    (now, log)
}

#[test]
fn starts_hidden_with_guard_free() {
    let c = Coordinator::new();
    assert_eq!(c.get_visibility(), Visibility::Hidden);
    assert!(!c.is_guard_held());
    assert_eq!(c.phase, Phase::Idle);
}

#[test]
fn show_sequence_settles_then_enforces_three_times() {
    let mut c = Coordinator::new();
    let first = c.handle(Event::Trigger { now_ms: 1000 });
    assert_eq!(first, Action::Show);
    assert_eq!(c.get_visibility(), Visibility::Showing);
    let (end, log) = drive(&mut c, first, 1000);
    let enforcements = log.iter().filter(|a| **a == Action::Enforce).count();
    assert_eq!(enforcements, ENFORCE_ATTEMPTS as usize);
    assert_eq!(log[1], Action::Sleep { ms: SETTLE_MS });
    assert_eq!(log[2], Action::Enforce);
    assert_eq!(log[3], Action::Sleep { ms: RETRY_DELAY_MS });
    // 50 + 25 + 25 ms of pacing, then the rest of the 200 ms cooldown.
    assert_eq!(log[7], Action::Sleep { ms: COOLDOWN_MS - SETTLE_MS - 2 * RETRY_DELAY_MS });
    assert_eq!(end, 1000 + COOLDOWN_MS);
    assert_eq!(c.get_visibility(), Visibility::Visible);
    assert!(!c.is_guard_held());
}

#[test]
fn burst_of_triggers_toggles_once() {
    let mut c = Coordinator::new();
    let mut transitions = 0;
    let first = c.handle(Event::Trigger { now_ms: 0 });
    if first == Action::Show || first == Action::Hide {
        transitions += 1;
    }
    for t in 1..10u64 {
        let a = c.handle(Event::Trigger { now_ms: t * 15 });
        assert_eq!(a, Action::Nothing);
        if a == Action::Show || a == Action::Hide {
            transitions += 1;
        }
    }
    assert_eq!(transitions, 1);
    drive(&mut c, first, 150);
    assert_eq!(c.get_visibility(), Visibility::Visible);
}

#[test]
fn trigger_while_guard_held_changes_nothing() {
    let mut c = Coordinator::new();
    let first = c.handle(Event::Trigger { now_ms: 5 });
    assert_eq!(first, Action::Show);
    let before = c;
    let a = c.handle(Event::Trigger { now_ms: 6 });
    assert_eq!(a, Action::Nothing);
    assert_eq!(c, before);
    // Mid-way through the enforcement retries, too.
    c.handle(Event::Completed { now_ms: 7, ok: true });
    let a = c.handle(Event::Elapsed { now_ms: 57 });
    assert_eq!(a, Action::Enforce);
    let before = c;
    assert_eq!(c.handle(Event::Trigger { now_ms: 58 }), Action::Nothing);
    assert_eq!(c, before);
}

#[test]
fn two_toggles_return_to_start() {
    let mut c = Coordinator::new();
    let a = c.handle(Event::Trigger { now_ms: 0 });
    let (now, _) = drive(&mut c, a, 0);
    assert_eq!(c.get_visibility(), Visibility::Visible);
    let a = c.handle(Event::Trigger { now_ms: now + 10 });
    assert_eq!(a, Action::Hide);
    let (_, log) = drive(&mut c, a, now + 10);
    assert!(!log.contains(&Action::Enforce));
    assert_eq!(c.get_visibility(), Visibility::Hidden);
    assert!(!c.is_guard_held());
}

#[test]
fn failed_show_still_releases_guard() {
    let mut c = Coordinator::new();
    assert_eq!(c.handle(Event::Trigger { now_ms: 100 }), Action::Show);
    let a = c.handle(Event::Completed { now_ms: 110, ok: false });
    assert_eq!(a, Action::Sleep { ms: 190 });
    assert_eq!(c.get_visibility(), Visibility::Hidden);
    assert!(c.is_guard_held());
    assert_eq!(c.handle(Event::Elapsed { now_ms: 300 }), Action::Nothing);
    assert!(!c.is_guard_held());
}

#[test]
fn failed_hide_keeps_window_visible_and_releases_guard() {
    let mut c = Coordinator::new();
    c.set_visibility(Visibility::Visible);
    assert_eq!(c.handle(Event::Trigger { now_ms: 0 }), Action::Hide);
    assert_eq!(c.handle(Event::Completed { now_ms: 300, ok: false }), Action::Sleep { ms: 0 });
    assert_eq!(c.get_visibility(), Visibility::Visible);
    assert_eq!(c.handle(Event::Elapsed { now_ms: 300 }), Action::Nothing);
    assert!(!c.is_guard_held());
}

#[test]
fn failed_enforcement_is_tolerated() {
    let mut c = Coordinator::new();
    c.handle(Event::Trigger { now_ms: 0 });
    c.handle(Event::Completed { now_ms: 1, ok: true });
    for k in 0..ENFORCE_ATTEMPTS {
        assert_eq!(c.handle(Event::Elapsed { now_ms: 60 + k as u64 }), Action::Enforce);
        c.handle(Event::Completed { now_ms: 61 + k as u64, ok: false });
    }
    assert_eq!(c.get_visibility(), Visibility::Visible);
    assert_eq!(c.phase, Phase::Cooldown);
}

#[test]
fn early_wake_in_cooldown_sleeps_again() {
    let mut c = Coordinator::new();
    c.set_visibility(Visibility::Visible);
    c.handle(Event::Trigger { now_ms: 1000 });
    c.handle(Event::Completed { now_ms: 1010, ok: true });
    assert_eq!(c.handle(Event::Elapsed { now_ms: 1150 }), Action::Sleep { ms: 50 });
    assert!(c.is_guard_held());
    assert_eq!(c.handle(Event::Elapsed { now_ms: 1200 }), Action::Nothing);
    assert!(!c.is_guard_held());
}

#[test]
fn stray_events_when_idle_are_ignored() {
    let mut c = Coordinator::new();
    let before = c;
    assert_eq!(c.handle(Event::Completed { now_ms: 3, ok: true }), Action::Nothing);
    assert_eq!(c.handle(Event::Elapsed { now_ms: 4 }), Action::Nothing);
    assert_eq!(c, before);
}

#[test]
fn release_time_saturates() {
    assert_eq!(release_at(1000), 1200);
    assert_eq!(release_at(u64::MAX - 10), u64::MAX);
}
