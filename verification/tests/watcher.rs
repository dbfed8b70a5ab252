use live_reload::watcher::{
    static_directory, templates_directory, ChangeKind, WatchAction, WatchEvent, WatcherState,
    DEBOUNCE_MS,
};

fn change(kind: ChangeKind, at: u64) -> WatchEvent {
    WatchEvent::Change { kind, at }
}

/// Runs `events` through a watcher that starts idle; returns the last state
/// and every action, in order.
fn run(events: &[WatchEvent]) -> (WatcherState, Vec<WatchAction>) {
    let mut state = WatcherState::new();
    let mut actions = Vec::new();
    for event in events {
        let (next, action) = state.step(*event);
        state = next;
        actions.push(action);
    }
    (state, actions)
}

fn reloads(actions: &[WatchAction]) -> usize {
    actions.iter().filter(|a| **a == WatchAction::ReloadAndPublish).count()
}

#[test]
fn debounce_delay_is_100_ms() {
    assert_eq!(DEBOUNCE_MS, 100);
}

#[test]
fn watcher_starts_idle() {
    assert_eq!(WatcherState::new(), WatcherState::Idle);
    assert_eq!(WatcherState::new().deadline(), None);
}

#[test]
fn create_modify_remove_qualify_and_the_rest_do_not() {
    assert!(ChangeKind::Create.qualifies());
    assert!(ChangeKind::Modify.qualifies());
    assert!(ChangeKind::Remove.qualifies());
    assert!(!ChangeKind::Any.qualifies());
    assert!(!ChangeKind::Access.qualifies());
    assert!(!ChangeKind::Other.qualifies());
}

#[test]
fn first_change_arms_the_timer() {
    let (state, action) = WatcherState::Idle.step(change(ChangeKind::Modify, 1000));
    assert_eq!(state, WatcherState::Pending { deadline: 1100 });
    assert_eq!(action, WatchAction::ArmTimer { deadline: 1100 });
    assert_eq!(state.deadline(), Some(1100));
}

#[test]
fn later_change_resets_the_timer_to_its_own_time() {
    let pending = WatcherState::Pending { deadline: 1100 };
    let (state, action) = pending.step(change(ChangeKind::Create, 1060));
    assert_eq!(state, WatcherState::Pending { deadline: 1160 });
    assert_eq!(action, WatchAction::ResetTimer { deadline: 1160 });
}

#[test]
fn access_events_change_nothing() {
    for kind in [ChangeKind::Any, ChangeKind::Access, ChangeKind::Other] {
        assert_eq!(
            WatcherState::Idle.step(change(kind, 5)),
            (WatcherState::Idle, WatchAction::Wait)
        );
        let pending = WatcherState::Pending { deadline: 70 };
        assert_eq!(pending.step(change(kind, 5)), (pending, WatchAction::Wait));
    }
}

#[test]
fn timer_firing_on_time_reloads_and_goes_idle() {
    let pending = WatcherState::Pending { deadline: 1100 };
    assert_eq!(
        pending.step(WatchEvent::TimerFired { at: 1100 }),
        (WatcherState::Idle, WatchAction::ReloadAndPublish)
    );
    assert_eq!(
        pending.step(WatchEvent::TimerFired { at: 5000 }),
        (WatcherState::Idle, WatchAction::ReloadAndPublish)
    );
}

#[test]
fn timer_firing_early_is_passed_over() {
    let pending = WatcherState::Pending { deadline: 1100 };
    assert_eq!(pending.step(WatchEvent::TimerFired { at: 1099 }), (pending, WatchAction::Wait));
    assert_eq!(pending.step(WatchEvent::TimerFired { at: 0 }), (pending, WatchAction::Wait));
}

#[test]
fn timer_firing_while_idle_does_nothing() {
    assert_eq!(
        WatcherState::Idle.step(WatchEvent::TimerFired { at: 123 }),
        (WatcherState::Idle, WatchAction::Wait)
    );
}

#[test]
fn burst_gives_exactly_one_reload() {
    let mut events = Vec::new();
    let mut at: u64 = 500;
    for i in 0..25 {
        let kind = match i % 3 {
            0 => ChangeKind::Create,
            1 => ChangeKind::Modify,
            _ => ChangeKind::Remove,
        };
        events.push(change(kind, at));
        at += 7;
    }
    let last = at - 7;
    let (state, actions) = run(&events);
    assert_eq!(reloads(&actions), 0);
    assert_eq!(state, WatcherState::Pending { deadline: last + 100 });
    assert_eq!(actions[0], WatchAction::ArmTimer { deadline: 600 });
    assert_eq!(actions[24], WatchAction::ResetTimer { deadline: last + 100 });

    events.push(WatchEvent::TimerFired { at: last + 99 });
    let (state, actions) = run(&events);
    assert_eq!(reloads(&actions), 0);
    assert_eq!(state, WatcherState::Pending { deadline: last + 100 });

    events.push(WatchEvent::TimerFired { at: last + 100 });
    events.push(WatchEvent::TimerFired { at: last + 300 });
    let (state, actions) = run(&events);
    assert_eq!(reloads(&actions), 1);
    assert_eq!(actions[26], WatchAction::ReloadAndPublish);
    assert_eq!(actions[27], WatchAction::Wait);
    assert_eq!(state, WatcherState::Idle);
}

#[test]
fn single_change_gives_one_reload() {
    let (state, actions) =
        run(&[change(ChangeKind::Modify, 0), WatchEvent::TimerFired { at: 100 }]);
    assert_eq!(actions, vec![WatchAction::ArmTimer { deadline: 100 }, WatchAction::ReloadAndPublish]);
    assert_eq!(state, WatcherState::Idle);
}

#[test]
fn two_bursts_give_two_reloads() {
    let (state, actions) = run(&[
        change(ChangeKind::Modify, 10),
        change(ChangeKind::Modify, 20),
        WatchEvent::TimerFired { at: 120 },
        change(ChangeKind::Remove, 400),
        change(ChangeKind::Create, 450),
        WatchEvent::TimerFired { at: 550 },
    ]);
    assert_eq!(
        actions,
        vec![
            WatchAction::ArmTimer { deadline: 110 },
            WatchAction::ResetTimer { deadline: 120 },
            WatchAction::ReloadAndPublish,
            WatchAction::ArmTimer { deadline: 500 },
            WatchAction::ResetTimer { deadline: 550 },
            WatchAction::ReloadAndPublish,
        ]
    );
    assert_eq!(state, WatcherState::Idle);
}

#[test]
fn failures_leave_the_watcher_as_it_was() {
    let failures =
        [WatchEvent::NotifierError, WatchEvent::ReloadFailed, WatchEvent::PublishFailed];
    for failure in failures {
        assert_eq!(WatcherState::Idle.step(failure), (WatcherState::Idle, WatchAction::Wait));
        let pending = WatcherState::Pending { deadline: 42 };
        assert_eq!(pending.step(failure), (pending, WatchAction::Wait));
    }
}

#[test]
fn notifier_error_inside_a_burst_does_not_disturb_it() {
    let (state, actions) = run(&[
        change(ChangeKind::Modify, 10),
        WatchEvent::NotifierError,
        change(ChangeKind::Access, 30),
        change(ChangeKind::Modify, 40),
        WatchEvent::TimerFired { at: 139 },
        WatchEvent::TimerFired { at: 140 },
    ]);
    assert_eq!(reloads(&actions), 1);
    assert_eq!(actions[5], WatchAction::ReloadAndPublish);
    assert_eq!(state, WatcherState::Idle);
}

#[test]
fn shutdown_stops_from_any_state() {
    assert_eq!(
        WatcherState::Idle.step(WatchEvent::Shutdown),
        (WatcherState::Stopped, WatchAction::Stop)
    );
    assert_eq!(
        WatcherState::Pending { deadline: 9 }.step(WatchEvent::Shutdown),
        (WatcherState::Stopped, WatchAction::Stop)
    );
    assert_eq!(
        WatcherState::Stopped.step(WatchEvent::Shutdown),
        (WatcherState::Stopped, WatchAction::Stop)
    );
}

#[test]
fn nothing_is_reloaded_after_shutdown() {
    let (state, actions) = run(&[
        change(ChangeKind::Modify, 10),
        WatchEvent::Shutdown,
        WatchEvent::TimerFired { at: 1000 },
        change(ChangeKind::Modify, 1001),
        WatchEvent::TimerFired { at: 2000 },
    ]);
    assert_eq!(reloads(&actions), 0);
    assert_eq!(
        actions,
        vec![
            WatchAction::ArmTimer { deadline: 110 },
            WatchAction::Stop,
            WatchAction::Stop,
            WatchAction::Stop,
            WatchAction::Stop,
        ]
    );
    assert_eq!(state, WatcherState::Stopped);
    assert_eq!(state.deadline(), None);
}

#[test]
fn latest_representable_change_is_taken() {
    let at = u64::MAX - 100;
    let (state, action) = WatcherState::Idle.step(change(ChangeKind::Modify, at));
    assert_eq!(state, WatcherState::Pending { deadline: u64::MAX });
    assert_eq!(action, WatchAction::ArmTimer { deadline: u64::MAX });
    let late = change(ChangeKind::Access, u64::MAX);
    assert_eq!(state.step(late), (state, WatchAction::Wait));
}

#[test]
fn watched_directories_are_templates_and_static() {
    assert_eq!(templates_directory(), "templates");
    assert_eq!(static_directory(), "static");
}

#[test]
fn change_too_late_for_a_deadline_is_out_of_range() {
    assert!(change(ChangeKind::Modify, 0).in_range());
    assert!(change(ChangeKind::Modify, u64::MAX - 100).in_range());
    assert!(!change(ChangeKind::Modify, u64::MAX - 99).in_range());
    assert!(!change(ChangeKind::Create, u64::MAX).in_range());
    assert!(!change(ChangeKind::Remove, u64::MAX).in_range());
    assert!(change(ChangeKind::Access, u64::MAX).in_range());
    assert!(WatchEvent::TimerFired { at: u64::MAX }.in_range());
    assert!(WatchEvent::Shutdown.in_range());
    assert!(WatchEvent::NotifierError.in_range());
    assert!(WatchEvent::ReloadFailed.in_range());
    assert!(WatchEvent::PublishFailed.in_range());
}

/// A small deterministic generator, so that the walk below is the same on
/// every run.
fn scramble(seed: &mut u64) -> u64 {
    *seed = seed.wrapping_mul(6364136223846793005).wrapping_add(1442695040888963407);
    *seed >> 33
}

#[test]
fn every_reload_in_a_long_random_walk_follows_a_quiet_period() {
    let mut seed: u64 = 0x5eed;
    let mut events = Vec::new();
    let mut clock: u64 = 0;
    for _ in 0..20_000 {
        clock += scramble(&mut seed) % 90;
        let event = match scramble(&mut seed) % 12 {
            0 => change(ChangeKind::Create, clock),
            1 => change(ChangeKind::Modify, clock),
            2 => change(ChangeKind::Remove, clock),
            3 => change(ChangeKind::Access, clock),
            4 => change(ChangeKind::Any, clock),
            5 => change(ChangeKind::Other, clock),
            6 => WatchEvent::NotifierError,
            7 => WatchEvent::ReloadFailed,
            8 => WatchEvent::PublishFailed,
            _ => WatchEvent::TimerFired { at: clock },
        };
        events.push(event);
    }
    let (_, actions) = run(&events);
    assert!(reloads(&actions) > 100);

    let mut last_change: Option<u64> = None;
    for (event, action) in events.iter().zip(actions.iter()) {
        if *action == WatchAction::ReloadAndPublish {
            let changed = last_change.take().expect("a reload without a change before it");
            match event {
                WatchEvent::TimerFired { at } => assert!(*at >= changed + 100),
                other => panic!("{:?} called for a reload", other),
            }
        }
        if let WatchEvent::Change { kind, at } = event {
            if kind.qualifies() {
                last_change = Some(*at);
            }
        }
        assert_ne!(*action, WatchAction::Stop);
    }
}
