use strident_mutex::hook::PanicHideGuard;
use strident_mutex::panic_if_within_tokio;
use strident_mutex::probe::{action, begin, start, step};
use strident_mutex::probe::{ProbeAction, ProbeEvent, ProbeState};
use strident_mutex::FatalAsyncBlock;

fn run(mut state: ProbeState, events: &[ProbeEvent]) -> Option<ProbeState> {
    for event in events {
        state = step(state, *event)?;
    }
    Some(state)
}

#[test]
fn probe_without_scheduler_is_false() {
    let (state, handle) = begin(false);
    assert!(handle.is_none());
    assert_eq!(state, ProbeState::Done { within: false });
    assert_eq!(action(state), ProbeAction::Report(false));
}

#[test]
fn probe_without_scheduler_never_mutes_the_hook() {
    let (state, handle) = begin(true);
    assert!(handle.is_none());
    assert_eq!(state, ProbeState::Done { within: false });
    assert_eq!(start(false, true), ProbeState::Done { within: false });
    assert_eq!(start(false, false), ProbeState::Done { within: false });
}

#[test]
fn start_with_scheduler_reads_the_switch() {
    assert_eq!(start(true, true), ProbeState::Muting);
    assert_eq!(start(true, false), ProbeState::Calling { muted: false });
    assert_eq!(action(ProbeState::Muting), ProbeAction::MuteHook);
    assert_eq!(
        action(ProbeState::Calling { muted: false }),
        ProbeAction::SpeculativeCall
    );
    assert_eq!(
        action(ProbeState::Calling { muted: true }),
        ProbeAction::SpeculativeCall
    );
}

#[test]
fn aborted_call_means_within() {
    let state = start(true, false);
    let end = run(state, &[ProbeEvent::CallAborted]);
    assert_eq!(end, Some(ProbeState::Done { within: true }));
    assert_eq!(action(end.unwrap()), ProbeAction::Report(true));
}

#[test]
fn returned_call_means_outside() {
    let state = start(true, false);
    let end = run(state, &[ProbeEvent::CallReturned]);
    assert_eq!(end, Some(ProbeState::Done { within: false }));
    assert_eq!(action(end.unwrap()), ProbeAction::Report(false));
}

#[test]
fn muted_probe_restores_before_it_reports() {
    for (call, within) in [
        (ProbeEvent::CallAborted, true),
        (ProbeEvent::CallReturned, false),
    ] {
        let s0 = start(true, true);
        assert_eq!(action(s0), ProbeAction::MuteHook);
        let s1 = step(s0, ProbeEvent::HookMuted).unwrap();
        assert_eq!(s1, ProbeState::Calling { muted: true });
        let s2 = step(s1, call).unwrap();
        assert_eq!(s2, ProbeState::Restoring { aborted: within });
        assert_eq!(action(s2), ProbeAction::RestoreHook);
        let s3 = step(s2, ProbeEvent::HookRestored).unwrap();
        assert_eq!(s3, ProbeState::Done { within });
        assert_eq!(action(s3), ProbeAction::Report(within));
    }
}

#[test]
fn switch_does_not_change_the_verdict() {
    for (call, within) in [
        (ProbeEvent::CallAborted, true),
        (ProbeEvent::CallReturned, false),
    ] {
        let plain = run(start(true, false), &[call]);
        let muted = run(
            start(true, true),
            &[ProbeEvent::HookMuted, call, ProbeEvent::HookRestored],
        );
        assert_eq!(plain, Some(ProbeState::Done { within }));
        assert_eq!(muted, plain);
    }
}

#[test]
fn unasked_events_are_refused() {
    assert_eq!(step(ProbeState::Muting, ProbeEvent::CallAborted), None);
    assert_eq!(step(ProbeState::Muting, ProbeEvent::CallReturned), None);
    assert_eq!(step(ProbeState::Muting, ProbeEvent::HookRestored), None);
    assert_eq!(
        step(ProbeState::Calling { muted: true }, ProbeEvent::HookRestored),
        None
    );
    assert_eq!(
        step(ProbeState::Calling { muted: false }, ProbeEvent::HookMuted),
        None
    );
    assert_eq!(
        step(ProbeState::Restoring { aborted: true }, ProbeEvent::CallAborted),
        None
    );
    assert_eq!(
        step(ProbeState::Restoring { aborted: false }, ProbeEvent::HookMuted),
        None
    );
    for event in [
        ProbeEvent::HookMuted,
        ProbeEvent::CallReturned,
        ProbeEvent::CallAborted,
        ProbeEvent::HookRestored,
    ] {
        assert_eq!(step(ProbeState::Done { within: true }, event), None);
        assert_eq!(step(ProbeState::Done { within: false }, event), None);
    }
}

#[test]
fn fatal_failure_names_the_operation() {
    let refused = panic_if_within_tokio("lock", true);
    let fatal = refused.err().unwrap();
    assert_eq!(fatal.op, "lock");
    assert_eq!(fatal.message(), "lock called within an async context");
    assert!(panic_if_within_tokio("lock", false).is_ok());
}

#[test]
fn fatal_message_for_each_operation() {
    for (op, text) in [
        ("read", "read called within an async context"),
        ("write", "write called within an async context"),
        ("", " called within an async context"),
    ] {
        let fatal = FatalAsyncBlock { op: op.to_string() };
        assert_eq!(fatal.message(), text);
        assert_eq!(fatal.op, op);
    }
}

#[test]
fn guard_hands_back_the_hook_it_was_given() {
    let mut guard = PanicHideGuard::new("token", 7u32);
    assert_eq!(guard.token, "token");
    assert_eq!(guard.previous, Some(7));
    assert_eq!(guard.take_previous(), Some(7));
    assert_eq!(guard.take_previous(), None);
    assert_eq!(guard.token, "token");
    assert_eq!(guard.previous, None);
}

#[test]
fn guard_keeps_the_hook_until_asked() {
    let guard = PanicHideGuard::new(1u8, String::from("previous hook"));
    assert_eq!(guard.previous.as_deref(), Some("previous hook"));
    assert_eq!(guard.token, 1);
}

#[test]
fn an_event_is_taken_exactly_when_it_answers_the_action() {
    let states = [
        ProbeState::Muting,
        ProbeState::Calling { muted: true },
        ProbeState::Calling { muted: false },
        ProbeState::Restoring { aborted: true },
        ProbeState::Restoring { aborted: false },
        ProbeState::Done { within: true },
        ProbeState::Done { within: false },
    ];
    let events = [
        ProbeEvent::HookMuted,
        ProbeEvent::CallReturned,
        ProbeEvent::CallAborted,
        ProbeEvent::HookRestored,
    ];
    for state in states {
        for event in events {
            let answers = match action(state) {
                ProbeAction::MuteHook => event == ProbeEvent::HookMuted,
                ProbeAction::SpeculativeCall => {
                    event == ProbeEvent::CallReturned || event == ProbeEvent::CallAborted
                }
                ProbeAction::RestoreHook => event == ProbeEvent::HookRestored,
                ProbeAction::Report(_) => false,
            };
            assert_eq!(step(state, event).is_some(), answers);
        }
    }
}

#[test]
fn a_probe_is_over_after_three_events_at_most() {
    for mute_hook in [true, false] {
        for call in [ProbeEvent::CallAborted, ProbeEvent::CallReturned] {
            let mut state = start(true, mute_hook);
            let mut taken = 0;
            loop {
                let event = match action(state) {
                    ProbeAction::Report(within) => {
                        assert_eq!(within, call == ProbeEvent::CallAborted);
                        break;
                    }
                    ProbeAction::MuteHook => ProbeEvent::HookMuted,
                    ProbeAction::SpeculativeCall => call,
                    ProbeAction::RestoreHook => ProbeEvent::HookRestored,
                };
                state = step(state, event).unwrap();
                taken += 1;
            }
            assert_eq!(taken, if mute_hook { 3 } else { 1 });
        }
    }
}
