//! The probe: is the calling thread driving a task of the scheduler?
//!
//! The scheduler's own blocking entry refuses to run on a thread that is
//! already driving one of its tasks, and the probe uses that refusal as its
//! oracle. The speculative call has to be caught where it aborts, which the
//! embedding program does. What is decided here is the order of the work and
//! its outcome. A probe names the next action and takes the event that the
//! action gave, until it can report.

use vstd::prelude::*;

verus! {

/// `tokio::runtime::Handle`, opaque to the verifier.
#[verifier::external_type_specification]
#[verifier::external_body]
pub struct ExHandle(tokio::runtime::Handle);

/// `tokio::runtime::TryCurrentError`, opaque to the verifier.
#[verifier::external_type_specification]
#[verifier::external_body]
pub struct ExTryCurrentError(tokio::runtime::TryCurrentError);

/// `tokio::runtime::Handle::try_current`: the handle of the runtime that the
/// calling thread belongs to, or an error where it belongs to none. It never
/// panics. The answer depends on the thread, so nothing is claimed of it.
pub assume_specification[ tokio::runtime::Handle::try_current ]() -> (r: Result<
    tokio::runtime::Handle,
    tokio::runtime::TryCurrentError,
>);

/// Where a probe stands.
#[derive(Clone, Copy, Debug, PartialEq, Eq, Structural)]
pub enum ProbeState {
    /// A scheduler was found and the panic hook is to be muted first.
    Muting,
    /// The speculative call is due; `muted` tells whether the hook was muted
    /// for it.
    Calling { muted: bool },
    /// The speculative call is over and the muted hook is still installed.
    Restoring { aborted: bool },
    /// The probe is over.
    Done { within: bool },
}

/// What the embedding program has to do next.
#[derive(Clone, Copy, Debug, PartialEq, Eq, Structural)]
pub enum ProbeAction {
    /// Take the serialization token and swap in the muted hook.
    MuteHook,
    /// Ask the scheduler to block on a trivial future, and catch the abort.
    SpeculativeCall,
    /// Put the previous hook back and release the token.
    RestoreHook,
    /// Nothing is left to do: this is the verdict.
    Report(bool),
}

/// What an action gave.
#[derive(Clone, Copy, Debug, PartialEq, Eq, Structural)]
pub enum ProbeEvent {
    /// The muted hook is installed and the previous one is kept.
    HookMuted,
    /// The speculative call ran to its end.
    CallReturned,
    /// The scheduler refused the speculative call.
    CallAborted,
    /// The previous hook is installed again.
    HookRestored,
}

/// The state a probe starts in. Without a scheduler it is over at once, with
/// the verdict `false`. The switch `mute_hook` is read here and nowhere else.
pub open spec fn first_state(scheduler_present: bool, mute_hook: bool) -> ProbeState {
    if !scheduler_present {
        ProbeState::Done { within: false }
    } else if mute_hook {
        ProbeState::Muting
    } else {
        ProbeState::Calling { muted: false }
    }
}

/// The state after a speculative call that was made with the hook `muted`
/// or not, and that `aborted` or not.
pub open spec fn after_call(muted: bool, aborted: bool) -> ProbeState {
    if muted {
        ProbeState::Restoring { aborted }
    } else {
        ProbeState::Done { within: aborted }
    }
}

/// The state that `event` leads to from `state`, or `None` where `state` does
/// not wait for `event`.
pub open spec fn next_state(state: ProbeState, event: ProbeEvent) -> Option<ProbeState> {
    match (state, event) {
        (ProbeState::Muting, ProbeEvent::HookMuted) => Some(ProbeState::Calling { muted: true }),
        (ProbeState::Calling { muted }, ProbeEvent::CallReturned) => Some(after_call(muted, false)),
        (ProbeState::Calling { muted }, ProbeEvent::CallAborted) => Some(after_call(muted, true)),
        (ProbeState::Restoring { aborted }, ProbeEvent::HookRestored) => Some(
            ProbeState::Done { within: aborted },
        ),
        _ => None,
    }
}

/// The action that `state` asks for.
pub open spec fn action_of(state: ProbeState) -> ProbeAction {
    match state {
        ProbeState::Muting => ProbeAction::MuteHook,
        ProbeState::Calling { .. } => ProbeAction::SpeculativeCall,
        ProbeState::Restoring { .. } => ProbeAction::RestoreHook,
        ProbeState::Done { within } => ProbeAction::Report(within),
    }
}

/// Whether `event` is what the action `asked` can give.
pub open spec fn answers(asked: ProbeAction, event: ProbeEvent) -> bool {
    match asked {
        ProbeAction::MuteHook => event == ProbeEvent::HookMuted,
        ProbeAction::SpeculativeCall => event == ProbeEvent::CallReturned || event
            == ProbeEvent::CallAborted,
        ProbeAction::RestoreHook => event == ProbeEvent::HookRestored,
        ProbeAction::Report(_) => false,
    }
}

/// The number of events that a probe in `state` still waits for.
pub open spec fn events_left(state: ProbeState) -> nat {
    match state {
        ProbeState::Muting => 3,
        ProbeState::Calling { muted } => if muted {
            2
        } else {
            1
        },
        ProbeState::Restoring { .. } => 1,
        ProbeState::Done { .. } => 0,
    }
}

/// The state that the events lead to, one after the other, or `None` where
/// one of them comes unasked.
pub open spec fn run(state: ProbeState, events: Seq<ProbeEvent>) -> Option<ProbeState>
    decreases events.len(),
{
    if events.len() == 0 {
        Some(state)
    } else {
        match next_state(state, events[0]) {
            None => None,
            Some(next) => run(next, events.drop_first()),
        }
    }
}

/// The events of a whole probe on a thread that has a scheduler.
pub open spec fn script(mute_hook: bool, aborted: bool) -> Seq<ProbeEvent> {
    let call = if aborted {
        ProbeEvent::CallAborted
    } else {
        ProbeEvent::CallReturned
    };
    if mute_hook {
        seq![ProbeEvent::HookMuted, call, ProbeEvent::HookRestored]
    } else {
        seq![call]
    }
}

/// Starts a probe from what is known of the thread's scheduler.
pub fn start(scheduler_present: bool, mute_hook: bool) -> (state: ProbeState)
    ensures
        state == first_state(scheduler_present, mute_hook),
{
    if !scheduler_present {
        ProbeState::Done { within: false }
    } else if mute_hook {
        ProbeState::Muting
    } else {
        ProbeState::Calling { muted: false }
    }
}

/// Starts a probe on the calling thread: looks for the scheduler that owns
/// it and hands back the first state together with the handle, on which the
/// speculative call is to be made. Without a handle the probe is over.
pub fn begin(mute_hook: bool) -> (probe: (ProbeState, Option<tokio::runtime::Handle>))
    ensures
        probe.0 == first_state(probe.1 is Some, mute_hook),
{
    let handle = tokio::runtime::Handle::try_current().ok();
    let state = start(handle.is_some(), mute_hook);
    (state, handle)
}

/// Takes the event that the last action gave. An event that answers the
/// action of `state` is taken; any other is refused.
pub fn step(state: ProbeState, event: ProbeEvent) -> (next: Option<ProbeState>)
    ensures
        next == next_state(state, event),
        next is Some <==> answers(action_of(state), event),
{
    match state {
        ProbeState::Muting => match event {
            ProbeEvent::HookMuted => Some(ProbeState::Calling { muted: true }),
            _ => None,
        },
        ProbeState::Calling { muted } => match event {
            ProbeEvent::CallReturned => Some(settle(muted, false)),
            ProbeEvent::CallAborted => Some(settle(muted, true)),
            _ => None,
        },
        ProbeState::Restoring { aborted } => match event {
            ProbeEvent::HookRestored => Some(ProbeState::Done { within: aborted }),
            _ => None,
        },
        ProbeState::Done { .. } => None,
    }
}

fn settle(muted: bool, aborted: bool) -> (state: ProbeState)
    ensures
        state == after_call(muted, aborted),
{
    if muted {
        ProbeState::Restoring { aborted }
    } else {
        ProbeState::Done { within: aborted }
    }
}

/// Names the action that `state` asks for.
pub fn action(state: ProbeState) -> (todo: ProbeAction)
    ensures
        todo == action_of(state),
{
    match state {
        ProbeState::Muting => ProbeAction::MuteHook,
        ProbeState::Calling { .. } => ProbeAction::SpeculativeCall,
        ProbeState::Restoring { .. } => ProbeAction::RestoreHook,
        ProbeState::Done { within } => ProbeAction::Report(within),
    }
}

/// A probe on a thread that no scheduler owns is over at once and says
/// `false`, whatever the switch: no hook is touched and no call is made.
pub proof fn lemma_no_scheduler_means_outside(mute_hook: bool)
    ensures
        first_state(false, mute_hook) == (ProbeState::Done { within: false }),
        action_of(first_state(false, mute_hook)) == ProbeAction::Report(false),
{
}

/// Every event that is taken brings the probe one step nearer to its end,
/// so that a probe is over after three events at most.
pub proof fn lemma_each_event_counts(state: ProbeState, event: ProbeEvent)
    requires
        next_state(state, event) is Some,
    ensures
        events_left(next_state(state, event)->Some_0) + 1 == events_left(state),
        events_left(state) <= 3,
{
}

/// A probe is over exactly when it waits for no event, and then its action
/// is the report.
pub proof fn lemma_over_when_nothing_left(state: ProbeState)
    ensures
        events_left(state) == 0 <==> state is Done,
        state is Done <==> action_of(state) is Report,
{
}

/// A probe that is over takes no further event.
pub proof fn lemma_done_is_final(within: bool, events: Seq<ProbeEvent>)
    requires
        events.len() > 0,
    ensures
        run(ProbeState::Done { within }, events) is None,
{
}

/// On a thread that has a scheduler, the script is accepted and ends with
/// the verdict `aborted`: `true` where the scheduler refused the speculative
/// call, `false` where the call ran to its end.
pub proof fn lemma_script_reaches_verdict(mute_hook: bool, aborted: bool)
    ensures
        run(first_state(true, mute_hook), script(mute_hook, aborted)) == Some(
            ProbeState::Done { within: aborted },
        ),
{
    reveal_with_fuel(run, 4);
    let events = script(mute_hook, aborted);
    if mute_hook {
        assert(events.drop_first() =~= seq![events[1], ProbeEvent::HookRestored]);
        assert(events.drop_first().drop_first() =~= seq![ProbeEvent::HookRestored]);
        assert(events.drop_first().drop_first().drop_first() =~= Seq::<ProbeEvent>::empty());
    } else {
        assert(events.drop_first() =~= Seq::<ProbeEvent>::empty());
    }
}

/// On a thread that has a scheduler, the only events that bring a probe to a
/// verdict are those of the script for that verdict. So the verdict is `true`
/// exactly where the speculative call aborted, the switch changes nothing of
/// it, and a hook that was muted is restored after the call and before the
/// verdict, whether the call aborted or not.
pub proof fn lemma_verdict_comes_by_script(mute_hook: bool, events: Seq<ProbeEvent>, within: bool)
    requires
        run(first_state(true, mute_hook), events) == Some(ProbeState::Done { within }),
    ensures
        events == script(mute_hook, within),
{
    reveal_with_fuel(run, 5);
    if mute_hook {
        assert(events.len() == 3);
        assert(events =~= script(mute_hook, within));
    } else {
        assert(events.len() == 1);
        assert(events =~= script(mute_hook, within));
    }
}

/// With the switch on, a probe that found a scheduler reaches its verdict
/// through three events and no others: the hook is muted, the speculative
/// call is made, and the hook is restored, also where the call aborted.
pub proof fn lemma_muted_hook_is_restored(events: Seq<ProbeEvent>, within: bool)
    requires
        run(first_state(true, true), events) == Some(ProbeState::Done { within }),
    ensures
        events.len() == 3,
        events[0] == ProbeEvent::HookMuted,
        events[1] == ProbeEvent::CallAborted <==> within,
        events[1] == ProbeEvent::CallReturned <==> !within,
        events[2] == ProbeEvent::HookRestored,
{
    lemma_verdict_comes_by_script(true, events, within);
}

} // verus!
