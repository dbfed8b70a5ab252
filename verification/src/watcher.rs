//! The file watcher's debounce: bursts of file-system changes become one
//! reload, taken once the watched directories have been quiet for
//! [`DEBOUNCE_MS`].
//!
//! The watcher is a state machine over one variable, the debounce timer. The
//! program that drives it waits for the notifier, the timer and the shutdown
//! signal, hands each thing that happens to [`WatcherState::step`], and carries
//! out the action it gets back. Times are milliseconds on any clock the driver
//! likes, as long as it is the same clock throughout. A driver whose clock is
//! finer than that rounds the time of a change up and the time of a firing
//! down: then a reload is never earlier than the delay after the change, by
//! the finer clock too.

use vstd::prelude::*;

verus! {

/// The quiet period that must follow the last change before a reload.
pub const DEBOUNCE_MS: u64 = 100;

/// The directory of templates, watched with everything below it.
pub fn templates_directory() -> (path: &'static str)
    ensures
        path@ == "templates"@,
{
    "templates"
}

/// The directory of static assets, watched with everything below it.
pub fn static_directory() -> (path: &'static str)
    ensures
        path@ == "static"@,
{
    "static"
}

/// What the notifier says happened to a watched path.
#[derive(Clone, Copy, Debug, PartialEq, Eq, Structural)]
pub enum ChangeKind {
    Any,
    Access,
    Create,
    Modify,
    Remove,
    Other,
}

impl ChangeKind {
    /// A change that calls for a reload: something was created, modified or
    /// removed.
    pub open spec fn qualifies_spec(self) -> bool {
        self is Create || self is Modify || self is Remove
    }

    #[verifier::when_used_as_spec(qualifies_spec)]
    pub fn qualifies(self) -> (q: bool)
        ensures
            q == self.qualifies_spec(),
    {
        match self {
            ChangeKind::Create | ChangeKind::Modify | ChangeKind::Remove => true,
            ChangeKind::Any | ChangeKind::Access | ChangeKind::Other => false,
        }
    }
}

/// One thing the watcher is told.
#[derive(Clone, Copy, Debug, PartialEq, Eq, Structural)]
pub enum WatchEvent {
    /// The notifier reported a change, seen at time `at`.
    Change { kind: ChangeKind, at: u64 },
    /// The notifier reported an error in place of an event.
    NotifierError,
    /// The reload that the watcher called for was refused.
    ReloadFailed,
    /// The reload signal that the watcher called for reached no subscriber.
    PublishFailed,
    /// The timer woke the watcher at time `at`.
    TimerFired { at: u64 },
    /// The shutdown signal arrived.
    Shutdown,
}

/// What the driver does next.
#[derive(Clone, Copy, Debug, PartialEq, Eq, Structural)]
pub enum WatchAction {
    /// Nothing; keep waiting.
    Wait,
    /// Start the timer, to fire at `deadline`.
    ArmTimer { deadline: u64 },
    /// Move the running timer, to fire at `deadline` instead.
    ResetTimer { deadline: u64 },
    /// Reload the template store, then publish a reload signal whether or not
    /// the reload succeeded.
    ReloadAndPublish,
    /// Leave the loop.
    Stop,
}

/// The debounce timer: unset, set to a deadline, or gone for good.
#[derive(Clone, Copy, Debug, PartialEq, Eq, Structural)]
pub enum WatcherState {
    /// No change is waiting for a reload.
    Idle,
    /// A change is waiting; the reload is due at `deadline`.
    Pending { deadline: u64 },
    /// The watcher was shut down.
    Stopped,
}

impl WatchEvent {
    /// A failure that is reported and otherwise passed over.
    pub open spec fn is_failure(self) -> bool {
        self is NotifierError || self is ReloadFailed || self is PublishFailed
    }

    /// The deadline this event would set can be written down: a qualifying
    /// change leaves room for the quiet period before the clock runs out.
    pub open spec fn in_range_spec(self) -> bool {
        self matches WatchEvent::Change { kind, at } ==> kind.qualifies() ==> at + DEBOUNCE_MS
            <= u64::MAX
    }

    #[verifier::when_used_as_spec(in_range_spec)]
    pub fn in_range(self) -> (fits: bool)
        ensures
            fits == self.in_range_spec(),
    {
        match self {
            WatchEvent::Change { kind, at } => !kind.qualifies() || at <= u64::MAX - DEBOUNCE_MS,
            _ => true,
        }
    }
}

/// The watcher's transition: the state after `event` and the action it calls
/// for.
pub open spec fn next(state: WatcherState, event: WatchEvent) -> (WatcherState, WatchAction) {
    match state {
        WatcherState::Stopped => (WatcherState::Stopped, WatchAction::Stop),
        WatcherState::Idle => match event {
            WatchEvent::Shutdown => (WatcherState::Stopped, WatchAction::Stop),
            WatchEvent::Change { kind, at } => if kind.qualifies() {
                let deadline = (at + DEBOUNCE_MS) as u64;
                (WatcherState::Pending { deadline }, WatchAction::ArmTimer { deadline })
            } else {
                (state, WatchAction::Wait)
            },
            WatchEvent::TimerFired { .. } => (state, WatchAction::Wait),
            WatchEvent::NotifierError | WatchEvent::ReloadFailed | WatchEvent::PublishFailed => (
                state,
                WatchAction::Wait,
            ),
        },
        WatcherState::Pending { deadline: due } => match event {
            WatchEvent::Shutdown => (WatcherState::Stopped, WatchAction::Stop),
            WatchEvent::Change { kind, at } => if kind.qualifies() {
                let deadline = (at + DEBOUNCE_MS) as u64;
                (WatcherState::Pending { deadline }, WatchAction::ResetTimer { deadline })
            } else {
                (state, WatchAction::Wait)
            },
            WatchEvent::TimerFired { at } => if at >= due {
                (WatcherState::Idle, WatchAction::ReloadAndPublish)
            } else {
                (state, WatchAction::Wait)
            },
            WatchEvent::NotifierError | WatchEvent::ReloadFailed | WatchEvent::PublishFailed => (
                state,
                WatchAction::Wait,
            ),
        },
    }
}

impl WatcherState {
    /// A watcher that has seen nothing yet.
    pub fn new() -> (state: WatcherState)
        ensures
            state == WatcherState::Idle,
    {
        WatcherState::Idle
    }

    /// When the timer is due, if it is set.
    pub open spec fn deadline_spec(self) -> Option<u64> {
        match self {
            WatcherState::Pending { deadline } => Some(deadline),
            _ => None,
        }
    }

    #[verifier::when_used_as_spec(deadline_spec)]
    pub fn deadline(self) -> (due: Option<u64>)
        ensures
            due == self.deadline_spec(),
    {
        match self {
            WatcherState::Pending { deadline } => Some(deadline),
            _ => None,
        }
    }

    /// Takes in one event: returns the state that follows and what to do.
    pub fn step(self, event: WatchEvent) -> (out: (WatcherState, WatchAction))
        requires
            event.in_range(),
        ensures
            out == next(self, event),
    {
        match self {
            WatcherState::Stopped => (WatcherState::Stopped, WatchAction::Stop),
            WatcherState::Idle => match event {
                WatchEvent::Shutdown => (WatcherState::Stopped, WatchAction::Stop),
                WatchEvent::Change { kind, at } => {
                    if kind.qualifies() {
                        let deadline: u64 = at + DEBOUNCE_MS;
                        (WatcherState::Pending { deadline }, WatchAction::ArmTimer { deadline })
                    } else {
                        (self, WatchAction::Wait)
                    }
                },
                _ => (self, WatchAction::Wait),
            },
            WatcherState::Pending { deadline: due } => match event {
                WatchEvent::Shutdown => (WatcherState::Stopped, WatchAction::Stop),
                WatchEvent::Change { kind, at } => {
                    if kind.qualifies() {
                        let deadline: u64 = at + DEBOUNCE_MS;
                        (WatcherState::Pending { deadline }, WatchAction::ResetTimer { deadline })
                    } else {
                        (self, WatchAction::Wait)
                    }
                },
                WatchEvent::TimerFired { at } => {
                    if at >= due {
                        (WatcherState::Idle, WatchAction::ReloadAndPublish)
                    } else {
                        (self, WatchAction::Wait)
                    }
                },
                _ => (self, WatchAction::Wait),
            },
        }
    }
}

/// `event` is a change that calls for a reload.
pub open spec fn is_qualifying_change(event: WatchEvent) -> bool {
    event matches WatchEvent::Change { kind, .. } && kind.qualifies()
}

/// The state of a watcher that started idle and has taken `events` in order.
pub open spec fn state_after(events: Seq<WatchEvent>) -> WatcherState
    decreases events.len(),
{
    if events.len() == 0 {
        WatcherState::Idle
    } else {
        next(state_after(events.drop_last()), events.last()).0
    }
}

/// The action that the `i`-th of `events` calls for, in a watcher that
/// started idle.
pub open spec fn action_at(events: Seq<WatchEvent>, i: int) -> WatchAction
    recommends
        0 <= i < events.len(),
{
    next(state_after(events.take(i)), events[i]).1
}

/// How many of `events` call for a reload and publish.
pub open spec fn reload_count(events: Seq<WatchEvent>) -> nat
    decreases events.len(),
{
    if events.len() == 0 {
        0
    } else {
        let earlier = reload_count(events.drop_last());
        if action_at(events, events.len() - 1) == WatchAction::ReloadAndPublish {
            earlier + 1
        } else {
            earlier
        }
    }
}

/// A burst: nothing but changes that call for a reload, each with room for
/// its deadline.
pub open spec fn is_burst(events: Seq<WatchEvent>) -> bool {
    forall|i: int|
        0 <= i < events.len() ==> is_qualifying_change(#[trigger] events[i]) && events[i].in_range()
}

/// The deadline that the last change of a burst sets.
pub open spec fn burst_deadline(burst: Seq<WatchEvent>) -> int
    recommends
        burst.len() > 0,
        is_burst(burst),
{
    burst.last()->Change_at + DEBOUNCE_MS
}

/// `events`, and then the timer firing at time `at`.
pub open spec fn then_fired(events: Seq<WatchEvent>, at: u64) -> Seq<WatchEvent> {
    events.push(WatchEvent::TimerFired { at })
}

/// One more event moves the state, and calls for an action, as [`next`] says.
proof fn lemma_state_after_push(events: Seq<WatchEvent>, event: WatchEvent)
    ensures
        state_after(events.push(event)) == next(state_after(events), event).0,
        action_at(events.push(event), events.len() as int) == next(state_after(events), event).1,
{
    let longer = events.push(event);
    assert(longer.drop_last() =~= events);
    assert(longer.take(events.len() as int) =~= events);
}

/// The state after `n + 1` events is one step on from the state after `n`.
proof fn lemma_state_after_take(events: Seq<WatchEvent>, n: int)
    requires
        0 <= n < events.len(),
    ensures
        state_after(events.take(n + 1)) == next(state_after(events.take(n)), events[n]).0,
{
    assert(events.take(n + 1).drop_last() =~= events.take(n));
}

/// A burst reloads nothing and leaves the timer set by its last change.
proof fn lemma_burst_pending(burst: Seq<WatchEvent>)
    requires
        burst.len() > 0,
        is_burst(burst),
    ensures
        reload_count(burst) == 0,
        state_after(burst) == (WatcherState::Pending { deadline: burst_deadline(burst) as u64 }),
    decreases burst.len(),
{
    let earlier = burst.drop_last();
    assert(burst.take(burst.len() - 1) =~= earlier);
    assert(is_qualifying_change(burst.last()) && burst.last().in_range());
    if earlier.len() > 0 {
        assert forall|i: int| 0 <= i < earlier.len() implies is_qualifying_change(
            #[trigger] earlier[i],
        ) && earlier[i].in_range() by {
            assert(earlier[i] == burst[i]);
        }
        lemma_burst_pending(earlier);
    }
}

/// A burst of changes brings exactly one reload and publish, and not before
/// the directories have been quiet for the debounce delay.
///
/// While the burst lasts nothing is reloaded, and each change moves the one
/// timer to its own time plus [`DEBOUNCE_MS`]. When the timer then fires, a
/// firing before that last deadline changes nothing, and a firing at or after
/// it calls for the one reload and leaves the watcher idle, so that a further
/// firing calls for none.
pub proof fn lemma_burst_reloads_once(burst: Seq<WatchEvent>, fired_at: u64, again_at: u64)
    requires
        burst.len() > 0,
        is_burst(burst),
    ensures
        reload_count(burst) == 0,
        state_after(burst) == (WatcherState::Pending { deadline: burst_deadline(burst) as u64 }),
        burst_deadline(burst) <= u64::MAX,
        fired_at < burst_deadline(burst) ==> reload_count(then_fired(burst, fired_at)) == 0
            && state_after(then_fired(burst, fired_at)) == state_after(burst),
        fired_at >= burst_deadline(burst) ==> reload_count(then_fired(burst, fired_at)) == 1
            && state_after(then_fired(burst, fired_at)) == WatcherState::Idle,
        fired_at >= burst_deadline(burst) ==> reload_count(
            then_fired(then_fired(burst, fired_at), again_at),
        ) == 1 && state_after(then_fired(then_fired(burst, fired_at), again_at))
            == WatcherState::Idle,
{
    lemma_burst_pending(burst);
    assert(is_qualifying_change(burst.last()) && burst.last().in_range());
    let first = WatchEvent::TimerFired { at: fired_at };
    let fired = burst.push(first);
    lemma_state_after_push(burst, first);
    assert(fired.drop_last() =~= burst);
    let second = WatchEvent::TimerFired { at: again_at };
    let twice = fired.push(second);
    lemma_state_after_push(fired, second);
    assert(twice.drop_last() =~= fired);
}

/// Where a pending timer comes from: the index of the change that set it.
proof fn lemma_pending_origin(events: Seq<WatchEvent>, n: int) -> (j: int)
    requires
        0 <= n <= events.len(),
        forall|i: int| 0 <= i < events.len() ==> (#[trigger] events[i]).in_range(),
        state_after(events.take(n)) is Pending,
    ensures
        0 <= j < n,
        is_qualifying_change(events[j]),
        state_after(events.take(n))->deadline == events[j]->Change_at + DEBOUNCE_MS,
        forall|k: int|
            j < k < n ==> !is_qualifying_change(#[trigger] events[k]) && action_at(events, k)
                != WatchAction::ReloadAndPublish,
    decreases n,
{
    if n == 0 {
        assert(events.take(0) =~= Seq::<WatchEvent>::empty());
        0
    } else {
        lemma_state_after_take(events, n - 1);
        let before = state_after(events.take(n - 1));
        let event = events[n - 1];
        assert(event.in_range());
        if is_qualifying_change(event) {
            n - 1
        } else {
            assert(before is Pending);
            lemma_pending_origin(events, n - 1)
        }
    }
}

/// Every reload follows a quiet period.
///
/// Whatever the watcher is told, in whatever order: when the `i`-th event
/// calls for a reload and publish, that event is the timer firing, some
/// earlier event is a change that calls for a reload, the timer fires no
/// earlier than [`DEBOUNCE_MS`] after the last such change, and since that
/// change nothing else was reloaded.
pub proof fn lemma_reload_follows_quiet_period(events: Seq<WatchEvent>, i: int) -> (j: int)
    requires
        0 <= i < events.len(),
        forall|k: int| 0 <= k < events.len() ==> (#[trigger] events[k]).in_range(),
        action_at(events, i) == WatchAction::ReloadAndPublish,
    ensures
        0 <= j < i,
        is_qualifying_change(events[j]),
        events[i] is TimerFired,
        events[i]->TimerFired_at >= events[j]->Change_at + DEBOUNCE_MS,
        forall|k: int|
            j < k < i ==> !is_qualifying_change(#[trigger] events[k]) && action_at(events, k)
                != WatchAction::ReloadAndPublish,
{
    let before = state_after(events.take(i));
    assert(before is Pending);
    lemma_pending_origin(events, i)
}

/// No failure stops the watcher: an error from the notifier, a refused reload
/// and a reload signal that nobody was subscribed to receive each leave the
/// watcher in the state it was in, with its timer as it was, and waiting.
pub proof fn lemma_failures_are_survived(state: WatcherState, event: WatchEvent)
    requires
        event.is_failure(),
        !(state is Stopped),
    ensures
        next(state, event) == (state, WatchAction::Wait),
{
}

/// Shutdown is final: once the shutdown signal has been taken, every later
/// event is answered with [`WatchAction::Stop`], so nothing more is reloaded
/// or published.
pub proof fn lemma_shutdown_is_final(events: Seq<WatchEvent>, i: int, k: int)
    requires
        0 <= i < k < events.len(),
        events[i] is Shutdown,
    ensures
        state_after(events.take(k)) == WatcherState::Stopped,
        action_at(events, k) == WatchAction::Stop,
    decreases k - i,
{
    lemma_state_after_take(events, k - 1);
    if k - 1 > i {
        lemma_shutdown_is_final(events, i, k - 1);
    }
}

} // verus!
