//! What an item does over a whole sequence of events, and the laws of the
//! machine that hold for every such sequence.

use vstd::prelude::*;
use crate::sync::{backoff_nanos, due, Action, Event, Phase, Sync, MAX_RETRIES};
use crate::sync_item::Target;

verus! {

impl Sync {
    /// The state after all of `events`, taken in order.
    pub open spec fn run(self, events: Seq<Event>) -> Sync
        decreases events.len(),
    {
        if events.len() == 0 {
            self
        } else {
            self.run(events.drop_last()).next(events.last())
        }
    }

    /// The answers to `events`, one for each.
    pub open spec fn reactions(self, events: Seq<Event>) -> Seq<Action> {
        Seq::new(events.len(), |k: int| self.run(events.take(k)).reaction(events[k]))
    }

    /// How many of the answers to `events` are `action`.
    pub open spec fn occurrences(self, events: Seq<Event>, action: Action) -> nat
        decreases events.len(),
    {
        if events.len() == 0 {
            0
        } else {
            let before = events.drop_last();
            let here: nat = if self.run(before).reaction(events.last()) == action {
                1
            } else {
                0
            };
            self.occurrences(before, action) + here
        }
    }

    /// How many transfers `events` begin.
    pub open spec fn transfers(self, events: Seq<Event>) -> nat {
        self.occurrences(events, Action::Transfer)
    }

    /// How many times `events` make the tool run again after a failure.
    pub open spec fn retries(self, events: Seq<Event>) -> nat {
        self.occurrences(events, Action::Retry)
    }

    /// Takes `events` in order. Returns the answer to each.
    pub fn replay(&mut self, events: &Vec<Event>) -> (actions: Vec<Action>)
        ensures
            *final(self) == old(self).run(events@),
            actions@ == old(self).reactions(events@),
    {
        let ghost first = *self;
        let mut actions: Vec<Action> = Vec::new();
        let mut i: usize = 0;
        while i < events.len()
            invariant
                i <= events.len(),
                *self == first.run(events@.take(i as int)),
                actions@ == first.reactions(events@.take(i as int)),
            decreases events.len() - i,
        {
            let action = self.step(events[i]);
            actions.push(action);
            proof {
                let seen = events@.take(i as int);
                let more = events@.take(i + 1);
                assert(forall|k: int| 0 <= k < more.len() ==> #[trigger] more.take(k) == events@.take(k));
                assert(forall|k: int| 0 <= k < seen.len() ==> #[trigger] seen.take(k) == events@.take(k));
            }
            i += 1;
        }
        proof {
            assert(events@.take(i as int) =~= events@);
        }
        actions
    }
}

/// None of the events is a change.
pub open spec fn quiet(events: Seq<Event>) -> bool {
    forall|k: int| 0 <= k < events.len() ==> !(#[trigger] events[k] is Change)
}

/// The changes detected at `times`, in order.
pub open spec fn changes(times: Seq<u64>) -> Seq<Event> {
    Seq::new(times.len(), |k: int| Event::Change { at: times[k] })
}

/// A burst: at least one detection time, in order, each less than
/// `debounce` after the one before.
pub open spec fn burst(times: Seq<u64>, debounce: u64) -> bool {
    &&& times.len() >= 1
    &&& forall|k: int|
        1 <= k < times.len() ==> times[k - 1] <= #[trigger] times[k] && times[k] - times[k - 1]
            < debounce
}

/// Where the debounce interval starts once the burst `times` has reached an
/// idle item last synced at `synced`: at `synced` after a single change, at
/// the latest detection time after more.
pub open spec fn quiet_from(synced: u64, times: Seq<u64>) -> u64 {
    if times.len() == 1 {
        synced
    } else {
        times.last()
    }
}

/// What an item sees of a tool that fails once for each entry of `fails`:
/// the exit at the entry's first time, then the wake-up at its second.
pub open spec fn failures(fails: Seq<(u64, u64)>) -> Seq<Event>
    decreases fails.len(),
{
    if fails.len() == 0 {
        Seq::empty()
    } else {
        failures(fails.drop_last()).push(Event::Exited { success: false, now: fails.last().0 }).push(
            Event::Tick { now: fails.last().1 },
        )
    }
}

/// Each wake-up in `fails` comes when the pause after its failure is over.
pub open spec fn punctual(fails: Seq<(u64, u64)>) -> bool {
    forall|k: int|
        0 <= k < fails.len() ==> due(
            (#[trigger] fails[k]).0,
            backoff_nanos((k + 1) as u32),
            fails[k].1,
        )
}

/// Taking two sequences of events one after the other is taking them as
/// one.
pub proof fn lemma_run_split(s: Sync, first: Seq<Event>, then: Seq<Event>, action: Action)
    ensures
        s.run(first + then) == s.run(first).run(then),
        s.occurrences(first + then, action) == s.occurrences(first, action) + s.run(
            first,
        ).occurrences(then, action),
    decreases then.len(),
{
    if then.len() > 0 {
        lemma_run_split(s, first, then.drop_last(), action);
        assert((first + then).drop_last() =~= first + then.drop_last());
    }
}

/// One event taken alone.
pub proof fn lemma_run_one(s: Sync, event: Event, action: Action)
    ensures
        s.run(seq![event]) == s.next(event),
        s.occurrences(seq![event], action) == if s.reaction(event) == action {
            1nat
        } else {
            0nat
        },
{
    let one = seq![event];
    assert(s.run(one.drop_last()) == s);
    assert(s.occurrences(one.drop_last(), action) == 0);
}

/// An item that has no change pending begins no transfer until a change
/// comes.
pub proof fn lemma_quiet_begins_nothing(s: Sync, events: Seq<Event>)
    requires
        !(s.phase is Debouncing),
        quiet(events),
    ensures
        !(s.run(events).phase is Debouncing),
        s.transfers(events) == 0,
    decreases events.len(),
{
    if events.len() > 0 {
        lemma_quiet_begins_nothing(s, events.drop_last());
    }
}

/// An item with a change pending begins at most one transfer until another
/// change comes, and none while the change is still pending.
pub proof fn lemma_quiet_begins_one(s: Sync, events: Seq<Event>)
    requires
        s.phase is Debouncing,
        quiet(events),
    ensures
        s.transfers(events) <= 1,
        s.run(events).phase is Debouncing ==> s.transfers(events) == 0,
    decreases events.len(),
{
    if events.len() > 0 {
        lemma_quiet_begins_one(s, events.drop_last());
    }
}

/// An item that does not sync on start begins no transfer as long as no
/// change comes, whatever else happens.
pub proof fn lemma_start_idle(target: Target, debounce: u64, now: u64, events: Seq<Event>)
    requires
        quiet(events),
    ensures
        Sync::started(target, debounce, false, now) == Sync::fresh(target, debounce, now),
        Sync::first_action(target, debounce, false, now) == Action::Wait,
        Sync::started(target, debounce, false, now).transfers(events) == 0,
{
    lemma_quiet_begins_nothing(Sync::fresh(target, debounce, now), events);
}

/// A project item that syncs on start begins exactly one transfer without
/// any change from outside: at once where there is no debounce interval,
/// and otherwise at the first wake-up after the interval, counted from the
/// start. Until a change comes it begins no other.
pub proof fn lemma_start_syncing(debounce: u64, now: u64, wake: u64, events: Seq<Event>)
    requires
        quiet(events),
        due(now, debounce as int, wake),
    ensures
        ({
            let started = Sync::started(Target::Project, debounce, true, now);
            let first = Sync::first_action(Target::Project, debounce, true, now);
            let fresh = Sync::fresh(Target::Project, debounce, now);
            if debounce == 0 {
                &&& first == Action::Transfer
                &&& started == fresh.in_phase(Phase::Transferring { attempt: 1 })
                &&& started.transfers(events) == 0
            } else {
                &&& first == Action::WaitUntil { from: now, delay: debounce }
                &&& started == fresh.in_phase(Phase::Debouncing { since: now })
                &&& started.transfers(events) <= 1
                &&& started.transfers(seq![Event::Tick { now: wake }] + events) == 1
            }
        }),
{
    let started = Sync::started(Target::Project, debounce, true, now);
    if debounce == 0 {
        lemma_quiet_begins_nothing(started, events);
    } else {
        let tick = Event::Tick { now: wake };
        lemma_quiet_begins_one(started, events);
        lemma_run_split(started, seq![tick], events, Action::Transfer);
        lemma_run_one(started, tick, Action::Transfer);
        lemma_quiet_begins_nothing(started.next(tick), events);
    }
}

/// A wake-up that comes before the debounce interval is over changes
/// nothing: the item goes on waiting for the same moment.
pub proof fn lemma_early_wake_up(s: Sync, since: u64, now: u64)
    requires
        s.phase == (Phase::Debouncing { since }),
        !due(since, s.debounce as int, now),
    ensures
        s.next(Event::Tick { now }) == s,
        s.reaction(Event::Tick { now }) == s.standing(),
{
}

/// A burst that reaches an idle project item less than the debounce
/// interval after its last sync, its changes one after the other, is
/// coalesced: no transfer begins while the burst comes in, and at its end
/// one change is pending, with the interval counted from `quiet_from`.
pub proof fn lemma_burst_pending(s: Sync, times: Seq<u64>)
    requires
        s.target is Project,
        s.phase is Idle,
        burst(times, s.debounce),
        s.synced <= times[0],
        times[0] - s.synced < s.debounce,
    ensures
        s.run(changes(times)) == s.in_phase(
            Phase::Debouncing { since: quiet_from(s.synced, times) },
        ),
        s.transfers(changes(times)) == 0,
        s.retries(changes(times)) == 0,
        s.synced <= quiet_from(s.synced, times),
        times.len() > 1 ==> quiet_from(s.synced, times) >= times[0],
    decreases times.len(),
{
    let events = changes(times);
    if times.len() == 1 {
        assert(s.run(events.drop_last()) == s);
        assert(s.occurrences(events.drop_last(), Action::Transfer) == 0);
        assert(s.occurrences(events.drop_last(), Action::Retry) == 0);
    } else {
        let front = times.drop_last();
        assert(burst(front, s.debounce));
        lemma_burst_pending(s, front);
        assert(events.drop_last() =~= changes(front));
    }
}

/// A burst of changes yields exactly one transfer. After a burst as in
/// `lemma_burst_pending`, a wake-up begins the transfer exactly when the
/// debounce interval has passed since `quiet_from`; and the events of the
/// burst, a due wake-up, and whatever follows without a change begin one
/// transfer in all.
pub proof fn lemma_burst_coalesces(
    s: Sync,
    times: Seq<u64>,
    now: u64,
    wake: u64,
    rest: Seq<Event>,
)
    requires
        s.target is Project,
        s.phase is Idle,
        burst(times, s.debounce),
        s.synced <= times[0],
        times[0] - s.synced < s.debounce,
        due(quiet_from(s.synced, times), s.debounce as int, wake),
        quiet(rest),
    ensures
        s.run(changes(times)).reaction(Event::Tick { now }) == Action::Transfer <==> due(
            quiet_from(s.synced, times),
            s.debounce as int,
            now,
        ),
        s.transfers(changes(times) + seq![Event::Tick { now: wake }] + rest) == 1,
{
    let pending = s.run(changes(times));
    let tick = Event::Tick { now: wake };
    lemma_burst_pending(s, times);
    lemma_run_split(s, changes(times) + seq![tick], rest, Action::Transfer);
    lemma_run_split(s, changes(times), seq![tick], Action::Transfer);
    lemma_run_one(pending, tick, Action::Transfer);
    lemma_quiet_begins_nothing(pending.next(tick), rest);
}

/// The one transfer of a burst begins no earlier than the debounce interval
/// after the burst's first change, where the burst has more than one change
/// or its first change is detected at the very time of the last sync.
pub proof fn lemma_burst_waits(s: Sync, times: Seq<u64>, now: u64)
    requires
        s.target is Project,
        s.phase is Idle,
        burst(times, s.debounce),
        s.synced <= times[0],
        times[0] - s.synced < s.debounce,
        times.len() > 1 || times[0] == s.synced,
        s.run(changes(times)).reaction(Event::Tick { now }) == Action::Transfer,
    ensures
        now >= times[0] + s.debounce,
        now >= times.last() + s.debounce,
{
    lemma_burst_pending(s, times);
}

/// While the retries last, each failure of the tool is answered with a
/// pause and each punctual wake-up with another run: after as many
/// failures as `fails` has entries the tool runs for the next time, and
/// the time of the last sync has not moved.
pub proof fn lemma_failures_retry(s: Sync, fails: Seq<(u64, u64)>)
    requires
        s.phase == (Phase::Transferring { attempt: 1 }),
        fails.len() <= MAX_RETRIES,
        punctual(fails),
    ensures
        s.run(failures(fails)) == s.in_phase(
            Phase::Transferring { attempt: (fails.len() + 1) as u32 },
        ),
        s.retries(failures(fails)) == fails.len(),
        s.transfers(failures(fails)) == 0,
    decreases fails.len(),
{
    if fails.len() > 0 {
        let front = fails.drop_last();
        let exit = Event::Exited { success: false, now: fails.last().0 };
        let tick = Event::Tick { now: fails.last().1 };
        assert(punctual(front));
        lemma_failures_retry(s, front);
        let before = s.run(failures(front));
        assert(failures(fails) =~= failures(front) + seq![exit] + seq![tick]);
        lemma_run_split(s, failures(front) + seq![exit], seq![tick], Action::Retry);
        lemma_run_one(before, exit, Action::Retry);
        lemma_run_one(before.next(exit), tick, Action::Retry);
        lemma_run_split(s, failures(front) + seq![exit], seq![tick], Action::Transfer);
        lemma_run_one(before, exit, Action::Transfer);
        lemma_run_one(before.next(exit), tick, Action::Transfer);
    }
}

/// A tool that fails no more often than there are retries, and then
/// succeeds at `done`, leaves the item at rest and last synced at `done`.
/// The tool has run once more than it failed, and the success is answered
/// with a plain wait, or with the item's return where its source has
/// closed: nothing is retried after it.
pub proof fn lemma_retry_succeeds(s: Sync, fails: Seq<(u64, u64)>, done: u64)
    requires
        s.phase == (Phase::Transferring { attempt: 1 }),
        fails.len() <= MAX_RETRIES,
        punctual(fails),
    ensures
        ({
            let exit = Event::Exited { success: true, now: done };
            &&& s.run(failures(fails).push(exit)) == Sync { synced: done, phase: s.at_rest(), ..s }
            &&& s.run(failures(fails)).reaction(exit) == if s.closed {
                Action::Stop
            } else {
                Action::Wait
            }
            &&& s.retries(failures(fails).push(exit)) == fails.len()
        }),
{
    let exit = Event::Exited { success: true, now: done };
    lemma_failures_retry(s, fails);
    assert(failures(fails).push(exit) =~= failures(fails) + seq![exit]);
    lemma_run_split(s, failures(fails), seq![exit], Action::Retry);
    lemma_run_one(s.run(failures(fails)), exit, Action::Retry);
}

/// A tool that fails more often than there are retries is given up after
/// the failure that uses them up: the item is at rest again, the time of
/// its last sync is what it was, and the tool has run once more than there
/// are retries. So, while the source is open, a later change, detected at
/// or after that time, is taken up as any other.
pub proof fn lemma_retry_gives_up(s: Sync, fails: Seq<(u64, u64)>, at: u64)
    requires
        s.phase == (Phase::Transferring { attempt: 1 }),
        fails.len() > MAX_RETRIES,
        punctual(fails),
        s.target is Project,
        at >= s.synced,
    ensures
        ({
            let seen = failures(fails.take(MAX_RETRIES + 1));
            let change = Event::Change { at };
            &&& s.run(seen) == s.in_phase(s.at_rest())
            &&& s.retries(seen) == MAX_RETRIES
            &&& s.transfers(seen) == 0
            &&& !s.closed ==> s.run(seen).next(change) == s.run(seen).in_phase(
                if at - s.synced < s.debounce {
                    Phase::Debouncing { since: s.synced }
                } else {
                    Phase::Transferring { attempt: 1 }
                },
            )
        }),
{
    let observed = fails.take(MAX_RETRIES + 1);
    let front = observed.drop_last();
    let exit = Event::Exited { success: false, now: observed.last().0 };
    let tick = Event::Tick { now: observed.last().1 };
    assert(punctual(front));
    lemma_failures_retry(s, front);
    let before = s.run(failures(front));
    assert(failures(observed) =~= failures(front) + seq![exit] + seq![tick]);
    lemma_run_split(s, failures(front) + seq![exit], seq![tick], Action::Retry);
    lemma_run_split(s, failures(front), seq![exit], Action::Retry);
    lemma_run_one(before, exit, Action::Retry);
    lemma_run_one(before.next(exit), tick, Action::Retry);
    lemma_run_split(s, failures(front) + seq![exit], seq![tick], Action::Transfer);
    lemma_run_split(s, failures(front), seq![exit], Action::Transfer);
    lemma_run_one(before, exit, Action::Transfer);
    lemma_run_one(before.next(exit), tick, Action::Transfer);
}

/// How far a cycle has come, for an item that is in one: the tool has run
/// again once for each attempt after the first, and never more often than
/// there are retries.
pub open spec fn within_cap(s: Sync, retries: nat) -> bool {
    match s.phase {
        Phase::Transferring { attempt } => 1 <= attempt <= MAX_RETRIES + 1 && retries == attempt - 1,
        Phase::BackingOff { attempt, .. } => 1 <= attempt <= MAX_RETRIES + 1 && retries == attempt
            - 1,
        Phase::Debouncing { .. } => false,
        _ => retries <= MAX_RETRIES,
    }
}

/// The attempts of a cycle are capped: however the tool exits and whenever
/// the item is woken, one cycle runs the tool again at most as often as
/// there are retries, and begins no other transfer until a change comes.
pub proof fn lemma_cycle_capped(s: Sync, events: Seq<Event>)
    requires
        s.phase == (Phase::Transferring { attempt: 1 }),
        quiet(events),
    ensures
        within_cap(s.run(events), s.retries(events)),
        s.retries(events) <= MAX_RETRIES,
        s.transfers(events) == 0,
    decreases events.len(),
{
    if events.len() > 0 {
        lemma_cycle_capped(s, events.drop_last());
    }
}

/// The closing of the source drops no pending change. The item that
/// debounces goes on waiting for the same moment, without listening any
/// more; the due wake-up begins the transfer as it would have; and the item
/// returns only with the end of that cycle: here, with the success at
/// `done`. The closing, the due wake-up, and whatever follows without a
/// change begin exactly one transfer.
pub proof fn lemma_closing_keeps_pending(
    s: Sync,
    since: u64,
    wake: u64,
    done: u64,
    rest: Seq<Event>,
)
    requires
        s.phase == (Phase::Debouncing { since }),
        due(since, s.debounce as int, wake),
        quiet(rest),
    ensures
        ({
            let tick = Event::Tick { now: wake };
            let exit = Event::Exited { success: true, now: done };
            let closed = s.next(Event::Closed);
            &&& closed == s.source_closed()
            &&& s.reaction(Event::Closed) == (Action::Pause { from: since, delay: s.debounce })
            &&& closed.reaction(tick) == Action::Transfer
            &&& closed.next(tick) == closed.in_phase(Phase::Transferring { attempt: 1 })
            &&& closed.next(tick).reaction(exit) == Action::Stop
            &&& closed.next(tick).next(exit) == Sync { synced: done, phase: Phase::Stopped, ..closed }
            &&& s.transfers(seq![Event::Closed, tick] + rest) == 1
        }),
{
    let tick = Event::Tick { now: wake };
    let closed = s.next(Event::Closed);
    assert(seq![Event::Closed, tick] =~= seq![Event::Closed] + seq![tick]);
    lemma_run_split(s, seq![Event::Closed, tick], rest, Action::Transfer);
    lemma_run_split(s, seq![Event::Closed], seq![tick], Action::Transfer);
    lemma_run_one(s, Event::Closed, Action::Transfer);
    lemma_run_one(closed, tick, Action::Transfer);
    lemma_quiet_begins_nothing(closed.next(tick), rest);
}

/// The closing of the source interrupts nothing: it ends an item that is
/// idle, and is only remembered by one that has a change pending, runs the
/// tool, or pauses. Once it is remembered, the item returns instead of
/// going back to waiting for changes.
pub proof fn lemma_closing_interrupts_nothing(s: Sync)
    ensures
        s.phase is Idle ==> s.next(Event::Closed).phase is Stopped && s.reaction(Event::Closed)
            == Action::Stop,
        !(s.phase is Idle) && !(s.phase is Stopped) ==> {
            &&& s.next(Event::Closed) == s.source_closed()
            &&& s.reaction(Event::Closed) == s.source_closed().standing()
            &&& s.source_closed().at_rest() == Phase::Stopped
        },
        s.phase is Stopped ==> s.next(Event::Closed) == s,
{
}

/// The time of the last sync moves only when a running transfer exits with
/// success, and then to the time of the exit. No failure, pause,
/// cancellation or change moves it. What the item watches and its debounce
/// interval never change, and a source that has closed stays closed.
pub proof fn lemma_synced_moves_on_success(s: Sync, event: Event)
    ensures
        s.next(event).synced == match event {
            Event::Exited { success: true, now } if s.phase is Transferring => now,
            _ => s.synced,
        },
        s.next(event).target == s.target,
        s.next(event).debounce == s.debounce,
        s.closed ==> s.next(event).closed,
{
}

/// A change on the configuration file is a signal and nothing else: the
/// item that watches the file answers any change that reaches it between
/// cycles, whenever it was detected, by tripping the cancellation and
/// stopping.
pub proof fn lemma_reload_trips(s: Sync, at: u64)
    requires
        s.target is ConfigReload,
        s.between_cycles(),
    ensures
        s.reaction(Event::Change { at }) == Action::Cancel,
        s.next(Event::Change { at }).phase is Stopped,
{
}

/// The item that watches the configuration file never runs the tool,
/// whatever happens: it stays idle until it stops.
pub proof fn lemma_reload_never_transfers(debounce: u64, now: u64, events: Seq<Event>)
    ensures
        ({
            let s = Sync::started(Target::ConfigReload, debounce, false, now);
            &&& s.run(events).target is ConfigReload
            &&& s.run(events).phase is Idle || s.run(events).phase is Stopped
            &&& s.transfers(events) == 0
            &&& s.retries(events) == 0
        }),
    decreases events.len(),
{
    if events.len() > 0 {
        lemma_reload_never_transfers(debounce, now, events.drop_last());
    }
}

/// An item that has stopped stays stopped and asks for nothing more.
pub proof fn lemma_stopped_is_final(s: Sync, events: Seq<Event>)
    requires
        s.phase is Stopped,
    ensures
        s.run(events) == s,
        s.transfers(events) == 0,
        s.retries(events) == 0,
        forall|k: int| 0 <= k < events.len() ==> #[trigger] s.reactions(events)[k] == Action::Stop,
    decreases events.len(),
{
    if events.len() > 0 {
        lemma_stopped_is_final(s, events.drop_last());
        assert forall|k: int| 0 <= k < events.len() implies #[trigger] s.reactions(events)[k]
            == Action::Stop by {
            lemma_stopped_is_final(s, events.take(k));
        }
    }
}

/// Cancellation ends an item at its next suspension point. An item that is
/// not running the tool stops at once, and the tool never runs for it
/// again. One that is running the tool lets it finish; however it exits, no
/// run follows the exit directly, and the cancellation then stops the item.
pub proof fn lemma_cancel_stops(s: Sync, exit: Event, later: Seq<Event>)
    requires
        exit is Exited,
    ensures
        !(s.phase is Transferring) ==> {
            &&& s.next(Event::Cancelled).phase is Stopped
            &&& s.transfers(seq![Event::Cancelled] + later) == 0
            &&& s.retries(seq![Event::Cancelled] + later) == 0
        },
        s.phase is Transferring ==> {
            let trail = seq![Event::Cancelled, exit, Event::Cancelled];
            &&& s.next(Event::Cancelled) == s
            &&& s.reaction(Event::Cancelled) == Action::AwaitExit
            &&& !(s.next(exit).phase is Transferring)
            &&& s.run(trail).phase is Stopped
            &&& s.transfers(trail + later) == 0
            &&& s.retries(trail + later) == 0
        },
{
    let cancel = Event::Cancelled;
    if s.phase is Transferring {
        let trail = seq![cancel, exit, cancel];
        assert(trail =~= seq![cancel] + seq![exit] + seq![cancel]);
        let a = s.next(cancel);
        let b = a.next(exit);
        let c = b.next(cancel);
        lemma_run_split(s, seq![cancel] + seq![exit], seq![cancel], Action::Transfer);
        lemma_run_split(s, seq![cancel], seq![exit], Action::Transfer);
        lemma_run_one(s, cancel, Action::Transfer);
        lemma_run_one(a, exit, Action::Transfer);
        lemma_run_one(b, cancel, Action::Transfer);
        lemma_run_split(s, seq![cancel] + seq![exit], seq![cancel], Action::Retry);
        lemma_run_split(s, seq![cancel], seq![exit], Action::Retry);
        lemma_run_one(s, cancel, Action::Retry);
        lemma_run_one(a, exit, Action::Retry);
        lemma_run_one(b, cancel, Action::Retry);
        lemma_run_split(s, trail, later, Action::Transfer);
        lemma_run_split(s, trail, later, Action::Retry);
        lemma_stopped_is_final(c, later);
    } else {
        lemma_run_split(s, seq![cancel], later, Action::Transfer);
        lemma_run_split(s, seq![cancel], later, Action::Retry);
        lemma_run_one(s, cancel, Action::Transfer);
        lemma_run_one(s, cancel, Action::Retry);
        lemma_stopped_is_final(s.next(cancel), later);
    }
}

} // verus!
