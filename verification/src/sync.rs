//! The life of one watched item within a generation, as a machine from a
//! state and an event to the next state and an action.
//!
//! The caller performs each action and reports what happened as the next
//! event; the machine never waits or runs anything itself.

use vstd::prelude::*;
use crate::config::NANOS_PER_SEC;
use crate::sync_item::{SyncItem, SyncUpdate, Target};

verus! {

/// How often a failed transfer is tried again before the cycle is given up:
/// once. A cycle therefore invokes the tool at most twice.
pub const MAX_RETRIES: u32 = 1;

/// The fixed part of the pause after a failed attempt, in seconds.
pub const BACKOFF_BASE_SECS: u64 = 4;

/// The part of the pause that grows with each attempt, in seconds.
pub const BACKOFF_STEP_SECS: u64 = 2;

/// What an item is doing.
#[derive(Debug, Clone, Copy, PartialEq, Eq, Structural)]
pub enum Phase {
    /// Waiting for a change.
    Idle,
    /// A change is pending; the transfer starts once the debounce interval
    /// has passed since `since`.
    Debouncing { since: u64 },
    /// The tool is running, for the `attempt`-th time in this cycle.
    Transferring { attempt: u32 },
    /// The `attempt`-th run failed at `since`; pausing before the cycle
    /// goes on or is given up.
    BackingOff { attempt: u32, since: u64 },
    /// The item has returned.
    Stopped,
}

/// What the caller reports to the machine.
#[derive(Debug, Clone, Copy, PartialEq, Eq, Structural)]
pub enum Event {
    /// A change under the watched path, detected at `at`.
    Change { at: u64 },
    /// A wake-up at `now`.
    Tick { now: u64 },
    /// The tool has exited at `now`; `success` is exit code zero.
    Exited { success: bool, now: u64 },
    /// The cancellation signal of the generation is tripped.
    Cancelled,
    /// The notification source has closed.
    Closed,
}

/// What the machine asks of the caller.
#[derive(Debug, Clone, Copy, PartialEq, Eq, Structural)]
pub enum Action {
    /// Wait for the next change, the closing of the source, or cancellation.
    Wait,
    /// As `Wait`, but wake up with a `Tick` once `delay` has passed since
    /// `from`.
    WaitUntil { from: u64, delay: u64 },
    /// Begin a transfer: write the ignore list, run the tool, report how it
    /// exited.
    Transfer,
    /// Keep waiting for the running tool to exit.
    AwaitExit,
    /// Without listening to the source, pause until `delay` has passed
    /// since `from`, or until cancellation, and report a `Tick`.
    Pause { from: u64, delay: u64 },
    /// Run the tool again, and report how it exited.
    Retry,
    /// Trip the cancellation signal of the generation, and return.
    Cancel,
    /// Return.
    Stop,
}

/// The running state of one item.
#[derive(Debug, Clone, Copy, PartialEq, Eq, Structural)]
pub struct Sync {
    pub target: Target,
    /// The debounce interval, in nanoseconds.
    pub debounce: u64,
    /// When the item was last synced: the time it was started at, then the
    /// completion time of its latest successful transfer.
    pub synced: u64,
    /// Whether the notification source has closed: no further change will
    /// come, and the item returns once nothing is pending or running.
    pub closed: bool,
    pub phase: Phase,
}

/// The pause after the `attempt`-th failed run, in nanoseconds: four seconds
/// and two more for each attempt made.
pub open spec fn backoff_nanos(attempt: u32) -> int {
    (BACKOFF_BASE_SECS + BACKOFF_STEP_SECS * attempt) * NANOS_PER_SEC
}

/// At `now`, at least `delay` has passed since `since`.
pub open spec fn due(since: u64, delay: int, now: u64) -> bool {
    now >= since + delay
}

impl Sync {
    /// The item is before a cycle: it is idle, or has a change pending.
    pub open spec fn between_cycles(self) -> bool {
        self.phase is Idle || self.phase is Debouncing
    }

    /// What the item asks for while nothing new happens in its phase. With
    /// a change pending it listens for more, unless the source has closed.
    pub open spec fn standing(self) -> Action {
        match self.phase {
            Phase::Idle => Action::Wait,
            Phase::Debouncing { since } => if self.closed {
                Action::Pause { from: since, delay: self.debounce }
            } else {
                Action::WaitUntil { from: since, delay: self.debounce }
            },
            Phase::Transferring { .. } => Action::AwaitExit,
            Phase::BackingOff { attempt, since } => Action::Pause {
                from: since,
                delay: backoff_nanos(attempt) as u64,
            },
            Phase::Stopped => Action::Stop,
        }
    }

    /// The state with another phase.
    pub open spec fn in_phase(self, phase: Phase) -> Sync {
        Sync { phase, ..self }
    }

    /// The state that knows the source has closed.
    pub open spec fn source_closed(self) -> Sync {
        Sync { closed: true, ..self }
    }

    /// The phase of an item with nothing pending and nothing running: it
    /// waits for the next change, or has returned where none can come.
    pub open spec fn at_rest(self) -> Phase {
        if self.closed {
            Phase::Stopped
        } else {
            Phase::Idle
        }
    }

    /// The state after `event`.
    ///
    /// Between cycles, the item that watches the configuration stops on
    /// any change. An idle project item ignores a change detected before it
    /// was last synced; it starts a transfer at once if the debounce
    /// interval has already passed since then, and otherwise debounces from
    /// the time it was last synced. While it debounces, each further change
    /// moves the start of the interval to the latest detection time, and a
    /// due wake-up starts the transfer. Between cycles, an item stops when
    /// cancelled.
    ///
    /// A running transfer is never interrupted: only its exit counts. A
    /// success makes the exit time the new time of the last sync. A failure
    /// starts a pause; when it is over the tool runs again, unless the
    /// retries are used up: then the cycle is given up and the time of the
    /// last sync stays as it was. A cancellation ends the pause and the
    /// item.
    ///
    /// The closing of the source ends an idle item. It never drops a
    /// pending change nor cuts a cycle short: it is remembered, the wait
    /// and the cycle go on, and the item returns when the cycle has ended,
    /// by success or by giving up.
    ///
    /// Every other event leaves the state as it is.
    pub open spec fn next(self, event: Event) -> Sync {
        match self.phase {
            Phase::Idle => match event {
                Event::Change { at } => if self.target is ConfigReload {
                    self.in_phase(Phase::Stopped)
                } else if at < self.synced {
                    self
                } else if at - self.synced < self.debounce {
                    self.in_phase(Phase::Debouncing { since: self.synced })
                } else {
                    self.in_phase(Phase::Transferring { attempt: 1 })
                },
                Event::Cancelled => self.in_phase(Phase::Stopped),
                Event::Closed => self.source_closed().in_phase(Phase::Stopped),
                _ => self,
            },
            Phase::Debouncing { since } => match event {
                Event::Change { at } => if self.target is ConfigReload {
                    self.in_phase(Phase::Stopped)
                } else if at > since {
                    self.in_phase(Phase::Debouncing { since: at })
                } else {
                    self
                },
                Event::Tick { now } => if due(since, self.debounce as int, now) {
                    self.in_phase(Phase::Transferring { attempt: 1 })
                } else {
                    self
                },
                Event::Cancelled => self.in_phase(Phase::Stopped),
                Event::Closed => self.source_closed(),
                _ => self,
            },
            Phase::Transferring { attempt } => match event {
                Event::Exited { success, now } => if success {
                    Sync { synced: now, phase: self.at_rest(), ..self }
                } else {
                    self.in_phase(Phase::BackingOff { attempt, since: now })
                },
                Event::Closed => self.source_closed(),
                _ => self,
            },
            Phase::BackingOff { attempt, since } => match event {
                Event::Tick { now } => if !due(since, backoff_nanos(attempt), now) {
                    self
                } else if attempt <= MAX_RETRIES {
                    self.in_phase(Phase::Transferring { attempt: (attempt + 1) as u32 })
                } else {
                    self.in_phase(self.at_rest())
                },
                Event::Cancelled => self.in_phase(Phase::Stopped),
                Event::Closed => self.source_closed(),
                _ => self,
            },
            Phase::Stopped => self,
        }
    }

    /// What the machine asks for in answer to `event`: `Cancel` where a
    /// change reaches the item that watches the configuration between cycles,
    /// `Transfer` where a cycle begins, `Retry` where the tool runs again,
    /// and otherwise what the next state stands for.
    pub open spec fn reaction(self, event: Event) -> Action {
        let next = self.next(event);
        if self.between_cycles() && self.target is ConfigReload && event is Change {
            Action::Cancel
        } else if self.between_cycles() && next.phase is Transferring {
            Action::Transfer
        } else if self.phase is BackingOff && next.phase is Transferring {
            Action::Retry
        } else {
            next.standing()
        }
    }

    /// The state of an item that has just subscribed at `now`, before
    /// anything has happened: idle, its source open, and last synced at
    /// `now`.
    pub open spec fn fresh(target: Target, debounce: u64, now: u64) -> Sync {
        Sync { target, debounce, synced: now, closed: false, phase: Phase::Idle }
    }

    /// The state that an item starts in at `now`. One that syncs on start is
    /// handed a change of its own, detected at `now`, before any other
    /// event.
    pub open spec fn started(target: Target, debounce: u64, sync_on_start: bool, now: u64) -> Sync {
        let fresh = Sync::fresh(target, debounce, now);
        if sync_on_start {
            fresh.next(Event::Change { at: now })
        } else {
            fresh
        }
    }

    /// What an item asks for first when it starts at `now`.
    pub open spec fn first_action(
        target: Target,
        debounce: u64,
        sync_on_start: bool,
        now: u64,
    ) -> Action {
        let fresh = Sync::fresh(target, debounce, now);
        if sync_on_start {
            fresh.reaction(Event::Change { at: now })
        } else {
            Action::Wait
        }
    }
}

/// The pause after the `attempt`-th failed run, in nanoseconds.
pub fn backoff(attempt: u32) -> (delay: u64)
    ensures
        delay == backoff_nanos(attempt),
{
    let secs: u64 = BACKOFF_BASE_SECS + BACKOFF_STEP_SECS * (attempt as u64);
    secs * NANOS_PER_SEC
}

/// Whether, at `now`, at least `delay` has passed since `since`.
pub fn is_due(since: u64, delay: u64, now: u64) -> (is_due: bool)
    ensures
        is_due == due(since, delay as int, now),
{
    now >= since && now - since >= delay
}

impl Sync {
    /// Starts `item` at `now`, the time at which its subscription stands.
    /// Returns the state and the first action.
    pub fn start(item: &SyncItem, now: u64) -> (begun: (Sync, Action))
        ensures
            begun.0 == Sync::started(item.target, item.debounce, item.sync_on_start, now),
            begun.1 == Sync::first_action(item.target, item.debounce, item.sync_on_start, now),
    {
        let mut state = Sync {
            target: item.target,
            debounce: item.debounce,
            synced: now,
            closed: false,
            phase: Phase::Idle,
        };
        if item.sync_on_start {
            let action = state.step(Event::Change { at: now });
            (state, action)
        } else {
            (state, Action::Wait)
        }
    }

    /// What the item asks for while nothing new happens in its phase.
    pub fn pending(&self) -> (action: Action)
        ensures
            action == self.standing(),
    {
        match self.phase {
            Phase::Idle => Action::Wait,
            Phase::Debouncing { since } => {
                if self.closed {
                    Action::Pause { from: since, delay: self.debounce }
                } else {
                    Action::WaitUntil { from: since, delay: self.debounce }
                }
            },
            Phase::Transferring { .. } => Action::AwaitExit,
            Phase::BackingOff { attempt, since } => Action::Pause { from: since, delay: backoff(attempt) },
            Phase::Stopped => Action::Stop,
        }
    }

    /// Whether the item has returned.
    pub fn is_stopped(&self) -> (stopped: bool)
        ensures
            stopped == (self.phase is Stopped),
    {
        match self.phase {
            Phase::Stopped => true,
            _ => false,
        }
    }

    /// The phase of an item with nothing pending and nothing running.
    pub fn resting(&self) -> (phase: Phase)
        ensures
            phase == self.at_rest(),
    {
        if self.closed {
            Phase::Stopped
        } else {
            Phase::Idle
        }
    }

    /// Takes `event`: moves to the next state and returns what to do.
    pub fn step(&mut self, event: Event) -> (action: Action)
        ensures
            *final(self) == old(self).next(event),
            action == old(self).reaction(event),
    {
        match self.phase {
            Phase::Idle => match event {
                Event::Change { at } => match self.target {
                    Target::ConfigReload => {
                        self.phase = Phase::Stopped;
                        Action::Cancel
                    },
                    Target::Project => {
                        if at < self.synced {
                            Action::Wait
                        } else if at - self.synced < self.debounce {
                            self.phase = Phase::Debouncing { since: self.synced };
                            self.pending()
                        } else {
                            self.phase = Phase::Transferring { attempt: 1 };
                            Action::Transfer
                        }
                    },
                },
                Event::Cancelled => {
                    self.phase = Phase::Stopped;
                    Action::Stop
                },
                Event::Closed => {
                    self.closed = true;
                    self.phase = Phase::Stopped;
                    Action::Stop
                },
                _ => Action::Wait,
            },
            Phase::Debouncing { since } => match event {
                Event::Change { at } => match self.target {
                    Target::ConfigReload => {
                        self.phase = Phase::Stopped;
                        Action::Cancel
                    },
                    Target::Project => {
                        if at > since {
                            self.phase = Phase::Debouncing { since: at };
                        }
                        self.pending()
                    },
                },
                Event::Tick { now } => {
                    if is_due(since, self.debounce, now) {
                        self.phase = Phase::Transferring { attempt: 1 };
                        Action::Transfer
                    } else {
                        self.pending()
                    }
                },
                Event::Cancelled => {
                    self.phase = Phase::Stopped;
                    Action::Stop
                },
                Event::Closed => {
                    self.closed = true;
                    self.pending()
                },
                _ => self.pending(),
            },
            Phase::Transferring { attempt } => match event {
                Event::Exited { success, now } => {
                    if success {
                        self.synced = now;
                        self.phase = self.resting();
                    } else {
                        self.phase = Phase::BackingOff { attempt, since: now };
                    }
                    self.pending()
                },
                Event::Closed => {
                    self.closed = true;
                    Action::AwaitExit
                },
                _ => Action::AwaitExit,
            },
            Phase::BackingOff { attempt, since } => match event {
                Event::Tick { now } => {
                    if !is_due(since, backoff(attempt), now) {
                        self.pending()
                    } else if attempt <= MAX_RETRIES {
                        self.phase = Phase::Transferring { attempt: attempt + 1 };
                        Action::Retry
                    } else {
                        self.phase = self.resting();
                        self.pending()
                    }
                },
                Event::Cancelled => {
                    self.phase = Phase::Stopped;
                    Action::Stop
                },
                Event::Closed => {
                    self.closed = true;
                    self.pending()
                },
                _ => self.pending(),
            },
            Phase::Stopped => Action::Stop,
        }
    }

    /// Takes a change notification: one step of the machine on a change
    /// detected at the notification's time.
    pub fn process_update_event(&mut self, update: &SyncUpdate) -> (action: Action)
        ensures
            *final(self) == old(self).next(Event::Change { at: update.update }),
            action == old(self).reaction(Event::Change { at: update.update }),
    {
        self.step(Event::Change { at: update.update })
    }
}

} // verus!
