use vstd::prelude::*;
use crate::clock_text::{format_hms, hms};

verus! {

/// Raised by [`CountdownEngine::tick`] when a run reaches zero; the host answers it
/// by sounding the alarm.
#[derive(Debug, Clone, Copy, PartialEq, Eq)]
pub struct ExpiredEvent;

/// Milliseconds in one second of the host's monotonic clock.
pub const MILLIS_PER_SEC: u64 = 1000;

/// The countdown state machine. Timestamps are milliseconds of a monotonic clock
/// supplied by the host.
#[derive(Debug, Clone, Copy, PartialEq, Eq)]
pub struct CountdownEngine {
    /// Whole seconds left.
    pub remaining: u64,
    /// True only while counting down.
    pub running: bool,
    /// When `remaining` was last decremented (or the run started); `None` when stopped.
    pub last_tick: Option<u64>,
    /// Set once the expiry of the current run has been reported.
    pub alarm_fired: bool,
}

impl CountdownEngine {
    /// A clock is stamped exactly while it runs.
    pub open spec fn wf(self) -> bool {
        self.running == self.last_tick.is_some()
    }
}

/// The engine as it is created: idle at zero.
pub open spec fn idle() -> CountdownEngine {
    CountdownEngine { remaining: 0, running: false, last_tick: None, alarm_fired: false }
}

/// The engine after `start(total)` at time `now`.
pub open spec fn started(total: u64, now: u64) -> CountdownEngine {
    CountdownEngine { remaining: total, running: true, last_tick: Some(now), alarm_fired: false }
}

/// The engine after `stop`: remaining time is kept.
pub open spec fn stopped(e: CountdownEngine) -> CountdownEngine {
    CountdownEngine { running: false, last_tick: None, ..e }
}

/// Whole seconds from `last` to `now`; a partial second is dropped, and a clock
/// that went backwards counts as no time.
pub open spec fn elapsed_secs(last: u64, now: u64) -> nat {
    if now >= last {
        ((now - last) as nat) / (MILLIS_PER_SEC as nat)
    } else {
        0
    }
}

/// Whole seconds the running engine `e` would consume at `now`.
pub open spec fn pending_secs(e: CountdownEngine, now: u64) -> nat {
    match e.last_tick {
        Some(last) => elapsed_secs(last, now),
        None => 0,
    }
}

/// The engine after one `tick(now)`.
pub open spec fn ticked(e: CountdownEngine, now: u64) -> CountdownEngine {
    let el = pending_secs(e, now);
    if !e.running || el < 1 {
        e
    } else if el < e.remaining {
        CountdownEngine { remaining: (e.remaining - el) as u64, last_tick: Some(now), ..e }
    } else {
        CountdownEngine { remaining: 0, running: false, last_tick: None, alarm_fired: true }
    }
}

/// Whether `tick(now)` on `e` reports expiry.
pub open spec fn expires_on(e: CountdownEngine, now: u64) -> bool {
    e.running && pending_secs(e, now) >= 1 && pending_secs(e, now) >= e.remaining
        && !e.alarm_fired
}

/// The engine after ticking at each time of `nows` in turn.
pub open spec fn run(e: CountdownEngine, nows: Seq<u64>) -> CountdownEngine
    decreases nows.len(),
{
    if nows.len() == 0 {
        e
    } else {
        ticked(run(e, nows.drop_last()), nows.last())
    }
}

/// How many of the ticks at `nows` report expiry.
pub open spec fn expiry_count(e: CountdownEngine, nows: Seq<u64>) -> nat
    decreases nows.len(),
{
    if nows.len() == 0 {
        0
    } else {
        expiry_count(e, nows.drop_last()) + if expires_on(run(e, nows.drop_last()), nows.last()) {
            1nat
        } else {
            0nat
        }
    }
}

impl CountdownEngine {
    /// An idle engine at zero.
    pub fn new() -> (r: Self)
        ensures
            r == idle(),
            r.wf(),
    {
        CountdownEngine { remaining: 0, running: false, last_tick: None, alarm_fired: false }
    }

    /// Starts a run of `total` seconds at `now`. A zero run expires on the next tick.
    pub fn start(&mut self, total: u64, now: u64)
        ensures
            *final(self) == started(total, now),
            final(self).wf(),
    {
        self.remaining = total;
        self.running = true;
        self.last_tick = Some(now);
        self.alarm_fired = false;
    }

    /// Pauses the countdown, keeping the remaining time.
    pub fn stop(&mut self)
        ensures
            *final(self) == stopped(*old(self)),
            final(self).wf(),
    {
        self.running = false;
        self.last_tick = None;
    }

    /// Stops and returns to zero, ready for a fresh run.
    pub fn reset(&mut self)
        ensures
            *final(self) == idle(),
            final(self).wf(),
    {
        self.remaining = 0;
        self.running = false;
        self.last_tick = None;
        self.alarm_fired = false;
    }

    /// Advances the countdown to `now` by the whole seconds elapsed since the last
    /// decrement. Returns the expiry event the first time a run reaches zero.
    pub fn tick(&mut self, now: u64) -> (r: Option<ExpiredEvent>)
        requires
            old(self).wf(),
        ensures
            *final(self) == ticked(*old(self), now),
            r.is_some() == expires_on(*old(self), now),
            final(self).wf(),
    {
        if !self.running {
            return None;
        }
        let last = match self.last_tick {
            Some(t) => t,
            None => {
                return None;
            },
        };
        let elapsed: u64 = if now >= last {
            (now - last) / MILLIS_PER_SEC
        } else {
            0
        };
        if elapsed == 0 {
            return None;
        }
        if elapsed < self.remaining {
            self.remaining = self.remaining - elapsed;
            self.last_tick = Some(now);
            None
        } else {
            self.remaining = 0;
            self.running = false;
            self.last_tick = None;
            if !self.alarm_fired {
                self.alarm_fired = true;
                Some(ExpiredEvent)
            } else {
                None
            }
        }
    }

    /// The remaining time as `HH:MM:SS`.
    pub fn formatted_time(&self) -> (r: String)
        ensures
            r@ == hms(self.remaining as nat),
    {
        format_hms(self.remaining)
    }
}

/// Starting a run of `total` seconds shows exactly `total` as `HH:MM:SS`.
pub proof fn lemma_start_shows_total(total: u64, now: u64)
    ensures
        hms(started(total, now).remaining as nat) == hms(total as nat),
{
}

/// Ticking never adds time: after any sequence of ticks the remaining time is at
/// most what it was.
pub proof fn lemma_remaining_never_increases(e: CountdownEngine, nows: Seq<u64>)
    ensures
        run(e, nows).remaining <= e.remaining,
    decreases nows.len(),
{
    if nows.len() > 0 {
        lemma_remaining_never_increases(e, nows.drop_last());
    }
}

/// Over any sequence of ticks the expiry event fires once if the alarm went from
/// unfired to fired, and never otherwise; a fired alarm stays fired.
pub proof fn lemma_expiry_reported_once(e: CountdownEngine, nows: Seq<u64>)
    ensures
        e.alarm_fired ==> run(e, nows).alarm_fired,
        expiry_count(e, nows) == if !e.alarm_fired && run(e, nows).alarm_fired {
            1nat
        } else {
            0nat
        },
    decreases nows.len(),
{
    if nows.len() > 0 {
        lemma_expiry_reported_once(e, nows.drop_last());
    }
}

/// From `start`, the run reports expiry at most once over any later ticks, and it
/// has reported it exactly when the countdown has reached zero and stopped.
pub proof fn lemma_run_expires_once(total: u64, t0: u64, nows: Seq<u64>)
    ensures
        expiry_count(started(total, t0), nows) <= 1,
        expiry_count(started(total, t0), nows) == 1 <==> run(started(total, t0), nows).alarm_fired,
        run(started(total, t0), nows).alarm_fired ==> run(started(total, t0), nows).remaining == 0
            && !run(started(total, t0), nows).running,
    decreases nows.len(),
{
    lemma_expiry_reported_once(started(total, t0), nows);
    lemma_fired_means_finished(started(total, t0), nows);
}

/// Once fired, the alarm implies a finished run, and ticks keep it that way.
proof fn lemma_fired_means_finished(e: CountdownEngine, nows: Seq<u64>)
    requires
        e.alarm_fired ==> e.remaining == 0 && !e.running,
    ensures
        run(e, nows).alarm_fired ==> run(e, nows).remaining == 0 && !run(e, nows).running,
    decreases nows.len(),
{
    if nows.len() > 0 {
        lemma_fired_means_finished(e, nows.drop_last());
    }
}

} // verus!
