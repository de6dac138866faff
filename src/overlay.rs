use vstd::prelude::*;
use crate::countdown::{CountdownEngine, ExpiredEvent, expires_on, idle, started, stopped, ticked};
use crate::particles::{Heading, ParticleSystem, advanced};

verus! {

/// Particles in one burst, and the count below which a celebration refills.
pub const BURST: usize = 50;

/// Simulated time per frame, in milliseconds (about 60 frames a second).
pub const FRAME_MS: u64 = 16;

/// Where bursts start: the middle of the overlay, (150, 110) units, in nano-units.
pub const ORIGIN_X: i64 = 150_000_000_000;

pub const ORIGIN_Y: i64 = 110_000_000_000;

/// Everything the overlay's frame loop keeps between frames.
pub struct Overlay {
    pub clock: CountdownEngine,
    pub particles: ParticleSystem,
    /// From the alarm until the user cancels the celebration.
    pub celebrating: bool,
}

impl Overlay {
    pub open spec fn wf(self) -> bool {
        &&& self.clock.wf()
        &&& self.particles.wf()
        &&& !self.celebrating ==> self.particles.particles@.len() == 0
    }

    /// An idle overlay: clock at zero, no celebration.
    pub fn new() -> (r: Self)
        ensures
            r.wf(),
            r.clock == idle(),
            !r.celebrating,
    {
        Overlay { clock: CountdownEngine::new(), particles: ParticleSystem::new(), celebrating: false }
    }

    /// Starts a countdown of `total` seconds at `now`.
    pub fn start(&mut self, total: u64, now: u64)
        requires
            old(self).wf(),
        ensures
            final(self).wf(),
            final(self).clock == started(total, now),
            final(self).celebrating == old(self).celebrating,
            final(self).particles.particles@ == old(self).particles.particles@,
    {
        self.clock.start(total, now);
    }

    /// Pauses the countdown.
    pub fn stop(&mut self)
        requires
            old(self).wf(),
        ensures
            final(self).wf(),
            final(self).clock == stopped(old(self).clock),
            final(self).celebrating == old(self).celebrating,
            final(self).particles.particles@ == old(self).particles.particles@,
    {
        self.clock.stop();
    }

    /// Returns the clock to zero.
    pub fn reset(&mut self)
        requires
            old(self).wf(),
        ensures
            final(self).wf(),
            final(self).clock == idle(),
            final(self).celebrating == old(self).celebrating,
            final(self).particles.particles@ == old(self).particles.particles@,
    {
        self.clock.reset();
    }

    /// Ends the celebration and removes its particles at once.
    pub fn cancel_celebration(&mut self)
        requires
            old(self).wf(),
        ensures
            final(self).wf(),
            !final(self).celebrating,
            final(self).particles.particles@.len() == 0,
            final(self).clock == old(self).clock,
    {
        self.celebrating = false;
        self.particles.clear();
    }

    /// Whether the host must keep asking for frames.
    pub fn wants_frames(&self) -> (r: bool)
        ensures
            r == (self.clock.running || self.celebrating),
    {
        self.clock.running || self.celebrating
    }

    /// One display frame at time `now`. Ticks the clock; on expiry starts the
    /// celebration with a burst. While celebrating, advances the particles by one
    /// frame and refills with a burst when fewer than [`BURST`] are left. Returns the
    /// expiry event for the host to sound the alarm. `headings` give the directions
    /// of any burst spawned.
    pub fn frame(&mut self, now: u64, headings: &Vec<Heading>) -> (r: Option<ExpiredEvent>)
        requires
            old(self).wf(),
            headings@.len() == BURST,
            forall|i: int| 0 <= i < headings@.len() ==> #[trigger] headings@[i].wf(),
        ensures
            final(self).wf(),
            final(self).clock == ticked(old(self).clock, now),
            r.is_some() == expires_on(old(self).clock, now),
            final(self).celebrating == (old(self).celebrating || r.is_some()),
            final(self).celebrating ==> final(self).particles.particles@.len() >= BURST,
            !final(self).celebrating ==> final(self).particles.particles@ == old(
                self,
            ).particles.particles@,
            old(self).celebrating && r.is_none() && advanced(
                old(self).particles.particles@,
                FRAME_MS as int,
            ).len() >= BURST ==> final(self).particles.particles@ == advanced(
                old(self).particles.particles@,
                FRAME_MS as int,
            ),
    {
        let ev = self.clock.tick(now);
        if ev.is_some() {
            self.celebrating = true;
            self.particles.spawn_burst(ORIGIN_X, ORIGIN_Y, headings);
        }
        if self.celebrating {
            self.particles.advance(FRAME_MS);
            self.particles.maintain(BURST, ORIGIN_X, ORIGIN_Y, headings);
        }
        ev
    }
}

} // verus!
