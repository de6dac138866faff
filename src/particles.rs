use vstd::prelude::*;
use rand::Rng;

verus! {

/// Life of a fresh particle, in milliseconds (one second).
pub const FULL_LIFE: i64 = 1000;

/// Gravity, 200 units/s², as the change of velocity (micro-units/s) per millisecond.
pub const GRAVITY_PER_MS: i64 = 200_000;

/// Lowest launch speed, in milli-units per second (50 units/s).
pub const SPEED_MIN: u64 = 50_000;

/// Bound above launch speeds, in milli-units per second (150 units/s), excluded.
pub const SPEED_MAX: u64 = 150_000;

/// Scale of a heading's components: a unit direction has length about this.
pub const HEADING_SCALE: i64 = 1000;

/// Largest size of a velocity component at launch, in micro-units per second.
pub const LAUNCH_VELOCITY_BOUND: i64 = 150_000_000;

/// Largest velocity component a living particle can reach, in micro-units per second.
pub const VELOCITY_BOUND: i64 = 350_000_000;

/// Largest size of a burst origin's coordinates, in nano-units.
pub const ORIGIN_BOUND: i64 = 1_000_000_000_000_000_000;

/// Radius of a drawn particle, in nano-units (4 units).
pub const DOT_RADIUS: i64 = 4_000_000_000;

/// Number of palette colors.
pub const PALETTE_LEN: u64 = 5;

#[derive(Debug, Clone, Copy, PartialEq, Eq)]
pub struct Rgb {
    pub r: u8,
    pub g: u8,
    pub b: u8,
}

/// A launch direction, each component in thousandths (a unit vector scaled by
/// [`HEADING_SCALE`]).
#[derive(Debug, Clone, Copy, PartialEq, Eq)]
pub struct Heading {
    pub dx: i64,
    pub dy: i64,
}

/// One simulated particle. Positions are in nano-units, velocities in micro-units
/// per second, life in milliseconds.
#[derive(Debug, Clone, Copy, PartialEq, Eq)]
pub struct Particle {
    pub x: i64,
    pub y: i64,
    pub vx: i64,
    pub vy: i64,
    pub color: Rgb,
    pub life: i64,
}

/// What the host draws for one particle: position, color, opacity and radius.
#[derive(Debug, Clone, Copy, PartialEq, Eq)]
pub struct Dot {
    pub x: i64,
    pub y: i64,
    pub color: Rgb,
    pub alpha: u8,
    pub radius: i64,
}

/// The celebration's particles.
pub struct ParticleSystem {
    pub particles: Vec<Particle>,
}

impl Heading {
    pub open spec fn wf(self) -> bool {
        -HEADING_SCALE <= self.dx <= HEADING_SCALE && -HEADING_SCALE <= self.dy <= HEADING_SCALE
    }
}

impl Particle {
    /// Alive, and within the bounds that a particle launched from an origin in range
    /// keeps for the rest of its life.
    pub open spec fn wf(self) -> bool {
        let aged = FULL_LIFE - self.life;
        &&& 0 < self.life <= FULL_LIFE
        &&& -LAUNCH_VELOCITY_BOUND <= self.vx <= LAUNCH_VELOCITY_BOUND
        &&& -LAUNCH_VELOCITY_BOUND <= self.vy <= LAUNCH_VELOCITY_BOUND + GRAVITY_PER_MS * aged
        &&& -ORIGIN_BOUND - VELOCITY_BOUND * aged <= self.x <= ORIGIN_BOUND + VELOCITY_BOUND * aged
        &&& -ORIGIN_BOUND - VELOCITY_BOUND * aged <= self.y <= ORIGIN_BOUND + VELOCITY_BOUND * aged
    }
}

impl ParticleSystem {
    pub open spec fn wf(self) -> bool {
        forall|i: int| 0 <= i < self.particles@.len() ==> #[trigger] self.particles@[i].wf()
    }
}

/// The palette: red, yellow, green, blue, magenta.
pub open spec fn palette(k: int) -> Rgb {
    if k == 0 {
        Rgb { r: 255, g: 0, b: 0 }
    } else if k == 1 {
        Rgb { r: 255, g: 255, b: 0 }
    } else if k == 2 {
        Rgb { r: 0, g: 255, b: 0 }
    } else if k == 3 {
        Rgb { r: 0, g: 0, b: 255 }
    } else {
        Rgb { r: 255, g: 0, b: 255 }
    }
}

/// A fresh particle at the origin, moving along `h` at `speed` (milli-units/s).
pub open spec fn launched(ox: i64, oy: i64, h: Heading, speed: int, k: int) -> Particle {
    Particle {
        x: ox,
        y: oy,
        vx: (h.dx * speed) as i64,
        vy: (h.dy * speed) as i64,
        color: palette(k),
        life: FULL_LIFE,
    }
}

/// `p` is a launch from the origin along `h`, at some speed in range and in some
/// palette color.
pub open spec fn is_launch(p: Particle, ox: i64, oy: i64, h: Heading) -> bool {
    exists|s: int, k: int|
        #![trigger launched(ox, oy, h, s, k)]
        SPEED_MIN <= s < SPEED_MAX && 0 <= k < PALETTE_LEN && p == launched(ox, oy, h, s, k)
}

/// `p` after `dt` milliseconds of ballistic motion under gravity.
pub open spec fn moved(p: Particle, dt: int) -> Particle {
    Particle {
        x: (p.x + p.vx * dt) as i64,
        y: (p.y + p.vy * dt) as i64,
        vx: p.vx,
        vy: (p.vy + GRAVITY_PER_MS * dt) as i64,
        color: p.color,
        life: (p.life - dt) as i64,
    }
}

/// The particles of `ps` that outlive `dt` milliseconds, each moved, in order.
pub open spec fn advanced(ps: Seq<Particle>, dt: int) -> Seq<Particle>
    decreases ps.len(),
{
    if ps.len() == 0 {
        seq![]
    } else if ps.last().life - dt > 0 {
        advanced(ps.drop_last(), dt).push(moved(ps.last(), dt))
    } else {
        advanced(ps.drop_last(), dt)
    }
}

/// Opacity for a remaining life: `round(life * 255)` of the life in seconds,
/// clamped to `[0, 255]`.
pub open spec fn alpha_of(life: int) -> int {
    let a = (life * 255 + (FULL_LIFE / 2) as int) / (FULL_LIFE as int);
    if a < 0 {
        0
    } else if a > 255 {
        255
    } else {
        a
    }
}

pub open spec fn dot_of(p: Particle) -> Dot {
    Dot { x: p.x, y: p.y, color: p.color, alpha: alpha_of(p.life as int) as u8, radius: DOT_RADIUS }
}

/// How many particles of `ps` have more than `dt` milliseconds of life left.
pub open spec fn outliving(ps: Seq<Particle>, dt: int) -> nat
    decreases ps.len(),
{
    if ps.len() == 0 {
        0
    } else {
        outliving(ps.drop_last(), dt) + if ps.last().life - dt > 0 {
            1nat
        } else {
            0nat
        }
    }
}

/// Advancing by `dt` keeps exactly the particles whose life stays above zero: every
/// one left is alive, none that outlives `dt` is lost, and the count never grows.
pub proof fn lemma_advance_removes_expired(ps: Seq<Particle>, dt: int)
    requires
        dt > 0,
        forall|i: int| 0 <= i < ps.len() ==> #[trigger] ps[i].wf(),
    ensures
        advanced(ps, dt).len() == outliving(ps, dt),
        advanced(ps, dt).len() <= ps.len(),
        forall|i: int| 0 <= i < advanced(ps, dt).len() ==> #[trigger] advanced(ps, dt)[i].life > 0,
    decreases ps.len(),
{
    if ps.len() > 0 {
        let rest = ps.drop_last();
        assert forall|i: int| 0 <= i < rest.len() implies #[trigger] rest[i].wf() by {
            assert(rest[i] == ps[i]);
        }
        lemma_advance_removes_expired(rest, dt);
        assert(ps[ps.len() - 1].wf());
    }
}

/// Relies on rand's `Rng::gen_range` on the thread-local generator: a value drawn
/// from `[lo, hi)`. It panics on an empty range, hence `lo < hi`.
#[verifier::external_body]
fn draw_in(lo: u64, hi: u64) -> (r: u64)
    requires
        lo < hi,
    ensures
        lo <= r < hi,
{
    rand::thread_rng().gen_range(lo..hi)
}

/// The palette color of index `k`.
pub fn palette_color(k: u64) -> (r: Rgb)
    requires
        k < PALETTE_LEN,
    ensures
        r == palette(k as int),
{
    if k == 0 {
        Rgb { r: 255, g: 0, b: 0 }
    } else if k == 1 {
        Rgb { r: 255, g: 255, b: 0 }
    } else if k == 2 {
        Rgb { r: 0, g: 255, b: 0 }
    } else if k == 3 {
        Rgb { r: 0, g: 0, b: 255 }
    } else {
        Rgb { r: 255, g: 0, b: 255 }
    }
}

/// A fresh particle at the origin, moving along `h` at `speed` (milli-units/s), in
/// palette color `k`.
pub fn launch(ox: i64, oy: i64, h: Heading, speed: u64, k: u64) -> (p: Particle)
    requires
        -ORIGIN_BOUND <= ox <= ORIGIN_BOUND,
        -ORIGIN_BOUND <= oy <= ORIGIN_BOUND,
        h.wf(),
        SPEED_MIN <= speed < SPEED_MAX,
        k < PALETTE_LEN,
    ensures
        p == launched(ox, oy, h, speed as int, k as int),
        p.wf(),
{
    proof {
        lemma_heading_times_speed(h.dx as int, speed as int);
        lemma_heading_times_speed(h.dy as int, speed as int);
    }
    let s = speed as i64;
    Particle { x: ox, y: oy, vx: h.dx * s, vy: h.dy * s, color: palette_color(k), life: FULL_LIFE }
}

proof fn lemma_heading_times_speed(d: int, s: int)
    requires
        -HEADING_SCALE <= d <= HEADING_SCALE,
        0 <= s < SPEED_MAX,
    ensures
        -LAUNCH_VELOCITY_BOUND <= d * s <= LAUNCH_VELOCITY_BOUND,
{
    assert(-1000 * s <= d * s <= 1000 * s) by (nonlinear_arith)
        requires
            -1000 <= d <= 1000,
            0 <= s,
    ;
}

/// Moving a living particle by less than its remaining life keeps it within bounds.
proof fn lemma_moved_wf(p: Particle, dt: int)
    requires
        p.wf(),
        0 < dt < p.life,
    ensures
        moved(p, dt).wf(),
        -VELOCITY_BOUND * dt <= p.vx * dt <= VELOCITY_BOUND * dt,
        -VELOCITY_BOUND * dt <= p.vy * dt <= VELOCITY_BOUND * dt,
{
    let aged = FULL_LIFE - p.life;
    assert(p.vy <= VELOCITY_BOUND) by (nonlinear_arith)
        requires
            p.vy <= LAUNCH_VELOCITY_BOUND + GRAVITY_PER_MS * aged,
            0 <= aged < FULL_LIFE,
    ;
    assert(-VELOCITY_BOUND * dt <= p.vx * dt <= VELOCITY_BOUND * dt) by (nonlinear_arith)
        requires
            -VELOCITY_BOUND <= p.vx <= VELOCITY_BOUND,
            0 < dt,
    ;
    assert(-VELOCITY_BOUND * dt <= p.vy * dt <= VELOCITY_BOUND * dt) by (nonlinear_arith)
        requires
            -VELOCITY_BOUND <= p.vy <= VELOCITY_BOUND,
            0 < dt,
    ;
}

/// The particles of `ps` that outlive `dt`, moved.
fn advance_all(ps: &Vec<Particle>, dt: u64) -> (r: Vec<Particle>)
    requires
        dt > 0,
        forall|i: int| 0 <= i < ps@.len() ==> #[trigger] ps@[i].wf(),
    ensures
        r@ == advanced(ps@, dt as int),
        forall|i: int| 0 <= i < r@.len() ==> #[trigger] r@[i].wf(),
{
    let mut kept: Vec<Particle> = Vec::new();
    let mut i: usize = 0;
    while i < ps.len()
        invariant
            0 <= i <= ps@.len(),
            dt > 0,
            forall|j: int| 0 <= j < ps@.len() ==> #[trigger] ps@[j].wf(),
            kept@ == advanced(ps@.subrange(0, i as int), dt as int),
            forall|j: int| 0 <= j < kept@.len() ==> #[trigger] kept@[j].wf(),
        decreases ps@.len() - i,
    {
        let p = ps[i];
        assert(ps@.subrange(0, i + 1).drop_last() =~= ps@.subrange(0, i as int));
        assert(ps@.subrange(0, i + 1).last() == p);
        if (p.life as u64) > dt {
            let d = dt as i64;
            proof {
                assert(ps@[i as int].wf());
                lemma_moved_wf(p, d as int);
            }
            let q = Particle {
                x: p.x + p.vx * d,
                y: p.y + p.vy * d,
                vx: p.vx,
                vy: p.vy + GRAVITY_PER_MS * d,
                color: p.color,
                life: p.life - d,
            };
            assert(q == moved(p, dt as int));
            kept.push(q);
        }
        i = i + 1;
    }
    assert(ps@.subrange(0, ps@.len() as int) =~= ps@);
    kept
}

impl ParticleSystem {
    /// An empty system.
    pub fn new() -> (r: Self)
        ensures
            r.particles@.len() == 0,
            r.wf(),
    {
        ParticleSystem { particles: Vec::new() }
    }

    /// Number of live particles.
    pub fn len(&self) -> (r: usize)
        ensures
            r == self.particles@.len(),
    {
        self.particles.len()
    }

    /// Advances every particle by `dt` milliseconds and removes those whose life
    /// runs out.
    pub fn advance(&mut self, dt: u64)
        requires
            old(self).wf(),
            dt > 0,
        ensures
            final(self).particles@ == advanced(old(self).particles@, dt as int),
            final(self).wf(),
    {
        let kept = advance_all(&self.particles, dt);
        self.particles = kept;
    }

    /// Appends one particle per heading, launched from the origin at a random speed
    /// in `[SPEED_MIN, SPEED_MAX)` and in a random palette color.
    pub fn spawn_burst(&mut self, origin_x: i64, origin_y: i64, headings: &Vec<Heading>)
        requires
            old(self).wf(),
            -ORIGIN_BOUND <= origin_x <= ORIGIN_BOUND,
            -ORIGIN_BOUND <= origin_y <= ORIGIN_BOUND,
            forall|i: int| 0 <= i < headings@.len() ==> #[trigger] headings@[i].wf(),
        ensures
            final(self).wf(),
            final(self).particles@.len() == old(self).particles@.len() + headings@.len(),
            final(self).particles@.subrange(0, old(self).particles@.len() as int)
                == old(self).particles@,
            forall|i: int|
                0 <= i < headings@.len() ==> is_launch(
                    #[trigger] final(self).particles@[old(self).particles@.len() + i],
                    origin_x,
                    origin_y,
                    headings@[i],
                ),
    {
        let ghost start = self.particles@;
        let mut i: usize = 0;
        while i < headings.len()
            invariant
                0 <= i <= headings@.len(),
                -ORIGIN_BOUND <= origin_x <= ORIGIN_BOUND,
                -ORIGIN_BOUND <= origin_y <= ORIGIN_BOUND,
                forall|j: int| 0 <= j < headings@.len() ==> #[trigger] headings@[j].wf(),
                self.wf(),
                self.particles@.len() == start.len() + i,
                self.particles@.subrange(0, start.len() as int) == start,
                forall|j: int|
                    0 <= j < i ==> is_launch(
                        #[trigger] self.particles@[start.len() + j],
                        origin_x,
                        origin_y,
                        headings@[j],
                    ),
            decreases headings@.len() - i,
        {
            let h = headings[i];
            assert(headings@[i as int].wf());
            let speed = draw_in(SPEED_MIN, SPEED_MAX);
            let k = draw_in(0, PALETTE_LEN);
            let p = launch(origin_x, origin_y, h, speed, k);
            self.particles.push(p);
            assert(self.particles@.subrange(0, start.len() as int) =~= start);
            assert(is_launch(p, origin_x, origin_y, h)) by {
                assert(launched(origin_x, origin_y, h, speed as int, k as int) == p);
            }
            i = i + 1;
        }
    }

    /// Keeps a celebration going: when fewer than `target` particles are left, spawns
    /// a burst of `target` more, one per heading; otherwise changes nothing.
    pub fn maintain(&mut self, target: usize, origin_x: i64, origin_y: i64, headings: &Vec<Heading>)
        requires
            old(self).wf(),
            headings@.len() == target,
            -ORIGIN_BOUND <= origin_x <= ORIGIN_BOUND,
            -ORIGIN_BOUND <= origin_y <= ORIGIN_BOUND,
            forall|i: int| 0 <= i < headings@.len() ==> #[trigger] headings@[i].wf(),
        ensures
            final(self).wf(),
            final(self).particles@.len() >= target,
            old(self).particles@.len() >= target ==> final(self).particles@ == old(self).particles@,
            old(self).particles@.len() < target ==> {
                &&& final(self).particles@.len() == old(self).particles@.len() + target
                &&& final(self).particles@.subrange(0, old(self).particles@.len() as int)
                    == old(self).particles@
                &&& forall|i: int|
                    0 <= i < target ==> is_launch(
                        #[trigger] final(self).particles@[old(self).particles@.len() + i],
                        origin_x,
                        origin_y,
                        headings@[i],
                    )
            },
    {
        if self.particles.len() < target {
            self.spawn_burst(origin_x, origin_y, headings);
        }
    }

    /// Empties the system at once.
    pub fn clear(&mut self)
        ensures
            final(self).particles@.len() == 0,
            final(self).wf(),
    {
        self.particles = Vec::new();
    }

    /// What to draw this frame, one dot per particle, in order.
    pub fn snapshot(&self) -> (r: Vec<Dot>)
        requires
            self.wf(),
        ensures
            r@.len() == self.particles@.len(),
            forall|i: int| 0 <= i < r@.len() ==> #[trigger] r@[i] == dot_of(self.particles@[i]),
    {
        let mut dots: Vec<Dot> = Vec::new();
        let mut i: usize = 0;
        while i < self.particles.len()
            invariant
                0 <= i <= self.particles@.len(),
                self.wf(),
                dots@.len() == i,
                forall|j: int| 0 <= j < i ==> #[trigger] dots@[j] == dot_of(self.particles@[j]),
            decreases self.particles@.len() - i,
        {
            let p = self.particles[i];
            assert(self.particles@[i as int].wf());
            let a = (p.life * 255 + FULL_LIFE / 2) / FULL_LIFE;
            assert(0 <= a <= 255) by (nonlinear_arith)
                requires
                    0 < p.life <= 1000,
                    a == (p.life * 255 + 500) / 1000,
            ;
            dots.push(Dot { x: p.x, y: p.y, color: p.color, alpha: a as u8, radius: DOT_RADIUS });
            i = i + 1;
        }
        dots
    }
}

} // verus!
