use clock_floater::overlay::{Overlay, BURST, ORIGIN_X, ORIGIN_Y};
use clock_floater::particles::Heading;

fn headings() -> Vec<Heading> {
    (0..BURST as i64)
        .map(|i| Heading { dx: 1000 - 40 * i, dy: -500 + 20 * i })
        .collect()
}

#[test]
fn expiry_starts_celebration_and_refill_keeps_it_full() {
    let hs = headings();
    let mut o = Overlay::new();
    o.start(0, 0);
    assert!(o.wants_frames());
    assert!(o.frame(1000, &hs).is_some());
    assert!(o.celebrating);
    assert!(!o.clock.running);
    assert!(o.particles.len() >= BURST);
    let mut t = 1000;
    let mut saw_refill = false;
    for _ in 0..300 {
        t += 16;
        assert!(o.frame(t, &hs).is_none());
        assert!(o.particles.len() >= BURST);
        // a particle one frame old can only come from a refill
        if o.particles.particles.iter().any(|p| p.life == 984) {
            saw_refill = true;
        }
    }
    assert!(saw_refill);
    o.cancel_celebration();
    assert!(!o.celebrating);
    assert_eq!(o.particles.len(), 0);
    assert!(!o.wants_frames());
    t += 16;
    assert!(o.frame(t, &hs).is_none());
    assert_eq!(o.particles.len(), 0);
}

#[test]
fn burst_starts_at_overlay_center() {
    let hs = headings();
    let mut o = Overlay::new();
    o.start(1, 0);
    assert!(o.frame(500, &hs).is_none());
    assert_eq!(o.particles.len(), 0);
    assert!(o.frame(1000, &hs).is_some());
    assert_eq!(o.particles.len(), BURST);
    let p = o.particles.particles[0];
    assert_eq!(p.x, ORIGIN_X + p.vx * 16);
    assert_eq!(p.y, ORIGIN_Y + (p.vy - 200_000 * 16) * 16);
    assert_eq!(p.life, 984);
}

#[test]
fn commands_reach_the_clock() {
    let hs = headings();
    let mut o = Overlay::new();
    o.start(10, 0);
    assert!(o.frame(3000, &hs).is_none());
    assert_eq!(o.clock.formatted_time(), "00:00:07");
    o.stop();
    assert!(!o.wants_frames());
    assert!(o.frame(9000, &hs).is_none());
    assert_eq!(o.clock.remaining, 7);
    o.reset();
    assert_eq!(o.clock.remaining, 0);
    assert_eq!(o.clock.formatted_time(), "00:00:00");
}
