use pendulum::fixed::{fx_add, fx_div, fx_mul, FX_ONE};
use pendulum::integrator::tick_pendulum;
use pendulum::model::{DoublePendulum, SimulationConfig, Vec2Fx, FX_SEG_LEN};
use pendulum::registry::SimulationRegistry;
use pendulum::schedule::FixedStepper;
use pendulum::trail::{TrailBuffer, TrailTimer, FX_TRAIL_PERIOD, TRAIL_CAP};
use pendulum::trig::{cos_fx, sin_fx, FX_HALF_PI, FX_PI, FX_TWO_PI};

const DT: i64 = 10_000; // 0.01 time units

#[test]
fn sin_at_zero() {
    assert_eq!(sin_fx(0), 0);
}

#[test]
fn sin_quarter_turn() {
    assert_eq!(sin_fx(FX_HALF_PI), 999_844);
    assert_eq!(sin_fx(-FX_HALF_PI), -999_843);
}

#[test]
fn sin_half_turn() {
    assert_eq!(sin_fx(FX_PI), 0);
}

#[test]
fn sin_small_angles() {
    assert_eq!(sin_fx(100_000), 99_834);
    assert_eq!(sin_fx(123_456), 123_143);
    assert_eq!(sin_fx(-123_456), -123_142);
}

#[test]
fn sin_periodicity() {
    assert_eq!(sin_fx(123_456 + FX_TWO_PI), sin_fx(123_456));
    assert_eq!(sin_fx(10_000_000), -544_020);
}

#[test]
fn cos_values() {
    assert_eq!(cos_fx(0), 999_844);
    assert_eq!(cos_fx(FX_HALF_PI), 0);
    assert_eq!(cos_fx(FX_PI), -999_843);
}

#[test]
fn fx_mul_exact() {
    // 1.5 * 2.0 == 3.0
    assert_eq!(fx_mul(1_500_000, 2_000_000), Some(3_000_000));
    // 3.3 * -2.0 == -6.6
    assert_eq!(fx_mul(3_300_000, -2_000_000), Some(-6_600_000));
}

#[test]
fn fx_mul_floor_rounding() {
    // a tiny negative product rounds toward negative infinity
    assert_eq!(fx_mul(-1, 1), Some(-1));
    assert_eq!(fx_mul(1, 1), Some(0));
}

#[test]
fn fx_div_exact_and_floor() {
    assert_eq!(fx_div(1_000_000, 3_000_000), Some(333_333));
    assert_eq!(fx_div(-1_000_000, 3_000_000), Some(-333_334));
}

#[test]
fn fx_add_overflow_is_none() {
    assert_eq!(fx_add(i64::MAX, 1), None);
    assert_eq!(fx_add(1, 2), Some(3));
}

#[test]
fn spawn_state() {
    let p = DoublePendulum::with_angles(100_000, 200_000, 7);
    assert_eq!(p.inner.length, FX_SEG_LEN);
    assert_eq!(p.outer.length, FX_SEG_LEN);
    assert_eq!(p.inner.angle, 100_000);
    assert_eq!(p.outer.angle, 200_000);
    assert_eq!(p.inner.velocity, 0);
    assert_eq!(p.outer.velocity, 0);
    assert_eq!(p.inner.acceleration, 0);
    assert_eq!(p.outer.acceleration, 0);
    assert_eq!(p.traits.mass, FX_ONE);
    assert_eq!(p.traits.color_tag, 7);
    assert_eq!(p.trail.len(), 0);
    assert_eq!(p.outer.start_pos, p.inner.end_pos);
}

#[test]
fn one_tick_gravity_pull() {
    // both angles 0.1, unit masses, dt 0.01, no damping: gravity pulls
    // the inner segment toward hanging straight down, and with equal
    // angles the outer acceleration is exactly zero.
    let mut p = DoublePendulum::with_angles(100_000, 100_000, 0);
    tick_pendulum(&mut p, DT, false);
    assert!(p.inner.velocity < 0);
    assert_eq!(p.inner.velocity, -979);
    assert_eq!(p.inner.acceleration, -97_831);
    assert_eq!(p.inner.angle, 99_990);
    assert_eq!(p.outer.acceleration, 0);
    assert_eq!(p.outer.velocity, 0);
    assert_eq!(p.outer.angle, 100_000);
    // chain constraint after the tick
    assert_eq!(p.outer.start_pos, p.inner.end_pos);
    assert_eq!(p.inner.end_pos, Vec2Fx { x: 19_964_800, y: -198_983_800 });
    assert_eq!(p.outer.end_pos, Vec2Fx { x: 39_931_600, y: -397_967_400 });
}

#[test]
fn rest_equilibrium_tick() {
    // hanging straight down at rest stays exactly at rest
    for damping in [false, true] {
        let mut p = DoublePendulum::with_angles(0, 0, 0);
        tick_pendulum(&mut p, DT, damping);
        assert_eq!(p.inner.angle, 0);
        assert_eq!(p.outer.angle, 0);
        assert_eq!(p.inner.velocity, 0);
        assert_eq!(p.outer.velocity, 0);
        assert_eq!(p.inner.acceleration, 0);
        assert_eq!(p.outer.acceleration, 0);
    }
}

#[test]
fn determinism_two_runs() {
    let mut a = DoublePendulum::with_angles(1_234_567, 2_345_678, 1);
    let mut b = DoublePendulum::with_angles(1_234_567, 2_345_678, 2);
    for _ in 0..100 {
        tick_pendulum(&mut a, DT, false);
        tick_pendulum(&mut b, DT, false);
        assert_eq!(a.inner, b.inner);
        assert_eq!(a.outer, b.outer);
    }
}

#[test]
fn hundred_tick_trajectory() {
    let mut p = DoublePendulum::with_angles(1_234_567, 2_345_678, 0);
    for _ in 0..100 {
        tick_pendulum(&mut p, DT, false);
        assert_eq!(p.outer.start_pos, p.inner.end_pos);
    }
    assert_eq!(p.inner.angle, 839_398);
    assert_eq!(p.inner.velocity, -704_282);
    assert_eq!(p.outer.angle, 2_095_423);
    assert_eq!(p.outer.velocity, -650_684);
    assert_eq!(p.inner.end_pos, Vec2Fx { x: 148_848_200, y: -133_582_200 });
    assert_eq!(p.outer.end_pos, Vec2Fx { x: 321_949_600, y: -33_404_400 });
}

#[test]
fn damping_first_tick_equal() {
    // out of rest the damping torque is zero, so the first tick agrees
    let mut d = DoublePendulum::with_angles(300_000, 150_000, 0);
    let mut u = DoublePendulum::with_angles(300_000, 150_000, 0);
    tick_pendulum(&mut d, DT, true);
    tick_pendulum(&mut u, DT, false);
    assert_eq!(d.inner, u.inner);
    assert_eq!(d.outer, u.outer);
}

#[test]
fn damping_slows_inner_velocity() {
    // over a short horizon from rest, the damped inner velocity never
    // exceeds the undamped one in magnitude
    let mut d = DoublePendulum::with_angles(100_000, 50_000, 0);
    let mut u = DoublePendulum::with_angles(100_000, 50_000, 0);
    for _ in 0..50 {
        tick_pendulum(&mut d, DT, true);
        tick_pendulum(&mut u, DT, false);
        assert!(d.inner.velocity.abs() <= u.inner.velocity.abs());
    }
    assert_eq!(d.inner.velocity, -64_037);
    assert_eq!(u.inner.velocity, -65_678);
}

#[test]
fn reset_scenario() {
    let mut reg = SimulationRegistry::new();
    reg.spawn_many(10);
    assert_eq!(reg.count(), 10);
    reg.reset_all();
    assert_eq!(reg.count(), 0);
}

#[test]
fn trail_eviction() {
    // 150 samples leave exactly the 100 newest, oldest first
    let mut t = TrailBuffer::new();
    for i in 0..150i64 {
        t.push_sample(Vec2Fx { x: i, y: -i });
        assert!(t.len() <= TRAIL_CAP);
    }
    assert_eq!(t.len(), 100);
    let held = t.positions();
    // the first retained sample is the 51st ever inserted (index 50)
    assert_eq!(held[0], Vec2Fx { x: 50, y: -50 });
    assert_eq!(held[99], Vec2Fx { x: 149, y: -149 });
}

#[test]
fn trail_sampling_via_timer() {
    let mut reg = SimulationRegistry::new();
    reg.spawn_with(100_000, 100_000, 0);
    reg.tick_all(DT, false);
    // a frame shorter than the period samples nothing
    reg.sample_trails(FX_TRAIL_PERIOD - 1);
    assert_eq!(reg.get(0).trail.len(), 0);
    // completing the period samples the tip position once
    reg.sample_trails(1);
    assert_eq!(reg.get(0).trail.len(), 1);
    let tip = reg.get(0).outer.end_pos;
    assert_eq!(reg.get(0).trail.positions()[0], tip);
}

#[test]
fn trail_eviction_via_registry() {
    let mut reg = SimulationRegistry::new();
    reg.spawn_with(100_000, 100_000, 0);
    for _ in 0..150 {
        reg.sample_trails(FX_TRAIL_PERIOD);
    }
    assert_eq!(reg.get(0).trail.len(), 100);
}

#[test]
fn timer_advance_exact() {
    let mut t = TrailTimer::new(60_000);
    assert!(!t.advance(25_000));
    assert!(!t.advance(25_000));
    assert!(t.advance(25_000));
    assert_eq!(t.elapsed, 15_000);
    // several whole periods complete at once and the remainder is kept
    assert!(t.advance(125_000));
    assert_eq!(t.elapsed, 20_000);
}

#[test]
fn toggles_flip() {
    let mut c = SimulationConfig::startup();
    assert!(c.draw_trails);
    assert!(!c.draw_pendulums);
    assert!(!c.damping_enabled);
    c.toggle_trails();
    c.toggle_pendulum_draw();
    c.toggle_damping();
    assert!(!c.draw_trails);
    assert!(c.draw_pendulums);
    assert!(c.damping_enabled);
    c.toggle_damping();
    assert!(!c.damping_enabled);
}

#[test]
fn random_spawn_in_range() {
    let mut reg = SimulationRegistry::new();
    for _ in 0..20 {
        reg.spawn_one();
    }
    for i in 0..20 {
        let p = reg.get(i);
        assert!(0 <= p.inner.angle && p.inner.angle < FX_TWO_PI);
        assert!(0 <= p.outer.angle && p.outer.angle < FX_TWO_PI);
        assert_eq!(p.inner.velocity, 0);
        assert_eq!(p.outer.velocity, 0);
        assert_eq!(p.trail.len(), 0);
    }
}

#[test]
fn chaining_invariant_random_spawns() {
    let mut reg = SimulationRegistry::new();
    reg.spawn_many(5);
    for _ in 0..25 {
        reg.tick_all(DT, false);
        for i in 0..5 {
            let p = reg.get(i);
            assert_eq!(p.outer.start_pos, p.inner.end_pos);
        }
    }
}

#[test]
fn degenerate_state_freezes() {
    // an absurd angular velocity overflows the acceleration range; the
    // tick must leave the pendulum untouched instead of storing junk
    let mut p = DoublePendulum::with_angles(100_000, 100_000, 0);
    p.inner.velocity = 4_000_000_000_000_000_000;
    let before_inner = p.inner;
    let before_outer = p.outer;
    tick_pendulum(&mut p, DT, false);
    assert_eq!(p.inner, before_inner);
    assert_eq!(p.outer, before_outer);
}

#[test]
fn fixed_stepper_exact() {
    let mut s = FixedStepper::new(DT);
    // a 60 Hz frame covers one 0.01-unit step with 6_666 left over
    assert_eq!(s.advance(16_666), 1);
    assert_eq!(s.accumulator, 6_666);
    assert_eq!(s.advance(16_666), 2);
    assert_eq!(s.accumulator, 3_332);
    assert_eq!(s.advance(0), 0);
    assert_eq!(s.accumulator, 3_332);
}
