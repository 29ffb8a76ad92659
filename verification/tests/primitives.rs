use pyree::anim::{
    linear_anim_system, pt1_anim_system, Animation, LinearAnim, ParameterAnimation, Pt1Anim,
    LEVEL_UNIT, PT1_EPSILON,
};

fn ceil_div(distance: u64, step: u64) -> u64 {
    (distance + step - 1) / step
}

#[test]
fn linear_ramp_steps_by_speed_times_tick() {
    let mut anim = LinearAnim { val: 0, target: 1_000_000, speed: 1_000_000 };
    anim.advance(16_000);
    assert_eq!(anim.get_val(), 16_000);
    assert_eq!(anim.get_target(), 1_000_000);
    assert!(!anim.target_reached());
}

#[test]
fn linear_ramp_moves_down_as_well_as_up() {
    let mut anim = LinearAnim { val: 500_000, target: -500_000, speed: 1_000_000 };
    anim.advance(100_000);
    assert_eq!(anim.val, 400_000);
}

#[test]
fn linear_ramp_arrives_in_the_rounded_up_number_of_ticks() {
    let speed = 1_000_000u64;
    let dt = 300_000u64;
    let step = speed * dt / 1_000_000;
    let mut anim = LinearAnim { val: 0, target: 1_000_000, speed };
    let ticks = ceil_div(1_000_000, step);
    assert_eq!(ticks, 4);
    for _ in 0..ticks - 1 {
        anim.advance(dt);
        assert!(!anim.target_reached());
    }
    assert_eq!(anim.val, 900_000);
    anim.advance(dt);
    assert!(anim.target_reached());
    assert_eq!(anim.val, 1_000_000);
}

#[test]
fn linear_ramp_lands_exactly_when_the_distance_is_a_multiple_of_the_step() {
    let mut anim = LinearAnim { val: 0, target: 1_000_000, speed: 1_000_000 };
    for tick in 1..=4 {
        anim.advance(250_000);
        assert_eq!(anim.val, 250_000 * tick);
    }
    assert!(anim.target_reached());
}

#[test]
fn linear_ramp_never_overshoots() {
    let mut anim = LinearAnim { val: 0, target: 10, speed: 1_000_000 };
    anim.advance(1_000_000);
    assert_eq!(anim.val, 10);
    anim.advance(1_000_000);
    assert_eq!(anim.val, 10);
}

#[test]
fn linear_ramp_with_tick_of_zero_does_nothing() {
    let mut anim = LinearAnim { val: 3, target: 1_000_000, speed: 1_000_000 };
    anim.advance(0);
    assert_eq!(anim.val, 3);
    assert!(!anim.target_reached());
}

#[test]
fn linear_ramp_too_slow_for_the_tick_does_not_move() {
    let mut anim = LinearAnim { val: 0, target: 1_000_000, speed: 1 };
    anim.advance(1);
    assert_eq!(anim.val, 0);
}

#[test]
fn linear_ramp_handles_the_whole_range_of_levels() {
    let mut anim = LinearAnim { val: i64::MIN, target: i64::MAX, speed: u64::MAX };
    anim.advance(u64::MAX);
    assert_eq!(anim.val, i64::MAX);
    let mut slow = LinearAnim { val: i64::MIN, target: i64::MAX, speed: 1_000_000 };
    slow.advance(7);
    assert_eq!(slow.val, i64::MIN + 7);
}

#[test]
fn low_pass_closes_half_the_gap_when_tick_equals_time_constant() {
    let mut anim = Pt1Anim { val: 1_000_000, target: 0, time_constant: 30_000 };
    anim.advance(30_000);
    assert_eq!(anim.get_val(), 500_000);
    assert_eq!(anim.get_target(), 0);
    assert!(!anim.target_reached());
}

#[test]
fn low_pass_rounds_its_step_down() {
    let mut anim = Pt1Anim { val: 1_000_000, target: 0, time_constant: 30_000 };
    anim.advance(16_000);
    assert_eq!(anim.val, 1_000_000 - 347_826);
    anim.advance(16_000);
    assert_eq!(anim.val, 652_174 - 226_843);
}

#[test]
fn low_pass_rises_as_well_as_falls() {
    let mut anim = Pt1Anim { val: 0, target: 1_000_000, time_constant: 100_000 };
    anim.advance(100_000);
    assert_eq!(anim.val, 500_000);
}

#[test]
fn low_pass_with_tick_of_zero_does_nothing() {
    let mut anim = Pt1Anim { val: 1_000_000, target: 0, time_constant: 30_000 };
    anim.advance(0);
    assert_eq!(anim.val, 1_000_000);
    let mut near = Pt1Anim { val: 5, target: 0, time_constant: 30_000 };
    near.advance(0);
    assert_eq!(near.val, 5);
}

#[test]
fn low_pass_snaps_when_the_step_is_at_most_epsilon() {
    // a step of exactly 100 millionths
    let mut anim = Pt1Anim { val: 200, target: 0, time_constant: 1_000 };
    anim.advance(1_000);
    assert_eq!(PT1_EPSILON, 100);
    assert_eq!(anim.val, 0);
    assert!(anim.target_reached());
    // a step of 101 millionths is taken
    let mut wider = Pt1Anim { val: 202, target: 0, time_constant: 1_000 };
    wider.advance(1_000);
    assert_eq!(wider.val, 101);
}

#[test]
fn low_pass_converges_and_stays() {
    let mut anim = Pt1Anim { val: 1_000_000, target: 0, time_constant: 30_000 };
    let bound = 1_000_000 / (PT1_EPSILON + 1) + 1;
    let mut ticks = 0u64;
    let mut previous = anim.val;
    while !anim.target_reached() {
        anim.advance(16_000);
        assert!(anim.val <= previous);
        assert!(anim.val >= 0);
        previous = anim.val;
        ticks += 1;
        assert!(ticks <= bound);
    }
    assert_eq!(anim.val, 0);
    for _ in 0..5 {
        anim.advance(16_000);
        assert_eq!(anim.val, 0);
        assert!(anim.target_reached());
    }
}

#[test]
fn low_pass_converges_with_a_time_constant_of_zero() {
    let mut anim = Pt1Anim { val: 1_000_000, target: 0, time_constant: 0 };
    anim.advance(1);
    assert_eq!(anim.val, 0);
}

#[test]
fn low_pass_handles_the_whole_range_of_levels() {
    let mut anim = Pt1Anim { val: i64::MIN, target: i64::MAX, time_constant: 0 };
    anim.advance(u64::MAX);
    assert_eq!(anim.val, i64::MAX);
}

#[test]
fn low_pass_default_goes_from_zero_to_one_in_a_tenth_of_a_second() {
    let anim = Pt1Anim::default();
    assert_eq!(anim.val, 0);
    assert_eq!(anim.target, LEVEL_UNIT);
    assert_eq!(anim.time_constant, 100_000);
}

#[test]
fn retargeted_linear_ramp_reaches_the_new_target() {
    let mut anim = LinearAnim { val: 0, target: 1_000_000, speed: 1_000_000 };
    anim.advance(300_000);
    anim.advance(300_000);
    assert_eq!(anim.val, 600_000);
    anim.target = -150_000;
    let ticks = ceil_div(750_000, 300_000);
    let mut distance = 750_000i64;
    for _ in 0..ticks {
        assert!(!anim.target_reached());
        anim.advance(300_000);
        let now = (anim.val - anim.target).abs();
        assert!(now <= distance);
        distance = now;
    }
    assert!(anim.target_reached());
    assert_eq!(anim.val, -150_000);
}

#[test]
fn retargeted_low_pass_reaches_the_new_target() {
    let mut anim = Pt1Anim { val: 1_000_000, target: 0, time_constant: 30_000 };
    anim.advance(16_000);
    anim.target = 2_000_000;
    let mut distance = (anim.target - anim.val).abs();
    let bound = distance as u64 / (PT1_EPSILON + 1) + 1;
    let mut ticks = 0;
    while !anim.target_reached() {
        anim.advance(16_000);
        let now = (anim.target - anim.val).abs();
        assert!(now <= distance);
        distance = now;
        ticks += 1;
        assert!(ticks <= bound);
    }
    assert_eq!(anim.val, 2_000_000);
}

#[test]
fn animation_of_either_kind_advances_as_its_kind_does() {
    let mut ramp = Animation::Linear(LinearAnim { val: 0, target: 10, speed: 1_000_000 });
    ramp.advance(4);
    assert_eq!(ramp.get_val(), 4);
    assert_eq!(ramp.get_target(), 10);
    assert!(!ramp.target_reached());
    ramp.advance(7);
    assert!(ramp.target_reached());
    let mut decay = Animation::Pt1(Pt1Anim { val: 1_000_000, target: 0, time_constant: 30_000 });
    decay.advance(30_000);
    assert_eq!(decay.get_val(), 500_000);
}

#[test]
fn systems_advance_every_transition_once() {
    let mut ramps = vec![
        LinearAnim { val: 0, target: 1_000_000, speed: 1_000_000 },
        LinearAnim { val: 10, target: 0, speed: 2_000_000 },
    ];
    linear_anim_system(&mut ramps, 4);
    assert_eq!(ramps[0].val, 4);
    assert_eq!(ramps[1].val, 2);
    let mut decays = vec![
        Pt1Anim { val: 1_000_000, target: 0, time_constant: 30_000 },
        Pt1Anim { val: 0, target: 1_000_000, time_constant: 100_000 },
    ];
    pt1_anim_system(&mut decays, 30_000);
    assert_eq!(decays[0].val, 500_000);
    assert_eq!(decays[1].val, 230_769);
}
