use pyree::anim::LEVEL_UNIT;
use pyree::hexagon::HexagonDefinition;
use pyree::hexagon::HexagonDefinition::{Main, A1, A2, A3, B1, B2, B3};
use pyree::meta_phys::{
    push_or_pull_meta_anim, push_pull_meta_anim, sides_meta_anim, CenterPullEvent, PhysAnimMode,
    PhysMetaAnim, CONTINUOUS_PULL_STRENGTH, PULL_STRENGTH,
};
use pyree::meta_tunnelgon::{
    tunnelgon_laser_cycle_meta_anim, tunnelgon_laser_figure_eight_meta_anim,
    tunnelgon_laser_round_the_clock_meta_anim, tunnelgon_laser_sweep_anim,
    tunnelgon_ring_train_meta_anim, tunnelgon_rings_btf_meta_anim, tunnelgon_rings_ftb_meta_anim,
    TunnelgonLaserCycleMetaAnim, TunnelgonLaserFigureEightMetaAnim,
    TunnelgonLaserRoundTheClockMetaAnim, TunnelgonLaserSweepMetaAnim, TunnelgonRingsBTFMetaAnim,
    TunnelgonRingsFTBMetaAnim, TunnelgonRingsTrainMetaAnim, EIGHT_FRAMES,
};
use pyree::tunnelgon::{
    LaserAnimationEvent, RingAnimationEvent, RingBasePosAnim, RingBaseValAnim, TunnelgonBaseAnim,
};

fn all_screens() -> Vec<HexagonDefinition> {
    vec![A1, A2, A3, B1, B2, B3, Main]
}

fn assert_pulse(event: &LaserAnimationEvent, screens: Vec<HexagonDefinition>, indices: Vec<usize>) {
    assert_eq!(event.affected_hexagons, screens);
    assert_eq!(event.base_anim, TunnelgonBaseAnim::Pulse);
    assert_eq!(event.values, vec![LEVEL_UNIT; indices.len()]);
    assert_eq!(event.indices, indices);
}

fn assert_slide(event: &RingAnimationEvent, indices: Vec<usize>, from: Vec<i64>, to: Vec<i64>) {
    assert_eq!(event.affected_hexagons, all_screens());
    assert_eq!(event.base_pos_anim, RingBasePosAnim::SlideLinear);
    assert_eq!(event.base_val_anim, RingBaseValAnim::Pulse);
    assert_eq!(event.values, vec![LEVEL_UNIT; indices.len()]);
    assert_eq!(event.indices, indices);
    assert_eq!(event.positions_from, from);
    assert_eq!(event.positions_to, to);
}

#[test]
fn laser_cycle_is_silent_while_switched_off() {
    let mut params = TunnelgonLaserCycleMetaAnim::default();
    assert!(!params.is_enabled());
    assert!(tunnelgon_laser_cycle_meta_anim(&mut params, 3).is_empty());
}

#[test]
fn laser_cycle_goes_round_the_three_pairs() {
    let mut params = TunnelgonLaserCycleMetaAnim::default();
    params.set_enabled(true);
    let events = tunnelgon_laser_cycle_meta_anim(&mut params, 4);
    assert_eq!(events.len(), 4);
    let six = vec![0, 1, 2, 3, 4, 5];
    assert_pulse(&events[0], vec![A1, B1], six.clone());
    assert_pulse(&events[1], vec![A2, B2], six.clone());
    assert_pulse(&events[2], vec![A3, B3], six.clone());
    assert_pulse(&events[3], vec![A1, B1], six.clone());
    // the cycle goes on where it was
    let events = tunnelgon_laser_cycle_meta_anim(&mut params, 1);
    assert_pulse(&events[0], vec![A2, B2], six);
    assert!(tunnelgon_laser_cycle_meta_anim(&mut params, 0).is_empty());
}

#[test]
fn round_the_clock_runs_opposite_ways_on_the_two_sides() {
    let mut params = TunnelgonLaserRoundTheClockMetaAnim::default();
    assert!(tunnelgon_laser_round_the_clock_meta_anim(&mut params, 2).is_empty());
    params.set_enabled(true);
    let events = tunnelgon_laser_round_the_clock_meta_anim(&mut params, 7);
    assert_eq!(events.len(), 14);
    let left = [[0, 3], [1, 4], [2, 5], [3, 0], [4, 1], [5, 2], [0, 3]];
    let right = [[0, 3], [5, 2], [4, 1], [3, 0], [2, 5], [1, 4], [0, 3]];
    for beat in 0..7 {
        assert_pulse(&events[2 * beat], vec![A1, A2, A3], left[beat].to_vec());
        assert_pulse(&events[2 * beat + 1], vec![B1, B2, B3], right[beat].to_vec());
    }
}

#[test]
fn laser_sweep_goes_down_and_up() {
    let mut params = TunnelgonLaserSweepMetaAnim::default();
    assert!(tunnelgon_laser_sweep_anim(&mut params, 2).is_empty());
    params.set_enabled(true);
    let events = tunnelgon_laser_sweep_anim(&mut params, 5);
    let pairs = [[4, 5], [3, 0], [2, 1], [3, 0], [4, 5]];
    assert_eq!(events.len(), 5);
    for beat in 0..5 {
        assert_pulse(&events[beat], all_screens(), pairs[beat].to_vec());
    }
}

#[test]
fn rings_front_to_back_take_turns_from_frame_to_frame() {
    let mut params = TunnelgonRingsFTBMetaAnim::default();
    assert!(tunnelgon_rings_ftb_meta_anim(&mut params, 1).is_empty());
    params.set_enabled(true);
    let events = tunnelgon_rings_ftb_meta_anim(&mut params, 2);
    assert_eq!(events.len(), 2);
    assert_slide(&events[0], vec![0], vec![0], vec![LEVEL_UNIT]);
    assert_slide(&events[1], vec![0], vec![0], vec![LEVEL_UNIT]);
    // a frame without a beat turns the ring over as well
    assert!(tunnelgon_rings_ftb_meta_anim(&mut params, 0).is_empty());
    let events = tunnelgon_rings_ftb_meta_anim(&mut params, 1);
    assert_slide(&events[0], vec![0], vec![0], vec![LEVEL_UNIT]);
    let events = tunnelgon_rings_ftb_meta_anim(&mut params, 1);
    assert_slide(&events[0], vec![1], vec![0], vec![LEVEL_UNIT]);
}

#[test]
fn rings_back_to_front_use_rings_two_and_three() {
    let mut params = TunnelgonRingsBTFMetaAnim::default();
    assert!(tunnelgon_rings_btf_meta_anim(&mut params, 1).is_empty());
    params.set_enabled(true);
    let events = tunnelgon_rings_btf_meta_anim(&mut params, 1);
    assert_slide(&events[0], vec![2], vec![500_000], vec![-500_000]);
    let events = tunnelgon_rings_btf_meta_anim(&mut params, 1);
    assert_slide(&events[0], vec![3], vec![500_000], vec![-500_000]);
    let events = tunnelgon_rings_btf_meta_anim(&mut params, 1);
    assert_slide(&events[0], vec![2], vec![500_000], vec![-500_000]);
}

#[test]
fn ring_train_slides_four_rings_a_tenth_apart() {
    let mut params = TunnelgonRingsTrainMetaAnim::default();
    assert!(tunnelgon_ring_train_meta_anim(&params, 1).is_empty());
    params.enabled = true;
    let events = tunnelgon_ring_train_meta_anim(&params, 2);
    assert_eq!(events.len(), 2);
    for event in &events {
        assert_slide(
            event,
            vec![4, 5, 6, 7],
            vec![0, 100_000, 200_000, 300_000],
            vec![1_100_000, 1_200_000, 1_300_000, 1_400_000],
        );
    }
}

#[test]
fn figure_of_eight_takes_twelve_steps_two_frames_apart() {
    let mut params = TunnelgonLaserFigureEightMetaAnim::default();
    assert!(tunnelgon_laser_figure_eight_meta_anim(&mut params, 1).is_empty());
    assert_eq!(params.run_count(), 0);
    params.set_enabled(true);
    let left = [2, 3, 4, 5, 0, 1, 4, 3, 2, 1, 0, 5];
    let right = [1, 0, 5, 4, 3, 2, 5, 0, 1, 2, 3, 4];
    assert_eq!(EIGHT_FRAMES, 24);
    for frame in 0..24 {
        let beats = if frame == 0 { 1 } else { 0 };
        let events = tunnelgon_laser_figure_eight_meta_anim(&mut params, beats);
        if frame % 2 == 0 {
            let step = frame / 2;
            let (screen_left, screen_right) = if step < 6 { (A1, B1) } else { (A3, B3) };
            assert_eq!(events.len(), 2);
            assert_pulse(&events[0], vec![screen_left], vec![left[step]]);
            assert_pulse(&events[1], vec![screen_right], vec![right[step]]);
        } else {
            assert!(events.is_empty());
        }
        assert_eq!(params.run_count(), if frame < 23 { 1 } else { 0 });
    }
    assert!(tunnelgon_laser_figure_eight_meta_anim(&mut params, 0).is_empty());
}

#[test]
fn figures_of_eight_overlap_and_outlive_the_switch() {
    let mut params = TunnelgonLaserFigureEightMetaAnim::default();
    params.set_enabled(true);
    assert_eq!(tunnelgon_laser_figure_eight_meta_anim(&mut params, 2).len(), 4);
    assert_eq!(params.run_count(), 2);
    assert!(tunnelgon_laser_figure_eight_meta_anim(&mut params, 0).is_empty());
    params.set_enabled(false);
    // a beat starts nothing now, the two figures go on
    let events = tunnelgon_laser_figure_eight_meta_anim(&mut params, 1);
    assert_eq!(events.len(), 4);
    assert_pulse(&events[0], vec![A1], vec![3]);
    assert_pulse(&events[1], vec![B1], vec![0]);
    assert_pulse(&events[2], vec![A1], vec![3]);
    assert_eq!(params.run_count(), 2);
}

fn assert_pull(event: &CenterPullEvent, strength: i64) {
    assert_eq!(event.affected_hexagons, vec![Main]);
    assert_eq!(event.strength, strength);
}

#[test]
fn default_pull_has_the_usual_strength() {
    let event = CenterPullEvent::default();
    assert!(event.affected_hexagons.is_empty());
    assert_eq!(event.strength, PULL_STRENGTH);
    assert_eq!(PULL_STRENGTH, 1_600_000 * LEVEL_UNIT);
    assert_eq!(CONTINUOUS_PULL_STRENGTH, 80_000 * LEVEL_UNIT);
    assert_eq!(PhysAnimMode::default(), PhysAnimMode::Off);
}

#[test]
fn push_mode_pushes_on_every_beat() {
    let mut settings = PhysMetaAnim::default();
    assert_eq!(settings.anim_mode(), PhysAnimMode::Off);
    let events = push_or_pull_meta_anim(&settings, 3);
    assert!(events.pushes.is_empty() && events.pulls.is_empty());
    settings.set_anim_mode(PhysAnimMode::Push);
    let events = push_or_pull_meta_anim(&settings, 3);
    assert_eq!(events.pushes.len(), 3);
    assert!(events.pulls.is_empty());
    assert_eq!(events.pushes[2].affected_hexagons, vec![Main]);
}

#[test]
fn pull_mode_pulls_on_every_beat() {
    let mut settings = PhysMetaAnim::default();
    settings.set_anim_mode(PhysAnimMode::Pull);
    let events = push_or_pull_meta_anim(&settings, 2);
    assert!(events.pushes.is_empty());
    assert_eq!(events.pulls.len(), 2);
    assert_pull(&events.pulls[0], PULL_STRENGTH);
    assert_pull(&events.pulls[1], PULL_STRENGTH);
}

#[test]
fn continuous_pull_pulls_once_per_frame() {
    let mut settings = PhysMetaAnim::default();
    settings.set_anim_mode(PhysAnimMode::ContPull);
    for beats in [0usize, 1, 5] {
        let events = push_or_pull_meta_anim(&settings, beats);
        assert!(events.pushes.is_empty());
        assert_eq!(events.pulls.len(), 1);
        assert_pull(&events.pulls[0], CONTINUOUS_PULL_STRENGTH);
    }
}

#[test]
fn push_pull_takes_turns() {
    let mut settings = PhysMetaAnim::default();
    let events = push_pull_meta_anim(&mut settings, 3);
    assert!(events.pushes.is_empty() && events.pulls.is_empty());
    settings.set_anim_mode(PhysAnimMode::PushPull);
    let events = push_pull_meta_anim(&mut settings, 3);
    assert_eq!(events.pushes.len(), 2);
    assert_eq!(events.pulls.len(), 1);
    assert_pull(&events.pulls[0], PULL_STRENGTH);
    // the next beat is a pull
    let events = push_pull_meta_anim(&mut settings, 1);
    assert_eq!(events.pushes.len(), 0);
    assert_eq!(events.pulls.len(), 1);
}

#[test]
fn sides_go_round_in_sixths_of_a_turn() {
    let mut settings = PhysMetaAnim::default();
    assert!(sides_meta_anim(&mut settings, 2).is_empty());
    settings.set_anim_mode(PhysAnimMode::Sides);
    let events = sides_meta_anim(&mut settings, 8);
    let dirs: Vec<usize> = events.iter().map(|event| event.dir).collect();
    assert_eq!(dirs, vec![0, 1, 2, 3, 4, 5, 0, 1]);
    let events = sides_meta_anim(&mut settings, 1);
    assert_eq!(events[0].dir, 2);
}
