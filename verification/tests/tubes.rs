use pyree::punch::{
    contains_tube, pattern_tubes, PunchScheduler, PunchTask, TubeWrite, PUNCH_START,
    PUNCH_TIME_CONSTANT, STROBE_PICKS, STROBE_TIME_CONSTANT,
};
use pyree::anim::Pt1Anim;
use pyree::task::TaskPhase;
use pyree::tubes::TubeIndex::{
    Eight, Eighteen, Eleven, Fifteen, Five, Four, Fourteen, Nine, Nineteen, One, Seven,
    Seventeen, Six, Sixteen, Ten, Thirteen, Three, Twelve, Twenty, Twentyone, Twentytwo, Two,
};
use pyree::tubes::{
    get_led_tube_led_entities, led_span, map_index_to_tube_index, physical_led_index,
    spawn_led_tubes, spawn_tube, LedTube, LedTubeLed, PhysicalTubeIndex, TubeIndex,
    ACTUAL_EDGE_LED_COUNT, EDGE_LED_COUNT, EDGE_LED_DIVISOR, LEDS_COUNT, LIGHTS_PER_TUBE,
    TUBE_COUNT,
};
use pyree::tubes_anim::{
    pick_below, picked_tubes, strobe1, strobe2, strobe_picked, sweep, tube_punch, tube_punch_2,
    tube_punch_3, tube_punch_4, wave_blocky, wave_noise1, wave_noise2, wave_simple,
    TubesAnimStorage, TubesWaveAnims,
};

fn every_tube() -> Vec<LedTube> {
    TubeIndex::all().into_iter().map(LedTube::new).collect()
}

fn tubes_of(scheduler: &PunchScheduler) -> Vec<TubeIndex> {
    (0..scheduler.task_count()).map(|at| scheduler.task(at).unwrap().tube).collect()
}

#[test]
fn tubes_are_numbered_from_one_to_twentytwo() {
    let all = TubeIndex::all();
    assert_eq!(all.len(), 22);
    assert_eq!(TUBE_COUNT, 22);
    assert_eq!(all[0], One);
    assert_eq!(all[21], Twentytwo);
    for (at, tube) in all.iter().enumerate() {
        assert_eq!(tube.get_number(), at + 1);
        assert_eq!(TubeIndex::from_number(at + 1), Some(*tube));
    }
    assert_eq!(TubeIndex::from_number(0), None);
    assert_eq!(TubeIndex::from_number(23), None);
}

#[test]
fn tube_has_sixteen_lights_in_order() {
    let (tube, leds) = spawn_tube(Seven);
    assert_eq!(tube.get_tube_index(), Seven);
    assert_eq!(LEDS_COUNT, 16);
    assert_eq!(leds.len(), 16);
    for (at, led) in leds.iter().enumerate() {
        assert_eq!(led.get_index(), at as isize);
    }
}

#[test]
fn all_tubes_are_spawned_in_order() {
    let tubes = spawn_led_tubes();
    assert_eq!(tubes.len(), 22);
    assert_eq!(tubes[0].0.get_tube_index(), One);
    assert_eq!(tubes[9].0.get_tube_index(), Ten);
    assert_eq!(tubes[21].1.len(), 16);
    assert_eq!(tubes[21].1[15].get_index(), 15);
}

#[test]
fn edges_are_numbered_from_zero() {
    assert_eq!(PhysicalTubeIndex::from(0), PhysicalTubeIndex::AB);
    assert_eq!(PhysicalTubeIndex::from(1), PhysicalTubeIndex::BC);
    assert_eq!(PhysicalTubeIndex::from(2), PhysicalTubeIndex::CD);
    assert_eq!(PhysicalTubeIndex::from(3), PhysicalTubeIndex::DE);
    assert_eq!(PhysicalTubeIndex::from(4), PhysicalTubeIndex::EF);
    assert_eq!(PhysicalTubeIndex::from(5), PhysicalTubeIndex::FA);
    assert_eq!(PhysicalTubeIndex::from(6), PhysicalTubeIndex::AB);
    assert_eq!(PhysicalTubeIndex::from(-1), PhysicalTubeIndex::AB);
}

#[test]
fn edges_turn_by_a_third_of_a_half_turn_each() {
    let angles: Vec<i8> = (0..6).map(|edge| PhysicalTubeIndex::from(edge).get_angle()).collect();
    assert_eq!(angles, vec![1, 0, -1, -2, -3, -4]);
}

#[test]
fn shown_lights_are_fed_by_the_twelve_tubes_round_the_large_screen() {
    assert_eq!(EDGE_LED_COUNT / EDGE_LED_DIVISOR, ACTUAL_EDGE_LED_COUNT);
    assert_eq!(16 / EDGE_LED_DIVISOR, LIGHTS_PER_TUBE);
    let round = [
        Six, Eight, Ten, Twelve, Fourteen, Sixteen, Seventeen, Fifteen, Thirteen, Eleven, Nine,
        Seven,
    ];
    for index in 0..48 {
        assert_eq!(map_index_to_tube_index(index), (round[(index / 4) as usize], true));
    }
    assert_eq!(map_index_to_tube_index(48), (Six, false));
    assert_eq!(map_index_to_tube_index(-1), (Six, false));
    assert_eq!(map_index_to_tube_index(i32::MAX), (Six, false));
}

#[test]
fn shown_lights_are_numbered_edge_by_edge() {
    assert_eq!(physical_led_index(0, 0), 0);
    assert_eq!(physical_led_index(0, 7), 7);
    assert_eq!(physical_led_index(1, 0), 8);
    assert_eq!(physical_led_index(5, 7), 47);
}

#[test]
fn each_shown_light_is_fed_by_four_lights_in_a_row() {
    assert_eq!(led_span(0), (0, 4));
    assert_eq!(led_span(1), (4, 8));
    assert_eq!(led_span(2), (8, 12));
    assert_eq!(led_span(3), (12, 16));
    assert_eq!(led_span(4), (0, 4));
    assert_eq!(led_span(47), (12, 16));
    assert_eq!(led_span(-1), (-4, 0));
    assert_eq!(led_span(-4), (0, 4));
    assert_eq!(led_span(i32::MIN), (0, 4));
    assert_eq!(physical_led_index(i32::MAX, i32::MAX), 9 * (i32::MAX as i64));
}

#[test]
fn feeding_lights_are_found_wherever_they_stand() {
    let (_, leds) = spawn_tube(Six);
    assert_eq!(get_led_tube_led_entities(1, &leds), (vec![4, 5, 6, 7], true));
    let mut shuffled: Vec<LedTubeLed> = leds.iter().rev().cloned().collect();
    assert_eq!(get_led_tube_led_entities(0, &shuffled), (vec![12, 13, 14, 15], true));
    shuffled.truncate(14);
    assert_eq!(get_led_tube_led_entities(0, &shuffled), (vec![12, 13], false));
    assert_eq!(get_led_tube_led_entities(3, &vec![]), (vec![], false));
}

#[test]
fn punch_patterns_are_as_drawn() {
    assert_eq!(pattern_tubes(1, 0), vec![Five, Six, Seven, Sixteen, Seventeen, Eighteen]);
    assert_eq!(
        pattern_tubes(1, 1),
        vec![Three, Four, Eight, Nine, Fourteen, Fifteen, Nineteen, Twenty]
    );
    assert_eq!(
        pattern_tubes(1, 2),
        vec![One, Two, Ten, Eleven, Twelve, Thirteen, Twentyone, Twentytwo]
    );
    assert_eq!(pattern_tubes(1, 3), pattern_tubes(1, 1));
    assert_eq!(pattern_tubes(2, 0), vec![Six, Fourteen, Thirteen]);
    assert_eq!(pattern_tubes(2, 1), vec![Eight, Sixteen, Eleven]);
    assert_eq!(pattern_tubes(2, 2), vec![Ten, Seventeen, Nine]);
    assert_eq!(pattern_tubes(2, 3), vec![Twelve, Fifteen, Seven]);
    assert_eq!(pattern_tubes(3, 0), vec![Six, Eight, Fourteen, Sixteen, Eleven, Thirteen]);
    assert_eq!(pattern_tubes(3, 1), vec![Ten, Twelve, Seven, Nine, Fifteen, Seventeen]);
    assert_eq!(pattern_tubes(3, 2), vec![Five, Three, Four, Eighteen, Nineteen, Twenty]);
    assert_eq!(pattern_tubes(3, 3), vec![One, Two, Twentyone, Twentytwo]);
    assert_eq!(pattern_tubes(4, 0), vec![Three, Five, Six, Sixteen, Eighteen, Nineteen]);
    assert_eq!(pattern_tubes(4, 1), vec![Four, Five, Seven, Seventeen, Eighteen, Twenty]);
    assert_eq!(
        pattern_tubes(4, 2),
        vec![Eight, Nine, One, Two, Fourteen, Fifteen, Twentyone, Twentytwo]
    );
    assert_eq!(pattern_tubes(4, 3), vec![Ten, Twelve, Eleven, Thirteen]);
    assert!(contains_tube(&pattern_tubes(4, 3), Eleven));
    assert!(!contains_tube(&pattern_tubes(4, 3), One));
    // beyond the patterns and their steps, the last of each stands in
    assert_eq!(pattern_tubes(9, 0), pattern_tubes(4, 0));
    assert_eq!(pattern_tubes(0, 1), pattern_tubes(4, 1));
    assert_eq!(pattern_tubes(2, 7), pattern_tubes(2, 3));
}

#[test]
fn flash_starts_high_and_decays() {
    assert_eq!(PUNCH_START, 1_300_000);
    assert_eq!(PUNCH_TIME_CONSTANT, 300_000);
    let mut task = PunchTask::new(Five, PUNCH_TIME_CONSTANT, 3);
    assert_eq!(task.phase, TaskPhase::AwaitingFirstPoll);
    assert_eq!(task.anim, Pt1Anim { val: 1_300_000, target: 0, time_constant: 300_000 });
    // the first poll is not acted on
    let write = task.step(Some(true), 100_000);
    assert_eq!(write, Some(TubeWrite { tube: Five, value: 975_000, punch: 3 }));
    assert_eq!(task.phase, TaskPhase::Running);
    let write = task.step(Some(false), 100_000);
    assert_eq!(write, Some(TubeWrite { tube: Five, value: 731_250, punch: 3 }));
    let write = task.step(None, 100_000);
    assert_eq!(write, Some(TubeWrite { tube: Five, value: 548_438, punch: 3 }));
}

#[test]
fn flash_that_hears_of_a_punch_goes_dark_and_ends() {
    let mut task = PunchTask::new(Five, PUNCH_TIME_CONSTANT, 3);
    task.step(None, 100_000);
    let write = task.step(Some(true), 100_000);
    assert_eq!(write, Some(TubeWrite { tube: Five, value: 0, punch: 3 }));
    assert_eq!(task.phase, TaskPhase::Cancelled);
    assert!(!task.live());
    assert_eq!(task.step(None, 100_000), None);
}

#[test]
fn flash_ends_on_zero() {
    let mut task = PunchTask::new(Five, PUNCH_TIME_CONSTANT, 3);
    let mut last = None;
    let mut ticks = 0;
    while task.live() {
        last = task.step(None, 100_000);
        ticks += 1;
        assert!(ticks < 1_000);
    }
    assert_eq!(last, Some(TubeWrite { tube: Five, value: 0, punch: 3 }));
    assert_eq!(task.phase, TaskPhase::Converged);
}

#[test]
fn punch_strikes_the_relevant_tubes_that_exist() {
    let mut scheduler = PunchScheduler::new();
    let tubes = vec![LedTube::new(One), LedTube::new(Six), LedTube::new(Ten), LedTube::new(Six)];
    scheduler.punch(&tubes, &vec![Ten, Six, Seven], 5);
    assert_eq!(tubes_of(&scheduler), vec![Six, Ten, Six]);
    assert_eq!(scheduler.task(0).unwrap().anim.time_constant, 5);
    assert_eq!(scheduler.task(3), None);
}

#[test]
fn next_punch_ends_the_flashes_of_the_one_before() {
    let mut scheduler = PunchScheduler::new();
    let tubes = every_tube();
    assert_eq!(scheduler.punch(&tubes, &vec![One, Two], PUNCH_TIME_CONSTANT), 0);
    let writes = scheduler.tick(100_000);
    assert_eq!(
        writes,
        vec![
            TubeWrite { tube: One, value: 975_000, punch: 0 },
            TubeWrite { tube: Two, value: 975_000, punch: 0 }
        ]
    );
    assert_eq!(scheduler.punch(&tubes, &vec![Two, Three], PUNCH_TIME_CONSTANT), 1);
    let writes = scheduler.tick(100_000);
    assert_eq!(
        writes,
        vec![
            TubeWrite { tube: One, value: 0, punch: 0 },
            TubeWrite { tube: Two, value: 0, punch: 0 },
            TubeWrite { tube: Two, value: 975_000, punch: 1 },
            TubeWrite { tube: Three, value: 975_000, punch: 1 },
        ]
    );
    assert_eq!(tubes_of(&scheduler), vec![Two, Three]);
    let writes = scheduler.tick(100_000);
    assert_eq!(writes[0], TubeWrite { tube: Two, value: 731_250, punch: 1 });
}

#[test]
fn punch_on_the_beat_follows_its_pattern() {
    let mut params = TubesWaveAnims::default();
    let mut scheduler = PunchScheduler::new();
    let tubes = every_tube();
    tube_punch(&mut params, 1, &tubes, &mut scheduler);
    assert_eq!(scheduler.task_count(), 0);
    let mut switches = TubesAnimStorage::default();
    switches.punch = true;
    params.load_storage(switches);
    tube_punch(&mut params, 2, &tubes, &mut scheduler);
    // the tubes of step 0, then those of step 1, each in the order of the tubes
    assert_eq!(
        tubes_of(&scheduler),
        vec![
            Five, Six, Seven, Sixteen, Seventeen, Eighteen, Three, Four, Eight, Nine, Fourteen,
            Fifteen, Nineteen, Twenty
        ]
    );
    assert_eq!(scheduler.task(0).unwrap().anim.time_constant, PUNCH_TIME_CONSTANT);
    let mut next = PunchScheduler::new();
    tube_punch(&mut params, 1, &tubes, &mut next);
    assert_eq!(
        tubes_of(&next),
        vec![One, Two, Ten, Eleven, Twelve, Thirteen, Twentyone, Twentytwo]
    );
}

#[test]
fn other_punch_patterns_have_their_own_switch_and_counter() {
    let tubes = every_tube();
    let mut params = TubesWaveAnims::default();
    let mut switches = TubesAnimStorage::default();
    switches.punch2 = true;
    switches.punch3 = true;
    switches.punch4 = true;
    params.load_storage(switches);
    assert_eq!(params.get_switches(), switches);
    let mut scheduler = PunchScheduler::new();
    tube_punch(&mut params, 1, &tubes, &mut scheduler);
    assert_eq!(scheduler.task_count(), 0);
    tube_punch_2(&mut params, 1, &tubes, &mut scheduler);
    assert_eq!(tubes_of(&scheduler), vec![Six, Thirteen, Fourteen]);
    let mut scheduler = PunchScheduler::new();
    tube_punch_3(&mut params, 1, &tubes, &mut scheduler);
    assert_eq!(tubes_of(&scheduler), vec![Six, Eight, Eleven, Thirteen, Fourteen, Sixteen]);
    let mut scheduler = PunchScheduler::new();
    tube_punch_4(&mut params, 1, &tubes, &mut scheduler);
    assert_eq!(tubes_of(&scheduler), vec![Three, Five, Six, Sixteen, Eighteen, Nineteen]);
    let mut scheduler = PunchScheduler::new();
    tube_punch_2(&mut params, 1, &tubes, &mut scheduler);
    assert_eq!(tubes_of(&scheduler), vec![Eight, Eleven, Sixteen]);
}

#[test]
fn random_picks_stay_below_the_bound() {
    assert_eq!(pick_below(0), None);
    assert_eq!(pick_below(1), Some(0));
    let mut seen = [false; 22];
    for _ in 0..2_000 {
        let pick = pick_below(22).unwrap();
        assert!(pick < 22);
        seen[pick] = true;
    }
    assert!(seen.iter().filter(|hit| **hit).count() > 1);
}

#[test]
fn picks_stand_for_tubes() {
    assert_eq!(picked_tubes(&vec![0, 21, 5, 5]), vec![One, Twentytwo, Six, Six]);
    assert!(picked_tubes(&vec![]).is_empty());
}

#[test]
fn strobe_strikes_each_picked_tube_once() {
    let mut scheduler = PunchScheduler::new();
    let relevant = strobe_picked(&vec![5, 0, 5, 21], &every_tube(), &mut scheduler);
    assert_eq!(relevant, vec![Six, One, Six, Twentytwo]);
    assert_eq!(tubes_of(&scheduler), vec![One, Six, Twentytwo]);
    assert_eq!(scheduler.task(0).unwrap().anim.time_constant, PUNCH_TIME_CONSTANT);
}

#[test]
fn random_strobe_strikes_the_tubes_it_picked() {
    let tubes = every_tube();
    let mut scheduler = PunchScheduler::new();
    assert!(strobe1(0, &tubes, &mut scheduler).is_empty());
    assert_eq!(scheduler.task_count(), 0);
    scheduler.punch(&tubes, &vec![One], 7);
    let picked = strobe1(3, &tubes, &mut scheduler);
    assert_eq!(picked.len(), 3);
    assert_eq!(scheduler.task(0).unwrap().tube, One);
    let mut at = 1;
    for picks in &picked {
        assert_eq!(picks.len(), STROBE_PICKS);
        assert_eq!(STROBE_PICKS, 4);
        let mut reference = PunchScheduler::new();
        strobe_picked(picks, &tubes, &mut reference);
        for expected in tubes_of(&reference) {
            assert_eq!(scheduler.task(at).unwrap().tube, expected);
            at += 1;
        }
    }
    assert_eq!(scheduler.task_count(), at);
}

#[test]
fn strobe_of_all_tubes_strikes_every_tube_that_exists() {
    let tubes = vec![LedTube::new(Nine), LedTube::new(One)];
    let mut scheduler = PunchScheduler::new();
    strobe2(0, &tubes, &mut scheduler);
    assert_eq!(scheduler.task_count(), 0);
    strobe2(2, &tubes, &mut scheduler);
    assert_eq!(tubes_of(&scheduler), vec![Nine, One, Nine, One]);
    assert_eq!(STROBE_TIME_CONSTANT, 100_000);
    assert_eq!(scheduler.task(3).unwrap().anim.time_constant, 100_000);
    let writes = scheduler.tick(100_000);
    assert_eq!(writes[0], TubeWrite { tube: Nine, value: 650_000, punch: 0 });
    assert_eq!(writes[3], TubeWrite { tube: One, value: 650_000, punch: 1 });
}

#[test]
fn wave_clock_runs_forwards_and_backwards() {
    let mut params = TubesWaveAnims::default();
    assert!(!wave_simple(&mut params, 16_000));
    assert!(!wave_blocky(&mut params, 16_000));
    assert_eq!(params.get_wave_clock(), 0);
    let mut switches = TubesAnimStorage::default();
    switches.wave = 1;
    params.load_storage(switches);
    assert!(wave_simple(&mut params, 16_000));
    assert!(!wave_blocky(&mut params, 16_000));
    assert_eq!(params.get_wave_clock(), 16_000);
    switches.wave = 2;
    params.load_storage(switches);
    assert!(wave_simple(&mut params, 20_000));
    assert_eq!(params.get_wave_clock(), -4_000);
    switches.wave = 3;
    params.load_storage(switches);
    assert!(wave_blocky(&mut params, 5_000));
    assert_eq!(params.get_wave_clock(), 1_000);
    switches.wave = 4;
    params.load_storage(switches);
    assert!(wave_blocky(&mut params, u64::MAX));
    assert_eq!(params.get_wave_clock(), i64::MIN);
}

#[test]
fn noise_follows_the_count_of_beats() {
    let mut params = TubesWaveAnims::default();
    assert!(!wave_noise1(&mut params, 1, 30_000));
    assert!(!wave_noise2(&params));
    assert_eq!(params.get_noise_level(), 0);
    let mut switches = TubesAnimStorage::default();
    switches.wave = 5;
    params.load_storage(switches);
    assert!(wave_noise1(&mut params, 1, 30_000));
    assert_eq!(params.get_noise_level(), 500_000);
    assert!(wave_noise1(&mut params, 0, 30_000));
    assert_eq!(params.get_noise_level(), 750_000);
    assert!(wave_noise1(&mut params, 2, 0));
    assert_eq!(params.get_noise_level(), 750_000);
    switches.wave = 6;
    params.load_storage(switches);
    assert!(wave_noise2(&params));
}

#[test]
fn sweep_starts_over_on_the_beat() {
    let mut params = TubesWaveAnims::default();
    assert!(!sweep(&mut params, 1, 100_000));
    let mut switches = TubesAnimStorage::default();
    switches.sweep_out = true;
    params.load_storage(switches);
    assert!(sweep(&mut params, 0, 100_000));
    assert_eq!(params.get_sweep_level(), 250_000);
    assert!(sweep(&mut params, 0, 100_001));
    assert_eq!(params.get_sweep_level(), 500_002);
    assert!(sweep(&mut params, 1, 100_000));
    assert_eq!(params.get_sweep_level(), 250_000);
    switches.sweep_out = false;
    switches.sweep_in = true;
    params.load_storage(switches);
    assert!(sweep(&mut params, 1, 100_000));
    assert_eq!(params.get_sweep_level(), 750_000);
    assert!(sweep(&mut params, 0, 400_000));
    assert_eq!(params.get_sweep_level(), -250_000);
}
