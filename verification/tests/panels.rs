use pyree::anim::LEVEL_UNIT;
use pyree::elements2d::{
    show_pedrogon, show_swirlagon_system, small_screens, spawn_pedrogon, spawn_swirlagon,
    spawn_zoomagon_system, zoomagon_system, Pedrogon, SetPedrogonEvent, SetSwirlagonEvent,
    SpawnZoomagonEvent, Swirlagon, Zoomagon, ZOOMAGON_GONE,
};
use pyree::hexagon::HexagonDefinition;
use pyree::hexagon::HexagonDefinition::{Main, A1, A2, A3, B1, B2, B3};
use pyree::meta_phys::{PhysAnimMode, PhysMetaAnim, PULL_STRENGTH};
use pyree::meta_tunnelgon::{
    TunnelgonLaserCycleMetaAnim, TunnelgonLaserFigureEightMetaAnim,
    TunnelgonLaserRoundTheClockMetaAnim, TunnelgonLaserSweepMetaAnim, TunnelgonRingsBTFMetaAnim,
    TunnelgonRingsFTBMetaAnim, TunnelgonRingsTrainMetaAnim,
};
use pyree::panel::{
    center_pull, center_push, effector_screens, laser_full, laser_off, laser_pulse, rings,
    tunnelgon_all, tunnelgon_off, NextSettings, SWIRL_PRESET_BUTTONS,
};
use pyree::settings::{
    recursive_propagate_render_layers, spawners_eyes, EyeAdjustment, EyesMode, PhysHexSettings,
    SwirlAutomation, ALL_RENDER_LAYERS, SWIRL_PRESET_COUNT,
};
use pyree::storage::{
    copy_screens, preset1, MetaAnimMemory, MetaAnimStorage, PhysAnim, PhysAnimStorage, TgMetaAnim,
    TgMetaAnimStorage, TubesAnim,
};
use pyree::tubes_anim::{TubesAnimStorage, TubesWaveAnims};
use pyree::tunnelgon::{RingBasePosAnim, RingBaseValAnim, TunnelgonBaseAnim};

fn six() -> Vec<HexagonDefinition> {
    vec![A1, A2, A3, B1, B2, B3]
}

#[test]
fn eyes_are_taken_away_or_made_until_there_are_as_many_as_wanted() {
    let mut settings = PhysHexSettings::default();
    assert_eq!(settings.eye_count, 0);
    assert_eq!(settings.eyes_mode, EyesMode::Off);
    assert_eq!(EyesMode::default(), EyesMode::Off);
    assert_eq!(spawners_eyes(0, &settings), EyeAdjustment { keep: 0, despawn: 0, spawn: 0 });
    assert_eq!(spawners_eyes(3, &settings), EyeAdjustment { keep: 0, despawn: 3, spawn: 0 });
    settings.eye_count = 5;
    assert_eq!(spawners_eyes(3, &settings), EyeAdjustment { keep: 3, despawn: 0, spawn: 2 });
    assert_eq!(spawners_eyes(5, &settings), EyeAdjustment { keep: 5, despawn: 0, spawn: 0 });
    assert_eq!(spawners_eyes(9, &settings), EyeAdjustment { keep: 5, despawn: 4, spawn: 0 });
}

#[test]
fn swirl_takes_the_first_preset_where_the_chosen_one_does_not_exist() {
    assert_eq!(SWIRL_PRESET_COUNT, 7);
    let mut swirl = SwirlAutomation::default();
    assert_eq!(swirl.swirl_beat(), 0);
    swirl.preset = 6;
    assert_eq!(swirl.swirl_beat(), 6);
    swirl.preset = 7;
    assert_eq!(swirl.swirl_beat(), 0);
}

#[test]
fn render_layers_are_handed_down() {
    assert_eq!(recursive_propagate_render_layers(Some(8), Some(2)), 8);
    assert_eq!(recursive_propagate_render_layers(Some(8), None), 8);
    assert_eq!(recursive_propagate_render_layers(None, Some(2)), 2);
    assert_eq!(recursive_propagate_render_layers(None, None), ALL_RENDER_LAYERS);
    assert_eq!(ALL_RENDER_LAYERS, u32::MAX);
}

#[test]
fn last_event_of_the_frame_decides_what_is_visible() {
    let swirl = Swirlagon { hexagon_definition: A2 };
    assert!(show_swirlagon_system(&swirl, true, &vec![]));
    assert!(!show_swirlagon_system(&swirl, false, &vec![]));
    let events = vec![
        SetSwirlagonEvent { affected_hexagons: vec![A2] },
        SetSwirlagonEvent { affected_hexagons: vec![A1, B2] },
    ];
    assert!(!show_swirlagon_system(&swirl, true, &events));
    let events = vec![
        SetSwirlagonEvent { affected_hexagons: vec![] },
        SetSwirlagonEvent { affected_hexagons: vec![A1, A2] },
    ];
    assert!(show_swirlagon_system(&swirl, false, &events));
    let picture = Pedrogon { hexagon_definition: B3 };
    assert!(show_pedrogon(&picture, true, &vec![]));
    assert!(!show_pedrogon(&picture, true, &vec![SetPedrogonEvent { affected_hexagons: vec![] }]));
    assert!(show_pedrogon(&picture, false, &vec![SetPedrogonEvent { affected_hexagons: vec![B3] }]));
}

#[test]
fn swirl_and_picture_are_on_the_small_screens() {
    assert_eq!(small_screens(), six());
    let swirls: Vec<HexagonDefinition> =
        spawn_swirlagon().iter().map(|s| s.hexagon_definition).collect();
    assert_eq!(swirls, six());
    let pictures: Vec<HexagonDefinition> =
        spawn_pedrogon().iter().map(|p| p.hexagon_definition).collect();
    assert_eq!(pictures, six());
}

#[test]
fn zooming_hexagons_start_at_full_scale_and_shrink_away() {
    let red = [LEVEL_UNIT, 0, 0, LEVEL_UNIT];
    let events = vec![
        SpawnZoomagonEvent { affected_hexagons: vec![A1, B1], color: red },
        SpawnZoomagonEvent { affected_hexagons: vec![], color: red },
        SpawnZoomagonEvent { affected_hexagons: vec![Main], color: [1, 2, 3, 4] },
    ];
    let spawned = spawn_zoomagon_system(&events);
    assert_eq!(spawned.len(), 3);
    assert_eq!(spawned[1].hexagon, B1);
    assert_eq!(spawned[1].color, red);
    assert_eq!(spawned[2].hexagon, Main);
    assert_eq!(spawned[2].color, [1, 2, 3, 4]);
    assert_eq!(spawned[0].zoomagon, Zoomagon { scale: LEVEL_UNIT });
    let mut zooming =
        vec![Zoomagon { scale: LEVEL_UNIT }, Zoomagon { scale: 2_000 }, Zoomagon { scale: 41_000 }];
    zoomagon_system(&mut zooming, 20_000);
    assert_eq!(ZOOMAGON_GONE, 1_000);
    assert_eq!(zooming, vec![Zoomagon { scale: 960_000 }, Zoomagon { scale: 1_000 }]);
    zoomagon_system(&mut zooming, u64::MAX);
    assert!(zooming.is_empty());
}

#[test]
fn buttons_stand_for_their_events() {
    assert_eq!(tunnelgon_all().affected_hexagons, six());
    assert!(tunnelgon_off().affected_hexagons.is_empty());
    let eight: Vec<usize> = (0..8).collect();
    let pulse = laser_pulse();
    assert_eq!(pulse.affected_hexagons, six());
    assert_eq!(pulse.base_anim, TunnelgonBaseAnim::Pulse);
    assert_eq!(pulse.indices, eight);
    assert_eq!(pulse.values, vec![LEVEL_UNIT; 8]);
    let full = laser_full();
    assert_eq!(full.base_anim, TunnelgonBaseAnim::SetToVal);
    assert_eq!(full.indices, eight);
    assert_eq!(full.values, vec![LEVEL_UNIT; 8]);
    let off = laser_off();
    assert_eq!(off.affected_hexagons, six());
    assert_eq!(off.base_anim, TunnelgonBaseAnim::SetToVal);
    assert_eq!(off.values, vec![0; 8]);
    let rings = rings();
    assert_eq!(rings.affected_hexagons, six());
    assert_eq!(rings.base_pos_anim, RingBasePosAnim::SlideLinear);
    assert_eq!(rings.base_val_anim, RingBaseValAnim::Pulse);
    assert_eq!(rings.indices, vec![0, 1, 2, 3, 4]);
    assert_eq!(rings.positions_from, vec![0, 100_000, 200_000, 300_000, 400_000]);
    assert_eq!(rings.positions_to, vec![1_100_000, 1_200_000, 1_300_000, 1_400_000, 1_500_000]);
    assert_eq!(rings.values, vec![LEVEL_UNIT; 5]);
    assert_eq!(effector_screens(), vec![Main, A1, A2, A3]);
    assert_eq!(center_pull().affected_hexagons, vec![Main, A1, A2, A3]);
    assert_eq!(center_pull().strength, PULL_STRENGTH);
    assert_eq!(center_push().affected_hexagons, vec![Main, A1, A2, A3]);
}

#[test]
fn screen_shows_one_element_at_most() {
    let mut next = NextSettings::default();
    next.choose_tunnelgon(A1);
    next.choose_tunnelgon(A2);
    next.choose_tunnelgon(A1);
    assert_eq!(next.tunnelgon, vec![A1, A2]);
    next.choose_swirlgon(A1);
    assert_eq!(next.tunnelgon, vec![A2]);
    assert_eq!(next.swirlgon, vec![A1]);
    next.choose_pedrogon(A1);
    next.choose_pedrogon(A2);
    assert!(next.tunnelgon.is_empty());
    assert!(next.swirlgon.is_empty());
    assert_eq!(next.pedrogon, vec![A1, A2]);
    next.choose_nothing(A1);
    assert_eq!(next.pedrogon, vec![A2]);
    next.choose_tunnelgon(Main);
    next.choose_nothing(Main);
    assert!(next.tunnelgon.is_empty());
}

#[test]
fn choices_take_effect_on_the_beat() {
    let mut next = NextSettings::default();
    let mut swirl = SwirlAutomation { preset: 2, fix_fb_rot: true, fix_pal: false };
    next.swirl_preset = 5;
    next.choose_tunnelgon(B1);
    assert!(next.on_beat(&mut swirl).is_none());
    assert_eq!(swirl.preset, 2);
    next.swirl_next_beat = true;
    next.gons_next_beat = true;
    let selection = next.on_beat(&mut swirl).unwrap();
    assert_eq!(swirl, SwirlAutomation { preset: 5, fix_fb_rot: true, fix_pal: false });
    assert_eq!(selection.tunnelgon, vec![B1]);
    assert!(selection.swirlgon.is_empty());
    assert!(selection.pedrogon.is_empty());
    assert!(!next.gons_next_beat);
    assert!(next.on_beat(&mut swirl).is_none());
    assert_eq!(next.tunnelgon, vec![B1]);
}

#[test]
fn random_preset_is_one_that_the_panel_offers() {
    assert_eq!(SWIRL_PRESET_BUTTONS, 8);
    let mut next = NextSettings::default();
    next.choose_tunnelgon(B1);
    let mut seen = [false; 8];
    for _ in 0..500 {
        next.choose_random_preset();
        assert!(next.swirl_preset < 8);
        seen[next.swirl_preset] = true;
    }
    assert!(seen.iter().filter(|hit| **hit).count() > 1);
    assert_eq!(next.tunnelgon, vec![B1]);
}

fn patterns() -> TgMetaAnim {
    TgMetaAnim {
        laser_cycle: TunnelgonLaserCycleMetaAnim::default(),
        laser_figure_eight: TunnelgonLaserFigureEightMetaAnim::default(),
        laser_round_the_clock: TunnelgonLaserRoundTheClockMetaAnim::default(),
        laser_sweep: TunnelgonLaserSweepMetaAnim::default(),
        ring_ftb: TunnelgonRingsFTBMetaAnim::default(),
        ring_btf: TunnelgonRingsBTFMetaAnim::default(),
        ring_train: TunnelgonRingsTrainMetaAnim::default(),
    }
}

#[test]
fn stored_switches_are_loaded_into_the_patterns() {
    let mut tg = patterns();
    let mut storage = TgMetaAnimStorage::default();
    assert!(!storage.laser_cycle && !storage.ring_train);
    storage.laser_cycle = true;
    storage.laser_figure_eight = true;
    storage.ring_btf = true;
    storage.ring_train = true;
    tg.load_storage(storage);
    assert!(tg.laser_cycle.is_enabled());
    assert!(tg.laser_figure_eight.is_enabled());
    assert!(!tg.laser_round_the_clock.is_enabled());
    assert!(!tg.laser_sweep.is_enabled());
    assert!(!tg.ring_ftb.is_enabled());
    assert!(tg.ring_btf.is_enabled());
    assert!(tg.ring_train.enabled);
    tg.load_storage(TgMetaAnimStorage::default());
    assert!(!tg.laser_cycle.is_enabled());
    assert!(!tg.ring_train.enabled);

    let mut tubes = TubesAnim { wave: TubesWaveAnims::default() };
    let mut switches = TubesAnimStorage::default();
    switches.wave = 4;
    switches.punch3 = true;
    tubes.load_storage(switches);
    assert_eq!(tubes.wave.get_switches(), switches);

    let mut phys = PhysAnim {
        phys_meta_anim: PhysMetaAnim::default(),
        phys_hex_settings: PhysHexSettings::default(),
    };
    assert_eq!(
        PhysAnimStorage::default(),
        PhysAnimStorage { anim_mode: PhysAnimMode::Off, eye_count: 0, eyes_mode: EyesMode::Off }
    );
    phys.load_storage(PhysAnimStorage {
        anim_mode: PhysAnimMode::Sides,
        eye_count: 12,
        eyes_mode: EyesMode::Crazy,
    });
    assert_eq!(phys.phys_meta_anim.anim_mode(), PhysAnimMode::Sides);
    assert_eq!(
        phys.phys_hex_settings,
        PhysHexSettings { eye_count: 12, eyes_mode: EyesMode::Crazy }
    );
}

fn assert_same(a: &MetaAnimStorage, b: &MetaAnimStorage) {
    assert_eq!(a.tg, b.tg);
    assert_eq!(a.tubes, b.tubes);
    assert_eq!(a.phys, b.phys);
    assert_eq!(a.tg_next, b.tg_next);
    assert_eq!(a.sg_next, b.sg_next);
    assert_eq!(a.pg_next, b.pg_next);
}

#[test]
fn first_preset_is_as_designed() {
    let preset = preset1();
    let mut tg = TgMetaAnimStorage::default();
    tg.laser_round_the_clock = true;
    tg.ring_ftb = true;
    tg.ring_btf = true;
    assert_eq!(preset.tg, tg);
    let mut tubes = TubesAnimStorage::default();
    tubes.wave = 1;
    assert_eq!(preset.tubes, tubes);
    assert_eq!(preset.phys, PhysAnimStorage::default());
    assert_eq!(preset.tg_next, six());
    assert!(preset.sg_next.is_empty());
    assert!(preset.pg_next.is_empty());
    assert_same(&preset.duplicate(), &preset);
    assert_eq!(copy_screens(&six()), six());
}

#[test]
fn edits_go_to_the_prepared_settings_if_there_are_any() {
    let mut memory = MetaAnimMemory::default();
    assert!(!memory.is_prepared());
    assert_same(&memory.settings(), &MetaAnimStorage::default());
    let mut edited = memory.settings();
    edited.tg.laser_sweep = true;
    memory.edit(edited);
    assert!(memory.current().tg.laser_sweep);
    memory.prepare();
    assert!(memory.is_prepared());
    let mut edited = memory.settings();
    assert!(edited.tg.laser_sweep);
    edited.tubes.wave = 3;
    memory.edit(edited);
    assert_eq!(memory.settings().tubes.wave, 3);
    assert_eq!(memory.current().tubes.wave, 0);
    memory.discard();
    assert!(!memory.is_prepared());
    assert_eq!(memory.settings().tubes.wave, 0);
}

#[test]
fn prepared_settings_go_live_when_loaded() {
    let mut memory = MetaAnimMemory::default();
    // the screens of the live settings are announced once
    assert!(memory.gons_to_write().is_some());
    assert!(memory.gons_to_write().is_none());
    memory.load();
    assert!(memory.gons_to_write().is_none());
    memory.preset();
    assert!(memory.is_prepared());
    assert_same(&memory.current(), &MetaAnimStorage::default());
    memory.load();
    assert!(!memory.is_prepared());
    assert_same(&memory.current(), &preset1());
    let selection = memory.gons_to_write().unwrap();
    assert_eq!(selection.tunnelgon, six());
    assert!(selection.swirlgon.is_empty());
    assert!(selection.pedrogon.is_empty());
    assert!(memory.gons_to_write().is_none());
}

#[test]
fn prepared_settings_go_live_on_the_beat_if_told_to() {
    let mut memory = MetaAnimMemory::default();
    memory.gons_to_write();
    memory.preset();
    memory.on_beats(3);
    assert!(memory.is_prepared());
    memory.set_next_on_beat(true);
    assert!(memory.loads_on_beat());
    memory.on_beats(0);
    assert!(memory.is_prepared());
    memory.on_beats(2);
    assert!(!memory.is_prepared());
    assert!(!memory.loads_on_beat());
    assert_same(&memory.current(), &preset1());
    assert!(memory.gons_to_write().is_some());
    // waiting for a beat with nothing prepared changes nothing
    memory.set_next_on_beat(true);
    memory.on_beats(1);
    assert!(memory.loads_on_beat());
    assert_same(&memory.current(), &preset1());
}

#[test]
fn settings_are_stored_loaded_and_deleted() {
    let mut memory = MetaAnimMemory::default();
    memory.store();
    memory.preset();
    memory.store();
    assert_eq!(memory.stored_count(), 2);
    memory.discard();
    memory.load_stored(1);
    assert_same(&memory.settings(), &preset1());
    memory.load_stored(0);
    assert_same(&memory.settings(), &MetaAnimStorage::default());
    memory.load_stored(2);
    assert_same(&memory.settings(), &MetaAnimStorage::default());
    memory.delete_stored(0);
    assert_eq!(memory.stored_count(), 1);
    memory.load_stored(0);
    assert_same(&memory.settings(), &preset1());
    memory.delete_stored(5);
    assert_eq!(memory.stored_count(), 1);
}
