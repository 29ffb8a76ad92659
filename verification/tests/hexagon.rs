use pyree::channel::{Channel, ChannelKind, ChannelWrite};
use pyree::hexagon::HexagonDefinition::{Main, A1, A2, A3, B1, B2, B3};
use pyree::hexagon::{
    contains_hex, insert_hex_to_vec, remove_hex_from_vec, HexagonComponent, HexagonDefinition,
    HEXAGON_COUNT,
};
use pyree::anim::LEVEL_UNIT;
use pyree::pool::{
    apply_write, apply_writes, read_channel, spawn_tunnelgon_system, tunnelgon_accum, Tunnelgon,
    TunnelgonAccum, TunnelgonParams,
};
use pyree::tunnelgon::SetTunnelgonEvent;

#[test]
fn screens_have_their_slots() {
    let all = [Main, A1, A2, A3, B1, B2, B3];
    assert_eq!(HEXAGON_COUNT, 7);
    for (at, hexagon) in all.iter().enumerate() {
        assert_eq!(hexagon.slot(), at);
        assert_eq!(HexagonDefinition::from_slot(at), Some(*hexagon));
        assert_eq!(hexagon.get_render_layers() as usize, 10 + at);
    }
    assert_eq!(HexagonDefinition::from_slot(7), None);
}

#[test]
fn screens_have_their_place_on_the_canvas() {
    assert_eq!(Main.center(), (960, 540));
    assert_eq!(A3.center(), (479, 373));
    assert_eq!(A2.center(), (194, 540));
    assert_eq!(A1.center(), (479, 706));
    assert_eq!(B3.center(), (1440, 373));
    assert_eq!(B2.center(), (1725, 540));
    assert_eq!(B1.center(), (1440, 706));
    assert_eq!(Main.size(), (730, 632));
    for small in [A1, A2, A3, B1, B2, B3] {
        assert_eq!(small.size(), (346, 299));
    }
}

#[test]
fn component_knows_its_screen() {
    let component = HexagonComponent::from(B2);
    assert_eq!(component.get_hexagon_definition(), B2);
    assert!(component.is_on(&B2));
    assert!(!component.is_on(&B1));
}

#[test]
fn insert_adds_a_screen_once() {
    let mut list = vec![A1, B1];
    insert_hex_to_vec(&mut list, &A2);
    assert_eq!(list, vec![A1, B1, A2]);
    insert_hex_to_vec(&mut list, &B1);
    assert_eq!(list, vec![A1, B1, A2]);
    assert!(contains_hex(&list, &A2));
    assert!(!contains_hex(&list, &Main));
}

#[test]
fn remove_takes_every_occurrence_and_keeps_the_order() {
    let mut list = vec![A1, B1, A1, Main, A1];
    remove_hex_from_vec(&mut list, &A1);
    assert_eq!(list, vec![B1, Main]);
    remove_hex_from_vec(&mut list, &A3);
    assert_eq!(list, vec![B1, Main]);
    let mut empty: Vec<HexagonDefinition> = vec![];
    remove_hex_from_vec(&mut empty, &A3);
    assert!(empty.is_empty());
}

#[test]
fn new_tunnel_is_dark() {
    let tunnel = Tunnelgon::new(A2);
    assert_eq!(tunnel.hexagon_definition(), A2);
    let params = TunnelgonParams::default();
    assert_eq!(tunnel.params.laser, [0; 8]);
    assert_eq!(params.rings_pos, [0; 8]);
    assert_eq!(params.rings_amp, [0; 8]);
    assert_eq!(params.spiral_freq, 10 * LEVEL_UNIT);
    assert_eq!(params.spiral_skew, 6 * LEVEL_UNIT);
    assert_eq!(params.spiral_dir, LEVEL_UNIT);
    assert_eq!(params.spiral_accum, LEVEL_UNIT);
    assert_eq!(params.tun_accum, 0);
    assert_eq!(params.tun_accum_target, 0);
}

#[test]
fn write_changes_one_slot_of_one_family() {
    let mut params = TunnelgonParams::default();
    params.write(ChannelKind::RingPosition, 3, 77);
    let mut expected = [0; 8];
    expected[3] = 77;
    assert_eq!(params.rings_pos, expected);
    assert_eq!(params.rings_amp, [0; 8]);
    assert_eq!(params.laser, [0; 8]);
    assert_eq!(params.read(ChannelKind::RingPosition, 3), 77);
    assert_eq!(params.read(ChannelKind::RingPosition, 11), 77);
    assert_eq!(params.read(ChannelKind::RingAmplitude, 3), 0);
    params.write(ChannelKind::Laser, 9, 5);
    assert_eq!(params.laser, [0, 5, 0, 0, 0, 0, 0, 0]);
}

#[test]
fn write_reaches_every_tunnel_on_its_screen_and_no_other() {
    let mut pool = vec![Tunnelgon::new(A1), Tunnelgon::new(B1), Tunnelgon::new(A1)];
    let write = ChannelWrite {
        channel: Channel { hexagon: A1, kind: ChannelKind::RingAmplitude, index: 7 },
        value: 123,
    };
    assert_eq!(apply_write(&mut pool, &write), 2);
    assert_eq!(pool[0].params.rings_amp[7], 123);
    assert_eq!(pool[2].params.rings_amp[7], 123);
    assert_eq!(pool[1].params.rings_amp, [0; 8]);
    assert_eq!(read_channel(&pool, &write.channel), Some(123));
    let elsewhere = ChannelWrite {
        channel: Channel { hexagon: Main, kind: ChannelKind::Laser, index: 0 },
        value: 9,
    };
    assert_eq!(apply_write(&mut pool, &elsewhere), 0);
    assert_eq!(read_channel(&pool, &elsewhere.channel), None);
}

#[test]
fn later_write_to_a_slot_wins() {
    let mut pool = vec![Tunnelgon::new(A1)];
    let channel = Channel { hexagon: A1, kind: ChannelKind::Laser, index: 2 };
    let other = Channel { hexagon: A1, kind: ChannelKind::Laser, index: 3 };
    let writes = vec![
        ChannelWrite { channel, value: 1 },
        ChannelWrite { channel: other, value: 2 },
        ChannelWrite { channel, value: 3 },
        ChannelWrite { channel: Channel { hexagon: B3, ..channel }, value: 4 },
    ];
    assert_eq!(apply_writes(&mut pool, &writes), 1);
    assert_eq!(pool[0].params.laser, [0, 0, 3, 2, 0, 0, 0, 0]);
}

#[test]
fn latest_event_decides_where_the_tunnel_shows() {
    let mut pool = vec![Tunnelgon::new(A1)];
    pool[0].params.laser[0] = 5;
    spawn_tunnelgon_system(&mut pool, &vec![]);
    assert_eq!(pool.len(), 1);
    assert_eq!(pool[0].params.laser[0], 5);
    let events = vec![
        SetTunnelgonEvent { affected_hexagons: vec![Main] },
        SetTunnelgonEvent { affected_hexagons: vec![B1, B2, B1] },
    ];
    spawn_tunnelgon_system(&mut pool, &events);
    let screens: Vec<HexagonDefinition> = pool.iter().map(|t| t.hexagon_definition()).collect();
    assert_eq!(screens, vec![B1, B2, B1]);
    assert_eq!(pool[0].params.laser, [0; 8]);
    spawn_tunnelgon_system(&mut pool, &vec![SetTunnelgonEvent { affected_hexagons: vec![] }]);
    assert!(pool.is_empty());
}

#[test]
fn tunnel_travels_with_the_beat_when_enabled() {
    let mut pool = vec![Tunnelgon::new(A1), Tunnelgon::new(B1)];
    let off = TunnelgonAccum::default();
    tunnelgon_accum(&mut pool, 3, 100_000, &off);
    assert_eq!(pool[0].params.tun_accum_target, 0);
    assert_eq!(pool[0].params.tun_accum, 0);
    let on = TunnelgonAccum { enabled: true };
    tunnelgon_accum(&mut pool, 2, 100_000, &on);
    for tunnel in &pool {
        assert_eq!(tunnel.params.tun_accum_target, 2 * LEVEL_UNIT);
        assert_eq!(tunnel.params.tun_accum, LEVEL_UNIT);
    }
    tunnelgon_accum(&mut pool, 0, 100_000, &on);
    assert_eq!(pool[1].params.tun_accum, 1_500_000);
    tunnelgon_accum(&mut pool, 0, 0, &on);
    assert_eq!(pool[1].params.tun_accum, 1_500_000);
    pool[0].params.tun_accum_target = i64::MAX - 1;
    tunnelgon_accum(&mut pool, usize::MAX, 0, &on);
    assert_eq!(pool[0].params.tun_accum_target, i64::MAX);
}
