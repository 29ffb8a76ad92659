//! The flat elements that screens show besides the tunnel: which of them is
//! visible where, and the hexagon that zooms away.
use crate::hexagon::{contains_hex, HexagonDefinition};
use vstd::prelude::*;

verus! {

/// The scale below which a zooming hexagon is gone: a thousandth.
pub const ZOOMAGON_GONE: i64 = 1_000;

/// Shows the swirl on the listed screens and on no others.
#[derive(Clone, Debug)]
pub struct SetSwirlagonEvent {
    pub affected_hexagons: Vec<HexagonDefinition>,
}

/// Shows the animated picture on the listed screens and on no others.
#[derive(Clone, Debug)]
pub struct SetPedrogonEvent {
    pub affected_hexagons: Vec<HexagonDefinition>,
}

/// Starts a hexagon zooming away on each of the listed screens, in a colour
/// given as red, green, blue and alpha in millionths.
#[derive(Clone, Debug)]
pub struct SpawnZoomagonEvent {
    pub affected_hexagons: Vec<HexagonDefinition>,
    pub color: [i64; 4],
}

/// The swirl as one screen shows it.
#[derive(Copy, Clone, Debug, PartialEq, Eq, Structural)]
pub struct Swirlagon {
    pub hexagon_definition: HexagonDefinition,
}

/// The animated picture as one screen shows it.
#[derive(Copy, Clone, Debug, PartialEq, Eq, Structural)]
pub struct Pedrogon {
    pub hexagon_definition: HexagonDefinition,
}

/// A hexagon that zooms away, with its scale in millionths.
#[derive(Copy, Clone, Debug, PartialEq, Eq, Structural)]
pub struct Zoomagon {
    pub scale: i64,
}

/// Whether an element on `hexagon` is visible after a list of lists of
/// screens, each of which says anew where the element is visible: the last
/// list decides, and without a list it stays as it was.
pub open spec fn visible_after(
    shown: bool,
    hexagon: HexagonDefinition,
    lists: Seq<Seq<HexagonDefinition>>,
) -> bool {
    if lists.len() == 0 {
        shown
    } else {
        lists.last().contains(hexagon)
    }
}

/// The screens that the swirl events of a frame list, event by event.
pub open spec fn swirlagon_lists(events: Seq<SetSwirlagonEvent>) -> Seq<Seq<HexagonDefinition>> {
    events.map_values(|event: SetSwirlagonEvent| event.affected_hexagons@)
}

/// The screens that the picture events of a frame list, event by event.
pub open spec fn pedrogon_lists(events: Seq<SetPedrogonEvent>) -> Seq<Seq<HexagonDefinition>> {
    events.map_values(|event: SetPedrogonEvent| event.affected_hexagons@)
}

/// Whether the swirl on the screen of `swirlagon` is visible after the
/// events of a frame, where it was `shown` before.
pub fn show_swirlagon_system(swirlagon: &Swirlagon, shown: bool, events: &Vec<SetSwirlagonEvent>) -> (r:
    bool)
    ensures
        r == visible_after(shown, swirlagon.hexagon_definition, swirlagon_lists(events@)),
{
    if events.len() == 0 {
        shown
    } else {
        proof {
            assert(swirlagon_lists(events@).last() == events@.last().affected_hexagons@);
        }
        contains_hex(&events[events.len() - 1].affected_hexagons, &swirlagon.hexagon_definition)
    }
}

/// Whether the picture on the screen of `pedrogon` is visible after the
/// events of a frame, where it was `shown` before.
pub fn show_pedrogon(pedrogon: &Pedrogon, shown: bool, events: &Vec<SetPedrogonEvent>) -> (r: bool)
    ensures
        r == visible_after(shown, pedrogon.hexagon_definition, pedrogon_lists(events@)),
{
    if events.len() == 0 {
        shown
    } else {
        proof {
            assert(pedrogon_lists(events@).last() == events@.last().affected_hexagons@);
        }
        contains_hex(&events[events.len() - 1].affected_hexagons, &pedrogon.hexagon_definition)
    }
}

/// The screens that show the swirl and the picture from the start: the six
/// small ones.
pub fn small_screens() -> (screens: Vec<HexagonDefinition>)
    ensures
        screens@ == seq![
            HexagonDefinition::A1,
            HexagonDefinition::A2,
            HexagonDefinition::A3,
            HexagonDefinition::B1,
            HexagonDefinition::B2,
            HexagonDefinition::B3,
        ],
{
    let mut screens: Vec<HexagonDefinition> = Vec::new();
    screens.push(HexagonDefinition::A1);
    screens.push(HexagonDefinition::A2);
    screens.push(HexagonDefinition::A3);
    screens.push(HexagonDefinition::B1);
    screens.push(HexagonDefinition::B2);
    screens.push(HexagonDefinition::B3);
    assert(screens@ =~= seq![
        HexagonDefinition::A1,
        HexagonDefinition::A2,
        HexagonDefinition::A3,
        HexagonDefinition::B1,
        HexagonDefinition::B2,
        HexagonDefinition::B3,
    ]);
    screens
}

/// The swirl for each small screen.
pub fn spawn_swirlagon() -> (swirlagons: Vec<Swirlagon>)
    ensures
        swirlagons@.len() == 6,
        forall|i: int|
            0 <= i < 6 ==> (#[trigger] swirlagons@[i]).hexagon_definition.ordinal() == i + 1,
{
    let screens = small_screens();
    let mut swirlagons: Vec<Swirlagon> = Vec::new();
    let mut i: usize = 0;
    while i < screens.len()
        invariant
            i <= screens.len(),
            screens@.len() == 6,
            forall|k: int| 0 <= k < 6 ==> (#[trigger] screens@[k]).ordinal() == k + 1,
            swirlagons@.len() == i,
            forall|k: int|
                0 <= k < i ==> (#[trigger] swirlagons@[k]).hexagon_definition.ordinal() == k + 1,
        decreases screens.len() - i,
    {
        swirlagons.push(Swirlagon { hexagon_definition: screens[i] });
        i += 1;
    }
    swirlagons
}

/// The animated picture for each small screen.
pub fn spawn_pedrogon() -> (pedrogons: Vec<Pedrogon>)
    ensures
        pedrogons@.len() == 6,
        forall|i: int|
            0 <= i < 6 ==> (#[trigger] pedrogons@[i]).hexagon_definition.ordinal() == i + 1,
{
    let screens = small_screens();
    let mut pedrogons: Vec<Pedrogon> = Vec::new();
    let mut i: usize = 0;
    while i < screens.len()
        invariant
            i <= screens.len(),
            screens@.len() == 6,
            forall|k: int| 0 <= k < 6 ==> (#[trigger] screens@[k]).ordinal() == k + 1,
            pedrogons@.len() == i,
            forall|k: int|
                0 <= k < i ==> (#[trigger] pedrogons@[k]).hexagon_definition.ordinal() == k + 1,
        decreases screens.len() - i,
    {
        pedrogons.push(Pedrogon { hexagon_definition: screens[i] });
        i += 1;
    }
    pedrogons
}

/// The scale of a zooming hexagon after a frame of `dt` microseconds: it
/// shrinks by two whole levels per second, within the range of a level.
pub open spec fn zoomed(scale: i64, dt: u64) -> i64 {
    if scale - 2 * dt < i64::MIN {
        i64::MIN
    } else {
        (scale - 2 * dt) as i64
    }
}

/// What is left of a zooming hexagon after a frame, if it is not gone.
pub open spec fn zooming_on(dt: u64) -> spec_fn(Zoomagon) -> Option<Zoomagon> {
    |zoomagon: Zoomagon|
        if zoomed(zoomagon.scale, dt) < ZOOMAGON_GONE {
            None
        } else {
            Some(Zoomagon { scale: zoomed(zoomagon.scale, dt) })
        }
}

/// A hexagon that has just begun to zoom away, with where it is and its
/// colour.
#[derive(Copy, Clone, Debug)]
pub struct SpawnedZoomagon {
    pub hexagon: HexagonDefinition,
    pub color: [i64; 4],
    pub zoomagon: Zoomagon,
}

impl SpawnZoomagonEvent {
    /// The hexagon that the event starts on its `at`-th screen: at full
    /// scale, in the colour of the event.
    pub open spec fn spawned(&self, at: int) -> SpawnedZoomagon {
        SpawnedZoomagon {
            hexagon: self.affected_hexagons@[at],
            color: self.color,
            zoomagon: Zoomagon { scale: 1_000_000 },
        }
    }

    /// The hexagons that the event starts: one for each listed screen.
    pub open spec fn spawned_all(&self) -> Seq<SpawnedZoomagon> {
        Seq::new(self.affected_hexagons@.len(), |at: int| self.spawned(at))
    }
}

/// The hexagons that a list of events starts, event by event.
pub open spec fn zoomagons_of(events: Seq<SpawnZoomagonEvent>) -> Seq<SpawnedZoomagon>
    decreases events.len(),
{
    if events.len() == 0 {
        Seq::empty()
    } else {
        zoomagons_of(events.drop_last()) + events.last().spawned_all()
    }
}

/// The hexagons that the events of a frame start zooming.
pub fn spawn_zoomagon_system(events: &Vec<SpawnZoomagonEvent>) -> (spawned: Vec<SpawnedZoomagon>)
    ensures
        spawned@ == zoomagons_of(events@),
{
    let mut spawned: Vec<SpawnedZoomagon> = Vec::new();
    let mut e: usize = 0;
    while e < events.len()
        invariant
            e <= events.len(),
            spawned@ == zoomagons_of(events@.take(e as int)),
        decreases events.len() - e,
    {
        let event = &events[e];
        let ghost before = spawned@;
        let mut h: usize = 0;
        while h < event.affected_hexagons.len()
            invariant
                h <= event.affected_hexagons.len(),
                spawned@ == before + event.spawned_all().take(h as int),
            decreases event.affected_hexagons.len() - h,
        {
            spawned.push(
                SpawnedZoomagon {
                    hexagon: event.affected_hexagons[h],
                    color: event.color,
                    zoomagon: Zoomagon { scale: 1_000_000 },
                },
            );
            proof {
                let all = event.spawned_all();
                assert(all.take(h as int + 1) == all.take(h as int).push(all[h as int]));
            }
            h += 1;
        }
        proof {
            let all = event.spawned_all();
            assert(all.take(all.len() as int) == all);
            let next = events@.take(e as int + 1);
            assert(next.drop_last() == events@.take(e as int));
            assert(next.last() == events@[e as int]);
        }
        e += 1;
    }
    proof {
        assert(events@.take(events.len() as int) == events@);
    }
    spawned
}

/// Lets every zooming hexagon shrink for a frame of `dt` microseconds and
/// drops those that are gone.
pub fn zoomagon_system(zoomagons: &mut Vec<Zoomagon>, dt: u64)
    ensures
        final(zoomagons)@ == old(zoomagons)@.filter_map(zooming_on(dt)),
{
    let mut kept: Vec<Zoomagon> = Vec::new();
    let mut i: usize = 0;
    while i < zoomagons.len()
        invariant
            i <= zoomagons.len(),
            zoomagons@ == old(zoomagons)@,
            kept@ == zoomagons@.take(i as int).filter_map(zooming_on(dt)),
        decreases zoomagons.len() - i,
    {
        proof {
            zoomagons@.lemma_filter_map_take_succ(zooming_on(dt), i as int);
        }
        let wide: i128 = zoomagons[i].scale as i128 - 2 * (dt as i128);
        let scale: i64 = if wide < i64::MIN as i128 {
            i64::MIN
        } else {
            wide as i64
        };
        if scale >= ZOOMAGON_GONE {
            kept.push(Zoomagon { scale });
        }
        i += 1;
    }
    proof {
        assert(zoomagons@.take(zoomagons.len() as int) == zoomagons@);
    }
    *zoomagons = kept;
}

} // verus!
