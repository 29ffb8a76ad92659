//! The tunnel shown on a screen: its lasers and rings, the events that
//! animate them, and how one event fans out over screens and slots.
use crate::hexagon::HexagonDefinition;
use vstd::prelude::*;

verus! {

/// How a laser is driven.
#[derive(Copy, Clone, Debug, PartialEq, Eq, Structural)]
pub enum TunnelgonBaseAnim {
    /// Jump to the value and decay to zero.
    Pulse,
    /// Jump to the value and stay.
    SetToVal,
}

/// How the position of a ring is driven.
#[derive(Copy, Clone, Debug, PartialEq, Eq, Structural)]
pub enum RingBasePosAnim {
    /// Jump to the end position.
    SetToPosition,
    /// Slide from the start position to the end position.
    SlideLinear,
}

/// How the amplitude of a ring is driven.
#[derive(Copy, Clone, Debug, PartialEq, Eq, Structural)]
pub enum RingBaseValAnim {
    /// Jump to the value and stay.
    SetToVal,
    /// Jump to the value and decay to zero.
    Pulse,
}

/// Shows the tunnel on the listed screens and on no others.
#[derive(Clone, Debug)]
pub struct SetTunnelgonEvent {
    pub affected_hexagons: Vec<HexagonDefinition>,
}

/// A request to drive lasers: on each listed screen, each listed slot. The
/// values go with the slots by position.
#[derive(Clone, Debug)]
pub struct LaserAnimationEvent {
    pub affected_hexagons: Vec<HexagonDefinition>,
    pub base_anim: TunnelgonBaseAnim,
    pub indices: Vec<usize>,
    pub values: Vec<i64>,
}

/// A request to drive rings: on each listed screen, each listed slot. The
/// values and positions go with the slots by position.
#[derive(Clone, Debug)]
pub struct RingAnimationEvent {
    pub affected_hexagons: Vec<HexagonDefinition>,
    pub base_pos_anim: RingBasePosAnim,
    pub base_val_anim: RingBaseValAnim,
    pub indices: Vec<usize>,
    pub positions_from: Vec<i64>,
    pub positions_to: Vec<i64>,
    pub values: Vec<i64>,
}

/// What a laser event asks of one slot of one screen.
#[derive(Copy, Clone, Debug, PartialEq, Eq, Structural)]
pub struct LaserTrigger {
    pub hexagon: HexagonDefinition,
    pub base_anim: TunnelgonBaseAnim,
    pub index: usize,
    pub value: i64,
}

/// What a ring event asks of one slot of one screen.
#[derive(Copy, Clone, Debug, PartialEq, Eq, Structural)]
pub struct RingTrigger {
    pub hexagon: HexagonDefinition,
    pub base_pos_anim: RingBasePosAnim,
    pub base_val_anim: RingBaseValAnim,
    pub index: usize,
    pub value: i64,
    pub position_from: i64,
    pub position_to: i64,
}

/// The entry of a list at a position, or zero where the list is too short.
pub open spec fn value_or_zero(values: Seq<i64>, at: int) -> i64 {
    if 0 <= at < values.len() {
        values[at]
    } else {
        0
    }
}

impl LaserAnimationEvent {
    /// What the event asks of its `slot`-th index on its `screen`-th screen.
    pub open spec fn trigger(&self, screen: int, slot: int) -> LaserTrigger {
        LaserTrigger {
            hexagon: self.affected_hexagons@[screen],
            base_anim: self.base_anim,
            index: self.indices@[slot],
            value: value_or_zero(self.values@, slot),
        }
    }

    /// What the event asks of one screen: one request for each index, in the
    /// order of the indices.
    pub open spec fn row(&self, screen: int) -> Seq<LaserTrigger> {
        Seq::new(self.indices@.len(), |slot: int| self.trigger(screen, slot))
    }

    /// The rows of the first `screens` screens, one after the other.
    pub open spec fn rows(&self, screens: nat) -> Seq<LaserTrigger>
        decreases screens,
    {
        if screens == 0 {
            Seq::empty()
        } else {
            self.rows((screens - 1) as nat) + self.row(screens - 1)
        }
    }

    /// Everything the event asks for: screen by screen, and for each screen
    /// index by index.
    pub open spec fn fan_out(&self) -> Seq<LaserTrigger> {
        self.rows(self.affected_hexagons@.len())
    }
}

impl RingAnimationEvent {
    /// What the event asks of its `slot`-th index on its `screen`-th screen.
    pub open spec fn trigger(&self, screen: int, slot: int) -> RingTrigger {
        RingTrigger {
            hexagon: self.affected_hexagons@[screen],
            base_pos_anim: self.base_pos_anim,
            base_val_anim: self.base_val_anim,
            index: self.indices@[slot],
            value: value_or_zero(self.values@, slot),
            position_from: value_or_zero(self.positions_from@, slot),
            position_to: value_or_zero(self.positions_to@, slot),
        }
    }

    /// What the event asks of one screen: one request for each index, in the
    /// order of the indices.
    pub open spec fn row(&self, screen: int) -> Seq<RingTrigger> {
        Seq::new(self.indices@.len(), |slot: int| self.trigger(screen, slot))
    }

    /// The rows of the first `screens` screens, one after the other.
    pub open spec fn rows(&self, screens: nat) -> Seq<RingTrigger>
        decreases screens,
    {
        if screens == 0 {
            Seq::empty()
        } else {
            self.rows((screens - 1) as nat) + self.row(screens - 1)
        }
    }

    /// Everything the event asks for: screen by screen, and for each screen
    /// index by index.
    pub open spec fn fan_out(&self) -> Seq<RingTrigger> {
        self.rows(self.affected_hexagons@.len())
    }
}

/// The requests of a batch of laser events: event by event, each fanned out.
pub open spec fn flatten_laser(events: Seq<LaserAnimationEvent>) -> Seq<LaserTrigger>
    decreases events.len(),
{
    if events.len() == 0 {
        Seq::empty()
    } else {
        flatten_laser(events.drop_last()) + events.last().fan_out()
    }
}

/// The requests of a batch of ring events: event by event, each fanned out.
pub open spec fn flatten_rings(events: Seq<RingAnimationEvent>) -> Seq<RingTrigger>
    decreases events.len(),
{
    if events.len() == 0 {
        Seq::empty()
    } else {
        flatten_rings(events.drop_last()) + events.last().fan_out()
    }
}

/// The entry of `values` at `at`, or zero where the list is too short.
fn value_at(values: &Vec<i64>, at: usize) -> (r: i64)
    ensures
        r == value_or_zero(values@, at as int),
{
    if at < values.len() {
        values[at]
    } else {
        0
    }
}

/// Fans a batch of laser events out into single requests.
pub fn flatten_laser_events(events: &Vec<LaserAnimationEvent>) -> (out: Vec<LaserTrigger>)
    ensures
        out@ == flatten_laser(events@),
{
    let mut out: Vec<LaserTrigger> = Vec::new();
    let mut e: usize = 0;
    while e < events.len()
        invariant
            e <= events.len(),
            out@ == flatten_laser(events@.take(e as int)),
        decreases events.len() - e,
    {
        let event = &events[e];
        let ghost before = out@;
        let mut h: usize = 0;
        while h < event.affected_hexagons.len()
            invariant
                h <= event.affected_hexagons.len(),
                out@ == before + event.rows(h as nat),
            decreases event.affected_hexagons.len() - h,
        {
            let ghost done = out@;
            let mut i: usize = 0;
            while i < event.indices.len()
                invariant
                    h < event.affected_hexagons.len(),
                    i <= event.indices.len(),
                    out@ == done + event.row(h as int).take(i as int),
                decreases event.indices.len() - i,
            {
                out.push(
                    LaserTrigger {
                        hexagon: event.affected_hexagons[h],
                        base_anim: event.base_anim,
                        index: event.indices[i],
                        value: value_at(&event.values, i),
                    },
                );
                proof {
                    let row = event.row(h as int);
                    assert(row.take(i as int + 1) == row.take(i as int).push(row[i as int]));
                }
                i += 1;
            }
            proof {
                let row = event.row(h as int);
                assert(row.take(row.len() as int) == row);
                assert(event.rows((h + 1) as nat) == event.rows(h as nat) + row);
            }
            h += 1;
        }
        proof {
            let next = events@.take(e as int + 1);
            assert(next.drop_last() == events@.take(e as int));
            assert(next.last() == events@[e as int]);
        }
        e += 1;
    }
    proof {
        assert(events@.take(events.len() as int) == events@);
    }
    out
}

/// Fans a batch of ring events out into single requests.
pub fn flatten_ring_events(events: &Vec<RingAnimationEvent>) -> (out: Vec<RingTrigger>)
    ensures
        out@ == flatten_rings(events@),
{
    let mut out: Vec<RingTrigger> = Vec::new();
    let mut e: usize = 0;
    while e < events.len()
        invariant
            e <= events.len(),
            out@ == flatten_rings(events@.take(e as int)),
        decreases events.len() - e,
    {
        let event = &events[e];
        let ghost before = out@;
        let mut h: usize = 0;
        while h < event.affected_hexagons.len()
            invariant
                h <= event.affected_hexagons.len(),
                out@ == before + event.rows(h as nat),
            decreases event.affected_hexagons.len() - h,
        {
            let ghost done = out@;
            let mut i: usize = 0;
            while i < event.indices.len()
                invariant
                    h < event.affected_hexagons.len(),
                    i <= event.indices.len(),
                    out@ == done + event.row(h as int).take(i as int),
                decreases event.indices.len() - i,
            {
                out.push(
                    RingTrigger {
                        hexagon: event.affected_hexagons[h],
                        base_pos_anim: event.base_pos_anim,
                        base_val_anim: event.base_val_anim,
                        index: event.indices[i],
                        value: value_at(&event.values, i),
                        position_from: value_at(&event.positions_from, i),
                        position_to: value_at(&event.positions_to, i),
                    },
                );
                proof {
                    let row = event.row(h as int);
                    assert(row.take(i as int + 1) == row.take(i as int).push(row[i as int]));
                }
                i += 1;
            }
            proof {
                let row = event.row(h as int);
                assert(row.take(row.len() as int) == row);
                assert(event.rows((h + 1) as nat) == event.rows(h as nat) + row);
            }
            h += 1;
        }
        proof {
            let next = events@.take(e as int + 1);
            assert(next.drop_last() == events@.take(e as int));
            assert(next.last() == events@[e as int]);
        }
        e += 1;
    }
    proof {
        assert(events@.take(events.len() as int) == events@);
    }
    out
}

/// Fan-out of a laser event: it asks for as many things as it has screens
/// times indices, and the request of its `screen`-th screen for its
/// `slot`-th index stands at `screen * indices + slot`.
pub proof fn lemma_laser_fan_out(event: LaserAnimationEvent, screens: nat)
    requires
        screens <= event.affected_hexagons@.len(),
    ensures
        event.rows(screens).len() == screens * event.indices@.len(),
        forall|screen: int, slot: int|
            0 <= screen < screens && 0 <= slot < event.indices@.len() ==> event.rows(
                screens,
            )[screen * event.indices@.len() + slot] == #[trigger] event.trigger(screen, slot),
    decreases screens,
{
    let n = event.indices@.len();
    if screens == 0 {
        assert(screens * n == 0) by (nonlinear_arith)
            requires
                screens == 0,
        ;
    } else {
        let earlier = (screens - 1) as nat;
        lemma_laser_fan_out(event, earlier);
        assert(screens * n == earlier * n + n) by (nonlinear_arith)
            requires
                earlier == screens - 1,
        ;
        assert forall|screen: int, slot: int| 0 <= screen < screens && 0 <= slot < n implies event.rows(
            screens,
        )[screen * n + slot] == #[trigger] event.trigger(screen, slot) by {
            if screen < earlier {
                assert(screen * n + slot < earlier * n) by (nonlinear_arith)
                    requires
                        0 <= screen < earlier,
                        0 <= slot < n,
                ;
                assert(0 <= screen * n + slot) by (nonlinear_arith)
                    requires
                        0 <= screen,
                        0 <= slot,
                        0 <= n,
                ;
            } else {
                assert(event.row(screen)[slot] == event.trigger(screen, slot));
            }
        }
    }
}

/// Fan-out of a ring event: it asks for as many things as it has screens
/// times indices, and the request of its `screen`-th screen for its
/// `slot`-th index stands at `screen * indices + slot`.
pub proof fn lemma_ring_fan_out(event: RingAnimationEvent, screens: nat)
    requires
        screens <= event.affected_hexagons@.len(),
    ensures
        event.rows(screens).len() == screens * event.indices@.len(),
        forall|screen: int, slot: int|
            0 <= screen < screens && 0 <= slot < event.indices@.len() ==> event.rows(
                screens,
            )[screen * event.indices@.len() + slot] == #[trigger] event.trigger(screen, slot),
    decreases screens,
{
    let n = event.indices@.len();
    if screens == 0 {
        assert(screens * n == 0) by (nonlinear_arith)
            requires
                screens == 0,
        ;
    } else {
        let earlier = (screens - 1) as nat;
        lemma_ring_fan_out(event, earlier);
        assert(screens * n == earlier * n + n) by (nonlinear_arith)
            requires
                earlier == screens - 1,
        ;
        assert forall|screen: int, slot: int| 0 <= screen < screens && 0 <= slot < n implies event.rows(
            screens,
        )[screen * n + slot] == #[trigger] event.trigger(screen, slot) by {
            if screen < earlier {
                assert(screen * n + slot < earlier * n) by (nonlinear_arith)
                    requires
                        0 <= screen < earlier,
                        0 <= slot < n,
                ;
                assert(0 <= screen * n + slot) by (nonlinear_arith)
                    requires
                        0 <= screen,
                        0 <= slot,
                        0 <= n,
                ;
            } else {
                assert(event.row(screen)[slot] == event.trigger(screen, slot));
            }
        }
    }
}

/// The requests of a batch are as many as those of its events together.
pub open spec fn laser_request_count(events: Seq<LaserAnimationEvent>) -> nat
    decreases events.len(),
{
    if events.len() == 0 {
        0
    } else {
        laser_request_count(events.drop_last()) + events.last().affected_hexagons@.len()
            * events.last().indices@.len()
    }
}

/// Fan-out of a batch of laser events: every event adds its screens times
/// its indices to the number of requests.
pub proof fn lemma_flatten_laser_len(events: Seq<LaserAnimationEvent>)
    ensures
        flatten_laser(events).len() == laser_request_count(events),
    decreases events.len(),
{
    if events.len() > 0 {
        lemma_flatten_laser_len(events.drop_last());
        lemma_laser_fan_out(events.last(), events.last().affected_hexagons@.len());
    }
}

/// The requests of a batch are as many as those of its events together.
pub open spec fn ring_request_count(events: Seq<RingAnimationEvent>) -> nat
    decreases events.len(),
{
    if events.len() == 0 {
        0
    } else {
        ring_request_count(events.drop_last()) + events.last().affected_hexagons@.len()
            * events.last().indices@.len()
    }
}

/// Fan-out of a batch of ring events: every event adds its screens times its
/// indices to the number of requests.
pub proof fn lemma_flatten_rings_len(events: Seq<RingAnimationEvent>)
    ensures
        flatten_rings(events).len() == ring_request_count(events),
    decreases events.len(),
{
    if events.len() > 0 {
        lemma_flatten_rings_len(events.drop_last());
        lemma_ring_fan_out(events.last(), events.last().affected_hexagons@.len());
    }
}

} // verus!
