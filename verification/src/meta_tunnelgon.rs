//! Patterns that turn beats into laser and ring events for the tunnels.
use crate::anim::LEVEL_UNIT;
use crate::hexagon::HexagonDefinition;
use crate::tunnelgon::{LaserAnimationEvent, RingAnimationEvent};
use crate::tunnelgon::{RingBasePosAnim, RingBaseValAnim, TunnelgonBaseAnim};
use vstd::prelude::*;

verus! {

/// A counter after `steps` steps of one, each taken modulo `modulus`.
pub open spec fn counted(counter: nat, modulus: nat, steps: nat) -> nat
    recommends
        modulus > 0,
{
    (counter + steps) % modulus
}

/// The seven screens in the order in which patterns for all of them list
/// them: the small ones first, the large one last.
pub open spec fn all_screens() -> Seq<HexagonDefinition> {
    seq![
        HexagonDefinition::A1,
        HexagonDefinition::A2,
        HexagonDefinition::A3,
        HexagonDefinition::B1,
        HexagonDefinition::B2,
        HexagonDefinition::B3,
        HexagonDefinition::Main,
    ]
}

/// Whether `event` pulses the lasers `indices` of `screens`, each to the
/// full level.
pub open spec fn pulses_lasers(
    event: LaserAnimationEvent,
    screens: Seq<HexagonDefinition>,
    indices: Seq<usize>,
) -> bool {
    &&& event.affected_hexagons@ == screens
    &&& event.base_anim == TunnelgonBaseAnim::Pulse
    &&& event.indices@ == indices
    &&& event.values@ == Seq::new(indices.len(), |i: int| LEVEL_UNIT)
}

/// Whether `event` slides the rings `indices` of every screen between the
/// given positions and pulses their amplitude from the full level.
pub open spec fn slides_rings(
    event: RingAnimationEvent,
    indices: Seq<usize>,
    positions_from: Seq<i64>,
    positions_to: Seq<i64>,
) -> bool {
    &&& event.affected_hexagons@ == all_screens()
    &&& event.base_pos_anim == RingBasePosAnim::SlideLinear
    &&& event.base_val_anim == RingBaseValAnim::Pulse
    &&& event.indices@ == indices
    &&& event.positions_from@ == positions_from
    &&& event.positions_to@ == positions_to
    &&& event.values@ == Seq::new(indices.len(), |i: int| LEVEL_UNIT)
}

/// A list of `count` full levels.
fn full_levels(count: usize) -> (values: Vec<i64>)
    ensures
        values@ == Seq::new(count as nat, |i: int| LEVEL_UNIT),
{
    let mut values: Vec<i64> = Vec::new();
    let mut i: usize = 0;
    while i < count
        invariant
            i <= count,
            values@ == Seq::new(i as nat, |k: int| LEVEL_UNIT),
        decreases count - i,
    {
        values.push(LEVEL_UNIT);
        assert(values@ =~= Seq::new((i + 1) as nat, |k: int| LEVEL_UNIT));
        i += 1;
    }
    values
}

/// The event that pulses the lasers `indices` of `screens`.
fn laser_pulse(screens: Vec<HexagonDefinition>, indices: Vec<usize>) -> (event: LaserAnimationEvent)
    ensures
        pulses_lasers(event, screens@, indices@),
{
    let values = full_levels(indices.len());
    LaserAnimationEvent {
        affected_hexagons: screens,
        base_anim: TunnelgonBaseAnim::Pulse,
        indices,
        values,
    }
}

/// The event that slides and pulses the rings `indices` of every screen.
fn ring_slide(indices: Vec<usize>, positions_from: Vec<i64>, positions_to: Vec<i64>) -> (event:
    RingAnimationEvent)
    ensures
        slides_rings(event, indices@, positions_from@, positions_to@),
{
    let values = full_levels(indices.len());
    RingAnimationEvent {
        affected_hexagons: every_screen(),
        base_pos_anim: RingBasePosAnim::SlideLinear,
        base_val_anim: RingBaseValAnim::Pulse,
        indices,
        positions_from,
        positions_to,
        values,
    }
}

/// The seven screens, the small ones first.
fn every_screen() -> (screens: Vec<HexagonDefinition>)
    ensures
        screens@ == all_screens(),
{
    let mut screens: Vec<HexagonDefinition> = Vec::new();
    screens.push(HexagonDefinition::A1);
    screens.push(HexagonDefinition::A2);
    screens.push(HexagonDefinition::A3);
    screens.push(HexagonDefinition::B1);
    screens.push(HexagonDefinition::B2);
    screens.push(HexagonDefinition::B3);
    screens.push(HexagonDefinition::Main);
    assert(screens@ =~= all_screens());
    screens
}

/// A list of two entries.
fn pair_of<T>(first: T, second: T) -> (list: Vec<T>)
    ensures
        list@ == seq![first, second],
{
    let mut list: Vec<T> = Vec::new();
    list.push(first);
    list.push(second);
    assert(list@ =~= seq![first, second]);
    list
}

/// A list of three entries.
fn triple_of<T>(first: T, second: T, third: T) -> (list: Vec<T>)
    ensures
        list@ == seq![first, second, third],
{
    let mut list: Vec<T> = Vec::new();
    list.push(first);
    list.push(second);
    list.push(third);
    assert(list@ =~= seq![first, second, third]);
    list
}

/// A list of one entry.
fn single_of<T>(only: T) -> (list: Vec<T>)
    ensures
        list@ == seq![only],
{
    let mut list: Vec<T> = Vec::new();
    list.push(only);
    assert(list@ =~= seq![only]);
    list
}

/// Pulses six lasers on one pair of small screens per beat, going round the
/// three pairs.
pub struct TunnelgonLaserCycleMetaAnim {
    enabled: bool,
    counter: usize,
}

/// The pair of screens that the cycle is at.
pub open spec fn cycle_screens(counter: nat) -> Seq<HexagonDefinition> {
    if counter == 1 {
        seq![HexagonDefinition::A2, HexagonDefinition::B2]
    } else if counter == 2 {
        seq![HexagonDefinition::A3, HexagonDefinition::B3]
    } else {
        seq![HexagonDefinition::A1, HexagonDefinition::B1]
    }
}

impl Default for TunnelgonLaserCycleMetaAnim {
    fn default() -> (r: TunnelgonLaserCycleMetaAnim)
        ensures
            !r.enabled(),
            r.counter() == 0,
    {
        TunnelgonLaserCycleMetaAnim { enabled: false, counter: 0 }
    }
}

impl TunnelgonLaserCycleMetaAnim {
    #[verifier::type_invariant]
    spec fn in_cycle(self) -> bool {
        self.counter < 3
    }

    /// Whether the pattern is switched on.
    pub closed spec fn enabled(self) -> bool {
        self.enabled
    }

    /// Where the cycle is: 0, 1 or 2.
    pub closed spec fn counter(self) -> nat {
        self.counter as nat
    }

    pub fn is_enabled(&self) -> (r: bool)
        ensures
            r == self.enabled(),
    {
        self.enabled
    }

    pub fn set_enabled(&mut self, enabled: bool)
        ensures
            final(self).enabled() == enabled,
            final(self).counter() == old(self).counter(),
    {
        proof {
            use_type_invariant(&*self);
        }
        self.enabled = enabled;
    }
}

/// The laser cycle: while it is switched on, each beat pulses the lasers 0
/// to 5 of the pair of screens that the cycle is at, and moves the cycle on.
pub fn tunnelgon_laser_cycle_meta_anim(params: &mut TunnelgonLaserCycleMetaAnim, beats: usize) -> (events:
    Vec<LaserAnimationEvent>)
    ensures
        final(params).enabled() == old(params).enabled(),
        !old(params).enabled() ==> events@.len() == 0 && final(params).counter() == old(params).counter(),
        old(params).enabled() ==> events@.len() == beats && final(params).counter() == counted(
            old(params).counter(),
            3,
            beats as nat,
        ),
        old(params).enabled() ==> forall|k: int|
            0 <= k < beats ==> pulses_lasers(
                #[trigger] events@[k],
                cycle_screens(counted(old(params).counter(), 3, k as nat)),
                seq![0usize, 1, 2, 3, 4, 5],
            ),
{
    let mut events: Vec<LaserAnimationEvent> = Vec::new();
    if !params.enabled {
        return events;
    }
    proof {
        use_type_invariant(&*params);
    }
    let mut done: usize = 0;
    while done < beats
        invariant
            done <= beats,
            params.enabled == old(params).enabled,
            params.counter < 3,
            old(params).counter < 3,
            params.counter == counted(old(params).counter(), 3, done as nat),
            events@.len() == done,
            forall|k: int|
                0 <= k < done ==> pulses_lasers(
                    #[trigger] events@[k],
                    cycle_screens(counted(old(params).counter(), 3, k as nat)),
                    seq![0usize, 1, 2, 3, 4, 5],
                ),
        decreases beats - done,
    {
        let screens = match params.counter {
            1 => pair_of(HexagonDefinition::A2, HexagonDefinition::B2),
            2 => pair_of(HexagonDefinition::A3, HexagonDefinition::B3),
            _ => pair_of(HexagonDefinition::A1, HexagonDefinition::B1),
        };
        let mut indices: Vec<usize> = Vec::new();
        indices.push(0);
        indices.push(1);
        indices.push(2);
        indices.push(3);
        indices.push(4);
        indices.push(5);
        assert(indices@ =~= seq![0usize, 1, 2, 3, 4, 5]);
        events.push(laser_pulse(screens, indices));
        params.counter = (params.counter + 1) % 3;
        done += 1;
    }
    events
}

/// Pulses two opposite lasers on the screens of each side per beat, going
/// round the six lasers: one way on one side, the other way on the other.
pub struct TunnelgonLaserRoundTheClockMetaAnim {
    enabled: bool,
    counter: usize,
}

impl Default for TunnelgonLaserRoundTheClockMetaAnim {
    fn default() -> (r: TunnelgonLaserRoundTheClockMetaAnim)
        ensures
            !r.enabled(),
            r.counter() == 0,
    {
        TunnelgonLaserRoundTheClockMetaAnim { enabled: false, counter: 0 }
    }
}

impl TunnelgonLaserRoundTheClockMetaAnim {
    #[verifier::type_invariant]
    spec fn in_cycle(self) -> bool {
        self.counter < 6
    }

    /// Whether the pattern is switched on.
    pub closed spec fn enabled(self) -> bool {
        self.enabled
    }

    /// Where the round is: 0 to 5.
    pub closed spec fn counter(self) -> nat {
        self.counter as nat
    }

    pub fn is_enabled(&self) -> (r: bool)
        ensures
            r == self.enabled(),
    {
        self.enabled
    }

    pub fn set_enabled(&mut self, enabled: bool)
        ensures
            final(self).enabled() == enabled,
            final(self).counter() == old(self).counter(),
    {
        proof {
            use_type_invariant(&*self);
        }
        self.enabled = enabled;
    }
}

/// The three small screens of the first side.
pub open spec fn side_a() -> Seq<HexagonDefinition> {
    seq![HexagonDefinition::A1, HexagonDefinition::A2, HexagonDefinition::A3]
}

/// The three small screens of the second side.
pub open spec fn side_b() -> Seq<HexagonDefinition> {
    seq![HexagonDefinition::B1, HexagonDefinition::B2, HexagonDefinition::B3]
}

/// The lasers that the round pulses on the first side: the one it is at and
/// the one opposite.
pub open spec fn clock_left(counter: nat) -> Seq<usize> {
    seq![(counter % 6) as usize, ((counter + 3) % 6) as usize]
}

/// The lasers that the round pulses on the second side: the mirror image of
/// the one it is at, and the one opposite to that.
pub open spec fn clock_right(counter: nat) -> Seq<usize> {
    seq![((12 - counter) % 6) as usize, ((9 - counter) % 6) as usize]
}

/// The round the clock: while it is switched on, each beat pulses two
/// opposite lasers on the screens of each side, with one event per side, the
/// first side first, and moves the round on.
pub fn tunnelgon_laser_round_the_clock_meta_anim(
    params: &mut TunnelgonLaserRoundTheClockMetaAnim,
    beats: usize,
) -> (events: Vec<LaserAnimationEvent>)
    ensures
        final(params).enabled() == old(params).enabled(),
        !old(params).enabled() ==> events@.len() == 0 && final(params).counter() == old(params).counter(),
        old(params).enabled() ==> events@.len() == 2 * beats && final(params).counter() == counted(
            old(params).counter(),
            6,
            beats as nat,
        ),
        old(params).enabled() ==> forall|k: int|
            0 <= k < beats ==> pulses_lasers(
                #[trigger] events@[2 * k],
                side_a(),
                clock_left(counted(old(params).counter(), 6, k as nat)),
            ) && pulses_lasers(
                events@[2 * k + 1],
                side_b(),
                clock_right(counted(old(params).counter(), 6, k as nat)),
            ),
{
    let mut events: Vec<LaserAnimationEvent> = Vec::new();
    if !params.enabled {
        return events;
    }
    proof {
        use_type_invariant(&*params);
    }
    let mut done: usize = 0;
    while done < beats
        invariant
            done <= beats,
            params.enabled == old(params).enabled,
            params.counter < 6,
            old(params).counter < 6,
            params.counter == counted(old(params).counter(), 6, done as nat),
            events@.len() == 2 * done,
            forall|k: int|
                0 <= k < done ==> pulses_lasers(
                    #[trigger] events@[2 * k],
                    side_a(),
                    clock_left(counted(old(params).counter(), 6, k as nat)),
                ) && pulses_lasers(
                    events@[2 * k + 1],
                    side_b(),
                    clock_right(counted(old(params).counter(), 6, k as nat)),
                ),
        decreases beats - done,
    {
        let left = params.counter;
        let right = 12 - params.counter;
        events.push(
            laser_pulse(
                triple_of(HexagonDefinition::A1, HexagonDefinition::A2, HexagonDefinition::A3),
                pair_of(left % 6, (left + 3) % 6),
            ),
        );
        events.push(
            laser_pulse(
                triple_of(HexagonDefinition::B1, HexagonDefinition::B2, HexagonDefinition::B3),
                pair_of(right % 6, (right - 3) % 6),
            ),
        );
        params.counter = (params.counter + 1) % 6;
        done += 1;
    }
    events
}

/// Pulses a pair of lasers on every screen per beat, sweeping down and up
/// again.
pub struct TunnelgonLaserSweepMetaAnim {
    enabled: bool,
    counter: usize,
}

impl Default for TunnelgonLaserSweepMetaAnim {
    fn default() -> (r: TunnelgonLaserSweepMetaAnim)
        ensures
            !r.enabled(),
            r.counter() == 0,
    {
        TunnelgonLaserSweepMetaAnim { enabled: false, counter: 0 }
    }
}

impl TunnelgonLaserSweepMetaAnim {
    #[verifier::type_invariant]
    spec fn in_cycle(self) -> bool {
        self.counter < 4
    }

    /// Whether the pattern is switched on.
    pub closed spec fn enabled(self) -> bool {
        self.enabled
    }

    /// Where the sweep is: 0 to 3.
    pub closed spec fn counter(self) -> nat {
        self.counter as nat
    }

    pub fn is_enabled(&self) -> (r: bool)
        ensures
            r == self.enabled(),
    {
        self.enabled
    }

    pub fn set_enabled(&mut self, enabled: bool)
        ensures
            final(self).enabled() == enabled,
            final(self).counter() == old(self).counter(),
    {
        proof {
            use_type_invariant(&*self);
        }
        self.enabled = enabled;
    }
}

/// The pair of lasers that the sweep is at.
pub open spec fn sweep_pair(counter: nat) -> Seq<usize> {
    if counter == 0 {
        seq![4usize, 5]
    } else if counter == 2 {
        seq![2usize, 1]
    } else {
        seq![3usize, 0]
    }
}

/// The laser sweep: while it is switched on, each beat pulses the pair of
/// lasers that the sweep is at on every screen, and moves the sweep on.
pub fn tunnelgon_laser_sweep_anim(params: &mut TunnelgonLaserSweepMetaAnim, beats: usize) -> (events:
    Vec<LaserAnimationEvent>)
    ensures
        final(params).enabled() == old(params).enabled(),
        !old(params).enabled() ==> events@.len() == 0 && final(params).counter() == old(params).counter(),
        old(params).enabled() ==> events@.len() == beats && final(params).counter() == counted(
            old(params).counter(),
            4,
            beats as nat,
        ),
        old(params).enabled() ==> forall|k: int|
            0 <= k < beats ==> pulses_lasers(
                #[trigger] events@[k],
                all_screens(),
                sweep_pair(counted(old(params).counter(), 4, k as nat)),
            ),
{
    let mut events: Vec<LaserAnimationEvent> = Vec::new();
    if !params.enabled {
        return events;
    }
    proof {
        use_type_invariant(&*params);
    }
    let mut done: usize = 0;
    while done < beats
        invariant
            done <= beats,
            params.enabled == old(params).enabled,
            params.counter < 4,
            old(params).counter < 4,
            params.counter == counted(old(params).counter(), 4, done as nat),
            events@.len() == done,
            forall|k: int|
                0 <= k < done ==> pulses_lasers(
                    #[trigger] events@[k],
                    all_screens(),
                    sweep_pair(counted(old(params).counter(), 4, k as nat)),
                ),
        decreases beats - done,
    {
        let indices = match params.counter {
            0 => pair_of(4usize, 5usize),
            2 => pair_of(2usize, 1usize),
            _ => pair_of(3usize, 0usize),
        };
        events.push(laser_pulse(every_screen(), indices));
        params.counter = (params.counter + 1) % 4;
        done += 1;
    }
    events
}

/// Slides a ring from the front to the back of every tunnel per beat,
/// taking the rings 0 and 1 in turn from frame to frame.
pub struct TunnelgonRingsFTBMetaAnim {
    enabled: bool,
    counter: usize,
}

impl Default for TunnelgonRingsFTBMetaAnim {
    fn default() -> (r: TunnelgonRingsFTBMetaAnim)
        ensures
            !r.enabled(),
            r.counter() == 0,
    {
        TunnelgonRingsFTBMetaAnim { enabled: false, counter: 0 }
    }
}

impl TunnelgonRingsFTBMetaAnim {
    #[verifier::type_invariant]
    spec fn in_cycle(self) -> bool {
        self.counter < 2
    }

    /// Whether the pattern is switched on.
    pub closed spec fn enabled(self) -> bool {
        self.enabled
    }

    /// The ring that is next: 0 or 1.
    pub closed spec fn counter(self) -> nat {
        self.counter as nat
    }

    pub fn is_enabled(&self) -> (r: bool)
        ensures
            r == self.enabled(),
    {
        self.enabled
    }

    pub fn set_enabled(&mut self, enabled: bool)
        ensures
            final(self).enabled() == enabled,
            final(self).counter() == old(self).counter(),
    {
        proof {
            use_type_invariant(&*self);
        }
        self.enabled = enabled;
    }
}

/// Rings from front to back: while it is switched on, each beat of the
/// frame slides the ring that is next from position 0 to position 1 on every
/// screen and pulses it, and the frame, with or without a beat, makes the
/// other ring the next.
pub fn tunnelgon_rings_ftb_meta_anim(params: &mut TunnelgonRingsFTBMetaAnim, beats: usize) -> (events:
    Vec<RingAnimationEvent>)
    ensures
        final(params).enabled() == old(params).enabled(),
        !old(params).enabled() ==> events@.len() == 0 && final(params).counter() == old(params).counter(),
        old(params).enabled() ==> events@.len() == beats && final(params).counter() == counted(
            old(params).counter(),
            2,
            1,
        ),
        old(params).enabled() ==> forall|k: int|
            0 <= k < beats ==> slides_rings(
                #[trigger] events@[k],
                seq![old(params).counter() as usize],
                seq![0i64],
                seq![LEVEL_UNIT],
            ),
{
    let mut events: Vec<RingAnimationEvent> = Vec::new();
    if !params.enabled {
        return events;
    }
    proof {
        use_type_invariant(&*params);
    }
    let mut done: usize = 0;
    while done < beats
        invariant
            done <= beats,
            *params == *old(params),
            params.counter < 2,
            events@.len() == done,
            forall|k: int|
                0 <= k < done ==> slides_rings(
                    #[trigger] events@[k],
                    seq![old(params).counter() as usize],
                    seq![0i64],
                    seq![LEVEL_UNIT],
                ),
        decreases beats - done,
    {
        events.push(ring_slide(single_of(params.counter), single_of(0i64), single_of(LEVEL_UNIT)));
        done += 1;
    }
    params.counter = (params.counter + 1) % 2;
    events
}

/// Slides a ring from the back to the front of every tunnel per beat,
/// taking the rings 2 and 3 in turn from frame to frame.
pub struct TunnelgonRingsBTFMetaAnim {
    enabled: bool,
    counter: usize,
}

impl Default for TunnelgonRingsBTFMetaAnim {
    fn default() -> (r: TunnelgonRingsBTFMetaAnim)
        ensures
            !r.enabled(),
            r.counter() == 0,
    {
        TunnelgonRingsBTFMetaAnim { enabled: false, counter: 0 }
    }
}

impl TunnelgonRingsBTFMetaAnim {
    #[verifier::type_invariant]
    spec fn in_cycle(self) -> bool {
        self.counter < 2
    }

    /// Whether the pattern is switched on.
    pub closed spec fn enabled(self) -> bool {
        self.enabled
    }

    /// The ring that is next, counted from ring 2: 0 or 1.
    pub closed spec fn counter(self) -> nat {
        self.counter as nat
    }

    pub fn is_enabled(&self) -> (r: bool)
        ensures
            r == self.enabled(),
    {
        self.enabled
    }

    pub fn set_enabled(&mut self, enabled: bool)
        ensures
            final(self).enabled() == enabled,
            final(self).counter() == old(self).counter(),
    {
        proof {
            use_type_invariant(&*self);
        }
        self.enabled = enabled;
    }
}

/// Rings from back to front: while it is switched on, each beat of the
/// frame slides the ring that is next from position 0.5 to position -0.5 on
/// every screen and pulses it, and the frame, with or without a beat, makes
/// the other ring the next.
pub fn tunnelgon_rings_btf_meta_anim(params: &mut TunnelgonRingsBTFMetaAnim, beats: usize) -> (events:
    Vec<RingAnimationEvent>)
    ensures
        final(params).enabled() == old(params).enabled(),
        !old(params).enabled() ==> events@.len() == 0 && final(params).counter() == old(params).counter(),
        old(params).enabled() ==> events@.len() == beats && final(params).counter() == counted(
            old(params).counter(),
            2,
            1,
        ),
        old(params).enabled() ==> forall|k: int|
            0 <= k < beats ==> slides_rings(
                #[trigger] events@[k],
                seq![(old(params).counter() + 2) as usize],
                seq![500_000i64],
                seq![-500_000i64],
            ),
{
    let mut events: Vec<RingAnimationEvent> = Vec::new();
    if !params.enabled {
        return events;
    }
    proof {
        use_type_invariant(&*params);
    }
    let mut done: usize = 0;
    while done < beats
        invariant
            done <= beats,
            *params == *old(params),
            params.counter < 2,
            events@.len() == done,
            forall|k: int|
                0 <= k < done ==> slides_rings(
                    #[trigger] events@[k],
                    seq![(old(params).counter() + 2) as usize],
                    seq![500_000i64],
                    seq![-500_000i64],
                ),
        decreases beats - done,
    {
        events.push(
            ring_slide(single_of(params.counter + 2), single_of(500_000i64), single_of(-500_000i64)),
        );
        done += 1;
    }
    params.counter = (params.counter + 1) % 2;
    events
}

/// Slides four rings through every tunnel per beat, one behind the other.
pub struct TunnelgonRingsTrainMetaAnim {
    pub enabled: bool,
}

impl Default for TunnelgonRingsTrainMetaAnim {
    fn default() -> (r: TunnelgonRingsTrainMetaAnim)
        ensures
            !r.enabled,
    {
        TunnelgonRingsTrainMetaAnim { enabled: false }
    }
}

/// The ring train: while it is switched on, each beat slides the rings 4 to
/// 7 of every screen, each a tenth behind the one before it, from the
/// positions 0 to 0.3 to the positions 1.1 to 1.4, and pulses them.
pub fn tunnelgon_ring_train_meta_anim(params: &TunnelgonRingsTrainMetaAnim, beats: usize) -> (events:
    Vec<RingAnimationEvent>)
    ensures
        !params.enabled ==> events@.len() == 0,
        params.enabled ==> events@.len() == beats,
        params.enabled ==> forall|k: int|
            0 <= k < beats ==> slides_rings(
                #[trigger] events@[k],
                seq![4usize, 5, 6, 7],
                seq![0i64, 100_000, 200_000, 300_000],
                seq![1_100_000i64, 1_200_000, 1_300_000, 1_400_000],
            ),
{
    let mut events: Vec<RingAnimationEvent> = Vec::new();
    if !params.enabled {
        return events;
    }
    let mut done: usize = 0;
    while done < beats
        invariant
            done <= beats,
            events@.len() == done,
            forall|k: int|
                0 <= k < done ==> slides_rings(
                    #[trigger] events@[k],
                    seq![4usize, 5, 6, 7],
                    seq![0i64, 100_000, 200_000, 300_000],
                    seq![1_100_000i64, 1_200_000, 1_300_000, 1_400_000],
                ),
        decreases beats - done,
    {
        let mut indices: Vec<usize> = Vec::new();
        let mut positions_from: Vec<i64> = Vec::new();
        let mut positions_to: Vec<i64> = Vec::new();
        let mut car: usize = 0;
        while car < 4
            invariant
                car <= 4,
                indices@ == Seq::new(car as nat, |i: int| (4 + i) as usize),
                positions_from@ == Seq::new(car as nat, |i: int| (i * 100_000) as i64),
                positions_to@ == Seq::new(car as nat, |i: int| (1_100_000 + i * 100_000) as i64),
            decreases 4 - car,
        {
            indices.push(4 + car);
            positions_from.push(car as i64 * 100_000);
            positions_to.push(1_100_000 + car as i64 * 100_000);
            assert(indices@ =~= Seq::new((car + 1) as nat, |i: int| (4 + i) as usize));
            assert(positions_from@ =~= Seq::new((car + 1) as nat, |i: int| (i * 100_000) as i64));
            assert(positions_to@ =~= Seq::new(
                (car + 1) as nat,
                |i: int| (1_100_000 + i * 100_000) as i64,
            ));
            car += 1;
        }
        assert(indices@ =~= seq![4usize, 5, 6, 7]);
        assert(positions_from@ =~= seq![0i64, 100_000, 200_000, 300_000]);
        assert(positions_to@ =~= seq![1_100_000i64, 1_200_000, 1_300_000, 1_400_000]);
        events.push(ring_slide(indices, positions_from, positions_to));
        done += 1;
    }
    events
}

/// Number of frames that one figure of eight lives: twelve steps, two
/// frames apart.
pub const EIGHT_FRAMES: usize = 24;

/// Draws a figure of eight with single laser pulses on two pairs of small
/// screens: every beat starts one, and each runs for `EIGHT_FRAMES` frames.
pub struct TunnelgonLaserFigureEightMetaAnim {
    enabled: bool,
    runs: Vec<usize>,
}

/// The lasers that a figure pulses on its left screen, step by step.
pub open spec fn eight_lefts() -> Seq<usize> {
    seq![2usize, 3, 4, 5, 0, 1, 4, 3, 2, 1, 0, 5]
}

/// The lasers that a figure pulses on its right screen, step by step.
pub open spec fn eight_rights() -> Seq<usize> {
    seq![1usize, 0, 5, 4, 3, 2, 5, 0, 1, 2, 3, 4]
}

/// The laser that a figure pulses on its left screen at a step.
pub open spec fn eight_left(step: nat) -> usize {
    eight_lefts()[step as int]
}

/// The laser that a figure pulses on its right screen at a step.
pub open spec fn eight_right(step: nat) -> usize {
    eight_rights()[step as int]
}

/// The pulses of a figure in the frame in which it is `frame` frames old:
/// every other frame one on the left and one on the right screen, on the
/// first pair of screens for the first six steps and on the third pair for
/// the rest.
pub open spec fn eight_frame(frame: nat) -> Seq<(HexagonDefinition, usize)> {
    if frame % 2 == 0 && frame < EIGHT_FRAMES {
        if frame / 2 < 6 {
            seq![
                (HexagonDefinition::A1, eight_left(frame / 2)),
                (HexagonDefinition::B1, eight_right(frame / 2)),
            ]
        } else {
            seq![
                (HexagonDefinition::A3, eight_left(frame / 2)),
                (HexagonDefinition::B3, eight_right(frame / 2)),
            ]
        }
    } else {
        Seq::empty()
    }
}

/// The pulses of one frame of all figures, in the order of the figures.
pub open spec fn eight_pulses(runs: Seq<usize>) -> Seq<(HexagonDefinition, usize)>
    decreases runs.len(),
{
    if runs.len() == 0 {
        Seq::empty()
    } else {
        eight_pulses(runs.drop_last()) + eight_frame(runs.last() as nat)
    }
}

/// The age of a figure after a frame, if it lives on.
pub open spec fn eight_aged() -> spec_fn(usize) -> Option<usize> {
    |frame: usize|
        if frame + 1 < EIGHT_FRAMES {
            Some((frame + 1) as usize)
        } else {
            None
        }
}

impl Default for TunnelgonLaserFigureEightMetaAnim {
    fn default() -> (r: TunnelgonLaserFigureEightMetaAnim)
        ensures
            !r.enabled(),
            r.runs() == Seq::<usize>::empty(),
    {
        TunnelgonLaserFigureEightMetaAnim { enabled: false, runs: Vec::new() }
    }
}

impl TunnelgonLaserFigureEightMetaAnim {
    #[verifier::type_invariant]
    spec fn all_young(self) -> bool {
        forall|i: int| 0 <= i < self.runs@.len() ==> self.runs@[i] < EIGHT_FRAMES
    }

    /// Whether the pattern is switched on.
    pub closed spec fn enabled(self) -> bool {
        self.enabled
    }

    /// The age in frames of every figure that is being drawn, oldest first.
    pub closed spec fn runs(self) -> Seq<usize> {
        self.runs@
    }

    pub fn is_enabled(&self) -> (r: bool)
        ensures
            r == self.enabled(),
    {
        self.enabled
    }

    pub fn set_enabled(&mut self, enabled: bool)
        ensures
            final(self).enabled() == enabled,
            final(self).runs() == old(self).runs(),
    {
        proof {
            use_type_invariant(&*self);
        }
        self.enabled = enabled;
    }

    /// How many figures are being drawn.
    pub fn run_count(&self) -> (n: usize)
        ensures
            n == self.runs().len(),
    {
        self.runs.len()
    }
}

/// The events of a figure that is `frame` frames old, added to `events`.
fn eight_step(frame: usize, events: &mut Vec<LaserAnimationEvent>, Ghost(pulses): Ghost<
    Seq<(HexagonDefinition, usize)>,
>)
    requires
        frame < EIGHT_FRAMES,
        old(events)@.len() == pulses.len(),
        forall|k: int|
            0 <= k < pulses.len() ==> pulses_lasers(
                #[trigger] old(events)@[k],
                seq![pulses[k].0],
                seq![pulses[k].1],
            ),
    ensures
        final(events)@.len() == (pulses + eight_frame(frame as nat)).len(),
        forall|k: int|
            0 <= k < final(events)@.len() ==> pulses_lasers(
                #[trigger] final(events)@[k],
                seq![(pulses + eight_frame(frame as nat))[k].0],
                seq![(pulses + eight_frame(frame as nat))[k].1],
            ),
{
    if frame % 2 != 0 {
        assert(pulses + eight_frame(frame as nat) == pulses);
        return ;
    }
    let step = frame / 2;
    let left: usize = match step {
        0 => 2,
        8 => 2,
        1 => 3,
        7 => 3,
        2 => 4,
        6 => 4,
        3 => 5,
        11 => 5,
        4 => 0,
        10 => 0,
        _ => 1,
    };
    let right: usize = match step {
        0 => 1,
        8 => 1,
        1 => 0,
        7 => 0,
        2 => 5,
        6 => 5,
        3 => 4,
        11 => 4,
        4 => 3,
        10 => 3,
        _ => 2,
    };
    let (screen_left, screen_right) = if step < 6 {
        (HexagonDefinition::A1, HexagonDefinition::B1)
    } else {
        (HexagonDefinition::A3, HexagonDefinition::B3)
    };
    events.push(laser_pulse(single_of(screen_left), single_of(left)));
    events.push(laser_pulse(single_of(screen_right), single_of(right)));
    proof {
        let all = pulses + eight_frame(frame as nat);
        assert forall|k: int| 0 <= k < events@.len() implies pulses_lasers(
            #[trigger] events@[k],
            seq![all[k].0],
            seq![all[k].1],
        ) by {
            if k < pulses.len() {
                assert(events@[k] == old(events)@[k]);
            }
        }
    }
}

/// The figure of eight, frame by frame. While it is switched on, each beat
/// of the frame starts a figure. Then every figure, started in this frame or
/// before, sends the pulses of its age and grows one frame older; a figure
/// that has lived `EIGHT_FRAMES` frames is done. Figures that were started
/// go on when the pattern is switched off.
pub fn tunnelgon_laser_figure_eight_meta_anim(
    params: &mut TunnelgonLaserFigureEightMetaAnim,
    beats: usize,
) -> (events: Vec<LaserAnimationEvent>)
    ensures
        final(params).enabled() == old(params).enabled(),
        ({
            let started = old(params).runs() + if old(params).enabled() {
                Seq::new(beats as nat, |i: int| 0usize)
            } else {
                Seq::empty()
            };
            &&& final(params).runs() == started.filter_map(eight_aged())
            &&& events@.len() == eight_pulses(started).len()
            &&& forall|k: int|
                0 <= k < events@.len() ==> pulses_lasers(
                    #[trigger] events@[k],
                    seq![eight_pulses(started)[k].0],
                    seq![eight_pulses(started)[k].1],
                )
        }),
{
    proof {
        use_type_invariant(&*params);
    }
    let mut events: Vec<LaserAnimationEvent> = Vec::new();
    let mut aged: Vec<usize> = Vec::new();
    let fresh: usize = if params.enabled {
        beats
    } else {
        0
    };
    let ghost started = params.runs@ + Seq::new(fresh as nat, |i: int| 0usize);
    let old_count = params.runs.len();
    let mut i: usize = 0;
    while i < old_count
        invariant
            i <= old_count,
            old_count == params.runs@.len(),
            *params == *old(params),
            started == params.runs@ + Seq::new(fresh as nat, |i: int| 0usize),
            forall|k: int| 0 <= k < params.runs@.len() ==> params.runs@[k] < EIGHT_FRAMES,
            aged@ == started.take(i as int).filter_map(eight_aged()),
            forall|k: int| 0 <= k < aged@.len() ==> aged@[k] < EIGHT_FRAMES,
            events@.len() == eight_pulses(started.take(i as int)).len(),
            forall|k: int|
                0 <= k < events@.len() ==> pulses_lasers(
                    #[trigger] events@[k],
                    seq![eight_pulses(started.take(i as int))[k].0],
                    seq![eight_pulses(started.take(i as int))[k].1],
                ),
        decreases old_count - i,
    {
        let frame = params.runs[i];
        proof {
            started.lemma_filter_map_take_succ(eight_aged(), i as int);
            assert(started.take(i as int + 1).drop_last() == started.take(i as int));
            assert(started[i as int] == frame);
        }
        eight_step(frame, &mut events, Ghost(eight_pulses(started.take(i as int))));
        if frame + 1 < EIGHT_FRAMES {
            aged.push(frame + 1);
        }
        i += 1;
    }
    let mut j: usize = 0;
    while j < fresh
        invariant
            j <= fresh,
            old_count == params.runs@.len(),
            *params == *old(params),
            started == params.runs@ + Seq::new(fresh as nat, |i: int| 0usize),
            aged@ == started.take(old_count + j).filter_map(eight_aged()),
            forall|k: int| 0 <= k < aged@.len() ==> aged@[k] < EIGHT_FRAMES,
            events@.len() == eight_pulses(started.take(old_count + j)).len(),
            forall|k: int|
                0 <= k < events@.len() ==> pulses_lasers(
                    #[trigger] events@[k],
                    seq![eight_pulses(started.take(old_count + j))[k].0],
                    seq![eight_pulses(started.take(old_count + j))[k].1],
                ),
        decreases fresh - j,
    {
        proof {
            started.lemma_filter_map_take_succ(eight_aged(), old_count + j);
            assert(started.take(old_count + j + 1).drop_last() == started.take(old_count + j));
            assert(started[old_count + j] == 0);
        }
        eight_step(0, &mut events, Ghost(eight_pulses(started.take(old_count + j))));
        aged.push(1);
        j += 1;
    }
    proof {
        assert(started.take(old_count + fresh) == started);
        if !params.enabled {
            assert(Seq::new(fresh as nat, |i: int| 0usize) =~= Seq::<usize>::empty());
        }
    }
    params.runs = aged;
    events
}

} // verus!
