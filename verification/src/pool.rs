//! The levels that the tunnels show: one bank of slots per family for each
//! tunnel, written by the scheduler's requests and animations.
use crate::anim::{gap, toward, LEVEL_UNIT};
use crate::channel::{resolve_index, wrapped_index, Channel, ChannelKind, ChannelWrite};
use crate::hexagon::HexagonDefinition;
use crate::tunnelgon::SetTunnelgonEvent;
use vstd::prelude::*;

verus! {

/// Time constant with which the tunnel's travel follows its target: 100
/// milliseconds.
pub const ACCUM_TIME_CONSTANT: u64 = 100_000;

/// What a tunnel shows.
#[derive(Copy, Clone, Debug)]
pub struct TunnelgonParams {
    pub rings_pos: [i64; 8],
    pub rings_amp: [i64; 8],
    pub laser: [i64; 8],
    pub spiral_freq: i64,
    pub spiral_skew: i64,
    pub spiral_dir: i64,
    pub spiral_accum: i64,
    pub tun_accum: i64,
    pub tun_accum_target: i64,
}

impl Default for TunnelgonParams {
    /// Every laser and ring at zero, the spiral at frequency 10, skew 6,
    /// direction 1 and travel 1, the tunnel at rest.
    fn default() -> (r: TunnelgonParams)
        ensures
            forall|kind: ChannelKind, index: int| 0 <= index < 8 ==> #[trigger] r.bank(kind)[index] == 0,
            r.spiral_freq == 10 * LEVEL_UNIT,
            r.spiral_skew == 6 * LEVEL_UNIT,
            r.spiral_dir == LEVEL_UNIT,
            r.spiral_accum == LEVEL_UNIT,
            r.tun_accum == 0,
            r.tun_accum_target == 0,
    {
        TunnelgonParams {
            rings_pos: [0; 8],
            rings_amp: [0; 8],
            laser: [0; 8],
            spiral_freq: 10 * LEVEL_UNIT,
            spiral_skew: 6 * LEVEL_UNIT,
            spiral_dir: LEVEL_UNIT,
            spiral_accum: LEVEL_UNIT,
            tun_accum: 0,
            tun_accum_target: 0,
        }
    }
}

impl TunnelgonParams {
    /// The eight levels of one family.
    pub open spec fn bank(self, kind: ChannelKind) -> Seq<i64> {
        match kind {
            ChannelKind::Laser => self.laser@,
            ChannelKind::RingPosition => self.rings_pos@,
            ChannelKind::RingAmplitude => self.rings_amp@,
        }
    }

    /// Whether `after` is `self` with `value` in the slot that `index` stands
    /// for in the family `kind`, and everything else as it was.
    pub open spec fn stored(
        self,
        after: TunnelgonParams,
        kind: ChannelKind,
        index: usize,
        value: i64,
    ) -> bool {
        &&& after.bank(kind) == self.bank(kind).update(wrapped_index(index as nat) as int, value)
        &&& forall|other: ChannelKind| other != kind ==> after.bank(other) == self.bank(other)
        &&& after.spiral_freq == self.spiral_freq
        &&& after.spiral_skew == self.spiral_skew
        &&& after.spiral_dir == self.spiral_dir
        &&& after.spiral_accum == self.spiral_accum
        &&& after.tun_accum == self.tun_accum
        &&& after.tun_accum_target == self.tun_accum_target
    }

    /// The level in the slot that `index` stands for in the family `kind`.
    pub fn read(&self, kind: ChannelKind, index: usize) -> (value: i64)
        ensures
            value == self.bank(kind)[wrapped_index(index as nat) as int],
    {
        let (slot, _) = resolve_index(index);
        match kind {
            ChannelKind::Laser => self.laser[slot],
            ChannelKind::RingPosition => self.rings_pos[slot],
            ChannelKind::RingAmplitude => self.rings_amp[slot],
        }
    }

    /// Stores `value` in the slot that `index` stands for in the family
    /// `kind`.
    pub fn write(&mut self, kind: ChannelKind, index: usize, value: i64)
        ensures
            old(self).stored(*final(self), kind, index, value),
    {
        let (slot, _) = resolve_index(index);
        match kind {
            ChannelKind::Laser => {
                self.laser[slot] = value;
            },
            ChannelKind::RingPosition => {
                self.rings_pos[slot] = value;
            },
            ChannelKind::RingAmplitude => {
                self.rings_amp[slot] = value;
            },
        }
    }
}

/// The tunnel on one screen.
#[derive(Copy, Clone, Debug)]
pub struct Tunnelgon {
    pub params: TunnelgonParams,
    pub hexagon_definition: HexagonDefinition,
}

impl Tunnelgon {
    /// The screen that the tunnel is on.
    pub open spec fn hexagon(self) -> HexagonDefinition {
        self.hexagon_definition
    }

    /// Whether `after` is this tunnel once `write` has been offered to it:
    /// with the level stored where the write is for its screen, and as it
    /// was where the write is for another.
    pub open spec fn took(self, after: Tunnelgon, write: ChannelWrite) -> bool {
        &&& after.hexagon() == self.hexagon()
        &&& if write.channel.hexagon == self.hexagon() {
            self.params.stored(after.params, write.channel.kind, write.channel.index, write.value)
        } else {
            after.params == self.params
        }
    }

    /// A tunnel on `hexagon` that shows what `TunnelgonParams::default`
    /// gives.
    pub fn new(hexagon: HexagonDefinition) -> (r: Tunnelgon)
        ensures
            r.hexagon() == hexagon,
            forall|kind: ChannelKind, index: int|
                0 <= index < 8 ==> #[trigger] r.params.bank(kind)[index] == 0,
            r.params.tun_accum == 0,
            r.params.tun_accum_target == 0,
    {
        Tunnelgon { params: TunnelgonParams::default(), hexagon_definition: hexagon }
    }

    /// The screen that the tunnel is on.
    pub fn hexagon_definition(&self) -> (r: HexagonDefinition)
        ensures
            r == self.hexagon(),
    {
        self.hexagon_definition
    }

    /// Offers a write to the tunnel, which takes it if it is for its screen.
    /// Returns whether it took it.
    pub fn offer(&mut self, write: &ChannelWrite) -> (taken: bool)
        ensures
            old(self).took(*final(self), *write),
            taken == (write.channel.hexagon == old(self).hexagon()),
    {
        if write.channel.hexagon == self.hexagon_definition {
            self.params.write(write.channel.kind, write.channel.index, write.value);
            true
        } else {
            false
        }
    }
}

/// The screens of a list of tunnels, in their order.
pub open spec fn screens_of(tunnelgons: Seq<Tunnelgon>) -> Seq<HexagonDefinition> {
    tunnelgons.map_values(|tunnelgon: Tunnelgon| tunnelgon.hexagon())
}

/// Shows the tunnel where the latest event of the frame asks for it: the
/// tunnels that were there are dropped, and each screen that the event lists
/// gets a new one, in the order of the list. Without an event nothing
/// changes.
pub fn spawn_tunnelgon_system(tunnelgons: &mut Vec<Tunnelgon>, events: &Vec<SetTunnelgonEvent>)
    ensures
        events@.len() == 0 ==> final(tunnelgons)@ == old(tunnelgons)@,
        events@.len() > 0 ==> screens_of(final(tunnelgons)@) == events@.last().affected_hexagons@,
        events@.len() > 0 ==> forall|i: int, kind: ChannelKind, index: int|
            0 <= i < final(tunnelgons)@.len() && 0 <= index < 8 ==> (
            #[trigger] final(tunnelgons)@[i].params.bank(kind)[index]) == 0,
{
    if events.len() == 0 {
        return ;
    }
    let event = &events[events.len() - 1];
    let mut fresh: Vec<Tunnelgon> = Vec::new();
    let mut h: usize = 0;
    while h < event.affected_hexagons.len()
        invariant
            h <= event.affected_hexagons.len(),
            fresh@.len() == h,
            screens_of(fresh@) == event.affected_hexagons@.take(h as int),
            forall|i: int, kind: ChannelKind, index: int|
                0 <= i < fresh@.len() && 0 <= index < 8 ==> (#[trigger] fresh@[i].params.bank(
                    kind,
                )[index]) == 0,
        decreases event.affected_hexagons.len() - h,
    {
        let ghost before = fresh@;
        fresh.push(Tunnelgon::new(event.affected_hexagons[h]));
        proof {
            assert(screens_of(fresh@) =~= event.affected_hexagons@.take(h as int + 1)) by {
                assert forall|i: int| 0 <= i < fresh@.len() implies screens_of(fresh@)[i]
                    == event.affected_hexagons@.take(h as int + 1)[i] by {
                    if i < h {
                        assert(fresh@[i] == before[i]);
                        assert(screens_of(before)[i] == before[i].hexagon());
                    }
                }
            }
        }
        h += 1;
    }
    proof {
        assert(event.affected_hexagons@.take(event.affected_hexagons@.len() as int)
            == event.affected_hexagons@);
    }
    *tunnelgons = fresh;
}

/// Whether `after` is `before` once `write` has been offered to every
/// tunnel.
pub open spec fn wrote(before: Seq<Tunnelgon>, after: Seq<Tunnelgon>, write: ChannelWrite) -> bool {
    &&& after.len() == before.len()
    &&& forall|i: int| 0 <= i < before.len() ==> (#[trigger] before[i]).took(after[i], write)
}

/// Carries out one write: every tunnel on the screen of the write stores
/// its level. Returns how many tunnels did; where none did, the write had no
/// target and was dropped.
pub fn apply_write(tunnelgons: &mut Vec<Tunnelgon>, write: &ChannelWrite) -> (taken: usize)
    ensures
        wrote(old(tunnelgons)@, final(tunnelgons)@, *write),
        taken == 0 <==> !screens_of(old(tunnelgons)@).contains(write.channel.hexagon),
{
    let mut taken: usize = 0;
    let mut i: usize = 0;
    while i < tunnelgons.len()
        invariant
            i <= tunnelgons.len(),
            taken <= i,
            tunnelgons@.len() == old(tunnelgons)@.len(),
            forall|k: int| 0 <= k < i ==> (#[trigger] old(tunnelgons)@[k]).took(tunnelgons@[k], *write),
            forall|k: int| i <= k < tunnelgons@.len() ==> tunnelgons@[k] == old(tunnelgons)@[k],
            taken == 0 <==> forall|k: int|
                0 <= k < i ==> (#[trigger] old(tunnelgons)@[k]).hexagon() != write.channel.hexagon,
        decreases tunnelgons.len() - i,
    {
        let mut tunnelgon = tunnelgons[i];
        if tunnelgon.offer(write) {
            taken += 1;
        }
        tunnelgons.set(i, tunnelgon);
        i += 1;
    }
    proof {
        let screens = screens_of(old(tunnelgons)@);
        if taken == 0 {
            assert forall|k: int| 0 <= k < screens.len() implies screens[k]
                != write.channel.hexagon by {
                assert(screens[k] == old(tunnelgons)@[k].hexagon());
            }
        } else {
            let k = choose|k: int|
                0 <= k < old(tunnelgons)@.len() && (#[trigger] old(tunnelgons)@[k]).hexagon()
                    == write.channel.hexagon;
            assert(screens[k] == write.channel.hexagon);
        }
    }
    taken
}

/// Whether `after` is `before` once the writes have been carried out one
/// after the other.
pub open spec fn wrote_all(before: Seq<Tunnelgon>, after: Seq<Tunnelgon>, writes: Seq<ChannelWrite>) -> bool
    decreases writes.len(),
{
    if writes.len() == 0 {
        after == before
    } else {
        exists|mid: Seq<Tunnelgon>|
            wrote_all(before, mid, writes.drop_last()) && wrote(mid, after, writes.last())
    }
}

/// Carries out the writes in their order. Returns how many had no target
/// and were dropped.
pub fn apply_writes(tunnelgons: &mut Vec<Tunnelgon>, writes: &Vec<ChannelWrite>) -> (dropped: usize)
    ensures
        wrote_all(old(tunnelgons)@, final(tunnelgons)@, writes@),
        dropped <= writes@.len(),
{
    let mut dropped: usize = 0;
    let mut k: usize = 0;
    while k < writes.len()
        invariant
            k <= writes.len(),
            dropped <= k,
            wrote_all(old(tunnelgons)@, tunnelgons@, writes@.take(k as int)),
        decreases writes.len() - k,
    {
        let ghost mid = tunnelgons@;
        let taken = apply_write(tunnelgons, &writes[k]);
        if taken == 0 {
            dropped += 1;
        }
        proof {
            let next = writes@.take(k as int + 1);
            assert(next.drop_last() == writes@.take(k as int));
            assert(next.last() == writes@[k as int]);
            assert(wrote_all(old(tunnelgons)@, mid, next.drop_last()) && wrote(
                mid,
                tunnelgons@,
                next.last(),
            ));
        }
        k += 1;
    }
    proof {
        assert(writes@.take(writes.len() as int) == writes@);
    }
    dropped
}

/// The level that the first tunnel on the channel's screen shows in the
/// channel's slot, if there is a tunnel on that screen.
pub fn read_channel(tunnelgons: &Vec<Tunnelgon>, channel: &Channel) -> (value: Option<i64>)
    ensures
        value is Some <==> screens_of(tunnelgons@).contains(channel.hexagon),
        value matches Some(level) ==> exists|i: int|
            0 <= i < tunnelgons@.len() && (#[trigger] tunnelgons@[i]).hexagon() == channel.hexagon
                && level == tunnelgons@[i].params.bank(channel.kind)[wrapped_index(
                channel.index as nat,
            ) as int] && forall|k: int|
                0 <= k < i ==> (#[trigger] tunnelgons@[k]).hexagon() != channel.hexagon,
{
    let mut i: usize = 0;
    while i < tunnelgons.len()
        invariant
            i <= tunnelgons.len(),
            forall|k: int| 0 <= k < i ==> (#[trigger] tunnelgons@[k]).hexagon() != channel.hexagon,
        decreases tunnelgons.len() - i,
    {
        if tunnelgons[i].hexagon_definition() == channel.hexagon {
            proof {
                assert(screens_of(tunnelgons@)[i as int] == channel.hexagon);
            }
            return Some(tunnelgons[i].params.read(channel.kind, channel.index));
        }
        i += 1;
    }
    proof {
        let screens = screens_of(tunnelgons@);
        assert forall|k: int| 0 <= k < screens.len() implies screens[k] != channel.hexagon by {
            assert(screens[k] == tunnelgons@[k].hexagon());
        }
    }
    None
}

/// The screen, family and slot that a write is for.
pub open spec fn place_of(write: ChannelWrite) -> (HexagonDefinition, ChannelKind, int) {
    (write.channel.hexagon, write.channel.kind, wrapped_index(write.channel.index as nat) as int)
}

/// The level that a tunnel shows in a slot of a family.
pub open spec fn shown(tunnelgon: Tunnelgon, kind: ChannelKind, slot: int) -> i64 {
    tunnelgon.params.bank(kind)[slot]
}

/// A write changes its own place and no other: after it, every tunnel on
/// its screen shows its level in its slot, and every other slot of every
/// tunnel shows what it showed before.
pub proof fn lemma_write_changes_one_place(
    before: Seq<Tunnelgon>,
    after: Seq<Tunnelgon>,
    write: ChannelWrite,
    i: int,
    kind: ChannelKind,
    slot: int,
)
    requires
        wrote(before, after, write),
        0 <= i < before.len(),
        0 <= slot < 8,
    ensures
        after[i].hexagon() == before[i].hexagon(),
        (before[i].hexagon(), kind, slot) == place_of(write) ==> shown(after[i], kind, slot)
            == write.value,
        (before[i].hexagon(), kind, slot) != place_of(write) ==> shown(after[i], kind, slot)
            == shown(before[i], kind, slot),
{
    assert(before[i].took(after[i], write));
    assert(before[i].params.bank(kind).len() == 8);
}

/// The last write wins: after a list of writes was carried out, every
/// tunnel shows, in each slot, the level of the last write of the list that
/// is for that slot on its screen, and what it showed before where the list
/// has no write for it.
pub proof fn lemma_last_write_is_shown(
    before: Seq<Tunnelgon>,
    after: Seq<Tunnelgon>,
    writes: Seq<ChannelWrite>,
    i: int,
    kind: ChannelKind,
    slot: int,
)
    requires
        wrote_all(before, after, writes),
        0 <= i < before.len(),
        0 <= slot < 8,
    ensures
        after.len() == before.len(),
        after[i].hexagon() == before[i].hexagon(),
        forall|at: int|
            0 <= at < writes.len() && place_of(#[trigger] writes[at]) == (
                before[i].hexagon(),
                kind,
                slot,
            ) && (forall|later: int|
                at < later < writes.len() ==> place_of(#[trigger] writes[later]) != (
                    before[i].hexagon(),
                    kind,
                    slot,
                )) ==> shown(after[i], kind, slot) == writes[at].value,
        (forall|at: int|
            0 <= at < writes.len() ==> place_of(#[trigger] writes[at]) != (
                before[i].hexagon(),
                kind,
                slot,
            )) ==> shown(after[i], kind, slot) == shown(before[i], kind, slot),
    decreases writes.len(),
{
    if writes.len() > 0 {
        let mid = choose|mid: Seq<Tunnelgon>|
            wrote_all(before, mid, writes.drop_last()) && wrote(mid, after, writes.last());
        let earlier = writes.drop_last();
        lemma_last_write_is_shown(before, mid, earlier, i, kind, slot);
        lemma_write_changes_one_place(mid, after, writes.last(), i, kind, slot);
        let place = (before[i].hexagon(), kind, slot);
        assert forall|at: int|
            0 <= at < writes.len() && place_of(#[trigger] writes[at]) == place && (forall|later: int|
                at < later < writes.len() ==> place_of(#[trigger] writes[later]) != place)
            implies shown(after[i], kind, slot) == writes[at].value by {
            if at < earlier.len() {
                assert(earlier[at] == writes[at]);
                assert forall|later: int| at < later < earlier.len() implies place_of(
                    #[trigger] earlier[later],
                ) != place by {
                    assert(earlier[later] == writes[later]);
                }
                assert(place_of(writes[writes.len() - 1]) != place);
            }
        }
        if forall|at: int| 0 <= at < writes.len() ==> place_of(#[trigger] writes[at]) != place {
            assert forall|at: int| 0 <= at < earlier.len() implies place_of(#[trigger] earlier[at])
                != place by {
                assert(earlier[at] == writes[at]);
            }
            assert(place_of(writes[writes.len() - 1]) != place);
        }
    }
}

/// Whether the tunnel travels with the beat.
pub struct TunnelgonAccum {
    pub enabled: bool,
}

impl Default for TunnelgonAccum {
    fn default() -> (r: TunnelgonAccum)
        ensures
            !r.enabled,
    {
        TunnelgonAccum { enabled: false }
    }
}

/// The travel target after `beats` beats: one whole level further for each,
/// but no further than the largest level.
pub open spec fn accum_target(target: i64, beats: nat) -> i64 {
    if target + beats * LEVEL_UNIT > i64::MAX {
        i64::MAX
    } else {
        (target + beats * LEVEL_UNIT) as i64
    }
}

/// The travel after a frame of `dt` microseconds: closer to the target by
/// the share `dt / (dt + ACCUM_TIME_CONSTANT)` of the distance, rounded down
/// to whole millionths.
pub open spec fn accum_next(accum: i64, target: i64, dt: u64) -> int {
    toward(
        accum as int,
        target as int,
        ((gap(accum as int, target as int) * dt) / (dt + ACCUM_TIME_CONSTANT)) as nat,
    )
}

/// Lets every tunnel travel for one frame of `dt` microseconds in which
/// `beats` beats came. Where travelling with the beat is enabled, each beat
/// moves the target on by one whole level. Then the travel follows the
/// target.
pub fn tunnelgon_accum(
    tunnelgons: &mut Vec<Tunnelgon>,
    beats: usize,
    dt: u64,
    settings: &TunnelgonAccum,
)
    ensures
        final(tunnelgons)@.len() == old(tunnelgons)@.len(),
        forall|i: int|
            0 <= i < old(tunnelgons)@.len() ==> {
                let before = #[trigger] old(tunnelgons)@[i];
                let after = final(tunnelgons)@[i];
                let target = if settings.enabled {
                    accum_target(before.params.tun_accum_target, beats as nat)
                } else {
                    before.params.tun_accum_target
                };
                &&& after.hexagon() == before.hexagon()
                &&& after.params.tun_accum_target == target
                &&& after.params.tun_accum == accum_next(before.params.tun_accum, target, dt)
                &&& forall|kind: ChannelKind| after.params.bank(kind) == before.params.bank(kind)
                &&& after.params.spiral_freq == before.params.spiral_freq
                &&& after.params.spiral_skew == before.params.spiral_skew
                &&& after.params.spiral_dir == before.params.spiral_dir
                &&& after.params.spiral_accum == before.params.spiral_accum
            },
{
    let mut i: usize = 0;
    while i < tunnelgons.len()
        invariant
            i <= tunnelgons.len(),
            tunnelgons@.len() == old(tunnelgons)@.len(),
            forall|k: int| i <= k < tunnelgons@.len() ==> tunnelgons@[k] == old(tunnelgons)@[k],
            forall|k: int|
                0 <= k < i ==> {
                    let before = #[trigger] old(tunnelgons)@[k];
                    let after = tunnelgons@[k];
                    let target = if settings.enabled {
                        accum_target(before.params.tun_accum_target, beats as nat)
                    } else {
                        before.params.tun_accum_target
                    };
                    &&& after.hexagon() == before.hexagon()
                    &&& after.params.tun_accum_target == target
                    &&& after.params.tun_accum == accum_next(before.params.tun_accum, target, dt)
                    &&& forall|kind: ChannelKind| after.params.bank(kind) == before.params.bank(kind)
                    &&& after.params.spiral_freq == before.params.spiral_freq
                    &&& after.params.spiral_skew == before.params.spiral_skew
                    &&& after.params.spiral_dir == before.params.spiral_dir
                    &&& after.params.spiral_accum == before.params.spiral_accum
                },
        decreases tunnelgons.len() - i,
    {
        let mut tunnelgon = tunnelgons[i];
        if settings.enabled {
            tunnelgon.params.tun_accum_target = moved_target(
                tunnelgon.params.tun_accum_target,
                beats,
            );
        }
        tunnelgon.params.tun_accum = followed(
            tunnelgon.params.tun_accum,
            tunnelgon.params.tun_accum_target,
            dt,
        );
        tunnelgons.set(i, tunnelgon);
        i += 1;
    }
}

/// The travel target after `beats` beats.
fn moved_target(target: i64, beats: usize) -> (r: i64)
    ensures
        r == accum_target(target, beats as nat),
{
    proof {
        assert(beats * LEVEL_UNIT <= 0xffff_ffff_ffff_ffff * 1_000_000) by (nonlinear_arith)
            requires
                0 <= beats <= 0xffff_ffff_ffff_ffff,
                LEVEL_UNIT == 1_000_000,
        ;
    }
    let wide: i128 = target as i128 + beats as i128 * LEVEL_UNIT as i128;
    if wide > i64::MAX as i128 {
        i64::MAX
    } else {
        wide as i64
    }
}

/// The travel after a frame of `dt` microseconds.
fn followed(accum: i64, target: i64, dt: u64) -> (r: i64)
    ensures
        r == accum_next(accum, target, dt),
{
    let distance: u128 = if target >= accum {
        (target as i128 - accum as i128) as u128
    } else {
        (accum as i128 - target as i128) as u128
    };
    proof {
        assert(distance * dt <= 0xffff_ffff_ffff_ffff * 0xffff_ffff_ffff_ffff) by (nonlinear_arith)
            requires
                0 <= distance <= 0xffff_ffff_ffff_ffff,
                0 <= dt <= 0xffff_ffff_ffff_ffff,
        ;
        if dt > 0 {
            crate::anim::lemma_share_is_smaller(
                distance as nat,
                ACCUM_TIME_CONSTANT as nat,
                dt as nat,
            );
        } else {
            assert(distance * 0 == 0) by (nonlinear_arith);
        }
    }
    let step: u128 = (distance * dt as u128) / (dt as u128 + ACCUM_TIME_CONSTANT as u128);
    if target >= accum {
        (accum as i128 + step as i128) as i64
    } else {
        (accum as i128 - step as i128) as i64
    }
}

} // verus!
