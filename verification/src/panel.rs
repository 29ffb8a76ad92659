//! What the buttons of the control panels stand for, and the choices that
//! wait for the next beat.
use crate::anim::LEVEL_UNIT;
use crate::elements2d::small_screens;
use crate::hexagon::{insert_hex_to_vec, remove_hex_from_vec, with_screen, without_screen};
use crate::hexagon::HexagonDefinition;
use crate::meta_phys::{CenterPullEvent, CenterPushEvent, PULL_STRENGTH};
use crate::settings::SwirlAutomation;
use crate::storage::{copy_screens, GonSelection};
use crate::tubes_anim::pick_below;
use crate::tunnelgon::{LaserAnimationEvent, RingAnimationEvent, SetTunnelgonEvent};
use crate::tunnelgon::{RingBasePosAnim, RingBaseValAnim, TunnelgonBaseAnim};
use vstd::prelude::*;

verus! {

/// Number of swirl presets that the panel offers.
pub const SWIRL_PRESET_BUTTONS: usize = 8;

/// What was chosen on the panel and waits for a beat or for the button that
/// sets it.
pub struct NextSettings {
    pub swirl_next_beat: bool,
    pub swirl_preset: usize,
    pub gons_next_beat: bool,
    pub tunnelgon: Vec<HexagonDefinition>,
    pub swirlgon: Vec<HexagonDefinition>,
    pub pedrogon: Vec<HexagonDefinition>,
}

impl Default for NextSettings {
    fn default() -> (r: NextSettings)
        ensures
            !r.swirl_next_beat,
            r.swirl_preset == 0,
            !r.gons_next_beat,
            r.tunnelgon@ == Seq::<HexagonDefinition>::empty(),
            r.swirlgon@ == Seq::<HexagonDefinition>::empty(),
            r.pedrogon@ == Seq::<HexagonDefinition>::empty(),
    {
        NextSettings {
            swirl_next_beat: false,
            swirl_preset: 0,
            gons_next_beat: false,
            tunnelgon: Vec::new(),
            swirlgon: Vec::new(),
            pedrogon: Vec::new(),
        }
    }
}

impl NextSettings {
    /// Whether `after` differs from `self` in nothing but the three lists of
    /// screens.
    pub open spec fn same_but_screens(&self, after: &NextSettings) -> bool {
        &&& after.swirl_next_beat == self.swirl_next_beat
        &&& after.swirl_preset == self.swirl_preset
        &&& after.gons_next_beat == self.gons_next_beat
    }

    /// Chooses the tunnel for `hexagon`: the screen joins the tunnel's
    /// screens and leaves those of the swirl and of the picture.
    pub fn choose_tunnelgon(&mut self, hexagon: HexagonDefinition)
        ensures
            final(self).tunnelgon@ == with_screen(old(self).tunnelgon@, hexagon),
            final(self).swirlgon@ == without_screen(old(self).swirlgon@, hexagon),
            final(self).pedrogon@ == without_screen(old(self).pedrogon@, hexagon),
            old(self).same_but_screens(final(self)),
    {
        insert_hex_to_vec(&mut self.tunnelgon, &hexagon);
        remove_hex_from_vec(&mut self.swirlgon, &hexagon);
        remove_hex_from_vec(&mut self.pedrogon, &hexagon);
    }

    /// Chooses the swirl for `hexagon`: the screen joins the swirl's screens
    /// and leaves those of the tunnel and of the picture.
    pub fn choose_swirlgon(&mut self, hexagon: HexagonDefinition)
        ensures
            final(self).swirlgon@ == with_screen(old(self).swirlgon@, hexagon),
            final(self).tunnelgon@ == without_screen(old(self).tunnelgon@, hexagon),
            final(self).pedrogon@ == without_screen(old(self).pedrogon@, hexagon),
            old(self).same_but_screens(final(self)),
    {
        insert_hex_to_vec(&mut self.swirlgon, &hexagon);
        remove_hex_from_vec(&mut self.tunnelgon, &hexagon);
        remove_hex_from_vec(&mut self.pedrogon, &hexagon);
    }

    /// Chooses the picture for `hexagon`: the screen joins the picture's
    /// screens and leaves those of the tunnel and of the swirl.
    pub fn choose_pedrogon(&mut self, hexagon: HexagonDefinition)
        ensures
            final(self).pedrogon@ == with_screen(old(self).pedrogon@, hexagon),
            final(self).swirlgon@ == without_screen(old(self).swirlgon@, hexagon),
            final(self).tunnelgon@ == without_screen(old(self).tunnelgon@, hexagon),
            old(self).same_but_screens(final(self)),
    {
        insert_hex_to_vec(&mut self.pedrogon, &hexagon);
        remove_hex_from_vec(&mut self.swirlgon, &hexagon);
        remove_hex_from_vec(&mut self.tunnelgon, &hexagon);
    }

    /// Chooses nothing for `hexagon`: the screen leaves all three lists.
    pub fn choose_nothing(&mut self, hexagon: HexagonDefinition)
        ensures
            final(self).pedrogon@ == without_screen(old(self).pedrogon@, hexagon),
            final(self).swirlgon@ == without_screen(old(self).swirlgon@, hexagon),
            final(self).tunnelgon@ == without_screen(old(self).tunnelgon@, hexagon),
            old(self).same_but_screens(final(self)),
    {
        remove_hex_from_vec(&mut self.pedrogon, &hexagon);
        remove_hex_from_vec(&mut self.swirlgon, &hexagon);
        remove_hex_from_vec(&mut self.tunnelgon, &hexagon);
    }

    /// Chooses a swirl preset at random among those that the panel offers.
    /// Which one it is is not known beforehand.
    pub fn choose_random_preset(&mut self)
        ensures
            final(self).swirl_preset < SWIRL_PRESET_BUTTONS,
            final(self).swirl_next_beat == old(self).swirl_next_beat,
            final(self).gons_next_beat == old(self).gons_next_beat,
            final(self).tunnelgon@ == old(self).tunnelgon@,
            final(self).swirlgon@ == old(self).swirlgon@,
            final(self).pedrogon@ == old(self).pedrogon@,
    {
        match pick_below(SWIRL_PRESET_BUTTONS) {
            Some(preset) => {
                self.swirl_preset = preset;
            },
            None => {
                self.swirl_preset = 0;
            },
        }
    }

    /// On a beat, what was chosen takes effect: the swirl gets the chosen
    /// preset if it is to, and the chosen screens are returned, once, if
    /// they are to be set.
    pub fn on_beat(&mut self, swirl: &mut SwirlAutomation) -> (r: Option<GonSelection>)
        ensures
            final(swirl).preset == if old(self).swirl_next_beat {
                old(self).swirl_preset
            } else {
                old(swirl).preset
            },
            final(swirl).fix_fb_rot == old(swirl).fix_fb_rot,
            final(swirl).fix_pal == old(swirl).fix_pal,
            r is Some <==> old(self).gons_next_beat,
            r matches Some(selection) ==> selection.tunnelgon@ == old(self).tunnelgon@
                && selection.swirlgon@ == old(self).swirlgon@ && selection.pedrogon@ == old(self).pedrogon@,
            !final(self).gons_next_beat,
            final(self).swirl_next_beat == old(self).swirl_next_beat,
            final(self).swirl_preset == old(self).swirl_preset,
            final(self).tunnelgon@ == old(self).tunnelgon@,
            final(self).swirlgon@ == old(self).swirlgon@,
            final(self).pedrogon@ == old(self).pedrogon@,
    {
        if self.swirl_next_beat {
            swirl.preset = self.swirl_preset;
        }
        if self.gons_next_beat {
            self.gons_next_beat = false;
            Some(
                GonSelection {
                    tunnelgon: copy_screens(&self.tunnelgon),
                    swirlgon: copy_screens(&self.swirlgon),
                    pedrogon: copy_screens(&self.pedrogon),
                },
            )
        } else {
            None
        }
    }
}

/// A list of `count` entries, each `value`.
fn repeated(value: i64, count: usize) -> (list: Vec<i64>)
    ensures
        list@ == Seq::new(count as nat, |i: int| value),
{
    let mut list: Vec<i64> = Vec::new();
    let mut i: usize = 0;
    while i < count
        invariant
            i <= count,
            list@ == Seq::new(i as nat, |k: int| value),
        decreases count - i,
    {
        list.push(value);
        assert(list@ =~= Seq::new((i + 1) as nat, |k: int| value));
        i += 1;
    }
    list
}

/// The numbers from `first` up to, but without, `first + count`.
fn counting(first: usize, count: usize) -> (list: Vec<usize>)
    requires
        first + count <= usize::MAX,
    ensures
        list@ == Seq::new(count as nat, |i: int| (first + i) as usize),
{
    let mut list: Vec<usize> = Vec::new();
    let mut i: usize = 0;
    while i < count
        invariant
            i <= count,
            first + count <= usize::MAX,
            list@ == Seq::new(i as nat, |k: int| (first + k) as usize),
        decreases count - i,
    {
        list.push(first + i);
        assert(list@ =~= Seq::new((i + 1) as nat, |k: int| (first + k) as usize));
        i += 1;
    }
    list
}

/// What the button "Tunnelgon All" stands for: the tunnel on the six small
/// screens.
pub fn tunnelgon_all() -> (event: SetTunnelgonEvent)
    ensures
        event.affected_hexagons@ == seq![
            HexagonDefinition::A1,
            HexagonDefinition::A2,
            HexagonDefinition::A3,
            HexagonDefinition::B1,
            HexagonDefinition::B2,
            HexagonDefinition::B3,
        ],
{
    SetTunnelgonEvent { affected_hexagons: small_screens() }
}

/// What the button "Tunnelgon Off" stands for: the tunnel on no screen.
pub fn tunnelgon_off() -> (event: SetTunnelgonEvent)
    ensures
        event.affected_hexagons@ == Seq::<HexagonDefinition>::empty(),
{
    SetTunnelgonEvent { affected_hexagons: Vec::new() }
}

/// Whether `event` drives all eight lasers of the six small screens in
/// the way `base_anim`, each with `value`.
pub open spec fn drives_all_lasers(
    event: LaserAnimationEvent,
    base_anim: TunnelgonBaseAnim,
    value: i64,
) -> bool {
    &&& event.affected_hexagons@ == seq![
        HexagonDefinition::A1,
        HexagonDefinition::A2,
        HexagonDefinition::A3,
        HexagonDefinition::B1,
        HexagonDefinition::B2,
        HexagonDefinition::B3,
    ]
    &&& event.base_anim == base_anim
    &&& event.indices@ == Seq::new(8, |i: int| i as usize)
    &&& event.values@ == Seq::new(8, |i: int| value)
}

/// The event that drives all lasers of the small screens.
fn all_lasers(base_anim: TunnelgonBaseAnim, value: i64) -> (event: LaserAnimationEvent)
    ensures
        drives_all_lasers(event, base_anim, value),
{
    let event = LaserAnimationEvent {
        affected_hexagons: small_screens(),
        base_anim,
        indices: counting(0, 8),
        values: repeated(value, 8),
    };
    assert(event.indices@ =~= Seq::new(8, |i: int| i as usize));
    event
}

/// What the button "Laser Pulse" stands for: a pulse of every laser of the
/// small screens from the full level.
pub fn laser_pulse() -> (event: LaserAnimationEvent)
    ensures
        drives_all_lasers(event, TunnelgonBaseAnim::Pulse, LEVEL_UNIT),
{
    all_lasers(TunnelgonBaseAnim::Pulse, LEVEL_UNIT)
}

/// What the button "Laser Full" stands for: every laser of the small
/// screens at the full level.
pub fn laser_full() -> (event: LaserAnimationEvent)
    ensures
        drives_all_lasers(event, TunnelgonBaseAnim::SetToVal, LEVEL_UNIT),
{
    all_lasers(TunnelgonBaseAnim::SetToVal, LEVEL_UNIT)
}

/// What the button "Laser Off" stands for: every laser of the small screens
/// at zero.
pub fn laser_off() -> (event: LaserAnimationEvent)
    ensures
        drives_all_lasers(event, TunnelgonBaseAnim::SetToVal, 0),
{
    all_lasers(TunnelgonBaseAnim::SetToVal, 0)
}

/// What the button "Rings" stands for: the rings 0 to 4 of the small
/// screens slide, each a tenth behind the one before it, from the positions
/// 0 to 0.4 to the positions 1.1 to 1.5, and pulse from the full level.
pub fn rings() -> (event: RingAnimationEvent)
    ensures
        event.affected_hexagons@ == seq![
            HexagonDefinition::A1,
            HexagonDefinition::A2,
            HexagonDefinition::A3,
            HexagonDefinition::B1,
            HexagonDefinition::B2,
            HexagonDefinition::B3,
        ],
        event.base_pos_anim == RingBasePosAnim::SlideLinear,
        event.base_val_anim == RingBaseValAnim::Pulse,
        event.indices@ == Seq::new(5, |i: int| i as usize),
        event.positions_from@ == Seq::new(5, |i: int| (i * 100_000) as i64),
        event.positions_to@ == Seq::new(5, |i: int| (1_100_000 + i * 100_000) as i64),
        event.values@ == Seq::new(5, |i: int| LEVEL_UNIT),
{
    let mut positions_from: Vec<i64> = Vec::new();
    let mut positions_to: Vec<i64> = Vec::new();
    let mut ring: usize = 0;
    while ring < 5
        invariant
            ring <= 5,
            positions_from@ == Seq::new(ring as nat, |i: int| (i * 100_000) as i64),
            positions_to@ == Seq::new(ring as nat, |i: int| (1_100_000 + i * 100_000) as i64),
        decreases 5 - ring,
    {
        positions_from.push(ring as i64 * 100_000);
        positions_to.push(1_100_000 + ring as i64 * 100_000);
        assert(positions_from@ =~= Seq::new((ring + 1) as nat, |i: int| (i * 100_000) as i64));
        assert(positions_to@ =~= Seq::new(
            (ring + 1) as nat,
            |i: int| (1_100_000 + i * 100_000) as i64,
        ));
        ring += 1;
    }
    let event = RingAnimationEvent {
        affected_hexagons: small_screens(),
        base_pos_anim: RingBasePosAnim::SlideLinear,
        base_val_anim: RingBaseValAnim::Pulse,
        indices: counting(0, 5),
        positions_from,
        positions_to,
        values: repeated(LEVEL_UNIT, 5),
    };
    assert(event.indices@ =~= Seq::new(5, |i: int| i as usize));
    event
}

/// The screens whose bodies the buttons of the effectors push and pull: the
/// large one and the first side.
pub fn effector_screens() -> (screens: Vec<HexagonDefinition>)
    ensures
        screens@ == seq![
            HexagonDefinition::Main,
            HexagonDefinition::A1,
            HexagonDefinition::A2,
            HexagonDefinition::A3,
        ],
{
    let mut screens: Vec<HexagonDefinition> = Vec::new();
    screens.push(HexagonDefinition::Main);
    screens.push(HexagonDefinition::A1);
    screens.push(HexagonDefinition::A2);
    screens.push(HexagonDefinition::A3);
    assert(screens@ =~= seq![
        HexagonDefinition::Main,
        HexagonDefinition::A1,
        HexagonDefinition::A2,
        HexagonDefinition::A3,
    ]);
    screens
}

/// What the button "Center Pull" stands for: a pull of the usual strength
/// on the screens of the effectors.
pub fn center_pull() -> (event: CenterPullEvent)
    ensures
        event.affected_hexagons@ == seq![
            HexagonDefinition::Main,
            HexagonDefinition::A1,
            HexagonDefinition::A2,
            HexagonDefinition::A3,
        ],
        event.strength == PULL_STRENGTH,
{
    CenterPullEvent { affected_hexagons: effector_screens(), strength: PULL_STRENGTH }
}

/// What the button "Center Push" stands for: a push on the screens of the
/// effectors.
pub fn center_push() -> (event: CenterPushEvent)
    ensures
        event.affected_hexagons@ == seq![
            HexagonDefinition::Main,
            HexagonDefinition::A1,
            HexagonDefinition::A2,
            HexagonDefinition::A3,
        ],
{
    CenterPushEvent { affected_hexagons: effector_screens() }
}

} // verus!
