//! Patterns that turn beats into pushes and pulls on the bodies that float
//! in the large screen.
use crate::hexagon::HexagonDefinition;
use crate::meta_tunnelgon::counted;
use vstd::prelude::*;

verus! {

/// Strength of a pull unless told otherwise: 1 600 000, in millionths.
pub const PULL_STRENGTH: i64 = 1_600_000_000_000;

/// Strength of the pull that is kept up from frame to frame: 80 000, in
/// millionths.
pub const CONTINUOUS_PULL_STRENGTH: i64 = 80_000_000_000;

/// What the beat does to the bodies.
#[derive(Copy, Clone, Debug, PartialEq, Eq, Structural)]
pub enum PhysAnimMode {
    /// Nothing.
    Off,
    /// Each beat pushes them away from the centre.
    Push,
    /// Each beat pulls them to the centre.
    Pull,
    /// Beats push and pull in turn.
    PushPull,
    /// They are pulled to the centre all the time.
    ContPull,
    /// Each beat pushes them to one side, going round the six sides.
    Sides,
}

impl Default for PhysAnimMode {
    fn default() -> (r: PhysAnimMode)
        ensures
            r == PhysAnimMode::Off,
    {
        PhysAnimMode::Off
    }
}

/// Pushes the bodies of the listed screens away from the centre.
#[derive(Clone, Debug)]
pub struct CenterPushEvent {
    pub affected_hexagons: Vec<HexagonDefinition>,
}

/// Pulls the bodies of the listed screens to the centre with a strength in
/// millionths.
#[derive(Clone, Debug)]
pub struct CenterPullEvent {
    pub affected_hexagons: Vec<HexagonDefinition>,
    pub strength: i64,
}

impl Default for CenterPullEvent {
    /// A pull of the usual strength on no screen.
    fn default() -> (r: CenterPullEvent)
        ensures
            r.affected_hexagons@ == Seq::<HexagonDefinition>::empty(),
            r.strength == PULL_STRENGTH,
    {
        CenterPullEvent { affected_hexagons: Vec::new(), strength: PULL_STRENGTH }
    }
}

/// Pushes all bodies in one direction, given in sixths of a full turn.
#[derive(Copy, Clone, Debug, PartialEq, Eq, Structural)]
pub struct DirPushEvent {
    pub dir: usize,
}

/// Sets all bodies whirling round the centre.
#[derive(Copy, Clone, Debug, PartialEq, Eq, Structural)]
pub struct WhirlEvent;

/// The pushes and pulls of one frame.
pub struct PhysEvents {
    pub pushes: Vec<CenterPushEvent>,
    pub pulls: Vec<CenterPullEvent>,
}

/// What the beat does to the bodies, and where the patterns that take turns
/// are.
pub struct PhysMetaAnim {
    anim_mode: PhysAnimMode,
    push_pull_counter: usize,
    dir_push_counter: usize,
}

impl Default for PhysMetaAnim {
    fn default() -> (r: PhysMetaAnim)
        ensures
            r.mode() == PhysAnimMode::Off,
            r.push_pull_counter() == 0,
            r.dir_push_counter() == 0,
    {
        PhysMetaAnim { anim_mode: PhysAnimMode::Off, push_pull_counter: 0, dir_push_counter: 0 }
    }
}

impl PhysMetaAnim {
    #[verifier::type_invariant]
    spec fn in_cycle(self) -> bool {
        self.push_pull_counter < 2 && self.dir_push_counter < 6
    }

    /// What the beat does to the bodies.
    pub closed spec fn mode(self) -> PhysAnimMode {
        self.anim_mode
    }

    /// Whether the next beat of push and pull is a pull: 0 or 1.
    pub closed spec fn push_pull_counter(self) -> nat {
        self.push_pull_counter as nat
    }

    /// The side that the next beat pushes to: 0 to 5.
    pub closed spec fn dir_push_counter(self) -> nat {
        self.dir_push_counter as nat
    }

    pub fn anim_mode(&self) -> (r: PhysAnimMode)
        ensures
            r == self.mode(),
    {
        self.anim_mode
    }

    pub fn set_anim_mode(&mut self, anim_mode: PhysAnimMode)
        ensures
            final(self).mode() == anim_mode,
            final(self).push_pull_counter() == old(self).push_pull_counter(),
            final(self).dir_push_counter() == old(self).dir_push_counter(),
    {
        proof {
            use_type_invariant(&*self);
        }
        self.anim_mode = anim_mode;
    }
}

/// Whether `event` pushes the bodies of the large screen.
pub open spec fn pushes_main(event: CenterPushEvent) -> bool {
    event.affected_hexagons@ == seq![HexagonDefinition::Main]
}

/// Whether `event` pulls the bodies of the large screen with `strength`.
pub open spec fn pulls_main(event: CenterPullEvent, strength: i64) -> bool {
    event.affected_hexagons@ == seq![HexagonDefinition::Main] && event.strength == strength
}

/// A push on the bodies of the large screen.
fn push_main() -> (event: CenterPushEvent)
    ensures
        pushes_main(event),
{
    let mut screens: Vec<HexagonDefinition> = Vec::new();
    screens.push(HexagonDefinition::Main);
    assert(screens@ =~= seq![HexagonDefinition::Main]);
    CenterPushEvent { affected_hexagons: screens }
}

/// A pull on the bodies of the large screen.
fn pull_main(strength: i64) -> (event: CenterPullEvent)
    ensures
        pulls_main(event, strength),
{
    let mut screens: Vec<HexagonDefinition> = Vec::new();
    screens.push(HexagonDefinition::Main);
    assert(screens@ =~= seq![HexagonDefinition::Main]);
    CenterPullEvent { affected_hexagons: screens, strength }
}

/// Push, pull or continuous pull. In the mode `Push` each beat pushes the
/// bodies of the large screen; in the mode `Pull` each beat pulls them with
/// the usual strength; in the mode `ContPull` every frame pulls them once
/// with the strength of the continuous pull, whatever the beats. In any other
/// mode nothing happens.
pub fn push_or_pull_meta_anim(settings: &PhysMetaAnim, beats: usize) -> (events: PhysEvents)
    ensures
        events.pushes@.len() == if settings.mode() == PhysAnimMode::Push {
            beats as nat
        } else {
            0
        },
        events.pulls@.len() == if settings.mode() == PhysAnimMode::Pull {
            beats as nat
        } else if settings.mode() == PhysAnimMode::ContPull {
            1
        } else {
            0
        },
        forall|k: int| 0 <= k < events.pushes@.len() ==> pushes_main(#[trigger] events.pushes@[k]),
        forall|k: int|
            0 <= k < events.pulls@.len() ==> pulls_main(
                #[trigger] events.pulls@[k],
                if settings.mode() == PhysAnimMode::ContPull {
                    CONTINUOUS_PULL_STRENGTH
                } else {
                    PULL_STRENGTH
                },
            ),
{
    let mut pushes: Vec<CenterPushEvent> = Vec::new();
    let mut pulls: Vec<CenterPullEvent> = Vec::new();
    let mode = settings.anim_mode;
    let mut done: usize = 0;
    while done < beats
        invariant
            done <= beats,
            mode == settings.mode(),
            pushes@.len() == if mode == PhysAnimMode::Push {
                done as nat
            } else {
                0
            },
            pulls@.len() == if mode == PhysAnimMode::Pull {
                done as nat
            } else {
                0
            },
            forall|k: int| 0 <= k < pushes@.len() ==> pushes_main(#[trigger] pushes@[k]),
            forall|k: int| 0 <= k < pulls@.len() ==> pulls_main(#[trigger] pulls@[k], PULL_STRENGTH),
        decreases beats - done,
    {
        match mode {
            PhysAnimMode::Push => {
                pushes.push(push_main());
            },
            PhysAnimMode::Pull => {
                pulls.push(pull_main(PULL_STRENGTH));
            },
            _ => {},
        }
        done += 1;
    }
    match mode {
        PhysAnimMode::ContPull => {
            pulls.push(pull_main(CONTINUOUS_PULL_STRENGTH));
        },
        _ => {},
    }
    PhysEvents { pushes, pulls }
}

/// How many of `beats` beats find a counter that takes turns at `wanted`,
/// where the counter began at `counter`.
pub open spec fn turns(counter: nat, wanted: nat, beats: nat) -> nat
    decreases beats,
{
    if beats == 0 {
        0
    } else {
        turns(counter, wanted, (beats - 1) as nat) + if counted(counter, 2, (beats - 1) as nat)
            == wanted {
            1nat
        } else {
            0nat
        }
    }
}

/// Push and pull in turn. In the mode `PushPull` beats push and pull the
/// bodies of the large screen in turn, beginning with whichever is next; in
/// any other mode nothing happens and the turn stays.
pub fn push_pull_meta_anim(settings: &mut PhysMetaAnim, beats: usize) -> (events: PhysEvents)
    ensures
        final(settings).mode() == old(settings).mode(),
        final(settings).dir_push_counter() == old(settings).dir_push_counter(),
        old(settings).mode() != PhysAnimMode::PushPull ==> events.pushes@.len() == 0
            && events.pulls@.len() == 0 && final(settings).push_pull_counter() == old(settings).push_pull_counter(),
        old(settings).mode() == PhysAnimMode::PushPull ==> events.pushes@.len() == turns(
            old(settings).push_pull_counter(),
            0,
            beats as nat,
        ) && events.pulls@.len() == turns(old(settings).push_pull_counter(), 1, beats as nat)
            && final(settings).push_pull_counter() == counted(
            old(settings).push_pull_counter(),
            2,
            beats as nat,
        ),
        forall|k: int| 0 <= k < events.pushes@.len() ==> pushes_main(#[trigger] events.pushes@[k]),
        forall|k: int|
            0 <= k < events.pulls@.len() ==> pulls_main(#[trigger] events.pulls@[k], PULL_STRENGTH),
{
    let mut pushes: Vec<CenterPushEvent> = Vec::new();
    let mut pulls: Vec<CenterPullEvent> = Vec::new();
    proof {
        use_type_invariant(&*settings);
    }
    match settings.anim_mode {
        PhysAnimMode::PushPull => {},
        _ => {
            return PhysEvents { pushes, pulls };
        },
    }
    let mut done: usize = 0;
    while done < beats
        invariant
            done <= beats,
            settings.anim_mode == old(settings).anim_mode,
            settings.dir_push_counter == old(settings).dir_push_counter,
            settings.dir_push_counter < 6,
            settings.push_pull_counter < 2,
            old(settings).push_pull_counter < 2,
            settings.push_pull_counter == counted(old(settings).push_pull_counter(), 2, done as nat),
            pushes@.len() == turns(old(settings).push_pull_counter(), 0, done as nat),
            pulls@.len() == turns(old(settings).push_pull_counter(), 1, done as nat),
            forall|k: int| 0 <= k < pushes@.len() ==> pushes_main(#[trigger] pushes@[k]),
            forall|k: int| 0 <= k < pulls@.len() ==> pulls_main(#[trigger] pulls@[k], PULL_STRENGTH),
        decreases beats - done,
    {
        if settings.push_pull_counter == 0 {
            pushes.push(push_main());
        }
        if settings.push_pull_counter == 1 {
            pulls.push(pull_main(PULL_STRENGTH));
        }
        settings.push_pull_counter = (settings.push_pull_counter + 1) % 2;
        done += 1;
    }
    PhysEvents { pushes, pulls }
}

/// Pushes round the sides. In the mode `Sides` each beat pushes all bodies
/// to the side that is next, and the next side is one sixth of a turn on; in
/// any other mode nothing happens and the side stays.
pub fn sides_meta_anim(settings: &mut PhysMetaAnim, beats: usize) -> (events: Vec<DirPushEvent>)
    ensures
        final(settings).mode() == old(settings).mode(),
        final(settings).push_pull_counter() == old(settings).push_pull_counter(),
        old(settings).mode() != PhysAnimMode::Sides ==> events@.len() == 0 && final(settings).dir_push_counter() == old(settings).dir_push_counter(),
        old(settings).mode() == PhysAnimMode::Sides ==> events@.len() == beats && final(settings).dir_push_counter() == counted(old(settings).dir_push_counter(), 6, beats as nat),
        old(settings).mode() == PhysAnimMode::Sides ==> forall|k: int|
            0 <= k < beats ==> (#[trigger] events@[k]).dir == counted(
                old(settings).dir_push_counter(),
                6,
                k as nat,
            ),
{
    let mut events: Vec<DirPushEvent> = Vec::new();
    proof {
        use_type_invariant(&*settings);
    }
    match settings.anim_mode {
        PhysAnimMode::Sides => {},
        _ => {
            return events;
        },
    }
    let mut done: usize = 0;
    while done < beats
        invariant
            done <= beats,
            settings.anim_mode == old(settings).anim_mode,
            settings.push_pull_counter == old(settings).push_pull_counter,
            settings.push_pull_counter < 2,
            settings.dir_push_counter < 6,
            old(settings).dir_push_counter < 6,
            settings.dir_push_counter == counted(old(settings).dir_push_counter(), 6, done as nat),
            events@.len() == done,
            forall|k: int|
                0 <= k < done ==> (#[trigger] events@[k]).dir == counted(
                    old(settings).dir_push_counter(),
                    6,
                    k as nat,
                ),
        decreases beats - done,
    {
        events.push(DirPushEvent { dir: settings.dir_push_counter });
        settings.dir_push_counter = (settings.dir_push_counter + 1) % 6;
        done += 1;
    }
    events
}

} // verus!
