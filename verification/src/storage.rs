//! What the animations are switched to, as a whole that can be edited,
//! stored, prepared, and loaded at once or on the next beat.
use crate::hexagon::HexagonDefinition;
use crate::meta_phys::{PhysAnimMode, PhysMetaAnim};
use crate::meta_tunnelgon::{
    TunnelgonLaserCycleMetaAnim, TunnelgonLaserFigureEightMetaAnim,
    TunnelgonLaserRoundTheClockMetaAnim, TunnelgonLaserSweepMetaAnim, TunnelgonRingsBTFMetaAnim,
    TunnelgonRingsFTBMetaAnim, TunnelgonRingsTrainMetaAnim,
};
use crate::settings::{EyesMode, PhysHexSettings};
use crate::tubes_anim::{TubesAnimStorage, TubesWaveAnims};
use vstd::prelude::*;

verus! {

/// Which tunnel patterns are switched on.
#[derive(Copy, Clone, Debug, PartialEq, Eq, Structural)]
pub struct TgMetaAnimStorage {
    pub laser_cycle: bool,
    pub laser_figure_eight: bool,
    pub laser_round_the_clock: bool,
    pub laser_sweep: bool,
    pub ring_ftb: bool,
    pub ring_btf: bool,
    pub ring_train: bool,
}

impl TgMetaAnimStorage {
    /// Every pattern switched off.
    pub open spec fn off() -> TgMetaAnimStorage {
        TgMetaAnimStorage {
            laser_cycle: false,
            laser_figure_eight: false,
            laser_round_the_clock: false,
            laser_sweep: false,
            ring_ftb: false,
            ring_btf: false,
            ring_train: false,
        }
    }
}

impl Default for TgMetaAnimStorage {
    fn default() -> (r: TgMetaAnimStorage)
        ensures
            r == TgMetaAnimStorage::off(),
    {
        TgMetaAnimStorage {
            laser_cycle: false,
            laser_figure_eight: false,
            laser_round_the_clock: false,
            laser_sweep: false,
            ring_ftb: false,
            ring_btf: false,
            ring_train: false,
        }
    }
}

/// The tunnel patterns.
pub struct TgMetaAnim {
    pub laser_cycle: TunnelgonLaserCycleMetaAnim,
    pub laser_figure_eight: TunnelgonLaserFigureEightMetaAnim,
    pub laser_round_the_clock: TunnelgonLaserRoundTheClockMetaAnim,
    pub laser_sweep: TunnelgonLaserSweepMetaAnim,
    pub ring_ftb: TunnelgonRingsFTBMetaAnim,
    pub ring_btf: TunnelgonRingsBTFMetaAnim,
    pub ring_train: TunnelgonRingsTrainMetaAnim,
}

impl Default for TgMetaAnim {
    /// Every pattern switched off and at its start.
    fn default() -> (r: TgMetaAnim)
        ensures
            r.switches() == TgMetaAnimStorage::off(),
            r.laser_cycle.counter() == 0,
            r.laser_figure_eight.runs() == Seq::<usize>::empty(),
            r.laser_round_the_clock.counter() == 0,
            r.laser_sweep.counter() == 0,
            r.ring_ftb.counter() == 0,
            r.ring_btf.counter() == 0,
    {
        TgMetaAnim {
            laser_cycle: TunnelgonLaserCycleMetaAnim::default(),
            laser_figure_eight: TunnelgonLaserFigureEightMetaAnim::default(),
            laser_round_the_clock: TunnelgonLaserRoundTheClockMetaAnim::default(),
            laser_sweep: TunnelgonLaserSweepMetaAnim::default(),
            ring_ftb: TunnelgonRingsFTBMetaAnim::default(),
            ring_btf: TunnelgonRingsBTFMetaAnim::default(),
            ring_train: TunnelgonRingsTrainMetaAnim::default(),
        }
    }
}

impl TgMetaAnim {
    /// Which patterns are switched on.
    pub open spec fn switches(self) -> TgMetaAnimStorage {
        TgMetaAnimStorage {
            laser_cycle: self.laser_cycle.enabled(),
            laser_figure_eight: self.laser_figure_eight.enabled(),
            laser_round_the_clock: self.laser_round_the_clock.enabled(),
            laser_sweep: self.laser_sweep.enabled(),
            ring_ftb: self.ring_ftb.enabled(),
            ring_btf: self.ring_btf.enabled(),
            ring_train: self.ring_train.enabled,
        }
    }

    /// Whether `after` is where every pattern of `self` is, whatever is
    /// switched on.
    pub open spec fn same_place(self, after: TgMetaAnim) -> bool {
        &&& after.laser_cycle.counter() == self.laser_cycle.counter()
        &&& after.laser_figure_eight.runs() == self.laser_figure_eight.runs()
        &&& after.laser_round_the_clock.counter() == self.laser_round_the_clock.counter()
        &&& after.laser_sweep.counter() == self.laser_sweep.counter()
        &&& after.ring_ftb.counter() == self.ring_ftb.counter()
        &&& after.ring_btf.counter() == self.ring_btf.counter()
    }

    /// Switches the patterns as `storage` says, and leaves each where it is.
    pub fn load_storage(&mut self, storage: TgMetaAnimStorage)
        ensures
            final(self).switches() == storage,
            old(self).same_place(*final(self)),
    {
        self.laser_cycle.set_enabled(storage.laser_cycle);
        self.laser_figure_eight.set_enabled(storage.laser_figure_eight);
        self.laser_round_the_clock.set_enabled(storage.laser_round_the_clock);
        self.laser_sweep.set_enabled(storage.laser_sweep);
        self.ring_ftb.set_enabled(storage.ring_ftb);
        self.ring_btf.set_enabled(storage.ring_btf);
        self.ring_train.enabled = storage.ring_train;
    }
}

/// The animations of the tubes.
pub struct TubesAnim {
    pub wave: TubesWaveAnims,
}

impl Default for TubesAnim {
    /// Everything switched off, every clock at zero.
    fn default() -> (r: TubesAnim)
        ensures
            r.wave.switches() == TubesAnimStorage::off(),
            r.wave.wave_clock() == 0,
            r.wave.sweep_level() == 0,
            r.wave.beat_level() == 0,
            r.wave.noise_level() == 0,
            forall|which: nat| r.wave.punch_counter(which) == 0,
    {
        TubesAnim { wave: TubesWaveAnims::default() }
    }
}

impl TubesAnim {
    /// Switches the animations of the tubes as `storage` says.
    pub fn load_storage(&mut self, storage: TubesAnimStorage)
        ensures
            final(self).wave.switches() == storage,
            final(self).wave.wave_clock() == old(self).wave.wave_clock(),
            final(self).wave.sweep_level() == old(self).wave.sweep_level(),
            final(self).wave.beat_level() == old(self).wave.beat_level(),
            final(self).wave.noise_level() == old(self).wave.noise_level(),
            forall|which: nat|
                final(self).wave.punch_counter(which) == old(self).wave.punch_counter(which),
    {
        self.wave.load_storage(storage);
    }
}

/// What the bodies in the large screen are set to.
#[derive(Copy, Clone, Debug, PartialEq, Eq, Structural)]
pub struct PhysAnimStorage {
    pub anim_mode: PhysAnimMode,
    pub eye_count: usize,
    pub eyes_mode: EyesMode,
}

impl PhysAnimStorage {
    /// Nothing on the beat, no eyes, eyes at rest.
    pub open spec fn off() -> PhysAnimStorage {
        PhysAnimStorage { anim_mode: PhysAnimMode::Off, eye_count: 0, eyes_mode: EyesMode::Off }
    }
}

impl Default for PhysAnimStorage {
    fn default() -> (r: PhysAnimStorage)
        ensures
            r == PhysAnimStorage::off(),
    {
        PhysAnimStorage { anim_mode: PhysAnimMode::Off, eye_count: 0, eyes_mode: EyesMode::Off }
    }
}

/// The bodies in the large screen: what the beat does to them, and their
/// settings.
pub struct PhysAnim {
    pub phys_meta_anim: PhysMetaAnim,
    pub phys_hex_settings: PhysHexSettings,
}

impl Default for PhysAnim {
    /// Nothing on the beat, no eyes, eyes at rest.
    fn default() -> (r: PhysAnim)
        ensures
            r.phys_meta_anim.mode() == PhysAnimMode::Off,
            r.phys_meta_anim.push_pull_counter() == 0,
            r.phys_meta_anim.dir_push_counter() == 0,
            r.phys_hex_settings == (PhysHexSettings { eye_count: 0, eyes_mode: EyesMode::Off }),
    {
        PhysAnim {
            phys_meta_anim: PhysMetaAnim::default(),
            phys_hex_settings: PhysHexSettings::default(),
        }
    }
}

impl PhysAnim {
    /// Sets the bodies as `phys_anim_storage` says.
    pub fn load_storage(&mut self, phys_anim_storage: PhysAnimStorage)
        ensures
            final(self).phys_meta_anim.mode() == phys_anim_storage.anim_mode,
            final(self).phys_meta_anim.push_pull_counter() == old(self).phys_meta_anim.push_pull_counter(),
            final(self).phys_meta_anim.dir_push_counter() == old(self).phys_meta_anim.dir_push_counter(),
            final(self).phys_hex_settings == (PhysHexSettings {
                eye_count: phys_anim_storage.eye_count,
                eyes_mode: phys_anim_storage.eyes_mode,
            }),
    {
        self.phys_meta_anim.set_anim_mode(phys_anim_storage.anim_mode);
        self.phys_hex_settings.eye_count = phys_anim_storage.eye_count;
        self.phys_hex_settings.eyes_mode = phys_anim_storage.eyes_mode;
    }
}

/// Everything that the animations are switched to, and the screens that
/// the tunnel, the swirl and the picture are to show on.
pub struct MetaAnimStorage {
    pub tg: TgMetaAnimStorage,
    pub tubes: TubesAnimStorage,
    pub phys: PhysAnimStorage,
    pub tg_next: Vec<HexagonDefinition>,
    pub sg_next: Vec<HexagonDefinition>,
    pub pg_next: Vec<HexagonDefinition>,
}

/// What a `MetaAnimStorage` holds.
pub struct MetaAnimSettings {
    pub tg: TgMetaAnimStorage,
    pub tubes: TubesAnimStorage,
    pub phys: PhysAnimStorage,
    pub tg_next: Seq<HexagonDefinition>,
    pub sg_next: Seq<HexagonDefinition>,
    pub pg_next: Seq<HexagonDefinition>,
}

impl View for MetaAnimStorage {
    type V = MetaAnimSettings;

    open spec fn view(&self) -> MetaAnimSettings {
        MetaAnimSettings {
            tg: self.tg,
            tubes: self.tubes,
            phys: self.phys,
            tg_next: self.tg_next@,
            sg_next: self.sg_next@,
            pg_next: self.pg_next@,
        }
    }
}

impl MetaAnimSettings {
    /// Everything switched off, nothing shown anywhere.
    pub open spec fn off() -> MetaAnimSettings {
        MetaAnimSettings {
            tg: TgMetaAnimStorage::off(),
            tubes: TubesAnimStorage::off(),
            phys: PhysAnimStorage::off(),
            tg_next: Seq::empty(),
            sg_next: Seq::empty(),
            pg_next: Seq::empty(),
        }
    }

    /// The first preset: lasers round the clock, rings both ways, the wave
    /// running out, and the tunnel on the six small screens.
    pub open spec fn preset1() -> MetaAnimSettings {
        MetaAnimSettings {
            tg: TgMetaAnimStorage {
                laser_cycle: false,
                laser_figure_eight: false,
                laser_round_the_clock: true,
                laser_sweep: false,
                ring_ftb: true,
                ring_btf: true,
                ring_train: false,
            },
            tubes: TubesAnimStorage {
                wave: 1,
                punch: false,
                punch2: false,
                punch3: false,
                punch4: false,
                sweep_out: false,
                sweep_in: false,
            },
            phys: PhysAnimStorage::off(),
            tg_next: seq![
                HexagonDefinition::A1,
                HexagonDefinition::A2,
                HexagonDefinition::A3,
                HexagonDefinition::B1,
                HexagonDefinition::B2,
                HexagonDefinition::B3,
            ],
            sg_next: Seq::empty(),
            pg_next: Seq::empty(),
        }
    }
}

/// A list of screens with the same entries as `list`.
pub fn copy_screens(list: &Vec<HexagonDefinition>) -> (copy: Vec<HexagonDefinition>)
    ensures
        copy@ == list@,
{
    let mut copy: Vec<HexagonDefinition> = Vec::new();
    let mut i: usize = 0;
    while i < list.len()
        invariant
            i <= list.len(),
            copy@ == list@.take(i as int),
        decreases list.len() - i,
    {
        copy.push(list[i]);
        assert(list@.take(i as int + 1) == list@.take(i as int).push(list@[i as int]));
        i += 1;
    }
    assert(list@.take(list.len() as int) == list@);
    copy
}

impl Default for MetaAnimStorage {
    fn default() -> (r: MetaAnimStorage)
        ensures
            r@ == MetaAnimSettings::off(),
    {
        MetaAnimStorage {
            tg: TgMetaAnimStorage::default(),
            tubes: TubesAnimStorage::default(),
            phys: PhysAnimStorage::default(),
            tg_next: Vec::new(),
            sg_next: Vec::new(),
            pg_next: Vec::new(),
        }
    }
}

impl MetaAnimStorage {
    /// Settings that hold what these hold.
    pub fn duplicate(&self) -> (copy: MetaAnimStorage)
        ensures
            copy@ == self@,
    {
        MetaAnimStorage {
            tg: self.tg,
            tubes: self.tubes,
            phys: self.phys,
            tg_next: copy_screens(&self.tg_next),
            sg_next: copy_screens(&self.sg_next),
            pg_next: copy_screens(&self.pg_next),
        }
    }
}

/// The first preset.
pub fn preset1() -> (r: MetaAnimStorage)
    ensures
        r@ == MetaAnimSettings::preset1(),
{
    let mut tg = TgMetaAnimStorage::default();
    tg.laser_round_the_clock = true;
    tg.ring_ftb = true;
    tg.ring_btf = true;
    let mut tubes = TubesAnimStorage::default();
    tubes.wave = 1;
    MetaAnimStorage {
        tg,
        tubes,
        phys: PhysAnimStorage::default(),
        tg_next: crate::elements2d::small_screens(),
        sg_next: Vec::new(),
        pg_next: Vec::new(),
    }
}

/// The screens that the tunnel, the swirl and the picture are to show on.
pub struct GonSelection {
    pub tunnelgon: Vec<HexagonDefinition>,
    pub swirlgon: Vec<HexagonDefinition>,
    pub pedrogon: Vec<HexagonDefinition>,
}

/// The settings that are live, those that are prepared to replace them, and
/// those that were stored away.
pub struct MetaAnimMemory {
    current: MetaAnimStorage,
    next: Option<MetaAnimStorage>,
    edit_direct: bool,
    next_on_beat: bool,
    memory: Vec<MetaAnimStorage>,
    gons_written: bool,
}

/// What a `MetaAnimMemory` holds.
pub struct MetaAnimMemoryView {
    /// The live settings.
    pub current: MetaAnimSettings,
    /// The prepared settings, if any.
    pub next: Option<MetaAnimSettings>,
    /// Whether edits go to the live settings at once. Not used so far.
    pub edit_direct: bool,
    /// Whether the prepared settings go live on the next beat.
    pub next_on_beat: bool,
    /// The stored settings, oldest first.
    pub memory: Seq<MetaAnimSettings>,
    /// Whether the screens of the live settings were announced.
    pub gons_written: bool,
}

impl View for MetaAnimMemory {
    type V = MetaAnimMemoryView;

    closed spec fn view(&self) -> MetaAnimMemoryView {
        MetaAnimMemoryView {
            current: self.current@,
            next: match self.next {
                Some(next) => Some(next@),
                None => None,
            },
            edit_direct: self.edit_direct,
            next_on_beat: self.next_on_beat,
            memory: self.memory@.map_values(|stored: MetaAnimStorage| stored@),
            gons_written: self.gons_written,
        }
    }
}

impl MetaAnimMemoryView {
    /// The settings that edits go to: the prepared ones where there are
    /// some, else the live ones.
    pub open spec fn edited(self) -> MetaAnimSettings {
        match self.next {
            Some(next) => next,
            None => self.current,
        }
    }

    /// The memory with `settings` in the place of those that edits go to.
    pub open spec fn with_edited(self, settings: MetaAnimSettings) -> MetaAnimMemoryView {
        match self.next {
            Some(_) => MetaAnimMemoryView { next: Some(settings), ..self },
            None => MetaAnimMemoryView { current: settings, ..self },
        }
    }

    /// The memory with the prepared settings live: they are the live ones,
    /// nothing is prepared, and their screens are still to be announced.
    /// Without prepared settings nothing changes.
    pub open spec fn loaded(self) -> MetaAnimMemoryView {
        match self.next {
            Some(next) => MetaAnimMemoryView {
                current: next,
                next: None,
                gons_written: false,
                ..self
            },
            None => self,
        }
    }

    /// The memory after a frame with `beats` beats: where settings are
    /// prepared to go live on the next beat and a beat came, they are live
    /// and nothing waits for a beat any more.
    pub open spec fn after_beats(self, beats: nat) -> MetaAnimMemoryView {
        if self.next is Some && self.next_on_beat && beats > 0 {
            MetaAnimMemoryView { next_on_beat: false, ..self.loaded() }
        } else {
            self
        }
    }
}

impl Default for MetaAnimMemory {
    /// Everything off, nothing prepared, nothing stored, nothing announced.
    fn default() -> (r: MetaAnimMemory)
        ensures
            r@ == (MetaAnimMemoryView {
                current: MetaAnimSettings::off(),
                next: None,
                edit_direct: false,
                next_on_beat: false,
                memory: Seq::empty(),
                gons_written: false,
            }),
    {
        let r = MetaAnimMemory {
            current: MetaAnimStorage::default(),
            next: None,
            edit_direct: false,
            next_on_beat: false,
            memory: Vec::new(),
            gons_written: false,
        };
        assert(r@.memory =~= Seq::empty());
        r
    }
}

impl MetaAnimMemory {
    /// A copy of the settings that edits go to.
    pub fn settings(&self) -> (r: MetaAnimStorage)
        ensures
            r@ == self@.edited(),
    {
        match &self.next {
            Some(next) => next.duplicate(),
            None => self.current.duplicate(),
        }
    }

    /// A copy of the live settings.
    pub fn current(&self) -> (r: MetaAnimStorage)
        ensures
            r@ == self@.current,
    {
        self.current.duplicate()
    }

    /// Whether settings are prepared.
    pub fn is_prepared(&self) -> (r: bool)
        ensures
            r == self@.next is Some,
    {
        self.next.is_some()
    }

    /// Whether the prepared settings go live on the next beat.
    pub fn loads_on_beat(&self) -> (r: bool)
        ensures
            r == self@.next_on_beat,
    {
        self.next_on_beat
    }

    /// How many settings are stored.
    pub fn stored_count(&self) -> (n: usize)
        ensures
            n == self@.memory.len(),
    {
        self.memory.len()
    }

    /// Puts `settings` in the place of the settings that edits go to.
    pub fn edit(&mut self, settings: MetaAnimStorage)
        ensures
            final(self)@ == old(self)@.with_edited(settings@),
    {
        if self.next.is_some() {
            self.next = Some(settings);
        } else {
            self.current = settings;
        }
    }

    /// Prepares the first preset.
    pub fn preset(&mut self)
        ensures
            final(self)@ == (MetaAnimMemoryView {
                next: Some(MetaAnimSettings::preset1()),
                ..old(self)@
            }),
    {
        self.next = Some(preset1());
    }

    /// Stores a copy of the settings that edits go to, as the newest.
    pub fn store(&mut self)
        ensures
            final(self)@ == (MetaAnimMemoryView {
                memory: old(self)@.memory.push(old(self)@.edited()),
                ..old(self)@
            }),
    {
        let copy = self.settings();
        self.memory.push(copy);
        assert(self@.memory =~= old(self)@.memory.push(old(self)@.edited()));
    }

    /// Prepares a copy of the `at`-th stored settings. Without such settings
    /// nothing changes.
    pub fn load_stored(&mut self, at: usize)
        ensures
            at < old(self)@.memory.len() ==> final(self)@ == (MetaAnimMemoryView {
                next: Some(old(self)@.memory[at as int]),
                ..old(self)@
            }),
            at >= old(self)@.memory.len() ==> final(self)@ == old(self)@,
    {
        if at < self.memory.len() {
            self.next = Some(self.memory[at].duplicate());
        }
    }

    /// Forgets the `at`-th stored settings. Without such settings nothing
    /// changes.
    pub fn delete_stored(&mut self, at: usize)
        ensures
            at < old(self)@.memory.len() ==> final(self)@ == (MetaAnimMemoryView {
                memory: old(self)@.memory.remove(at as int),
                ..old(self)@
            }),
            at >= old(self)@.memory.len() ==> final(self)@ == old(self)@,
    {
        if at < self.memory.len() {
            let _ = self.memory.remove(at);
            assert(self@.memory =~= old(self)@.memory.remove(at as int));
        }
    }

    /// Prepares a copy of the live settings.
    pub fn prepare(&mut self)
        ensures
            final(self)@ == (MetaAnimMemoryView {
                next: Some(old(self)@.current),
                ..old(self)@
            }),
    {
        self.next = Some(self.current.duplicate());
    }

    /// Says whether the prepared settings are to go live on the next beat.
    pub fn set_next_on_beat(&mut self, next_on_beat: bool)
        ensures
            final(self)@ == (MetaAnimMemoryView { next_on_beat, ..old(self)@ }),
    {
        self.next_on_beat = next_on_beat;
    }

    /// Makes the prepared settings live.
    pub fn load(&mut self)
        ensures
            final(self)@ == old(self)@.loaded(),
    {
        let mut next: Option<MetaAnimStorage> = None;
        std::mem::swap(&mut next, &mut self.next);
        match next {
            Some(settings) => {
                self.current = settings;
                self.gons_written = false;
            },
            None => {},
        }
    }

    /// Drops the prepared settings.
    pub fn discard(&mut self)
        ensures
            final(self)@ == (MetaAnimMemoryView { next: None, ..old(self)@ }),
    {
        self.next = None;
    }

    /// Takes note of the beats of a frame: the prepared settings go live on
    /// a beat if they were to.
    pub fn on_beats(&mut self, beats: usize)
        ensures
            final(self)@ == old(self)@.after_beats(beats as nat),
    {
        if self.next.is_some() && self.next_on_beat && beats > 0 {
            self.load();
            self.next_on_beat = false;
        }
    }

    /// The screens of the live settings, once: where they were not
    /// announced yet, they are returned and count as announced.
    pub fn gons_to_write(&mut self) -> (r: Option<GonSelection>)
        ensures
            final(self)@ == (MetaAnimMemoryView { gons_written: true, ..old(self)@ }),
            old(self)@.gons_written <==> r is None,
            r matches Some(selection) ==> selection.tunnelgon@ == old(self)@.current.tg_next
                && selection.swirlgon@ == old(self)@.current.sg_next && selection.pedrogon@ == old(self)@.current.pg_next,
    {
        if self.gons_written {
            return None;
        }
        self.gons_written = true;
        Some(
            GonSelection {
                tunnelgon: copy_screens(&self.current.tg_next),
                swirlgon: copy_screens(&self.current.sg_next),
                pedrogon: copy_screens(&self.current.pg_next),
            },
        )
    }
}

} // verus!
