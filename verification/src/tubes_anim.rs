//! The animations of the tubes: which of them are switched on, the clocks
//! that drive their waves and sweeps, and the punches on the beat and on a
//! key.
use crate::anim::{gap, toward, LEVEL_UNIT};
use crate::meta_tunnelgon::counted;
use crate::punch::{next_punch, pattern_tubes, punch_pattern, puncher, PunchScheduler, PunchTask};
use crate::punch::{PUNCH_TIME_CONSTANT, STROBE_PICKS, STROBE_TIME_CONSTANT};
use crate::tubes::{lemma_tube_numbered, tube_numbered, LedTube, TubeIndex, TUBE_COUNT};
use vstd::prelude::*;

verus! {

/// Time constant with which the noise follows the count of beats: 30
/// milliseconds.
pub const NOISE_TIME_CONSTANT: u64 = 30_000;

/// What the tubes are switched to, as it is stored and loaded as a whole.
#[derive(Copy, Clone, Debug, PartialEq, Eq, Structural)]
pub struct TubesAnimStorage {
    pub wave: usize,
    pub punch: bool,
    pub punch2: bool,
    pub punch3: bool,
    pub punch4: bool,
    pub sweep_out: bool,
    pub sweep_in: bool,
}

impl TubesAnimStorage {
    /// Everything switched off.
    pub open spec fn off() -> TubesAnimStorage {
        TubesAnimStorage {
            wave: 0,
            punch: false,
            punch2: false,
            punch3: false,
            punch4: false,
            sweep_out: false,
            sweep_in: false,
        }
    }
}

impl Default for TubesAnimStorage {
    fn default() -> (r: TubesAnimStorage)
        ensures
            r == TubesAnimStorage::off(),
    {
        TubesAnimStorage {
            wave: 0,
            punch: false,
            punch2: false,
            punch3: false,
            punch4: false,
            sweep_out: false,
            sweep_in: false,
        }
    }
}

/// The state of the animations of the tubes. Clocks are in microseconds,
/// levels in millionths.
pub struct TubesWaveAnims {
    wave: usize,
    accum: i64,
    beat_accum: i64,
    beat_accum_pt1: i64,
    punch: bool,
    punch_counter: usize,
    sweep_out: bool,
    sweep_in: bool,
    sweep_accum: i64,
    punch2: bool,
    punch2_counter: usize,
    punch3: bool,
    punch3_counter: usize,
    punch4: bool,
    punch4_counter: usize,
}

/// A sum of two numbers, kept within the range of a clock or level.
pub open spec fn clamped(sum: int) -> i64 {
    if sum > i64::MAX {
        i64::MAX
    } else if sum < i64::MIN {
        i64::MIN
    } else {
        sum as i64
    }
}

/// A sum kept within range.
fn clamp(sum: i128) -> (r: i64)
    ensures
        r == clamped(sum as int),
{
    if sum > i64::MAX as i128 {
        i64::MAX
    } else if sum < i64::MIN as i128 {
        i64::MIN
    } else {
        sum as i64
    }
}

impl Default for TubesWaveAnims {
    /// Everything switched off, every clock at zero.
    fn default() -> (r: TubesWaveAnims)
        ensures
            r.switches() == TubesAnimStorage::off(),
            r.wave_clock() == 0,
            r.sweep_level() == 0,
            r.beat_level() == 0,
            r.noise_level() == 0,
            forall|which: nat| r.punch_counter(which) == 0,
    {
        TubesWaveAnims {
            wave: 0,
            accum: 0,
            beat_accum: 0,
            beat_accum_pt1: 0,
            punch: false,
            punch_counter: 0,
            sweep_out: false,
            sweep_in: false,
            sweep_accum: 0,
            punch2: false,
            punch2_counter: 0,
            punch3: false,
            punch3_counter: 0,
            punch4: false,
            punch4_counter: 0,
        }
    }
}

impl TubesWaveAnims {
    #[verifier::type_invariant]
    spec fn in_cycle(self) -> bool {
        &&& self.punch_counter < 4
        &&& self.punch2_counter < 4
        &&& self.punch3_counter < 4
        &&& self.punch4_counter < 4
    }

    /// What is switched on.
    pub closed spec fn switches(self) -> TubesAnimStorage {
        TubesAnimStorage {
            wave: self.wave,
            punch: self.punch,
            punch2: self.punch2,
            punch3: self.punch3,
            punch4: self.punch4,
            sweep_out: self.sweep_out,
            sweep_in: self.sweep_in,
        }
    }

    /// The clock of the waves, in microseconds.
    pub closed spec fn wave_clock(self) -> i64 {
        self.accum
    }

    /// How far the sweep has come, in millionths of the way from the middle
    /// to the edge.
    pub closed spec fn sweep_level(self) -> i64 {
        self.sweep_accum
    }

    /// The beats counted by the noise, in millionths.
    pub closed spec fn beat_level(self) -> i64 {
        self.beat_accum
    }

    /// The count of beats as the noise follows it, in millionths.
    pub closed spec fn noise_level(self) -> i64 {
        self.beat_accum_pt1
    }

    /// Where the punch pattern `which`, from 1 to 4, is: 0 to 3.
    pub closed spec fn punch_counter(self, which: nat) -> nat {
        if which == 1 {
            self.punch_counter as nat
        } else if which == 2 {
            self.punch2_counter as nat
        } else if which == 3 {
            self.punch3_counter as nat
        } else if which == 4 {
            self.punch4_counter as nat
        } else {
            0
        }
    }

    /// Whether the punch pattern `which`, from 1 to 4, is switched on.
    pub open spec fn punches(self, which: nat) -> bool {
        if which == 1 {
            self.switches().punch
        } else if which == 2 {
            self.switches().punch2
        } else if which == 3 {
            self.switches().punch3
        } else {
            self.switches().punch4
        }
    }

    /// Whether `after` differs from `self` in nothing but what the
    /// predicate's caller says of it: same switches, clocks and counters.
    pub open spec fn same_but_clocks(self, after: TubesWaveAnims) -> bool {
        &&& after.switches() == self.switches()
        &&& forall|which: nat| after.punch_counter(which) == self.punch_counter(which)
    }

    /// What is switched on.
    pub fn get_switches(&self) -> (r: TubesAnimStorage)
        ensures
            r == self.switches(),
    {
        TubesAnimStorage {
            wave: self.wave,
            punch: self.punch,
            punch2: self.punch2,
            punch3: self.punch3,
            punch4: self.punch4,
            sweep_out: self.sweep_out,
            sweep_in: self.sweep_in,
        }
    }

    /// The clock of the waves, in microseconds.
    pub fn get_wave_clock(&self) -> (r: i64)
        ensures
            r == self.wave_clock(),
    {
        self.accum
    }

    /// How far the sweep has come.
    pub fn get_sweep_level(&self) -> (r: i64)
        ensures
            r == self.sweep_level(),
    {
        self.sweep_accum
    }

    /// The count of beats as the noise follows it.
    pub fn get_noise_level(&self) -> (r: i64)
        ensures
            r == self.noise_level(),
    {
        self.beat_accum_pt1
    }

    /// Switches the animations as `storage` says, and leaves clocks and
    /// counters as they are.
    pub fn load_storage(&mut self, storage: TubesAnimStorage)
        ensures
            final(self).switches() == storage,
            final(self).wave_clock() == old(self).wave_clock(),
            final(self).sweep_level() == old(self).sweep_level(),
            final(self).beat_level() == old(self).beat_level(),
            final(self).noise_level() == old(self).noise_level(),
            forall|which: nat| final(self).punch_counter(which) == old(self).punch_counter(which),
    {
        proof {
            use_type_invariant(&*self);
        }
        self.wave = storage.wave;
        self.punch = storage.punch;
        self.punch2 = storage.punch2;
        self.punch3 = storage.punch3;
        self.punch4 = storage.punch4;
        self.sweep_out = storage.sweep_out;
        self.sweep_in = storage.sweep_in;
    }

    /// Lets the clock of the waves run for a frame of `dt` microseconds:
    /// forwards where the wave is `forwards`, backwards where it is
    /// `backwards`. Returns whether it is either, which is whether the wave
    /// is to be drawn.
    fn run_wave(&mut self, dt: u64, forwards: usize, backwards: usize) -> (drawn: bool)
        ensures
            drawn == (old(self).switches().wave == forwards || old(self).switches().wave
                == backwards),
            final(self).wave_clock() == if old(self).switches().wave == forwards {
                clamped(old(self).wave_clock() + dt)
            } else if old(self).switches().wave == backwards {
                clamped(old(self).wave_clock() - dt)
            } else {
                old(self).wave_clock()
            },
            old(self).same_but_clocks(*final(self)),
            final(self).sweep_level() == old(self).sweep_level(),
            final(self).beat_level() == old(self).beat_level(),
            final(self).noise_level() == old(self).noise_level(),
    {
        proof {
            use_type_invariant(&*self);
        }
        if self.wave == forwards {
            self.accum = clamp(self.accum as i128 + dt as i128);
            true
        } else if self.wave == backwards {
            self.accum = clamp(self.accum as i128 - dt as i128);
            true
        } else {
            false
        }
    }
}

/// The smooth wave: its clock runs forwards for wave 1 and backwards for
/// wave 2, by the `dt` microseconds of the frame and within the range of the
/// clock. Returns whether the wave is to be drawn.
pub fn wave_simple(params: &mut TubesWaveAnims, dt: u64) -> (drawn: bool)
    ensures
        drawn == (old(params).switches().wave == 1 || old(params).switches().wave == 2),
        final(params).wave_clock() == if old(params).switches().wave == 1 {
            clamped(old(params).wave_clock() + dt)
        } else if old(params).switches().wave == 2 {
            clamped(old(params).wave_clock() - dt)
        } else {
            old(params).wave_clock()
        },
        old(params).same_but_clocks(*final(params)),
        final(params).sweep_level() == old(params).sweep_level(),
        final(params).beat_level() == old(params).beat_level(),
        final(params).noise_level() == old(params).noise_level(),
{
    params.run_wave(dt, 1, 2)
}

/// The wave in blocks: its clock runs forwards for wave 3 and backwards for
/// wave 4, by the `dt` microseconds of the frame and within the range of the
/// clock. Returns whether the wave is to be drawn.
pub fn wave_blocky(params: &mut TubesWaveAnims, dt: u64) -> (drawn: bool)
    ensures
        drawn == (old(params).switches().wave == 3 || old(params).switches().wave == 4),
        final(params).wave_clock() == if old(params).switches().wave == 3 {
            clamped(old(params).wave_clock() + dt)
        } else if old(params).switches().wave == 4 {
            clamped(old(params).wave_clock() - dt)
        } else {
            old(params).wave_clock()
        },
        old(params).same_but_clocks(*final(params)),
        final(params).sweep_level() == old(params).sweep_level(),
        final(params).beat_level() == old(params).beat_level(),
        final(params).noise_level() == old(params).noise_level(),
{
    params.run_wave(dt, 3, 4)
}

/// A level that follows `target` as a low-pass with the time constant
/// `NOISE_TIME_CONSTANT` does in a frame of `dt` microseconds, without a
/// last jump onto it.
pub open spec fn noise_next(level: i64, target: i64, dt: u64) -> int {
    toward(
        level as int,
        target as int,
        ((gap(level as int, target as int) * dt) / (dt + NOISE_TIME_CONSTANT)) as nat,
    )
}

/// The noise that moves with the beat, for wave 5: each beat of the frame
/// adds one to the count of beats, within the range of a level, and the
/// level of the noise follows the count. Returns whether the noise is to be
/// drawn; where it is not, nothing changes.
pub fn wave_noise1(params: &mut TubesWaveAnims, beats: usize, dt: u64) -> (drawn: bool)
    ensures
        drawn == (old(params).switches().wave == 5),
        !drawn ==> final(params).beat_level() == old(params).beat_level() && final(params).noise_level() == old(params).noise_level(),
        drawn ==> final(params).beat_level() == clamped(
            old(params).beat_level() + beats * LEVEL_UNIT,
        ) && final(params).noise_level() == noise_next(
            old(params).noise_level(),
            final(params).beat_level(),
            dt,
        ),
        old(params).same_but_clocks(*final(params)),
        final(params).wave_clock() == old(params).wave_clock(),
        final(params).sweep_level() == old(params).sweep_level(),
{
    proof {
        use_type_invariant(&*params);
    }
    if params.wave != 5 {
        return false;
    }
    proof {
        assert(beats * LEVEL_UNIT <= 0xffff_ffff_ffff_ffff * 1_000_000) by (nonlinear_arith)
            requires
                0 <= beats <= 0xffff_ffff_ffff_ffff,
                LEVEL_UNIT == 1_000_000,
        ;
    }
    params.beat_accum = clamp(params.beat_accum as i128 + beats as i128 * LEVEL_UNIT as i128);
    params.beat_accum_pt1 = follow(params.beat_accum_pt1, params.beat_accum, dt);
    true
}

/// A level after it followed its target for a frame.
fn follow(level: i64, target: i64, dt: u64) -> (r: i64)
    ensures
        r == noise_next(level, target, dt),
{
    let distance: u128 = if target >= level {
        (target as i128 - level as i128) as u128
    } else {
        (level as i128 - target as i128) as u128
    };
    proof {
        assert(distance * dt <= 0xffff_ffff_ffff_ffff * 0xffff_ffff_ffff_ffff) by (nonlinear_arith)
            requires
                0 <= distance <= 0xffff_ffff_ffff_ffff,
                0 <= dt <= 0xffff_ffff_ffff_ffff,
        ;
        if dt > 0 {
            crate::anim::lemma_share_is_smaller(
                distance as nat,
                NOISE_TIME_CONSTANT as nat,
                dt as nat,
            );
        } else {
            assert(distance * 0 == 0) by (nonlinear_arith);
        }
    }
    let step: u128 = (distance * dt as u128) / (dt as u128 + NOISE_TIME_CONSTANT as u128);
    if target >= level {
        (level as i128 + step as i128) as i64
    } else {
        (level as i128 - step as i128) as i64
    }
}

/// The noise that moves with time, for wave 6. Returns whether it is to be
/// drawn.
pub fn wave_noise2(params: &TubesWaveAnims) -> (drawn: bool)
    ensures
        drawn == (params.switches().wave == 6),
{
    params.wave == 6
}

/// How far a sweep moves in `dt` microseconds: two and a half times the
/// way from the middle to the edge per second.
pub open spec fn sweep_step(dt: u64) -> int {
    dt * 5 / 2
}

/// The sweep out of the middle or into it. A beat in the frame puts the
/// sweep at its start: the middle for a sweep out, the edge for a sweep in.
/// Then the sweep moves on by the `dt` microseconds of the frame, within the
/// range of a level. A sweep out has precedence where both are switched on.
/// Returns whether a sweep is to be drawn; where it is not, nothing changes.
pub fn sweep(params: &mut TubesWaveAnims, beats: usize, dt: u64) -> (drawn: bool)
    ensures
        drawn == (old(params).switches().sweep_out || old(params).switches().sweep_in),
        !drawn ==> final(params).sweep_level() == old(params).sweep_level(),
        drawn ==> ({
            let out = old(params).switches().sweep_out;
            let start = if beats == 0 {
                old(params).sweep_level()
            } else if out {
                0
            } else {
                LEVEL_UNIT
            };
            final(params).sweep_level() == if out {
                clamped(start + sweep_step(dt))
            } else {
                clamped(start - sweep_step(dt))
            }
        }),
        old(params).same_but_clocks(*final(params)),
        final(params).wave_clock() == old(params).wave_clock(),
        final(params).beat_level() == old(params).beat_level(),
        final(params).noise_level() == old(params).noise_level(),
{
    proof {
        use_type_invariant(&*params);
    }
    if !params.sweep_out && !params.sweep_in {
        return false;
    }
    if beats > 0 {
        params.sweep_accum = if params.sweep_out {
            0
        } else {
            LEVEL_UNIT
        };
    }
    let step: i128 = dt as i128 * 5 / 2;
    if params.sweep_out {
        params.sweep_accum = clamp(params.sweep_accum as i128 + step);
    } else {
        params.sweep_accum = clamp(params.sweep_accum as i128 - step);
    }
    true
}

/// The number of the punch that comes `punches` punches after the punch with
/// the number `first`.
pub open spec fn punch_after(first: u64, punches: nat) -> u64
    decreases punches,
{
    if punches == 0 {
        first
    } else {
        next_punch(punch_after(first, (punches - 1) as nat))
    }
}

/// The flashes that a punch pattern starts on `beats` beats, beat by beat:
/// on each beat one for every tube of `tubes` that the pattern is at. The
/// punches are numbered from `first`.
pub open spec fn punched(
    tubes: Seq<LedTube>,
    which: nat,
    counter: nat,
    beats: nat,
    first: u64,
) -> Seq<PunchTask>
    decreases beats,
{
    if beats == 0 {
        Seq::empty()
    } else {
        punched(tubes, which, counter, (beats - 1) as nat, first) + tubes.filter_map(
            puncher(
                punch_pattern(which, counted(counter, 4, (beats - 1) as nat)),
                PUNCH_TIME_CONSTANT,
                punch_after(first, (beats - 1) as nat),
            ),
        )
    }
}

/// Runs one punch pattern for the beats of a frame.
fn run_pattern(
    which: usize,
    counter: usize,
    beats: usize,
    tubes: &Vec<LedTube>,
    scheduler: &mut PunchScheduler,
) -> (next: usize)
    requires
        1 <= which <= 4,
        counter < 4,
    ensures
        next == counted(counter as nat, 4, beats as nat),
        next < 4,
        final(scheduler).tasks() == old(scheduler).tasks() + punched(
            tubes@,
            which as nat,
            counter as nat,
            beats as nat,
            old(scheduler).punches(),
        ),
        final(scheduler).punches() == punch_after(old(scheduler).punches(), beats as nat),
        final(scheduler).pending() == if beats == 0 {
            old(scheduler).pending()
        } else {
            Some(true)
        },
{
    let mut current = counter;
    let mut done: usize = 0;
    while done < beats
        invariant
            done <= beats,
            1 <= which <= 4,
            counter < 4,
            current < 4,
            current == counted(counter as nat, 4, done as nat),
            scheduler.tasks() == old(scheduler).tasks() + punched(
                tubes@,
                which as nat,
                counter as nat,
                done as nat,
                old(scheduler).punches(),
            ),
            scheduler.punches() == punch_after(old(scheduler).punches(), done as nat),
            scheduler.pending() == if done == 0 {
                old(scheduler).pending()
            } else {
                Some(true)
            },
        decreases beats - done,
    {
        let relevant = pattern_tubes(which, current);
        let _ = scheduler.punch(tubes, &relevant, PUNCH_TIME_CONSTANT);
        current = (current + 1) % 4;
        done += 1;
    }
    current
}

/// The first punch pattern on the beat. While it is switched on, each beat
/// announces a punch, starts a flash on every tube of `tubes` that the
/// pattern is at, and moves the pattern on. While it is switched off nothing
/// happens.
pub fn tube_punch(
    params: &mut TubesWaveAnims,
    beats: usize,
    tubes: &Vec<LedTube>,
    scheduler: &mut PunchScheduler,
)
    ensures
        final(params).switches() == old(params).switches(),
        final(params).wave_clock() == old(params).wave_clock(),
        final(params).sweep_level() == old(params).sweep_level(),
        final(params).beat_level() == old(params).beat_level(),
        final(params).noise_level() == old(params).noise_level(),
        forall|which: nat| which != 1 ==> final(params).punch_counter(which) == old(params).punch_counter(which),
        !old(params).punches(1) ==> final(params).punch_counter(1) == old(params).punch_counter(1)
            && final(scheduler).tasks() == old(scheduler).tasks() && final(scheduler).pending()
            == old(scheduler).pending() && final(scheduler).punches() == old(scheduler).punches(),
        old(params).punches(1) ==> final(params).punch_counter(1) == counted(
            old(params).punch_counter(1),
            4,
            beats as nat,
        ) && final(scheduler).tasks() == old(scheduler).tasks() + punched(
            tubes@,
            1,
            old(params).punch_counter(1),
            beats as nat,
            old(scheduler).punches(),
        ) && final(scheduler).punches() == punch_after(old(scheduler).punches(), beats as nat)
            && final(scheduler).pending() == if beats == 0 {
            old(scheduler).pending()
        } else {
            Some(true)
        },
{
    proof {
        use_type_invariant(&*params);
    }
    if !params.punch {
        return ;
    }
    params.punch_counter = run_pattern(1, params.punch_counter, beats, tubes, scheduler);
}

/// The second punch pattern on the beat; as `tube_punch`, with its own
/// switch, tubes and counter.
pub fn tube_punch_2(
    params: &mut TubesWaveAnims,
    beats: usize,
    tubes: &Vec<LedTube>,
    scheduler: &mut PunchScheduler,
)
    ensures
        final(params).switches() == old(params).switches(),
        final(params).wave_clock() == old(params).wave_clock(),
        final(params).sweep_level() == old(params).sweep_level(),
        final(params).beat_level() == old(params).beat_level(),
        final(params).noise_level() == old(params).noise_level(),
        forall|which: nat| which != 2 ==> final(params).punch_counter(which) == old(params).punch_counter(which),
        !old(params).punches(2) ==> final(params).punch_counter(2) == old(params).punch_counter(2)
            && final(scheduler).tasks() == old(scheduler).tasks() && final(scheduler).pending()
            == old(scheduler).pending() && final(scheduler).punches() == old(scheduler).punches(),
        old(params).punches(2) ==> final(params).punch_counter(2) == counted(
            old(params).punch_counter(2),
            4,
            beats as nat,
        ) && final(scheduler).tasks() == old(scheduler).tasks() + punched(
            tubes@,
            2,
            old(params).punch_counter(2),
            beats as nat,
            old(scheduler).punches(),
        ) && final(scheduler).punches() == punch_after(old(scheduler).punches(), beats as nat)
            && final(scheduler).pending() == if beats == 0 {
            old(scheduler).pending()
        } else {
            Some(true)
        },
{
    proof {
        use_type_invariant(&*params);
    }
    if !params.punch2 {
        return ;
    }
    params.punch2_counter = run_pattern(2, params.punch2_counter, beats, tubes, scheduler);
}

/// The third punch pattern on the beat; as `tube_punch`, with its own
/// switch, tubes and counter.
pub fn tube_punch_3(
    params: &mut TubesWaveAnims,
    beats: usize,
    tubes: &Vec<LedTube>,
    scheduler: &mut PunchScheduler,
)
    ensures
        final(params).switches() == old(params).switches(),
        final(params).wave_clock() == old(params).wave_clock(),
        final(params).sweep_level() == old(params).sweep_level(),
        final(params).beat_level() == old(params).beat_level(),
        final(params).noise_level() == old(params).noise_level(),
        forall|which: nat| which != 3 ==> final(params).punch_counter(which) == old(params).punch_counter(which),
        !old(params).punches(3) ==> final(params).punch_counter(3) == old(params).punch_counter(3)
            && final(scheduler).tasks() == old(scheduler).tasks() && final(scheduler).pending()
            == old(scheduler).pending() && final(scheduler).punches() == old(scheduler).punches(),
        old(params).punches(3) ==> final(params).punch_counter(3) == counted(
            old(params).punch_counter(3),
            4,
            beats as nat,
        ) && final(scheduler).tasks() == old(scheduler).tasks() + punched(
            tubes@,
            3,
            old(params).punch_counter(3),
            beats as nat,
            old(scheduler).punches(),
        ) && final(scheduler).punches() == punch_after(old(scheduler).punches(), beats as nat)
            && final(scheduler).pending() == if beats == 0 {
            old(scheduler).pending()
        } else {
            Some(true)
        },
{
    proof {
        use_type_invariant(&*params);
    }
    if !params.punch3 {
        return ;
    }
    params.punch3_counter = run_pattern(3, params.punch3_counter, beats, tubes, scheduler);
}

/// The fourth punch pattern on the beat; as `tube_punch`, with its own
/// switch, tubes and counter.
pub fn tube_punch_4(
    params: &mut TubesWaveAnims,
    beats: usize,
    tubes: &Vec<LedTube>,
    scheduler: &mut PunchScheduler,
)
    ensures
        final(params).switches() == old(params).switches(),
        final(params).wave_clock() == old(params).wave_clock(),
        final(params).sweep_level() == old(params).sweep_level(),
        final(params).beat_level() == old(params).beat_level(),
        final(params).noise_level() == old(params).noise_level(),
        forall|which: nat| which != 4 ==> final(params).punch_counter(which) == old(params).punch_counter(which),
        !old(params).punches(4) ==> final(params).punch_counter(4) == old(params).punch_counter(4)
            && final(scheduler).tasks() == old(scheduler).tasks() && final(scheduler).pending()
            == old(scheduler).pending() && final(scheduler).punches() == old(scheduler).punches(),
        old(params).punches(4) ==> final(params).punch_counter(4) == counted(
            old(params).punch_counter(4),
            4,
            beats as nat,
        ) && final(scheduler).tasks() == old(scheduler).tasks() + punched(
            tubes@,
            4,
            old(params).punch_counter(4),
            beats as nat,
            old(scheduler).punches(),
        ) && final(scheduler).punches() == punch_after(old(scheduler).punches(), beats as nat)
            && final(scheduler).pending() == if beats == 0 {
            old(scheduler).pending()
        } else {
            Some(true)
        },
{
    proof {
        use_type_invariant(&*params);
    }
    if !params.punch4 {
        return ;
    }
    params.punch4_counter = run_pattern(4, params.punch4_counter, beats, tubes, scheduler);
}

/// Calls `rand::Rng::gen_range` on `rand::thread_rng()` with the range from
/// zero up to, but without, `bound`. It is believed, not proved, that the
/// number returned lies in that range, as the documentation of `gen_range`
/// says; the call panics on an empty range, which `requires` leaves out, and
/// where the generator of the thread cannot be seeded by the system.
#[verifier::external_body]
fn random_below(bound: usize) -> (r: usize)
    requires
        bound > 0,
    ensures
        r < bound,
{
    rand::Rng::gen_range(&mut rand::thread_rng(), 0..bound)
}

/// A number from zero up to, but without, `bound`, picked at random, or
/// `None` where `bound` is zero and there is nothing to pick from.
pub fn pick_below(bound: usize) -> (r: Option<usize>)
    ensures
        bound == 0 <==> r is None,
        r matches Some(picked) ==> picked < bound,
{
    if bound == 0 {
        None
    } else {
        Some(random_below(bound))
    }
}

/// The tube that a pick stands for, as a function of the pick: the pick `p`
/// is the tube with the number `p + 1`.
pub open spec fn picker() -> spec_fn(usize) -> TubeIndex {
    |pick: usize| tube_numbered((pick + 1) as nat)
}

/// The tubes that a list of picks stands for.
pub open spec fn picked(picks: Seq<usize>) -> Seq<TubeIndex> {
    picks.map_values(picker())
}

/// The tubes that a list of picks stands for.
pub fn picked_tubes(picks: &Vec<usize>) -> (tubes: Vec<TubeIndex>)
    requires
        forall|i: int| 0 <= i < picks@.len() ==> #[trigger] picks@[i] < TUBE_COUNT,
    ensures
        tubes@ == picked(picks@),
{
    let mut tubes: Vec<TubeIndex> = Vec::new();
    let mut i: usize = 0;
    while i < picks.len()
        invariant
            i <= picks.len(),
            forall|k: int| 0 <= k < picks@.len() ==> #[trigger] picks@[k] < TUBE_COUNT,
            tubes@ == picked(picks@.take(i as int)),
        decreases picks.len() - i,
    {
        match TubeIndex::from_number(picks[i] + 1) {
            Some(tube) => {
                proof {
                    lemma_tube_numbered(tube);
                }
                tubes.push(tube);
            },
            None => {},
        }
        proof {
            assert(tubes@ =~= picked(picks@.take(i as int + 1)));
        }
        i += 1;
    }
    proof {
        assert(picks@.take(picks.len() as int) == picks@);
    }
    tubes
}

/// The strobe on picked tubes: announces a punch and starts a flash on
/// every tube of `tubes` that one of the picks stands for, once, however
/// often it was picked.
pub fn strobe_picked(picks: &Vec<usize>, tubes: &Vec<LedTube>, scheduler: &mut PunchScheduler) -> (relevant:
    Vec<TubeIndex>)
    requires
        forall|i: int| 0 <= i < picks@.len() ==> #[trigger] picks@[i] < TUBE_COUNT,
    ensures
        relevant@ == picked(picks@),
        final(scheduler).pending() == Some(true),
        final(scheduler).punches() == next_punch(old(scheduler).punches()),
        final(scheduler).tasks() == old(scheduler).tasks() + tubes@.filter_map(
            puncher(picked(picks@), PUNCH_TIME_CONSTANT, old(scheduler).punches()),
        ),
{
    let relevant = picked_tubes(picks);
    let _ = scheduler.punch(tubes, &relevant, PUNCH_TIME_CONSTANT);
    relevant
}

/// The picks of a list of presses, as lists.
pub open spec fn picks_of(picked: Seq<Vec<usize>>) -> Seq<Seq<usize>> {
    picked.map_values(|picks: Vec<usize>| picks@)
}

/// The flashes that a strobe starts on presses of its key with the given
/// picks, press by press. The punches are numbered from `first`.
pub open spec fn struck(tubes: Seq<LedTube>, picks: Seq<Seq<usize>>, first: u64) -> Seq<PunchTask>
    decreases picks.len(),
{
    if picks.len() == 0 {
        Seq::empty()
    } else {
        struck(tubes, picks.drop_last(), first) + tubes.filter_map(
            puncher(
                picked(picks.last()),
                PUNCH_TIME_CONSTANT,
                punch_after(first, (picks.len() - 1) as nat),
            ),
        )
    }
}

/// The random strobe, once for every press of its key: each time
/// `STROBE_PICKS` tubes are picked at random, with repetition, and struck
/// as `strobe_picked` strikes them. Returns the picks of every press. Which
/// tubes are picked is not known beforehand; the flashes that are started
/// are those for the picks that are returned.
pub fn strobe1(presses: usize, tubes: &Vec<LedTube>, scheduler: &mut PunchScheduler) -> (picked: Vec<
    Vec<usize>,
>)
    ensures
        picked@.len() == presses,
        forall|p: int, i: int|
            0 <= p < presses && 0 <= i < picked@[p]@.len() ==> (#[trigger] picked@[p]@[i])
                < TUBE_COUNT,
        forall|p: int| 0 <= p < presses ==> (#[trigger] picked@[p])@.len() == STROBE_PICKS,
        final(scheduler).tasks() == old(scheduler).tasks() + struck(
            tubes@,
            picks_of(picked@),
            old(scheduler).punches(),
        ),
        final(scheduler).punches() == punch_after(old(scheduler).punches(), presses as nat),
        final(scheduler).pending() == if presses == 0 {
            old(scheduler).pending()
        } else {
            Some(true)
        },
{
    let mut picked: Vec<Vec<usize>> = Vec::new();
    let mut done: usize = 0;
    proof {
        assert(picks_of(picked@) =~= Seq::<Seq<usize>>::empty());
    }
    while done < presses
        invariant
            done <= presses,
            picked@.len() == done,
            forall|p: int, i: int|
                0 <= p < done && 0 <= i < picked@[p]@.len() ==> (#[trigger] picked@[p]@[i])
                    < TUBE_COUNT,
            forall|p: int| 0 <= p < done ==> (#[trigger] picked@[p])@.len() == STROBE_PICKS,
            scheduler.tasks() == old(scheduler).tasks() + struck(
                tubes@,
                picks_of(picked@),
                old(scheduler).punches(),
            ),
            scheduler.punches() == punch_after(old(scheduler).punches(), done as nat),
            scheduler.pending() == if done == 0 {
                old(scheduler).pending()
            } else {
                Some(true)
            },
        decreases presses - done,
    {
        let mut picks: Vec<usize> = Vec::new();
        let mut i: usize = 0;
        while i < STROBE_PICKS
            invariant
                i <= STROBE_PICKS,
                picks@.len() == i,
                forall|k: int| 0 <= k < i ==> #[trigger] picks@[k] < TUBE_COUNT,
            decreases STROBE_PICKS - i,
        {
            picks.push(random_below(TUBE_COUNT));
            i += 1;
        }
        let _ = strobe_picked(&picks, tubes, scheduler);
        let ghost before = picked@;
        let ghost these = picks@;
        picked.push(picks);
        proof {
            let all = picks_of(picked@);
            assert(all.drop_last() =~= picks_of(before));
            assert(all.last() == these);
        }
        done += 1;
    }
    picked
}

/// The flash that a strobe of all tubes starts for a tube, as a function of
/// the tube.
pub open spec fn strober(punch: u64) -> spec_fn(LedTube) -> PunchTask {
    |tube: LedTube| PunchTask::fresh(tube@, STROBE_TIME_CONSTANT, punch)
}

/// The flashes that a strobe of all tubes starts on `presses` presses of
/// its key: on each press one for every tube of `tubes`. The punches are
/// numbered from `first`.
pub open spec fn strobed(tubes: Seq<LedTube>, presses: nat, first: u64) -> Seq<PunchTask>
    decreases presses,
{
    if presses == 0 {
        Seq::empty()
    } else {
        strobed(tubes, (presses - 1) as nat, first) + tubes.map_values(
            strober(punch_after(first, (presses - 1) as nat)),
        )
    }
}

/// The strobe of all tubes, once for every press of its key: each time a
/// punch is announced and every tube of `tubes` gets a flash with the time
/// constant `STROBE_TIME_CONSTANT`.
pub fn strobe2(presses: usize, tubes: &Vec<LedTube>, scheduler: &mut PunchScheduler)
    ensures
        final(scheduler).tasks() == old(scheduler).tasks() + strobed(
            tubes@,
            presses as nat,
            old(scheduler).punches(),
        ),
        final(scheduler).punches() == punch_after(old(scheduler).punches(), presses as nat),
        final(scheduler).pending() == if presses == 0 {
            old(scheduler).pending()
        } else {
            Some(true)
        },
{
    let every = TubeIndex::all();
    let mut done: usize = 0;
    while done < presses
        invariant
            done <= presses,
            every@.len() == TUBE_COUNT,
            forall|i: int| 0 <= i < TUBE_COUNT ==> (#[trigger] every@[i]).number() == i + 1,
            scheduler.tasks() == old(scheduler).tasks() + strobed(
                tubes@,
                done as nat,
                old(scheduler).punches(),
            ),
            scheduler.punches() == punch_after(old(scheduler).punches(), done as nat),
            scheduler.pending() == if done == 0 {
                old(scheduler).pending()
            } else {
                Some(true)
            },
        decreases presses - done,
    {
        proof {
            lemma_all_tubes_punched(tubes@, every@, scheduler.punches());
        }
        let _ = scheduler.punch(tubes, &every, STROBE_TIME_CONSTANT);
        done += 1;
    }
}

/// A punch on all tubes starts a flash on every tube that there is.
proof fn lemma_all_tubes_punched(tubes: Seq<LedTube>, every: Seq<TubeIndex>, punch: u64)
    requires
        every.len() == TUBE_COUNT,
        forall|i: int| 0 <= i < TUBE_COUNT ==> (#[trigger] every[i]).number() == i + 1,
    ensures
        tubes.filter_map(puncher(every, STROBE_TIME_CONSTANT, punch)) == tubes.map_values(
            strober(punch),
        ),
    decreases tubes.len(),
{
    let f = puncher(every, STROBE_TIME_CONSTANT, punch);
    let g = strober(punch);
    if tubes.len() == 0 {
        assert(tubes.filter_map(f) =~= tubes.map_values(g));
    } else {
        lemma_all_tubes_punched(tubes.drop_last(), every, punch);
        let last = tubes.last()@;
        let at = last.number() - 1;
        crate::tubes::lemma_tube_number_is_unique(every[at], last);
        assert(every.contains(last));
        assert(tubes.filter_map(f) =~= tubes.map_values(g)) by {
            assert(tubes.drop_last().map_values(g) =~= tubes.map_values(g).drop_last());
        }
    }
}

} // verus!
