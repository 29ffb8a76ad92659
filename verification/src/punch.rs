//! Punches: flashes of whole tubes that decay, started by the beat or by a
//! key, and ended early by the next punch.
use crate::anim::Pt1Anim;
use crate::task::TaskPhase;
use crate::tubes::{LedTube, TubeIndex, TUBE_COUNT};
use vstd::prelude::*;

verus! {

/// The level that a punch starts at: 1.3.
pub const PUNCH_START: i64 = 1_300_000;

/// Time constant of a punch on the beat and of the random strobe: 300
/// milliseconds.
pub const PUNCH_TIME_CONSTANT: u64 = 300_000;

/// Time constant of the strobe of all tubes: 100 milliseconds.
pub const STROBE_TIME_CONSTANT: u64 = 100_000;

/// Number of tubes that the random strobe picks.
pub const STROBE_PICKS: usize = 4;

/// The level that all lights of one tube are to show, and the number of the
/// punch that the flash belongs to.
#[derive(Copy, Clone, Debug, PartialEq, Eq, Structural)]
pub struct TubeWrite {
    pub tube: TubeIndex,
    pub value: i64,
    pub punch: u64,
}

/// The flash of one tube: a low-pass from `PUNCH_START` to zero. It belongs
/// to the punch with the number `punch`.
#[derive(Copy, Clone, Debug, PartialEq, Eq, Structural)]
pub struct PunchTask {
    pub tube: TubeIndex,
    pub phase: TaskPhase,
    pub anim: Pt1Anim,
    pub punch: u64,
}

impl PunchTask {
    /// Whether the flash has not ended.
    pub open spec fn is_live(self) -> bool {
        self.phase is AwaitingFirstPoll || self.phase is Running
    }

    /// Whether the flash acts on what it polls: it is past its first poll and
    /// a new punch was announced.
    pub open spec fn hears(self, polled: Option<bool>) -> bool {
        self.phase is Running && polled == Some(true)
    }

    /// The flash after a tick of `dt` microseconds in which it polled
    /// `polled`. A flash that has ended stays as it is. A running flash that
    /// hears of a new punch ends as cancelled. Any other flash decays by the
    /// tick, and ends as converged where that took it to zero.
    pub open spec fn stepped(self, polled: Option<bool>, dt: nat) -> PunchTask {
        if !self.is_live() {
            self
        } else if self.hears(polled) {
            PunchTask {
                tube: self.tube,
                phase: TaskPhase::Cancelled,
                anim: self.anim,
                punch: self.punch,
            }
        } else {
            PunchTask {
                tube: self.tube,
                phase: if self.anim.advanced(dt).val == self.anim.advanced(dt).target {
                    TaskPhase::Converged
                } else {
                    TaskPhase::Running
                },
                anim: self.anim.advanced(dt),
                punch: self.punch,
            }
        }
    }

    /// What the flash writes in that tick: nothing once it has ended, zero
    /// where it ends as cancelled, else the level that it decayed to.
    pub open spec fn emitted(self, polled: Option<bool>, dt: nat) -> Option<TubeWrite> {
        if !self.is_live() {
            None
        } else if self.hears(polled) {
            Some(TubeWrite { tube: self.tube, value: 0, punch: self.punch })
        } else {
            Some(
                TubeWrite { tube: self.tube, value: self.anim.advanced(dt).val, punch: self.punch },
            )
        }
    }

    /// The flash after that tick, if it has not ended by it.
    pub open spec fn surviving(self, polled: Option<bool>, dt: nat) -> Option<PunchTask> {
        if self.stepped(polled, dt).is_live() {
            Some(self.stepped(polled, dt))
        } else {
            None
        }
    }

    /// The flash of `tube` that starts at `PUNCH_START` and is still to make
    /// its first poll.
    pub open spec fn fresh(tube: TubeIndex, time_constant: u64, punch: u64) -> PunchTask {
        PunchTask {
            tube,
            phase: TaskPhase::AwaitingFirstPoll,
            anim: Pt1Anim { val: PUNCH_START, target: 0, time_constant },
            punch,
        }
    }

    /// A flash of `tube` that is still to make its first poll.
    pub fn new(tube: TubeIndex, time_constant: u64, punch: u64) -> (task: PunchTask)
        ensures
            task == Self::fresh(tube, time_constant, punch),
    {
        PunchTask {
            tube,
            phase: TaskPhase::AwaitingFirstPoll,
            anim: Pt1Anim { val: PUNCH_START, target: 0, time_constant },
            punch,
        }
    }

    /// Whether the flash has not ended.
    pub fn live(&self) -> (r: bool)
        ensures
            r == self.is_live(),
    {
        match self.phase {
            TaskPhase::AwaitingFirstPoll => true,
            TaskPhase::Running => true,
            _ => false,
        }
    }

    /// Runs the flash for one tick of `dt` microseconds, in which it polls
    /// `polled`: `Some(true)` where a punch was announced that it has not
    /// read of. Returns what it writes to its tube in this tick.
    pub fn step(&mut self, polled: Option<bool>, dt: u64) -> (write: Option<TubeWrite>)
        ensures
            *final(self) == old(self).stepped(polled, dt as nat),
            write == old(self).emitted(polled, dt as nat),
    {
        if !self.live() {
            return None;
        }
        let announced = match polled {
            Some(flag) => flag,
            None => false,
        };
        let running = match self.phase {
            TaskPhase::Running => true,
            _ => false,
        };
        if running && announced {
            self.phase = TaskPhase::Cancelled;
            return Some(TubeWrite { tube: self.tube, value: 0, punch: self.punch });
        }
        self.anim.advance(dt);
        self.phase = if self.anim.val == self.anim.target {
            TaskPhase::Converged
        } else {
            TaskPhase::Running
        };
        Some(TubeWrite { tube: self.tube, value: self.anim.val, punch: self.punch })
    }
}

/// Whether `tube` occurs in `list`.
pub fn contains_tube(list: &Vec<TubeIndex>, tube: TubeIndex) -> (r: bool)
    ensures
        r == list@.contains(tube),
{
    let mut i: usize = 0;
    while i < list.len()
        invariant
            i <= list.len(),
            forall|k: int| 0 <= k < i ==> list@[k] != tube,
        decreases list.len() - i,
    {
        if list[i] == tube {
            return true;
        }
        i += 1;
    }
    false
}

/// The flash that the punch with the number `punch` on `relevant` starts
/// for a tube, if the tube is one of them.
pub open spec fn puncher(relevant: Seq<TubeIndex>, time_constant: u64, punch: u64) -> spec_fn(
    LedTube,
) -> Option<PunchTask> {
    |tube: LedTube|
        if relevant.contains(tube@) {
            Some(PunchTask::fresh(tube@, time_constant, punch))
        } else {
            None
        }
}

/// The number of the punch after the punch with the number `punch`: one
/// more, and zero after the largest number.
pub open spec fn next_punch(punch: u64) -> u64 {
    if punch == u64::MAX {
        0
    } else {
        (punch + 1) as u64
    }
}

/// What a flash writes in a tick, as a function of the flash.
pub open spec fn punch_emitter(polled: Option<bool>, dt: nat) -> spec_fn(PunchTask) -> Option<
    TubeWrite,
> {
    |task: PunchTask| task.emitted(polled, dt)
}

/// What is left of a flash after a tick, as a function of the flash.
pub open spec fn punch_survivor(polled: Option<bool>, dt: nat) -> spec_fn(PunchTask) -> Option<
    PunchTask,
> {
    |task: PunchTask| task.surviving(polled, dt)
}

/// The flashes that are running, and whether a punch was announced that
/// they have not read of.
pub struct PunchScheduler {
    tasks: Vec<PunchTask>,
    pending: Option<bool>,
    punches: u64,
}

impl PunchScheduler {
    /// The flashes that have not ended, oldest first.
    pub closed spec fn tasks(&self) -> Seq<PunchTask> {
        self.tasks@
    }

    /// The latest announcement that no flash has read.
    pub closed spec fn pending(&self) -> Option<bool> {
        self.pending
    }

    /// The number that the next punch gets.
    pub closed spec fn punches(&self) -> u64 {
        self.punches
    }

    /// A scheduler with no flash and no announcement, whose first punch has
    /// the number zero.
    pub fn new() -> (s: PunchScheduler)
        ensures
            s.tasks() == Seq::<PunchTask>::empty(),
            s.pending() is None,
            s.punches() == 0,
    {
        PunchScheduler { tasks: Vec::new(), pending: None, punches: 0 }
    }

    /// How many flashes have not ended.
    pub fn task_count(&self) -> (n: usize)
        ensures
            n == self.tasks().len(),
    {
        self.tasks.len()
    }

    /// The number that the next punch gets.
    pub fn next_punch_number(&self) -> (punch: u64)
        ensures
            punch == self.punches(),
    {
        self.punches
    }

    /// The `at`-th flash, oldest first, if there are that many.
    pub fn task(&self, at: usize) -> (r: Option<PunchTask>)
        ensures
            at < self.tasks().len() ==> r == Some(self.tasks()[at as int]),
            at >= self.tasks().len() ==> r is None,
    {
        if at < self.tasks.len() {
            Some(self.tasks[at])
        } else {
            None
        }
    }

    /// Punches the tubes `relevant`: the punch is announced first, then
    /// every tube of `tubes` that is one of them gets a flash with the given
    /// time constant, in the order of `tubes`. Returns the number of the
    /// punch, which its flashes carry.
    pub fn punch(&mut self, tubes: &Vec<LedTube>, relevant: &Vec<TubeIndex>, time_constant: u64) -> (punch:
        u64)
        ensures
            punch == old(self).punches(),
            final(self).punches() == next_punch(punch),
            final(self).pending() == Some(true),
            final(self).tasks() == old(self).tasks() + tubes@.filter_map(
                puncher(relevant@, time_constant, punch),
            ),
    {
        let punch = self.punches;
        self.punches = if punch == u64::MAX {
            0
        } else {
            punch + 1
        };
        self.pending = Some(true);
        let mut t: usize = 0;
        while t < tubes.len()
            invariant
                t <= tubes.len(),
                punch == old(self).punches,
                self.punches == next_punch(punch),
                self.pending == Some(true),
                self.tasks@ == old(self).tasks@ + tubes@.take(t as int).filter_map(
                    puncher(relevant@, time_constant, punch),
                ),
            decreases tubes.len() - t,
        {
            proof {
                tubes@.lemma_filter_map_take_succ(
                    puncher(relevant@, time_constant, punch),
                    t as int,
                );
            }
            let tube = tubes[t].get_tube_index();
            if contains_tube(relevant, tube) {
                self.tasks.push(PunchTask::new(tube, time_constant, punch));
            }
            t += 1;
        }
        proof {
            assert(tubes@.take(tubes.len() as int) == tubes@);
        }
        punch
    }

    /// Runs every flash for one tick of `dt` microseconds. Each polls the
    /// announcement, if there is one that was not read, and steps as
    /// `PunchTask::step` says. Returns the writes in the order of the
    /// flashes. Flashes that ended are released, and the announcement counts
    /// as read by all.
    pub fn tick(&mut self, dt: u64) -> (writes: Vec<TubeWrite>)
        ensures
            final(self).tasks() == old(self).tasks().filter_map(
                punch_survivor(old(self).pending(), dt as nat),
            ),
            final(self).pending() is None,
            final(self).punches() == old(self).punches(),
            writes@ == old(self).tasks().filter_map(punch_emitter(old(self).pending(), dt as nat)),
    {
        let polled = self.pending;
        let mut writes: Vec<TubeWrite> = Vec::new();
        let mut kept: Vec<PunchTask> = Vec::new();
        let mut k: usize = 0;
        while k < self.tasks.len()
            invariant
                k <= self.tasks.len(),
                self.tasks@ == old(self).tasks@,
                polled == old(self).pending,
                kept@ == self.tasks@.take(k as int).filter_map(punch_survivor(polled, dt as nat)),
                writes@ == self.tasks@.take(k as int).filter_map(punch_emitter(polled, dt as nat)),
            decreases self.tasks.len() - k,
        {
            proof {
                self.tasks@.lemma_filter_map_take_succ(punch_survivor(polled, dt as nat), k as int);
                self.tasks@.lemma_filter_map_take_succ(punch_emitter(polled, dt as nat), k as int);
            }
            let mut task = self.tasks[k];
            let write = task.step(polled, dt);
            match write {
                Some(w) => {
                    writes.push(w);
                },
                None => {},
            }
            if task.live() {
                kept.push(task);
            }
            k += 1;
        }
        proof {
            assert(self.tasks@.take(self.tasks.len() as int) == self.tasks@);
        }
        self.tasks = kept;
        self.pending = None;
        writes
    }
}

/// The tubes that the first pattern punches at each of its four steps:
/// from the middle of the installation outwards and back.
pub open spec fn punch_pattern_1(counter: nat) -> Seq<TubeIndex> {
    if counter == 0 {
        seq![
            TubeIndex::Five,
            TubeIndex::Six,
            TubeIndex::Seven,
            TubeIndex::Sixteen,
            TubeIndex::Seventeen,
            TubeIndex::Eighteen,
        ]
    } else if counter == 2 {
        seq![
            TubeIndex::One,
            TubeIndex::Two,
            TubeIndex::Ten,
            TubeIndex::Eleven,
            TubeIndex::Twelve,
            TubeIndex::Thirteen,
            TubeIndex::Twentyone,
            TubeIndex::Twentytwo,
        ]
    } else {
        seq![
            TubeIndex::Three,
            TubeIndex::Four,
            TubeIndex::Eight,
            TubeIndex::Nine,
            TubeIndex::Fourteen,
            TubeIndex::Fifteen,
            TubeIndex::Nineteen,
            TubeIndex::Twenty,
        ]
    }
}

/// The tubes that the second pattern punches at each of its four steps:
/// three tubes of the large screen, going round.
pub open spec fn punch_pattern_2(counter: nat) -> Seq<TubeIndex> {
    if counter == 0 {
        seq![TubeIndex::Six, TubeIndex::Fourteen, TubeIndex::Thirteen]
    } else if counter == 1 {
        seq![TubeIndex::Eight, TubeIndex::Sixteen, TubeIndex::Eleven]
    } else if counter == 2 {
        seq![TubeIndex::Ten, TubeIndex::Seventeen, TubeIndex::Nine]
    } else {
        seq![TubeIndex::Twelve, TubeIndex::Fifteen, TubeIndex::Seven]
    }
}

/// The tubes that the third pattern punches at each of its four steps.
pub open spec fn punch_pattern_3(counter: nat) -> Seq<TubeIndex> {
    if counter == 0 {
        seq![
            TubeIndex::Six,
            TubeIndex::Eight,
            TubeIndex::Fourteen,
            TubeIndex::Sixteen,
            TubeIndex::Eleven,
            TubeIndex::Thirteen,
        ]
    } else if counter == 1 {
        seq![
            TubeIndex::Ten,
            TubeIndex::Twelve,
            TubeIndex::Seven,
            TubeIndex::Nine,
            TubeIndex::Fifteen,
            TubeIndex::Seventeen,
        ]
    } else if counter == 2 {
        seq![
            TubeIndex::Five,
            TubeIndex::Three,
            TubeIndex::Four,
            TubeIndex::Eighteen,
            TubeIndex::Nineteen,
            TubeIndex::Twenty,
        ]
    } else {
        seq![TubeIndex::One, TubeIndex::Two, TubeIndex::Twentyone, TubeIndex::Twentytwo]
    }
}

/// The tubes that the fourth pattern punches at each of its four steps.
pub open spec fn punch_pattern_4(counter: nat) -> Seq<TubeIndex> {
    if counter == 0 {
        seq![
            TubeIndex::Three,
            TubeIndex::Five,
            TubeIndex::Six,
            TubeIndex::Sixteen,
            TubeIndex::Eighteen,
            TubeIndex::Nineteen,
        ]
    } else if counter == 1 {
        seq![
            TubeIndex::Four,
            TubeIndex::Five,
            TubeIndex::Seven,
            TubeIndex::Seventeen,
            TubeIndex::Eighteen,
            TubeIndex::Twenty,
        ]
    } else if counter == 2 {
        seq![
            TubeIndex::Eight,
            TubeIndex::Nine,
            TubeIndex::One,
            TubeIndex::Two,
            TubeIndex::Fourteen,
            TubeIndex::Fifteen,
            TubeIndex::Twentyone,
            TubeIndex::Twentytwo,
        ]
    } else {
        seq![TubeIndex::Ten, TubeIndex::Twelve, TubeIndex::Eleven, TubeIndex::Thirteen]
    }
}

/// The tubes that the pattern `which`, from 1 to 4, punches at the step
/// `counter`.
pub open spec fn punch_pattern(which: nat, counter: nat) -> Seq<TubeIndex> {
    if which == 1 {
        punch_pattern_1(counter)
    } else if which == 2 {
        punch_pattern_2(counter)
    } else if which == 3 {
        punch_pattern_3(counter)
    } else {
        punch_pattern_4(counter)
    }
}

/// The tubes with the given numbers.
fn tubes_numbered(numbers: &[usize]) -> (tubes: Vec<TubeIndex>)
    requires
        forall|i: int| 0 <= i < numbers@.len() ==> 1 <= #[trigger] numbers@[i] <= TUBE_COUNT,
    ensures
        tubes@.len() == numbers@.len(),
        forall|i: int| 0 <= i < numbers@.len() ==> (#[trigger] tubes@[i]).number() == numbers@[i],
{
    let mut tubes: Vec<TubeIndex> = Vec::new();
    let mut i: usize = 0;
    while i < numbers.len()
        invariant
            i <= numbers.len(),
            forall|k: int| 0 <= k < numbers@.len() ==> 1 <= #[trigger] numbers@[k] <= TUBE_COUNT,
            tubes@.len() == i,
            forall|k: int| 0 <= k < i ==> (#[trigger] tubes@[k]).number() == numbers@[k],
        decreases numbers.len() - i,
    {
        match TubeIndex::from_number(numbers[i]) {
            Some(tube) => {
                tubes.push(tube);
            },
            None => {},
        }
        i += 1;
    }
    tubes
}

/// The tubes of the pattern `which` at the step `counter`.
pub fn pattern_tubes(which: usize, counter: usize) -> (tubes: Vec<TubeIndex>)
    ensures
        tubes@ == punch_pattern(which as nat, counter as nat),
{
    let tubes = match which {
        1 => match counter {
            0 => tubes_numbered(&[5, 6, 7, 16, 17, 18]),
            2 => tubes_numbered(&[1, 2, 10, 11, 12, 13, 21, 22]),
            _ => tubes_numbered(&[3, 4, 8, 9, 14, 15, 19, 20]),
        },
        2 => match counter {
            0 => tubes_numbered(&[6, 14, 13]),
            1 => tubes_numbered(&[8, 16, 11]),
            2 => tubes_numbered(&[10, 17, 9]),
            _ => tubes_numbered(&[12, 15, 7]),
        },
        3 => match counter {
            0 => tubes_numbered(&[6, 8, 14, 16, 11, 13]),
            1 => tubes_numbered(&[10, 12, 7, 9, 15, 17]),
            2 => tubes_numbered(&[5, 3, 4, 18, 19, 20]),
            _ => tubes_numbered(&[1, 2, 21, 22]),
        },
        _ => match counter {
            0 => tubes_numbered(&[3, 5, 6, 16, 18, 19]),
            1 => tubes_numbered(&[4, 5, 7, 17, 18, 20]),
            2 => tubes_numbered(&[8, 9, 1, 2, 14, 15, 21, 22]),
            _ => tubes_numbered(&[10, 12, 11, 13]),
        },
    };
    proof {
        let wanted = punch_pattern(which as nat, counter as nat);
        assert(tubes@.len() == wanted.len());
        assert forall|i: int| 0 <= i < wanted.len() implies tubes@[i] == wanted[i] by {
            crate::tubes::lemma_tube_number_is_unique(tubes@[i], wanted[i]);
        }
        assert(tubes@ =~= wanted);
    }
    tubes
}

} // verus!
