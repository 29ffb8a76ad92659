//! The scheduler of one family of channels: it takes the requests of a tick,
//! broadcasts which channels they supersede, starts the animations, and runs
//! every animation once per tick.
use crate::cancel::{cancel_record, superseded, CancelAnimData};
use crate::channel::{ChannelTrigger, ChannelWrite};
use crate::task::AnimTask;
use vstd::prelude::*;

verus! {

/// What a request starts, as a function of the request.
pub open spec fn spawner() -> spec_fn(ChannelTrigger) -> Option<AnimTask> {
    |trigger: ChannelTrigger| trigger.spawned()
}

/// What a request writes at once, as a function of the request.
pub open spec fn setter() -> spec_fn(ChannelTrigger) -> Option<ChannelWrite> {
    |trigger: ChannelTrigger| trigger.instant()
}

/// What a task writes in a tick, as a function of the task.
pub open spec fn emitter(polled: Option<CancelAnimData>, dt: nat) -> spec_fn(AnimTask) -> Option<
    ChannelWrite,
> {
    |task: AnimTask| task.emitted(polled, dt)
}

/// What is left of a task after a tick, as a function of the task.
pub open spec fn survivor(polled: Option<CancelAnimData>, dt: nat) -> spec_fn(AnimTask) -> Option<
    AnimTask,
> {
    |task: AnimTask| task.surviving(polled, dt)
}

/// The tasks that a batch of requests starts, in the order of the requests.
pub open spec fn spawned_tasks(triggers: Seq<ChannelTrigger>) -> Seq<AnimTask> {
    triggers.filter_map(spawner())
}

/// The writes that a batch of requests is carried out with at once, in the
/// order of the requests.
pub open spec fn instant_writes(triggers: Seq<ChannelTrigger>) -> Seq<ChannelWrite> {
    triggers.filter_map(setter())
}

/// The writes of a tick, in the order of the tasks.
pub open spec fn tick_writes(tasks: Seq<AnimTask>, polled: Option<CancelAnimData>, dt: nat) -> Seq<
    ChannelWrite,
> {
    tasks.filter_map(emitter(polled, dt))
}

/// The tasks that a tick leaves, each as the tick left it, in their order.
pub open spec fn survivors(tasks: Seq<AnimTask>, polled: Option<CancelAnimData>, dt: nat) -> Seq<
    AnimTask,
> {
    tasks.filter_map(survivor(polled, dt))
}

/// The running animations of one family of channels, and the latest
/// broadcast that they have not read yet.
pub struct Scheduler {
    tasks: Vec<AnimTask>,
    pending: Option<CancelAnimData>,
}

impl Scheduler {
    /// The animations that have not ended, oldest first.
    pub closed spec fn tasks(&self) -> Seq<AnimTask> {
        self.tasks@
    }

    /// The latest record that was broadcast and that no task has read.
    pub closed spec fn pending(&self) -> Option<CancelAnimData> {
        self.pending
    }

    /// A scheduler with no animation and no broadcast.
    pub fn new() -> (s: Scheduler)
        ensures
            s.tasks() == Seq::<AnimTask>::empty(),
            s.pending() is None,
    {
        Scheduler { tasks: Vec::new(), pending: None }
    }

    /// How many animations have not ended.
    pub fn task_count(&self) -> (n: usize)
        ensures
            n == self.tasks().len(),
    {
        self.tasks.len()
    }

    /// The `at`-th animation, oldest first, if there are that many.
    pub fn task(&self, at: usize) -> (r: Option<AnimTask>)
        ensures
            at < self.tasks().len() ==> r == Some(self.tasks()[at as int]),
            at >= self.tasks().len() ==> r is None,
    {
        if at < self.tasks.len() {
            Some(self.tasks[at])
        } else {
            None
        }
    }

    /// The latest record that was broadcast and that no task has read. It
    /// stays unread.
    pub fn try_read(&self) -> (r: Option<CancelAnimData>)
        ensures
            r == self.pending(),
    {
        self.pending
    }

    /// Broadcasts `record`: it is the latest record from now on, in the
    /// place of any that was not read, and every task reads it at its next
    /// poll, those that are started before that poll too.
    pub fn send(&mut self, record: CancelAnimData)
        ensures
            final(self).pending() == Some(record),
            final(self).tasks() == old(self).tasks(),
    {
        self.pending = Some(record);
    }

    /// Ends every animation at once, without a write, and forgets the
    /// broadcast: what is done when the channels that the animations write
    /// to are gone altogether.
    pub fn abandon(&mut self)
        ensures
            final(self).tasks() == Seq::<AnimTask>::empty(),
            final(self).pending() is None,
    {
        self.tasks = Vec::new();
        self.pending = None;
    }

    /// Takes the requests of one tick. The record that names the slots of
    /// all of them, wrapped where out of range, is broadcast first and
    /// replaces any record not yet read. Then each request is carried out in
    /// turn: one that sets a level becomes a write, which is returned; one
    /// that is animated starts a task, which joins the others as the newest.
    pub fn dispatch(&mut self, triggers: &Vec<ChannelTrigger>) -> (writes: Vec<ChannelWrite>)
        ensures
            final(self).pending() matches Some(record) && record@ == superseded(triggers@),
            final(self).tasks() == old(self).tasks() + spawned_tasks(triggers@),
            writes@ == instant_writes(triggers@),
    {
        self.send(cancel_record(triggers));
        let mut writes: Vec<ChannelWrite> = Vec::new();
        let mut k: usize = 0;
        while k < triggers.len()
            invariant
                k <= triggers.len(),
                self.pending matches Some(record) && record@ == superseded(triggers@),
                self.tasks@ == old(self).tasks@ + spawned_tasks(triggers@.take(k as int)),
                writes@ == instant_writes(triggers@.take(k as int)),
            decreases triggers.len() - k,
        {
            proof {
                triggers@.lemma_filter_map_take_succ(spawner(), k as int);
                triggers@.lemma_filter_map_take_succ(setter(), k as int);
            }
            let (write, task) = triggers[k].launch();
            match write {
                Some(w) => {
                    writes.push(w);
                },
                None => {},
            }
            match task {
                Some(t) => {
                    self.tasks.push(t);
                },
                None => {},
            }
            k += 1;
        }
        proof {
            assert(triggers@.take(triggers.len() as int) == triggers@);
        }
        writes
    }

    /// Runs every animation for one tick of `dt` microseconds. Each polls the
    /// latest unread record, if there is one, and steps as `AnimTask::step`
    /// says. Returns the writes in the order of the tasks. Tasks that ended
    /// are released, and the record counts as read by all.
    pub fn tick(&mut self, dt: u64) -> (writes: Vec<ChannelWrite>)
        ensures
            final(self).tasks() == survivors(old(self).tasks(), old(self).pending(), dt as nat),
            final(self).pending() is None,
            writes@ == tick_writes(old(self).tasks(), old(self).pending(), dt as nat),
    {
        let polled = self.pending;
        let mut writes: Vec<ChannelWrite> = Vec::new();
        let mut kept: Vec<AnimTask> = Vec::new();
        let mut k: usize = 0;
        while k < self.tasks.len()
            invariant
                k <= self.tasks.len(),
                self.tasks@ == old(self).tasks@,
                polled == old(self).pending,
                kept@ == survivors(self.tasks@.take(k as int), polled, dt as nat),
                writes@ == tick_writes(self.tasks@.take(k as int), polled, dt as nat),
            decreases self.tasks.len() - k,
        {
            proof {
                self.tasks@.lemma_filter_map_take_succ(survivor(polled, dt as nat), k as int);
                self.tasks@.lemma_filter_map_take_succ(emitter(polled, dt as nat), k as int);
            }
            let mut task = self.tasks[k];
            let write = task.step(polled, dt);
            match write {
                Some(w) => {
                    writes.push(w);
                },
                None => {},
            }
            if task.live() {
                kept.push(task);
            }
            k += 1;
        }
        proof {
            assert(self.tasks@.take(self.tasks.len() as int) == self.tasks@);
        }
        self.tasks = kept;
        self.pending = None;
        writes
    }
}

} // verus!
