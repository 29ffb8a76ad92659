//! What the broadcast-before-start protocol guarantees: a superseded
//! animation falls silent at its next poll, and no channel has two
//! animations that go on writing to it.
use crate::cancel::{superseded, CancelAnimData};
use crate::channel::{ChannelTrigger, ChannelWrite};
use crate::scheduler::{emitter, spawned_tasks, spawner, survivor, survivors, tick_writes};
use crate::task::AnimTask;
use vstd::prelude::*;

verus! {

/// Whether a task will still write in the coming tick: it has not ended, and
/// it will not act on a record that names its channel.
pub open spec fn outlasts(task: AnimTask, polled: Option<CancelAnimData>) -> bool {
    task.is_live() && !task.hears(polled)
}

/// Whether no channel has two tasks that will write to it in the coming
/// tick.
pub open spec fn one_writer(tasks: Seq<AnimTask>, polled: Option<CancelAnimData>) -> bool {
    forall|i: int, j: int|
        0 <= i < j < tasks.len() && outlasts(#[trigger] tasks[i], polled) && outlasts(
            #[trigger] tasks[j],
            polled,
        ) ==> tasks[i].channel != tasks[j].channel
}

/// Whether every task is running, as after any tick: none is still to make
/// its first poll, and none has ended.
pub open spec fn settled(tasks: Seq<AnimTask>) -> bool {
    forall|i: int| 0 <= i < tasks.len() ==> (#[trigger] tasks[i]).phase is Running
}

/// Whether no two animated requests of a batch are for the same channel.
pub open spec fn distinct_animations(triggers: Seq<ChannelTrigger>) -> bool {
    forall|i: int, j: int|
        0 <= i < j < triggers.len() && (#[trigger] triggers[i]).animated() && (
        #[trigger] triggers[j]).animated() ==> triggers[i].channel.resolved()
            != triggers[j].channel.resolved()
}

/// Where the `at`-th entry of `s.filter_map(f)` comes from in `s`.
pub open spec fn origin<A, B>(s: Seq<A>, f: spec_fn(A) -> Option<B>, at: int) -> int
    decreases s.len(),
{
    if s.len() == 0 {
        0
    } else if f(s.last()) is Some && at == s.drop_last().filter_map(f).len() {
        s.len() - 1
    } else {
        origin(s.drop_last(), f, at)
    }
}

/// Every entry of `s.filter_map(f)` is what `f` makes of an entry of `s`,
/// and later entries come from later entries.
pub proof fn lemma_origin<A, B>(s: Seq<A>, f: spec_fn(A) -> Option<B>, at: int)
    requires
        0 <= at < s.filter_map(f).len(),
    ensures
        0 <= origin(s, f, at) < s.len(),
        f(s[origin(s, f, at)]) == Some(s.filter_map(f)[at]),
        forall|before: int| 0 <= before < at ==> origin(s, f, before) < origin(s, f, at),
    decreases s.len(),
{
    if s.len() > 0 {
        let rest = s.drop_last();
        let kept = rest.filter_map(f);
        if f(s.last()) is Some && at == kept.len() {
            assert forall|before: int| 0 <= before < at implies origin(s, f, before) < origin(
                s,
                f,
                at,
            ) by {
                lemma_origin(rest, f, before);
            }
        } else {
            lemma_origin(rest, f, at);
            assert forall|before: int| 0 <= before < at implies origin(s, f, before) < origin(
                s,
                f,
                at,
            ) by {
                lemma_origin(rest, f, before);
            }
        }
    }
}

/// What `filter_map` makes of two lists in a row is what it makes of the
/// first, followed by what it makes of the second.
pub proof fn lemma_filter_map_add<A, B>(a: Seq<A>, b: Seq<A>, f: spec_fn(A) -> Option<B>)
    ensures
        (a + b).filter_map(f) == a.filter_map(f) + b.filter_map(f),
    decreases b.len(),
{
    if b.len() == 0 {
        assert(a + b == a);
        assert(a.filter_map(f) + b.filter_map(f) == a.filter_map(f));
    } else {
        assert((a + b).drop_last() == a + b.drop_last());
        assert((a + b).last() == b.last());
        lemma_filter_map_add(a, b.drop_last(), f);
        assert((a + b).filter_map(f) == a.filter_map(f) + b.filter_map(f));
    }
}

/// The first poll is not acted on: a task that is still to make it steps
/// and writes as if nothing had been broadcast, whatever the record names.
pub proof fn lemma_first_poll_is_discarded(task: AnimTask, polled: Option<CancelAnimData>, dt: nat)
    requires
        task.phase is AwaitingFirstPoll,
    ensures
        task.stepped(polled, dt) == task.stepped(None, dt),
        task.emitted(polled, dt) == task.emitted(None, dt),
        task.emitted(polled, dt) is Some,
{
}

/// A superseded task falls silent: a running task that polls a record
/// naming its channel ends as cancelled and writes nothing in that tick,
/// and in no later tick does it write or change, whatever it polls then.
pub proof fn lemma_cancelled_task_stays_silent(
    task: AnimTask,
    record: CancelAnimData,
    dt: nat,
    later_polled: Option<CancelAnimData>,
    later_dt: nat,
)
    requires
        task.phase is Running,
        record@.contains(task.channel.slot()),
    ensures
        task.emitted(Some(record), dt) is None,
        task.stepped(Some(record), dt).phase is Cancelled,
        task.stepped(Some(record), dt).anim == task.anim,
        task.stepped(Some(record), dt).emitted(later_polled, later_dt) is None,
        task.stepped(Some(record), dt).stepped(later_polled, later_dt) == task.stepped(
            Some(record),
            dt,
        ),
{
}

/// A task that ends as converged wrote, in the tick in which it ended, the
/// level that it arrived at, which is its target exactly.
pub proof fn lemma_converged_task_wrote_target(
    task: AnimTask,
    polled: Option<CancelAnimData>,
    dt: nat,
)
    requires
        task.stepped(polled, dt).phase is Converged,
        task.is_live(),
    ensures
        task.emitted(polled, dt) matches Some(write) && write.channel == task.channel
            && write.value == task.stepped(polled, dt).anim.level()
            && task.stepped(polled, dt).anim.arrived(),
{
}

/// Broadcast before start: the record of a batch names the slot of every
/// task that the batch starts.
pub proof fn lemma_broadcast_names_spawned(triggers: Seq<ChannelTrigger>, at: int)
    requires
        0 <= at < spawned_tasks(triggers).len(),
    ensures
        superseded(triggers).contains(spawned_tasks(triggers)[at].channel.slot()),
        spawned_tasks(triggers)[at].phase is AwaitingFirstPoll,
{
    lemma_origin(triggers, spawner(), at);
    let from = origin(triggers, spawner(), at);
    assert(triggers[from].channel.slot() == spawned_tasks(triggers)[at].channel.slot());
}

/// In the tick that follows a broadcast, no task that was running before
/// the broadcast writes to a channel that the record names.
pub proof fn lemma_superseded_tasks_write_nothing(
    tasks: Seq<AnimTask>,
    record: CancelAnimData,
    dt: nat,
    at: int,
)
    requires
        settled(tasks),
        0 <= at < tick_writes(tasks, Some(record), dt).len(),
    ensures
        !record@.contains(tick_writes(tasks, Some(record), dt)[at].channel.slot()),
{
    lemma_origin(tasks, emitter(Some(record), dt), at);
}

/// The latest request wins: when a batch is dispatched to running tasks
/// and a tick follows, the writes of that tick are those of the older tasks
/// followed by those of the tasks that the batch started; none of the older
/// tasks writes to a slot that the batch is about; and the tasks that the
/// tick leaves are the older ones that the record does not name, followed
/// by those that the batch started.
pub proof fn lemma_latest_trigger_wins(
    tasks: Seq<AnimTask>,
    triggers: Seq<ChannelTrigger>,
    record: CancelAnimData,
    dt: nat,
)
    requires
        settled(tasks),
        record@ == superseded(triggers),
    ensures
        tick_writes(tasks + spawned_tasks(triggers), Some(record), dt) == tick_writes(
            tasks,
            Some(record),
            dt,
        ) + tick_writes(spawned_tasks(triggers), Some(record), dt),
        survivors(tasks + spawned_tasks(triggers), Some(record), dt) == survivors(
            tasks,
            Some(record),
            dt,
        ) + survivors(spawned_tasks(triggers), Some(record), dt),
        forall|at: int|
            0 <= at < tick_writes(tasks, Some(record), dt).len() ==> !superseded(triggers).contains(
                (#[trigger] tick_writes(tasks, Some(record), dt)[at]).channel.slot(),
            ),
        forall|at: int|
            0 <= at < survivors(tasks, Some(record), dt).len() ==> !superseded(triggers).contains(
                (#[trigger] survivors(tasks, Some(record), dt)[at]).channel.slot(),
            ),
{
    lemma_filter_map_add(tasks, spawned_tasks(triggers), emitter(Some(record), dt));
    lemma_filter_map_add(tasks, spawned_tasks(triggers), survivor(Some(record), dt));
    assert forall|at: int|
        0 <= at < tick_writes(tasks, Some(record), dt).len() implies !superseded(triggers).contains(
        (#[trigger] tick_writes(tasks, Some(record), dt)[at]).channel.slot(),
    ) by {
        lemma_superseded_tasks_write_nothing(tasks, record, dt, at);
    }
    assert forall|at: int|
        0 <= at < survivors(tasks, Some(record), dt).len() implies !superseded(triggers).contains(
        (#[trigger] survivors(tasks, Some(record), dt)[at]).channel.slot(),
    ) by {
        lemma_origin(tasks, survivor(Some(record), dt), at);
    }
}

/// At most one writer, kept by a dispatch: where every task is running and
/// no channel has two of them, and a batch asks for no two animations of one
/// channel, then after the batch has been broadcast and its tasks started,
/// still no channel has two tasks that will write to it in the coming tick.
pub proof fn lemma_dispatch_keeps_one_writer(
    tasks: Seq<AnimTask>,
    triggers: Seq<ChannelTrigger>,
    record: CancelAnimData,
)
    requires
        settled(tasks),
        one_writer(tasks, None),
        distinct_animations(triggers),
        record@ == superseded(triggers),
    ensures
        one_writer(tasks + spawned_tasks(triggers), Some(record)),
{
    let started = spawned_tasks(triggers);
    let all = tasks + started;
    assert forall|i: int, j: int|
        0 <= i < j < all.len() && outlasts(#[trigger] all[i], Some(record)) && outlasts(
            #[trigger] all[j],
            Some(record),
        ) implies all[i].channel != all[j].channel by {
        if j < tasks.len() {
            assert(outlasts(tasks[i], None));
            assert(outlasts(tasks[j], None));
        } else if i < tasks.len() {
            lemma_broadcast_names_spawned(triggers, j - tasks.len());
            assert(tasks[i].phase is Running);
        } else {
            let a = i - tasks.len();
            let b = j - tasks.len();
            lemma_origin(triggers, spawner(), a);
            lemma_origin(triggers, spawner(), b);
            let from_a = origin(triggers, spawner(), a);
            let from_b = origin(triggers, spawner(), b);
            assert(triggers[from_a].animated());
            assert(triggers[from_b].animated());
        }
    }
}

/// At most one writer, kept by a tick: where no channel has two tasks that
/// will write to it in the coming tick, none has two after that tick
/// either, and every task that the tick leaves is running.
pub proof fn lemma_tick_keeps_one_writer(
    tasks: Seq<AnimTask>,
    polled: Option<CancelAnimData>,
    dt: nat,
)
    requires
        one_writer(tasks, polled),
    ensures
        one_writer(survivors(tasks, polled, dt), None),
        settled(survivors(tasks, polled, dt)),
{
    let left = survivors(tasks, polled, dt);
    let f = survivor(polled, dt);
    assert forall|i: int| 0 <= i < left.len() implies (#[trigger] left[i]).phase is Running by {
        lemma_origin(tasks, f, i);
    }
    assert forall|i: int, j: int|
        0 <= i < j < left.len() && outlasts(#[trigger] left[i], None) && outlasts(
            #[trigger] left[j],
            None,
        ) implies left[i].channel != left[j].channel by {
        lemma_origin(tasks, f, i);
        lemma_origin(tasks, f, j);
        let from_i = origin(tasks, f, i);
        let from_j = origin(tasks, f, j);
        assert(outlasts(tasks[from_i], polled));
        assert(outlasts(tasks[from_j], polled));
    }
}

/// Every write of a tick is the write of a task that was there, on that
/// task's channel.
pub proof fn lemma_write_has_a_task(
    tasks: Seq<AnimTask>,
    polled: Option<CancelAnimData>,
    dt: nat,
    at: int,
)
    requires
        0 <= at < tick_writes(tasks, polled, dt).len(),
    ensures
        exists|from: int|
            0 <= from < tasks.len() && outlasts(#[trigger] tasks[from], polled)
                && tasks[from].emitted(polled, dt) == Some(tick_writes(tasks, polled, dt)[at]),
{
    lemma_origin(tasks, emitter(polled, dt), at);
    let from = origin(tasks, emitter(polled, dt), at);
    assert(outlasts(tasks[from], polled));
}

/// At most one writer, in a tick: where no channel has two tasks that will
/// write to it, no two writes of the tick are to the same channel.
pub proof fn lemma_one_write_per_channel(
    tasks: Seq<AnimTask>,
    polled: Option<CancelAnimData>,
    dt: nat,
)
    requires
        one_writer(tasks, polled),
    ensures
        forall|i: int, j: int|
            0 <= i < j < tick_writes(tasks, polled, dt).len() ==> (#[trigger] tick_writes(
                tasks,
                polled,
                dt,
            )[i]).channel != (#[trigger] tick_writes(tasks, polled, dt)[j]).channel,
{
    let writes = tick_writes(tasks, polled, dt);
    let f = emitter(polled, dt);
    assert forall|i: int, j: int| 0 <= i < j < writes.len() implies (#[trigger] writes[i]).channel != (
    #[trigger] writes[j]).channel by {
        lemma_origin(tasks, f, i);
        lemma_origin(tasks, f, j);
        let from_i = origin(tasks, f, i);
        let from_j = origin(tasks, f, j);
        assert(outlasts(tasks[from_i], polled));
        assert(outlasts(tasks[from_j], polled));
    }
}

/// What one frame brings: the requests that are dispatched in it, the
/// record that is broadcast for them, and the duration of the tick that
/// follows.
pub struct Frame {
    pub triggers: Seq<ChannelTrigger>,
    pub record: CancelAnimData,
    pub dt: nat,
}

impl Frame {
    /// Whether the frame follows the protocol: its record names the slots
    /// of its requests, and no two of its requests animate one channel.
    pub open spec fn orderly(self) -> bool {
        self.record@ == superseded(self.triggers) && distinct_animations(self.triggers)
    }

    /// The tasks that are there when the tick of the frame begins.
    pub open spec fn dispatched(self, tasks: Seq<AnimTask>) -> Seq<AnimTask> {
        tasks + spawned_tasks(self.triggers)
    }

    /// The tasks that the frame leaves.
    pub open spec fn left(self, tasks: Seq<AnimTask>) -> Seq<AnimTask> {
        survivors(self.dispatched(tasks), Some(self.record), self.dt)
    }

    /// The writes of the tick of the frame.
    pub open spec fn written(self, tasks: Seq<AnimTask>) -> Seq<ChannelWrite> {
        tick_writes(self.dispatched(tasks), Some(self.record), self.dt)
    }
}

/// The tasks that a row of frames leaves, each frame a dispatch followed by
/// a tick.
pub open spec fn after_frames(tasks: Seq<AnimTask>, frames: Seq<Frame>) -> Seq<AnimTask>
    decreases frames.len(),
{
    if frames.len() == 0 {
        tasks
    } else {
        frames.last().left(after_frames(tasks, frames.drop_last()))
    }
}

/// At most one writer, in every frame: where the scheduler starts out with
/// running tasks of which no two write to one channel, as it does when it
/// starts out with none, and every frame is a dispatch that follows the
/// protocol and then a tick, then after any number of frames every task is
/// running, no two tasks write to one channel, and in the tick of every
/// frame no two writes went to one channel.
pub proof fn lemma_one_writer_in_every_frame(tasks: Seq<AnimTask>, frames: Seq<Frame>)
    requires
        settled(tasks),
        one_writer(tasks, None),
        forall|k: int| 0 <= k < frames.len() ==> (#[trigger] frames[k]).orderly(),
    ensures
        settled(after_frames(tasks, frames)),
        one_writer(after_frames(tasks, frames), None),
        forall|k: int, i: int, j: int|
            0 <= k < frames.len() && 0 <= i < j < frames[k].written(
                after_frames(tasks, frames.take(k)),
            ).len() ==> (#[trigger] frames[k].written(after_frames(tasks, frames.take(k)))[i]).channel
                != (#[trigger] frames[k].written(after_frames(tasks, frames.take(k)))[j]).channel,
    decreases frames.len(),
{
    if frames.len() > 0 {
        let earlier = frames.drop_last();
        let last = frames.last();
        assert forall|k: int| 0 <= k < earlier.len() implies (#[trigger] earlier[k]).orderly() by {
            assert(earlier[k] == frames[k]);
        }
        lemma_one_writer_in_every_frame(tasks, earlier);
        let before = after_frames(tasks, earlier);
        lemma_dispatch_keeps_one_writer(before, last.triggers, last.record);
        lemma_tick_keeps_one_writer(last.dispatched(before), Some(last.record), last.dt);
        lemma_one_write_per_channel(last.dispatched(before), Some(last.record), last.dt);
        assert forall|k: int, i: int, j: int|
            0 <= k < frames.len() && 0 <= i < j < frames[k].written(
                after_frames(tasks, frames.take(k)),
            ).len() implies (#[trigger] frames[k].written(after_frames(tasks, frames.take(k)))[i]).channel
            != (#[trigger] frames[k].written(after_frames(tasks, frames.take(k)))[j]).channel by {
            if k < earlier.len() {
                assert(frames.take(k) == earlier.take(k));
                assert(frames[k] == earlier[k]);
            } else {
                assert(frames.take(k) == earlier);
            }
        }
    }
}

/// A scheduler that starts out with no task is settled, and no two of its
/// tasks write to one channel.
pub proof fn lemma_empty_is_settled()
    ensures
        settled(Seq::<AnimTask>::empty()),
        one_writer(Seq::<AnimTask>::empty(), None),
{
}

} // verus!
