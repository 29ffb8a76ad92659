//! The life of one animation on one channel, as a state machine that is
//! stepped once per tick.
use crate::anim::{Animation, LinearAnim, ParameterAnimation, Pt1Anim};
use crate::cancel::CancelAnimData;
use crate::channel::{resolve_index, Channel, ChannelTrigger, ChannelWrite, Shape};
use vstd::prelude::*;

verus! {

/// Where a task stands in its life.
#[derive(Copy, Clone, Debug, PartialEq, Eq, Structural)]
pub enum TaskPhase {
    /// Started, and still to make the first poll of the broadcast, which it
    /// will not act on.
    AwaitingFirstPoll,
    /// Writing to its channel on every tick.
    Running,
    /// Ended because a broadcast named its channel.
    Cancelled,
    /// Ended because its level arrived at the target.
    Converged,
}

/// An animation that owns one transition and writes its level to one
/// channel.
#[derive(Copy, Clone, Debug, PartialEq, Eq, Structural)]
pub struct AnimTask {
    pub channel: Channel,
    pub phase: TaskPhase,
    pub anim: Animation,
}

impl AnimTask {
    /// Whether the task has not ended.
    pub open spec fn is_live(self) -> bool {
        self.phase is AwaitingFirstPoll || self.phase is Running
    }

    /// Whether the task acts on what it polls: it is past its first poll,
    /// there is a record to read, and the record names its channel.
    pub open spec fn hears(self, polled: Option<CancelAnimData>) -> bool {
        &&& self.phase is Running
        &&& polled matches Some(record)
        &&& record@.contains(self.channel.slot())
    }

    /// The task after a tick of `dt` microseconds in which it polled
    /// `polled`. A task that has ended stays as it is. A running task whose
    /// channel the record names ends as cancelled, its transition untouched.
    /// Any other task moves its transition by the tick, and ends as converged
    /// where that took the level to the target.
    pub open spec fn stepped(self, polled: Option<CancelAnimData>, dt: nat) -> AnimTask {
        if !self.is_live() {
            self
        } else if self.hears(polled) {
            AnimTask { channel: self.channel, phase: TaskPhase::Cancelled, anim: self.anim }
        } else {
            AnimTask {
                channel: self.channel,
                phase: if self.anim.advanced(dt).arrived() {
                    TaskPhase::Converged
                } else {
                    TaskPhase::Running
                },
                anim: self.anim.advanced(dt),
            }
        }
    }

    /// What the task writes in that tick: the level it moved to, unless it
    /// has ended or ends as cancelled.
    pub open spec fn emitted(self, polled: Option<CancelAnimData>, dt: nat) -> Option<ChannelWrite> {
        if self.is_live() && !self.hears(polled) {
            Some(ChannelWrite { channel: self.channel, value: self.anim.advanced(dt).level() })
        } else {
            None
        }
    }

    /// The task after that tick, if it has not ended by it.
    pub open spec fn surviving(self, polled: Option<CancelAnimData>, dt: nat) -> Option<AnimTask> {
        if self.stepped(polled, dt).is_live() {
            Some(self.stepped(polled, dt))
        } else {
            None
        }
    }

    /// A task that is still to make its first poll.
    pub fn new(channel: Channel, anim: Animation) -> (task: AnimTask)
        ensures
            task == (AnimTask { channel, phase: TaskPhase::AwaitingFirstPoll, anim }),
    {
        AnimTask { channel, phase: TaskPhase::AwaitingFirstPoll, anim }
    }

    /// Whether the task has not ended.
    pub fn live(&self) -> (r: bool)
        ensures
            r == self.is_live(),
    {
        match self.phase {
            TaskPhase::AwaitingFirstPoll => true,
            TaskPhase::Running => true,
            _ => false,
        }
    }

    /// Runs the task for one tick of `dt` microseconds, in which it polls
    /// `polled`: the latest record that it has not read, if there is one.
    /// Returns what it writes to its channel in this tick.
    pub fn step(&mut self, polled: Option<CancelAnimData>, dt: u64) -> (write: Option<ChannelWrite>)
        ensures
            *final(self) == old(self).stepped(polled, dt as nat),
            write == old(self).emitted(polled, dt as nat),
    {
        if !self.live() {
            return None;
        }
        let cancelled = match self.phase {
            TaskPhase::Running => match polled {
                Some(record) => {
                    let (slot, _) = resolve_index(self.channel.index);
                    record.contains(self.channel.hexagon, slot)
                },
                None => false,
            },
            _ => false,
        };
        if cancelled {
            self.phase = TaskPhase::Cancelled;
            return None;
        }
        self.anim.advance(dt);
        let arrived = self.anim.target_reached();
        self.phase = if arrived {
            TaskPhase::Converged
        } else {
            TaskPhase::Running
        };
        Some(ChannelWrite { channel: self.channel, value: self.anim.get_val() })
    }
}

impl ChannelTrigger {
    /// The task that the request starts, where it is animated: a low-pass
    /// from the given level to zero for a pulse, a ramp between the given
    /// levels for a slide. The task is on the resolved channel.
    pub open spec fn spawned(self) -> Option<AnimTask> {
        match self.shape {
            Shape::Jump { value } => None,
            Shape::Pulse { from, time_constant } => Some(
                AnimTask {
                    channel: self.channel.resolved(),
                    phase: TaskPhase::AwaitingFirstPoll,
                    anim: Animation::Pt1(Pt1Anim { val: from, target: 0, time_constant }),
                },
            ),
            Shape::Slide { from, to, speed } => Some(
                AnimTask {
                    channel: self.channel.resolved(),
                    phase: TaskPhase::AwaitingFirstPoll,
                    anim: Animation::Linear(LinearAnim { val: from, target: to, speed }),
                },
            ),
        }
    }

    /// Carries the request out as far as that is done at once: returns the
    /// write of a request that sets a level, or the task of one that is
    /// animated.
    pub fn launch(&self) -> (r: (Option<ChannelWrite>, Option<AnimTask>))
        ensures
            r.0 == self.instant(),
            r.1 == self.spawned(),
    {
        let channel = self.channel.resolve();
        match self.shape {
            Shape::Jump { value } => (Some(ChannelWrite { channel, value }), None),
            Shape::Pulse { from, time_constant } => (
                None,
                Some(
                    AnimTask::new(
                        channel,
                        Animation::Pt1(Pt1Anim { val: from, target: 0, time_constant }),
                    ),
                ),
            ),
            Shape::Slide { from, to, speed } => (
                None,
                Some(
                    AnimTask::new(
                        channel,
                        Animation::Linear(LinearAnim { val: from, target: to, speed }),
                    ),
                ),
            ),
        }
    }
}

} // verus!
