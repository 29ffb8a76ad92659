//! How the laser and ring events of a tick drive the channels of the tunnel.
use crate::cancel::superseded;
use crate::channel::{out_of_range, Channel, ChannelKind, ChannelTrigger, ChannelWrite, Shape};
use crate::channel::CHANNEL_COUNT;
use crate::scheduler::{instant_writes, spawned_tasks, Scheduler};
use crate::tunnelgon::{flatten_laser, flatten_laser_events, flatten_ring_events, flatten_rings};
use crate::tunnelgon::{LaserAnimationEvent, LaserTrigger, RingAnimationEvent, RingTrigger};
use crate::tunnelgon::{RingBasePosAnim, RingBaseValAnim, TunnelgonBaseAnim};
use vstd::prelude::*;

verus! {

/// Time constant of a laser pulse: 30 milliseconds.
pub const LASER_PULSE_TIME_CONSTANT: u64 = 30_000;

/// Time constant of a ring's amplitude pulse: 100 milliseconds.
pub const RING_PULSE_TIME_CONSTANT: u64 = 100_000;

/// Speed of a sliding ring: one whole level per second.
pub const RING_SLIDE_SPEED: u64 = 1_000_000;

/// What the dispatch of a tick did besides starting animations.
pub struct DispatchReport {
    /// The levels that were set at once, in the order of the requests.
    pub writes: Vec<ChannelWrite>,
    /// The requested indices that were out of range, one entry for each
    /// request that had one, in the order of the requests. Each is worth a
    /// warning; the request was carried out on the wrapped index.
    pub warnings: Vec<usize>,
}

impl LaserTrigger {
    /// The request in terms of channels: a jump or a pulse of the laser.
    pub open spec fn channel_trigger(self) -> ChannelTrigger {
        ChannelTrigger {
            channel: Channel { hexagon: self.hexagon, kind: ChannelKind::Laser, index: self.index },
            shape: match self.base_anim {
                TunnelgonBaseAnim::SetToVal => Shape::Jump { value: self.value },
                TunnelgonBaseAnim::Pulse => Shape::Pulse {
                    from: self.value,
                    time_constant: LASER_PULSE_TIME_CONSTANT,
                },
            },
        }
    }

    /// The index that the request is worth a warning for, if it is out of
    /// range.
    pub open spec fn warning(self) -> Option<usize> {
        if out_of_range(self.index as nat) {
            Some(self.index)
        } else {
            None
        }
    }

    /// The request in terms of channels.
    pub fn to_channel_trigger(&self) -> (r: ChannelTrigger)
        ensures
            r == self.channel_trigger(),
    {
        ChannelTrigger {
            channel: Channel { hexagon: self.hexagon, kind: ChannelKind::Laser, index: self.index },
            shape: match self.base_anim {
                TunnelgonBaseAnim::SetToVal => Shape::Jump { value: self.value },
                TunnelgonBaseAnim::Pulse => Shape::Pulse {
                    from: self.value,
                    time_constant: LASER_PULSE_TIME_CONSTANT,
                },
            },
        }
    }
}

impl RingTrigger {
    /// The request for the ring's position: a jump to the end position, or a
    /// slide from the start position to it.
    pub open spec fn position_trigger(self) -> ChannelTrigger {
        ChannelTrigger {
            channel: Channel {
                hexagon: self.hexagon,
                kind: ChannelKind::RingPosition,
                index: self.index,
            },
            shape: match self.base_pos_anim {
                RingBasePosAnim::SetToPosition => Shape::Jump { value: self.position_to },
                RingBasePosAnim::SlideLinear => Shape::Slide {
                    from: self.position_from,
                    to: self.position_to,
                    speed: RING_SLIDE_SPEED,
                },
            },
        }
    }

    /// The request for the ring's amplitude: a jump or a pulse.
    pub open spec fn amplitude_trigger(self) -> ChannelTrigger {
        ChannelTrigger {
            channel: Channel {
                hexagon: self.hexagon,
                kind: ChannelKind::RingAmplitude,
                index: self.index,
            },
            shape: match self.base_val_anim {
                RingBaseValAnim::SetToVal => Shape::Jump { value: self.value },
                RingBaseValAnim::Pulse => Shape::Pulse {
                    from: self.value,
                    time_constant: RING_PULSE_TIME_CONSTANT,
                },
            },
        }
    }

    /// The index that the request is worth a warning for, if it is out of
    /// range.
    pub open spec fn warning(self) -> Option<usize> {
        if out_of_range(self.index as nat) {
            Some(self.index)
        } else {
            None
        }
    }

    /// The request for the ring's position.
    pub fn to_position_trigger(&self) -> (r: ChannelTrigger)
        ensures
            r == self.position_trigger(),
    {
        ChannelTrigger {
            channel: Channel {
                hexagon: self.hexagon,
                kind: ChannelKind::RingPosition,
                index: self.index,
            },
            shape: match self.base_pos_anim {
                RingBasePosAnim::SetToPosition => Shape::Jump { value: self.position_to },
                RingBasePosAnim::SlideLinear => Shape::Slide {
                    from: self.position_from,
                    to: self.position_to,
                    speed: RING_SLIDE_SPEED,
                },
            },
        }
    }

    /// The request for the ring's amplitude.
    pub fn to_amplitude_trigger(&self) -> (r: ChannelTrigger)
        ensures
            r == self.amplitude_trigger(),
    {
        ChannelTrigger {
            channel: Channel {
                hexagon: self.hexagon,
                kind: ChannelKind::RingAmplitude,
                index: self.index,
            },
            shape: match self.base_val_anim {
                RingBaseValAnim::SetToVal => Shape::Jump { value: self.value },
                RingBaseValAnim::Pulse => Shape::Pulse {
                    from: self.value,
                    time_constant: RING_PULSE_TIME_CONSTANT,
                },
            },
        }
    }
}

/// The laser requests of a tick in terms of channels, one for one.
pub open spec fn laser_requests(triggers: Seq<LaserTrigger>) -> Seq<ChannelTrigger> {
    triggers.map_values(|trigger: LaserTrigger| trigger.channel_trigger())
}

/// The ring requests of a tick in terms of channels: for each, first the one
/// for the position, then the one for the amplitude.
pub open spec fn ring_requests(triggers: Seq<RingTrigger>) -> Seq<ChannelTrigger>
    decreases triggers.len(),
{
    if triggers.len() == 0 {
        Seq::empty()
    } else {
        ring_requests(triggers.drop_last()).push(triggers.last().position_trigger()).push(
            triggers.last().amplitude_trigger(),
        )
    }
}

/// The warning of a laser request, as a function of the request.
pub open spec fn laser_warner() -> spec_fn(LaserTrigger) -> Option<usize> {
    |trigger: LaserTrigger| trigger.warning()
}

/// The warning of a ring request, as a function of the request.
pub open spec fn ring_warner() -> spec_fn(RingTrigger) -> Option<usize> {
    |trigger: RingTrigger| trigger.warning()
}

/// The indices that the laser requests of a tick are worth a warning for.
pub open spec fn laser_warnings(triggers: Seq<LaserTrigger>) -> Seq<usize> {
    triggers.filter_map(laser_warner())
}

/// The indices that the ring requests of a tick are worth a warning for.
pub open spec fn ring_warnings(triggers: Seq<RingTrigger>) -> Seq<usize> {
    triggers.filter_map(ring_warner())
}

/// Drives the lasers by the events of one tick. The events are fanned out
/// into requests; the slots of all of them are broadcast as superseded;
/// then each request sets its level at once or starts a pulse, on the
/// wrapped index where the requested one is out of range.
pub fn laser_animation_system(scheduler: &mut Scheduler, events: &Vec<LaserAnimationEvent>) -> (report:
    DispatchReport)
    ensures
        final(scheduler).pending() matches Some(record) && record@ == superseded(
            laser_requests(flatten_laser(events@)),
        ),
        final(scheduler).tasks() == old(scheduler).tasks() + spawned_tasks(
            laser_requests(flatten_laser(events@)),
        ),
        report.writes@ == instant_writes(laser_requests(flatten_laser(events@))),
        report.warnings@ == laser_warnings(flatten_laser(events@)),
{
    let triggers = flatten_laser_events(events);
    let mut requests: Vec<ChannelTrigger> = Vec::new();
    let mut warnings: Vec<usize> = Vec::new();
    let mut k: usize = 0;
    while k < triggers.len()
        invariant
            k <= triggers.len(),
            requests@ == laser_requests(triggers@.take(k as int)),
            warnings@ == laser_warnings(triggers@.take(k as int)),
        decreases triggers.len() - k,
    {
        proof {
            triggers@.lemma_filter_map_take_succ(laser_warner(), k as int);
            assert(triggers@.take(k as int + 1) == triggers@.take(k as int).push(triggers@[k as int]));
        }
        requests.push(triggers[k].to_channel_trigger());
        if triggers[k].index >= CHANNEL_COUNT {
            warnings.push(triggers[k].index);
        }
        proof {
            assert(requests@ == laser_requests(triggers@.take(k as int + 1)));
        }
        k += 1;
    }
    proof {
        assert(triggers@.take(triggers.len() as int) == triggers@);
    }
    let writes = scheduler.dispatch(&requests);
    DispatchReport { writes, warnings }
}

/// Drives the rings by the events of one tick. The events are fanned out
/// into requests; the slots of all of them are broadcast as superseded;
/// then each request sets or slides the position and sets or pulses the
/// amplitude of its ring, on the wrapped index where the requested one is
/// out of range.
pub fn ring_animation_system(scheduler: &mut Scheduler, events: &Vec<RingAnimationEvent>) -> (report:
    DispatchReport)
    ensures
        final(scheduler).pending() matches Some(record) && record@ == superseded(
            ring_requests(flatten_rings(events@)),
        ),
        final(scheduler).tasks() == old(scheduler).tasks() + spawned_tasks(
            ring_requests(flatten_rings(events@)),
        ),
        report.writes@ == instant_writes(ring_requests(flatten_rings(events@))),
        report.warnings@ == ring_warnings(flatten_rings(events@)),
{
    let triggers = flatten_ring_events(events);
    let mut requests: Vec<ChannelTrigger> = Vec::new();
    let mut warnings: Vec<usize> = Vec::new();
    let mut k: usize = 0;
    while k < triggers.len()
        invariant
            k <= triggers.len(),
            requests@ == ring_requests(triggers@.take(k as int)),
            warnings@ == ring_warnings(triggers@.take(k as int)),
        decreases triggers.len() - k,
    {
        proof {
            triggers@.lemma_filter_map_take_succ(ring_warner(), k as int);
            let next = triggers@.take(k as int + 1);
            assert(next.drop_last() == triggers@.take(k as int));
            assert(next.last() == triggers@[k as int]);
        }
        requests.push(triggers[k].to_position_trigger());
        requests.push(triggers[k].to_amplitude_trigger());
        if triggers[k].index >= CHANNEL_COUNT {
            warnings.push(triggers[k].index);
        }
        k += 1;
    }
    proof {
        assert(triggers@.take(triggers.len() as int) == triggers@);
    }
    let writes = scheduler.dispatch(&requests);
    DispatchReport { writes, warnings }
}

} // verus!
