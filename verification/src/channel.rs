//! Channels: the independently animated slots of a screen.
use crate::hexagon::HexagonDefinition;
use vstd::prelude::*;

verus! {

/// Number of slots in every family of channels.
pub const CHANNEL_COUNT: usize = 8;

/// The families of channels that a tunnel on a screen has.
#[derive(Copy, Clone, Debug, PartialEq, Eq, Structural)]
pub enum ChannelKind {
    Laser,
    RingPosition,
    RingAmplitude,
}

/// One slot of one family on one screen.
#[derive(Copy, Clone, Debug, PartialEq, Eq, Structural)]
pub struct Channel {
    pub hexagon: HexagonDefinition,
    pub kind: ChannelKind,
    pub index: usize,
}

/// A level to be stored in a channel.
#[derive(Copy, Clone, Debug, PartialEq, Eq, Structural)]
pub struct ChannelWrite {
    pub channel: Channel,
    pub value: i64,
}

/// The slot that a requested index stands for: the index itself where it is
/// in range, else what is left of it after division by the number of slots.
pub open spec fn wrapped_index(raw: nat) -> nat {
    raw % (CHANNEL_COUNT as nat)
}

/// Whether a requested index is outside the slots and has to be wrapped.
pub open spec fn out_of_range(raw: nat) -> bool {
    raw >= CHANNEL_COUNT
}

/// A requested index made into a slot, and whether it had to be wrapped for
/// that. A wrapped index is worth a warning and nothing more.
pub fn resolve_index(raw: usize) -> (r: (usize, bool))
    ensures
        r.0 == wrapped_index(raw as nat),
        r.0 < CHANNEL_COUNT,
        r.1 == out_of_range(raw as nat),
        !r.1 ==> r.0 == raw,
{
    (raw % CHANNEL_COUNT, raw >= CHANNEL_COUNT)
}

/// What is asked of a channel.
#[derive(Copy, Clone, Debug, PartialEq, Eq, Structural)]
pub enum Shape {
    /// Store the value at once; nothing runs afterwards.
    Jump { value: i64 },
    /// Start at `from` and decay to zero as a low-pass does.
    Pulse { from: i64, time_constant: u64 },
    /// Start at `from` and move to `to` at constant speed.
    Slide { from: i64, to: i64, speed: u64 },
}

/// One request for one channel. The index is as it was asked for and may be
/// out of range.
#[derive(Copy, Clone, Debug, PartialEq, Eq, Structural)]
pub struct ChannelTrigger {
    pub channel: Channel,
    pub shape: Shape,
}

impl Channel {
    /// The channel with its index made into a slot.
    pub open spec fn resolved(self) -> Channel {
        Channel {
            hexagon: self.hexagon,
            kind: self.kind,
            index: wrapped_index(self.index as nat) as usize,
        }
    }

    /// The screen and the slot of the channel, which is what a record of
    /// superseded channels names.
    pub open spec fn slot(self) -> (HexagonDefinition, nat) {
        (self.hexagon, wrapped_index(self.index as nat))
    }

    /// The channel with its index made into a slot.
    pub fn resolve(&self) -> (r: Channel)
        ensures
            r == self.resolved(),
            r.index < CHANNEL_COUNT,
            r.slot() == self.slot(),
    {
        let (index, _) = resolve_index(self.index);
        Channel { hexagon: self.hexagon, kind: self.kind, index }
    }
}

impl ChannelTrigger {
    /// Whether the request starts an animation.
    pub open spec fn animated(self) -> bool {
        !(self.shape is Jump)
    }

    /// The write that the request is carried out with at once, where it
    /// starts no animation.
    pub open spec fn instant(self) -> Option<ChannelWrite> {
        match self.shape {
            Shape::Jump { value } => Some(ChannelWrite { channel: self.channel.resolved(), value }),
            _ => None,
        }
    }
}

} // verus!
