//! The record that is broadcast before channels are driven anew: it names
//! every channel whose running animation is superseded.
use crate::channel::{resolve_index, wrapped_index, ChannelTrigger, CHANNEL_COUNT};
use crate::hexagon::HexagonDefinition;
use vstd::prelude::*;

verus! {

/// Number of slots that a record can name: those of every screen.
pub const MARK_COUNT: usize = 56;

/// Where the mark of a slot stands in a record.
pub open spec fn mark_of(hexagon: HexagonDefinition, index: nat) -> int {
    (hexagon.ordinal() * (CHANNEL_COUNT as nat) + index) as int
}

/// The slots of each screen that are superseded, for one family of
/// channels.
#[derive(Copy, Clone, Debug)]
pub struct CancelAnimData {
    marks: [bool; 56],
}

impl View for CancelAnimData {
    type V = Set<(HexagonDefinition, nat)>;

    /// The named slots, each as a screen and an index below `CHANNEL_COUNT`.
    closed spec fn view(&self) -> Set<(HexagonDefinition, nat)> {
        Set::new(
            |slot: (HexagonDefinition, nat)|
                slot.1 < CHANNEL_COUNT && self.marks@[mark_of(slot.0, slot.1)],
        )
    }
}

impl Default for CancelAnimData {
    /// The record that names nothing.
    fn default() -> (r: CancelAnimData)
        ensures
            r@ == Set::<(HexagonDefinition, nat)>::empty(),
    {
        let r = CancelAnimData { marks: [false; 56] };
        assert(r@ =~= Set::<(HexagonDefinition, nat)>::empty());
        r
    }
}

impl CancelAnimData {
    /// Whether the record names the slot `index` of `hexagon`.
    pub open spec fn names(&self, hexagon: HexagonDefinition, index: nat) -> bool {
        self@.contains((hexagon, index))
    }

    /// Names the slot that `index` stands for on `hexagon`, wrapping an index
    /// that is out of range.
    pub fn insert(&mut self, hexagon: HexagonDefinition, index: usize)
        ensures
            final(self)@ == old(self)@.insert((hexagon, wrapped_index(index as nat))),
    {
        let (slot, _) = resolve_index(index);
        let at = hexagon.slot() * CHANNEL_COUNT + slot;
        self.marks[at] = true;
        proof {
            let added = (hexagon, slot as nat);
            assert forall|s: (HexagonDefinition, nat)|
                final(self)@.contains(s) == old(self)@.insert(added).contains(s) by {
                if s.1 < CHANNEL_COUNT {
                    lemma_marks_apart(s.0, s.1, hexagon, slot as nat);
                }
            }
            assert(final(self)@ =~= old(self)@.insert(added));
        }
    }

    /// Whether the record names the slot `index` of `hexagon`. An index that
    /// is out of range is no slot and is never named.
    pub fn contains(&self, hexagon: HexagonDefinition, index: usize) -> (r: bool)
        ensures
            r == self.names(hexagon, index as nat),
    {
        if index >= CHANNEL_COUNT {
            return false;
        }
        self.marks[hexagon.slot() * CHANNEL_COUNT + index]
    }

    /// The slots of `hexagon` that the record names, in rising order.
    pub fn indices_of(&self, hexagon: HexagonDefinition) -> (out: Vec<usize>)
        ensures
            forall|index: usize| self.names(hexagon, index as nat) <==> #[trigger] out@.contains(index),
            forall|i: int, j: int| 0 <= i < j < out@.len() ==> out@[i] < out@[j],
    {
        let mut out: Vec<usize> = Vec::new();
        let mut index: usize = 0;
        while index < CHANNEL_COUNT
            invariant
                index <= CHANNEL_COUNT,
                forall|k: usize|
                    k < index ==> (self.names(hexagon, k as nat) <==> #[trigger] out@.contains(k)),
                forall|i: int| 0 <= i < out@.len() ==> out@[i] < index,
                forall|i: int, j: int| 0 <= i < j < out@.len() ==> out@[i] < out@[j],
            decreases CHANNEL_COUNT - index,
        {
            let ghost before = out@;
            let named = self.contains(hexagon, index);
            if named {
                out.push(index);
            }
            proof {
                assert forall|k: usize| k <= index implies (self.names(hexagon, k as nat)
                    <==> #[trigger] out@.contains(k)) by {
                    if before.contains(k) {
                        let i = choose|i: int| 0 <= i < before.len() && before[i] == k;
                        assert(out@[i] == k);
                    }
                    if out@.contains(k) {
                        let i = choose|i: int| 0 <= i < out@.len() && out@[i] == k;
                        if i < before.len() {
                            assert(before[i] == k);
                        }
                    }
                    if named && k == index {
                        assert(out@[before.len() as int] == k);
                    }
                }
            }
            index += 1;
        }
        proof {
            assert forall|k: usize| self.names(hexagon, k as nat) <==> #[trigger] out@.contains(
                k,
            ) by {
                if out@.contains(k) {
                    let i = choose|i: int| 0 <= i < out@.len() && out@[i] == k;
                    assert(out@[i] < CHANNEL_COUNT);
                }
            }
        }
        out
    }

    /// Whether the record names nothing.
    pub fn is_empty(&self) -> (r: bool)
        ensures
            r == (self@ == Set::<(HexagonDefinition, nat)>::empty()),
    {
        let mut at: usize = 0;
        while at < MARK_COUNT
            invariant
                at <= MARK_COUNT,
                forall|k: int| 0 <= k < at ==> !self.marks@[k],
            decreases MARK_COUNT - at,
        {
            if self.marks[at] {
                proof {
                    let hexagon = HexagonDefinition::of_ordinal((at / CHANNEL_COUNT) as nat);
                    let index = (at % CHANNEL_COUNT) as nat;
                    assert(mark_of(hexagon, index) == at);
                    assert(self@.contains((hexagon, index)));
                }
                return false;
            }
            at += 1;
        }
        proof {
            assert forall|s: (HexagonDefinition, nat)| !self@.contains(s) by {
                if s.1 < CHANNEL_COUNT {
                    assert(0 <= mark_of(s.0, s.1) < MARK_COUNT);
                }
            }
            assert(self@ =~= Set::<(HexagonDefinition, nat)>::empty());
        }
        true
    }
}

/// Two slots have the same mark only if they are the same slot.
proof fn lemma_marks_apart(a: HexagonDefinition, i: nat, b: HexagonDefinition, j: nat)
    requires
        i < CHANNEL_COUNT,
        j < CHANNEL_COUNT,
    ensures
        0 <= mark_of(a, i) < MARK_COUNT,
        mark_of(a, i) == mark_of(b, j) <==> a == b && i == j,
{
}

/// The slots that a batch of requests is about.
pub open spec fn superseded(triggers: Seq<ChannelTrigger>) -> Set<(HexagonDefinition, nat)> {
    Set::new(
        |slot: (HexagonDefinition, nat)|
            exists|k: int| 0 <= k < triggers.len() && (#[trigger] triggers[k]).channel.slot() == slot,
    )
}

/// The record for a batch of requests: it names the slot of each of them,
/// animated or not, and nothing else.
pub fn cancel_record(triggers: &Vec<ChannelTrigger>) -> (record: CancelAnimData)
    ensures
        record@ == superseded(triggers@),
{
    let mut record = CancelAnimData::default();
    let mut k: usize = 0;
    assert(record@ =~= superseded(triggers@.take(0)));
    while k < triggers.len()
        invariant
            k <= triggers.len(),
            record@ == superseded(triggers@.take(k as int)),
        decreases triggers.len() - k,
    {
        record.insert(triggers[k].channel.hexagon, triggers[k].channel.index);
        proof {
            let before = triggers@.take(k as int);
            let now = triggers@.take(k as int + 1);
            let added = triggers@[k as int].channel.slot();
            assert forall|s: (HexagonDefinition, nat)|
                superseded(before).insert(added).contains(s) == superseded(now).contains(s) by {
                if superseded(before).contains(s) {
                    let w = choose|w: int|
                        0 <= w < before.len() && (#[trigger] before[w]).channel.slot() == s;
                    assert(now[w] == before[w]);
                }
                if s == added {
                    assert(now[k as int] == triggers@[k as int]);
                }
                if superseded(now).contains(s) {
                    let w = choose|w: int| 0 <= w < now.len() && (#[trigger] now[w]).channel.slot() == s;
                    if w < k {
                        assert(before[w] == now[w]);
                    }
                }
            }
            assert(superseded(before).insert(added) =~= superseded(now));
        }
        k += 1;
    }
    proof {
        assert(triggers@.take(triggers.len() as int) == triggers@);
    }
    record
}

} // verus!
