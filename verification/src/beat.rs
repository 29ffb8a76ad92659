//! Beats: counting them, and estimating the tempo from the time between
//! them.
//!
//! Timestamps and intervals are counted in microseconds. Tempo is counted in
//! millionths of a beat per minute.
use std::collections::VecDeque;
use vstd::prelude::*;

verus! {

/// Number of intervals that a tempo estimator remembers unless told
/// otherwise.
pub const BEAT_HISTORY_CAPACITY: usize = 64;

/// Sixty beats per minute at one beat per microsecond of interval: the
/// tempo, in millionths, is this divided by the mean interval.
pub const TEMPO_SCALE: u128 = 60_000_000_000_000;

/// Counts the beats that were received.
pub struct BeatCounter {
    pub count: u64,
}

impl Default for BeatCounter {
    fn default() -> (r: BeatCounter)
        ensures
            r.count == 0,
    {
        BeatCounter { count: 0 }
    }
}

impl BeatCounter {
    pub fn get_count(&self) -> (r: u64)
        ensures
            r == self.count,
    {
        self.count
    }
}

/// A beat, with the count at which it came and the tempo that came with it,
/// if any, in millionths of a beat per minute.
#[derive(Copy, Clone, Debug, PartialEq, Eq, Structural)]
pub struct BeatEvent {
    pub count: u64,
    pub bpm: Option<i64>,
}

/// Whether beats are muted: counted, but not announced.
#[derive(Copy, Clone, Debug, PartialEq, Eq, Structural)]
pub struct BeatMute {
    pub mute: bool,
}

impl Default for BeatMute {
    fn default() -> (r: BeatMute)
        ensures
            !r.mute,
    {
        BeatMute { mute: false }
    }
}

/// The time from one beat to the next. A beat stamped earlier than the one
/// before it counts as simultaneous with it.
pub open spec fn interval(previous: u64, timestamp: u64) -> u64 {
    if timestamp >= previous {
        (timestamp - previous) as u64
    } else {
        0
    }
}

/// A history with one more interval at its end, and without its oldest one
/// where it was full.
pub open spec fn remembered(samples: Seq<u64>, capacity: nat, sample: u64) -> Seq<u64> {
    if samples.len() > 0 && samples.len() >= capacity {
        samples.drop_first().push(sample)
    } else {
        samples.push(sample)
    }
}

/// The sum of the intervals of a history.
pub open spec fn total(samples: Seq<u64>) -> nat
    decreases samples.len(),
{
    if samples.len() == 0 {
        0
    } else {
        total(samples.drop_last()) + samples.last() as nat
    }
}

/// The tempo that a history stands for: sixty divided by the mean interval
/// in seconds, in millionths of a beat per minute and rounded down. There is
/// none where the history is empty or its intervals add up to nothing.
pub open spec fn tempo(samples: Seq<u64>) -> Option<nat> {
    if samples.len() == 0 || total(samples) == 0 {
        None
    } else {
        Some(((TEMPO_SCALE as nat * samples.len()) / total(samples)) as nat)
    }
}

/// Estimates the tempo as the mean of the latest intervals between beats.
pub struct BpmGuesser {
    samples: VecDeque<u64>,
    prev_time: u64,
    capacity: usize,
}

impl Default for BpmGuesser {
    /// An estimator that remembers `BEAT_HISTORY_CAPACITY` intervals, has
    /// seen no beat and counts time from zero.
    fn default() -> (r: BpmGuesser)
        ensures
            r.samples() == Seq::<u64>::empty(),
            r.prev_time() == 0,
            r.capacity() == BEAT_HISTORY_CAPACITY,
    {
        BpmGuesser {
            samples: VecDeque::with_capacity(BEAT_HISTORY_CAPACITY),
            prev_time: 0,
            capacity: BEAT_HISTORY_CAPACITY,
        }
    }
}

impl BpmGuesser {
    /// The remembered intervals, oldest first.
    pub closed spec fn samples(&self) -> Seq<u64> {
        self.samples@
    }

    /// When the latest beat came.
    pub closed spec fn prev_time(&self) -> u64 {
        self.prev_time
    }

    /// How many intervals are remembered at most.
    pub closed spec fn capacity(&self) -> nat {
        self.capacity as nat
    }

    /// An estimator that remembers `capacity` intervals, has seen no beat
    /// and counts time from zero. A capacity of zero is a mistake of the
    /// caller.
    pub fn with_capacity(capacity: usize) -> (r: BpmGuesser)
        requires
            capacity > 0,
        ensures
            r.samples() == Seq::<u64>::empty(),
            r.prev_time() == 0,
            r.capacity() == capacity,
    {
        BpmGuesser { samples: VecDeque::with_capacity(capacity), prev_time: 0, capacity }
    }

    /// Takes note of a beat at `timestamp`: the interval since the beat
    /// before it joins the history, from which the oldest interval leaves
    /// where the history is full.
    pub fn record(&mut self, timestamp: u64)
        ensures
            final(self).samples() == remembered(
                old(self).samples(),
                old(self).capacity(),
                interval(old(self).prev_time(), timestamp),
            ),
            final(self).prev_time() == timestamp,
            final(self).capacity() == old(self).capacity(),
    {
        let sample: u64 = if timestamp >= self.prev_time {
            timestamp - self.prev_time
        } else {
            0
        };
        if self.samples.len() > 0 && self.samples.len() >= self.capacity {
            let _ = self.samples.pop_front();
            assert(self.samples@ == old(self).samples@.drop_first());
        }
        self.samples.push_back(sample);
        self.prev_time = timestamp;
    }

    /// How many intervals are remembered.
    pub fn sample_count(&self) -> (n: usize)
        ensures
            n == self.samples().len(),
    {
        self.samples.len()
    }

    /// When the latest beat came.
    pub fn previous_timestamp(&self) -> (t: u64)
        ensures
            t == self.prev_time(),
    {
        self.prev_time
    }

    /// The tempo in millionths of a beat per minute, or `None` where there
    /// is no estimate yet. A tempo too large for the result is given as the
    /// largest that fits.
    pub fn calculate_bpm(&self) -> (r: Option<u64>)
        ensures
            r == tempo_shown(self.samples()),
            r is None <==> self.samples().len() == 0 || total(self.samples()) == 0,
    {
        let count = self.samples.len();
        let mut sum: u128 = 0;
        let mut i: usize = 0;
        while i < count
            invariant
                i <= count,
                count == self.samples@.len(),
                sum == total(self.samples@.take(i as int)),
                sum <= i * u64::MAX,
            decreases count - i,
        {
            proof {
                assert(self.samples@.take(i as int + 1).drop_last() == self.samples@.take(i as int));
                assert(i * u64::MAX + u64::MAX == (i + 1) * u64::MAX) by (nonlinear_arith);
                assert((i + 1) * u64::MAX <= usize::MAX * u64::MAX) by (nonlinear_arith)
                    requires
                        i + 1 <= usize::MAX,
                ;
                assert(usize::MAX * u64::MAX <= u64::MAX * u64::MAX) by (nonlinear_arith)
                    requires
                        usize::MAX <= u64::MAX,
                ;
            }
            sum = sum + self.samples[i] as u128;
            i += 1;
        }
        proof {
            assert(self.samples@.take(count as int) == self.samples@);
        }
        if count == 0 || sum == 0 {
            return None;
        }
        proof {
            assert(TEMPO_SCALE * count <= TEMPO_SCALE * usize::MAX) by (nonlinear_arith)
                requires
                    count <= usize::MAX,
            ;
        }
        let exact: u128 = (TEMPO_SCALE * count as u128) / sum;
        if exact > u64::MAX as u128 {
            Some(u64::MAX)
        } else {
            Some(exact as u64)
        }
    }
}

/// Takes note of the beats of one frame, all stamped `now`.
pub open spec fn after_beats(
    samples: Seq<u64>,
    capacity: nat,
    previous: u64,
    now: u64,
    beats: nat,
) -> Seq<u64>
    decreases beats,
{
    if beats == 0 {
        samples
    } else {
        remembered(
            after_beats(samples, capacity, previous, now, (beats - 1) as nat),
            capacity,
            if beats == 1 {
                interval(previous, now)
            } else {
                0
            },
        )
    }
}

/// Feeds the beats of one frame to the estimator: each of the `beats` beats
/// is recorded at the time `now` of the frame, so that every beat after the
/// first of a frame adds an interval of zero.
pub fn bpm_guesser_system(guesser: &mut BpmGuesser, beats: usize, now: u64)
    ensures
        final(guesser).samples() == after_beats(
            old(guesser).samples(),
            old(guesser).capacity(),
            old(guesser).prev_time(),
            now,
            beats as nat,
        ),
        final(guesser).capacity() == old(guesser).capacity(),
        final(guesser).prev_time() == if beats == 0 {
            old(guesser).prev_time()
        } else {
            now
        },
{
    let mut done: usize = 0;
    while done < beats
        invariant
            done <= beats,
            guesser.capacity() == old(guesser).capacity(),
            guesser.samples() == after_beats(
                old(guesser).samples(),
                old(guesser).capacity(),
                old(guesser).prev_time(),
                now,
                done as nat,
            ),
            guesser.prev_time() == if done == 0 {
                old(guesser).prev_time()
            } else {
                now
            },
        decreases beats - done,
    {
        guesser.record(now);
        done += 1;
    }
}

/// The history stays within its capacity: a history that is no longer than
/// a capacity that is not zero is no longer than it after one more beat, and
/// what it holds then are its latest intervals, the new one last.
pub proof fn lemma_history_is_bounded(samples: Seq<u64>, capacity: nat, sample: u64)
    requires
        capacity > 0,
        samples.len() <= capacity,
    ensures
        remembered(samples, capacity, sample).len() <= capacity,
        remembered(samples, capacity, sample).last() == sample,
        samples.len() < capacity ==> remembered(samples, capacity, sample) == samples.push(sample),
        samples.len() == capacity ==> remembered(samples, capacity, sample) == samples.subrange(
            1,
            samples.len() as int,
        ).push(sample),
{
}

/// The sum of a history that holds one interval throughout is that interval
/// times the length of the history.
pub proof fn lemma_total_of_equal(samples: Seq<u64>, each: u64)
    requires
        forall|i: int| 0 <= i < samples.len() ==> samples[i] == each,
    ensures
        total(samples) == samples.len() * each,
    decreases samples.len(),
{
    if samples.len() > 0 {
        lemma_total_of_equal(samples.drop_last(), each);
        assert(samples.len() * each == (samples.len() - 1) * each + each) by (nonlinear_arith);
    } else {
        assert(0 * each == 0) by (nonlinear_arith);
    }
}

/// Beats at a steady interval give the tempo of that interval: sixty
/// million microseconds divided by it, in millionths and rounded down.
pub proof fn lemma_steady_tempo(samples: Seq<u64>, each: u64)
    requires
        samples.len() > 0,
        each > 0,
        forall|i: int| 0 <= i < samples.len() ==> samples[i] == each,
    ensures
        tempo(samples) == Some((TEMPO_SCALE as nat / each as nat) as nat),
{
    lemma_total_of_equal(samples, each);
    let n = samples.len() as int;
    let e = each as int;
    let scale = TEMPO_SCALE as int;
    assert(n * e > 0) by (nonlinear_arith)
        requires
            n > 0,
            e > 0,
    ;
    assert(scale * n == n * scale) by (nonlinear_arith);
    vstd::arithmetic::div_mod::lemma_div_denominator(n * scale, n, e);
    vstd::arithmetic::div_mod::lemma_div_multiples_vanish(scale, n);
}

/// The beats that messages of the beat address give rise to. Every message
/// counts, heard or not; while beats are muted none becomes an event.
pub open spec fn heard_beats(count: u64, hints: Seq<Option<i64>>, mute: bool) -> Seq<BeatEvent> {
    if mute {
        Seq::empty()
    } else {
        Seq::new(hints.len(), |k: int| BeatEvent { count: (count + k + 1) as u64, bpm: hints[k] })
    }
}

/// Takes the messages that came in at the beat address in one frame, each
/// given as the tempo it carried, if any. Each adds one to the counter, and,
/// unless beats are muted, becomes a beat with the count it brought the
/// counter to.
pub fn osc_beat_receiver_system(
    beat_counter: &mut BeatCounter,
    hints: &Vec<Option<i64>>,
    beat_mute: &BeatMute,
) -> (events: Vec<BeatEvent>)
    requires
        old(beat_counter).count + hints@.len() <= u64::MAX,
    ensures
        final(beat_counter).count == old(beat_counter).count + hints@.len(),
        events@ == heard_beats(old(beat_counter).count, hints@, beat_mute.mute),
{
    let mute = beat_mute.mute;
    let mut events: Vec<BeatEvent> = Vec::new();
    let mut k: usize = 0;
    while k < hints.len()
        invariant
            k <= hints.len(),
            old(beat_counter).count + hints@.len() <= u64::MAX,
            beat_counter.count == old(beat_counter).count + k,
            mute == beat_mute.mute,
            events@ == heard_beats(old(beat_counter).count, hints@.take(k as int), mute),
        decreases hints.len() - k,
    {
        beat_counter.count += 1;
        if !mute {
            events.push(BeatEvent { count: beat_counter.count, bpm: hints[k] });
        }
        proof {
            assert(events@ =~= heard_beats(
                old(beat_counter).count,
                hints@.take(k as int + 1),
                mute,
            ));
        }
        k += 1;
    }
    proof {
        assert(hints@.take(hints.len() as int) == hints@);
    }
    events
}

/// Number of clock ticks of the deck that make one beat.
pub const TRAKTOR_TICKS_PER_BEAT: isize = 24;

/// What the deck sends.
#[derive(Copy, Clone, Debug, PartialEq, Eq, Structural)]
pub enum TraktorMessage {
    /// One tick of its clock.
    Beat,
    /// Its volume.
    Volume(i32),
    /// Anything else.
    Other,
}

/// The ticks counted since the last beat of the deck, and its last volume.
#[derive(Copy, Clone, Debug, PartialEq, Eq, Structural)]
pub struct TraktorBeat {
    pub count: isize,
    pub last_volume: isize,
}

impl Default for TraktorBeat {
    /// No tick counted, the volume at 128.
    fn default() -> (r: TraktorBeat)
        ensures
            r == (TraktorBeat { count: 0, last_volume: 128 }),
    {
        TraktorBeat { count: 0, last_volume: 128 }
    }
}

impl TraktorBeat {
    /// What a message makes of the count before the count is looked at: a
    /// tick adds one.
    pub open spec fn counted(self, message: TraktorMessage) -> int {
        if message is Beat {
            self.count + 1
        } else {
            self.count as int
        }
    }

    /// Whether a message completes a beat: with it, the count is no less
    /// than `TRAKTOR_TICKS_PER_BEAT`.
    pub open spec fn completes(self, message: TraktorMessage) -> bool {
        self.counted(message) >= TRAKTOR_TICKS_PER_BEAT
    }

    /// The state after a message. A tick is counted, a volume is kept, and
    /// a count that is complete begins again at zero.
    pub open spec fn received(self, message: TraktorMessage) -> TraktorBeat {
        TraktorBeat {
            count: if self.completes(message) {
                0
            } else {
                self.counted(message) as isize
            },
            last_volume: match message {
                TraktorMessage::Volume(volume) => volume as isize,
                _ => self.last_volume,
            },
        }
    }

    /// The state after a list of messages.
    pub open spec fn received_all(self, messages: Seq<TraktorMessage>) -> TraktorBeat
        decreases messages.len(),
    {
        if messages.len() == 0 {
            self
        } else {
            self.received_all(messages.drop_last()).received(messages.last())
        }
    }

    /// How many messages of a list complete a beat.
    pub open spec fn completed(self, messages: Seq<TraktorMessage>) -> nat
        decreases messages.len(),
    {
        if messages.len() == 0 {
            0
        } else {
            self.completed(messages.drop_last()) + if self.received_all(
                messages.drop_last(),
            ).completes(messages.last()) {
                1nat
            } else {
                0nat
            }
        }
    }
}

/// Takes the messages of the deck that came in one frame. Every message
/// that completes a beat becomes a beat event, unless beats are muted. The
/// events carry the count `beat_count` and no tempo.
pub fn traktor_beat_system(
    traktor_beat: &mut TraktorBeat,
    messages: &Vec<TraktorMessage>,
    beat_count: u64,
    beat_mute: &BeatMute,
) -> (events: Vec<BeatEvent>)
    requires
        old(traktor_beat).count < isize::MAX,
    ensures
        *final(traktor_beat) == old(traktor_beat).received_all(messages@),
        events@.len() == if beat_mute.mute {
            0
        } else {
            old(traktor_beat).completed(messages@)
        },
        forall|k: int|
            0 <= k < events@.len() ==> #[trigger] events@[k] == (BeatEvent {
                count: beat_count,
                bpm: None,
            }),
{
    let mute = beat_mute.mute;
    let mut events: Vec<BeatEvent> = Vec::new();
    let mut k: usize = 0;
    while k < messages.len()
        invariant
            k <= messages.len(),
            mute == beat_mute.mute,
            traktor_beat.count < isize::MAX,
            *traktor_beat == old(traktor_beat).received_all(messages@.take(k as int)),
            events@.len() == if mute {
                0
            } else {
                old(traktor_beat).completed(messages@.take(k as int))
            },
            forall|i: int|
                0 <= i < events@.len() ==> #[trigger] events@[i] == (BeatEvent {
                    count: beat_count,
                    bpm: None,
                }),
        decreases messages.len() - k,
    {
        proof {
            let next = messages@.take(k as int + 1);
            assert(next.drop_last() == messages@.take(k as int));
            assert(next.last() == messages@[k as int]);
        }
        match messages[k] {
            TraktorMessage::Beat => {
                traktor_beat.count += 1;
            },
            TraktorMessage::Volume(volume) => {
                traktor_beat.last_volume = volume as isize;
            },
            TraktorMessage::Other => {},
        }
        if traktor_beat.count >= TRAKTOR_TICKS_PER_BEAT {
            traktor_beat.count = 0;
            if !mute {
                events.push(BeatEvent { count: beat_count, bpm: None });
            }
        }
        k += 1;
    }
    proof {
        assert(messages@.take(messages.len() as int) == messages@);
    }
    events
}

/// Number of frames whose tempo the plot of the panel shows.
pub const BPM_PLOT_LENGTH: usize = 300;

/// The plot with one more entry at its end, and without its oldest entries
/// where it was full.
pub open spec fn plotted(plot: Seq<Option<u64>>, entry: Option<u64>) -> Seq<Option<u64>> {
    if plot.len() >= BPM_PLOT_LENGTH {
        plot.drop_first().push(entry)
    } else {
        plot.push(entry)
    }
}

/// Takes note of the tempo of the frame for the plot of the panel: the
/// estimate of this frame, or that there is none, joins the plot, from which
/// the oldest entry leaves where the plot is full.
pub fn beat_ui(bpm_data: &mut VecDeque<Option<u64>>, bpm_guesser: &BpmGuesser)
    ensures
        final(bpm_data)@ == plotted(old(bpm_data)@, tempo_shown(bpm_guesser.samples())),
{
    if bpm_data.len() >= BPM_PLOT_LENGTH {
        let _ = bpm_data.pop_front();
        assert(bpm_data@ == old(bpm_data)@.drop_first());
    }
    bpm_data.push_back(bpm_guesser.calculate_bpm());
}

/// The tempo of a history as `calculate_bpm` gives it.
pub open spec fn tempo_shown(samples: Seq<u64>) -> Option<u64> {
    match tempo(samples) {
        None => None,
        Some(exact) => Some(
            if exact > u64::MAX {
                u64::MAX
            } else {
                exact as u64
            },
        ),
    }
}

} // verus!
