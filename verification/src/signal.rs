//! Voice activity and bounded command capture over samples of any type.

use vstd::prelude::*;

verus! {

/// Binary voice-activity classification for one mono frame.
#[derive(Debug, Clone, Copy, PartialEq, Eq, Structural)]
pub enum VadDecision {
    /// Frame contains speech-like energy.
    Speech,
    /// Frame is treated as silence.
    Silence,
}

/// Replaceable synchronous VAD adapter used by the command collector.
pub trait VoiceActivityDetector<S>: Sized {
    /// What the detector takes a frame for, with the history it has.
    open spec fn decides(&self, frame: Seq<S>) -> VadDecision {
        arbitrary()
    }

    /// The detector with a frame added to its history.
    open spec fn heard(&self, frame: Seq<S>) -> Self {
        arbitrary()
    }

    /// The detector without its history.
    open spec fn forgetful(&self) -> Self {
        arbitrary()
    }

    /// Clears detector history between utterances.
    fn reset(&mut self)
        ensures
            *final(self) == old(self).forgetful(),
    ;

    /// Classifies one mono frame.
    fn process(&mut self, frame: &[S]) -> (decision: VadDecision)
        ensures
            decision == old(self).decides(frame@),
            *final(self) == old(self).heard(frame@),
    ;
}

/// The last `capacity` samples.
pub open spec fn last_samples<S>(samples: Seq<S>, capacity: nat) -> Seq<S> {
    if samples.len() > capacity {
        samples.skip(samples.len() - capacity)
    } else {
        samples
    }
}

/// The first `limit` samples.
pub open spec fn first_samples<S>(samples: Seq<S>, limit: nat) -> Seq<S> {
    if samples.len() > limit {
        samples.take(limit as int)
    } else {
        samples
    }
}

/// Fixed-capacity rolling mono sample buffer.
pub struct AudioRingBuffer<S> {
    samples: std::collections::VecDeque<S>,
    capacity: usize,
}

impl<S> View for AudioRingBuffer<S> {
    type V = Seq<S>;

    closed spec fn view(&self) -> Seq<S> {
        self.samples@
    }
}

impl<S> AudioRingBuffer<S> {
    #[verifier::type_invariant]
    spec fn bounded(self) -> bool {
        self.samples@.len() <= self.capacity
    }

    /// How many samples are retained at most.
    pub closed spec fn limit(self) -> nat {
        self.capacity as nat
    }
}

impl<S: Copy> AudioRingBuffer<S> {
    /// Creates a ring retaining at most `capacity` samples.
    pub fn new(capacity: usize) -> (ring: Self)
        ensures
            ring@ == Seq::<S>::empty(),
            ring.limit() == capacity,
    {
        AudioRingBuffer { samples: std::collections::VecDeque::new(), capacity }
    }

    /// Appends samples and evicts the oldest overflow.
    pub fn push(&mut self, input: &[S])
        ensures
            final(self)@ == last_samples(old(self)@ + input@, old(self).limit()),
            final(self).limit() == old(self).limit(),
    {
        proof {
            use_type_invariant(&*self);
        }
        let ghost before = self@;
        let capacity: usize = self.capacity;
        if capacity == 0 {
            assert(last_samples(before + input@, 0) =~= before);
            return ;
        }
        let mut samples: std::collections::VecDeque<S> = std::collections::VecDeque::new();
        std::mem::swap(&mut samples, &mut self.samples);
        let mut i: usize = 0;
        assert(before + input@.take(0) =~= before);
        while i < input.len()
            invariant
                0 <= i <= input@.len(),
                capacity > 0,
                samples@.len() <= capacity,
                samples@ == last_samples(before + input@.take(i as int), capacity as nat),
            decreases input@.len() - i,
        {
            let ghost shorter = before + input@.take(i as int);
            let ghost longer = before + input@.take(i + 1);
            assert(longer =~= shorter.push(input@[i as int]));
            if samples.len() == capacity {
                let _ = samples.pop_front();
            }
            samples.push_back(input[i]);
            assert(samples@ =~= last_samples(longer, capacity as nat));
            i = i + 1;
        }
        assert(input@.take(i as int) =~= input@);
        self.samples = samples;
    }

    /// Copies retained samples in chronological order.
    pub fn snapshot(&self) -> (copy: Vec<S>)
        ensures
            copy@ == self@,
    {
        let mut copy: Vec<S> = Vec::new();
        let mut i: usize = 0;
        while i < self.samples.len()
            invariant
                0 <= i <= self.samples@.len(),
                copy@ == self.samples@.take(i as int),
            decreases self.samples@.len() - i,
        {
            copy.push(self.samples[i]);
            assert(copy@ =~= self.samples@.take(i + 1));
            i = i + 1;
        }
        assert(copy@ =~= self.samples@);
        copy
    }
}

/// Pushing two blocks retains what pushing their concatenation retains.
pub proof fn ring_forgets_only_the_oldest<S>(held: Seq<S>, first: Seq<S>, second: Seq<S>, capacity: nat)
    ensures
        last_samples(last_samples(held + first, capacity) + second, capacity) == last_samples(
            held + (first + second),
            capacity,
        ),
        last_samples(held, capacity).len() <= capacity,
{
    let all = held + (first + second);
    assert(all =~= (held + first) + second);
    assert(last_samples(last_samples(held + first, capacity) + second, capacity) =~= last_samples(
        all,
        capacity,
    ));
}

/// Collects one utterance until silence or the hard sample limit.
pub struct CommandCollector<S> {
    samples: Vec<S>,
    min_samples: usize,
    max_samples: usize,
    trailing_silence_samples: usize,
    silence_samples: usize,
}

/// What a [`CommandCollector`] holds.
#[verifier::ext_equal]
pub struct CollectorView<S> {
    /// Samples so far.
    pub samples: Seq<S>,
    /// Fewest samples of a command.
    pub min_samples: nat,
    /// Most samples of a command.
    pub max_samples: nat,
    /// Samples of silence that end a command.
    pub trailing_silence_samples: nat,
    /// Samples of silence at the end so far.
    pub silence_samples: nat,
}

impl<S> View for CommandCollector<S> {
    type V = CollectorView<S>;

    closed spec fn view(&self) -> CollectorView<S> {
        CollectorView {
            samples: self.samples@,
            min_samples: self.min_samples as nat,
            max_samples: self.max_samples as nat,
            trailing_silence_samples: self.trailing_silence_samples as nat,
            silence_samples: self.silence_samples as nat,
        }
    }
}

/// A sum that stays within `usize`.
pub open spec fn saturated(value: nat) -> nat {
    if value > usize::MAX {
        usize::MAX as nat
    } else {
        value as nat
    }
}

impl<S> CollectorView<S> {
    /// A collector at its start, with the end of the pre-roll that fits.
    pub open spec fn started(
        pre_roll: Seq<S>,
        min_samples: nat,
        max_samples: nat,
        trailing_silence_samples: nat,
    ) -> Self {
        CollectorView {
            samples: last_samples(pre_roll, max_samples),
            min_samples,
            max_samples,
            trailing_silence_samples,
            silence_samples: 0,
        }
    }

    /// The collector with one more classified frame, as much of it as fits.
    pub open spec fn extended(self, frame: Seq<S>, decision: VadDecision) -> Self {
        let room = if self.max_samples > self.samples.len() {
            (self.max_samples - self.samples.len()) as nat
        } else {
            0
        };
        CollectorView {
            samples: self.samples + first_samples(frame, room),
            silence_samples: match decision {
                VadDecision::Speech => 0,
                VadDecision::Silence => saturated(self.silence_samples + frame.len()),
            },
            ..self
        }
    }

    /// Whether a command is complete.
    pub open spec fn complete(self) -> bool {
        ||| self.samples.len() >= self.max_samples
        ||| (self.samples.len() >= self.min_samples && self.silence_samples
            >= self.trailing_silence_samples)
    }

    /// The collector once its samples were handed out.
    pub open spec fn emptied(self) -> Self {
        CollectorView { samples: Seq::empty(), ..self }
    }

    /// Whether the samples stay within the limit.
    pub open spec fn within_limit(self) -> bool {
        self.samples.len() <= self.max_samples
    }
}

/// The length of a collected command never exceeds its limit.
pub proof fn collector_is_bounded<S>(collector: CollectorView<S>, frame: Seq<S>, decision: VadDecision)
    requires
        collector.within_limit(),
    ensures
        collector.extended(frame, decision).within_limit(),
        collector.emptied().within_limit(),
        CollectorView::started(
            frame,
            collector.min_samples,
            collector.max_samples,
            collector.trailing_silence_samples,
        ).within_limit(),
{
}

impl<S: Copy> CommandCollector<S> {
    /// Starts collection with pre-roll and bounded duration thresholds.
    pub fn start(
        pre_roll: Vec<S>,
        min_samples: usize,
        max_samples: usize,
        trailing_silence_samples: usize,
    ) -> (collector: Self)
        ensures
            collector@ == CollectorView::started(
                pre_roll@,
                min_samples as nat,
                max_samples as nat,
                trailing_silence_samples as nat,
            ),
    {
        let mut samples: Vec<S> = Vec::new();
        let first: usize = if pre_roll.len() > max_samples {
            pre_roll.len() - max_samples
        } else {
            0
        };
        let mut i: usize = first;
        while i < pre_roll.len()
            invariant
                first <= i <= pre_roll@.len(),
                samples@ == pre_roll@.subrange(first as int, i as int),
            decreases pre_roll@.len() - i,
        {
            samples.push(pre_roll[i]);
            assert(samples@ =~= pre_roll@.subrange(first as int, i + 1));
            i = i + 1;
        }
        assert(samples@ =~= last_samples(pre_roll@, max_samples as nat));
        CommandCollector {
            samples,
            min_samples,
            max_samples,
            trailing_silence_samples,
            silence_samples: 0,
        }
    }

    /// Appends one classified frame and returns completed audio when finished.
    pub fn push(&mut self, frame: &[S], decision: VadDecision) -> (completed: Option<Vec<S>>)
        ensures
            ({
                let extended = old(self)@.extended(frame@, decision);
                match completed {
                    Some(samples) => extended.complete() && samples@ == extended.samples
                        && final(self)@ == extended.emptied(),
                    None => !extended.complete() && final(self)@ == extended,
                }
            }),
            completed matches Some(samples) ==> samples@.len() >= old(self)@.max_samples || (
            samples@.len() >= old(self)@.min_samples && final(self)@.silence_samples
                >= old(self)@.trailing_silence_samples),
            completed is None ==> final(self)@.samples.len() < old(self)@.max_samples && (
            final(self)@.samples.len() < old(self)@.min_samples || final(self)@.silence_samples
                < old(self)@.trailing_silence_samples),
            decision is Speech ==> final(self)@.silence_samples == 0,
            decision is Silence && old(self)@.silence_samples + frame@.len() <= usize::MAX
                ==> final(self)@.silence_samples == old(self)@.silence_samples + frame@.len(),
    {
        let ghost before = self@;
        let room: usize = self.max_samples.saturating_sub(self.samples.len());
        let count: usize = if frame.len() < room {
            frame.len()
        } else {
            room
        };
        let ghost held = self.samples@;
        let mut i: usize = 0;
        assert(held + frame@.take(0) =~= held);
        while i < count
            invariant
                0 <= i <= count <= frame@.len(),
                self.samples@ == held + frame@.take(i as int),
                self.min_samples == old(self).min_samples,
                self.max_samples == old(self).max_samples,
                self.trailing_silence_samples == old(self).trailing_silence_samples,
                self.silence_samples == old(self).silence_samples,
            decreases count - i,
        {
            self.samples.push(frame[i]);
            assert(self.samples@ =~= held + frame@.take(i + 1));
            i = i + 1;
        }
        self.silence_samples = match decision {
            VadDecision::Speech => 0,
            VadDecision::Silence => self.silence_samples.saturating_add(frame.len()),
        };
        proof {
            assert(frame@.take(i as int) =~= first_samples(frame@, room as nat));
            assert(self@ =~= before.extended(frame@, decision));
        }
        if self.samples.len() >= self.max_samples || (self.samples.len() >= self.min_samples
            && self.silence_samples >= self.trailing_silence_samples) {
            let mut samples: Vec<S> = Vec::new();
            std::mem::swap(&mut samples, &mut self.samples);
            assert(self@ =~= before.extended(frame@, decision).emptied());
            Some(samples)
        } else {
            None
        }
    }

    /// Ends collection, discarding audio shorter than the minimum.
    pub fn finish(self) -> (kept: Option<Vec<S>>)
        ensures
            match kept {
                Some(samples) => self@.samples.len() >= self@.min_samples && samples@
                    == self@.samples,
                None => self@.samples.len() < self@.min_samples,
            },
    {
        if self.samples.len() >= self.min_samples {
            Some(self.samples)
        } else {
            None
        }
    }
}

/// Pure frame collector joining pre-roll, VAD and command-length policy.
pub struct CommandAudioPipeline<S, V> {
    ring: AudioRingBuffer<S>,
    collector: Option<CommandCollector<S>>,
    vad: V,
    pre_roll_samples: usize,
    min_samples: usize,
    max_samples: usize,
    trailing_silence_samples: usize,
}

/// What a [`CommandAudioPipeline`] holds besides its detector.
#[verifier::ext_equal]
pub struct PipelineView<S> {
    /// Audio retained before a command.
    pub ring: Seq<S>,
    /// The command in progress.
    pub collector: Option<CollectorView<S>>,
    /// Most samples retained before a command.
    pub pre_roll_samples: nat,
    /// Fewest samples of a command.
    pub min_samples: nat,
    /// Most samples of a command.
    pub max_samples: nat,
    /// Samples of silence that end a command.
    pub trailing_silence_samples: nat,
}

impl<S, V> View for CommandAudioPipeline<S, V> {
    type V = PipelineView<S>;

    closed spec fn view(&self) -> PipelineView<S> {
        PipelineView {
            ring: self.ring@,
            collector: match self.collector {
                Some(collector) => Some(collector@),
                None => None,
            },
            pre_roll_samples: self.pre_roll_samples as nat,
            min_samples: self.min_samples as nat,
            max_samples: self.max_samples as nat,
            trailing_silence_samples: self.trailing_silence_samples as nat,
        }
    }
}

impl<S> PipelineView<S> {
    /// The pipeline without pre-roll and capture.
    pub open spec fn cleared(self) -> Self {
        PipelineView { ring: Seq::empty(), collector: None, ..self }
    }

    /// The pipeline with a capture that starts from the given pre-roll.
    pub open spec fn capturing(self, pre_roll: Seq<S>) -> Self {
        PipelineView {
            collector: Some(
                CollectorView::started(
                    pre_roll,
                    self.min_samples,
                    self.max_samples,
                    self.trailing_silence_samples,
                ),
            ),
            ..self
        }
    }

    /// The pipeline after one frame while no capture is active.
    pub open spec fn listened(self, frame: Seq<S>, wake_word_detected: bool) -> Self {
        let heard = PipelineView {
            ring: last_samples(self.ring + frame, self.pre_roll_samples),
            ..self
        };
        if wake_word_detected {
            heard.capturing(heard.ring)
        } else {
            heard
        }
    }

    /// The pipeline after one classified frame of a capture, and the command where it completes.
    pub open spec fn captured(self, frame: Seq<S>, decision: VadDecision) -> (Self, Option<Seq<S>>) {
        let extended = self.collector->0.extended(frame, decision);
        if extended.complete() {
            (self.cleared(), Some(extended.samples))
        } else {
            (PipelineView { collector: Some(extended), ..self }, None)
        }
    }
}

/// Completed samples, by their view.
pub open spec fn samples_view<S>(samples: Option<Vec<S>>) -> Option<Seq<S>> {
    match samples {
        Some(samples) => Some(samples@),
        None => None,
    }
}

impl<S, V> CommandAudioPipeline<S, V> {
    /// Whether the pre-roll has its configured capacity.
    pub closed spec fn well_formed(self) -> bool {
        self.ring.limit() == self.pre_roll_samples
    }

    /// The detector with the history it has.
    pub closed spec fn detector(self) -> V {
        self.vad
    }
}

impl<S: Copy, V: VoiceActivityDetector<S>> CommandAudioPipeline<S, V> {
    /// Creates a bounded command collector from sample-count limits.
    pub fn new(
        vad: V,
        pre_roll_samples: usize,
        min_samples: usize,
        max_samples: usize,
        trailing_silence_samples: usize,
    ) -> (pipeline: Self)
        ensures
            pipeline.well_formed(),
            pipeline.detector() == vad,
            pipeline@ == (PipelineView {
                ring: Seq::<S>::empty(),
                collector: None,
                pre_roll_samples: pre_roll_samples as nat,
                min_samples: min_samples as nat,
                max_samples: max_samples as nat,
                trailing_silence_samples: trailing_silence_samples as nat,
            }),
    {
        CommandAudioPipeline {
            ring: AudioRingBuffer::new(pre_roll_samples),
            collector: None,
            vad,
            pre_roll_samples,
            min_samples,
            max_samples,
            trailing_silence_samples,
        }
    }

    /// Reports whether frames are currently being appended to a command.
    pub fn is_collecting(&self) -> (collecting: bool)
        ensures
            collecting == (self@.collector is Some),
    {
        self.collector.is_some()
    }

    /// Copies the audio retained before a command.
    pub fn pre_roll(&self) -> (copy: Vec<S>)
        ensures
            copy@ == self@.ring,
    {
        self.ring.snapshot()
    }

    /// Starts application-requested capture without wake-word pre-roll.
    pub fn start_manual(&mut self)
        requires
            old(self).well_formed(),
        ensures
            final(self).well_formed(),
            final(self)@ == if old(self)@.collector is Some {
                old(self)@
            } else {
                old(self)@.cleared().capturing(Seq::empty())
            },
            final(self).detector() == if old(self)@.collector is Some {
                old(self).detector()
            } else {
                old(self).detector().forgetful()
            },
    {
        if self.collector.is_none() {
            self.ring = AudioRingBuffer::new(self.pre_roll_samples);
            self.vad.reset();
            self.collector = Some(
                CommandCollector::start(
                    Vec::new(),
                    self.min_samples,
                    self.max_samples,
                    self.trailing_silence_samples,
                ),
            );
        }
    }

    /// Processes one frame and returns a completed command when policy stops capture. While a
    /// capture is active the detector classifies the frame; when it completes, the detector forgets
    /// what it heard.
    pub fn push(&mut self, frame: &[S], wake_word_detected: bool) -> (completed: Option<Vec<S>>)
        requires
            old(self).well_formed(),
        ensures
            final(self).well_formed(),
            old(self)@.collector is None ==> completed is None && final(self)@ == old(self)@.listened(
                frame@,
                wake_word_detected,
            ),
            old(self)@.collector is None ==> final(self).detector() == old(self).detector(),
            old(self)@.collector is Some ==> {
                &&& (final(self)@, samples_view(completed)) == old(self)@.captured(
                    frame@,
                    old(self).detector().decides(frame@),
                )
                &&& final(self).detector() == if completed is Some {
                    old(self).detector().heard(frame@).forgetful()
                } else {
                    old(self).detector().heard(frame@)
                }
            },
    {
        let decision = if self.collector.is_some() {
            self.vad.process(frame)
        } else {
            VadDecision::Silence
        };
        self.push_classified(frame, decision, wake_word_detected)
    }

    /// Processes one frame whose classification is known; outside a capture the classification
    /// does not matter.
    pub fn push_classified(
        &mut self,
        frame: &[S],
        decision: VadDecision,
        wake_word_detected: bool,
    ) -> (completed: Option<Vec<S>>)
        requires
            old(self).well_formed(),
        ensures
            final(self).well_formed(),
            old(self)@.collector is None ==> completed is None && final(self)@ == old(self)@.listened(
                frame@,
                wake_word_detected,
            ),
            old(self)@.collector is Some ==> (final(self)@, samples_view(completed)) == old(
                self,
            )@.captured(frame@, decision),
            final(self).detector() == if completed is Some {
                old(self).detector().forgetful()
            } else {
                old(self).detector()
            },
    {
        match self.collector.take() {
            Some(collector) => {
                let mut collector = collector;
                let completed = collector.push(frame, decision);
                if completed.is_some() {
                    self.reset();
                } else {
                    self.collector = Some(collector);
                }
                completed
            },
            None => {
                self.ring.push(frame);
                if wake_word_detected {
                    self.collector = Some(
                        CommandCollector::start(
                            self.ring.snapshot(),
                            self.min_samples,
                            self.max_samples,
                            self.trailing_silence_samples,
                        ),
                    );
                }
                None
            },
        }
    }

    /// Finishes an active manual capture, discarding audio shorter than the minimum.
    pub fn finish(&mut self) -> (kept: Option<Vec<S>>)
        requires
            old(self).well_formed(),
        ensures
            final(self).well_formed(),
            final(self)@ == old(self)@.cleared(),
            final(self).detector() == old(self).detector().forgetful(),
            samples_view(kept) == match old(self)@.collector {
                Some(collector) => if collector.samples.len() >= collector.min_samples {
                    Some(collector.samples)
                } else {
                    None
                },
                None => None,
            },
    {
        let kept = match self.collector.take() {
            Some(collector) => collector.finish(),
            None => None,
        };
        self.reset();
        kept
    }

    /// Clears pre-roll, active capture and detector state.
    pub fn reset(&mut self)
        ensures
            final(self).well_formed(),
            final(self)@ == old(self)@.cleared(),
            final(self).detector() == old(self).detector().forgetful(),
    {
        self.collector = None;
        self.ring = AudioRingBuffer::new(self.pre_roll_samples);
        self.vad.reset();
    }
}

/// A collector after classified frames, none of which completed a command.
pub open spec fn collected<S>(start: CollectorView<S>, frames: Seq<(Seq<S>, VadDecision)>) -> CollectorView<
    S,
>
    decreases frames.len(),
{
    if frames.len() == 0 {
        start
    } else {
        collected(start, frames.drop_last()).extended(frames.last().0, frames.last().1)
    }
}

/// The samples of frames, one frame behind the other.
pub open spec fn sounds<S>(frames: Seq<(Seq<S>, VadDecision)>) -> Seq<S>
    decreases frames.len(),
{
    if frames.len() == 0 {
        Seq::empty()
    } else {
        sounds(frames.drop_last()) + frames.last().0
    }
}

proof fn collecting_keeps_limits<S>(start: CollectorView<S>, frames: Seq<(Seq<S>, VadDecision)>)
    ensures
        collected(start, frames).min_samples == start.min_samples,
        collected(start, frames).max_samples == start.max_samples,
        collected(start, frames).trailing_silence_samples == start.trailing_silence_samples,
    decreases frames.len(),
{
    if frames.len() > 0 {
        collecting_keeps_limits(start, frames.drop_last());
    }
}

/// Trailing silence is contiguous: what counts as silence are the samples of the frames since the
/// last one that held speech, however much silence there was before it.
pub proof fn silence_counts_since_the_last_speech<S>(
    start: CollectorView<S>,
    frames: Seq<(Seq<S>, VadDecision)>,
    last: int,
)
    requires
        0 <= last < frames.len(),
        frames[last].1 == VadDecision::Speech,
        forall|i: int| last < i < frames.len() ==> (#[trigger] frames[i]).1 == VadDecision::Silence,
        sounds(frames.skip(last + 1)).len() <= usize::MAX,
    ensures
        collected(start, frames).silence_samples == sounds(frames.skip(last + 1)).len(),
    decreases frames.len(),
{
    let earlier = frames.drop_last();
    if last == frames.len() - 1 {
        assert(frames.skip(last + 1) =~= Seq::empty());
    } else {
        assert(frames.skip(last + 1).drop_last() =~= earlier.skip(last + 1));
        assert(frames.skip(last + 1).last() == frames.last());
        assert(frames[frames.len() - 1].1 == VadDecision::Silence);
        assert(earlier[last].1 == VadDecision::Speech);
        assert forall|i: int| last < i < earlier.len() implies (#[trigger] earlier[i]).1
            == VadDecision::Silence by {
            assert(earlier[i] == frames[i]);
        }
        silence_counts_since_the_last_speech(start, earlier, last);
    }
}

/// Without any speech, all samples since the start of a capture count as silence.
pub proof fn silence_counts_since_the_start<S>(
    pre_roll: Seq<S>,
    min_samples: nat,
    max_samples: nat,
    trailing_silence_samples: nat,
    frames: Seq<(Seq<S>, VadDecision)>,
)
    requires
        forall|i: int| 0 <= i < frames.len() ==> (#[trigger] frames[i]).1 == VadDecision::Silence,
        sounds(frames).len() <= usize::MAX,
    ensures
        collected(
            CollectorView::started(pre_roll, min_samples, max_samples, trailing_silence_samples),
            frames,
        ).silence_samples == sounds(frames).len(),
    decreases frames.len(),
{
    if frames.len() > 0 {
        let earlier = frames.drop_last();
        assert(frames[frames.len() - 1].1 == VadDecision::Silence);
        assert forall|i: int| 0 <= i < earlier.len() implies (#[trigger] earlier[i]).1
            == VadDecision::Silence by {
            assert(earlier[i] == frames[i]);
        }
        silence_counts_since_the_start(
            pre_roll,
            min_samples,
            max_samples,
            trailing_silence_samples,
            earlier,
        );
    }
}

/// An utterance is what was heard, in order and without gaps: the end of the pre-roll that fits,
/// then the frames, up to the limit.
pub proof fn utterances_hold_what_was_heard<S>(
    pre_roll: Seq<S>,
    min_samples: nat,
    max_samples: nat,
    trailing_silence_samples: nat,
    frames: Seq<(Seq<S>, VadDecision)>,
)
    ensures
        ({
            let start = CollectorView::started(
                pre_roll,
                min_samples,
                max_samples,
                trailing_silence_samples,
            );
            let kept = if pre_roll.len() > max_samples {
                pre_roll.skip(pre_roll.len() - max_samples)
            } else {
                pre_roll
            };
            let heard = kept + sounds(frames);
            collected(start, frames).samples == if heard.len() > max_samples {
                heard.take(max_samples as int)
            } else {
                heard
            }
        }),
    decreases frames.len(),
{
    let start = CollectorView::started(
        pre_roll,
        min_samples,
        max_samples,
        trailing_silence_samples,
    );
    let kept = if pre_roll.len() > max_samples {
        pre_roll.skip(pre_roll.len() - max_samples)
    } else {
        pre_roll
    };
    if frames.len() == 0 {
        assert(kept + sounds(frames) =~= kept);
    } else {
        utterances_hold_what_was_heard(
            pre_roll,
            min_samples,
            max_samples,
            trailing_silence_samples,
            frames.drop_last(),
        );
        collecting_keeps_limits(start, frames.drop_last());
        let before = kept + sounds(frames.drop_last());
        let heard = kept + sounds(frames);
        assert(heard =~= before + frames.last().0);
        assert(collected(start, frames).samples =~= if heard.len() > max_samples {
            heard.take(max_samples as int)
        } else {
            heard
        });
    }
}

/// A command completes exactly when it is as long as it may get, or long enough with the trailing
/// silence behind it.
pub proof fn commands_complete_by_length_or_silence<S>(collector: CollectorView<S>)
    ensures
        collector.samples.len() >= collector.max_samples ==> collector.complete(),
        collector.samples.len() >= collector.min_samples && collector.silence_samples
            >= collector.trailing_silence_samples ==> collector.complete(),
        collector.samples.len() < collector.max_samples && collector.samples.len()
            < collector.min_samples ==> !collector.complete(),
        collector.samples.len() < collector.max_samples && collector.silence_samples
            < collector.trailing_silence_samples ==> !collector.complete(),
{
}

/// A ring retains the newest samples, as many as fit, in order.
pub proof fn rings_retain_the_newest<S>(heard: Seq<S>, capacity: nat, i: int)
    ensures
        last_samples(heard, capacity).len() == if heard.len() < capacity {
            heard.len()
        } else {
            capacity
        },
        0 <= i < last_samples(heard, capacity).len() ==> last_samples(heard, capacity)[i]
            == heard[heard.len() - last_samples(heard, capacity).len() + i],
{
}

/// A pipeline collects a command from its wake word on: the capture begins with the retained audio,
/// the frame of the wake word included. Without a wake word nothing is collected.
pub proof fn captures_begin_with_their_pre_roll<S>(pipeline: PipelineView<S>, frame: Seq<S>)
    requires
        pipeline.collector is None,
    ensures
        pipeline.listened(frame, false).collector is None,
        ({
            let heard = pipeline.ring + frame;
            let retained = if heard.len() > pipeline.pre_roll_samples {
                heard.skip(heard.len() - pipeline.pre_roll_samples)
            } else {
                heard
            };
            &&& pipeline.listened(frame, false).ring == retained
            &&& pipeline.listened(frame, true).collector matches Some(collector)
            &&& collector.samples == if retained.len() > pipeline.max_samples {
                retained.skip(retained.len() - pipeline.max_samples)
            } else {
                retained
            }
            &&& collector.silence_samples == 0
            &&& collector.min_samples == pipeline.min_samples
            &&& collector.max_samples == pipeline.max_samples
            &&& collector.trailing_silence_samples == pipeline.trailing_silence_samples
        }),
{
}

/// A capture ends with its command and leaves nothing behind; until then it holds all its samples.
pub proof fn captures_end_with_their_command<S>(
    pipeline: PipelineView<S>,
    frame: Seq<S>,
    decision: VadDecision,
)
    requires
        pipeline.collector matches Some(collector) && collector.samples.len() + frame.len()
            <= collector.max_samples && collector.silence_samples + frame.len() <= usize::MAX,
    ensures
        ({
            let collector = pipeline.collector->0;
            let (later, completed) = pipeline.captured(frame, decision);
            let silence = if decision == VadDecision::Speech {
                0
            } else {
                collector.silence_samples + frame.len()
            };
            let length = collector.samples.len() + frame.len();
            &&& completed is Some <==> length == collector.max_samples || (length
                >= collector.min_samples && silence >= collector.trailing_silence_samples)
            &&& completed matches Some(samples) ==> samples == collector.samples + frame
                && later.collector is None && later.ring == Seq::<S>::empty()
            &&& completed is None ==> later.ring == pipeline.ring && (later.collector matches Some(
                next,
            ) && next.samples == collector.samples + frame && next.silence_samples == silence)
            &&& later.pre_roll_samples == pipeline.pre_roll_samples
            &&& later.min_samples == pipeline.min_samples
            &&& later.max_samples == pipeline.max_samples
            &&& later.trailing_silence_samples == pipeline.trailing_silence_samples
        }),
{
    assert(first_samples(frame, frame.len()) =~= frame);
}

} // verus!
