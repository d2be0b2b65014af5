//! The supervised speech recognizer around its native engine: what it accepts, how it loads, which
//! stream is active and when it is restarted.

use crate::domain::{result_view, CoreError, ErrorView, Transcript, TranscriptionRequest};
use crate::float32::{Real32, ONE_BITS};
use vstd::arithmetic::power2::{lemma2_to64, lemma_pow2_pos, lemma_pow2_strictly_increases, lemma_pow2_unfold, pow2};
use vstd::prelude::*;

verus! {

/// Most native inference threads chosen automatically.
pub const MAX_AUTOMATIC_THREADS: usize = 64;

/// How often a restart delay is doubled at most.
pub const MAX_DOUBLINGS: u32 = 10;

/// Resolves zero to the host parallelism, where that is known, while retaining an explicit
/// calibration knob.
pub fn effective_threads(configured: i32, parallelism: Option<usize>) -> (threads: i32)
    requires
        parallelism matches Some(available) ==> available > 0,
    ensures
        threads > 0,
        configured > 0 ==> threads == configured,
        configured <= 0 ==> threads == match parallelism {
            Some(available) => if available > MAX_AUTOMATIC_THREADS {
                MAX_AUTOMATIC_THREADS as int
            } else {
                available as int
            },
            None => 1,
        },
{
    if configured > 0 {
        return configured;
    }
    match parallelism {
        Some(available) => if available > MAX_AUTOMATIC_THREADS {
            MAX_AUTOMATIC_THREADS as i32
        } else {
            available as i32
        },
        None => 1,
    }
}

/// How often the delay before a restart was doubled.
pub open spec fn doublings(attempt: u32) -> nat {
    if attempt == 0 {
        0
    } else if attempt - 1 > MAX_DOUBLINGS {
        MAX_DOUBLINGS as nat
    } else {
        (attempt - 1) as nat
    }
}

/// The delay before a restart: the initial one, doubled with each attempt but the first, ten
/// times at most, and within sixty-four bits.
pub open spec fn backoff(initial_ms: u64, attempt: u32) -> u64 {
    let exact = initial_ms * pow2(doublings(attempt));
    if exact > u64::MAX {
        u64::MAX
    } else {
        exact as u64
    }
}

/// Computes the delay before a restart in milliseconds.
pub fn restart_delay(initial_ms: u64, attempt: u32) -> (delay_ms: u64)
    ensures
        delay_ms == backoff(initial_ms, attempt),
{
    let previous: u32 = attempt.saturating_sub(1);
    let times: u32 = if previous > MAX_DOUBLINGS {
        MAX_DOUBLINGS
    } else {
        previous
    };
    let mut delay: u64 = initial_ms;
    let mut i: u32 = 0;
    proof {
        lemma2_to64();
    }
    while i < times
        invariant
            i <= times <= MAX_DOUBLINGS,
            times == doublings(attempt),
            initial_ms * pow2(i as nat) <= u64::MAX ==> delay == initial_ms * pow2(i as nat),
            initial_ms * pow2(i as nat) > u64::MAX ==> delay == u64::MAX,
        decreases times - i,
    {
        let ghost power = pow2(i as nat);
        let ghost exact = initial_ms * power;
        proof {
            lemma_pow2_unfold((i + 1) as nat);
            lemma_pow2_pos(i as nat);
            assert(initial_ms * (2 * power) == 2 * (initial_ms * power)) by (nonlinear_arith);
            assert(initial_ms * power >= 0) by (nonlinear_arith);
        }
        delay = delay.saturating_add(delay);
        i = i + 1;
    }
    delay
}

/// Restart delays never shrink from one attempt to the next, and stay within 1024 times the
/// initial one.
pub proof fn backoff_is_bounded(initial_ms: u64, attempt: u32)
    requires
        attempt < u32::MAX,
    ensures
        backoff(initial_ms, attempt) <= backoff(initial_ms, (attempt + 1) as u32),
        initial_ms <= backoff(initial_ms, attempt) <= 1_024 * initial_ms,
{
    lemma2_to64();
    let power = pow2(doublings(attempt));
    let next = pow2(doublings((attempt + 1) as u32));
    lemma_pow2_pos(doublings(attempt));
    if doublings(attempt) < doublings((attempt + 1) as u32) {
        lemma_pow2_strictly_increases(doublings(attempt), doublings((attempt + 1) as u32));
    }
    if doublings(attempt) < 10 {
        lemma_pow2_strictly_increases(doublings(attempt), 10);
    }
    assert(initial_ms * power <= initial_ms * next) by (nonlinear_arith)
        requires
            power <= next,
    ;
    assert(initial_ms <= initial_ms * power <= 1_024 * initial_ms) by (nonlinear_arith)
        requires
            1 <= power <= 1_024,
    ;
}

/// How often a worker may still be restarted.
#[derive(Debug, Clone, Copy, PartialEq, Eq, Structural)]
pub struct RestartBudget {
    /// Restarts so far.
    pub restarts: u32,
    /// Restarts at most.
    pub max_restarts: u32,
    /// Delay before the first restart.
    pub backoff_ms: u64,
}

/// How often and how soon a recognizer is restarted.
#[derive(Debug, Clone, Copy, PartialEq, Eq, Structural)]
pub struct RestartLimits {
    /// Restarts at most.
    pub max_restarts: u32,
    /// Delay before the first restart.
    pub backoff_ms: u64,
}

impl RestartBudget {
    /// Takes other limits; restarts that were used stay used.
    pub fn limit(&mut self, limits: RestartLimits)
        ensures
            *final(self) == (RestartBudget {
                restarts: old(self).restarts,
                max_restarts: limits.max_restarts,
                backoff_ms: limits.backoff_ms,
            }),
    {
        self.max_restarts = limits.max_restarts;
        self.backoff_ms = limits.backoff_ms;
    }

    /// A budget of which nothing was used.
    pub fn new(max_restarts: u32, backoff_ms: u64) -> (budget: Self)
        ensures
            budget == (RestartBudget { restarts: 0, max_restarts, backoff_ms }),
    {
        RestartBudget { restarts: 0, max_restarts, backoff_ms }
    }

    /// Takes one restart out of the budget and gives the delay before it.
    pub fn take_restart(&mut self) -> (delay_ms: Result<u64, CoreError>)
        ensures
            match delay_ms {
                Ok(delay) => {
                    &&& old(self).restarts < old(self).max_restarts
                    &&& *final(self) == RestartBudget {
                        restarts: (old(self).restarts + 1) as u32,
                        ..*old(self)
                    }
                    &&& delay == backoff(old(self).backoff_ms, final(self).restarts)
                },
                Err(error) => {
                    &&& old(self).restarts >= old(self).max_restarts
                    &&& *final(self) == *old(self)
                    &&& error@ == ErrorView::Unavailable("STT restart budget exhausted"@)
                },
            },
    {
        if self.restarts >= self.max_restarts {
            return Err(CoreError::Unavailable("STT restart budget exhausted".to_owned()));
        }
        self.restarts = self.restarts + 1;
        Ok(restart_delay(self.backoff_ms, self.restarts))
    }
}

/// The files that the native engine reads, in the order in which they are looked for.
pub open spec fn engine_files() -> Seq<Seq<char>> {
    seq![
        "am-onnx/encoder.int8.onnx"@,
        "am-onnx/decoder.int8.onnx"@,
        "am-onnx/joiner.int8.onnx"@,
        "lang/tokens.txt"@,
    ]
}

/// Lists the files that the native engine reads.
pub fn required_files() -> (files: Vec<&'static str>)
    ensures
        files@.len() == engine_files().len(),
        forall|i: int| 0 <= i < files@.len() ==> #[trigger] files@[i]@ == engine_files()[i],
{
    vec![
        "am-onnx/encoder.int8.onnx",
        "am-onnx/decoder.int8.onnx",
        "am-onnx/joiner.int8.onnx",
        "lang/tokens.txt",
    ]
}

/// The first of the required files that is not there.
pub open spec fn first_missing(files: Seq<Seq<char>>, present: Seq<bool>) -> Option<Seq<char>>
    recommends
        files.len() == present.len(),
    decreases files.len(),
{
    if files.len() == 0 {
        None
    } else if !present[0] {
        Some(files[0])
    } else {
        first_missing(files.skip(1), present.skip(1))
    }
}

/// Why a model cannot be loaded.
pub open spec fn model_error(files: Seq<Seq<char>>, present: Seq<bool>, queue_capacity: usize) -> Option<ErrorView> {
    match first_missing(files, present) {
        Some(file) => Some(ErrorView::Recognition("model file is missing: "@ + file)),
        None => if queue_capacity == 0 {
            Some(ErrorView::Recognition("STT queue capacity must be greater than zero"@))
        } else {
            None
        },
    }
}

/// Checks which files of a model are there, and that requests can be queued.
pub fn validate_model(files: &Vec<&str>, present: &Vec<bool>, queue_capacity: usize) -> (result: Result<
    (),
    CoreError,
>)
    requires
        files@.len() == present@.len(),
    ensures
        result_view(result) == match model_error(
            Seq::new(files@.len(), |i: int| files@[i]@),
            present@,
            queue_capacity,
        ) {
            Some(error) => Err(error),
            None => Ok(()),
        },
{
    let ghost names = Seq::new(files@.len(), |i: int| files@[i]@);
    let mut i: usize = 0;
    assert(names.skip(0) =~= names);
    assert(present@.skip(0) =~= present@);
    while i < files.len()
        invariant
            0 <= i <= files@.len() == present@.len(),
            names == Seq::new(files@.len(), |i: int| files@[i]@),
            first_missing(names, present@) == first_missing(
                names.skip(i as int),
                present@.skip(i as int),
            ),
        decreases files@.len() - i,
    {
        if !present[i] {
            let mut message = "model file is missing: ".to_owned();
            message.append(files[i]);
            return Err(CoreError::Recognition(message));
        }
        proof {
            assert(names.skip(i as int).skip(1) =~= names.skip(i + 1));
            assert(present@.skip(i as int).skip(1) =~= present@.skip(i + 1));
        }
        i = i + 1;
    }
    if queue_capacity == 0 {
        return Err(
            CoreError::Recognition("STT queue capacity must be greater than zero".to_owned()),
        );
    }
    Ok(())
}

/// Whether every sample is a finite number.
pub open spec fn all_finite(samples: Seq<Real32>) -> bool {
    forall|i: int| 0 <= i < samples.len() ==> #[trigger] samples[i].finite()
}

/// Tells whether every sample is a finite number.
fn are_finite(samples: &Vec<Real32>) -> (answer: bool)
    ensures
        answer == all_finite(samples@),
{
    let mut i: usize = 0;
    while i < samples.len()
        invariant
            0 <= i <= samples@.len(),
            forall|j: int| 0 <= j < i ==> #[trigger] samples@[j].finite(),
        decreases samples@.len() - i,
    {
        if !samples[i].is_finite() {
            assert(!samples@[i as int].finite());
            return false;
        }
        i = i + 1;
    }
    true
}

/// Checks audio before it is queued.
pub fn validate_request(request: &TranscriptionRequest<Real32>) -> (result: Result<(), CoreError>)
    ensures
        result is Ok <==> request.sample_rate > 0 && request.samples@.len() > 0 && forall|i: int|
            0 <= i < request.samples@.len() ==> #[trigger] request.samples@[i].finite(),
        result_view(result) == if request.sample_rate > 0 && request.samples@.len() > 0
            && all_finite(request.samples@) {
            Ok::<(), ErrorView>(())
        } else {
            Err(
                ErrorView::Recognition(
                    "audio must contain finite samples at a non-zero sample rate"@,
                ),
            )
        },
{
    if request.sample_rate == 0 || request.samples.len() == 0 || !are_finite(&request.samples) {
        return Err(
            CoreError::Recognition(
                "audio must contain finite samples at a non-zero sample rate".to_owned(),
            ),
        );
    }
    Ok(())
}

/// Checks the sample rate of a stream before it is begun.
pub fn validate_stream_rate(sample_rate: u32) -> (result: Result<(), CoreError>)
    ensures
        result_view(result) == if sample_rate > 0 {
            Ok::<(), ErrorView>(())
        } else {
            Err(ErrorView::Recognition("sample rate must be non-zero"@))
        },
{
    if sample_rate == 0 {
        return Err(CoreError::Recognition("sample rate must be non-zero".to_owned()));
    }
    Ok(())
}

/// Checks a chunk of a stream before it is queued.
pub fn validate_chunk(samples: &Vec<Real32>) -> (result: Result<(), CoreError>)
    ensures
        result is Ok <==> samples@.len() > 0 && forall|i: int|
            0 <= i < samples@.len() ==> #[trigger] samples@[i].finite(),
        result_view(result) == if samples@.len() > 0 && all_finite(samples@) {
            Ok::<(), ErrorView>(())
        } else {
            Err(ErrorView::Recognition("stream chunk must contain finite samples"@))
        },
{
    if samples.len() == 0 || !are_finite(samples) {
        return Err(CoreError::Recognition("stream chunk must contain finite samples".to_owned()));
    }
    Ok(())
}

/// Gives a sample rate to the engine, which counts with signed numbers.
pub fn engine_rate(sample_rate: u32) -> (rate: Result<i32, CoreError>)
    ensures
        match rate {
            Ok(rate) => rate == sample_rate,
            Err(error) => sample_rate > i32::MAX && error@ == ErrorView::Recognition(
                "sample rate is too large"@,
            ),
        },
{
    if sample_rate > i32::MAX as u32 {
        return Err(CoreError::Recognition("sample rate is too large".to_owned()));
    }
    Ok(sample_rate as i32)
}

/// How many samples of a whole utterance the engine gets at once: a fiftieth of a second, and
/// at least one.
pub fn batch_chunk_len(sample_rate: u32) -> (samples: usize)
    ensures
        samples == if sample_rate / 50 == 0 {
            1
        } else {
            sample_rate as int / 50
        },
{
    let samples: u32 = sample_rate / 50;
    if samples == 0 {
        1
    } else {
        samples as usize
    }
}

/// The incremental stream of a worker, by its sample rate.
#[derive(Debug, Clone, Copy, PartialEq, Eq, Structural)]
pub struct WorkerStream {
    /// The sample rate of the active stream.
    pub rate: Option<i32>,
}

/// The failure of a job that needs an active stream.
pub open spec fn no_stream() -> ErrorView {
    ErrorView::Recognition("no STT stream is active"@)
}

impl WorkerStream {
    /// A worker without a stream.
    pub fn new() -> (stream: Self)
        ensures
            stream.rate is None,
    {
        WorkerStream { rate: None }
    }

    /// Begins a stream in place of any other; a rate that the engine cannot count keeps the
    /// stream there was.
    pub fn begin(&mut self, sample_rate: u32) -> (rate: Result<i32, CoreError>)
        ensures
            match rate {
                Ok(rate) => rate == sample_rate && final(self).rate == Some(rate),
                Err(error) => sample_rate > i32::MAX && *final(self) == *old(self) && error@
                    == ErrorView::Recognition("sample rate is too large"@),
            },
    {
        let rate: i32 = engine_rate(sample_rate)?;
        self.rate = Some(rate);
        Ok(rate)
    }

    /// The rate of the active stream, for samples that continue it.
    pub fn push(&self) -> (rate: Result<i32, CoreError>)
        ensures
            match rate {
                Ok(rate) => self.rate == Some(rate),
                Err(error) => self.rate is None && error@ == no_stream(),
            },
    {
        match self.rate {
            Some(rate) => Ok(rate),
            None => Err(CoreError::Recognition("no STT stream is active".to_owned())),
        }
    }

    /// Ends the active stream.
    pub fn finish(&mut self) -> (rate: Result<i32, CoreError>)
        ensures
            final(self).rate is None,
            match rate {
                Ok(rate) => old(self).rate == Some(rate),
                Err(error) => old(self).rate is None && error@ == no_stream(),
            },
    {
        let rate = self.push();
        self.rate = None;
        rate
    }
}

/// A stage of loading the engine.
#[derive(Debug, Clone, Copy, PartialEq, Eq, Structural)]
pub enum LoadStage {
    /// A worker is being started.
    Scheduled,
    /// The model is looked at.
    Validating,
    /// The engine reads the model.
    Initializing,
    /// The engine recognizes silence.
    Warming,
    /// The engine takes requests.
    Ready,
}

impl LoadStage {
    /// The coarse percentage of a stage.
    pub open spec fn percent(self) -> u8 {
        match self {
            LoadStage::Scheduled => 5,
            LoadStage::Validating => 20,
            LoadStage::Initializing => 50,
            LoadStage::Warming => 75,
            LoadStage::Ready => 100,
        }
    }

    /// The user-visible name of a stage.
    pub open spec fn label(self) -> Seq<char> {
        match self {
            LoadStage::Scheduled => "scheduling STT load"@,
            LoadStage::Validating => "validating model"@,
            LoadStage::Initializing => "initializing STT engine"@,
            LoadStage::Warming => "warming STT engine"@,
            LoadStage::Ready => "STT engine ready"@,
        }
    }

    /// The stage that follows.
    pub open spec fn following(self) -> Option<LoadStage> {
        match self {
            LoadStage::Scheduled => Some(LoadStage::Validating),
            LoadStage::Validating => Some(LoadStage::Initializing),
            LoadStage::Initializing => Some(LoadStage::Warming),
            LoadStage::Warming => Some(LoadStage::Ready),
            LoadStage::Ready => None,
        }
    }

    /// The coarse percentage of a stage.
    pub fn progress(self) -> (percent: u8)
        ensures
            percent == self.percent(),
    {
        match self {
            LoadStage::Scheduled => 5,
            LoadStage::Validating => 20,
            LoadStage::Initializing => 50,
            LoadStage::Warming => 75,
            LoadStage::Ready => 100,
        }
    }

    /// The user-visible name of a stage.
    pub fn name(self) -> (name: &'static str)
        ensures
            name@ == self.label(),
    {
        match self {
            LoadStage::Scheduled => "scheduling STT load",
            LoadStage::Validating => "validating model",
            LoadStage::Initializing => "initializing STT engine",
            LoadStage::Warming => "warming STT engine",
            LoadStage::Ready => "STT engine ready",
        }
    }

    /// The stage after the work of this one is done. A cancellation takes effect after the model
    /// was looked at and after the engine was warmed.
    pub fn advance(self, cancelled: bool) -> (next: Result<Option<LoadStage>, String>)
        ensures
            match next {
                Ok(next) => !(cancelled && (self is Validating || self is Warming)) && next
                    == self.following(),
                Err(message) => cancelled && (self is Validating || self is Warming) && message@
                    == "STT loading cancelled"@,
            },
    {
        match self {
            LoadStage::Scheduled => Ok(Some(LoadStage::Validating)),
            LoadStage::Validating => if cancelled {
                Err("STT loading cancelled".to_owned())
            } else {
                Ok(Some(LoadStage::Initializing))
            },
            LoadStage::Initializing => Ok(Some(LoadStage::Warming)),
            LoadStage::Warming => if cancelled {
                Err("STT loading cancelled".to_owned())
            } else {
                Ok(Some(LoadStage::Ready))
            },
            LoadStage::Ready => Ok(None),
        }
    }
}

/// Progress grows from stage to stage and ends at one hundred.
pub proof fn progress_grows(stage: LoadStage)
    ensures
        match stage.following() {
            Some(next) => stage.percent() < next.percent() <= 100,
            None => stage.percent() == 100,
        },
{
}

/// Recognizer that gives one text for every request.
#[derive(Debug, Clone, PartialEq, Eq)]
pub struct MockRecognizer {
    /// Text returned for every request.
    pub text: String,
}

impl MockRecognizer {
    /// Answers a request with the text and full confidence.
    pub fn transcribe<S>(&self, _request: &TranscriptionRequest<S>) -> (result: Result<
        Transcript,
        CoreError,
    >)
        ensures
            result matches Ok(transcript) && transcript.text@ == self.text@ && transcript.confidence
                == Some(Real32 { bits: ONE_BITS }),
    {
        Ok(
            Transcript {
                text: self.text.clone(),
                confidence: Some(Real32::from_bits(ONE_BITS)),
            },
        )
    }
}

/// Recognizer used while an application is installing or repairing its model.
#[derive(Debug, Clone, PartialEq, Eq)]
pub struct UnavailableRecognizer {
    /// Diagnostic reason returned for every request.
    pub message: String,
}

impl UnavailableRecognizer {
    /// Refuses a request with the reason.
    pub fn transcribe<S>(&self, _request: &TranscriptionRequest<S>) -> (result: Result<
        Transcript,
        CoreError,
    >)
        ensures
            result matches Err(error) && error@ == ErrorView::Unavailable(self.message@),
    {
        Err(CoreError::Unavailable(self.message.clone()))
    }
}

/// The delay before the first restart is the initial one; each further restart waits twice as long, the
/// eleventh and all later ones equally long.
pub proof fn restart_delays_double(initial_ms: u64, attempt: u32)
    ensures
        attempt <= 1 ==> backoff(initial_ms, attempt) == initial_ms,
        1 <= attempt <= 10 && 2 * backoff(initial_ms, attempt) <= u64::MAX ==> backoff(
            initial_ms,
            (attempt + 1) as u32,
        ) == 2 * backoff(initial_ms, attempt),
        attempt >= 11 ==> backoff(initial_ms, attempt) == backoff(initial_ms, 11),
{
    lemma2_to64();
    if attempt <= 1 {
        assert(doublings(attempt) == 0);
        assert(initial_ms * pow2(0) == initial_ms);
    }
    if 1 <= attempt <= 10 {
        let power = pow2(doublings(attempt));
        lemma_pow2_unfold(doublings((attempt + 1) as u32));
        lemma_pow2_pos(doublings(attempt));
        assert(initial_ms * (2 * power) == 2 * (initial_ms * power)) by (nonlinear_arith);
    }
}

/// A model can be loaded exactly if all its files are there and requests can be queued; what is missing
/// is told by the first file that is.
pub proof fn models_need_all_their_files(files: Seq<Seq<char>>, present: Seq<bool>, queue_capacity: usize)
    requires
        files.len() == present.len(),
    ensures
        model_error(files, present, queue_capacity) is None <==> queue_capacity > 0 && forall|i: int|
            0 <= i < present.len() ==> #[trigger] present[i],
        first_missing(files, present) matches Some(file) ==> exists|i: int|
            0 <= i < files.len() && files[i] == file && !(#[trigger] present[i]) && forall|j: int|
                0 <= j < i ==> #[trigger] present[j],
        first_missing(files, present) is None <==> forall|i: int|
            0 <= i < present.len() ==> #[trigger] present[i],
    decreases files.len(),
{
    if files.len() > 0 {
        if present[0] {
            let rest = present.skip(1);
            models_need_all_their_files(files.skip(1), rest, queue_capacity);
            if let Some(file) = first_missing(files, present) {
                let i = choose|i: int|
                    0 <= i < files.len() - 1 && files.skip(1)[i] == file && !(#[trigger] rest[i])
                        && forall|j: int| 0 <= j < i ==> #[trigger] rest[j];
                assert(!present[i + 1]);
                assert forall|j: int| 0 <= j < i + 1 implies #[trigger] present[j] by {
                    if j > 0 {
                        assert(rest[j - 1]);
                    }
                }
            } else {
                assert forall|i: int| 0 <= i < present.len() implies #[trigger] present[i] by {
                    if i > 0 {
                        assert(rest[i - 1]);
                    }
                }
            }
        } else {
            assert(!present[0]);
        }
    }
}

/// Loading takes five stages, from the schedule over the model and the engine to a recognizer that
/// is ready.
pub proof fn loading_ends_ready(stage: LoadStage)
    ensures
        LoadStage::Scheduled.following() == Some(LoadStage::Validating),
        LoadStage::Validating.following() == Some(LoadStage::Initializing),
        LoadStage::Initializing.following() == Some(LoadStage::Warming),
        LoadStage::Warming.following() == Some(LoadStage::Ready),
        stage.following() is None <==> stage is Ready,
        stage.percent() == 100 <==> stage is Ready,
        0 < stage.percent() <= 100,
{
}

} // verus!
