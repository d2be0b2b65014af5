//! The keyword list of the wake-word spotter, and what its results mean.

use crate::float32::Real32;
use crate::models::{ModelSpec, ModelView};
use crate::text::{join, joined, views};
use vstd::prelude::*;

verus! {

/// One accepted wake-word occurrence.
#[derive(Debug, Clone, PartialEq)]
pub struct WakeWordDetection {
    /// Detector keyword text.
    pub keyword: String,
    /// Approximate start time in seconds within detector input.
    pub start_time: Real32,
}

/// Wake-word model or keyword configuration failure.
#[derive(Debug, Clone, PartialEq, Eq)]
pub enum WakeWordError {
    /// Local model files or engine parameters are invalid.
    Configuration(String),
}

/// What a [`WakeWordError`] says.
pub enum WakeWordErrorView {
    /// Local model files or engine parameters are invalid.
    Configuration(Seq<char>),
}

impl View for WakeWordError {
    type V = WakeWordErrorView;

    open spec fn view(&self) -> WakeWordErrorView {
        match self {
            WakeWordError::Configuration(message) => WakeWordErrorView::Configuration(message@),
        }
    }
}

impl WakeWordError {
    /// The message that describes the error.
    pub fn to_string(&self) -> (text: String)
        ensures
            self@ matches WakeWordErrorView::Configuration(message) && text@
                == "wake-word configuration failed: "@ + message,
    {
        match self {
            WakeWordError::Configuration(message) => {
                let mut text = "wake-word configuration failed: ".to_owned();
                text.append(message);
                text
            },
        }
    }
}

/// A keyword with what the tokenizer of the model made of it: pieces, or a failure.
pub struct TokenizedKeyword {
    /// The phrase.
    pub keyword: String,
    /// Its pieces.
    pub pieces: Result<Vec<String>, String>,
}

/// What a [`TokenizedKeyword`] holds.
pub struct TokenizedView {
    /// The phrase.
    pub keyword: Seq<char>,
    /// Its pieces.
    pub pieces: Result<Seq<Seq<char>>, Seq<char>>,
}

impl View for TokenizedKeyword {
    type V = TokenizedView;

    open spec fn view(&self) -> TokenizedView {
        TokenizedView {
            keyword: self.keyword@,
            pieces: match self.pieces {
                Ok(pieces) => Ok(views(pieces@)),
                Err(message) => Err(message@),
            },
        }
    }
}

/// The line that a keyword takes in the keyword list.
pub open spec fn keyword_line(
    pieces: Seq<Seq<char>>,
    keyword: Seq<char>,
    score: Seq<char>,
    threshold: Seq<char>,
) -> Seq<char> {
    joined(pieces) + " :"@ + score + " #"@ + threshold + " @"@ + keyword
}

/// The line of a keyword, or why it has none.
pub open spec fn line_of(tokenized: TokenizedView, score: Seq<char>, threshold: Seq<char>) -> Result<
    Seq<char>,
    WakeWordErrorView,
> {
    match tokenized.pieces {
        Err(message) => Err(WakeWordErrorView::Configuration(message)),
        Ok(pieces) => if pieces.len() == 0 {
            Err(WakeWordErrorView::Configuration("keyword produced no tokens"@))
        } else {
            Ok(keyword_line(pieces, tokenized.keyword, score, threshold))
        },
    }
}

/// Writes the line of a keyword.
pub fn tokenize_keyword(tokenized: &TokenizedKeyword, score: &str, threshold: &str) -> (line: Result<
    String,
    WakeWordError,
>)
    ensures
        match line {
            Ok(line) => line_of(tokenized@, score@, threshold@) == Ok::<_, WakeWordErrorView>(line@),
            Err(error) => line_of(tokenized@, score@, threshold@) == Err::<Seq<char>, _>(error@),
        },
{
    match &tokenized.pieces {
        Err(message) => Err(WakeWordError::Configuration(message.clone())),
        Ok(pieces) => {
            if pieces.len() == 0 {
                return Err(WakeWordError::Configuration("keyword produced no tokens".to_owned()));
            }
            let mut line = join(pieces);
            line.append(" :");
            line.append(score);
            line.append(" #");
            line.append(threshold);
            line.append(" @");
            line.append(&tokenized.keyword);
            Ok(line)
        },
    }
}

/// The lines of the first keywords, one below the other, or the first failure.
pub open spec fn lines_of(tokenized: Seq<TokenizedView>, score: Seq<char>, threshold: Seq<char>) -> Result<
    Seq<char>,
    WakeWordErrorView,
>
    decreases tokenized.len(),
{
    if tokenized.len() == 0 {
        Ok(Seq::empty())
    } else {
        match lines_of(tokenized.drop_last(), score, threshold) {
            Err(error) => Err(error),
            Ok(above) => match line_of(tokenized.last(), score, threshold) {
                Err(error) => Err(error),
                Ok(line) => if tokenized.len() == 1 {
                    Ok(line)
                } else {
                    Ok(above.push('\n') + line)
                },
            },
        }
    }
}

/// A failure among the first keywords is the failure of all.
proof fn failure_stays(tokenized: Seq<TokenizedView>, count: int, score: Seq<char>, threshold: Seq<char>)
    requires
        0 <= count <= tokenized.len(),
        lines_of(tokenized.take(count), score, threshold) is Err,
    ensures
        lines_of(tokenized, score, threshold) == lines_of(tokenized.take(count), score, threshold),
    decreases tokenized.len(),
{
    if count == tokenized.len() {
        assert(tokenized.take(count) =~= tokenized);
    } else {
        assert(tokenized.drop_last().take(count) =~= tokenized.take(count));
        failure_stays(tokenized.drop_last(), count, score, threshold);
    }
}

/// The keyword list for a model, or why there is none.
pub open spec fn keyword_list(
    model: ModelView,
    tokenized: Seq<TokenizedView>,
    score: Seq<char>,
    threshold: Seq<char>,
) -> Result<Seq<char>, WakeWordErrorView> {
    if !model.wakes() {
        Err(
            WakeWordErrorView::Configuration(
                "model "@ + model.id + " does not support keyword spotting"@,
            ),
        )
    } else if tokenized.len() == 0 {
        Err(WakeWordErrorView::Configuration("no wake words configured"@))
    } else {
        lines_of(tokenized, score, threshold)
    }
}

/// What the keyword spotter is created with.
pub struct SpotterSettings {
    /// Encoder, decoder, joiner and tokens, relative to the model directory.
    pub files: (&'static str, &'static str, &'static str, &'static str),
    /// Native inference threads.
    pub threads: i32,
    /// Architecture of the model.
    pub model_type: &'static str,
    /// The keyword list.
    pub keywords: String,
}

/// Prepares the keyword spotter of a model for keywords that its tokenizer took apart.
pub fn spotter_settings(
    model: ModelSpec,
    tokenized: &Vec<TokenizedKeyword>,
    score: &str,
    threshold: &str,
    threads: i32,
) -> (settings: Result<SpotterSettings, WakeWordError>)
    ensures
        match settings {
            Ok(settings) => {
                &&& keyword_list(model@, views(tokenized@), score@, threshold@) == Ok::<
                    _,
                    WakeWordErrorView,
                >(settings.keywords@)
                &&& settings.threads == if threads > 1 {
                    threads
                } else {
                    1
                }
                &&& settings.model_type@ == "zipformer2"@
                &&& settings.files.0@ == model@.files[0]
                &&& settings.files.1@ == model@.files[1]
                &&& settings.files.2@ == model@.files[2]
                &&& settings.files.3@ == "lang/tokens.txt"@
            },
            Err(error) => keyword_list(model@, views(tokenized@), score@, threshold@) == Err::<
                Seq<char>,
                _,
            >(error@),
        },
{
    if !model.supports_wake_word() {
        let mut message = "model ".to_owned();
        message.append(model.id());
        message.append(" does not support keyword spotting");
        return Err(WakeWordError::Configuration(message));
    }
    let ghost all = views(tokenized@);
    let mut keywords = String::new();
    let mut i: usize = 0;
    assert(all.take(0) =~= Seq::empty());
    while i < tokenized.len()
        invariant
            0 <= i <= tokenized@.len(),
            all == views(tokenized@),
            model@.wakes(),
            lines_of(all.take(i as int), score@, threshold@) == Ok::<_, WakeWordErrorView>(
                keywords@,
            ),
        decreases tokenized@.len() - i,
    {
        proof {
            assert(all.take(i + 1).drop_last() =~= all.take(i as int));
            assert(all.take(i + 1).last() == tokenized@[i as int]@);
        }
        match tokenize_keyword(&tokenized[i], score, threshold) {
            Err(error) => {
                proof {
                    failure_stays(all, i + 1, score@, threshold@);
                }
                return Err(error);
            },
            Ok(line) => {
                if i == 0 {
                    keywords = line;
                } else {
                    keywords.push('\n');
                    keywords.append(&line);
                }
            },
        }
        i = i + 1;
    }
    assert(all.take(i as int) =~= all);
    if tokenized.len() == 0 {
        return Err(WakeWordError::Configuration("no wake words configured".to_owned()));
    }
    Ok(
        SpotterSettings {
            files: model.inference_files(),
            threads: if threads > 1 {
                threads
            } else {
                1
            },
            model_type: "zipformer2",
            keywords,
        },
    )
}

/// Gives a sample rate to the spotter, which counts with signed numbers.
pub fn spotter_rate(sample_rate: u32) -> (rate: Result<i32, WakeWordError>)
    ensures
        match rate {
            Ok(rate) => rate == sample_rate,
            Err(error) => sample_rate > i32::MAX && error@ == WakeWordErrorView::Configuration(
                "sample rate is too large"@,
            ),
        },
{
    if sample_rate > i32::MAX as u32 {
        return Err(WakeWordError::Configuration("sample rate is too large".to_owned()));
    }
    Ok(sample_rate as i32)
}

/// Reads a result of the spotter: an empty keyword is no detection.
pub fn detection(keyword: String, start_time: Real32) -> (detected: Option<WakeWordDetection>)
    ensures
        match detected {
            Some(detected) => keyword@.len() > 0 && detected.keyword@ == keyword@
                && detected.start_time == start_time,
            None => keyword@.len() == 0,
        },
{
    if keyword.as_str().is_empty() {
        None
    } else {
        Some(WakeWordDetection { keyword, start_time })
    }
}

/// A keyword list holds one line for each keyword, in order: the pieces with single spaces between them,
/// then score, threshold and the keyword itself, each behind its mark.
pub proof fn keyword_lines_stand_in_order(
    tokenized: Seq<TokenizedView>,
    next: TokenizedView,
    score: Seq<char>,
    threshold: Seq<char>,
)
    requires
        lines_of(tokenized, score, threshold) is Ok,
    ensures
        next.pieces is Ok && next.pieces->Ok_0.len() > 0 ==> ({
            let line = joined(next.pieces->Ok_0) + " :"@ + score + " #"@ + threshold + " @"@
                + next.keyword;
            lines_of(tokenized.push(next), score, threshold) == Ok::<_, WakeWordErrorView>(
                if tokenized.len() == 0 {
                    line
                } else {
                    lines_of(tokenized, score, threshold)->Ok_0 + seq!['\n'] + line
                },
            )
        }),
        !(next.pieces is Ok && next.pieces->Ok_0.len() > 0) ==> lines_of(
            tokenized.push(next),
            score,
            threshold,
        ) is Err,
{
    let all = tokenized.push(next);
    assert(all.drop_last() =~= tokenized);
    if next.pieces is Ok && next.pieces->Ok_0.len() > 0 && tokenized.len() > 0 {
        let above = lines_of(tokenized, score, threshold)->Ok_0;
        let line = keyword_line(next.pieces->Ok_0, next.keyword, score, threshold);
        assert(above.push('\n') + line =~= above + seq!['\n'] + line);
    }
}

/// There is a keyword list exactly if the model spots keywords, there is a keyword, and each keyword
/// has pieces.
pub proof fn keyword_lists_need_pieces(
    model: ModelView,
    tokenized: Seq<TokenizedView>,
    score: Seq<char>,
    threshold: Seq<char>,
)
    ensures
        keyword_list(model, tokenized, score, threshold) is Ok <==> model.wakes() && tokenized.len() > 0
            && forall|i: int|
            0 <= i < tokenized.len() ==> ((#[trigger] tokenized[i]).pieces matches Ok(pieces)
                && pieces.len() > 0),
{
    lines_need_pieces(tokenized, score, threshold);
}

proof fn lines_need_pieces(tokenized: Seq<TokenizedView>, score: Seq<char>, threshold: Seq<char>)
    ensures
        lines_of(tokenized, score, threshold) is Ok <==> forall|i: int|
            0 <= i < tokenized.len() ==> ((#[trigger] tokenized[i]).pieces matches Ok(pieces)
                && pieces.len() > 0),
    decreases tokenized.len(),
{
    if tokenized.len() > 0 {
        let earlier = tokenized.drop_last();
        lines_need_pieces(earlier, score, threshold);
        if lines_of(tokenized, score, threshold) is Ok {
            assert forall|i: int| 0 <= i < tokenized.len() implies ((
            #[trigger] tokenized[i]).pieces matches Ok(pieces) && pieces.len() > 0) by {
                if i < earlier.len() {
                    assert(earlier[i] == tokenized[i]);
                }
            }
        } else if lines_of(earlier, score, threshold) is Err {
            let i = choose|i: int|
                0 <= i < earlier.len() && !((#[trigger] earlier[i]).pieces matches Ok(pieces)
                    && pieces.len() > 0);
            assert(tokenized[i] == earlier[i]);
        } else {
            assert(tokenized[tokenized.len() - 1] == tokenized.last());
        }
    }
}

} // verus!
