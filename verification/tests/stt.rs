//! Limits of the recognizer, its restarts and the wake-word list.

use assistant_core::audio::{describe_device, resampled_len, select_input_device, AudioError};
use assistant_core::domain::{CoreError, TranscriptionRequest};
use assistant_core::float32::{Real32, ONE_BITS};
use assistant_core::models::model_spec;
use assistant_core::stt::{
    batch_chunk_len, effective_threads, engine_rate, required_files, restart_delay, validate_chunk, validate_model,
    validate_request, validate_stream_rate, LoadStage, MockRecognizer, RestartBudget, UnavailableRecognizer,
    WorkerStream,
};
use assistant_core::wakeword::{detection, spotter_rate, spotter_settings, TokenizedKeyword, WakeWordError};

fn sample(value: f32) -> Real32 {
    Real32::from_bits(value.to_bits())
}

fn request(samples: Vec<f32>, sample_rate: u32) -> TranscriptionRequest<Real32> {
    TranscriptionRequest { samples: samples.into_iter().map(sample).collect(), sample_rate }
}

#[test]
fn automatic_thread_count_is_bounded() {
    for available in [1, 8, 64, 65, 1_000] {
        assert!((1..=64).contains(&effective_threads(0, Some(available))));
    }
    assert!((1..=64).contains(&effective_threads(0, None)));
    assert_eq!(effective_threads(3, Some(8)), 3);
}

#[test]
fn worker_restart_backoff_is_bounded() {
    assert_eq!(restart_delay(500, 1), 500);
    assert_eq!(restart_delay(500, 3), 2_000);
    assert_eq!(restart_delay(500, 50), 512_000);
}

#[test]
fn restart_delays_saturate() {
    assert_eq!(restart_delay(u64::MAX, 2), u64::MAX);
    assert_eq!(restart_delay(0, 9), 0);
    assert_eq!(restart_delay(7, 0), 7);
}

#[test]
fn restart_budget_is_spent_once() {
    let mut budget = RestartBudget::new(2, 100);
    assert_eq!(budget.take_restart().unwrap(), 100);
    assert_eq!(budget.take_restart().unwrap(), 200);
    assert!(matches!(
        budget.take_restart(),
        Err(CoreError::Unavailable(message)) if message == "STT restart budget exhausted"
    ));
    assert_eq!(budget.restarts, 2);
}

#[test]
fn requests_need_finite_samples_and_a_rate() {
    assert!(validate_request(&request(vec![0.0, -1.0], 16_000)).is_ok());
    assert!(validate_request(&request(vec![0.0], 0)).is_err());
    assert!(validate_request(&request(Vec::new(), 16_000)).is_err());
    assert!(validate_request(&request(vec![f32::NAN], 16_000)).is_err());
    assert!(validate_chunk(&vec![sample(0.5)]).is_ok());
    assert!(validate_chunk(&Vec::new()).is_err());
    assert!(validate_chunk(&vec![sample(f32::INFINITY)]).is_err());
    assert!(validate_stream_rate(16_000).is_ok());
    assert!(validate_stream_rate(0).is_err());
    assert_eq!(engine_rate(16_000).unwrap(), 16_000);
    assert!(engine_rate(u32::MAX).is_err());
    assert_eq!(batch_chunk_len(16_000), 320);
    assert_eq!(batch_chunk_len(49), 1);
}

#[test]
fn models_are_checked_in_order() {
    let files = required_files();
    assert!(validate_model(&files, &vec![true, true, true, true], 4).is_ok());
    let missing = validate_model(&files, &vec![true, false, true, false], 4).unwrap_err();
    assert_eq!(missing.to_string(), "speech recognition failed: model file is missing: am-onnx/decoder.int8.onnx");
    let queue = validate_model(&files, &vec![true, true, true, true], 0).unwrap_err();
    assert!(matches!(queue, CoreError::Recognition(message)
        if message == "STT queue capacity must be greater than zero"));
}

#[test]
fn a_worker_has_one_stream() {
    let mut stream = WorkerStream::new();
    assert!(stream.push().is_err());
    assert!(stream.finish().is_err());
    assert_eq!(stream.begin(16_000).unwrap(), 16_000);
    assert!(stream.begin(u32::MAX).is_err());
    assert_eq!(stream.push().unwrap(), 16_000);
    assert_eq!(stream.finish().unwrap(), 16_000);
    assert!(stream.push().is_err());
}

#[test]
fn loading_can_be_cancelled_between_stages() {
    let mut stages = Vec::new();
    let mut stage = Some(LoadStage::Scheduled);
    while let Some(current) = stage {
        stages.push((current.progress(), current.name()));
        stage = current.advance(false).unwrap();
    }
    assert_eq!(
        stages,
        [
            (5, "scheduling STT load"),
            (20, "validating model"),
            (50, "initializing STT engine"),
            (75, "warming STT engine"),
            (100, "STT engine ready"),
        ]
    );
    assert_eq!(LoadStage::Validating.advance(true).unwrap_err(), "STT loading cancelled");
    assert_eq!(LoadStage::Warming.advance(true).unwrap_err(), "STT loading cancelled");
    assert!(LoadStage::Initializing.advance(true).is_ok());
}

#[test]
fn stand_in_recognizers_answer_every_request() {
    let asked = request(vec![0.0], 16_000);
    let heard = MockRecognizer { text: "да".into() }.transcribe(&asked).unwrap();
    assert_eq!(heard.text, "да");
    assert_eq!(heard.confidence, Some(Real32::from_bits(ONE_BITS)));
    let refused = UnavailableRecognizer { message: "model missing".into() }.transcribe(&asked);
    assert_eq!(refused.unwrap_err(), CoreError::Unavailable("model missing".into()));
}

fn tokenized(keyword: &str, pieces: &[&str]) -> TokenizedKeyword {
    TokenizedKeyword {
        keyword: keyword.into(),
        pieces: Ok(pieces.iter().map(|piece| piece.to_string()).collect()),
    }
}

#[test]
fn keywords_are_listed_one_below_the_other() {
    let model = model_spec("alphacep/vosk-model-streaming-ru").unwrap();
    let words = vec![tokenized("да", &["▁да"]), tokenized("ассистент", &["▁а", "сс"])];
    let settings = spotter_settings(model, &words, "1.5", "0.35", 0).ok().unwrap();
    assert_eq!(settings.keywords, "▁да :1.5 #0.35 @да\n▁а сс :1.5 #0.35 @ассистент");
    assert_eq!(settings.threads, 1);
    assert_eq!(settings.model_type, "zipformer2");
    assert_eq!(settings.files.3, "lang/tokens.txt");
}

#[test]
fn keyword_lists_report_their_first_failure() {
    let model = model_spec("alphacep/vosk-model-streaming-ru").unwrap();
    let broken = TokenizedKeyword { keyword: "x".into(), pieces: Err("bad model".into()) };
    let failure = |words: Vec<TokenizedKeyword>| spotter_settings(model, &words, "1", "1", 1).err().unwrap();
    assert_eq!(failure(vec![tokenized("а", &[]), broken]).to_string(),
        "wake-word configuration failed: keyword produced no tokens");
    assert_eq!(failure(Vec::new()), WakeWordError::Configuration("no wake words configured".into()));
    let silent = model_spec("alphacep/vosk-model-tg").unwrap();
    assert_eq!(
        spotter_settings(silent, &Vec::new(), "1", "1", 1).err().unwrap(),
        WakeWordError::Configuration("model alphacep/vosk-model-tg does not support keyword spotting".into())
    );
}

#[test]
fn empty_keywords_are_no_detection() {
    assert!(detection(String::new(), sample(0.5)).is_none());
    let found = detection("да".into(), sample(0.5)).unwrap();
    assert_eq!((found.keyword.as_str(), found.start_time), ("да", sample(0.5)));
    assert_eq!(spotter_rate(16_000).unwrap(), 16_000);
    assert!(spotter_rate(u32::MAX).is_err());
}

#[test]
fn resampled_lengths_preserve_duration() {
    for source_rate in [8_000, 44_100, 48_000, 96_000] {
        assert_eq!(resampled_len(source_rate as usize, source_rate, 16_000), 16_000);
    }
    assert_eq!(resampled_len(0, 48_000, 16_000), 0);
    assert_eq!(resampled_len(5, 16_000, 16_000), 5);
    assert_eq!(resampled_len(0, 0, 16_000), 0);
    assert_eq!(resampled_len(5, 0, 0), 5);
    assert_eq!(resampled_len(usize::MAX, 48_000, 48_000), usize::MAX as u64);
}

#[test]
fn input_devices_are_selected_by_name() {
    let names = vec![None, Some("b".to_string()), Some("a".to_string()), Some("b".to_string())];
    assert_eq!(select_input_device("b", true, &names).unwrap(), Some(1));
    assert_eq!(select_input_device("default", true, &names).unwrap(), None);
    assert_eq!(
        select_input_device("default", false, &names).unwrap_err().to_string(),
        "audio device error: no default input device"
    );
    assert_eq!(
        select_input_device("c", true, &names).unwrap_err(),
        AudioError::Device("input device not found: c".into())
    );
    assert!(describe_device("a", &Some("a".into())).is_default);
    assert!(!describe_device("a", &None).is_default);
    assert_eq!(AudioError::Disconnected.to_string(), "audio input disconnected");
    assert_eq!(AudioError::Stream("x".into()).to_string(), "audio stream error: x");
    assert_eq!(AudioError::Wav("x".into()).to_string(), "WAV error: x");
}
