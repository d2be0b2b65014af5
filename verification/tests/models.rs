//! The model catalog, manifests and installation.

use assistant_core::models::{
    alphacep_models, are_names, check_free_space, digest, model_source, model_spec, verify_file, InstallAction, InstallEvent,
    ModelError, ModelFile, ModelManager, ModelManifest, RecognitionMode, SourceOutcome,
};

const STREAMING_RU: &str = "alphacep/vosk-model-streaming-ru";

fn installed_files() -> Vec<ModelFile> {
    model_spec(STREAMING_RU)
        .unwrap()
        .files()
        .into_iter()
        .map(|path| ModelFile {
            path: path.into(),
            size: path.len() as u64,
            sha256: digest(&path.as_bytes().to_vec()),
        })
        .collect()
}

#[test]
fn digests_are_lower_case_hexadecimal() {
    assert_eq!(
        digest(&b"abc".to_vec()),
        "ba7816bf8f01cfea414140de5dae2223b00361a396177a9cb410ff61f20015ad"
    );
}

#[test]
fn verification_detects_corrupted_model_file() {
    let manifest = ModelManifest::for_installation(model_spec(STREAMING_RU).unwrap(), installed_files());
    manifest.check().unwrap();
    for file in &manifest.files {
        verify_file(file, file.size, &file.path.as_bytes().to_vec()).unwrap();
    }
    let corrupt = verify_file(&manifest.files[0], 7, &b"corrupt".to_vec());
    assert!(matches!(corrupt, Err(ModelError::Verification(_))));
}

#[test]
fn manifests_are_complete_and_safe() {
    let spec = model_spec(STREAMING_RU).unwrap();
    let mut short = ModelManifest::for_installation(spec, installed_files());
    short.files.pop();
    assert_eq!(
        short.check().unwrap_err(),
        ModelError::Verification("manifest does not contain every required file".into())
    );
    let mut unsafe_path = ModelManifest::for_installation(spec, installed_files());
    unsafe_path.files[0].path = "../outside".into();
    assert_eq!(
        unsafe_path.check().unwrap_err(),
        ModelError::Verification("manifest contains an unsafe or duplicate path".into())
    );
    let mut foreign = ModelManifest::for_installation(spec, installed_files());
    foreign.revision = "main".into();
    assert_eq!(
        foreign.check().unwrap_err(),
        ModelError::Verification("unexpected model manifest metadata".into())
    );
    let mut unknown = ModelManifest::for_installation(spec, installed_files());
    unknown.repo_id = "someone/else".into();
    assert!(matches!(unknown.check(), Err(ModelError::Manifest(_))));
}

#[test]
fn paths_of_a_manifest_are_made_of_names() {
    let spec = model_spec(STREAMING_RU).unwrap();
    for path in ["/absolute", "./here", ".", "..", "lang/../outside", "lang/..", "//server/share/file", "a\\b/../c"] {
        assert!(!are_names(std::path::Path::new(path).components()), "{path}");
        let mut manifest = ModelManifest::for_installation(spec, installed_files());
        manifest.files.push(ModelFile { path: path.into(), size: 0, sha256: String::new() });
        assert_eq!(
            manifest.check().unwrap_err(),
            ModelError::Verification("manifest contains an unsafe or duplicate path".into())
        );
    }
    for path in ["lang/extra.txt", "lang//extra.txt", "lang/./extra.txt", "lang/extra/", "...", ".hidden", "lang/a..b"] {
        assert!(are_names(std::path::Path::new(path).components()), "{path}");
        let mut manifest = ModelManifest::for_installation(spec, installed_files());
        manifest.files.push(ModelFile { path: path.into(), size: 0, sha256: String::new() });
        manifest.check().unwrap();
    }
}

#[test]
fn required_files_of_every_model_are_accepted() {
    for spec in alphacep_models() {
        let files = spec
            .files()
            .into_iter()
            .map(|path| ModelFile { path: path.into(), size: 0, sha256: String::new() })
            .collect();
        ModelManifest::for_installation(spec, files).check().unwrap();
    }
}

#[test]
fn catalog_covers_streaming_final_only_and_path_variants() {
    assert_eq!(alphacep_models().len(), 7);
    assert!(model_spec("alphacep/vosk-model-small-streaming-bn").unwrap().supports_wake_word());
    let small_ru = model_spec("alphacep/vosk-model-small-ru").unwrap();
    assert_eq!(small_ru.mode(), RecognitionMode::FinalOnly);
    assert_eq!(small_ru.inference_files().0, "am/encoder.int8.onnx");
    assert!(!model_spec("alphacep/vosk-model-tg").unwrap().supports_wake_word());
}

#[test]
fn catalog_counts_its_files() {
    for model in alphacep_models() {
        assert_eq!(model.file_count(), model.files().len());
        assert_eq!(model_spec(model.id()).unwrap().revision(), model.revision());
    }
}

#[test]
fn model_source_panic_becomes_a_typed_error() {
    let error = model_source::<()>(
        "am/model.onnx",
        SourceOutcome::Panicked(Some("upstream cache assertion".into())),
    )
    .unwrap_err();
    assert!(matches!(error, ModelError::Hub(message)
        if message.contains("am/model.onnx") && message.contains("upstream cache assertion")));
    assert_eq!(model_source("x", SourceOutcome::Ready(5)).unwrap(), 5);
    let failed = model_source::<()>("x", SourceOutcome::Failed("offline".into())).unwrap_err();
    assert_eq!(failed.to_string(), "Hugging Face failed: offline");
}

#[test]
fn unknown_models_are_refused() {
    let manager = ModelManager::new("models".into());
    assert!(matches!(manager.install("someone/else"), Err(ModelError::Manifest(message))
        if message == "unsupported model: someone/else"));
    assert!(manager.resolve("someone/else", true).is_err());
    assert_eq!(manager.resolve(STREAMING_RU, true).ok().unwrap().storage, "vosk-model-streaming-ru");
    assert_eq!(manager.resolve(STREAMING_RU, false).ok().unwrap().storage, "stt-ru-streaming");
}

#[test]
fn too_little_space_is_refused() {
    assert!(check_free_space(256 * 1_024 * 1_024).is_ok());
    assert!(matches!(check_free_space(256 * 1_024 * 1_024 - 1), Err(ModelError::Verification(_))));
}

#[test]
fn installation_fetches_every_file_before_it_publishes() {
    let mut installation = ModelManager::new("models".into()).install(STREAMING_RU).ok().unwrap();
    let spec = installation.spec();
    assert!(matches!(
        installation.advance(InstallEvent::Failed(ModelError::Io("absent".into())), false),
        InstallAction::Probe
    ));
    assert!(matches!(installation.advance(InstallEvent::Probed(u64::MAX), false), InstallAction::Inspect));
    let mut action = installation.advance(InstallEvent::Absent, false);
    assert!(matches!(action, InstallAction::CreateTemporary));
    action = installation.advance(InstallEvent::Succeeded, false);
    for (index, expected) in spec.files().into_iter().enumerate() {
        assert!(matches!(action, InstallAction::Fetch(file) if file == expected));
        action = installation.advance(InstallEvent::Fetched(1, "00".into()), false);
        assert_eq!(installation.progress().completed_files, index + 1);
    }
    match action {
        InstallAction::WriteManifest(manifest) => assert_eq!(manifest.files.len(), spec.file_count()),
        _ => panic!("a manifest was expected"),
    }
    assert!(matches!(installation.advance(InstallEvent::Succeeded, false), InstallAction::VerifyTemporary));
    assert!(matches!(installation.advance(InstallEvent::Succeeded, false), InstallAction::Publish));
    assert!(matches!(installation.advance(InstallEvent::Succeeded, false), InstallAction::Finish));
}

#[test]
fn cancelled_installations_are_undone() {
    let mut installation = ModelManager::new("models".into()).install(STREAMING_RU).ok().unwrap();
    installation.advance(InstallEvent::Failed(ModelError::Io("absent".into())), false);
    installation.advance(InstallEvent::Probed(u64::MAX), false);
    assert!(matches!(
        installation.advance(InstallEvent::Failed(ModelError::Verification("bad".into())), false),
        InstallAction::Quarantine
    ));
    assert!(matches!(installation.advance(InstallEvent::Succeeded, false), InstallAction::CreateTemporary));
    installation.advance(InstallEvent::Succeeded, false);
    assert!(matches!(
        installation.advance(InstallEvent::Fetched(1, "00".into()), true),
        InstallAction::RollBack(ModelError::Cancelled, true)
    ));
}

#[test]
fn damaged_revisions_are_restored_when_nothing_can_be_fetched() {
    let mut installation = ModelManager::new("models".into()).install(STREAMING_RU).ok().unwrap();
    installation.advance(InstallEvent::Failed(ModelError::Io("absent".into())), false);
    installation.advance(InstallEvent::Probed(u64::MAX), false);
    installation.advance(InstallEvent::Failed(ModelError::Verification("bad".into())), false);
    installation.advance(InstallEvent::Succeeded, false);
    assert!(matches!(
        installation.advance(InstallEvent::Failed(ModelError::Io("read-only".into())), false),
        InstallAction::RollBack(ModelError::Io(message), true) if message == "read-only"
    ));
    let mut unhindered = ModelManager::new("models".into()).install(STREAMING_RU).ok().unwrap();
    unhindered.advance(InstallEvent::Failed(ModelError::Io("absent".into())), false);
    unhindered.advance(InstallEvent::Probed(u64::MAX), false);
    unhindered.advance(InstallEvent::Absent, false);
    assert!(matches!(
        unhindered.advance(InstallEvent::Failed(ModelError::Io("read-only".into())), false),
        InstallAction::RollBack(ModelError::Io(_), false)
    ));
}

#[test]
fn model_errors_explain_themselves() {
    assert_eq!(ModelError::Io("x".into()).to_string(), "model I/O failed: x");
    assert_eq!(ModelError::Manifest("x".into()).to_string(), "model manifest failed: x");
    assert_eq!(ModelError::Verification("x".into()).to_string(), "model verification failed: x");
    assert_eq!(ModelError::Cancelled.to_string(), "model installation cancelled");
}

#[test]
fn catalog_identifiers_are_unique() {
    let ids: std::collections::BTreeSet<&str> = alphacep_models().iter().map(|model| model.id()).collect();
    assert_eq!(ids.len(), alphacep_models().len());
}
