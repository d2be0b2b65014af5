//! Catalog of pinned models, manifest verification and the course of an installation.

use crate::number::{hexadecimal_bytes, hexadecimal_text};
use crate::text::{chars_of, option_view, same_text, text_between, views};
use crate::text_map::contains_text;
use vstd::prelude::*;

verus! {

/// Pinned Hugging Face repository for the stock Russian streaming model.
pub const ALPHACEP_STREAMING_RU_REPO: &'static str = "alphacep/vosk-model-streaming-ru";

/// Pinned immutable commit SHA for the stock model.
pub const ALPHACEP_STREAMING_RU_REVISION: &'static str = "83bbf6f40059480e96251be8aed3d32bc7c80c33";

/// Free space that an installation needs at least.
pub const MODEL_INSTALL_MIN_FREE_BYTES: u64 = 268_435_456;

/// Native execution mode required by a catalog model.
#[derive(Debug, Clone, Copy, PartialEq, Eq, Structural)]
pub enum RecognitionMode {
    /// Incremental recognition while audio is captured.
    Streaming,
    /// Recognition after the complete utterance is available.
    FinalOnly,
}

/// How the files of a model are laid out.
#[derive(Debug, Clone, Copy, PartialEq, Eq, Structural)]
enum FileLayout {
    /// Quantized networks below `am-onnx`.
    Quantized,
    /// Full-precision networks below `am-onnx`.
    Full,
    /// Quantized networks below `am`.
    QuantizedShort,
    /// Full-precision networks below `am-onnx`, without SentencePiece data.
    FullWithoutPieces,
}

/// Immutable allowlisted description of one supported model.
#[derive(Debug, Clone, Copy)]
pub struct ModelSpec {
    id: &'static str,
    revision: &'static str,
    language: &'static str,
    mode: RecognitionMode,
    layout: FileLayout,
}

/// What a [`ModelSpec`] describes.
pub struct ModelView {
    /// Repository identifier and stable catalog key.
    pub id: Seq<char>,
    /// Pinned immutable commit SHA.
    pub revision: Seq<char>,
    /// Language code.
    pub language: Seq<char>,
    /// Required execution mode.
    pub mode: RecognitionMode,
    /// Complete file allowlist.
    pub files: Seq<Seq<char>>,
}

/// The files of the stock model.
pub open spec fn quantized_files() -> Seq<Seq<char>> {
    seq![
        "am-onnx/encoder.int8.onnx"@,
        "am-onnx/decoder.int8.onnx"@,
        "am-onnx/joiner.int8.onnx"@,
        "lang/tokens.txt"@,
        "lang/bpe.model"@,
    ]
}

/// The files of a model in full precision.
pub open spec fn full_files() -> Seq<Seq<char>> {
    seq![
        "am-onnx/encoder.onnx"@,
        "am-onnx/decoder.onnx"@,
        "am-onnx/joiner.onnx"@,
        "lang/tokens.txt"@,
        "lang/bpe.model"@,
    ]
}

/// The files of a small quantized model.
pub open spec fn quantized_short_files() -> Seq<Seq<char>> {
    seq![
        "am/encoder.int8.onnx"@,
        "am/decoder.int8.onnx"@,
        "am/joiner.int8.onnx"@,
        "lang/tokens.txt"@,
        "lang/bpe.model"@,
    ]
}

/// The files of a model in full precision without SentencePiece data.
pub open spec fn full_files_without_pieces() -> Seq<Seq<char>> {
    seq![
        "am-onnx/encoder.onnx"@,
        "am-onnx/decoder.onnx"@,
        "am-onnx/joiner.onnx"@,
        "lang/tokens.txt"@,
    ]
}

impl View for ModelSpec {
    type V = ModelView;

    closed spec fn view(&self) -> ModelView {
        ModelView {
            id: self.id@,
            revision: self.revision@,
            language: self.language@,
            mode: self.mode,
            files: match self.layout {
                FileLayout::Quantized => quantized_files(),
                FileLayout::Full => full_files(),
                FileLayout::QuantizedShort => quantized_short_files(),
                FileLayout::FullWithoutPieces => full_files_without_pieces(),
            },
        }
    }
}

impl ModelView {
    /// Whether keyword spotting can use the model: it streams and has SentencePiece data.
    pub open spec fn wakes(self) -> bool {
        self.files.contains("lang/bpe.model"@) && self.mode is Streaming
    }
}

/// All supported pinned models.
pub open spec fn catalog() -> Seq<ModelView> {
    seq![
        ModelView {
            id: ALPHACEP_STREAMING_RU_REPO@,
            revision: ALPHACEP_STREAMING_RU_REVISION@,
            language: "ru"@,
            mode: RecognitionMode::Streaming,
            files: quantized_files(),
        },
        ModelView {
            id: "alphacep/vosk-model-small-streaming-ru"@,
            revision: "e18123ee13f694036a1eea82eb43f9895387cb59"@,
            language: "ru"@,
            mode: RecognitionMode::Streaming,
            files: quantized_files(),
        },
        ModelView {
            id: "alphacep/vosk-model-small-streaming-bn"@,
            revision: "501097ae5257e5859d7956b50e4ba53a3f2be106"@,
            language: "bn"@,
            mode: RecognitionMode::Streaming,
            files: full_files(),
        },
        ModelView {
            id: "alphacep/vosk-model-ru"@,
            revision: "df6a54a4d8e5d43e82675e4f5dba2d507731a0d1"@,
            language: "ru"@,
            mode: RecognitionMode::FinalOnly,
            files: quantized_files(),
        },
        ModelView {
            id: "alphacep/vosk-model-small-ru"@,
            revision: "4d68c4017bcfa44e2a79581f7933339e916a35da"@,
            language: "ru"@,
            mode: RecognitionMode::FinalOnly,
            files: quantized_short_files(),
        },
        ModelView {
            id: "alphacep/vosk-model-tg"@,
            revision: "b4900abb39cad697d97d6091a262bbca41fab49c"@,
            language: "tg"@,
            mode: RecognitionMode::FinalOnly,
            files: full_files_without_pieces(),
        },
        ModelView {
            id: "alphacep/vosk-model-small-streaming-uz"@,
            revision: "e0417cabfbbac4efdc34e7aba367501d126ae79c"@,
            language: "uz"@,
            mode: RecognitionMode::FinalOnly,
            files: full_files_without_pieces(),
        },
    ]
}

impl ModelSpec {
    /// Repository identifier and stable catalog key.
    pub fn id(self) -> (id: &'static str)
        ensures
            id@ == self@.id,
    {
        self.id
    }

    /// Pinned immutable Hub commit SHA.
    pub fn revision(self) -> (revision: &'static str)
        ensures
            revision@ == self@.revision,
    {
        self.revision
    }

    /// BCP-47-style language code published by the model.
    pub fn language(self) -> (language: &'static str)
        ensures
            language@ == self@.language,
    {
        self.language
    }

    /// Required recognizer execution mode.
    pub fn mode(self) -> (mode: RecognitionMode)
        ensures
            mode == self@.mode,
    {
        self.mode
    }

    /// Complete file allowlist used for installation and verification.
    pub fn files(self) -> (files: Vec<&'static str>)
        ensures
            views(files@) == self@.files,
            files@.len() >= 4,
    {
        let files: Vec<&'static str> = match self.layout {
            FileLayout::Quantized => vec![
                "am-onnx/encoder.int8.onnx",
                "am-onnx/decoder.int8.onnx",
                "am-onnx/joiner.int8.onnx",
                "lang/tokens.txt",
                "lang/bpe.model",
            ],
            FileLayout::Full => vec![
                "am-onnx/encoder.onnx",
                "am-onnx/decoder.onnx",
                "am-onnx/joiner.onnx",
                "lang/tokens.txt",
                "lang/bpe.model",
            ],
            FileLayout::QuantizedShort => vec![
                "am/encoder.int8.onnx",
                "am/decoder.int8.onnx",
                "am/joiner.int8.onnx",
                "lang/tokens.txt",
                "lang/bpe.model",
            ],
            FileLayout::FullWithoutPieces => vec![
                "am-onnx/encoder.onnx",
                "am-onnx/decoder.onnx",
                "am-onnx/joiner.onnx",
                "lang/tokens.txt",
            ],
        };
        assert(views(files@) =~= self@.files);
        files
    }

    /// How many relative paths are accepted during installation.
    pub fn file_count(self) -> (count: usize)
        ensures
            count == self@.files.len(),
            count <= 8,
    {
        let files = self.files();
        proof {
            assert(views(files@).len() == files@.len());
        }
        files.len()
    }

    /// Whether the model includes the SentencePiece data required by keyword spotting.
    pub fn supports_wake_word(self) -> (supported: bool)
        ensures
            supported == self@.wakes(),
    {
        proof {
            let files = self@.files;
            if self.layout is FullWithoutPieces {
                reveal_strlit("lang/bpe.model");
                reveal_strlit("lang/tokens.txt");
                reveal_strlit("am-onnx/encoder.onnx");
                reveal_strlit("am-onnx/decoder.onnx");
                reveal_strlit("am-onnx/joiner.onnx");
                assert forall|i: int| 0 <= i < files.len() implies files[i] != "lang/bpe.model"@ by {
                    assert("lang/bpe.model"@.len() == 14);
                    assert(files[i].len() == 15 || files[i].len() == 19 || files[i].len() == 20);
                }
            } else {
                assert(files[4] == "lang/bpe.model"@);
            }
        }
        !matches!(self.layout, FileLayout::FullWithoutPieces) && matches!(
            self.mode,
            RecognitionMode::Streaming
        )
    }

    /// Returns the pinned encoder, decoder, joiner and token paths.
    pub fn inference_files(self) -> (files: (&'static str, &'static str, &'static str, &'static str))
        ensures
            files.0@ == self@.files[0],
            files.1@ == self@.files[1],
            files.2@ == self@.files[2],
            files.3@ == "lang/tokens.txt"@,
    {
        let files = self.files();
        proof {
            assert(views(files@)[0] == files@[0]@);
            assert(views(files@)[1] == files@[1]@);
            assert(views(files@)[2] == files@[2]@);
        }
        (files[0], files[1], files[2], "lang/tokens.txt")
    }
}

/// All supported pinned models.
pub fn alphacep_models() -> (models: Vec<ModelSpec>)
    ensures
        views(models@) == catalog(),
{
    let models: Vec<ModelSpec> = vec![
        ModelSpec {
            id: ALPHACEP_STREAMING_RU_REPO,
            revision: ALPHACEP_STREAMING_RU_REVISION,
            language: "ru",
            mode: RecognitionMode::Streaming,
            layout: FileLayout::Quantized,
        },
        ModelSpec {
            id: "alphacep/vosk-model-small-streaming-ru",
            revision: "e18123ee13f694036a1eea82eb43f9895387cb59",
            language: "ru",
            mode: RecognitionMode::Streaming,
            layout: FileLayout::Quantized,
        },
        ModelSpec {
            id: "alphacep/vosk-model-small-streaming-bn",
            revision: "501097ae5257e5859d7956b50e4ba53a3f2be106",
            language: "bn",
            mode: RecognitionMode::Streaming,
            layout: FileLayout::Full,
        },
        ModelSpec {
            id: "alphacep/vosk-model-ru",
            revision: "df6a54a4d8e5d43e82675e4f5dba2d507731a0d1",
            language: "ru",
            mode: RecognitionMode::FinalOnly,
            layout: FileLayout::Quantized,
        },
        ModelSpec {
            id: "alphacep/vosk-model-small-ru",
            revision: "4d68c4017bcfa44e2a79581f7933339e916a35da",
            language: "ru",
            mode: RecognitionMode::FinalOnly,
            layout: FileLayout::QuantizedShort,
        },
        ModelSpec {
            id: "alphacep/vosk-model-tg",
            revision: "b4900abb39cad697d97d6091a262bbca41fab49c",
            language: "tg",
            mode: RecognitionMode::FinalOnly,
            layout: FileLayout::FullWithoutPieces,
        },
        ModelSpec {
            id: "alphacep/vosk-model-small-streaming-uz",
            revision: "e0417cabfbbac4efdc34e7aba367501d126ae79c",
            language: "uz",
            mode: RecognitionMode::FinalOnly,
            layout: FileLayout::FullWithoutPieces,
        },
    ];
    assert(views(models@) =~= catalog());
    models
}

/// Model source, manifest and verification failures.
#[derive(Debug, Clone, PartialEq, Eq)]
pub enum ModelError {
    /// Local filesystem operation failed.
    Io(String),
    /// Pinned repository access failed.
    Hub(String),
    /// Manifest serialization or metadata failed.
    Manifest(String),
    /// File size, digest, path or required metadata did not verify.
    Verification(String),
    /// Cooperative installation cancellation was observed.
    Cancelled,
}

/// What a [`ModelError`] says.
pub enum ModelErrorView {
    /// Local filesystem operation failed.
    Io(Seq<char>),
    /// Pinned repository access failed.
    Hub(Seq<char>),
    /// Manifest serialization or metadata failed.
    Manifest(Seq<char>),
    /// File size, digest, path or required metadata did not verify.
    Verification(Seq<char>),
    /// Cooperative installation cancellation was observed.
    Cancelled,
}

impl View for ModelError {
    type V = ModelErrorView;

    open spec fn view(&self) -> ModelErrorView {
        match self {
            ModelError::Io(message) => ModelErrorView::Io(message@),
            ModelError::Hub(message) => ModelErrorView::Hub(message@),
            ModelError::Manifest(message) => ModelErrorView::Manifest(message@),
            ModelError::Verification(message) => ModelErrorView::Verification(message@),
            ModelError::Cancelled => ModelErrorView::Cancelled,
        }
    }
}

impl ModelErrorView {
    /// The message that describes the error.
    pub open spec fn message(self) -> Seq<char> {
        match self {
            ModelErrorView::Io(message) => "model I/O failed: "@ + message,
            ModelErrorView::Hub(message) => "Hugging Face failed: "@ + message,
            ModelErrorView::Manifest(message) => "model manifest failed: "@ + message,
            ModelErrorView::Verification(message) => "model verification failed: "@ + message,
            ModelErrorView::Cancelled => "model installation cancelled"@,
        }
    }
}

impl ModelError {
    /// The message that describes the error.
    pub fn to_string(&self) -> (text: String)
        ensures
            text@ == self@.message(),
    {
        let (label, message) = match self {
            ModelError::Io(message) => ("model I/O failed: ", message),
            ModelError::Hub(message) => ("Hugging Face failed: ", message),
            ModelError::Manifest(message) => ("model manifest failed: ", message),
            ModelError::Verification(message) => ("model verification failed: ", message),
            ModelError::Cancelled => {
                return "model installation cancelled".to_owned();
            },
        };
        let mut text = label.to_owned();
        text.append(message);
        text
    }
}

/// The first model from `from` on with an identifier.
pub open spec fn find_model(models: Seq<ModelView>, id: Seq<char>, from: int) -> Option<ModelView>
    decreases models.len() - from,
{
    if !(0 <= from < models.len()) {
        None
    } else if models[from].id == id {
        Some(models[from])
    } else {
        find_model(models, id, from + 1)
    }
}

/// The error for an identifier that is not in the catalog.
pub open spec fn unsupported_model(id: Seq<char>) -> ModelErrorView {
    ModelErrorView::Manifest("unsupported model: "@ + id)
}

/// Resolves a user-facing catalog identifier without accessing the network.
pub fn model_spec(id: &str) -> (found: Result<ModelSpec, ModelError>)
    ensures
        match (found, find_model(catalog(), id@, 0)) {
            (Ok(found), Some(expected)) => found@ == expected && found@.id == id@,
            (Err(error), None) => error@ == unsupported_model(id@),
            _ => false,
        },
{
    let models = alphacep_models();
    let mut i: usize = 0;
    while i < models.len()
        invariant
            0 <= i <= models@.len(),
            views(models@) == catalog(),
            find_model(catalog(), id@, 0) == find_model(catalog(), id@, i as int),
        decreases models@.len() - i,
    {
        assert(catalog()[i as int] == models@[i as int]@);
        if same_text(models[i].id, id) {
            return Ok(models[i]);
        }
        i = i + 1;
    }
    let mut message = "unsupported model: ".to_owned();
    message.append(id);
    Err(ModelError::Manifest(message))
}

/// The part of a text behind its first `/`, or the whole text where it has none.
pub open spec fn behind_slash(text: Seq<char>, from: int) -> Seq<char>
    decreases text.len() - from,
{
    if !(0 <= from < text.len()) {
        text
    } else if text[from] == '/' {
        text.skip(from + 1)
    } else {
        behind_slash(text, from + 1)
    }
}

/// The directory name of a model: its identifier without the owner.
pub fn storage_name(spec: ModelSpec) -> (name: String)
    ensures
        name@ == behind_slash(spec@.id, 0),
{
    let chars = chars_of(spec.id);
    let mut i: usize = 0;
    while i < chars.len()
        invariant
            0 <= i <= chars@.len(),
            chars@ == spec@.id,
            behind_slash(spec@.id, 0) == behind_slash(spec@.id, i as int),
        decreases chars@.len() - i,
    {
        if chars[i] == '/' {
            assert(chars@.skip(i + 1) =~= chars@.subrange(i + 1, chars@.len() as int));
            return text_between(&chars, i + 1, chars.len());
        }
        i = i + 1;
    }
    spec.id.to_owned()
}

/// One verified file in a model manifest.
#[derive(Debug, Clone, PartialEq, Eq)]
pub struct ModelFile {
    /// Safe relative path below the revision directory.
    pub path: String,
    /// Expected byte length.
    pub size: u64,
    /// Lowercase SHA-256 digest.
    pub sha256: String,
}

/// What a [`ModelFile`] says.
pub struct FileView {
    /// Safe relative path below the revision directory.
    pub path: Seq<char>,
    /// Expected byte length.
    pub size: u64,
    /// Lowercase SHA-256 digest.
    pub sha256: Seq<char>,
}

impl View for ModelFile {
    type V = FileView;

    open spec fn view(&self) -> FileView {
        FileView { path: self.path@, size: self.size, sha256: self.sha256@ }
    }
}

/// Offline verification metadata stored beside one model revision.
#[derive(Debug, Clone, PartialEq, Eq)]
pub struct ModelManifest {
    /// Manifest format version.
    pub schema_version: u16,
    /// Core model identifier.
    pub model_id: String,
    /// Source repository.
    pub repo_id: String,
    /// Immutable source commit SHA.
    pub revision: String,
    /// Required inference runtime.
    pub runtime: String,
    /// Model language code.
    pub language: String,
    /// Required audio sample rate.
    pub sample_rate: u32,
    /// Upstream model license identifier.
    pub license: String,
    /// Verified allowlisted files.
    pub files: Vec<ModelFile>,
}

/// What a [`ModelManifest`] says.
pub struct ManifestView {
    /// Manifest format version.
    pub schema_version: u16,
    /// Core model identifier.
    pub model_id: Seq<char>,
    /// Source repository.
    pub repo_id: Seq<char>,
    /// Immutable source commit SHA.
    pub revision: Seq<char>,
    /// Required inference runtime.
    pub runtime: Seq<char>,
    /// Model language code.
    pub language: Seq<char>,
    /// Required audio sample rate.
    pub sample_rate: u32,
    /// Upstream model license identifier.
    pub license: Seq<char>,
    /// Verified allowlisted files.
    pub files: Seq<FileView>,
}

impl View for ModelManifest {
    type V = ManifestView;

    open spec fn view(&self) -> ManifestView {
        ManifestView {
            schema_version: self.schema_version,
            model_id: self.model_id@,
            repo_id: self.repo_id@,
            revision: self.revision@,
            runtime: self.runtime@,
            language: self.language@,
            sample_rate: self.sample_rate,
            license: self.license@,
            files: views(self.files@),
        }
    }
}

/// Whether a manifest describes a model of the catalog; the stock model may carry its historical
/// name.
pub open spec fn metadata_matches(manifest: ManifestView, spec: ModelView) -> bool {
    &&& manifest.schema_version == 1
    &&& manifest.model_id == spec.id || (spec.id == ALPHACEP_STREAMING_RU_REPO@ && manifest.model_id
        == "stt-ru-streaming"@)
    &&& manifest.repo_id == spec.id
    &&& manifest.revision == spec.revision
    &&& manifest.runtime == "sherpa-onnx"@
    &&& manifest.language == spec.language
    &&& manifest.sample_rate == 16_000
    &&& manifest.license == "Apache-2.0"@
}

/// Whether every path is plain and no two are the same.
pub open spec fn paths_safe(manifest: ManifestView, plain: Seq<bool>) -> bool {
    &&& forall|i: int| 0 <= i < manifest.files.len() ==> #[trigger] plain[i]
    &&& forall|i: int, j: int|
        0 <= i < j < manifest.files.len() ==> (#[trigger] manifest.files[i]).path != (
        #[trigger] manifest.files[j]).path
}

/// Whether a file is listed.
pub open spec fn lists(manifest: ManifestView, path: Seq<char>) -> bool {
    exists|i: int| 0 <= i < manifest.files.len() && (#[trigger] manifest.files[i]).path == path
}

/// Whether every required file is listed.
pub open spec fn lists_required(manifest: ManifestView, spec: ModelView) -> bool {
    forall|i: int| 0 <= i < spec.files.len() ==> lists(manifest, #[trigger] spec.files[i])
}

/// What is wrong with a manifest, given which of its paths are plain.
pub open spec fn manifest_error(manifest: ManifestView, plain: Seq<bool>) -> Option<ModelErrorView> {
    match find_model(catalog(), manifest.repo_id, 0) {
        None => Some(unsupported_model(manifest.repo_id)),
        Some(spec) => if !metadata_matches(manifest, spec) {
            Some(ModelErrorView::Verification("unexpected model manifest metadata"@))
        } else if !paths_safe(manifest, plain) {
            Some(
                ModelErrorView::Verification("manifest contains an unsafe or duplicate path"@),
            )
        } else if !lists_required(manifest, spec) {
            Some(
                ModelErrorView::Verification("manifest does not contain every required file"@),
            )
        } else {
            None
        },
    }
}

/// Whether a check failed with the expected error, or passed where none is expected.
pub open spec fn model_fails_with(checked: Result<(), ModelError>, expected: Option<ModelErrorView>) -> bool {
    match (checked, expected) {
        (Ok(_), None) => true,
        (Err(error), Some(view)) => error@ == view,
        _ => false,
    }
}

/// The components of a path, as `std::path` splits it.
#[verifier::external_type_specification]
#[verifier::external_body]
#[allow(dead_code)]
pub struct ExComponents<'a>(std::path::Components<'a>);

/// What a component of a path is.
#[derive(Debug, Clone, Copy, PartialEq, Eq, Structural)]
pub enum ComponentKind {
    /// A drive or a share.
    Prefix,
    /// The root directory.
    Root,
    /// The directory itself.
    Current,
    /// The directory above.
    Parent,
    /// A name.
    Normal,
}

/// The kinds of the components that are still to come, in order.
pub uninterp spec fn remaining(components: std::path::Components<'_>) -> Seq<ComponentKind>;

/// Whether every component is a name.
pub open spec fn names_only(kinds: Seq<ComponentKind>) -> bool {
    forall|i: int| 0 <= i < kinds.len() ==> (#[trigger] kinds[i]) == ComponentKind::Normal
}

/// Whether a part of a path lies between slashes, or between a slash and an end of the path.
pub open spec fn is_segment(path: Seq<char>, start: int, end: int) -> bool {
    &&& 0 <= start <= end <= path.len()
    &&& start == 0 || path[start - 1] == '/'
    &&& end == path.len() || path[end] == '/'
    &&& forall|i: int| start <= i < end ==> (#[trigger] path[i]) != '/'
}

/// Whether a path starts at the root or at the directory itself, or goes to a directory above.
pub open spec fn strays(path: Seq<char>) -> bool {
    ||| path.len() > 0 && path[0] == '/'
    ||| exists|end: int| #[trigger] is_segment(path, 0, end) && path.subrange(0, end) == seq!['.']
    ||| exists|start: int, end: int| #[trigger]
        is_segment(path, start, end) && path.subrange(start, end) == seq!['.', '.']
}

/// Whether slashes alone structure a path: it has neither a backslash nor a colon, which separate
/// components or name drives on some platforms.
pub open spec fn is_portable(path: Seq<char>) -> bool {
    &&& path.len() > 0
    &&& forall|i: int| 0 <= i < path.len() ==> (#[trigger] path[i]) != '\\' && path[i] != ':'
}

/// Whether an answer to the question if a path is made of names only is right. A path that strays
/// is not; a portable one that does not stray is; of others the platform decides.
pub open spec fn is_plain(path: Seq<char>, plain: bool) -> bool {
    &&& strays(path) ==> !plain
    &&& is_portable(path) && !strays(path) ==> plain
}

/// Calls `Path::components`, which on Unix and on Windows takes slashes for separators, ignores
/// repeated ones and a `.` that is not at the beginning, and makes a component of everything else:
/// the root of a leading slash, the directory itself of a leading `.`, the directory above of a
/// `..`, and a name of any other part. A backslash or a colon has a meaning on Windows only, and
/// whether a path that holds one is made of names is left unsaid, unless it strays by its slashes.
/// So is whether the empty path is.
#[verifier::external_body]
fn components_of(path: &str) -> (components: std::path::Components<'_>)
    ensures
        is_plain(path@, names_only(remaining(components))),
{
    std::path::Path::new(path).components()
}

/// Calls `Components::next` and tells which kind of component came: the first of the remaining
/// ones, which is then taken off, or none where none remains.
#[verifier::external_body]
fn next_component(components: &mut std::path::Components<'_>) -> (kind: Option<ComponentKind>)
    ensures
        match kind {
            Some(kind) => remaining(*old(components)).len() > 0 && kind == remaining(
                *old(components),
            )[0] && remaining(*final(components)) == remaining(*old(components)).skip(1),
            None => remaining(*old(components)).len() == 0 && remaining(*final(components)).len()
                == 0,
        },
{
    components.next().map(
        |component|
            match component {
                std::path::Component::Prefix(_) => ComponentKind::Prefix,
                std::path::Component::RootDir => ComponentKind::Root,
                std::path::Component::CurDir => ComponentKind::Current,
                std::path::Component::ParentDir => ComponentKind::Parent,
                std::path::Component::Normal(_) => ComponentKind::Normal,
            },
    )
}

/// Tells whether all components that are still to come are names.
pub fn are_names(components: std::path::Components<'_>) -> (answer: bool)
    ensures
        answer == names_only(remaining(components)),
{
    let mut rest = components;
    let ghost kinds = remaining(components);
    let ghost mut seen: int = 0;
    assert(kinds.skip(0) =~= kinds);
    loop
        invariant
            0 <= seen <= kinds.len(),
            kinds == remaining(components),
            remaining(rest) == kinds.skip(seen),
            forall|i: int| 0 <= i < seen ==> (#[trigger] kinds[i]) == ComponentKind::Normal,
        decreases kinds.len() - seen,
    {
        match next_component(&mut rest) {
            None => {
                return true;
            },
            Some(ComponentKind::Normal) => {
                proof {
                    assert(kinds.skip(seen)[0] == kinds[seen]);
                    assert(kinds.skip(seen).skip(1) =~= kinds.skip(seen + 1));
                    seen = seen + 1;
                }
            },
            Some(_) => {
                assert(kinds.skip(seen)[0] == kinds[seen]);
                return false;
            },
        }
    }
}

/// Tells whether a path is made of names only.
fn has_plain_components(path: &str) -> (plain: bool)
    ensures
        is_plain(path@, plain),
{
    are_names(components_of(path))
}

/// Which paths of a manifest are made of names only, where all of them are portable.
pub open spec fn portable_verdicts(manifest: ManifestView) -> Seq<bool> {
    Seq::new(manifest.files.len(), |i: int| !strays(manifest.files[i].path))
}

/// Whether every path of a manifest is portable.
pub open spec fn has_portable_paths(manifest: ManifestView) -> bool {
    forall|i: int| 0 <= i < manifest.files.len() ==> is_portable((#[trigger] manifest.files[i]).path)
}

impl ModelManifest {
    /// The manifest of a fresh installation.
    pub fn for_installation(spec: ModelSpec, files: Vec<ModelFile>) -> (manifest: Self)
        ensures
            manifest@ == installed_manifest(spec@, views(files@)),
    {
        ModelManifest {
            schema_version: 1,
            model_id: spec.id.to_owned(),
            repo_id: spec.id.to_owned(),
            revision: spec.revision.to_owned(),
            runtime: "sherpa-onnx".to_owned(),
            language: spec.language.to_owned(),
            sample_rate: 16_000,
            license: "Apache-2.0".to_owned(),
            files,
        }
    }

    /// Tells whether the metadata is that of a model.
    fn has_metadata_of(&self, spec: ModelSpec) -> (answer: bool)
        ensures
            answer == metadata_matches(self@, spec@),
    {
        self.schema_version == 1 && (same_text(&self.model_id, spec.id) || (same_text(
            spec.id,
            ALPHACEP_STREAMING_RU_REPO,
        ) && same_text(&self.model_id, "stt-ru-streaming"))) && same_text(&self.repo_id, spec.id)
            && same_text(&self.revision, spec.revision) && same_text(&self.runtime, "sherpa-onnx")
            && same_text(&self.language, spec.language) && self.sample_rate == 16_000 && same_text(
            &self.license,
            "Apache-2.0",
        )
    }

    /// Tells whether every path is plain and no two are the same.
    fn has_safe_paths(&self, plain: &Vec<bool>) -> (answer: bool)
        requires
            plain@.len() == self.files@.len(),
        ensures
            answer == paths_safe(self@, plain@),
    {
        let mut seen: Vec<String> = Vec::new();
        let mut i: usize = 0;
        while i < self.files.len()
            invariant
                0 <= i <= self.files@.len(),
                plain@.len() == self.files@.len(),
                seen@.len() == i,
                forall|j: int| 0 <= j < i ==> (#[trigger] views(seen@)[j]) == self@.files[j].path,
                forall|j: int| 0 <= j < i ==> #[trigger] plain@[j],
                forall|a: int, b: int|
                    0 <= a < b < i ==> (#[trigger] self@.files[a]).path != (
                    #[trigger] self@.files[b]).path,
            decreases self.files@.len() - i,
        {
            assert(self@.files[i as int] == self.files@[i as int]@);
            if !plain[i] {
                return false;
            }
            if contains_text(&seen, &self.files[i].path) {
                proof {
                    let j = choose|j: int|
                        0 <= j < views(seen@).len() && views(seen@)[j] == self@.files[i as int].path;
                    assert(self@.files[j].path == self@.files[i as int].path);
                }
                return false;
            }
            proof {
                assert forall|a: int| 0 <= a < i implies (#[trigger] self@.files[a]).path
                    != self@.files[i as int].path by {
                    assert(views(seen@)[a] == self@.files[a].path);
                }
            }
            let ghost before = views(seen@);
            seen.push(self.files[i].path.clone());
            assert(views(seen@) =~= before.push(self@.files[i as int].path));
            i = i + 1;
        }
        true
    }

    /// Tells whether a file is listed.
    fn has_file(&self, path: &str) -> (answer: bool)
        ensures
            answer == lists(self@, path@),
    {
        let mut i: usize = 0;
        while i < self.files.len()
            invariant
                0 <= i <= self.files@.len(),
                forall|j: int| 0 <= j < i ==> (#[trigger] self@.files[j]).path != path@,
            decreases self.files@.len() - i,
        {
            assert(self@.files[i as int] == self.files@[i as int]@);
            if same_text(&self.files[i].path, path) {
                return true;
            }
            i = i + 1;
        }
        false
    }

    /// Tells whether every required file is listed.
    fn has_required_files(&self, spec: ModelSpec) -> (answer: bool)
        ensures
            answer == lists_required(self@, spec@),
    {
        let required = spec.files();
        let mut i: usize = 0;
        while i < required.len()
            invariant
                0 <= i <= required@.len(),
                views(required@) == spec@.files,
                forall|j: int| 0 <= j < i ==> lists(self@, #[trigger] spec@.files[j]),
            decreases required@.len() - i,
        {
            assert(spec@.files[i as int] == required@[i as int]@);
            if !self.has_file(required[i]) {
                return false;
            }
            i = i + 1;
        }
        true
    }

    /// Checks metadata, paths and completeness, given which paths are plain.
    pub fn check_with_paths(&self, plain: &Vec<bool>) -> (checked: Result<(), ModelError>)
        requires
            plain@.len() == self.files@.len(),
        ensures
            model_fails_with(checked, manifest_error(self@, plain@)),
    {
        let spec = match model_spec(&self.repo_id) {
            Ok(spec) => spec,
            Err(error) => {
                return Err(error);
            },
        };
        if !self.has_metadata_of(spec) {
            return Err(
                ModelError::Verification("unexpected model manifest metadata".to_owned()),
            );
        }
        if !self.has_safe_paths(plain) {
            return Err(
                ModelError::Verification(
                    "manifest contains an unsafe or duplicate path".to_owned(),
                ),
            );
        }
        if !self.has_required_files(spec) {
            return Err(
                ModelError::Verification(
                    "manifest does not contain every required file".to_owned(),
                ),
            );
        }
        Ok(())
    }

    /// Checks metadata, safe paths and completeness. Where a path is not portable, the platform
    /// decides whether it is plain; for each answer the outcome is the one that
    /// [`Self::check_with_paths`] states.
    pub fn check(&self) -> (checked: Result<(), ModelError>)
        ensures
            has_portable_paths(self@) ==> model_fails_with(
                checked,
                manifest_error(self@, portable_verdicts(self@)),
            ),
            exists|plain: Seq<bool>|
                {
                    &&& plain.len() == self@.files.len()
                    &&& forall|i: int|
                        0 <= i < plain.len() ==> is_plain(
                            self@.files[i].path,
                            #[trigger] plain[i],
                        )
                    &&& model_fails_with(checked, #[trigger] manifest_error(self@, plain))
                },
    {
        let mut plain: Vec<bool> = Vec::new();
        let mut i: usize = 0;
        while i < self.files.len()
            invariant
                0 <= i <= self.files@.len(),
                plain@.len() == i,
                forall|j: int|
                    0 <= j < i ==> is_plain(self@.files[j].path, #[trigger] plain@[j]),
            decreases self.files@.len() - i,
        {
            assert(self@.files[i as int] == self.files@[i as int]@);
            plain.push(has_plain_components(&self.files[i].path));
            i = i + 1;
        }
        let checked = self.check_with_paths(&plain);
        proof {
            assert(model_fails_with(checked, manifest_error(self@, plain@)));
            if has_portable_paths(self@) {
                assert forall|j: int| 0 <= j < plain@.len() implies plain@[j]
                    == portable_verdicts(self@)[j] by {
                    assert(is_portable(self@.files[j].path));
                    assert(is_plain(self@.files[j].path, plain@[j]));
                }
                assert(plain@ =~= portable_verdicts(self@));
            }
        }
        checked
    }
}

/// The manifest of a fresh installation.
pub open spec fn installed_manifest(spec: ModelView, files: Seq<FileView>) -> ManifestView {
    ManifestView {
        schema_version: 1,
        model_id: spec.id,
        repo_id: spec.id,
        revision: spec.revision,
        runtime: "sherpa-onnx"@,
        language: spec.language,
        sample_rate: 16_000,
        license: "Apache-2.0"@,
        files,
    }
}

/// The SHA-256 digest of bytes, as `sha2::Sha256` computes it.
pub uninterp spec fn sha256(bytes: Seq<u8>) -> Seq<u8>;

/// Calls `sha2::Sha256::digest`: the 32 bytes of the digest are a function of the input alone.
#[verifier::external_body]
fn sha256_of(bytes: &Vec<u8>) -> (digest: Vec<u8>)
    ensures
        digest@ == sha256(bytes@),
        digest@.len() == 32,
{
    <sha2::Sha256 as sha2::Digest>::digest(bytes).to_vec()
}

/// The lower-case hexadecimal SHA-256 digest of bytes.
pub fn digest(contents: &Vec<u8>) -> (text: String)
    ensures
        text@ == hexadecimal_bytes(sha256(contents@)),
{
    hexadecimal_text(&sha256_of(contents))
}

/// Whether a file is what its manifest entry says, given its length and digest.
pub open spec fn file_intact(file: FileView, size: u64, sha256: Seq<char>) -> bool {
    size == file.size && sha256 == file.sha256
}

/// Compares a file's length and digest with its manifest entry.
pub fn check_file(file: &ModelFile, size: u64, sha256: &str) -> (checked: Result<(), ModelError>)
    ensures
        model_fails_with(
            checked,
            if file_intact(file@, size, sha256@) {
                None
            } else {
                Some(ModelErrorView::Verification(file@.path))
            },
        ),
        checked is Ok ==> size == file.size,
        checked is Ok ==> sha256@ == file.sha256@,
        size == file.size && sha256@ == file.sha256@ ==> checked is Ok,
        checked matches Err(error) ==> error@ == ModelErrorView::Verification(file.path@),
{
    if size != file.size || !same_text(sha256, &file.sha256) {
        return Err(ModelError::Verification(file.path.clone()));
    }
    Ok(())
}

/// Verifies one installed file against its manifest entry.
pub fn verify_file(file: &ModelFile, size: u64, contents: &Vec<u8>) -> (checked: Result<(), ModelError>)
    ensures
        model_fails_with(
            checked,
            if file_intact(file@, size, hexadecimal_bytes(sha256(contents@))) {
                None
            } else {
                Some(ModelErrorView::Verification(file@.path))
            },
        ),
        checked is Ok ==> size == file.size,
        checked is Ok ==> hexadecimal_bytes(sha256(contents@)) == file.sha256@,
        size == file.size && hexadecimal_bytes(sha256(contents@)) == file.sha256@ ==> checked is Ok,
        checked matches Err(error) ==> error@ == ModelErrorView::Verification(file.path@),
{
    check_file(file, size, &digest(contents))
}

/// What became of fetching a model file from its source.
pub enum SourceOutcome<T> {
    /// The file is there.
    Ready(T),
    /// The source failed.
    Failed(String),
    /// The source panicked, perhaps with a text.
    Panicked(Option<String>),
}

/// The error of a source, if it failed or panicked.
pub open spec fn source_error<T>(relative: Seq<char>, outcome: SourceOutcome<T>) -> Option<ModelErrorView> {
    match outcome {
        SourceOutcome::Ready(_) => None,
        SourceOutcome::Failed(message) => Some(ModelErrorView::Hub(message@)),
        SourceOutcome::Panicked(detail) => Some(
            ModelErrorView::Hub(
                "model source failed to prepare "@ + relative + ": "@ + match detail {
                    Some(detail) => detail@,
                    None => "non-string panic"@,
                },
            ),
        ),
    }
}

/// Turns a failed or panicked source into a typed error.
pub fn model_source<T>(relative: &str, outcome: SourceOutcome<T>) -> (source: Result<T, ModelError>)
    ensures
        match (source, source_error(relative@, outcome)) {
            (Ok(source), None) => outcome == SourceOutcome::Ready(source),
            (Err(error), Some(expected)) => error@ == expected,
            _ => false,
        },
{
    match outcome {
        SourceOutcome::Ready(source) => Ok(source),
        SourceOutcome::Failed(message) => Err(ModelError::Hub(message)),
        SourceOutcome::Panicked(detail) => {
            let mut message = "model source failed to prepare ".to_owned();
            message.append(relative);
            message.append(": ");
            match detail {
                Some(detail) => {
                    message.append(&detail);
                },
                None => {
                    message.append("non-string panic");
                },
            }
            Err(ModelError::Hub(message))
        },
    }
}

/// Refuses an installation where too little space is free.
pub fn check_free_space(available: u64) -> (checked: Result<(), ModelError>)
    ensures
        model_fails_with(
            checked,
            if available < MODEL_INSTALL_MIN_FREE_BYTES {
                Some(
                    ModelErrorView::Verification(
                        "model installation requires at least 256 MiB free"@,
                    ),
                )
            } else {
                None
            },
        ),
{
    if available < MODEL_INSTALL_MIN_FREE_BYTES {
        return Err(
            ModelError::Verification(
                "model installation requires at least 256 MiB free".to_owned(),
            ),
        );
    }
    Ok(())
}

/// Bounded install progress emitted between allowlisted files.
#[derive(Debug, Clone, PartialEq, Eq)]
pub struct ModelInstallProgress {
    /// Files copied and hashed so far.
    pub completed_files: usize,
    /// Total allowlisted files.
    pub total_files: usize,
    /// Current relative path, if any.
    pub file: Option<String>,
}

/// What a [`ModelInstallProgress`] reports.
pub struct ProgressView {
    /// Files copied and hashed so far.
    pub completed_files: int,
    /// Total allowlisted files.
    pub total_files: int,
    /// Current relative path, if any.
    pub file: Option<Seq<char>>,
}

impl View for ModelInstallProgress {
    type V = ProgressView;

    open spec fn view(&self) -> ProgressView {
        ProgressView {
            completed_files: self.completed_files as int,
            total_files: self.total_files as int,
            file: option_view(self.file),
        }
    }
}

/// Where an installed model is looked for, below the root.
pub struct ModelLocation {
    /// Directory of the model.
    pub storage: String,
    /// Directory of the revision.
    pub revision: String,
}

/// The directory of a model: its own, or the historical one of the stock model where its own does
/// not exist.
pub open spec fn storage_of(spec: ModelView, own_exists: bool) -> Seq<char> {
    if !own_exists && spec.id == ALPHACEP_STREAMING_RU_REPO@ {
        "stt-ru-streaming"@
    } else {
        behind_slash(spec.id, 0)
    }
}

/// Installs and verifies pinned catalog models below a caller-selected root.
#[derive(Debug, Clone, PartialEq, Eq)]
pub struct ModelManager {
    /// The root directory.
    pub root: String,
}

impl ModelManager {
    /// Creates a manager without accessing disk or network.
    pub fn new(root: String) -> (manager: Self)
        ensures
            manager.root@ == root@,
    {
        ModelManager { root }
    }

    /// Tells where an installed catalog revision is looked for, given whether the directory named
    /// after the model exists.
    pub fn resolve(&self, model_id: &str, own_exists: bool) -> (location: Result<ModelLocation, ModelError>)
        ensures
            match (location, find_model(catalog(), model_id@, 0)) {
                (Ok(location), Some(spec)) => location.storage@ == storage_of(spec, own_exists)
                    && location.revision@ == spec.revision,
                (Err(error), None) => error@ == unsupported_model(model_id@),
                _ => false,
            },
    {
        match model_spec(model_id) {
            Err(error) => Err(error),
            Ok(spec) => {
                let storage = if !own_exists && same_text(spec.id, ALPHACEP_STREAMING_RU_REPO) {
                    "stt-ru-streaming".to_owned()
                } else {
                    storage_name(spec)
                };
                Ok(ModelLocation { storage, revision: spec.revision.to_owned() })
            },
        }
    }

    /// Begins the installation of a catalog model.
    pub fn install(&self, model_id: &str) -> (installation: Result<Installation, ModelError>)
        ensures
            match (installation, find_model(catalog(), model_id@, 0)) {
                (Ok(installation), Some(spec)) => installation@ == InstallationView::begun(spec),
                (Err(error), None) => error@ == unsupported_model(model_id@),
                _ => false,
            },
    {
        match model_spec(model_id) {
            Err(error) => Err(error),
            Ok(spec) => {
                let installation = Installation {
                    spec,
                    phase: InstallPhase::Resolving,
                    files: Vec::new(),
                    quarantined: false,
                };
                assert(installation@.files =~= Seq::empty());
                Ok(installation)
            },
        }
    }
}

/// What an installation waits for.
#[derive(Debug, Clone, Copy, PartialEq, Eq, Structural)]
pub enum InstallPhase {
    /// An installed revision is looked for.
    Resolving,
    /// Writability and free space are probed.
    Preflight,
    /// An earlier installation in the destination is verified.
    Inspecting,
    /// An invalid installation is moved aside.
    Quarantining,
    /// The temporary directory is created.
    Creating,
    /// A file is fetched and hashed.
    Fetching,
    /// The manifest is written.
    Writing,
    /// The temporary directory is verified.
    Verifying,
    /// The temporary directory becomes the destination.
    Publishing,
    /// The installation that was moved aside is removed.
    Discarding,
    /// The installation is over.
    Over,
}

/// A model installation in progress.
pub struct Installation {
    spec: ModelSpec,
    phase: InstallPhase,
    files: Vec<ModelFile>,
    quarantined: bool,
}

/// What an [`Installation`] holds.
#[verifier::ext_equal]
pub struct InstallationView {
    /// The model.
    pub spec: ModelView,
    /// What is waited for.
    pub phase: InstallPhase,
    /// Files fetched so far.
    pub files: Seq<FileView>,
    /// Whether an invalid installation was moved aside.
    pub quarantined: bool,
}

impl View for Installation {
    type V = InstallationView;

    closed spec fn view(&self) -> InstallationView {
        InstallationView {
            spec: self.spec@,
            phase: self.phase,
            files: views(self.files@),
            quarantined: self.quarantined,
        }
    }
}

/// What the outside did.
pub enum InstallEvent {
    /// The last action succeeded.
    Succeeded,
    /// The last action failed.
    Failed(ModelError),
    /// The probe found this much free space.
    Probed(u64),
    /// Nothing is in the destination.
    Absent,
    /// The file was fetched; its length and digest.
    Fetched(u64, String),
}

/// What the outside has to do.
pub enum InstallAction {
    /// Create the model directory, then probe writability and free space.
    Probe,
    /// Verify what is in the destination.
    Inspect,
    /// Move the destination aside.
    Quarantine,
    /// Create the temporary directory.
    CreateTemporary,
    /// Fetch one file into the temporary directory and hash it.
    Fetch(&'static str),
    /// Write the manifest into the temporary directory.
    WriteManifest(ModelManifest),
    /// Verify the temporary directory.
    VerifyTemporary,
    /// Make the temporary directory the destination.
    Publish,
    /// Remove what was moved aside.
    DiscardQuarantine,
    /// Nothing more: the model that was there already is intact.
    KeepExisting(ModelInstallProgress),
    /// Nothing more: the model is installed.
    Finish,
    /// Nothing was set up that has to be undone: return the error.
    Fail(ModelError),
    /// Remove the temporary directory, move a quarantined installation back where the destination
    /// is free, then return the error.
    RollBack(ModelError, bool),
}

/// What an [`InstallAction`] asks for.
pub enum InstallActionView {
    /// Probe writability and free space.
    Probe,
    /// Verify what is in the destination.
    Inspect,
    /// Move the destination aside.
    Quarantine,
    /// Create the temporary directory.
    CreateTemporary,
    /// Fetch one file.
    Fetch(Seq<char>),
    /// Write the manifest.
    WriteManifest(ManifestView),
    /// Verify the temporary directory.
    VerifyTemporary,
    /// Publish the temporary directory.
    Publish,
    /// Remove what was moved aside.
    DiscardQuarantine,
    /// The model that was there already is intact.
    KeepExisting(ProgressView),
    /// The model is installed.
    Finish,
    /// Return the error.
    Fail(ModelErrorView),
    /// Undo, then return the error.
    RollBack(ModelErrorView, bool),
}

impl View for InstallAction {
    type V = InstallActionView;

    open spec fn view(&self) -> InstallActionView {
        match self {
            InstallAction::Probe => InstallActionView::Probe,
            InstallAction::Inspect => InstallActionView::Inspect,
            InstallAction::Quarantine => InstallActionView::Quarantine,
            InstallAction::CreateTemporary => InstallActionView::CreateTemporary,
            InstallAction::Fetch(file) => InstallActionView::Fetch(file@),
            InstallAction::WriteManifest(manifest) => InstallActionView::WriteManifest(manifest@),
            InstallAction::VerifyTemporary => InstallActionView::VerifyTemporary,
            InstallAction::Publish => InstallActionView::Publish,
            InstallAction::DiscardQuarantine => InstallActionView::DiscardQuarantine,
            InstallAction::KeepExisting(progress) => InstallActionView::KeepExisting(progress@),
            InstallAction::Finish => InstallActionView::Finish,
            InstallAction::Fail(error) => InstallActionView::Fail(error@),
            InstallAction::RollBack(error, restore) => InstallActionView::RollBack(
                error@,
                *restore,
            ),
        }
    }
}

impl InstallationView {
    /// An installation at its beginning.
    pub open spec fn begun(spec: ModelView) -> Self {
        InstallationView {
            spec,
            phase: InstallPhase::Resolving,
            files: Seq::empty(),
            quarantined: false,
        }
    }

    /// The installation in another phase.
    pub open spec fn at(self, phase: InstallPhase) -> Self {
        InstallationView { phase, ..self }
    }

    /// Whether an event answers what is waited for.
    pub open spec fn expects(self, event: InstallEvent) -> bool {
        match self.phase {
            InstallPhase::Resolving => event is Succeeded || event is Failed,
            InstallPhase::Preflight => event is Probed || event is Failed,
            InstallPhase::Inspecting => event is Succeeded || event is Failed || event is Absent,
            InstallPhase::Fetching => self.files.len() < self.spec.files.len() && (
            event is Fetched || event is Failed),
            InstallPhase::Over => false,
            _ => event is Succeeded || event is Failed,
        }
    }

    /// What is reported of a model that is complete.
    pub open spec fn whole(self) -> ProgressView {
        ProgressView {
            completed_files: self.spec.files.len() as int,
            total_files: self.spec.files.len() as int,
            file: None,
        }
    }

    /// What is reported of the files fetched so far.
    pub open spec fn progress(self) -> ProgressView {
        ProgressView {
            completed_files: self.files.len() as int,
            total_files: self.spec.files.len() as int,
            file: Some(self.spec.files[self.files.len() - 1]),
        }
    }

    /// Gives the installation up before anything was set up.
    pub open spec fn refused(self, error: ModelErrorView) -> (Self, InstallActionView) {
        (self.at(InstallPhase::Over), InstallActionView::Fail(error))
    }

    /// Gives the installation up and undoes what was set up.
    pub open spec fn undone(self, error: ModelErrorView) -> (Self, InstallActionView) {
        (self.at(InstallPhase::Over), InstallActionView::RollBack(error, self.quarantined))
    }

    /// Fetches the next file, or turns to the manifest where all are fetched.
    pub open spec fn fetch(self, cancelled: bool) -> (Self, InstallActionView) {
        if self.files.len() >= self.spec.files.len() {
            (
                self.at(InstallPhase::Writing),
                InstallActionView::WriteManifest(installed_manifest(self.spec, self.files)),
            )
        } else if cancelled {
            self.undone(ModelErrorView::Cancelled)
        } else {
            (
                self.at(InstallPhase::Fetching),
                InstallActionView::Fetch(self.spec.files[self.files.len() as int]),
            )
        }
    }

    /// What follows from an event.
    pub open spec fn advance(self, event: InstallEvent, cancelled: bool) -> (Self, InstallActionView) {
        match (self.phase, event) {
            (InstallPhase::Resolving, InstallEvent::Succeeded) => (
                self.at(InstallPhase::Over),
                InstallActionView::KeepExisting(self.whole()),
            ),
            (InstallPhase::Resolving, _) => (
                self.at(InstallPhase::Preflight),
                InstallActionView::Probe,
            ),
            (InstallPhase::Preflight, InstallEvent::Probed(available)) => if available
                < MODEL_INSTALL_MIN_FREE_BYTES {
                self.refused(
                    ModelErrorView::Verification(
                        "model installation requires at least 256 MiB free"@,
                    ),
                )
            } else {
                (self.at(InstallPhase::Inspecting), InstallActionView::Inspect)
            },
            (InstallPhase::Inspecting, InstallEvent::Succeeded) => (
                self.at(InstallPhase::Over),
                InstallActionView::KeepExisting(self.whole()),
            ),
            (InstallPhase::Inspecting, InstallEvent::Absent) => (
                self.at(InstallPhase::Creating),
                InstallActionView::CreateTemporary,
            ),
            (InstallPhase::Inspecting, _) => (
                self.at(InstallPhase::Quarantining),
                InstallActionView::Quarantine,
            ),
            (InstallPhase::Preflight, InstallEvent::Failed(error)) => self.refused(error@),
            (InstallPhase::Quarantining, InstallEvent::Failed(error)) => self.refused(error@),
            (_, InstallEvent::Failed(error)) => self.undone(error@),
            (InstallPhase::Quarantining, _) => (
                InstallationView { phase: InstallPhase::Creating, quarantined: true, ..self },
                InstallActionView::CreateTemporary,
            ),
            (InstallPhase::Creating, _) => self.fetch(cancelled),
            (InstallPhase::Fetching, InstallEvent::Fetched(size, sha256)) => (InstallationView {
                files: self.files.push(
                    FileView {
                        path: self.spec.files[self.files.len() as int],
                        size,
                        sha256: sha256@,
                    },
                ),
                ..self
            }).fetch(cancelled),
            (InstallPhase::Writing, _) => (
                self.at(InstallPhase::Verifying),
                InstallActionView::VerifyTemporary,
            ),
            (InstallPhase::Verifying, _) => if cancelled {
                self.undone(ModelErrorView::Cancelled)
            } else {
                (self.at(InstallPhase::Publishing), InstallActionView::Publish)
            },
            (InstallPhase::Publishing, _) => if self.quarantined {
                (self.at(InstallPhase::Discarding), InstallActionView::DiscardQuarantine)
            } else {
                (self.at(InstallPhase::Over), InstallActionView::Finish)
            },
            _ => (self.at(InstallPhase::Over), InstallActionView::Finish),
        }
    }
}

impl Installation {
    /// The pinned model that is being installed.
    pub fn spec(&self) -> (spec: ModelSpec)
        ensures
            spec@ == self@.spec,
    {
        self.spec
    }

    /// How far fetching has come; the file is the one fetched last.
    pub fn progress(&self) -> (progress: ModelInstallProgress)
        requires
            0 < self@.files.len() <= self@.spec.files.len(),
        ensures
            progress@ == self@.progress(),
    {
        let files = self.spec.files();
        let count: usize = self.files.len();
        assert(views(files@)[count - 1] == files@[count - 1]@);
        ModelInstallProgress {
            completed_files: count,
            total_files: files.len(),
            file: Some(files[count - 1].to_owned()),
        }
    }

    /// Gives the installation up before anything was set up.
    fn refuse(&mut self, error: ModelError) -> (action: InstallAction)
        ensures
            (final(self)@, action@) == old(self)@.refused(error@),
    {
        self.phase = InstallPhase::Over;
        InstallAction::Fail(error)
    }

    /// Gives the installation up and undoes what was set up.
    fn undo(&mut self, error: ModelError) -> (action: InstallAction)
        ensures
            (final(self)@, action@) == old(self)@.undone(error@),
    {
        self.phase = InstallPhase::Over;
        InstallAction::RollBack(error, self.quarantined)
    }

    /// Reports the model that is there already.
    fn keep(&mut self) -> (action: InstallAction)
        ensures
            (final(self)@, action@) == (
                old(self)@.at(InstallPhase::Over),
                InstallActionView::KeepExisting(old(self)@.whole()),
            ),
    {
        self.phase = InstallPhase::Over;
        let total: usize = self.spec.files().len();
        InstallAction::KeepExisting(
            ModelInstallProgress { completed_files: total, total_files: total, file: None },
        )
    }

    /// Fetches the next file, or turns to the manifest where all are fetched.
    fn fetch(&mut self, cancelled: bool) -> (action: InstallAction)
        ensures
            (final(self)@, action@) == old(self)@.fetch(cancelled),
    {
        let required = self.spec.files();
        if self.files.len() >= required.len() {
            self.phase = InstallPhase::Writing;
            let mut files: Vec<ModelFile> = Vec::new();
            let mut i: usize = 0;
            while i < self.files.len()
                invariant
                    0 <= i <= self.files@.len(),
                    views(files@) == views(self.files@).take(i as int),
                decreases self.files@.len() - i,
            {
                let ghost before = views(files@);
                files.push(
                    ModelFile {
                        path: self.files[i].path.clone(),
                        size: self.files[i].size,
                        sha256: self.files[i].sha256.clone(),
                    },
                );
                assert(views(files@) =~= before.push(self.files@[i as int]@));
                assert(views(self.files@).take(i + 1) =~= views(self.files@).take(i as int).push(
                    self.files@[i as int]@,
                ));
                i = i + 1;
            }
            assert(views(self.files@).take(i as int) =~= views(self.files@));
            InstallAction::WriteManifest(ModelManifest::for_installation(self.spec, files))
        } else if cancelled {
            self.undo(ModelError::Cancelled)
        } else {
            self.phase = InstallPhase::Fetching;
            assert(views(required@)[self.files@.len() as int]
                == required@[self.files@.len() as int]@);
            InstallAction::Fetch(required[self.files.len()])
        }
    }

    /// Takes what the outside did and says what it has to do next.
    pub fn advance(&mut self, event: InstallEvent, cancelled: bool) -> (action: InstallAction)
        requires
            old(self)@.expects(event),
        ensures
            (final(self)@, action@) == old(self)@.advance(event, cancelled),
    {
        match self.phase {
            InstallPhase::Resolving => {
                if matches!(event, InstallEvent::Succeeded) {
                    return self.keep();
                }
                self.phase = InstallPhase::Preflight;
                InstallAction::Probe
            },
            InstallPhase::Preflight => match event {
                InstallEvent::Failed(error) => self.refuse(error),
                InstallEvent::Probed(available) => match check_free_space(available) {
                    Err(error) => self.refuse(error),
                    Ok(_) => {
                        self.phase = InstallPhase::Inspecting;
                        InstallAction::Inspect
                    },
                },
                _ => {
                    self.phase = InstallPhase::Over;
                    InstallAction::Finish
                },
            },
            InstallPhase::Inspecting => match event {
                InstallEvent::Succeeded => self.keep(),
                InstallEvent::Absent => {
                    self.phase = InstallPhase::Creating;
                    InstallAction::CreateTemporary
                },
                _ => {
                    self.phase = InstallPhase::Quarantining;
                    InstallAction::Quarantine
                },
            },
            InstallPhase::Quarantining => match event {
                InstallEvent::Failed(error) => self.refuse(error),
                _ => {
                    self.quarantined = true;
                    self.phase = InstallPhase::Creating;
                    InstallAction::CreateTemporary
                },
            },
            InstallPhase::Creating => match event {
                InstallEvent::Failed(error) => self.undo(error),
                _ => self.fetch(cancelled),
            },
            InstallPhase::Fetching => match event {
                InstallEvent::Failed(error) => self.undo(error),
                InstallEvent::Fetched(size, sha256) => {
                    let required = self.spec.files();
                    let ghost before = self@.files;
                    assert(views(required@)[self.files@.len() as int]
                        == required@[self.files@.len() as int]@);
                    let file = ModelFile {
                        path: required[self.files.len()].to_owned(),
                        size,
                        sha256,
                    };
                    let ghost added = file@;
                    self.files.push(file);
                    assert(views(self.files@) =~= before.push(added));
                    self.fetch(cancelled)
                },
                _ => {
                    self.phase = InstallPhase::Over;
                    InstallAction::Finish
                },
            },
            InstallPhase::Writing => match event {
                InstallEvent::Failed(error) => self.undo(error),
                _ => {
                    self.phase = InstallPhase::Verifying;
                    InstallAction::VerifyTemporary
                },
            },
            InstallPhase::Verifying => match event {
                InstallEvent::Failed(error) => self.undo(error),
                _ => {
                    if cancelled {
                        return self.undo(ModelError::Cancelled);
                    }
                    self.phase = InstallPhase::Publishing;
                    InstallAction::Publish
                },
            },
            InstallPhase::Publishing => match event {
                InstallEvent::Failed(error) => self.undo(error),
                _ => {
                    if self.quarantined {
                        self.phase = InstallPhase::Discarding;
                        InstallAction::DiscardQuarantine
                    } else {
                        self.phase = InstallPhase::Over;
                        InstallAction::Finish
                    }
                },
            },
            InstallPhase::Discarding | InstallPhase::Over => match event {
                InstallEvent::Failed(error) => self.undo(error),
                _ => {
                    self.phase = InstallPhase::Over;
                    InstallAction::Finish
                },
            },
        }
    }
}

/// No two models of the catalog have the same identifier.
pub proof fn catalog_ids_are_unique(i: int, j: int)
    requires
        0 <= i < j < catalog().len(),
    ensures
        catalog()[i].id != catalog()[j].id,
{
    reveal_strlit("alphacep/vosk-model-streaming-ru");
    reveal_strlit("alphacep/vosk-model-small-streaming-ru");
    reveal_strlit("alphacep/vosk-model-small-streaming-bn");
    reveal_strlit("alphacep/vosk-model-ru");
    reveal_strlit("alphacep/vosk-model-small-ru");
    reveal_strlit("alphacep/vosk-model-tg");
    reveal_strlit("alphacep/vosk-model-small-streaming-uz");
    let first = catalog()[i].id;
    let second = catalog()[j].id;
    if first.len() == second.len() {
        assert(first[first.len() - 1] != second[second.len() - 1]);
    }
}

proof fn required_files_are_distinct(spec: ModelView, i: int, j: int)
    requires
        spec.files == quantized_files() || spec.files == full_files() || spec.files
            == quantized_short_files() || spec.files == full_files_without_pieces(),
        0 <= i < j < spec.files.len(),
    ensures
        spec.files[i] != spec.files[j],
{
    reveal_strlit("am-onnx/encoder.int8.onnx");
    reveal_strlit("am-onnx/decoder.int8.onnx");
    reveal_strlit("am-onnx/joiner.int8.onnx");
    reveal_strlit("am-onnx/encoder.onnx");
    reveal_strlit("am-onnx/decoder.onnx");
    reveal_strlit("am-onnx/joiner.onnx");
    reveal_strlit("am/encoder.int8.onnx");
    reveal_strlit("am/decoder.int8.onnx");
    reveal_strlit("am/joiner.int8.onnx");
    reveal_strlit("lang/tokens.txt");
    reveal_strlit("lang/bpe.model");
    let first = spec.files[i];
    let second = spec.files[j];
    if first.len() == second.len() {
        assert(first[3] != second[3] || first[8] != second[8]);
    }
}

/// Whether the files of an installation are the first ones that its model requires, in order.
pub open spec fn in_order(installation: InstallationView) -> bool {
    &&& installation.files.len() <= installation.spec.files.len()
    &&& forall|i: int|
        0 <= i < installation.files.len() ==> (#[trigger] installation.files[i]).path
            == installation.spec.files[i]
}

/// An installation fetches the required files in order, reports each of them, and writes a
/// manifest of exactly these files.
pub proof fn installation_fetches_in_order(
    installation: InstallationView,
    event: InstallEvent,
    cancelled: bool,
)
    requires
        in_order(installation),
        installation.expects(event),
    ensures
        in_order(installation.advance(event, cancelled).0),
        match installation.advance(event, cancelled).1 {
            InstallActionView::Fetch(file) => file
                == installation.advance(event, cancelled).0.spec.files[installation.advance(
                event,
                cancelled,
            ).0.files.len() as int],
            InstallActionView::WriteManifest(manifest) => manifest.files.len()
                == installation.spec.files.len() && manifest.files == installation.advance(
                event,
                cancelled,
            ).0.files,
            _ => true,
        },
{
}

/// A model is published only after it was verified and while nobody has cancelled.
pub proof fn only_verified_models_are_published(
    installation: InstallationView,
    event: InstallEvent,
    cancelled: bool,
)
    requires
        installation.expects(event),
        installation.advance(event, cancelled).1 is Publish,
    ensures
        installation.phase is Verifying,
        event is Succeeded,
        !cancelled,
{
}

/// What holds of an installation at any time: nothing is moved aside before it was inspected.
pub open spec fn quarantine_in_time(installation: InstallationView) -> bool {
    installation.quarantined ==> !(installation.phase is Resolving || installation.phase is Preflight
        || installation.phase is Inspecting || installation.phase is Quarantining)
}

/// Nothing is moved aside before it was inspected.
pub proof fn quarantine_follows_inspection(
    spec: ModelView,
    installation: InstallationView,
    event: InstallEvent,
    cancelled: bool,
)
    requires
        quarantine_in_time(installation),
        installation.expects(event),
    ensures
        quarantine_in_time(InstallationView::begun(spec)),
        quarantine_in_time(installation.advance(event, cancelled).0),
{
}

/// Once a damaged installation was moved aside, it is either replaced by a verified one or asked to
/// be restored: whatever fails and whenever somebody cancels, the outcome is a rollback that
/// restores it. Only the removal of what was moved aside ends the installation otherwise.
pub proof fn failure_restores_the_earlier_model(
    installation: InstallationView,
    event: InstallEvent,
    cancelled: bool,
)
    requires
        quarantine_in_time(installation),
        installation.quarantined,
        installation.expects(event),
    ensures
        installation.advance(event, cancelled).0.quarantined,
        event matches InstallEvent::Failed(error) ==> installation.advance(event, cancelled).1
            == InstallActionView::RollBack(error@, true),
        cancelled && event is Succeeded && (installation.phase is Creating
            && installation.files.len() < installation.spec.files.len()
            || installation.phase is Verifying) ==> installation.advance(event, cancelled).1
            == InstallActionView::RollBack(ModelErrorView::Cancelled, true),
        cancelled && event is Fetched && installation.files.len() + 1
            < installation.spec.files.len() ==> installation.advance(event, cancelled).1
            == InstallActionView::RollBack(ModelErrorView::Cancelled, true),
        installation.advance(event, cancelled).0.phase is Over && !(installation.phase is Discarding
            && event is Succeeded) ==> (installation.advance(event, cancelled).1 matches InstallActionView::RollBack(_, restore)
            && restore),
{
}

/// The manifest of a complete installation verifies wherever its paths count as plain.
pub proof fn fresh_manifest_verifies(k: int, files: Seq<FileView>, plain: Seq<bool>)
    requires
        0 <= k < catalog().len(),
        files.len() == catalog()[k].files.len(),
        forall|i: int| 0 <= i < files.len() ==> (#[trigger] files[i]).path == catalog()[k].files[i],
        forall|i: int| 0 <= i < files.len() ==> #[trigger] plain[i],
    ensures
        manifest_error(installed_manifest(catalog()[k], files), plain) is None,
{
    let spec = catalog()[k];
    let manifest = installed_manifest(spec, files);
    finds_itself(k, 0);
    assert forall|i: int, j: int| 0 <= i < j < files.len() implies (#[trigger] manifest.files[i]).path
        != (#[trigger] manifest.files[j]).path by {
        required_files_are_distinct(spec, i, j);
    }
    assert forall|i: int| 0 <= i < spec.files.len() implies lists(
        manifest,
        #[trigger] spec.files[i],
    ) by {
        assert(manifest.files[i].path == spec.files[i]);
    }
}

/// The files that a model requires have portable paths that do not stray.
proof fn required_files_stay(spec: ModelView, i: int)
    requires
        spec.files == quantized_files() || spec.files == full_files() || spec.files
            == quantized_short_files() || spec.files == full_files_without_pieces(),
        0 <= i < spec.files.len(),
    ensures
        is_portable(spec.files[i]),
        !strays(spec.files[i]),
{
    reveal_strlit("am-onnx/encoder.int8.onnx");
    reveal_strlit("am-onnx/decoder.int8.onnx");
    reveal_strlit("am-onnx/joiner.int8.onnx");
    reveal_strlit("am-onnx/encoder.onnx");
    reveal_strlit("am-onnx/decoder.onnx");
    reveal_strlit("am-onnx/joiner.onnx");
    reveal_strlit("am/encoder.int8.onnx");
    reveal_strlit("am/decoder.int8.onnx");
    reveal_strlit("am/joiner.int8.onnx");
    reveal_strlit("lang/tokens.txt");
    reveal_strlit("lang/bpe.model");
    let path = spec.files[i];
    assert forall|start: int, end: int| #[trigger] is_segment(path, start, end) implies path.subrange(
        start,
        end,
    ) != seq!['.', '.'] by {
        let part = path.subrange(start, end);
        if part == seq!['.', '.'] {
            assert(part[0] == path[start] && part[1] == path[start + 1]);
        }
    }
    assert forall|end: int| #[trigger] is_segment(path, 0, end) implies path.subrange(0, end)
        != seq!['.'] by {
        let part = path.subrange(0, end);
        if part == seq!['.'] {
            assert(part[0] == path[0]);
        }
    }
}

/// The paths of a complete installation are portable, and its manifest verifies.
pub proof fn fresh_manifest_is_portable(k: int, files: Seq<FileView>)
    requires
        0 <= k < catalog().len(),
        files.len() == catalog()[k].files.len(),
        forall|i: int| 0 <= i < files.len() ==> (#[trigger] files[i]).path == catalog()[k].files[i],
    ensures
        has_portable_paths(installed_manifest(catalog()[k], files)),
        manifest_error(
            installed_manifest(catalog()[k], files),
            portable_verdicts(installed_manifest(catalog()[k], files)),
        ) is None,
{
    let manifest = installed_manifest(catalog()[k], files);
    assert forall|i: int| 0 <= i < manifest.files.len() implies is_portable(
        (#[trigger] manifest.files[i]).path,
    ) && portable_verdicts(manifest)[i] by {
        required_files_stay(catalog()[k], i);
    }
    fresh_manifest_verifies(k, files, portable_verdicts(manifest));
}

proof fn finds_itself(k: int, from: int)
    requires
        0 <= from <= k < catalog().len(),
    ensures
        find_model(catalog(), catalog()[k].id, from) == Some(catalog()[k]),
    decreases k - from,
{
    if from < k {
        catalog_ids_are_unique(from, k);
        finds_itself(k, from + 1);
    }
}

/// A file is intact only if both its length and its digest are the ones in its manifest entry.
pub proof fn intact_files_agree_in_length_and_digest(file: FileView, size: u64, sha256: Seq<char>)
    ensures
        file_intact(file, size, sha256) ==> size == file.size,
        file_intact(file, size, sha256) ==> sha256 == file.sha256,
        file_intact(file, file.size, file.sha256),
        size != file.size ==> !file_intact(file, size, sha256),
        sha256 != file.sha256 ==> !file_intact(file, size, sha256),
{
}

/// A file that verifies against the entry of another one has the same digest, bit by bit.
pub proof fn verified_contents_have_one_digest(file: FileView, first: Seq<u8>, second: Seq<u8>, size: u64)
    requires
        file_intact(file, size, hexadecimal_bytes(sha256(first))),
        file_intact(file, size, hexadecimal_bytes(sha256(second))),
    ensures
        sha256(first) == sha256(second),
{
    crate::number::hexadecimal_bytes_injective(sha256(first), sha256(second));
}

/// The catalog is looked up by identifier: what is found has it, and nothing is found only where no
/// model has it.
pub proof fn catalog_is_looked_up_by_identifier(models: Seq<ModelView>, id: Seq<char>, from: int)
    requires
        0 <= from <= models.len(),
    ensures
        match find_model(models, id, from) {
            Some(model) => model.id == id && exists|k: int|
                from <= k < models.len() && #[trigger] models[k] == model,
            None => forall|k: int| from <= k < models.len() ==> (#[trigger] models[k]).id != id,
        },
    decreases models.len() - from,
{
    if from < models.len() {
        if models[from].id != id {
            catalog_is_looked_up_by_identifier(models, id, from + 1);
        }
    }
}

/// A manifest verifies exactly if it describes a model of the catalog in its pinned revision, all its
/// paths are plain and different, and every required file is among them.
pub proof fn manifests_verify_exactly_if_complete(manifest: ManifestView, plain: Seq<bool>)
    requires
        plain.len() == manifest.files.len(),
    ensures
        manifest_error(manifest, plain) is None <==> {
            &&& exists|k: int|
                {
                    &&& 0 <= k < catalog().len()
                    &&& (#[trigger] catalog()[k]).id == manifest.repo_id
                    &&& manifest.revision == catalog()[k].revision
                    &&& manifest.language == catalog()[k].language
                    &&& forall|i: int|
                        0 <= i < catalog()[k].files.len() ==> exists|j: int|
                            0 <= j < manifest.files.len() && (#[trigger] manifest.files[j]).path
                                == #[trigger] catalog()[k].files[i]
                }
            &&& manifest.model_id == manifest.repo_id || (manifest.repo_id
                == "alphacep/vosk-model-streaming-ru"@ && manifest.model_id == "stt-ru-streaming"@)
            &&& manifest.schema_version == 1
            &&& manifest.runtime == "sherpa-onnx"@
            &&& manifest.sample_rate == 16_000
            &&& manifest.license == "Apache-2.0"@
            &&& forall|i: int| 0 <= i < plain.len() ==> #[trigger] plain[i]
            &&& forall|i: int, j: int|
                0 <= i < j < manifest.files.len() ==> (#[trigger] manifest.files[i]).path != (
                #[trigger] manifest.files[j]).path
        },
{
    catalog_is_looked_up_by_identifier(catalog(), manifest.repo_id, 0);
    match find_model(catalog(), manifest.repo_id, 0) {
        None => {},
        Some(spec) => {
            let k = choose|k: int| 0 <= k < catalog().len() && #[trigger] catalog()[k] == spec;
            assert(catalog()[k].id == manifest.repo_id);
            assert forall|other: int|
                0 <= other < catalog().len() && (#[trigger] catalog()[other]).id == manifest.repo_id implies other
                == k by {
                if other < k {
                    catalog_ids_are_unique(other, k);
                } else if k < other {
                    catalog_ids_are_unique(k, other);
                }
            }
            assert(lists_required(manifest, spec) <==> forall|i: int|
                0 <= i < catalog()[k].files.len() ==> exists|j: int|
                    0 <= j < manifest.files.len() && (#[trigger] manifest.files[j]).path
                        == #[trigger] catalog()[k].files[i]) by {
                if lists_required(manifest, spec) {
                    assert forall|i: int| 0 <= i < catalog()[k].files.len() implies exists|j: int|
                        0 <= j < manifest.files.len() && (#[trigger] manifest.files[j]).path
                            == #[trigger] catalog()[k].files[i] by {
                        assert(lists(manifest, spec.files[i]));
                    }
                }
                if forall|i: int|
                    0 <= i < catalog()[k].files.len() ==> exists|j: int|
                        0 <= j < manifest.files.len() && (#[trigger] manifest.files[j]).path
                            == #[trigger] catalog()[k].files[i] {
                    assert forall|i: int| 0 <= i < spec.files.len() implies lists(
                        manifest,
                        #[trigger] spec.files[i],
                    ) by {
                        assert(catalog()[k].files[i] == spec.files[i]);
                    }
                }
            }
        },
    }
}

/// The directory of a model is named after what stands behind its owner.
pub proof fn storage_drops_the_owner(owner: Seq<char>, name: Seq<char>)
    requires
        forall|i: int| 0 <= i < owner.len() ==> (#[trigger] owner[i]) != '/',
    ensures
        behind_slash(owner.push('/') + name, 0) == name,
{
    storage_drops_the_rest(owner, name, 0);
}

proof fn storage_drops_the_rest(owner: Seq<char>, name: Seq<char>, from: int)
    requires
        0 <= from <= owner.len(),
        forall|i: int| 0 <= i < owner.len() ==> (#[trigger] owner[i]) != '/',
    ensures
        behind_slash(owner.push('/') + name, from) == name,
    decreases owner.len() - from,
{
    let text = owner.push('/') + name;
    if from < owner.len() {
        assert(text[from] == owner[from]);
        storage_drops_the_rest(owner, name, from + 1);
    } else {
        assert(text[from] == '/');
        assert(text.skip(from + 1) =~= name);
    }
}

/// Only the stock model is looked for under its historical name, and only where its own directory is
/// missing.
pub proof fn historical_storage_is_for_the_stock_model(spec: ModelView, own_exists: bool)
    ensures
        own_exists ==> storage_of(spec, own_exists) == behind_slash(spec.id, 0),
        spec.id != "alphacep/vosk-model-streaming-ru"@ ==> storage_of(spec, own_exists)
            == behind_slash(spec.id, 0),
        spec.id == "alphacep/vosk-model-streaming-ru"@ && !own_exists ==> storage_of(spec, own_exists)
            == "stt-ru-streaming"@,
{
}

/// What an installation does after each success: it looks for the model, probes for 256 MiB of free
/// space, moves a damaged revision aside, fetches every required file once and in order, writes and
/// verifies a manifest of exactly the fetched files, and only then publishes.
pub proof fn installations_take_their_course(
    installation: InstallationView,
    event: InstallEvent,
    available: u64,
    size: u64,
    sha256: String,
)
    requires
        installation.spec.files.len() > 0,
        installation.files.len() < installation.spec.files.len(),
    ensures
        ({
            let resolving = InstallationView { phase: InstallPhase::Resolving, ..installation };
            let (kept, action) = resolving.advance(InstallEvent::Succeeded, false);
            &&& action == InstallActionView::KeepExisting(
                ProgressView {
                    completed_files: installation.spec.files.len() as int,
                    total_files: installation.spec.files.len() as int,
                    file: None,
                },
            )
            &&& kept.phase is Over
            &&& event is Failed ==> resolving.advance(event, false).1 is Probe
        }),
        ({
            let probing = InstallationView { phase: InstallPhase::Preflight, ..installation };
            let (next, action) = probing.advance(InstallEvent::Probed(available), false);
            &&& available >= 268_435_456 <==> action is Inspect
            &&& available < 268_435_456 ==> next.phase is Over && action == InstallActionView::Fail(
                ModelErrorView::Verification("model installation requires at least 256 MiB free"@),
            )
        }),
        ({
            let inspecting = InstallationView { phase: InstallPhase::Inspecting, ..installation };
            &&& inspecting.advance(InstallEvent::Succeeded, false).1 is KeepExisting
            &&& inspecting.advance(InstallEvent::Absent, false).1 is CreateTemporary
            &&& inspecting.advance(InstallEvent::Absent, false).0.quarantined
                == installation.quarantined
            &&& event is Failed ==> inspecting.advance(event, false).1 is Quarantine
        }),
        ({
            let moving = InstallationView { phase: InstallPhase::Quarantining, ..installation };
            let (next, action) = moving.advance(InstallEvent::Succeeded, false);
            &&& action is CreateTemporary
            &&& next.quarantined
            &&& event matches InstallEvent::Failed(error) ==> moving.advance(event, false).1
                == InstallActionView::Fail(error@)
        }),
        ({
            let creating = InstallationView { phase: InstallPhase::Creating, ..installation };
            creating.advance(InstallEvent::Succeeded, false).1 == InstallActionView::Fetch(
                installation.spec.files[installation.files.len() as int],
            )
        }),
        ({
            let fetching = InstallationView { phase: InstallPhase::Fetching, ..installation };
            let (next, action) = fetching.advance(InstallEvent::Fetched(size, sha256), false);
            let done = installation.files.len() + 1;
            &&& next.files.len() == done
            &&& next.files.drop_last() == installation.files
            &&& next.files.last().path == installation.spec.files[installation.files.len() as int]
            &&& next.files.last().size == size
            &&& next.files.last().sha256 == sha256@
            &&& next.progress().completed_files == done
            &&& next.progress().total_files == installation.spec.files.len()
            &&& next.progress().file == Some(installation.spec.files[installation.files.len() as int])
            &&& done < installation.spec.files.len() ==> action == InstallActionView::Fetch(
                installation.spec.files[done as int],
            )
            &&& done == installation.spec.files.len() ==> {
                &&& action matches InstallActionView::WriteManifest(manifest)
                &&& manifest.files == next.files
                &&& manifest.schema_version == 1
                &&& manifest.model_id == installation.spec.id
                &&& manifest.repo_id == installation.spec.id
                &&& manifest.revision == installation.spec.revision
                &&& manifest.language == installation.spec.language
                &&& manifest.runtime == "sherpa-onnx"@
                &&& manifest.sample_rate == 16_000
                &&& manifest.license == "Apache-2.0"@
            }
        }),
        ({
            let writing = InstallationView { phase: InstallPhase::Writing, ..installation };
            writing.advance(InstallEvent::Succeeded, false).1 is VerifyTemporary
        }),
        ({
            let verifying = InstallationView { phase: InstallPhase::Verifying, ..installation };
            &&& verifying.advance(InstallEvent::Succeeded, false).1 is Publish
            &&& verifying.advance(InstallEvent::Succeeded, true).1 == InstallActionView::RollBack(
                ModelErrorView::Cancelled,
                installation.quarantined,
            )
        }),
        ({
            let publishing = InstallationView { phase: InstallPhase::Publishing, ..installation };
            let action = publishing.advance(InstallEvent::Succeeded, false).1;
            if installation.quarantined {
                action is DiscardQuarantine
            } else {
                action is Finish
            }
        }),
        ({
            let discarding = InstallationView { phase: InstallPhase::Discarding, ..installation };
            discarding.advance(InstallEvent::Succeeded, false).1 is Finish
        }),
{
    let fetching = InstallationView { phase: InstallPhase::Fetching, ..installation };
    let next = fetching.advance(InstallEvent::Fetched(size, sha256), false).0;
    assert(next.files.drop_last() =~= installation.files);
}

/// Whatever fails once something was set up is undone with the error that occurred, and an
/// installation that is over asks for nothing that changes the published model.
pub proof fn failed_installations_report_their_error(
    installation: InstallationView,
    error: ModelError,
    cancelled: bool,
)
    requires
        installation.phase is Creating || installation.phase is Fetching
            || installation.phase is Writing || installation.phase is Verifying
            || installation.phase is Publishing || installation.phase is Discarding,
    ensures
        installation.advance(InstallEvent::Failed(error), cancelled).1 == InstallActionView::RollBack(
            error@,
            installation.quarantined,
        ),
        installation.advance(InstallEvent::Failed(error), cancelled).0.phase is Over,
        installation.advance(InstallEvent::Failed(error), cancelled).0.files == installation.files,
{
}

/// The catalog pins every model: its owner is named, its revision is a full commit of forty
/// lower-case hexadecimal digits, its networks and tokens are listed, and a model that spots keywords
/// streams and brings its SentencePiece data.
pub proof fn catalog_models_are_pinned(k: int, i: int)
    requires
        0 <= k < catalog().len(),
        0 <= i < 40,
    ensures
        catalog()[k].revision.len() == 40,
        '0' <= catalog()[k].revision[i] <= '9' || 'a' <= catalog()[k].revision[i] <= 'f',
        catalog()[k].id.len() > 9,
        catalog()[k].id.take(9) == "alphacep/"@,
        catalog()[k].files.len() >= 4,
        catalog()[k].files.contains("lang/tokens.txt"@),
        catalog()[k].wakes() ==> catalog()[k].mode is Streaming && catalog()[k].files.contains(
            "lang/bpe.model"@,
        ),
        catalog()[k].mode is Streaming && catalog()[k].files.contains("lang/bpe.model"@)
            ==> catalog()[k].wakes(),
{
    reveal_strlit("alphacep/");
    reveal_strlit("alphacep/vosk-model-streaming-ru");
    reveal_strlit("alphacep/vosk-model-small-streaming-ru");
    reveal_strlit("alphacep/vosk-model-small-streaming-bn");
    reveal_strlit("alphacep/vosk-model-ru");
    reveal_strlit("alphacep/vosk-model-small-ru");
    reveal_strlit("alphacep/vosk-model-tg");
    reveal_strlit("alphacep/vosk-model-small-streaming-uz");
    reveal_strlit("83bbf6f40059480e96251be8aed3d32bc7c80c33");
    reveal_strlit("e18123ee13f694036a1eea82eb43f9895387cb59");
    reveal_strlit("501097ae5257e5859d7956b50e4ba53a3f2be106");
    reveal_strlit("df6a54a4d8e5d43e82675e4f5dba2d507731a0d1");
    reveal_strlit("4d68c4017bcfa44e2a79581f7933339e916a35da");
    reveal_strlit("b4900abb39cad697d97d6091a262bbca41fab49c");
    reveal_strlit("e0417cabfbbac4efdc34e7aba367501d126ae79c");
    assert(catalog()[k].files[3] == "lang/tokens.txt"@);
    assert(catalog()[k].id.take(9) =~= "alphacep/"@);
}

/// A check passes exactly if no error is expected, and fails with the one that is.
pub proof fn checks_fail_as_expected(checked: Result<(), ModelError>, expected: Option<ModelErrorView>)
    requires
        model_fails_with(checked, expected),
    ensures
        checked is Ok <==> expected is None,
        checked matches Err(error) ==> expected == Some(error@),
{
}

/// A source that is ready is used; one that failed or panicked is an error of the hub that says so.
pub proof fn failed_sources_are_errors<T>(relative: Seq<char>, outcome: SourceOutcome<T>)
    ensures
        source_error(relative, outcome) is None <==> outcome is Ready,
        outcome matches SourceOutcome::Failed(message) ==> source_error(relative, outcome) == Some(
            ModelErrorView::Hub(message@),
        ),
        outcome is Panicked ==> source_error(relative, outcome)->0 is Hub,
{
}

/// Paths that leave the directory of a model are refused: absolute ones, and those that go to a
/// directory above, at their beginning, in the middle or at their end.
pub proof fn paths_stay_below(head: Seq<char>, tail: Seq<char>, plain: bool)
    ensures
        is_plain(seq!['/'] + tail, plain) ==> !plain,
        is_plain(seq!['.', '.', '/'] + tail, plain) ==> !plain,
        is_plain(seq!['.', '/'] + tail, plain) ==> !plain,
        is_plain(head + seq!['/', '.', '.', '/'] + tail, plain) ==> !plain,
        is_plain(head + seq!['/', '.', '.'], plain) ==> !plain,
        is_plain(seq!['.', '.'], plain) ==> !plain,
{
    let parent = seq!['.', '.'];
    let above = seq!['.', '.', '/'] + tail;
    assert(is_segment(above, 0, 2));
    assert(above.subrange(0, 2) =~= parent);
    let here = seq!['.', '/'] + tail;
    assert(is_segment(here, 0, 1));
    assert(here.subrange(0, 1) =~= seq!['.']);
    let n = head.len() as int;
    let middle = head + seq!['/', '.', '.', '/'] + tail;
    assert(middle[n] == '/' && middle[n + 1] == '.' && middle[n + 2] == '.' && middle[n + 3] == '/');
    assert(is_segment(middle, n + 1, n + 3));
    assert(middle.subrange(n + 1, n + 3) =~= parent);
    let end = head + seq!['/', '.', '.'];
    assert(end[n] == '/' && end[n + 1] == '.' && end[n + 2] == '.');
    assert(is_segment(end, n + 1, n + 3));
    assert(end.subrange(n + 1, n + 3) =~= parent);
    assert(is_segment(parent, 0, 2));
    assert(parent.subrange(0, 2) =~= parent);
    assert((seq!['/'] + tail)[0] == '/');
}

/// Names that lie one below the other are accepted.
pub proof fn plain_paths_are_accepted(directory: Seq<char>, name: Seq<char>, plain: bool)
    requires
        directory.len() > 0,
        name.len() > 0,
        forall|i: int|
            0 <= i < directory.len() ==> (#[trigger] directory[i]) != '/' && directory[i] != '\\'
                && directory[i] != ':' && directory[i] != '.',
        forall|i: int|
            0 <= i < name.len() ==> (#[trigger] name[i]) != '/' && name[i] != '\\' && name[i] != ':',
        name != seq!['.', '.'],
        is_plain(directory + seq!['/'] + name, plain),
    ensures
        plain,
{
    let path = directory + seq!['/'] + name;
    let n = directory.len() as int;
    assert(path[n] == '/');
    assert(forall|i: int| 0 <= i < n ==> path[i] == directory[i]);
    assert(forall|i: int| n < i < path.len() ==> path[i] == name[i - n - 1]);
    assert(is_portable(path)) by {
        assert forall|i: int| 0 <= i < path.len() implies (#[trigger] path[i]) != '\\' && path[i]
            != ':' by {
            if i < n {
                assert(path[i] == directory[i]);
            } else if i > n {
                assert(path[i] == name[i - n - 1]);
            }
        }
    }
    assert(path[0] == directory[0]);
    assert forall|end: int| #[trigger] is_segment(path, 0, end) implies path.subrange(0, end) != seq![
        '.',
    ] by {
        if path.subrange(0, end) == seq!['.'] {
            assert(path.subrange(0, end)[0] == path[0]);
            assert(seq!['.'][0] == '.');
        }
    }
    assert forall|start: int, end: int| #[trigger]
        is_segment(path, start, end) implies path.subrange(start, end) != seq!['.', '.'] by {
        let part = path.subrange(start, end);
        if part == seq!['.', '.'] {
            assert(part.len() == 2 && part[0] == '.' && part[1] == '.');
            assert(part[0] == path[start] && part[1] == path[start + 1]);
            if start < n {
                assert(path[start] == directory[start]);
            } else {
                assert(start != n);
                assert(start == n + 1) by {
                    if start > n + 1 {
                        assert(path[start - 1] == name[start - n - 2]);
                    }
                }
                assert(end == path.len()) by {
                    if end < path.len() {
                        assert(path[end] == name[end - n - 1]);
                    }
                }
                assert(part =~= name);
            }
        }
    }
}

/// The message of a model error ends with what went wrong.
pub proof fn model_errors_tell_the_cause(cause: Seq<char>)
    ensures
        forall|error: ModelErrorView|
            (error == ModelErrorView::Io(cause) || error == ModelErrorView::Hub(cause) || error
                == ModelErrorView::Manifest(cause) || error == ModelErrorView::Verification(cause)) ==> (
            #[trigger] error.message()).len() >= cause.len() && error.message().skip(
                error.message().len() - cause.len(),
            ) == cause,
{
    assert forall|error: ModelErrorView|
        (error == ModelErrorView::Io(cause) || error == ModelErrorView::Hub(cause) || error
            == ModelErrorView::Manifest(cause) || error == ModelErrorView::Verification(cause)) implies (
    #[trigger] error.message()).len() >= cause.len() && error.message().skip(
        error.message().len() - cause.len(),
    ) == cause by {
        assert(error.message().skip(error.message().len() - cause.len()) =~= cause);
    }
}

/// A manifest has portable paths exactly if none of them is empty or holds a backslash or a colon; it
/// then strays exactly where one of them does.
pub proof fn portable_manifests_have_plain_slashes(manifest: ManifestView)
    ensures
        has_portable_paths(manifest) <==> forall|i: int|
            0 <= i < manifest.files.len() ==> {
                let path = (#[trigger] manifest.files[i]).path;
                path.len() > 0 && !path.contains('\\') && !path.contains(':')
            },
        portable_verdicts(manifest).len() == manifest.files.len(),
        forall|i: int|
            0 <= i < manifest.files.len() ==> #[trigger] portable_verdicts(manifest)[i] == !strays(
                manifest.files[i].path,
            ),
{
    assert forall|i: int| 0 <= i < manifest.files.len() implies (is_portable(
        (#[trigger] manifest.files[i]).path,
    ) <==> manifest.files[i].path.len() > 0 && !manifest.files[i].path.contains('\\')
        && !manifest.files[i].path.contains(':')) by {
        let path = manifest.files[i].path;
        if path.len() > 0 && !path.contains('\\') && !path.contains(':') {
            assert forall|c: int| 0 <= c < path.len() implies (#[trigger] path[c]) != '\\' && path[c]
                != ':' by {
                assert(path.contains(path[c]));
            }
        }
    }
}

} // verus!
