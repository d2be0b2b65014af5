//! Verified core of a local voice assistant.

pub mod apply;
pub mod audio;
pub mod bridge;
pub mod builtins;
pub mod commands;
pub mod conduct;
pub mod config;
pub mod daemon;
pub mod diagnostics;
pub mod domain;
pub mod effects;
pub mod float32;
pub mod handlers;
pub mod hearing;
pub mod ipc;
pub mod laws;
pub mod lifecycle;
pub mod metrics;
pub mod models;
pub mod number;
pub mod operation;
pub mod reload;
pub mod runtime;
pub mod service;
pub mod session;
pub mod signal;
pub mod state;
pub mod stt;
pub mod supervisor;
pub mod text;
pub mod text_map;
pub mod validation;
pub mod wakeword;

pub use builtins::{builtin_handlers, LaunchAppExecutor, LaunchAppHandler};
pub use commands::CommandRegistry;
pub use config::{AppPaths, CoreConfig};
pub use domain::{
    AssistantEvent, AssistantState, AudioFrame, CommandParameters, CommandResult, ComponentHealth, ComponentStatus,
    ConfirmationCancelReason, CoreError, CoreErrorCode, HealthSnapshot, ModelStatus, Transcript,
    TranscriptUnavailableReason, TranscriptionRequest, CORE_API_VERSION, CORE_VERSION, PROTOCOL_VERSION,
};
pub use handlers::{CommandHandler, HandlerRegistry, HandlerSchema};
pub use ipc::{CoreIpcClient, CoreRequest, CoreResponse, Envelope, IpcClientError, IpcErrorCode};
pub use metrics::{CoreMetrics, MetricsSnapshot};
pub use runtime::{Runtime, RuntimeUpdate};
pub use service::{spawn_runtime_service, RuntimeComponents};
pub use stt::{MockRecognizer, UnavailableRecognizer};
