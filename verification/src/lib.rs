//! A background screenshot pipeline: watch a directory for newly created
//! image files, run an external OCR engine on each, and optionally forward
//! the extracted text to a local language-model service for an explanation.
//!
//! This crate holds the pipeline's decisions and data: configuration state,
//! event filtering, debounce policy, the OCR engine's invocation plan and the
//! interpretation of its output, and the explanation request's construction
//! and the interpretation of its response. The blocking and asynchronous
//! plumbing around it (threads, process spawning, HTTP transport) lives with
//! the embedding application.


pub mod autostart;
pub mod dispatch;
pub mod events;
pub mod explain;
pub mod extract;
pub mod jsontext;
pub mod settings;
pub mod watchdir;

pub use autostart::desktop_entry;
pub use dispatch::DEBOUNCE_MS;
pub use dispatch::Publication;
pub use dispatch::TaskPlan;
pub use dispatch::WatchStep;
pub use dispatch::WatcherMessage;
pub use dispatch::dispatch_target;
pub use dispatch::event_publications;
pub use dispatch::plan_after_extraction;
pub use dispatch::publication_after_explanation;
pub use dispatch::watch_step;
pub use events::EventKind;
pub use events::FileEvent;
pub use explain::ExplainError;
pub use explain::HttpOutcome;
pub use explain::build_prompt;
pub use explain::combine_with_user_prompt;
pub use explain::conclude_explanation;
pub use explain::endpoint_url;
pub use explain::request_body;
pub use jsontext::escape_into;
pub use extract::EngineRun;
pub use extract::ExtractError;
pub use extract::begin_extraction;
pub use extract::engine_name;
pub use extract::extraction_command;
pub use extract::finish_extraction;
pub use settings::Settings;
pub use settings::SettingsStore;
pub use watchdir::resolve_watch_dir;
pub use watchdir::watch_directory;
