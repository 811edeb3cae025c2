//! Core engine of a terminal supervisor for long-running infrastructure
//! commands: a single-flight operation supervisor with two-stage, user-paced
//! cancellation escalation, a bounded output log, and a deterministic state
//! reconciler that merges results reported by concurrent background tasks.

pub mod account;
pub mod command;
pub mod ops;
pub mod events;
pub mod flows;
pub mod intents;
pub mod laws;
pub mod parse;
pub mod preflight;
pub mod runner;
pub mod state;
pub mod text;

pub use ops::AuthStatus;
pub use ops::CancelSignal;
pub use ops::CancelStage;
pub use ops::FocusPanel;
pub use ops::LayoutMode;
pub use ops::OperationKind;
