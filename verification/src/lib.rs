//! The logic behind a small desktop shell for agent programs: invoking the
//! external compiler is left to the embedding application, while everything
//! that is decided from its outcome is stated and proved here.

pub mod agent;
pub mod compile;
pub mod decimal;
pub mod text;

pub use agent::{get_agent_state, run_agent, stop_agent, AgentState, StateField};
pub use compile::{compile_sag, CompileResult, LaunchOutcome};
