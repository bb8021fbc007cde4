//! Start-up decisions of the executive console's desktop shell.
//!
//! The shell itself (windows, webview, plugin runtime) belongs to the host
//! framework. What this crate owns is the bootstrap policy: which environment
//! flag is set on which target, which capability plugins are attached in which
//! build profile, and what happens when the run loop cannot be entered. The
//! policy is computed here from plain values; the binding crate performs it.

mod bootstrap;

pub use bootstrap::{
    plan, run_outcome, BootPlan, EnvAssignment, Exit, LogLevel, Plugin, Profile, Target,
    INPUT_METHOD_VAR, INPUT_METHOD_OFF, START_FAILURE,
};
