//! Scripted game logic with state-preserving hot reload.
//!
//! The host compiles and runs the scripts; this library holds what the host
//! decides and computes around them: the value model, the positional
//! serialization of the live state and its migration into a reloaded script,
//! the reload coordinator, the registry of native functions and the decoding
//! of their calls, and the input that reaches the scripts.

use vstd::prelude::*;

pub mod bindings;
pub mod codec;
pub mod controllers;
pub mod convert;
pub mod input;
pub mod migrate;
pub mod registry;
pub mod reload;
pub mod render;
pub mod save_detector;
pub mod script;
pub mod serialize;
pub mod simulation;
pub mod steam_input;
pub mod value;

verus! {

/// What the script crate tells the systems that run the scripts.
#[derive(Debug, Clone, Copy, PartialEq, Eq, Structural)]
pub enum ScriptMessage {
    Reload,
}

/// Whether a script failed. While the flag is up, ticks and renders are held
/// back; a reload that succeeds takes it down.
#[derive(Debug, Clone, Copy, PartialEq, Eq, Structural)]
pub struct ErrorResource {
    pub has_errors: bool,
}

/// The context that script functions of the main module run in: they need
/// nothing from the host.
#[derive(Debug, Clone, Copy, PartialEq, Eq)]
pub struct ScriptMainContext {}

/// Reports whether script ticks may run: they are held back while an error is
/// pending.
pub fn may_tick(error: &ErrorResource) -> (run: bool)
    ensures
        run == !error.has_errors,
{
    !error.has_errors
}

/// Takes the outcome of a reload into the error flag: a failure raises it, a
/// success takes it down. Tells whether the new generation is to replace the
/// old.
pub fn detect_reload_tick(reload_succeeded: bool, err: &mut ErrorResource) -> (install: bool)
    ensures
        install == reload_succeeded,
        final(err).has_errors == !reload_succeeded,
{
    err.has_errors = !reload_succeeded;
    reload_succeeded
}

} // verus!
