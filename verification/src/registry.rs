//! Shared push-to-talk registry.
//!
//! One process-wide [`PttState`] records the current configuration and, when
//! a monitor task is alive, the handle that stops it. The host serializes
//! all access through one lock. Every configuration change signals and
//! clears any existing stop handle before a new monitor may be installed, so
//! at most one monitor task is ever alive.

use vstd::prelude::*;
use crate::keys::{resolve_tokens_with, resolved_codes_with};
use crate::monitor::{ptt_set_mic_mute, MicState};

verus! {

/// The user-facing push-to-talk configuration: whether it is enabled, and
/// the ordered key-token list it was requested with.
pub struct PttConfig {
    pub enabled: bool,
    /// Normalised key tokens sent from the frontend, e.g. ["alt", "mouse4"]
    pub keys: Vec<String>,
}

#[verifier::external_type_specification]
#[verifier::external_body]
#[verifier::reject_recursive_types(T)]
pub struct ExSender<T>(std::sync::mpsc::Sender<T>);

/// Registry state: the recorded configuration and the stop handle of the
/// active monitor. The handle is `Some` exactly when a monitor task is
/// alive; it is the sole means of terminating that task.
pub struct PttState {
    pub config: PttConfig,
    /// Send () here to stop the current poll thread.
    pub stop_tx: Option<std::sync::mpsc::Sender<()>>,
}

/// A configuration change that failed.
#[derive(Clone, Copy, PartialEq, Eq, Structural, Debug)]
pub enum PttError {
    /// Enabling was requested with a token list that resolves to no code.
    NoRecognizableKeys,
}

/// What the host must do after a successful configuration change.
#[derive(PartialEq, Eq, Debug)]
pub enum PttStart {
    /// Leave no monitor running.
    Idle,
    /// Spawn one monitor task polling exactly these codes, then install its
    /// stop handle with `install_stop_handle`.
    Spawn(Vec<u32>),
}

/// Relies on std::sync::mpsc::Sender::send: delivers the unit stop message
/// to the receiving monitor task, or fails when the receiver is already
/// gone; either way the task, if alive, is signalled and the handle is spent.
#[verifier::external_body]
fn send_stop(tx: &std::sync::mpsc::Sender<()>) {
    let _ = tx.send(());
}

impl PttState {
    /// The registry as the process starts: disabled, no keys, no monitor.
    pub fn new() -> (s: Self)
        ensures
            !s.config.enabled,
            s.config.keys@.len() == 0,
            s.stop_tx is None,
    {
        PttState { config: PttConfig { enabled: false, keys: Vec::new() }, stop_tx: Option::None }
    }
}

/// Copy a string vector element for element.
fn clone_string_vec(v: &Vec<String>) -> (r: Vec<String>)
    ensures
        r@ == v@,
{
    let mut r: Vec<String> = Vec::new();
    let mut i: usize = 0;
    while i < v.len()
        invariant
            i <= v@.len(),
            r@ == v@.take(i as int),
        decreases v@.len() - i,
    {
        r.push(v[i].clone());
        proof {
            assert(r@ =~= v@.take(i as int + 1));
        }
        i += 1;
    }
    proof {
        assert(v@.take(v@.len() as int) =~= v@);
    }
    r
}

/// Read-only snapshot of the current configuration, for the UI.
pub fn get_ptt_config(state: &PttState) -> (c: PttConfig)
    ensures
        c.enabled == state.config.enabled,
        c.keys@ == state.config.keys@,
{
    PttConfig { enabled: state.config.enabled, keys: clone_string_vec(&state.config.keys) }
}

/// True while a monitor task is alive, for the UI to show that no polling
/// happens when push-to-talk is off.
pub fn get_ptt_active(state: &PttState) -> (b: bool)
    ensures
        b == (state.stop_tx is Some),
{
    state.stop_tx.is_some()
}

/// Apply a configuration change.
///
/// Whatever the change, any existing monitor is signalled to stop first and
/// its handle cleared, and the attempted configuration is recorded. Tokens
/// resolve through the fixed table, taking the host's layout answer in
/// `layout_codes` for any position the table misses (a platform without a
/// keyboard-layout service supplies none). Then: enabling with a token
/// list that resolves to at least one code mutes the microphone and asks
/// the host to spawn one monitor for those codes; enabling with a list
/// that resolves to no code fails with `NoRecognizableKeys` and leaves the
/// microphone unmuted, matching the disabled state; disabling unmutes the
/// microphone and leaves no monitor.
pub fn set_ptt_config(
    state: &mut PttState,
    mic: &mut MicState,
    keys: Vec<String>,
    layout_codes: &Vec<Option<u32>>,
    enabled: bool,
) -> (r: Result<PttStart, PttError>)
    ensures
        final(state).config.enabled == enabled,
        final(state).config.keys@ == keys@,
        final(state).stop_tx is None,
        enabled && resolved_codes_with(keys@, layout_codes@).len() > 0 ==> (r matches Ok(
            PttStart::Spawn(vks),
        ) && vks@ == resolved_codes_with(keys@, layout_codes@) && final(mic).muted),
        !enabled ==> (r matches Ok(PttStart::Idle) && !final(mic).muted),
        enabled && resolved_codes_with(keys@, layout_codes@).len() == 0 ==> r == Err::<
            PttStart,
            PttError,
        >(PttError::NoRecognizableKeys) && !final(mic).muted,
{
    if let Option::Some(tx) = state.stop_tx.take() {
        send_stop(&tx);
    }
    let vks = resolve_tokens_with(&keys, layout_codes);
    state.config.keys = keys;
    state.config.enabled = enabled;

    if enabled {
        if vks.len() == 0 {
            ptt_set_mic_mute(mic, false);
            Result::Err(PttError::NoRecognizableKeys)
        } else {
            ptt_set_mic_mute(mic, true);
            Result::Ok(PttStart::Spawn(vks))
        }
    } else {
        ptt_set_mic_mute(mic, false);
        Result::Ok(PttStart::Idle)
    }
}

/// Install the stop handle of the monitor the host has just spawned. Any
/// handle still present is signalled first, keeping the one-task invariant
/// even against a misordered host.
pub fn install_stop_handle(state: &mut PttState, stop_tx: std::sync::mpsc::Sender<()>)
    ensures
        final(state).config == old(state).config,
        final(state).stop_tx == Option::Some(stop_tx),
{
    if let Option::Some(tx) = state.stop_tx.take() {
        send_stop(&tx);
    }
    state.stop_tx = Option::Some(stop_tx);
}

} // verus!
