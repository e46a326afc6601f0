//! Push-to-talk: token resolution, the monitor state machine, and the
//! shared registry.

use sweetshark_host::keys::{
    resolve_tokens, resolve_tokens_with, token_to_vk, VK_LMENU, VK_LSHIFT, VK_RETURN, VK_SPACE,
    VK_XBUTTON1, VK_XBUTTON2,
};
use sweetshark_host::monitor::{ptt_set_mic_mute, MicState, MonitorState, PttEvent};
use sweetshark_host::registry::{
    get_ptt_active, get_ptt_config, install_stop_handle, set_ptt_config, PttError, PttStart,
    PttState,
};

#[test]
fn token_table_aliases() {
    assert_eq!(token_to_vk("alt"), Some(VK_LMENU));
    assert_eq!(token_to_vk("AltLeft"), Some(VK_LMENU));
    assert_eq!(token_to_vk("shift"), Some(VK_LSHIFT));
    assert_eq!(token_to_vk("mouse4"), Some(VK_XBUTTON1));
    assert_eq!(token_to_vk("XButton2"), Some(VK_XBUTTON2));
    assert_eq!(token_to_vk("space"), Some(VK_SPACE));
    assert_eq!(token_to_vk("NumpadEnter"), Some(VK_RETURN));
}

#[test]
fn token_table_is_case_insensitive_and_trims() {
    assert_eq!(token_to_vk("ALT"), Some(VK_LMENU));
    assert_eq!(token_to_vk("  Shift  "), Some(VK_LSHIFT));
    assert_eq!(token_to_vk("\tmouse4\n"), Some(VK_XBUTTON1));
}

#[test]
fn unrecognized_tokens_resolve_to_nothing() {
    assert_eq!(token_to_vk(""), None);
    assert_eq!(token_to_vk("definitely-not-a-key"), None);
    // Single characters need the platform keyboard-layout service.
    assert_eq!(token_to_vk("z"), None);
}

#[test]
fn resolve_drops_unrecognized_tokens() {
    let keys = vec![
        String::from("alt"),
        String::from("nonsense"),
        String::from("mouse4"),
    ];
    assert_eq!(resolve_tokens(&keys), vec![VK_LMENU, VK_XBUTTON1]);
    let none: Vec<String> = vec![String::from("")];
    assert_eq!(resolve_tokens(&none), Vec::<u32>::new());
}

/// A single character the table misses resolves through the host's
/// keyboard-layout answer; the table wins where it recognizes the token.
#[test]
fn layout_codes_fill_table_misses() {
    let keys = vec![String::from("z"), String::from("alt"), String::from("q")];
    let layout = vec![Some(0x5A), None, None];
    assert_eq!(resolve_tokens_with(&keys, &layout), vec![0x5A, VK_LMENU]);
    assert_eq!(
        resolve_tokens_with(&vec![String::from("alt")], &vec![Some(0x99)]),
        vec![VK_LMENU]
    );
    // A configuration of one single-character key starts a monitor when
    // the host's layout resolves it.
    let mut state = PttState::new();
    let mut mic = MicState { muted: false };
    let r = set_ptt_config(
        &mut state,
        &mut mic,
        vec![String::from("z")],
        &vec![Some(0x5A)],
        true,
    );
    assert_eq!(r, Ok(PttStart::Spawn(vec![0x5A])));
    assert!(mic.muted);
}

#[test]
fn mic_mute_request_is_recorded() {
    let mut mic = MicState { muted: false };
    ptt_set_mic_mute(&mut mic, true);
    assert!(mic.muted);
    ptt_set_mic_mute(&mut mic, false);
    assert!(!mic.muted);
}

/// Holding both configured keys produces exactly one pressed event and an
/// unmute; releasing either produces exactly one released event and a mute.
#[test]
fn hold_and_release_transitions_once() {
    let mut state = PttState::new();
    let mut mic = MicState { muted: false };
    let r = set_ptt_config(
        &mut state,
        &mut mic,
        vec![String::from("alt"), String::from("mouse4")],
        &Vec::new(),
        true,
    );
    let codes = match r {
        Ok(PttStart::Spawn(codes)) => codes,
        _ => panic!("expected a monitor start"),
    };
    assert_eq!(codes, vec![VK_LMENU, VK_XBUTTON1]);
    assert!(mic.muted);

    let mut monitor = MonitorState::new(codes);
    // Both held: one pressed event, microphone open.
    assert_eq!(
        monitor.tick(&vec![true, true], &mut mic),
        Some(PttEvent::Pressed)
    );
    assert!(!mic.muted);
    // Still held: no second event.
    assert_eq!(monitor.tick(&vec![true, true], &mut mic), None);
    assert!(!mic.muted);
    // One released: exactly one released event, microphone muted.
    assert_eq!(
        monitor.tick(&vec![true, false], &mut mic),
        Some(PttEvent::Released)
    );
    assert!(mic.muted);
    // Still released: no further event.
    assert_eq!(monitor.tick(&vec![false, false], &mut mic), None);
}

#[test]
fn shutdown_while_pressed_emits_trailing_release_and_mutes() {
    let mut mic = MicState { muted: true };
    let mut monitor = MonitorState::new(vec![VK_LMENU]);
    assert_eq!(monitor.tick(&vec![true], &mut mic), Some(PttEvent::Pressed));
    assert!(!mic.muted);
    assert_eq!(monitor.stop(&mut mic), Some(PttEvent::Released));
    assert!(mic.muted);

    // Shutting down an already released monitor neither emits nor mutes.
    let mut quiet = MonitorState::new(vec![VK_LMENU]);
    let mut mic2 = MicState { muted: false };
    assert_eq!(quiet.stop(&mut mic2), None);
    assert!(!mic2.muted);
}

/// Enabling with a token list that resolves to no code fails, stops any
/// running monitor, and leaves the microphone unmuted like the disabled
/// state.
#[test]
fn empty_keys_fail_and_stop_previous_monitor() {
    let mut state = PttState::new();
    let mut mic = MicState { muted: false };
    let r = set_ptt_config(&mut state, &mut mic, vec![String::from("alt")], &Vec::new(), true);
    assert!(matches!(r, Ok(PttStart::Spawn(_))));
    assert!(mic.muted);

    // Pretend the host spawned a monitor and installed its stop handle.
    let (tx, rx) = std::sync::mpsc::channel::<()>();
    install_stop_handle(&mut state, tx);
    assert!(get_ptt_active(&state));

    let r = set_ptt_config(&mut state, &mut mic, Vec::new(), &Vec::new(), true);
    assert_eq!(r, Err(PttError::NoRecognizableKeys));
    // The previously running monitor received its stop signal.
    assert!(rx.try_recv().is_ok());
    assert!(!get_ptt_active(&state));
    assert!(!mic.muted);
    // The attempted keys were recorded.
    let c = get_ptt_config(&state);
    assert!(c.enabled);
    assert!(c.keys.is_empty());
}

/// Every configuration change stops the previous monitor first, so at most
/// one is ever alive; `get_ptt_active` mirrors the handle.
#[test]
fn reconfiguration_always_stops_previous_monitor() {
    let mut state = PttState::new();
    let mut mic = MicState { muted: false };

    // Disabled to disabled: nothing to stop, nothing active.
    let r = set_ptt_config(&mut state, &mut mic, Vec::new(), &Vec::new(), false);
    assert!(matches!(r, Ok(PttStart::Idle)));
    assert!(!get_ptt_active(&state));

    // Enable, install a handle.
    let r = set_ptt_config(&mut state, &mut mic, vec![String::from("alt")], &Vec::new(), true);
    assert!(matches!(r, Ok(PttStart::Spawn(_))));
    let (tx1, rx1) = std::sync::mpsc::channel::<()>();
    install_stop_handle(&mut state, tx1);
    assert!(get_ptt_active(&state));

    // Enable to enable: the first monitor is signalled before the second
    // may be installed.
    let r = set_ptt_config(&mut state, &mut mic, vec![String::from("shift")], &Vec::new(), true);
    assert!(matches!(r, Ok(PttStart::Spawn(_))));
    assert!(rx1.try_recv().is_ok());
    assert!(!get_ptt_active(&state));
    let (tx2, rx2) = std::sync::mpsc::channel::<()>();
    install_stop_handle(&mut state, tx2);
    assert!(get_ptt_active(&state));

    // Enable to disable: the second monitor is signalled, none replaces it.
    let r = set_ptt_config(&mut state, &mut mic, Vec::new(), &Vec::new(), false);
    assert!(matches!(r, Ok(PttStart::Idle)));
    assert!(rx2.try_recv().is_ok());
    assert!(!get_ptt_active(&state));
    assert!(!mic.muted);
}

#[test]
fn config_snapshot_reflects_stored_values() {
    let mut state = PttState::new();
    let mut mic = MicState { muted: false };
    let c = get_ptt_config(&state);
    assert!(!c.enabled);
    assert!(c.keys.is_empty());

    let _ = set_ptt_config(
        &mut state,
        &mut mic,
        vec![String::from("alt"), String::from("mouse4")],
        &Vec::new(),
        true,
    );
    let c = get_ptt_config(&state);
    assert!(c.enabled);
    assert_eq!(c.keys, vec![String::from("alt"), String::from("mouse4")]);
}
