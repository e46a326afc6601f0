//! Push-to-talk key-state monitor.
//!
//! An active monitor owns a fixed, never-changing set of key codes and sits
//! in one of two states, released or pressed. The host samples the raw
//! hardware state of exactly those codes at a fixed interval and hands each
//! sample to [`MonitorState::tick`]; the monitor decides the transition, the
//! event to emit, and the microphone mute change. The monitor reads nothing
//! beyond the per-code samples it is given.

use vstd::prelude::*;
use crate::keys::resolved_codes;

verus! {

/// Milliseconds between two hardware samples (about 200 Hz).
pub const POLL_INTERVAL_MS: u64 = 5;

/// The externally visible press/release transition of the monitor.
#[derive(Clone, Copy, PartialEq, Eq, Structural, Debug)]
pub enum PttEvent {
    Pressed,
    Released,
}

/// Mirror of the OS default audio-capture endpoint's mute flag, as this
/// library last requested it. The host applies every change to the platform
/// endpoint; on a platform without a low-level audio interface the request
/// is a no-op there.
pub struct MicState {
    pub muted: bool,
}

/// Request the OS-level microphone mute state. The decision is recorded
/// here; the host carries it to the platform's default capture endpoint.
pub fn ptt_set_mic_mute(mic: &mut MicState, muted: bool)
    ensures
        final(mic).muted == muted,
{
    mic.muted = muted;
}

/// True when every sampled code is reported down.
pub open spec fn all_held(down: Seq<bool>) -> bool {
    forall|i: int| 0 <= i < down.len() ==> down[i]
}

/// The event that one sample produces, given the previous pressed state and
/// whether the whole code set is now held. A transition produces exactly one
/// event; a sample that changes nothing produces none.
pub open spec fn transition_event(was_pressed: bool, held: bool) -> Option<PttEvent> {
    if held && !was_pressed {
        Option::Some(PttEvent::Pressed)
    } else if !held && was_pressed {
        Option::Some(PttEvent::Released)
    } else {
        Option::None
    }
}

/// The microphone mute flag after one sample: unmuted while pressed, muted
/// on release, untouched when nothing changes.
pub open spec fn mute_after(was_pressed: bool, held: bool, was_muted: bool) -> bool {
    match transition_event(was_pressed, held) {
        Option::Some(PttEvent::Pressed) => false,
        Option::Some(PttEvent::Released) => true,
        Option::None => was_muted,
    }
}

/// One active push-to-talk monitor: a fixed set of key codes and the
/// pressed/released state of their conjunction.
pub struct MonitorState {
    /// The codes this monitor watches. Fixed for the monitor's lifetime;
    /// the host must sample hardware state for these codes and no others.
    pub codes: Vec<u32>,
    /// Whether the full code set was held at the last sample.
    pub pressed: bool,
}

impl MonitorState {
    /// A monitor only exists for a non-empty code set.
    pub open spec fn wf(&self) -> bool {
        self.codes@.len() > 0
    }

    /// Start a monitor in the released state.
    pub fn new(codes: Vec<u32>) -> (m: Self)
        requires
            codes@.len() > 0,
        ensures
            m.wf(),
            m.codes@ == codes@,
            !m.pressed,
    {
        MonitorState { codes, pressed: false }
    }

    /// Consume one hardware sample. `down[i]` reports whether code
    /// `self.codes[i]` is currently held. Returns the event to emit, if the
    /// sample is a transition, and drives the microphone: unmute on press,
    /// mute on release, no change otherwise.
    pub fn tick(&mut self, down: &Vec<bool>, mic: &mut MicState) -> (ev: Option<PttEvent>)
        requires
            down@.len() == old(self).codes@.len(),
        ensures
            final(self).codes@ == old(self).codes@,
            final(self).pressed == all_held(down@),
            ev == transition_event(old(self).pressed, all_held(down@)),
            final(mic).muted == mute_after(old(self).pressed, all_held(down@), old(mic).muted),
    {
        let mut held = true;
        let mut i: usize = 0;
        while i < down.len()
            invariant
                i <= down@.len(),
                held == all_held(down@.subrange(0, i as int)),
            decreases down@.len() - i,
        {
            proof {
                let s = down@.subrange(0, i as int);
                let b = down@[i as int];
                assert(down@.subrange(0, i as int + 1) =~= s.push(b));
                assert(all_held(s.push(b)) <==> (all_held(s) && b)) by {
                    if all_held(s) && b {
                        assert forall|k: int| 0 <= k < s.push(b).len() implies s.push(b)[k] by {
                            if k < s.len() {
                                assert(s[k]);
                            }
                        }
                    }
                    if all_held(s.push(b)) {
                        assert forall|k: int| 0 <= k < s.len() implies s[k] by {
                            assert(s.push(b)[k]);
                        }
                        assert(s.push(b)[s.len() as int] == b);
                    }
                }
            }
            if !down[i] {
                held = false;
            }
            i += 1;
        }
        proof {
            assert(down@.subrange(0, down@.len() as int) =~= down@);
        }

        if held && !self.pressed {
            self.pressed = true;
            ptt_set_mic_mute(mic, false);
            Option::Some(PttEvent::Pressed)
        } else if !held && self.pressed {
            self.pressed = false;
            ptt_set_mic_mute(mic, true);
            Option::Some(PttEvent::Released)
        } else {
            Option::None
        }
    }

    /// Shut the monitor down. If it is still in the pressed state this
    /// forces a final mute and reports the trailing release event, so the
    /// microphone is never left open after the monitor is gone.
    pub fn stop(&mut self, mic: &mut MicState) -> (ev: Option<PttEvent>)
        ensures
            final(self).codes@ == old(self).codes@,
            !final(self).pressed,
            ev == (if old(self).pressed {
                Option::Some(PttEvent::Released)
            } else {
                Option::<PttEvent>::None
            }),
            final(mic).muted == (if old(self).pressed {
                true
            } else {
                old(mic).muted
            }),
    {
        if self.pressed {
            self.pressed = false;
            ptt_set_mic_mute(mic, true);
            Option::Some(PttEvent::Released)
        } else {
            Option::None
        }
    }
}

/// Law: resolve a key-token list to codes, then sample a down-state that
/// reports exactly those codes held: the monitor steps Released to Pressed
/// with one pressed event. Clear any one code's down-state: it steps back
/// to Released with one released event.
pub proof fn lemma_ptt_round_trip(
    keys: Seq<String>,
    down_all: Seq<bool>,
    down_miss: Seq<bool>,
    j: int,
)
    requires
        resolved_codes(keys).len() > 0,
        down_all.len() == resolved_codes(keys).len(),
        forall|i: int| 0 <= i < down_all.len() ==> down_all[i],
        down_miss.len() == resolved_codes(keys).len(),
        0 <= j < down_miss.len(),
        !down_miss[j],
    ensures
        all_held(down_all),
        !all_held(down_miss),
        transition_event(false, all_held(down_all)) == Option::Some(PttEvent::Pressed),
        transition_event(true, all_held(down_miss)) == Option::Some(PttEvent::Released),
{
}

} // verus!
