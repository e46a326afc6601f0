//! Device-mediation model: which devices an isolated surface may see.
//!
//! A surface carries an immutable preference triple (microphone, camera,
//! speaker), keyed by human-readable device labels: the platform assigns
//! different opaque identifiers to the same physical device inside
//! different isolated profiles, so labels are the only stable key. The
//! enumeration filter here is the rule the mediation script applies inside
//! the browsing context: devices outside the user's selection are hidden
//! from the hosted application entirely.

use vstd::prelude::*;
use crate::text::str_eq;

verus! {

/// The class a platform device reports itself as.
#[derive(Clone, Copy, PartialEq, Eq, Structural, Debug)]
pub enum DeviceKind {
    AudioInput,
    VideoInput,
    AudioOutput,
    Other,
}

/// One entry of a device enumeration: its kind, its opaque per-profile
/// identifier, and its stable human-readable label.
pub struct MediaDevice {
    pub kind: DeviceKind,
    pub device_id: String,
    pub label: String,
}

/// The optional device labels attached to a surface at creation time.
/// An absent or empty label means no preference for that slot.
pub struct DevicePreference {
    pub mic: Option<String>,
    pub cam: Option<String>,
    pub speaker: Option<String>,
}

/// The label a preference slot pins, or `None` when the slot holds no
/// preference (absent or empty, which the mediation script treats alike).
pub open spec fn label_pref(o: Option<String>) -> Option<Seq<char>> {
    match o {
        Option::Some(l) => if l@.len() > 0 {
            Option::Some(l@)
        } else {
            Option::None
        },
        Option::None => Option::None,
    }
}

/// Whether one enumerated device stays visible under a preference triple.
///
/// Devices lacking an identifier or label always pass: the platform
/// returns such masked entries before permission is granted. An
/// audio-input device passes when no microphone preference is set, or it
/// is the designated system default, or its label matches the preference;
/// video input is analogous but has no implicit default pass-through;
/// audio output mirrors audio input. Anything else passes.
pub open spec fn passes_filter(d: MediaDevice, p: DevicePreference) -> bool {
    if d.device_id@.len() == 0 || d.label@.len() == 0 {
        true
    } else {
        match d.kind {
            DeviceKind::AudioInput => match label_pref(p.mic) {
                Option::Some(l) => d.device_id@ == "default"@ || d.label@ == l,
                Option::None => true,
            },
            DeviceKind::VideoInput => match label_pref(p.cam) {
                Option::Some(l) => d.label@ == l,
                Option::None => true,
            },
            DeviceKind::AudioOutput => match label_pref(p.speaker) {
                Option::Some(l) => d.device_id@ == "default"@ || d.label@ == l,
                Option::None => true,
            },
            DeviceKind::Other => true,
        }
    }
}

/// The filter as a function value, for use with `Seq::filter`.
pub open spec fn passes_fn(p: DevicePreference) -> spec_fn(MediaDevice) -> bool {
    |d: MediaDevice| passes_filter(d, p)
}

/// The visible part of a device enumeration under a preference triple.
pub open spec fn spec_filter_devices(devices: Seq<MediaDevice>, p: DevicePreference) -> Seq<
    MediaDevice,
> {
    devices.filter(passes_fn(p))
}

/// Exec mirror of `passes_filter` for one device.
pub fn device_passes(d: &MediaDevice, p: &DevicePreference) -> (r: bool)
    ensures
        r == passes_filter(*d, *p),
{
    if d.device_id.as_str().is_empty() || d.label.as_str().is_empty() {
        return true;
    }
    match d.kind {
        DeviceKind::AudioInput => match &p.mic {
            Option::Some(l) => {
                if l.as_str().is_empty() {
                    true
                } else {
                    str_eq(d.device_id.as_str(), "default") || d.label == *l
                }
            },
            Option::None => true,
        },
        DeviceKind::VideoInput => match &p.cam {
            Option::Some(l) => {
                if l.as_str().is_empty() {
                    true
                } else {
                    d.label == *l
                }
            },
            Option::None => true,
        },
        DeviceKind::AudioOutput => match &p.speaker {
            Option::Some(l) => {
                if l.as_str().is_empty() {
                    true
                } else {
                    str_eq(d.device_id.as_str(), "default") || d.label == *l
                }
            },
            Option::None => true,
        },
        DeviceKind::Other => true,
    }
}

/// Copy one device entry.
fn clone_device(d: &MediaDevice) -> (r: MediaDevice)
    ensures
        r == *d,
{
    MediaDevice { kind: d.kind, device_id: d.device_id.clone(), label: d.label.clone() }
}

/// Keep exactly the devices that stay visible under the preference triple,
/// in their original order.
pub fn filter_devices(devices: &Vec<MediaDevice>, p: &DevicePreference) -> (r: Vec<MediaDevice>)
    ensures
        r@ == spec_filter_devices(devices@, *p),
{
    let mut r: Vec<MediaDevice> = Vec::new();
    let mut i: usize = 0;
    while i < devices.len()
        invariant
            i <= devices@.len(),
            r@ == devices@.take(i as int).filter(passes_fn(*p)),
        decreases devices@.len() - i,
    {
        proof {
            reveal(Seq::filter);
            assert(devices@.take(i as int + 1).drop_last() =~= devices@.take(i as int));
            assert(devices@.take(i as int + 1).last() == devices@[i as int]);
        }
        if device_passes(&devices[i], p) {
            r.push(clone_device(&devices[i]));
        }
        i += 1;
    }
    proof {
        assert(devices@.take(devices@.len() as int) =~= devices@);
    }
    r
}

/// Every element of a sequence that satisfies `pred` element-wise is kept
/// by `filter` unchanged.
proof fn lemma_filter_all_pass<A>(s: Seq<A>, pred: spec_fn(A) -> bool)
    requires
        forall|i: int| 0 <= i < s.len() ==> pred(s[i]),
    ensures
        s.filter(pred) == s,
    decreases s.len(),
{
    reveal(Seq::filter);
    if s.len() > 0 {
        let d = s.drop_last();
        assert(forall|i: int| 0 <= i < d.len() ==> pred(#[trigger] d[i]));
        lemma_filter_all_pass(d, pred);
        assert(pred(s.last()));
        assert(s.filter(pred) =~= s);
    }
}

/// Law: the enumeration filter is idempotent. Filtering an already
/// filtered device list changes nothing, for every preference triple,
/// including the one with no preference set.
pub proof fn lemma_filter_idempotent(devices: Seq<MediaDevice>, p: DevicePreference)
    ensures
        spec_filter_devices(spec_filter_devices(devices, p), p) == spec_filter_devices(devices, p),
{
    let f = spec_filter_devices(devices, p);
    assert forall|i: int| 0 <= i < f.len() implies passes_fn(p)(f[i]) by {
        devices.lemma_filter_pred(passes_fn(p), i);
    }
    lemma_filter_all_pass(f, passes_fn(p));
}

} // verus!
