//! Device-mediation script generator.
//!
//! A pure function from a device-preference triple to a self-contained
//! script payload. Run inside an isolated browsing context before any page
//! content loads, the payload intercepts the context's three device-access
//! entry points: capture requests are pinned to the preferred devices by
//! re-resolving labels against a fresh enumeration (failing open when a
//! label no longer resolves), enumeration hides devices outside the user's
//! selection exactly as [`crate::devices::passes_filter`] states, and a
//! speaker preference is applied once per audio or video element.

use vstd::prelude::*;
use vstd::string::StringExecFns;
use crate::devices::DevicePreference;

verus! {

/// Opening of the payload, up to the microphone label.
pub const MEDIATION_HEAD: &'static str = "(function(){\n  var MIC_ID     = ";

/// Between the microphone label and the camera label.
pub const MEDIATION_MID_CAM: &'static str = ";\n  var CAM_ID     = ";

/// Between the camera label and the speaker label.
pub const MEDIATION_MID_SPEAKER: &'static str = ";\n  var SPEAKER_ID = ";

/// The interception logic itself, closing the payload.
pub const MEDIATION_BODY: &'static str = r#";

  /* Device identifiers are not stable across isolated profiles; labels
     are. So a stored label is resolved to the live identifier by a fresh,
     unfiltered enumeration on every use, never cached across sessions. */
  var rawEnum = navigator.mediaDevices.enumerateDevices.bind(navigator.mediaDevices);
  async function resolveId(kind, label) {
    var all = await rawEnum();
    var hit = all.find(function(d) { return d.kind === kind && d.label === label; });
    return hit ? hit.deviceId : null;
  }

  /* Capture requests: pin the preferred devices via an exact-match
     constraint. A label that no longer resolves leaves the original
     request unchanged - fail open, never block capture entirely. */
  var rawGum = navigator.mediaDevices.getUserMedia.bind(navigator.mediaDevices);
  navigator.mediaDevices.getUserMedia = async function(c) {
    c = c ? JSON.parse(JSON.stringify(c)) : {};
    if (MIC_ID && c.audio) {
      var mid = await resolveId('audioinput', MIC_ID);
      if (mid) c.audio = typeof c.audio === 'object'
        ? Object.assign({}, c.audio, { deviceId: { exact: mid } })
        : { deviceId: { exact: mid } };
    }
    if (CAM_ID && c.video) {
      var cid = await resolveId('videoinput', CAM_ID);
      if (cid) c.video = typeof c.video === 'object'
        ? Object.assign({}, c.video, { deviceId: { exact: cid } })
        : { deviceId: { exact: cid } };
    }
    return rawGum(c);
  };

  /* Enumeration: hide devices outside the user's selection. Entries with
     an empty identifier or label always pass - the platform returns those
     before permission is granted. */
  navigator.mediaDevices.enumerateDevices = async function() {
    var all = await rawEnum();
    return all.filter(function(d) {
      if (!d.deviceId || !d.label) return true;
      if (d.kind === 'audioinput')  return !MIC_ID     || d.deviceId === 'default' || d.label === MIC_ID;
      if (d.kind === 'videoinput')  return !CAM_ID     || d.label === CAM_ID;
      if (d.kind === 'audiooutput') return !SPEAKER_ID || d.deviceId === 'default' || d.label === SPEAKER_ID;
      return true;
    });
  };

  /* Output routing: resolve the speaker label once, observe the document,
     and apply the route to each audio/video element exactly once. A label
     that resolves to no device leaves elements on the default route -
     fail open, like capture. */
  if (SPEAKER_ID) {
    var resolvedSpeakerId = null;
    (async function() { resolvedSpeakerId = await resolveId('audiooutput', SPEAKER_ID); })();
    var applySink = function(el) {
      if (el.setSinkId && !el.ssSinkApplied && resolvedSpeakerId) {
        el.ssSinkApplied = true;
        el.setSinkId(resolvedSpeakerId).catch(function(){});
      }
    };
    var obs = new MutationObserver(function(ms) {
      ms.forEach(function(m) {
        m.addedNodes.forEach(function(n) {
          if (n.nodeType !== 1) return;
          if (n.tagName === 'AUDIO' || n.tagName === 'VIDEO') applySink(n);
          if (n.querySelectorAll) n.querySelectorAll('audio,video').forEach(applySink);
        });
      });
    });
    obs.observe(document.documentElement, { subtree: true, childList: true });
    document.addEventListener('DOMContentLoaded', function() {
      document.querySelectorAll('audio,video').forEach(applySink);
    });
  }
})();
"#;

/// The JSON string literal a character sequence serializes to.
pub uninterp spec fn json_str_of(s: Seq<char>) -> Seq<char>;

/// Relies on serde_json::to_string: a `str` serializes to its JSON string
/// literal (quoted, with the JSON escapes applied), the literal depends on
/// the characters alone, and serializing a `str` never fails.
#[verifier::external_body]
fn json_quote(s: &str) -> (r: String)
    ensures
        r@ == json_str_of(s@),
{
    serde_json::to_string(s).unwrap_or_default()
}

/// The label a preference slot contributes to the script: the stored
/// label, or the empty string for no preference.
pub open spec fn opt_label(o: Option<String>) -> Seq<char> {
    match o {
        Option::Some(l) => l@,
        Option::None => Seq::empty(),
    }
}

/// The whole mediation payload for one (microphone, camera, speaker)
/// label triple, each label baked in as a JSON string literal.
pub open spec fn mediation_script_of(m: Seq<char>, c: Seq<char>, sp: Seq<char>) -> Seq<char> {
    MEDIATION_HEAD@ + json_str_of(m) + MEDIATION_MID_CAM@ + json_str_of(c)
        + MEDIATION_MID_SPEAKER@ + json_str_of(sp) + MEDIATION_BODY@
}

/// The stored label of a slot, or the empty string.
fn opt_label_str(o: &Option<String>) -> (r: &str)
    ensures
        r@ == opt_label(*o),
{
    match o {
        Option::Some(l) => l.as_str(),
        Option::None => {
            proof {
                reveal_strlit("");
                assert(""@ =~= Seq::<char>::empty());
            }
            ""
        },
    }
}

/// Generate the mediation script payload for a preference triple.
pub fn build_device_script(prefs: &DevicePreference) -> (r: String)
    ensures
        r@ == mediation_script_of(
            opt_label(prefs.mic),
            opt_label(prefs.cam),
            opt_label(prefs.speaker),
        ),
{
    let mic_q = json_quote(opt_label_str(&prefs.mic));
    let cam_q = json_quote(opt_label_str(&prefs.cam));
    let speaker_q = json_quote(opt_label_str(&prefs.speaker));
    let mut s = String::new();
    s.append(MEDIATION_HEAD);
    s.append(mic_q.as_str());
    s.append(MEDIATION_MID_CAM);
    s.append(cam_q.as_str());
    s.append(MEDIATION_MID_SPEAKER);
    s.append(speaker_q.as_str());
    s.append(MEDIATION_BODY);
    s
}

/// Combine the externally supplied context-menu script with the mediation
/// payload into the single initialization script injected before first
/// navigation.
pub fn build_init_script(context_menu_script: &str, device_script: &str) -> (r: String)
    ensures
        r@ == context_menu_script@ + "\n"@ + device_script@ + "\n"@,
{
    let mut s = String::new();
    s.append(context_menu_script);
    s.append("\n");
    s.append(device_script);
    s.append("\n");
    s
}

} // verus!
