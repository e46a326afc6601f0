//! Device mediation: the enumeration filter and the generated script.

use sweetshark_host::devices::{
    device_passes, filter_devices, DeviceKind, DevicePreference, MediaDevice,
};
use sweetshark_host::script::{build_device_script, build_init_script};

fn dev(kind: DeviceKind, id: &str, label: &str) -> MediaDevice {
    MediaDevice {
        kind,
        device_id: String::from(id),
        label: String::from(label),
    }
}

fn no_prefs() -> DevicePreference {
    DevicePreference { mic: None, cam: None, speaker: None }
}

fn mic_pref(label: &str) -> DevicePreference {
    DevicePreference { mic: Some(String::from(label)), cam: None, speaker: None }
}

fn sample_devices() -> Vec<MediaDevice> {
    vec![
        dev(DeviceKind::AudioInput, "default", "Default - Headset"),
        dev(DeviceKind::AudioInput, "id-a", "Headset Microphone"),
        dev(DeviceKind::AudioInput, "id-b", "Webcam Microphone"),
        dev(DeviceKind::VideoInput, "id-c", "Webcam"),
        dev(DeviceKind::AudioOutput, "id-d", "Speakers"),
        // Masked entry, as returned before permission is granted.
        dev(DeviceKind::AudioInput, "", ""),
    ]
}

fn labels(devices: &[MediaDevice]) -> Vec<String> {
    devices.iter().map(|d| d.label.clone()).collect()
}

#[test]
fn no_preference_hides_nothing() {
    let devices = sample_devices();
    let filtered = filter_devices(&devices, &no_prefs());
    assert_eq!(labels(&filtered), labels(&devices));
}

#[test]
fn microphone_preference_hides_other_microphones() {
    let devices = sample_devices();
    let filtered = filter_devices(&devices, &mic_pref("Headset Microphone"));
    let kept = labels(&filtered);
    // The default endpoint, the chosen microphone, the masked entry, and
    // every non-audio-input device stay; the other microphone is hidden.
    assert_eq!(
        kept,
        vec![
            String::from("Default - Headset"),
            String::from("Headset Microphone"),
            String::from("Webcam"),
            String::from("Speakers"),
            String::from(""),
        ]
    );
}

#[test]
fn empty_preference_label_means_no_preference() {
    let devices = sample_devices();
    let filtered = filter_devices(&devices, &mic_pref(""));
    assert_eq!(labels(&filtered), labels(&devices));
}

#[test]
fn speaker_preference_keeps_default_and_match() {
    let p = DevicePreference { mic: None, cam: None, speaker: Some(String::from("Speakers")) };
    assert!(device_passes(&dev(DeviceKind::AudioOutput, "default", "Other Out"), &p));
    assert!(device_passes(&dev(DeviceKind::AudioOutput, "id-x", "Speakers"), &p));
    assert!(!device_passes(&dev(DeviceKind::AudioOutput, "id-y", "Other Out"), &p));
    // Video input has no implicit default pass-through.
    let v = DevicePreference { mic: None, cam: Some(String::from("Webcam")), speaker: None };
    assert!(!device_passes(&dev(DeviceKind::VideoInput, "default", "Other Cam"), &v));
}

#[test]
fn filtering_twice_changes_nothing() {
    let devices = sample_devices();
    let p = mic_pref("Headset Microphone");
    let once = filter_devices(&devices, &p);
    let twice = filter_devices(&once, &p);
    assert_eq!(labels(&twice), labels(&once));
    assert_eq!(once.len(), twice.len());
}

#[test]
fn script_bakes_labels_in_as_json_literals() {
    let p = DevicePreference {
        mic: Some(String::from("My \"Mic\"")),
        cam: None,
        speaker: Some(String::from("Speakers")),
    };
    let script = build_device_script(&p);
    // The quote inside the label is escaped; a raw copy of the label text
    // between the quotes would not parse.
    assert!(script.contains("var MIC_ID     = \"My \\\"Mic\\\"\";"));
    assert!(script.contains("var CAM_ID     = \"\";"));
    assert!(script.contains("var SPEAKER_ID = \"Speakers\";"));
    assert!(script.contains("enumerateDevices"));
    assert!(script.contains("getUserMedia"));
    assert!(script.contains("setSinkId"));
}

#[test]
fn init_script_combines_both_payloads() {
    let ctx = "/* menu */";
    let dev_script = build_device_script(&no_prefs());
    let init = build_init_script(ctx, dev_script.as_str());
    assert!(init.starts_with("/* menu */\n"));
    assert!(init.contains(dev_script.as_str()));
    assert!(init.ends_with("\n"));
}
