use quest_scrcpy::audioplay::{
    output_device_names, resolve_output_device, AacPlayer, AudioError, DeviceChoice,
};
use quest_scrcpy::obsdetect::{is_obs_name, is_running};

fn units(name: &str) -> Vec<u16> {
    name.encode_utf16().collect()
}

#[test]
fn ffmpeg_goes_first() {
    let p = AacPlayer::new(Some("Cable"), true, true).unwrap();
    assert!(matches!(&p, AacPlayer::Ffmpeg(b) if b.device.as_deref() == Some("Cable")));
    let p = AacPlayer::new(None, false, true).unwrap();
    assert!(matches!(&p, AacPlayer::Mf(b) if b.device.is_none() && b.pending.is_empty()));
}

#[test]
fn no_backend_elsewhere() {
    assert_eq!(AacPlayer::new(None, false, false).err(), Some(AudioError::NoBackend));
}

#[test]
fn fed_units_come_out_in_order() {
    let mut p = AacPlayer::new(None, true, false).unwrap();
    p.feed(&[1, 2], true);
    p.feed(&[], false);
    p.feed(&[3], false);
    let taken = p.take_pending();
    let seen: Vec<(Vec<u8>, bool)> = taken.into_iter().map(|u| (u.data, u.is_config)).collect();
    assert_eq!(seen, vec![(vec![1, 2], true), (vec![], false), (vec![3], false)]);
    assert!(p.take_pending().is_empty());
}

#[test]
fn device_names() {
    assert_eq!(output_device_names(Some(vec!["a".to_string()])), vec!["a".to_string()]);
    assert!(output_device_names(None).is_empty());
}

#[test]
fn saved_device_or_default() {
    let listed = Some(vec!["HDMI".to_string(), "Cable".to_string(), "Cable".to_string()]);
    assert_eq!(resolve_output_device(Some("Cable"), &listed, true), Ok(DeviceChoice::Listed(1)));
    assert_eq!(resolve_output_device(Some("Cable"), &listed, false), Ok(DeviceChoice::Listed(1)));
    assert_eq!(resolve_output_device(Some("Gone"), &listed, true), Ok(DeviceChoice::Default));
    assert_eq!(resolve_output_device(Some(""), &listed, true), Ok(DeviceChoice::Default));
    assert_eq!(resolve_output_device(None, &listed, true), Ok(DeviceChoice::Default));
    assert_eq!(resolve_output_device(Some("Cable"), &None, true), Ok(DeviceChoice::Default));
    assert_eq!(
        resolve_output_device(Some("Gone"), &listed, false),
        Err(AudioError::NoOutputDevice)
    );
}

#[test]
fn obs_process_names() {
    assert!(is_obs_name(&units("obs64.exe")));
    assert!(is_obs_name(&units("OBS32.EXE")));
    assert!(is_obs_name(&units("obs64.exe\0garbage")));
    assert!(!is_obs_name(&units("obs64.exe2")));
    assert!(!is_obs_name(&units("obs62.exe")));
    assert!(!is_obs_name(&units("obs.exe")));
    assert!(!is_obs_name(&[]));
    assert!(!is_obs_name(&[0]));
}

#[test]
fn obs_among_processes() {
    assert!(!is_running(&Vec::new()));
    assert!(!is_running(&vec![units("explorer.exe"), units("obs64.ex")]));
    assert!(is_running(&vec![units("explorer.exe"), units("Obs64.exe\0\0")]));
}
