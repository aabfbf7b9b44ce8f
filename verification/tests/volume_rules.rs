use pwnotify::volume::{to_percent, volume_from_parts, DeviceKind, VolumeInfo, VOLUME_SCALE};

fn vi(volume: Option<u32>, mute: Option<bool>, channels: Vec<u32>) -> VolumeInfo {
    VolumeInfo { volume, mute, channel_volumes: channels }
}

#[test]
fn device_kind_from_media_class() {
    assert!(matches!(DeviceKind::from("Audio/Sink"), DeviceKind::Sink));
    assert!(matches!(DeviceKind::from("Audio/Source"), DeviceKind::Source));
    assert!(matches!(DeviceKind::from("Audio/Device"), DeviceKind::Device));
    assert!(matches!(DeviceKind::from("Audio/Duplex"), DeviceKind::Unknown));
    assert!(matches!(DeviceKind::from("whatever"), DeviceKind::Unknown));
}

#[test]
fn effective_volume_prefers_channel_zero_when_pinned() {
    // A master volume pinned at exactly one unit of gain with channel
    // volumes present: channel 0 is the real value.
    let v = vi(Some(VOLUME_SCALE), None, vec![420]);
    assert_eq!(v.effective_volume(), Some(420));
}

#[test]
fn effective_volume_falls_back_to_channel_zero_when_missing() {
    let v = vi(None, None, vec![350, 700]);
    assert_eq!(v.effective_volume(), Some(350));
}

#[test]
fn effective_volume_keeps_ordinary_master_volume() {
    let v = vi(Some(500), None, vec![420]);
    assert_eq!(v.effective_volume(), Some(500));
    let none = vi(None, Some(true), vec![]);
    assert_eq!(none.effective_volume(), None);
}

#[test]
fn percent_rounds_to_nearest() {
    assert_eq!(to_percent(600), 60);
    assert_eq!(to_percent(424), 42);
    assert_eq!(to_percent(425), 43);
    assert_eq!(to_percent(0), 0);
    assert_eq!(to_percent(1000), 100);
}

#[test]
fn snapshot_equality_is_field_wise() {
    let a = vi(Some(600), Some(false), vec![600, 550]);
    let b = vi(Some(600), Some(false), vec![600, 550]);
    let c = vi(Some(600), Some(false), vec![600]);
    let d = vi(Some(601), Some(false), vec![600, 550]);
    let e = vi(Some(600), None, vec![600, 550]);
    assert!(a == b);
    assert!(a != c);
    assert!(a != d);
    assert!(a != e);
}

#[test]
fn parts_with_no_recognized_key_yield_nothing() {
    assert!(volume_from_parts(None, None, None).is_none());
}

#[test]
fn parts_normalize_pinned_master_volume() {
    let v = volume_from_parts(Some(VOLUME_SCALE), None, Some(vec![420])).unwrap();
    assert_eq!(v.volume, Some(420));
    assert_eq!(v.channel_volumes, vec![420]);
}

#[test]
fn parts_fill_missing_master_volume_from_channels() {
    let v = volume_from_parts(None, Some(true), Some(vec![350, 700])).unwrap();
    assert_eq!(v.volume, Some(350));
    assert_eq!(v.mute, Some(true));
}

#[test]
fn parts_keep_ordinary_master_volume() {
    let v = volume_from_parts(Some(800), None, Some(vec![420])).unwrap();
    assert_eq!(v.volume, Some(800));
}

#[test]
fn parts_with_only_an_empty_channel_list_count_as_reported() {
    let v = volume_from_parts(None, None, Some(Vec::new())).unwrap();
    assert_eq!(v.volume, None);
    assert_eq!(v.mute, None);
    assert!(v.channel_volumes.is_empty());
}

#[test]
fn display_shows_every_reported_part() {
    let v = vi(Some(600), Some(false), vec![600, 550]);
    assert_eq!(
        v.format_display().unwrap(),
        "Volume: 60% | Mute: OFF | Channels: [Ch1: 60%, Ch2: 55%]"
    );
}

#[test]
fn display_shows_mute_alone() {
    let v = vi(None, Some(true), vec![]);
    assert_eq!(v.format_display().unwrap(), "Mute: ON");
}

#[test]
fn display_placeholder_when_nothing_reported() {
    let v = vi(None, None, vec![]);
    assert_eq!(v.format_display().unwrap(), "Property changed");
}
