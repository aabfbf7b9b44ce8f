use pwnotify::classify::{
    format_object_label, is_audio_device, is_audio_node, parse_object, GlobalObject, ObjectType,
    PropDict,
};
use pwnotify::volume::DeviceKind;

fn dict(pairs: &[(&str, &str)]) -> PropDict {
    let mut d = PropDict::new();
    for (k, v) in pairs {
        d.push(k.to_string(), v.to_string());
    }
    d
}

fn node(id: u32, pairs: &[(&str, &str)]) -> GlobalObject {
    GlobalObject { id, object_type: ObjectType::Node, props: Some(dict(pairs)) }
}

fn device(id: u32, pairs: &[(&str, &str)]) -> GlobalObject {
    GlobalObject { id, object_type: ObjectType::Device, props: Some(dict(pairs)) }
}

#[test]
fn accepts_every_listed_media_class() {
    for class in ["Audio/Sink", "Audio/Source", "Audio/Duplex", "Audio/Sink/Monitor"] {
        let o = node(1, &[("media.class", class)]);
        assert!(parse_object(&o).is_some(), "{class} should be accepted");
    }
}

#[test]
fn rejects_other_media_classes() {
    for class in ["Video/Sink", "Audio/Sink/Internal", "Midi/Bridge", "", "audio/sink"] {
        let o = node(1, &[("media.class", class)]);
        assert!(parse_object(&o).is_none(), "{class} should be rejected");
    }
}

#[test]
fn accepts_every_listed_device_api() {
    for api in ["alsa", "bluez5", "jack", "pulse"] {
        let o = device(2, &[("device.api", api)]);
        assert!(parse_object(&o).is_some(), "{api} should be accepted");
    }
}

#[test]
fn rejects_other_device_apis() {
    for api in ["v4l2", "libcamera", "", "ALSA"] {
        let o = device(2, &[("device.api", api)]);
        assert!(parse_object(&o).is_none(), "{api} should be rejected");
    }
}

#[test]
fn rejects_object_without_properties() {
    let o = GlobalObject { id: 3, object_type: ObjectType::Node, props: None };
    assert!(parse_object(&o).is_none());
}

#[test]
fn rejects_foreign_object_types() {
    let o = GlobalObject {
        id: 4,
        object_type: ObjectType::Other,
        props: Some(dict(&[("media.class", "Audio/Sink")])),
    };
    assert!(parse_object(&o).is_none());
}

#[test]
fn node_fields_are_extracted() {
    let o = node(
        7,
        &[
            ("media.class", "Audio/Sink"),
            ("node.name", "alsa_output.pci"),
            ("node.nick", "Headphones"),
            ("node.description", "Family 17h HD Audio"),
            ("device.id", "41"),
        ],
    );
    let e = parse_object(&o).unwrap();
    assert_eq!(e.id, 7);
    assert!(e.is_node);
    assert_eq!(e.name.as_deref(), Some("alsa_output.pci"));
    assert_eq!(e.label.as_deref(), Some("Headphones"));
    assert_eq!(e.description.as_deref(), Some("Family 17h HD Audio"));
    assert_eq!(e.device_id, Some(41));
    assert!(matches!(e.kind, DeviceKind::Sink));
    assert!(e.volume.is_none());
}

#[test]
fn node_label_falls_back_to_description() {
    let o = node(
        7,
        &[("media.class", "Audio/Source"), ("node.description", "USB Microphone")],
    );
    let e = parse_object(&o).unwrap();
    assert_eq!(e.label.as_deref(), Some("USB Microphone"));
    assert!(matches!(e.kind, DeviceKind::Source));
}

#[test]
fn device_label_prefers_description_then_name() {
    let o = device(
        9,
        &[
            ("device.api", "bluez5"),
            ("device.name", "bluez_card.AA"),
            ("device.description", "WH-1000XM4"),
        ],
    );
    let e = parse_object(&o).unwrap();
    assert!(!e.is_node);
    assert_eq!(e.label.as_deref(), Some("WH-1000XM4"));
    let o2 = device(9, &[("device.api", "bluez5"), ("device.name", "bluez_card.AA")]);
    let e2 = parse_object(&o2).unwrap();
    assert_eq!(e2.label.as_deref(), Some("bluez_card.AA"));
}

#[test]
fn bad_device_id_is_dropped() {
    let o = node(7, &[("media.class", "Audio/Sink"), ("device.id", "not-a-number")]);
    let e = parse_object(&o).unwrap();
    assert_eq!(e.device_id, None);
}

#[test]
fn entry_label_preference_order() {
    let o = node(
        5,
        &[
            ("media.class", "Audio/Sink"),
            ("node.name", "internal_name"),
            ("node.description", "A Description"),
        ],
    );
    let e = parse_object(&o).unwrap();
    // label (from description here) wins
    assert_eq!(e.get_label(), "A Description");
    let bare = node(5, &[("media.class", "Audio/Sink")]);
    let eb = parse_object(&bare).unwrap();
    assert_eq!(eb.get_label(), "<unnamed>");
}

#[test]
fn object_label_uses_best_name() {
    let o = node(
        11,
        &[("media.class", "Audio/Sink"), ("node.nick", "Speakers"), ("node.name", "x")],
    );
    assert_eq!(format_object_label(&o), "Speakers");
    let bare = GlobalObject { id: 11, object_type: ObjectType::Node, props: None };
    assert_eq!(format_object_label(&bare), "<11>");
    let unnamed_node = node(12, &[("media.class", "Audio/Sink")]);
    assert_eq!(format_object_label(&unnamed_node), "<12>");
    let unnamed_device = device(13, &[("device.api", "alsa")]);
    assert_eq!(format_object_label(&unnamed_device), "Device <13>");
}

#[test]
fn predicates_match_classification() {
    let n = node(1, &[("media.class", "Audio/Duplex")]);
    assert!(is_audio_node(&n.props));
    assert!(!is_audio_device(&n.props));
    let d = device(2, &[("device.api", "pulse")]);
    assert!(is_audio_device(&d.props));
    assert!(!is_audio_node(&d.props));
    assert!(!is_audio_node(&None));
    assert!(!is_audio_device(&None));
}

#[test]
fn dictionary_lookup_takes_first_match() {
    let d = dict(&[("media.class", "Audio/Sink"), ("media.class", "Video/Sink")]);
    assert_eq!(d.get("media.class").map(|s| s.as_str()), Some("Audio/Sink"));
    assert!(d.get("missing").is_none());
}
