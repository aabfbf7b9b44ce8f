use pwnotify::classify::Entry;
use pwnotify::reconcile::{handle_action, ActionType, Command, State};
use pwnotify::volume::{DeviceKind, VolumeInfo};

type TestState = State<u32>;

fn entry(id: u32, label: &str) -> Entry {
    Entry {
        id,
        is_node: true,
        device_id: None,
        name: None,
        label: Some(label.to_string()),
        description: None,
        kind: DeviceKind::Sink,
        volume: None,
    }
}

fn vi(volume: Option<u32>, mute: Option<bool>, channels: Vec<u32>) -> VolumeInfo {
    VolumeInfo { volume, mute, channel_volumes: channels }
}

#[test]
fn duplicate_volume_change_is_silent() {
    let mut st: TestState = State::default();
    let v = vi(Some(800), Some(false), vec![]);
    handle_action(&mut st, ActionType::EntryAdd(5, entry(5, "Headphones")));
    handle_action(&mut st, ActionType::VolumeChange(5, v.clone()));
    // the entry now holds v; feeding an equal snapshot twice shows nothing
    let out1 = handle_action(&mut st, ActionType::VolumeChange(5, v.clone()));
    let out2 = handle_action(&mut st, ActionType::VolumeChange(5, v));
    assert!(out1.commands.is_empty() && out1.orphan.is_none() && !out1.stop);
    assert!(out2.commands.is_empty() && out2.orphan.is_none() && !out2.stop);
    assert_eq!(st.get_entry(5).unwrap().volume, Some(vi(Some(800), Some(false), vec![])));
}

#[test]
fn first_snapshot_is_stored_silently_then_change_shows() {
    let mut st: TestState = State::default();
    handle_action(&mut st, ActionType::EntryAdd(5, entry(5, "Headphones")));
    let first = handle_action(
        &mut st,
        ActionType::VolumeChange(5, vi(Some(800), Some(false), vec![])),
    );
    assert!(first.commands.is_empty());
    assert_eq!(st.get_entry(5).unwrap().volume, Some(vi(Some(800), Some(false), vec![])));

    let second = handle_action(
        &mut st,
        ActionType::VolumeChange(5, vi(Some(600), Some(false), vec![])),
    );
    assert_eq!(second.commands.len(), 1);
    match &second.commands[0] {
        Command::Show(id, req) => {
            assert_eq!(*id, 5);
            assert_eq!(req.summary, "Headphones - 60%");
            assert_eq!(req.icon, "audio-volume-high-symbolic");
            assert_eq!(req.value, Some(60));
            assert_eq!(req.timeout_secs, 5);
        },
        other => panic!("expected a show command, got {:?}", kind_of(other)),
    }
}

#[test]
fn entry_remove_is_idempotent() {
    let mut st: TestState = State::default();
    handle_action(&mut st, ActionType::EntryAdd(5, entry(5, "Headphones")));
    let first = handle_action(&mut st, ActionType::EntryRemove(5));
    assert!(first.orphan.is_none());
    assert_eq!(st.devices_len(), 0);
    let second = handle_action(&mut st, ActionType::EntryRemove(5));
    assert_eq!(second.orphan, Some(5));
    assert!(second.commands.is_empty());
    assert_eq!(st.devices_len(), 0);
}

#[test]
fn orphan_events_only_warn() {
    let mut st: TestState = State::default();
    handle_action(&mut st, ActionType::EntryAdd(1, entry(1, "Other")));
    let v = handle_action(&mut st, ActionType::VolumeChange(9, vi(Some(500), None, vec![])));
    assert_eq!(v.orphan, Some(9));
    assert!(v.commands.is_empty());
    let r = handle_action(&mut st, ActionType::EntryRemove(9));
    assert_eq!(r.orphan, Some(9));
    assert!(r.commands.is_empty());
    assert_eq!(st.devices_len(), 1);
    assert_eq!(st.notifications_len(), 0);
}

#[test]
fn muted_change_shows_muted_alert() {
    let mut st: TestState = State::default();
    handle_action(&mut st, ActionType::EntryAdd(3, entry(3, "Speakers")));
    handle_action(&mut st, ActionType::VolumeChange(3, vi(Some(500), Some(false), vec![])));
    let out = handle_action(&mut st, ActionType::VolumeChange(3, vi(Some(500), Some(true), vec![])));
    assert_eq!(out.commands.len(), 1);
    match &out.commands[0] {
        Command::Show(id, req) => {
            assert_eq!(*id, 3);
            assert_eq!(req.summary, "Speakers - Muted");
            assert_eq!(req.icon, "audio-volume-muted-symbolic");
            assert_eq!(req.value, None);
        },
        other => panic!("expected a show command, got {:?}", kind_of(other)),
    }
}

#[test]
fn existing_handle_gets_an_update() {
    let mut st: TestState = State::default();
    handle_action(&mut st, ActionType::EntryAdd(3, entry(3, "Speakers")));
    handle_action(&mut st, ActionType::VolumeChange(3, vi(Some(500), None, vec![])));
    st.put_handle(3, 77);
    let out = handle_action(&mut st, ActionType::VolumeChange(3, vi(Some(400), None, vec![])));
    assert_eq!(out.commands.len(), 1);
    match &out.commands[0] {
        Command::Update(id, handle, req) => {
            assert_eq!(*id, 3);
            assert_eq!(*handle, 77);
            assert_eq!(req.summary, "Speakers - 40%");
        },
        other => panic!("expected an update command, got {:?}", kind_of(other)),
    }
    // the handle moved out with the command; the app reports the new one
    assert_eq!(st.notifications_len(), 0);
}

#[test]
fn unbuildable_change_closes_existing_alert() {
    let mut st: TestState = State::default();
    handle_action(&mut st, ActionType::EntryAdd(3, entry(3, "Speakers")));
    handle_action(&mut st, ActionType::VolumeChange(3, vi(Some(500), None, vec![])));
    st.put_handle(3, 77);
    // neither a mute flag nor any derivable volume value
    let out = handle_action(&mut st, ActionType::VolumeChange(3, vi(None, None, vec![])));
    assert_eq!(out.commands.len(), 1);
    match &out.commands[0] {
        Command::Close(id, handle) => {
            assert_eq!(*id, 3);
            assert_eq!(*handle, 77);
        },
        other => panic!("expected a close command, got {:?}", kind_of(other)),
    }
    assert_eq!(st.notifications_len(), 0);
    // the snapshot is still stored
    assert_eq!(st.get_entry(3).unwrap().volume, Some(vi(None, None, vec![])));
}

#[test]
fn end_to_end_scenario() {
    let mut st: TestState = State::default();

    let add = handle_action(&mut st, ActionType::EntryAdd(5, entry(5, "Headphones")));
    assert!(add.commands.is_empty() && add.orphan.is_none() && !add.stop);

    // first snapshot: stored, no notification
    let first = handle_action(
        &mut st,
        ActionType::VolumeChange(5, vi(Some(800), Some(false), vec![])),
    );
    assert!(first.commands.is_empty());

    // a genuine change: exactly one show at 60%
    let change = handle_action(
        &mut st,
        ActionType::VolumeChange(5, vi(Some(600), Some(false), vec![])),
    );
    assert_eq!(change.commands.len(), 1);
    match &change.commands[0] {
        Command::Show(id, req) => {
            assert_eq!(*id, 5);
            assert_eq!(req.summary, "Headphones - 60%");
            assert_eq!(req.value, Some(60));
        },
        other => panic!("expected a show command, got {:?}", kind_of(other)),
    }
    st.put_handle(5, 42);

    // the duplicate: no call
    let dup = handle_action(
        &mut st,
        ActionType::VolumeChange(5, vi(Some(600), Some(false), vec![])),
    );
    assert!(dup.commands.is_empty());

    // removal: closes the notification, erases the entry
    let gone = handle_action(&mut st, ActionType::EntryRemove(5));
    assert_eq!(gone.commands.len(), 1);
    match &gone.commands[0] {
        Command::Close(id, handle) => {
            assert_eq!(*id, 5);
            assert_eq!(*handle, 42);
        },
        other => panic!("expected a close command, got {:?}", kind_of(other)),
    }
    assert_eq!(st.devices_len(), 0);
    assert_eq!(st.notifications_len(), 0);
}

#[test]
fn shutdown_closes_all_handles_and_clears_everything() {
    let mut st: TestState = State::default();
    handle_action(&mut st, ActionType::EntryAdd(1, entry(1, "One")));
    handle_action(&mut st, ActionType::EntryAdd(2, entry(2, "Two")));
    st.put_handle(1, 10);
    st.put_handle(2, 20);

    let out = handle_action(&mut st, ActionType::Shutdown);
    assert!(out.stop);
    assert_eq!(out.commands.len(), 2);
    match (&out.commands[0], &out.commands[1]) {
        (Command::Close(a, ha), Command::Close(b, hb)) => {
            assert_eq!((*a, *ha), (1, 10));
            assert_eq!((*b, *hb), (2, 20));
        },
        _ => panic!("expected two close commands"),
    }
    assert_eq!(st.devices_len(), 0);
    assert_eq!(st.notifications_len(), 0);
}

#[test]
fn entry_add_overwrites_reused_id() {
    let mut st: TestState = State::default();
    handle_action(&mut st, ActionType::EntryAdd(5, entry(5, "Old")));
    handle_action(&mut st, ActionType::VolumeChange(5, vi(Some(100), None, vec![])));
    // the server reused the id for an unrelated object
    handle_action(&mut st, ActionType::EntryAdd(5, entry(5, "New")));
    let e = st.get_entry(5).unwrap();
    assert_eq!(e.label.as_deref(), Some("New"));
    // the fresh entry starts over: its first snapshot is silent again
    let first = handle_action(&mut st, ActionType::VolumeChange(5, vi(Some(300), None, vec![])));
    assert!(first.commands.is_empty());
}

#[test]
fn pinned_master_volume_shows_channel_percent() {
    let mut st: TestState = State::default();
    handle_action(&mut st, ActionType::EntryAdd(4, entry(4, "Monitor")));
    handle_action(&mut st, ActionType::VolumeChange(4, vi(Some(800), None, vec![])));
    // master pinned at full scale, the real value per channel: 42% shows
    let out = handle_action(
        &mut st,
        ActionType::VolumeChange(4, vi(Some(1000), None, vec![420])),
    );
    assert_eq!(out.commands.len(), 1);
    match &out.commands[0] {
        Command::Show(_, req) => {
            assert_eq!(req.summary, "Monitor - 42%");
            assert_eq!(req.value, Some(42));
        },
        other => panic!("expected a show command, got {:?}", kind_of(other)),
    }
}

fn kind_of(c: &Command<u32>) -> &'static str {
    match c {
        Command::Show(..) => "show",
        Command::Update(..) => "update",
        Command::Close(..) => "close",
    }
}
