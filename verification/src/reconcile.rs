//! The state reconciler: consumes domain events, keeps the authoritative
//! map of live entries and outstanding notification handles, deduplicates
//! noisy volume reports, and decides which presentation commands (show,
//! update, close) the application layer must carry out.
//!
//! The whole step is specified by `spec_reconcile`; `handle_action` is its
//! executable form.  Notification handles are whatever the collaborator
//! returns; the reconciler is generic over them.

use vstd::prelude::*;

use crate::classify::spec_label;
use crate::classify::Entry;
use crate::keymap::lemma_sl_remove_absent;
use crate::keymap::sl_contains;
use crate::keymap::sl_insert;
use crate::keymap::sl_lookup;
use crate::keymap::sl_remove;
use crate::keymap::KeyMap;
use crate::text::spec_decimal;
use crate::text::u32_to_string;
use crate::volume::spec_effective_volume;
use crate::volume::spec_percent;
use crate::volume::to_percent;
use crate::volume::vi_eq;
use crate::volume::VolumeInfo;

verus! {

/// A domain event flowing from the event loop to the reconciler.  No
/// payload crosses the action channel outside these four shapes.
pub enum ActionType {
    /// A classified object was bound; its snapshot enters the live map.
    EntryAdd(u32, Entry),
    /// The server removed the object.
    EntryRemove(u32),
    /// A property change parsed into a volume snapshot.
    VolumeChange(u32, VolumeInfo),
    /// The event loop is gone; tear everything down.
    Shutdown,
}

/// Urgency of a notification request.
#[derive(Clone, Copy, Debug, PartialEq, Eq, Structural)]
pub enum Urgency {
    Low,
    Normal,
    Critical,
}

/// What the notification collaborator is asked to display: text, icon,
/// an optional progress-style percent hint, urgency and timeout.
pub struct NotificationRequest {
    pub summary: String,
    pub icon: String,
    pub value: Option<u32>,
    pub urgency: Urgency,
    pub timeout_secs: u64,
}

/// The abstract value of a `NotificationRequest`.
pub struct NotificationRequestV {
    pub summary: Seq<char>,
    pub icon: Seq<char>,
    pub value: Option<u32>,
    pub urgency: Urgency,
    pub timeout_secs: u64,
}

impl View for NotificationRequest {
    type V = NotificationRequestV;

    open spec fn view(&self) -> NotificationRequestV {
        NotificationRequestV {
            summary: self.summary@,
            icon: self.icon@,
            value: self.value,
            urgency: self.urgency,
            timeout_secs: self.timeout_secs,
        }
    }
}

/// A presentation command the application layer must carry out, in order.
/// A handle moves out with `Update` and `Close`; after a successful show
/// or update the new handle is reported back with `State::put_handle`.
pub enum Command<H> {
    /// Show a new notification for this id.
    Show(u32, NotificationRequest),
    /// Update the notification behind this handle.
    Update(u32, H, NotificationRequest),
    /// Close the notification behind this handle.
    Close(u32, H),
}

/// The abstract value of a `Command`.
pub enum CommandV<H> {
    Show(u32, NotificationRequestV),
    Update(u32, H, NotificationRequestV),
    Close(u32, H),
}

impl<H> View for Command<H> {
    type V = CommandV<H>;

    open spec fn view(&self) -> CommandV<H> {
        match self {
            Command::Show(id, req) => CommandV::Show(*id, req@),
            Command::Update(id, h, req) => CommandV::Update(*id, *h, req@),
            Command::Close(id, h) => CommandV::Close(*id, *h),
        }
    }
}

/// The abstract values of a command list.
pub open spec fn cmds_view<H>(cs: Seq<Command<H>>) -> Seq<CommandV<H>> {
    cs.map_values(|c: Command<H>| c@)
}

/// What one reconciliation step asks of the caller.
pub struct Outcome<H> {
    /// Presentation commands, to carry out in order.
    pub commands: Vec<Command<H>>,
    /// An event arrived for this id with no live entry: worth a warning,
    /// nothing else changed.
    pub orphan: Option<u32>,
    /// The consumer loop must stop; set by `Shutdown` alone.
    pub stop: bool,
}

/// The application-side state: the live entries and the outstanding
/// notification handles, both keyed by object id and owned exclusively by
/// the reconciler.
pub struct State<H> {
    devices: KeyMap<Entry>,
    notifications: KeyMap<H>,
}

/// The abstract value of a `State`: the two maps' pairs, oldest first.
pub struct StateV<H> {
    pub devices: Seq<(u32, Entry)>,
    pub notifications: Seq<(u32, H)>,
}

impl<H> View for State<H> {
    type V = StateV<H>;

    closed spec fn view(&self) -> StateV<H> {
        StateV { devices: self.devices@, notifications: self.notifications@ }
    }
}

impl<H> Default for State<H> {
    /// A reconciler with no live entries and no outstanding handles.
    fn default() -> (r: State<H>)
        ensures
            r@.devices == Seq::<(u32, Entry)>::empty(),
            r@.notifications == Seq::<(u32, H)>::empty(),
    {
        State { devices: KeyMap::new(), notifications: KeyMap::new() }
    }
}

impl<H> State<H> {
    pub fn devices_len(&self) -> (n: usize)
        ensures
            n == self@.devices.len(),
    {
        self.devices.len()
    }

    pub fn notifications_len(&self) -> (n: usize)
        ensures
            n == self@.notifications.len(),
    {
        self.notifications.len()
    }

    /// The live entry under this id, if any.
    pub fn get_entry(&self, id: u32) -> (r: Option<&Entry>)
        ensures
            match r {
                Some(e) => sl_lookup(self@.devices, id) == Some(*e),
                None => sl_lookup(self@.devices, id) is None,
            },
    {
        self.devices.get(id)
    }

    /// Is a notification handle outstanding for this id?
    pub fn has_notification(&self, id: u32) -> (r: bool)
        ensures
            r == sl_contains(self@.notifications, id),
    {
        self.notifications.contains_key(id)
    }

    /// Reports the handle a show or update call returned; the reconciler
    /// keeps it until the entry changes again, is removed, or shuts down.
    pub fn put_handle(&mut self, id: u32, h: H)
        ensures
            final(self)@.devices == old(self)@.devices,
            final(self)@.notifications == sl_insert(old(self)@.notifications, id, h),
    {
        self.notifications.insert(id, h);
    }
}

/// The notification asked for by a genuine volume change of the entry
/// labelled `label`: a "muted" alert when the snapshot is muted, else a
/// percent readout of the effective volume, else nothing (silence is
/// preferred over a blank alert).
pub open spec fn spec_request(label: Seq<char>, v: VolumeInfo) -> Option<NotificationRequestV> {
    if v.mute == Some(true) {
        Some(
            NotificationRequestV {
                summary: label + " - Muted"@,
                icon: "audio-volume-muted-symbolic"@,
                value: None,
                urgency: Urgency::Normal,
                timeout_secs: 5,
            },
        )
    } else if spec_effective_volume(v) is Some {
        let p = spec_percent(spec_effective_volume(v).unwrap() as nat);
        Some(
            NotificationRequestV {
                summary: label + " - "@ + spec_decimal(p) + "%"@,
                icon: "audio-volume-high-symbolic"@,
                value: Some(p as u32),
                urgency: Urgency::Normal,
                timeout_secs: 5,
            },
        )
    } else {
        None
    }
}

/// The entry with its stored volume replaced.
pub open spec fn spec_with_volume(e: Entry, vol: VolumeInfo) -> Entry {
    Entry { volume: Some(vol), ..e }
}

/// The close command for an outstanding handle, if one is outstanding.
pub open spec fn spec_close_cmds<H>(h: Option<H>, id: u32) -> Seq<CommandV<H>> {
    match h {
        Some(h) => seq![CommandV::Close(id, h)],
        None => Seq::empty(),
    }
}

/// What one reconciliation step yields: the new maps, the presentation
/// commands in order, the orphan warning if any, and whether to stop.
pub struct StepV<H> {
    pub devices: Seq<(u32, Entry)>,
    pub notifications: Seq<(u32, H)>,
    pub commands: Seq<CommandV<H>>,
    pub orphan: Option<u32>,
    pub stop: bool,
}

/// One reconciliation step over the abstract state.
///
/// - `EntryAdd` stores the snapshot unconditionally (an id reused by the
///   server overwrites, since reuse implies the old object was removed).
/// - `VolumeChange` for an unknown id is an orphan warning.  The first
///   snapshot after an add is stored silently (it is the server's
///   initial-state echo).  A snapshot equal to the stored one is dropped.
///   A genuine change is stored and asks for an update where a handle is
///   outstanding, a show where none is, and for a close of any outstanding
///   handle where no notification can be built from the snapshot.
/// - `EntryRemove` for an unknown id is an orphan warning; otherwise the
///   entry leaves both maps and any outstanding handle is closed.
/// - `Shutdown` closes every outstanding handle, oldest first, empties
///   both maps and stops the consumer.
pub open spec fn spec_reconcile<H>(
    devices: Seq<(u32, Entry)>,
    notifications: Seq<(u32, H)>,
    msg: ActionType,
) -> StepV<H> {
    match msg {
        ActionType::EntryAdd(id, entry) => StepV {
            devices: sl_insert(devices, id, entry),
            notifications,
            commands: Seq::empty(),
            orphan: None,
            stop: false,
        },
        ActionType::VolumeChange(id, vol) => match sl_lookup(devices, id) {
            None => StepV {
                devices,
                notifications,
                commands: Seq::empty(),
                orphan: Some(id),
                stop: false,
            },
            Some(e) => {
                if e.volume is None {
                    StepV {
                        devices: sl_insert(devices, id, spec_with_volume(e, vol)),
                        notifications,
                        commands: Seq::empty(),
                        orphan: None,
                        stop: false,
                    }
                } else if vi_eq(e.volume.unwrap(), vol) {
                    StepV {
                        devices,
                        notifications,
                        commands: Seq::empty(),
                        orphan: None,
                        stop: false,
                    }
                } else {
                    let stored = sl_insert(devices, id, spec_with_volume(e, vol));
                    match spec_request(spec_label(e), vol) {
                        None => StepV {
                            devices: stored,
                            notifications: sl_remove(notifications, id),
                            commands: spec_close_cmds(sl_lookup(notifications, id), id),
                            orphan: None,
                            stop: false,
                        },
                        Some(req) => match sl_lookup(notifications, id) {
                            Some(h) => StepV {
                                devices: stored,
                                notifications: sl_remove(notifications, id),
                                commands: seq![CommandV::Update(id, h, req)],
                                orphan: None,
                                stop: false,
                            },
                            None => StepV {
                                devices: stored,
                                notifications,
                                commands: seq![CommandV::Show(id, req)],
                                orphan: None,
                                stop: false,
                            },
                        },
                    }
                }
            },
        },
        ActionType::EntryRemove(id) => match sl_lookup(devices, id) {
            None => StepV {
                devices,
                notifications,
                commands: Seq::empty(),
                orphan: Some(id),
                stop: false,
            },
            Some(_) => StepV {
                devices: sl_remove(devices, id),
                notifications: sl_remove(notifications, id),
                commands: spec_close_cmds(sl_lookup(notifications, id), id),
                orphan: None,
                stop: false,
            },
        },
        ActionType::Shutdown => StepV {
            devices: Seq::empty(),
            notifications: Seq::empty(),
            commands: Seq::new(
                notifications.len(),
                |i: int| CommandV::Close(notifications[i].0, notifications[i].1),
            ),
            orphan: None,
            stop: true,
        },
    }
}

/// Builds the notification request for a genuine volume change of `e`, as
/// `spec_request` describes; `None` when neither a mute flag nor a
/// derivable volume value is present.
pub fn build_volume_notification(e: &Entry, vol: &VolumeInfo) -> (r: Option<NotificationRequest>)
    ensures
        match r {
            Some(req) => spec_request(spec_label(*e), *vol) == Some(req@),
            None => spec_request(spec_label(*e), *vol) is None,
        },
{
    if matches!(vol.mute, Some(true)) {
        let mut summary = String::new();
        summary.append(e.get_label());
        summary.append(" - Muted");
        proof {
            assert(summary@ =~= spec_label(*e) + " - Muted"@);
        }
        Some(
            NotificationRequest {
                summary,
                icon: "audio-volume-muted-symbolic".to_owned(),
                value: None,
                urgency: Urgency::Normal,
                timeout_secs: 5,
            },
        )
    } else {
        match vol.effective_volume() {
            Some(val) => {
                let p = to_percent(val);
                let mut summary = String::new();
                summary.append(e.get_label());
                summary.append(" - ");
                let digits = u32_to_string(p);
                summary.append(digits.as_str());
                summary.append("%");
                proof {
                    assert(summary@ =~= spec_label(*e) + " - "@ + spec_decimal(p as nat) + "%"@);
                    assert(p as nat == spec_percent(val as nat));
                }
                Some(
                    NotificationRequest {
                        summary,
                        icon: "audio-volume-high-symbolic".to_owned(),
                        value: Some(p),
                        urgency: Urgency::Normal,
                        timeout_secs: 5,
                    },
                )
            },
            None => None,
        }
    }
}

/// Applies one domain event to the state, as `spec_reconcile` describes,
/// and hands back what the caller must do about it.
pub fn handle_action<H>(state: &mut State<H>, msg: ActionType) -> (out: Outcome<H>)
    ensures
        ({
            let step = spec_reconcile(old(state)@.devices, old(state)@.notifications, msg);
            &&& final(state)@.devices == step.devices
            &&& final(state)@.notifications == step.notifications
            &&& cmds_view(out.commands@) == step.commands
            &&& out.orphan == step.orphan
            &&& out.stop == step.stop
        }),
{
    proof {
        use_type_invariant(&state.devices);
        use_type_invariant(&state.notifications);
    }
    match msg {
        ActionType::EntryAdd(oid, entry) => {
            state.devices.insert(oid, entry);
            let out = Outcome { commands: Vec::new(), orphan: None, stop: false };
            proof {
                assert(cmds_view(out.commands@) =~= Seq::<CommandV<H>>::empty());
            }
            out
        },
        ActionType::VolumeChange(oid, vol) => handle_volume_change(state, oid, vol),
        ActionType::EntryRemove(oid) => {
            match state.devices.remove(oid) {
                None => {
                    proof {
                        lemma_sl_remove_absent(old(state)@.devices, oid);
                    }
                    let out = Outcome { commands: Vec::new(), orphan: Some(oid), stop: false };
                    proof {
                        assert(cmds_view(out.commands@) =~= Seq::<CommandV<H>>::empty());
                    }
                    out
                },
                Some(_entry) => {
                    let commands = match state.notifications.remove(oid) {
                        Some(h) => vec![Command::Close(oid, h)],
                        None => {
                            proof {
                                lemma_sl_remove_absent(old(state)@.notifications, oid);
                            }
                            Vec::new()
                        },
                    };
                    let out = Outcome { commands, orphan: None, stop: false };
                    proof {
                        let step = spec_reconcile(
                            old(state)@.devices,
                            old(state)@.notifications,
                            msg,
                        );
                        assert(cmds_view(out.commands@) =~= step.commands);
                    }
                    out
                },
            }
        },
        ActionType::Shutdown => {
            state.devices.clear();
            let mut pairs = state.notifications.take_pairs();
            let ghost old_notifs = pairs@;
            let total: usize = pairs.len();
            let mut commands: Vec<Command<H>> = Vec::new();
            let mut i: usize = 0;
            proof {
                assert(old_notifs.skip(0) =~= old_notifs);
                assert(cmds_view(commands@) =~= Seq::<CommandV<H>>::empty());
            }
            while pairs.len() > 0
                invariant
                    pairs@ == old_notifs.skip(i as int),
                    0 <= i <= total,
                    total == old_notifs.len(),
                    commands@.len() == i,
                    forall|j: int|
                        0 <= j < i ==> (#[trigger] commands@[j])@ == CommandV::<H>::Close(
                            old_notifs[j].0,
                            old_notifs[j].1,
                        ),
                decreases pairs@.len(),
            {
                let (id, h) = pairs.remove(0);
                proof {
                    assert(old_notifs.skip(i as int)[0] == old_notifs[i as int]);
                    assert(old_notifs.skip(i as int).remove(0) =~= old_notifs.skip(i as int + 1));
                }
                commands.push(Command::Close(id, h));
                i = i + 1;
            }
            let out = Outcome { commands, orphan: None, stop: true };
            proof {
                let step = spec_reconcile(old(state)@.devices, old(state)@.notifications, msg);
                assert(cmds_view(out.commands@) =~= step.commands);
            }
            out
        },
    }
}

/// The `VolumeChange` arm of `handle_action`.
fn handle_volume_change<H>(state: &mut State<H>, oid: u32, vol: VolumeInfo) -> (out: Outcome<H>)
    ensures
        ({
            let step = spec_reconcile(
                old(state)@.devices,
                old(state)@.notifications,
                ActionType::VolumeChange(oid, vol),
            );
            &&& final(state)@.devices == step.devices
            &&& final(state)@.notifications == step.notifications
            &&& cmds_view(out.commands@) == step.commands
            &&& out.orphan == step.orphan
            &&& out.stop == step.stop
        }),
{
    proof {
        use_type_invariant(&state.devices);
        use_type_invariant(&state.notifications);
    }
    let mut first = false;
    let mut dup = false;
    let mut req: Option<NotificationRequest> = None;
    match state.devices.get(oid) {
        None => {
            let out = Outcome { commands: Vec::new(), orphan: Some(oid), stop: false };
            proof {
                assert(cmds_view(out.commands@) =~= Seq::<CommandV<H>>::empty());
            }
            return out;
        },
        Some(e) => {
            match &e.volume {
                None => {
                    first = true;
                },
                Some(cur) => {
                    if cur == &vol {
                        dup = true;
                    } else {
                        req = build_volume_notification(e, &vol);
                    }
                },
            }
        },
    }
    if dup {
        let out = Outcome { commands: Vec::new(), orphan: None, stop: false };
        proof {
            assert(cmds_view(out.commands@) =~= Seq::<CommandV<H>>::empty());
        }
        return out;
    }
    // A genuine update: store the snapshot as the entry's last-known volume.
    let mut e = match state.devices.remove(oid) {
        Some(e) => e,
        None => unreached(),
    };
    e.volume = Some(vol);
    let ghost updated = e;
    state.devices.insert(oid, e);
    proof {
        crate::keymap::lemma_sl_remove_wf(old(state)@.devices, oid);
        lemma_sl_remove_absent(sl_remove(old(state)@.devices, oid), oid);
        assert(state.devices@ == sl_insert(old(state)@.devices, oid, updated));
    }
    if first {
        let out = Outcome { commands: Vec::new(), orphan: None, stop: false };
        proof {
            assert(cmds_view(out.commands@) =~= Seq::<CommandV<H>>::empty());
        }
        return out;
    }
    let commands = match req {
        None => {
            // Nothing displayable: close and forget any outstanding alert.
            match state.notifications.remove(oid) {
                Some(h) => vec![Command::Close(oid, h)],
                None => {
                    proof {
                        lemma_sl_remove_absent(old(state)@.notifications, oid);
                    }
                    Vec::new()
                },
            }
        },
        Some(request) => {
            match state.notifications.remove(oid) {
                Some(h) => vec![Command::Update(oid, h, request)],
                None => {
                    proof {
                        lemma_sl_remove_absent(old(state)@.notifications, oid);
                    }
                    vec![Command::Show(oid, request)]
                },
            }
        },
    };
    let out = Outcome { commands, orphan: None, stop: false };
    proof {
        let step = spec_reconcile(
            old(state)@.devices,
            old(state)@.notifications,
            ActionType::VolumeChange(oid, vol),
        );
        assert(cmds_view(out.commands@) =~= step.commands);
    }
    out
}

} // verus!
