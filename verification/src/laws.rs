//! Laws of the reconciler, stated and proved over `spec_reconcile`.
//!
//! `handle_action` ensures that each executable step equals the spec-level
//! step, so everything proved here holds of the running reconciler too.

use vstd::prelude::*;

use crate::classify::spec_label;
use crate::classify::Entry;
use crate::keymap::lemma_sl_insert_wf;
use crate::keymap::lemma_sl_lookup_insert;
use crate::keymap::lemma_sl_lookup_remove;
use crate::keymap::lemma_sl_remove_wf;
use crate::keymap::sl_contains;
use crate::keymap::sl_lookup;
use crate::keymap::sl_remove;
use crate::keymap::sl_wf;
use crate::reconcile::spec_reconcile;
use crate::reconcile::spec_request;
use crate::reconcile::spec_with_volume;
use crate::reconcile::ActionType;
use crate::reconcile::CommandV;
use crate::volume::vi_eq;
use crate::volume::VolumeInfo;

verus! {

/// Every reconciliation step keeps both maps' keys pairwise distinct, so
/// steps can be chained.
pub proof fn lemma_reconcile_preserves_wf<H>(
    devices: Seq<(u32, Entry)>,
    notifications: Seq<(u32, H)>,
    msg: ActionType,
)
    requires
        sl_wf(devices),
        sl_wf(notifications),
    ensures
        sl_wf(spec_reconcile(devices, notifications, msg).devices),
        sl_wf(spec_reconcile(devices, notifications, msg).notifications),
{
    match msg {
        ActionType::EntryAdd(id, entry) => {
            lemma_sl_insert_wf(devices, id, entry);
        },
        ActionType::VolumeChange(id, vol) => {
            if sl_lookup(devices, id) is Some {
                let e = sl_lookup(devices, id).unwrap();
                lemma_sl_insert_wf(devices, id, spec_with_volume(e, vol));
                lemma_sl_remove_wf(notifications, id);
            }
        },
        ActionType::EntryRemove(id) => {
            lemma_sl_remove_wf(devices, id);
            lemma_sl_remove_wf(notifications, id);
        },
        ActionType::Shutdown => {},
    }
}

/// Two equal volume snapshots in a row for an entry already holding the
/// first produce no presentation command at all and leave the state as it
/// was.
pub proof fn lemma_duplicate_volume_changes_silent<H>(
    devices: Seq<(u32, Entry)>,
    notifications: Seq<(u32, H)>,
    id: u32,
    v1: VolumeInfo,
    v2: VolumeInfo,
)
    requires
        vi_eq(v1, v2),
        sl_lookup(devices, id) matches Some(e) && e.volume == Some(v1),
    ensures
        ({
            let s1 = spec_reconcile(devices, notifications, ActionType::VolumeChange(id, v1));
            let s2 = spec_reconcile(
                s1.devices,
                s1.notifications,
                ActionType::VolumeChange(id, v2),
            );
            &&& s1.commands == Seq::<CommandV<H>>::empty()
            &&& s2.commands == Seq::<CommandV<H>>::empty()
            &&& s1.devices == devices && s1.notifications == notifications
            &&& s2.devices == devices && s2.notifications == notifications
            &&& s1.orphan is None && s2.orphan is None
        }),
{
}

/// A fresh entry's first snapshot is stored without a presentation call;
/// a second, different and displayable snapshot produces exactly one show
/// command.
pub proof fn lemma_first_snapshot_then_change_shows_once<H>(
    devices: Seq<(u32, Entry)>,
    notifications: Seq<(u32, H)>,
    id: u32,
    v1: VolumeInfo,
    v2: VolumeInfo,
)
    requires
        sl_wf(devices),
        sl_lookup(devices, id) matches Some(e) && e.volume is None,
        !vi_eq(v1, v2),
        spec_request(spec_label(sl_lookup(devices, id).unwrap()), v2) is Some,
        !sl_contains(notifications, id),
    ensures
        ({
            let e = sl_lookup(devices, id).unwrap();
            let s1 = spec_reconcile(devices, notifications, ActionType::VolumeChange(id, v1));
            let s2 = spec_reconcile(
                s1.devices,
                s1.notifications,
                ActionType::VolumeChange(id, v2),
            );
            &&& s1.commands == Seq::<CommandV<H>>::empty()
            &&& sl_lookup(s1.devices, id) == Some(spec_with_volume(e, v1))
            &&& s2.commands == seq![
                CommandV::<H>::Show(id, spec_request(spec_label(e), v2).unwrap()),
            ]
            &&& s2.notifications == notifications
        }),
{
    let e = sl_lookup(devices, id).unwrap();
    lemma_sl_lookup_insert(devices, id, spec_with_volume(e, v1), id);
    let e1 = spec_with_volume(e, v1);
    assert(spec_label(e1) == spec_label(e));
    assert(!vi_eq(e1.volume.unwrap(), v2));
}

/// Removing an entry twice: the first removal changes the state, the
/// second is a warning-only no-op.
pub proof fn lemma_entry_remove_idempotent<H>(
    devices: Seq<(u32, Entry)>,
    notifications: Seq<(u32, H)>,
    id: u32,
)
    requires
        sl_wf(devices),
        sl_wf(notifications),
        sl_contains(devices, id),
    ensures
        ({
            let s1 = spec_reconcile(devices, notifications, ActionType::EntryRemove(id));
            let s2 = spec_reconcile(s1.devices, s1.notifications, ActionType::EntryRemove(id));
            &&& s1.orphan is None
            &&& s1.devices == sl_remove(devices, id)
            &&& !sl_contains(s1.devices, id)
            &&& !sl_contains(s1.notifications, id)
            &&& s2.orphan == Some(id)
            &&& s2.devices == s1.devices && s2.notifications == s1.notifications
            &&& s2.commands == Seq::<CommandV<H>>::empty()
        }),
{
    lemma_sl_lookup_remove(devices, id, id);
    lemma_sl_lookup_remove(notifications, id, id);
}

/// An event for an id that was never added changes no map and produces no
/// command; it is observable only as the orphan warning.
pub proof fn lemma_orphan_events_change_nothing<H>(
    devices: Seq<(u32, Entry)>,
    notifications: Seq<(u32, H)>,
    id: u32,
    v: VolumeInfo,
)
    requires
        !sl_contains(devices, id),
    ensures
        ({
            let s = spec_reconcile(devices, notifications, ActionType::VolumeChange(id, v));
            &&& s.devices == devices && s.notifications == notifications
            &&& s.commands == Seq::<CommandV<H>>::empty()
            &&& s.orphan == Some(id) && !s.stop
        }),
        ({
            let s = spec_reconcile(devices, notifications, ActionType::EntryRemove(id));
            &&& s.devices == devices && s.notifications == notifications
            &&& s.commands == Seq::<CommandV<H>>::empty()
            &&& s.orphan == Some(id) && !s.stop
        }),
{
}

/// Shutdown closes every outstanding handle, oldest first, empties both
/// maps and stops the consumer.
pub proof fn lemma_shutdown_closes_everything<H>(
    devices: Seq<(u32, Entry)>,
    notifications: Seq<(u32, H)>,
)
    ensures
        ({
            let s = spec_reconcile(devices, notifications, ActionType::Shutdown);
            &&& s.devices == Seq::<(u32, Entry)>::empty()
            &&& s.notifications == Seq::<(u32, H)>::empty()
            &&& s.stop
            &&& s.commands.len() == notifications.len()
            &&& forall|i: int|
                0 <= i < notifications.len() ==> s.commands[i] == CommandV::<H>::Close(
                    (#[trigger] notifications[i]).0,
                    notifications[i].1,
                )
        }),
{
}

} // verus!
