//! Configuration consumed by the event-loop side: the action channel's
//! buffer capacity and the optional ignore-list that suppresses binding of
//! matching entries.

use vstd::prelude::*;

use crate::classify::parse_object;
use crate::classify::spec_accepted;
use crate::classify::spec_parsed_entry;
use crate::classify::Entry;
use crate::classify::GlobalObject;
use crate::text::str_eq;

verus! {

/// Configuration for the listener that drives the native event loop.
pub struct ListenerConfig {
    message_buffer_size: usize,
    ignore_list: Option<Vec<String>>,
}

/// Does the ignore-list match this entry?  Matching goes by the entry's
/// `name`, falling back to `label`; an entry with neither never matches,
/// and an absent list matches nothing.
pub open spec fn spec_entry_ignored(cfg: ListenerConfig, e: Entry) -> bool {
    &&& cfg.spec_ignore_list() matches Some(list)
    &&& (if e.name is Some {
        e.name
    } else {
        e.label
    }) matches Some(n)
    &&& exists|i: int| 0 <= i < list.len() && (#[trigger] list[i])@ == n@
}

impl ListenerConfig {
    /// The capacity the action channel is to be created with.
    pub closed spec fn spec_message_buffer_size(&self) -> usize {
        self.message_buffer_size
    }

    /// The configured ignore-list; `None` means no filtering.
    pub closed spec fn spec_ignore_list(&self) -> Option<Seq<String>> {
        match self.ignore_list {
            Some(list) => Some(list@),
            None => None,
        }
    }

    pub fn set_message_buffer_size(&mut self, s: usize)
        ensures
            final(self).spec_message_buffer_size() == s,
            final(self).spec_ignore_list() == old(self).spec_ignore_list(),
    {
        self.message_buffer_size = s;
    }

    /// Installs the ignore-list; an empty list switches filtering off.
    pub fn set_ignore_list(&mut self, ignore_list: Vec<String>)
        ensures
            final(self).spec_ignore_list() == (if ignore_list@.len() == 0 {
                None::<Seq<String>>
            } else {
                Some(ignore_list@)
            }),
            final(self).spec_message_buffer_size() == old(self).spec_message_buffer_size(),
    {
        self.ignore_list = if ignore_list.is_empty() {
            None
        } else {
            Some(ignore_list)
        };
    }

    /// The configured channel capacity.
    pub fn message_buffer_size(&self) -> (s: usize)
        ensures
            s == self.spec_message_buffer_size(),
    {
        self.message_buffer_size
    }

    /// Is this entry suppressed by the ignore-list?
    pub fn is_entry_ignored(&self, e: &Entry) -> (r: bool)
        ensures
            r == spec_entry_ignored(*self, *e),
    {
        let list = match &self.ignore_list {
            Some(list) => list,
            None => {
                return false;
            },
        };
        let needle = match &e.name {
            Some(n) => n,
            None => match &e.label {
                Some(n) => n,
                None => {
                    return false;
                },
            },
        };
        let mut i: usize = 0;
        while i < list.len()
            invariant
                i <= list@.len(),
                self.spec_ignore_list() == Some(list@),
                (if e.name is Some {
                    e.name
                } else {
                    e.label
                }) == Some(*needle),
                forall|j: int| 0 <= j < i ==> (#[trigger] list@[j])@ != needle@,
            decreases list@.len() - i,
        {
            if str_eq(list[i].as_str(), needle.as_str()) {
                proof {
                    assert(list@[i as int]@ == needle@);
                    assert(self.spec_ignore_list().unwrap() == list@);
                    assert(exists|j: int|
                        0 <= j < list@.len() && (#[trigger] list@[j])@ == needle@);
                }
                return true;
            }
            i = i + 1;
        }
        false
    }
}

/// The decision the event loop takes for one announced global: the entry
/// to bind, track and subscribe, or `None` where the classifier rejects
/// the object or the ignore-list suppresses it.
pub fn accept_global(cfg: &ListenerConfig, o: &GlobalObject) -> (r: Option<Entry>)
    ensures
        match r {
            Some(e) => {
                &&& spec_accepted(*o)
                &&& e == spec_parsed_entry(*o)
                &&& !spec_entry_ignored(*cfg, e)
            },
            None => !spec_accepted(*o) || spec_entry_ignored(*cfg, spec_parsed_entry(*o)),
        },
{
    match parse_object(o) {
        Some(e) => {
            if cfg.is_entry_ignored(&e) {
                None
            } else {
                Some(e)
            }
        },
        None => None,
    }
}

impl Default for ListenerConfig {
    /// A small default channel capacity and no filtering.
    fn default() -> (r: ListenerConfig)
        ensures
            r.spec_message_buffer_size() == 5,
            r.spec_ignore_list() is None,
    {
        ListenerConfig { message_buffer_size: 5, ignore_list: None }
    }
}

} // verus!
