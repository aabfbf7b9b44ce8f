//! The object classifier: decides whether a remote object announced by the
//! server's registry is an audio device or node of interest, and extracts a
//! normalized `Entry` snapshot from its property dictionary.

use vstd::prelude::*;

use crate::text::parse_u32;
use crate::text::spec_decimal;
use crate::text::spec_parse_u32;
use crate::text::str_eq;
use crate::text::u32_to_string;
use crate::volume::spec_device_kind;
use crate::volume::DeviceKind;
use crate::volume::VolumeInfo;

verus! {

/// The type tag under which the server announces a remote object.  Only
/// nodes and devices can be of interest; every other tag is `Other`.
#[derive(Clone, Copy, Debug, PartialEq, Eq, Structural)]
pub enum ObjectType {
    Node,
    Device,
    Other,
}

/// A property dictionary as the server reports it: key/value pairs in
/// announcement order, where a lookup takes the first match.
pub struct PropDict {
    pub entries: Vec<(String, String)>,
}

/// The value stored under `key`, scanning the pairs from the front.
pub open spec fn spec_dict_lookup(s: Seq<(String, String)>, key: Seq<char>) -> Option<String>
    decreases s.len(),
{
    if s.len() == 0 {
        None
    } else if s[0].0@ == key {
        Some(s[0].1)
    } else {
        spec_dict_lookup(s.drop_first(), key)
    }
}

proof fn lemma_dict_lookup_at(s: Seq<(String, String)>, key: Seq<char>, i: int)
    requires
        0 <= i < s.len(),
        s[i].0@ == key,
        forall|j: int| 0 <= j < i ==> (#[trigger] s[j]).0@ != key,
    ensures
        spec_dict_lookup(s, key) == Some(s[i].1),
    decreases i,
{
    if i > 0 {
        lemma_dict_lookup_at(s.drop_first(), key, i - 1);
    }
}

proof fn lemma_dict_lookup_none(s: Seq<(String, String)>, key: Seq<char>)
    requires
        forall|j: int| 0 <= j < s.len() ==> (#[trigger] s[j]).0@ != key,
    ensures
        spec_dict_lookup(s, key) is None,
    decreases s.len(),
{
    if s.len() > 0 {
        lemma_dict_lookup_none(s.drop_first(), key);
    }
}

impl PropDict {
    pub fn new() -> (r: PropDict)
        ensures
            r.entries@ == Seq::<(String, String)>::empty(),
    {
        PropDict { entries: Vec::new() }
    }

    /// Appends one key/value pair, as the server announced it.
    pub fn push(&mut self, key: String, value: String)
        ensures
            final(self).entries@ == old(self).entries@.push((key, value)),
    {
        self.entries.push((key, value));
    }

    /// The first value stored under `key`, if any.
    pub fn get(&self, key: &str) -> (r: Option<&String>)
        ensures
            match r {
                Some(v) => spec_dict_lookup(self.entries@, key@) == Some(*v),
                None => spec_dict_lookup(self.entries@, key@) is None,
            },
    {
        let mut i: usize = 0;
        while i < self.entries.len()
            invariant
                i <= self.entries@.len(),
                forall|j: int| 0 <= j < i ==> (#[trigger] self.entries@[j]).0@ != key@,
            decreases self.entries@.len() - i,
        {
            if str_eq(self.entries[i].0.as_str(), key) {
                proof {
                    lemma_dict_lookup_at(self.entries@, key@, i as int);
                }
                return Some(&self.entries[i].1);
            }
            i = i + 1;
        }
        proof {
            lemma_dict_lookup_none(self.entries@, key@);
        }
        None
    }
}

/// What the server's registry announces about one remote object: its id,
/// its type tag, and its property dictionary, if it carries one.
pub struct GlobalObject {
    pub id: u32,
    pub object_type: ObjectType,
    pub props: Option<PropDict>,
}

/// A normalized snapshot of a remote audio object.
pub struct Entry {
    /// Server-assigned identity, unique while the object lives.
    pub id: u32,
    /// Node (`true`) or device (`false`).
    pub is_node: bool,
    /// Back-reference to the owning device, where reported.
    pub device_id: Option<u32>,
    pub name: Option<String>,
    pub label: Option<String>,
    pub description: Option<String>,
    pub kind: DeviceKind,
    /// Last-known volume; `None` until the first property snapshot arrives.
    pub volume: Option<VolumeInfo>,
}

/// The display label of an entry: `label`, falling back to `description`,
/// then `name`, then a literal placeholder.
pub open spec fn spec_label(e: Entry) -> Seq<char> {
    if e.label is Some {
        e.label.unwrap()@
    } else if e.description is Some {
        e.description.unwrap()@
    } else if e.name is Some {
        e.name.unwrap()@
    } else {
        "<unnamed>"@
    }
}

impl Entry {
    /// The display label, as `spec_label` describes.
    pub fn get_label(&self) -> (r: &str)
        ensures
            r@ == spec_label(*self),
    {
        match &self.label {
            Some(s) => s.as_str(),
            None => match &self.description {
                Some(s) => s.as_str(),
                None => match &self.name {
                    Some(s) => s.as_str(),
                    None => "<unnamed>",
                },
            },
        }
    }
}

/// The media-class values accepted for nodes.  Monitor sources are accepted
/// to allow recording-path volume tracking.
pub open spec fn spec_audio_node_class(s: Seq<char>) -> bool {
    ||| s == "Audio/Sink"@
    ||| s == "Audio/Source"@
    ||| s == "Audio/Duplex"@
    ||| s == "Audio/Sink/Monitor"@
}

/// The device-API values accepted for devices.
pub open spec fn spec_audio_device_api(s: Seq<char>) -> bool {
    ||| s == "alsa"@
    ||| s == "bluez5"@
    ||| s == "jack"@
    ||| s == "pulse"@
}

/// A property dictionary whose media-class names an accepted audio node.
pub open spec fn spec_audio_node(props: Option<PropDict>) -> bool {
    &&& props matches Some(d)
    &&& spec_dict_lookup(d.entries@, "media.class"@) matches Some(c)
    &&& spec_audio_node_class(c@)
}

/// A property dictionary whose device-API names an accepted audio device.
pub open spec fn spec_audio_device(props: Option<PropDict>) -> bool {
    &&& props matches Some(d)
    &&& spec_dict_lookup(d.entries@, "device.api"@) matches Some(a)
    &&& spec_audio_device_api(a@)
}

/// Does the media-class property name an audio node of interest?
pub fn is_audio_node(props: &Option<PropDict>) -> (r: bool)
    ensures
        r == spec_audio_node(*props),
{
    match props {
        Some(d) => match d.get("media.class") {
            Some(c) => str_eq(c.as_str(), "Audio/Sink") || str_eq(c.as_str(), "Audio/Source")
                || str_eq(c.as_str(), "Audio/Duplex") || str_eq(c.as_str(), "Audio/Sink/Monitor"),
            None => false,
        },
        None => false,
    }
}

/// Does the device-API property name an audio device of interest?
pub fn is_audio_device(props: &Option<PropDict>) -> (r: bool)
    ensures
        r == spec_audio_device(*props),
{
    match props {
        Some(d) => match d.get("device.api") {
            Some(a) => str_eq(a.as_str(), "alsa") || str_eq(a.as_str(), "bluez5") || str_eq(
                a.as_str(),
                "jack",
            ) || str_eq(a.as_str(), "pulse"),
            None => false,
        },
        None => false,
    }
}

/// An announced object that the classifier accepts: a node with an accepted
/// media-class, or a device with an accepted device-API.
pub open spec fn spec_accepted(o: GlobalObject) -> bool {
    ||| (o.object_type is Node && spec_audio_node(o.props))
    ||| (o.object_type is Device && spec_audio_device(o.props))
}

/// The snapshot extracted from an accepted node's properties.
pub open spec fn spec_node_entry(o: GlobalObject, d: PropDict) -> Entry {
    Entry {
        id: o.id,
        volume: None,
        is_node: true,
        name: spec_dict_lookup(d.entries@, "node.name"@),
        device_id: match spec_dict_lookup(d.entries@, "device.id"@) {
            Some(s) => spec_parse_u32(s@),
            None => None,
        },
        label: if spec_dict_lookup(d.entries@, "node.nick"@) is Some {
            spec_dict_lookup(d.entries@, "node.nick"@)
        } else {
            spec_dict_lookup(d.entries@, "node.description"@)
        },
        description: spec_dict_lookup(d.entries@, "node.description"@),
        kind: match spec_dict_lookup(d.entries@, "media.class"@) {
            Some(c) => spec_device_kind(c@),
            None => DeviceKind::Unknown,
        },
    }
}

/// The snapshot extracted from an accepted device's properties.
pub open spec fn spec_device_entry(o: GlobalObject, d: PropDict) -> Entry {
    Entry {
        id: o.id,
        volume: None,
        is_node: false,
        name: spec_dict_lookup(d.entries@, "device.name"@),
        device_id: match spec_dict_lookup(d.entries@, "device.id"@) {
            Some(s) => spec_parse_u32(s@),
            None => None,
        },
        label: if spec_dict_lookup(d.entries@, "device.description"@) is Some {
            spec_dict_lookup(d.entries@, "device.description"@)
        } else {
            spec_dict_lookup(d.entries@, "device.name"@)
        },
        description: spec_dict_lookup(d.entries@, "device.description"@),
        kind: match spec_dict_lookup(d.entries@, "media.class"@) {
            Some(c) => spec_device_kind(c@),
            None => DeviceKind::Unknown,
        },
    }
}

/// The snapshot `parse_object` yields for an accepted object.
pub open spec fn spec_parsed_entry(o: GlobalObject) -> Entry {
    if o.object_type is Node {
        spec_node_entry(o, o.props.unwrap())
    } else {
        spec_device_entry(o, o.props.unwrap())
    }
}

/// Looks `key` up and hands back an owned copy of the value, if any.
fn get_owned(d: &PropDict, key: &str) -> (r: Option<String>)
    ensures
        r == spec_dict_lookup(d.entries@, key@),
{
    match d.get(key) {
        Some(v) => Some(v.clone()),
        None => None,
    }
}

/// Classifies an announced object.  Accepted nodes and devices yield their
/// normalized snapshot; everything else (missing properties, foreign type
/// tags, unrecognized classes) is rejected.
pub fn parse_object(o: &GlobalObject) -> (r: Option<Entry>)
    ensures
        r is Some <==> spec_accepted(*o),
        r matches Some(e) ==> e == spec_parsed_entry(*o),
{
    let d = match &o.props {
        Some(d) => d,
        None => {
            return None;
        },
    };
    match o.object_type {
        ObjectType::Node => {
            if !is_audio_node(&o.props) {
                return None;
            }
            let label = match get_owned(d, "node.nick") {
                Some(v) => Some(v),
                None => get_owned(d, "node.description"),
            };
            let device_id = match d.get("device.id") {
                Some(v) => parse_u32(v.as_str()),
                None => None,
            };
            let kind = match d.get("media.class") {
                Some(c) => DeviceKind::from(c.as_str()),
                None => DeviceKind::Unknown,
            };
            Some(
                Entry {
                    id: o.id,
                    volume: None,
                    is_node: true,
                    name: get_owned(d, "node.name"),
                    device_id,
                    label,
                    description: get_owned(d, "node.description"),
                    kind,
                },
            )
        },
        ObjectType::Device => {
            if !is_audio_device(&o.props) {
                return None;
            }
            let label = match get_owned(d, "device.description") {
                Some(v) => Some(v),
                None => get_owned(d, "device.name"),
            };
            let device_id = match d.get("device.id") {
                Some(v) => parse_u32(v.as_str()),
                None => None,
            };
            let kind = match d.get("media.class") {
                Some(c) => DeviceKind::from(c.as_str()),
                None => DeviceKind::Unknown,
            };
            Some(
                Entry {
                    id: o.id,
                    volume: None,
                    is_node: false,
                    name: get_owned(d, "device.name"),
                    device_id,
                    label,
                    description: get_owned(d, "device.description"),
                    kind,
                },
            )
        },
        ObjectType::Other => None,
    }
}

/// The placeholder label `<id>` used where an object carries no usable name.
pub open spec fn spec_angle_id(id: u32) -> Seq<char> {
    "<"@ + spec_decimal(id as nat) + ">"@
}

/// The friendly name of an announced object, as `format_object_label`
/// renders it.
pub open spec fn spec_object_label(o: GlobalObject) -> Seq<char> {
    match o.props {
        None => spec_angle_id(o.id),
        Some(d) => match o.object_type {
            ObjectType::Node => {
                let best = if spec_dict_lookup(d.entries@, "node.nick"@) is Some {
                    spec_dict_lookup(d.entries@, "node.nick"@)
                } else if spec_dict_lookup(d.entries@, "node.description"@) is Some {
                    spec_dict_lookup(d.entries@, "node.description"@)
                } else {
                    spec_dict_lookup(d.entries@, "node.name"@)
                };
                match best {
                    Some(s) => s@,
                    None => spec_angle_id(o.id),
                }
            },
            ObjectType::Device => {
                let best = if spec_dict_lookup(d.entries@, "device.description"@) is Some {
                    spec_dict_lookup(d.entries@, "device.description"@)
                } else {
                    spec_dict_lookup(d.entries@, "device.name"@)
                };
                match best {
                    Some(s) => s@,
                    None => "Device "@ + spec_angle_id(o.id),
                }
            },
            ObjectType::Other => spec_angle_id(o.id),
        },
    }
}

/// Renders `<id>`.
fn angle_id(id: u32) -> (r: String)
    ensures
        r@ == spec_angle_id(id),
{
    let mut s = String::new();
    s.append("<");
    let digits = u32_to_string(id);
    s.append(digits.as_str());
    s.append(">");
    proof {
        assert(s@ =~= spec_angle_id(id));
    }
    s
}

/// An object's friendly name, usually for logging: the best display string
/// its properties offer, else the placeholder `spec_object_label` gives.
pub fn format_object_label(o: &GlobalObject) -> (r: String)
    ensures
        r@ == spec_object_label(*o),
{
    let d = match &o.props {
        Some(d) => d,
        None => {
            return angle_id(o.id);
        },
    };
    match o.object_type {
        ObjectType::Node => {
            let best = match get_owned(d, "node.nick") {
                Some(v) => Some(v),
                None => match get_owned(d, "node.description") {
                    Some(v) => Some(v),
                    None => get_owned(d, "node.name"),
                },
            };
            match best {
                Some(s) => s,
                None => angle_id(o.id),
            }
        },
        ObjectType::Device => {
            let best = match get_owned(d, "device.description") {
                Some(v) => Some(v),
                None => get_owned(d, "device.name"),
            };
            match best {
                Some(s) => s,
                None => {
                    let mut out = String::new();
                    out.append("Device ");
                    let tail = angle_id(o.id);
                    out.append(tail.as_str());
                    proof {
                        assert(out@ =~= "Device "@ + spec_angle_id(o.id));
                    }
                    out
                },
            }
        },
        ObjectType::Other => angle_id(o.id),
    }
}

} // verus!
