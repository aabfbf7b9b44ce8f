//! Volume snapshots reported by the audio server.
//!
//! Volumes are carried as fixed-point thousandths of full scale (`1000`
//! stands for a gain of one), so that a snapshot can be compared and
//! displayed exactly.

use vstd::prelude::*;

use crate::text::join_strings;
use crate::text::spec_decimal;
use crate::text::spec_join;
use crate::text::strs_view;
use crate::text::u32_to_string;
use crate::text::u64_to_string;

verus! {

/// One unit of gain, in the fixed-point scale used throughout the library.
pub const VOLUME_SCALE: u32 = 1000;

/// The kind of audio object an entry stands for.
#[derive(Clone, Copy, Debug, PartialEq, Eq, Structural)]
pub enum DeviceKind {
    /// Unknown is the fallback value.
    Unknown,
    /// Device is a generic device that can be either source, sink or both.
    Device,
    /// Sink is an output device (e.g. headphones).
    Sink,
    /// Source is an input device (e.g. a microphone).
    Source,
}

/// The kind named by a media-class property value.
pub open spec fn spec_device_kind(s: Seq<char>) -> DeviceKind {
    if s == "Audio/Sink"@ {
        DeviceKind::Sink
    } else if s == "Audio/Source"@ {
        DeviceKind::Source
    } else if s == "Audio/Device"@ {
        DeviceKind::Device
    } else {
        DeviceKind::Unknown
    }
}

impl<'a> From<&'a str> for DeviceKind {
    fn from(value: &'a str) -> (r: DeviceKind) {
        if crate::text::str_eq(value, "Audio/Sink") {
            DeviceKind::Sink
        } else if crate::text::str_eq(value, "Audio/Source") {
            DeviceKind::Source
        } else if crate::text::str_eq(value, "Audio/Device") {
            DeviceKind::Device
        } else {
            DeviceKind::Unknown
        }
    }
}

impl<'a> vstd::std_specs::convert::FromSpecImpl<&'a str> for DeviceKind {
    open spec fn obeys_from_spec() -> bool {
        true
    }

    open spec fn from_spec(t: &'a str) -> DeviceKind {
        spec_device_kind(t@)
    }
}

/// A volume snapshot: optional master volume, optional mute flag, and the
/// per-channel volumes, all in fixed-point thousandths.
#[derive(Clone, Debug)]
pub struct VolumeInfo {
    pub volume: Option<u32>,
    pub mute: Option<bool>,
    pub channel_volumes: Vec<u32>,
}

/// Snapshot equality: `volume`, `mute` and `channel_volumes` are pairwise
/// equal.  This is what the reconciler's deduplication goes by.
pub open spec fn vi_eq(a: VolumeInfo, b: VolumeInfo) -> bool {
    &&& a.volume == b.volume
    &&& a.mute == b.mute
    &&& a.channel_volumes@ == b.channel_volumes@
}

impl PartialEq for VolumeInfo {
    fn eq(&self, other: &VolumeInfo) -> (r: bool) {
        let cv_eq = self.channel_volumes == other.channel_volumes;
        proof {
            if cv_eq {
                assert(self.channel_volumes@ =~= other.channel_volumes@);
            }
            if self.channel_volumes@ == other.channel_volumes@ {
                assert(self.channel_volumes@.len() == other.channel_volumes@.len());
                assert(forall|i: int|
                    0 <= i < self.channel_volumes@.len() ==> self.channel_volumes@[i]
                        == other.channel_volumes@[i]);
            }
        }
        self.volume == other.volume && self.mute == other.mute && cv_eq
    }
}

impl Eq for VolumeInfo {

}

impl vstd::std_specs::cmp::PartialEqSpecImpl for VolumeInfo {
    open spec fn obeys_eq_spec() -> bool {
        true
    }

    open spec fn eq_spec(&self, other: &VolumeInfo) -> bool {
        vi_eq(*self, *other)
    }
}

impl Default for VolumeInfo {
    /// An empty snapshot: nothing reported yet.
    fn default() -> (r: VolumeInfo)
        ensures
            r.volume is None,
            r.mute is None,
            r.channel_volumes@ == Seq::<u32>::empty(),
    {
        VolumeInfo { volume: None, mute: None, channel_volumes: Vec::new() }
    }
}

/// The value a snapshot is compared and displayed by.  When the master
/// volume is missing, or pinned at exactly one unit of gain while channel
/// volumes are present (the server then encodes the real value per channel),
/// channel 0 is taken as representative.
pub open spec fn spec_effective_volume(v: VolumeInfo) -> Option<u32> {
    if v.channel_volumes@.len() > 0 && (v.volume is None || v.volume == Some(VOLUME_SCALE)) {
        Some(v.channel_volumes@[0])
    } else {
        v.volume
    }
}

/// Nearest whole percent of a fixed-point volume, rounding halves up.
pub open spec fn spec_percent(v: nat) -> nat {
    (v + 5) / 10
}

impl VolumeInfo {
    /// Renders the snapshot for display, as `spec_display` describes.
    pub fn format_display(&self) -> (r: Option<String>)
        ensures
            r matches Some(s) && s@ == spec_display(*self),
    {
        let mut parts: Vec<String> = Vec::new();
        if let Some(v) = self.volume {
            let mut p = String::new();
            p.append("Volume: ");
            let d = u32_to_string(to_percent(v));
            p.append(d.as_str());
            p.append("%");
            proof {
                assert(p@ =~= spec_volume_part(v));
            }
            parts.push(p);
        }
        proof {
            let s0 = Seq::<Seq<char>>::empty();
            let s1 = if self.volume is Some {
                s0.push(spec_volume_part(self.volume.unwrap()))
            } else {
                s0
            };
            assert(strs_view(parts@) =~= s1);
        }
        if let Some(m) = self.mute {
            let mut p = String::new();
            p.append("Mute: ");
            if m {
                p.append("ON");
            } else {
                p.append("OFF");
            }
            proof {
                assert(p@ =~= spec_mute_part(m));
            }
            parts.push(p);
        }
        proof {
            let s0 = Seq::<Seq<char>>::empty();
            let s1 = if self.volume is Some {
                s0.push(spec_volume_part(self.volume.unwrap()))
            } else {
                s0
            };
            let s2 = if self.mute is Some {
                s1.push(spec_mute_part(self.mute.unwrap()))
            } else {
                s1
            };
            assert(strs_view(parts@) =~= s2);
        }
        if self.channel_volumes.len() > 0 {
            let mut chs: Vec<String> = Vec::new();
            let mut i: usize = 0;
            while i < self.channel_volumes.len()
                invariant
                    i <= self.channel_volumes@.len(),
                    chs@.len() == i,
                    forall|j: int|
                        0 <= j < i ==> (#[trigger] chs@[j])@ == spec_channel_part(
                            j,
                            self.channel_volumes@[j],
                        ),
                decreases self.channel_volumes@.len() - i,
            {
                let mut c = String::new();
                c.append("Ch");
                let idx = u64_to_string((i as u64) + 1);
                c.append(idx.as_str());
                c.append(": ");
                let d = u32_to_string(to_percent(self.channel_volumes[i]));
                c.append(d.as_str());
                c.append("%");
                proof {
                    assert(c@ =~= spec_channel_part(i as int, self.channel_volumes@[i as int]));
                }
                chs.push(c);
                i = i + 1;
            }
            let mut p = String::new();
            p.append("Channels: [");
            let joined = join_strings(&chs, ", ");
            p.append(joined.as_str());
            p.append("]");
            proof {
                assert(strs_view(chs@) =~= spec_channel_parts(self.channel_volumes@));
                assert(p@ =~= spec_channels_part(self.channel_volumes@));
            }
            parts.push(p);
        }
        proof {
            assert(strs_view(parts@) =~= spec_display_parts(*self));
        }
        if parts.len() == 0 {
            Some("Property changed".to_owned())
        } else {
            Some(join_strings(&parts, " | "))
        }
    }

    /// The effective volume, as `spec_effective_volume` describes.
    pub fn effective_volume(&self) -> (r: Option<u32>)
        ensures
            r == spec_effective_volume(*self),
    {
        if self.channel_volumes.len() > 0 && (self.volume.is_none() || matches!(self.volume, Some(
            v,
        ) if v == VOLUME_SCALE)) {
            Some(self.channel_volumes[0])
        } else {
            self.volume
        }
    }
}

/// The `Volume: N%` readout of a reported master volume.
pub open spec fn spec_volume_part(v: u32) -> Seq<char> {
    "Volume: "@ + spec_decimal(spec_percent(v as nat)) + "%"@
}

/// The `Mute: ON` / `Mute: OFF` readout of a reported mute flag.
pub open spec fn spec_mute_part(m: bool) -> Seq<char> {
    "Mute: "@ + (if m {
        "ON"@
    } else {
        "OFF"@
    })
}

/// The `ChN: P%` readout of one channel volume (channels count from 1).
pub open spec fn spec_channel_part(i: int, v: u32) -> Seq<char> {
    "Ch"@ + spec_decimal((i + 1) as nat) + ": "@ + spec_decimal(spec_percent(v as nat)) + "%"@
}

pub open spec fn spec_channel_parts(cv: Seq<u32>) -> Seq<Seq<char>> {
    Seq::new(cv.len(), |i: int| spec_channel_part(i, cv[i]))
}

/// The `Channels: [...]` readout of the per-channel volumes.
pub open spec fn spec_channels_part(cv: Seq<u32>) -> Seq<char> {
    "Channels: ["@ + spec_join(spec_channel_parts(cv), ", "@) + "]"@
}

/// The readout parts a snapshot offers, in display order: master volume,
/// mute flag, channel volumes, each only where reported.
pub open spec fn spec_display_parts(v: VolumeInfo) -> Seq<Seq<char>> {
    let s0 = Seq::<Seq<char>>::empty();
    let s1 = if v.volume is Some {
        s0.push(spec_volume_part(v.volume.unwrap()))
    } else {
        s0
    };
    let s2 = if v.mute is Some {
        s1.push(spec_mute_part(v.mute.unwrap()))
    } else {
        s1
    };
    if v.channel_volumes@.len() > 0 {
        s2.push(spec_channels_part(v.channel_volumes@))
    } else {
        s2
    }
}

/// The full display line of a snapshot: its parts joined with ` | `, or a
/// placeholder when nothing was reported.
pub open spec fn spec_display(v: VolumeInfo) -> Seq<char> {
    if spec_display_parts(v).len() == 0 {
        "Property changed"@
    } else {
        spec_join(spec_display_parts(v), " | "@)
    }
}

/// Nearest whole percent, as `spec_percent` describes.
pub fn to_percent(v: u32) -> (r: u32)
    ensures
        r == spec_percent(v as nat),
{
    (((v as u64) + 5) / 10) as u32
}

/// Builds a snapshot from the fields found in a property-change payload,
/// each `None` where the payload did not carry the matching key.  Yields
/// `None` when no recognized key was present at all.  When channel volumes
/// are present and the master volume is absent or pinned at one unit of
/// gain, the master volume is replaced by channel 0.
pub fn volume_from_parts(volume: Option<u32>, mute: Option<bool>, channel_volumes: Option<
    Vec<u32>,
>) -> (r: Option<VolumeInfo>)
    ensures
        match r {
            None => volume is None && mute is None && channel_volumes is None,
            Some(vi) => {
                let cv = if channel_volumes is Some {
                    channel_volumes.unwrap()@
                } else {
                    Seq::<u32>::empty()
                };
                &&& (volume is Some || mute is Some || channel_volumes is Some)
                &&& vi.mute == mute
                &&& vi.channel_volumes@ == cv
                &&& vi.volume == (if cv.len() > 0 && (volume is None || volume == Some(
                    VOLUME_SCALE,
                )) {
                    Some(cv[0])
                } else {
                    volume
                })
            },
        },
{
    if volume.is_none() && mute.is_none() && channel_volumes.is_none() {
        return None;
    }
    let cv: Vec<u32> = match channel_volumes {
        Some(v) => v,
        None => Vec::new(),
    };
    let vol: Option<u32> = if cv.len() > 0 && (volume.is_none() || matches!(volume, Some(v) if v
        == VOLUME_SCALE)) {
        Some(cv[0])
    } else {
        volume
    };
    Some(VolumeInfo { volume: vol, mute, channel_volumes: cv })
}

} // verus!
