//! The volume state of a node: applying inbound "Props" objects, and the
//! writes that push local edits out.
//!
//! Volumes are linear gains in millionths: `1_000_000` is a gain of 1.0.

use vstd::prelude::*;
use crate::pod::{
    bool_of, first_object, float_of, floats_of, ParamKind, ParamWrite, Pod, PodObject, PodProperty,
    Schema,
};

verus! {

/// The gain of 1.0, the loudest volume a node holds.
pub const UNITY_GAIN: u32 = 1_000_000;

/// A volume cut down to 1.0.
pub open spec fn clamp_gain(v: u32) -> u32 {
    if v > UNITY_GAIN {
        UNITY_GAIN
    } else {
        v
    }
}

/// Every entry cut down to 1.0.
pub open spec fn clamped(s: Seq<u32>) -> Seq<u32> {
    s.map_values(|v: u32| clamp_gain(v))
}

/// Every entry is at most 1.0.
pub open spec fn all_in_range(s: Seq<u32>) -> bool {
    forall|i: int| 0 <= i < s.len() ==> #[trigger] s[i] <= UNITY_GAIN
}

/// Every volume of the state is at most 1.0.
pub open spec fn volumes_in_range(v: VolumesView) -> bool {
    &&& v.volume <= UNITY_GAIN
    &&& v.mainvolume <= UNITY_GAIN
    &&& v.monitorvolume <= UNITY_GAIN
    &&& all_in_range(v.channel_volumes)
}

/// A volume cut down to 1.0.
pub fn clamp_volume(v: u32) -> (r: u32)
    ensures
        r == clamp_gain(v),
{
    if v > UNITY_GAIN {
        UNITY_GAIN
    } else {
        v
    }
}

/// Every volume of `v` cut down to 1.0.
pub fn clamp_volumes(v: &Vec<u32>) -> (r: Vec<u32>)
    ensures
        r@ == clamped(v@),
        all_in_range(r@),
{
    let mut out: Vec<u32> = Vec::new();
    let mut i: usize = 0;
    while i < v.len()
        invariant
            i <= v@.len(),
            out@ =~= clamped(v@.subrange(0, i as int)),
        decreases v@.len() - i,
    {
        out.push(clamp_volume(v[i]));
        i = i + 1;
    }
    assert(v@.subrange(0, v@.len() as int) =~= v@);
    out
}

/// The largest of volumes that are all at most 1.0 is at most 1.0.
pub proof fn lemma_max_in_range(s: Seq<u32>)
    requires
        all_in_range(s),
    ensures
        seq_max(s) <= UNITY_GAIN,
{
    lemma_seq_max_bounds(s);
}

/// The volume state of a node.
pub struct Volumes {
    pub volume: u32,
    pub mainvolume: u32,
    pub monitorvolume: u32,
    pub mute: bool,
    pub channel_volumes: Vec<u32>,
}

/// The volume state of a node, as values.
pub struct VolumesView {
    pub volume: u32,
    pub mainvolume: u32,
    pub monitorvolume: u32,
    pub mute: bool,
    pub channel_volumes: Seq<u32>,
}

impl View for Volumes {
    type V = VolumesView;

    open spec fn view(&self) -> VolumesView {
        VolumesView {
            volume: self.volume,
            mainvolume: self.mainvolume,
            monitorvolume: self.monitorvolume,
            mute: self.mute,
            channel_volumes: self.channel_volumes@,
        }
    }
}

/// The largest of `s`, or 0 for an empty sequence.
pub open spec fn seq_max(s: Seq<u32>) -> u32
    decreases s.len(),
{
    if s.len() == 0 {
        0
    } else {
        let m = seq_max(s.drop_last());
        if s.last() > m {
            s.last()
        } else {
            m
        }
    }
}

pub proof fn lemma_seq_max_bounds(s: Seq<u32>)
    ensures
        forall|i: int| 0 <= i < s.len() ==> #[trigger] s[i] <= seq_max(s),
        s.len() > 0 ==> exists|i: int| 0 <= i < s.len() && s[i] == seq_max(s),
    decreases s.len(),
{
    if s.len() > 0 {
        let t = s.drop_last();
        lemma_seq_max_bounds(t);
        assert forall|i: int| 0 <= i < s.len() implies #[trigger] s[i] <= seq_max(s) by {
            if i < s.len() - 1 {
                assert(s[i] == t[i]);
            }
        }
        if s.last() > seq_max(t) || t.len() == 0 {
            assert(s[s.len() - 1] == seq_max(s));
        } else {
            let j = choose|j: int| 0 <= j < t.len() && t[j] == seq_max(t);
            assert(s[j] == seq_max(s));
        }
    }
}

/// `v` scaled by `volume / max`, rounded down; with no maximum to scale
/// by, every channel takes `volume`.
pub open spec fn scale_to(v: u32, volume: u32, max: u32) -> u32 {
    if max == 0 {
        volume
    } else {
        ((v * volume) / (max as int)) as u32
    }
}

/// The channel volumes rescaled so that the loudest becomes `volume`.
pub open spec fn scaled_volumes(cv: Seq<u32>, volume: u32) -> Seq<u32> {
    cv.map_values(|v: u32| scale_to(v, volume, seq_max(cv)))
}

/// The largest channel volume, or 0 when there is none.
pub fn max_volume(v: &Vec<u32>) -> (r: u32)
    ensures
        r == seq_max(v@),
{
    let mut m: u32 = 0;
    let mut i: usize = 0;
    while i < v.len()
        invariant
            i <= v@.len(),
            m == seq_max(v@.subrange(0, i as int)),
        decreases v@.len() - i,
    {
        assert(v@.subrange(0, i + 1).drop_last() =~= v@.subrange(0, i as int));
        if v[i] > m {
            m = v[i];
        }
        i = i + 1;
    }
    assert(v@.subrange(0, v@.len() as int) =~= v@);
    m
}

/// The channel volumes rescaled so that the loudest becomes `volume`.
pub fn scale_volumes(cv: &Vec<u32>, volume: u32) -> (r: Vec<u32>)
    ensures
        r@ == scaled_volumes(cv@, volume),
{
    let max = max_volume(cv);
    proof {
        lemma_seq_max_bounds(cv@);
    }
    let mut out: Vec<u32> = Vec::new();
    let mut i: usize = 0;
    while i < cv.len()
        invariant
            i <= cv@.len(),
            max == seq_max(cv@),
            forall|k: int| 0 <= k < cv@.len() ==> #[trigger] cv@[k] <= max,
            out@.len() == i,
            forall|k: int| 0 <= k < i ==> #[trigger] out@[k] == scale_to(cv@[k], volume, max),
        decreases cv@.len() - i,
    {
        let v = cv[i];
        let s: u32 = if max == 0 {
            volume
        } else {
            assert((v as int) * (volume as int) <= 0xffff_ffff * 0xffff_ffff) by (nonlinear_arith)
                requires
                    0 <= v <= 0xffff_ffff,
                    0 <= volume <= 0xffff_ffff,
            ;
            let p: u64 = v as u64 * volume as u64;
            assert((p as int) / (max as int) <= volume as int) by (nonlinear_arith)
                requires
                    p == v * volume,
                    v <= max,
                    max > 0,
            ;
            (p / max as u64) as u32
        };
        out.push(s);
        i = i + 1;
    }
    assert(out@ =~= scaled_volumes(cv@, volume));
    out
}

/// Copies a list of volumes.
pub fn copy_volumes(v: &Vec<u32>) -> (r: Vec<u32>)
    ensures
        r@ == v@,
{
    let mut out: Vec<u32> = Vec::new();
    let mut i: usize = 0;
    while i < v.len()
        invariant
            i <= v@.len(),
            out@ =~= v@.subrange(0, i as int),
        decreases v@.len() - i,
    {
        out.push(v[i]);
        i = i + 1;
    }
    assert(v@.subrange(0, v@.len() as int) =~= v@);
    out
}

/// The single field of a "Props" write, when it has exactly one.
pub open spec fn props_write_field(w: ParamWrite) -> Option<PodProperty> {
    match w.pod {
        Pod::Object(o) => if w.kind == ParamKind::Props && o.schema == Schema::Props
            && o.properties@.len() == 1 {
            Some(o.properties@[0])
        } else {
            None
        },
        _ => None,
    }
}

/// `p` is an array of the floats `values`.
pub open spec fn is_float_array(p: Pod, values: Seq<u32>) -> bool {
    p matches Pod::Array(items) && items@.len() == values.len() && forall|i: int|
        0 <= i < values.len() ==> #[trigger] items@[i] == Pod::Float(values[i])
}

pub open spec fn writes_float(w: ParamWrite, key: Seq<char>, v: u32) -> bool {
    props_write_field(w) matches Some(p) && p.key@ == key && p.value == Pod::Float(v)
}

pub open spec fn writes_bool(w: ParamWrite, key: Seq<char>, b: bool) -> bool {
    props_write_field(w) matches Some(p) && p.key@ == key && p.value == Pod::Bool(b)
}

pub open spec fn writes_floats(w: ParamWrite, key: Seq<char>, vs: Seq<u32>) -> bool {
    props_write_field(w) matches Some(p) && p.key@ == key && is_float_array(p.value, vs)
}

/// A "Props" write of the single field `key`.
pub fn props_write(key: &str, value: Pod) -> (r: ParamWrite)
    ensures
        props_write_field(r) matches Some(p) && p.key@ == key@ && p.value == value,
{
    let mut o = PodObject::new(Schema::Props);
    o.add(key, value);
    ParamWrite { kind: ParamKind::Props, pod: Pod::Object(o) }
}

/// The channel volumes of a "Props" object, each cut down to 1.0, when it
/// carries a non-empty list.
pub open spec fn props_channel_volumes(o: PodObject) -> Option<Seq<u32>> {
    match floats_of(o, "channelVolumes"@) {
        Some(c) => if c.len() > 0 {
            Some(clamped(c))
        } else {
            None
        },
        None => None,
    }
}

/// The volume state after applying the "Props" object `o`. Each field the
/// object carries replaces the local one, cut down to 1.0; the others stay.
/// - `channelVolumes` (non-empty) replaces the channel volumes; on a
///   device-backed node the volume becomes the loudest of them.
/// - `volume` is the main volume, and the volume of a node that is not
///   device-backed.
/// - `mute` is the mute flag.
/// - `monitorVolumes` gives the monitor volume, its loudest entry (0 when empty).
pub open spec fn props_update(v: VolumesView, o: PodObject, device_backed: bool) -> VolumesView {
    let cv = props_channel_volumes(o);
    VolumesView {
        volume: if device_backed {
            match cv {
                Some(c) => seq_max(c),
                None => v.volume,
            }
        } else {
            match float_of(o, "volume"@) {
                Some(x) => clamp_gain(x),
                None => v.volume,
            }
        },
        mainvolume: match float_of(o, "volume"@) {
            Some(x) => clamp_gain(x),
            None => v.mainvolume,
        },
        monitorvolume: match floats_of(o, "monitorVolumes"@) {
            Some(m) => clamp_gain(seq_max(m)),
            None => v.monitorvolume,
        },
        mute: match bool_of(o, "mute"@) {
            Some(b) => b,
            None => v.mute,
        },
        channel_volumes: match cv {
            Some(c) => c,
            None => v.channel_volumes,
        },
    }
}

/// The volume state after a "Props" point query answered `pods`: its first
/// object, when it is a "Props" object, is applied.
pub open spec fn props_state(v: VolumesView, pods: Seq<Pod>, device_backed: bool) -> VolumesView {
    match first_object(pods) {
        Some(o) => if o.schema == Schema::Props {
            props_update(v, o, device_backed)
        } else {
            v
        },
        None => v,
    }
}

/// Applying the same inbound "Props" answer twice leaves the volume state
/// as applying it once does.
pub proof fn lemma_props_idempotent(v: VolumesView, pods: Seq<Pod>, device_backed: bool)
    ensures
        props_state(props_state(v, pods, device_backed), pods, device_backed) == props_state(
            v,
            pods,
            device_backed,
        ),
{
}

/// Which volume field a local edit touched.
#[derive(Clone, Copy, Debug, PartialEq, Eq, Structural)]
pub enum PropertyChanged {
    Volume,
    Mute,
    ChannelVolumes,
}

/// The write that pushes the edit `what` of the volume state `v` out.
/// A device-backed node has no usable scalar volume: a new volume goes out
/// as the channel volumes rescaled so that the loudest takes it.
pub open spec fn is_volume_write(w: ParamWrite, what: PropertyChanged, v: VolumesView, device_backed: bool) -> bool {
    match what {
        PropertyChanged::Volume => if device_backed {
            writes_floats(w, "channelVolumes"@, scaled_volumes(v.channel_volumes, v.volume))
        } else {
            writes_float(w, "volume"@, v.volume)
        },
        PropertyChanged::Mute => writes_bool(w, "mute"@, v.mute),
        PropertyChanged::ChannelVolumes => writes_floats(w, "channelVolumes"@, v.channel_volumes),
    }
}

/// The write of the main volume.
pub open spec fn is_mainvolume_write(w: ParamWrite, v: VolumesView) -> bool {
    writes_float(w, "volume"@, v.mainvolume)
}

/// The write of the monitor volume: one entry per channel.
pub open spec fn is_monitorvolume_write(w: ParamWrite, v: VolumesView) -> bool {
    writes_floats(
        w,
        "monitorVolumes"@,
        Seq::new(v.channel_volumes.len(), |i: int| v.monitorvolume),
    )
}

/// `new` is `old` with one write more when the guard was down, and `old`
/// itself when it was up.
pub open spec fn sent_one_unless(old: Seq<ParamWrite>, new: Seq<ParamWrite>, armed: bool) -> bool {
    if armed {
        new == old
    } else {
        new.len() == old.len() + 1 && new.drop_last() == old
    }
}

} // verus!
