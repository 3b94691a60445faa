//! A node: its volume, mute, per-channel volumes and audio format, kept in
//! step with the graph, and the writes that push local edits back out.

use vstd::prelude::*;
use crate::device::{is_profile_request, is_route_request, PwDeviceObject, PwRouteObject};
use crate::format::{channel_slots, format_label, resized, AudioFormat};
use crate::guard::EchoGuard;
use crate::pod::{float_array, int_of, query_first_object, ParamKind, ParamWrite, Pod, PodObject, Schema};
use crate::target::{is_target_pair, metadata_write, target_lookups, MetadataWrite, TargetLookup};
use crate::text::{decimal, decimal_string, str_eq};
use crate::volume::{
    all_in_range, clamp_volume, clamp_volumes, clamp_gain, clamped, lemma_max_in_range,
    volumes_in_range, UNITY_GAIN,
    copy_volumes, is_mainvolume_write, is_monitorvolume_write, is_volume_write, max_volume,
    props_channel_volumes, props_state, props_update, props_write, scale_volumes, sent_one_unless,
    PropertyChanged, Volumes, VolumesView,
};

verus! {

/// What a node is, taken once from its media class.
#[derive(Clone, Copy, Debug, PartialEq, Eq, Structural)]
pub enum NodeType {
    Undefined,
    StreamInput,
    StreamOutput,
    Sink,
    Source,
}

pub open spec fn opt_str_view(s: Option<&str>) -> Option<Seq<char>> {
    match s {
        Some(c) => Some(c@),
        None => None,
    }
}

pub open spec fn node_type_of(media_class: Option<Seq<char>>) -> NodeType {
    match media_class {
        Some(c) => if c == "Stream/Output/Audio"@ {
            NodeType::StreamOutput
        } else if c == "Stream/Input/Audio"@ {
            NodeType::StreamInput
        } else if c == "Audio/Source"@ || c == "Audio/Source/Virtual"@ {
            NodeType::Source
        } else if c == "Audio/Sink"@ {
            NodeType::Sink
        } else {
            NodeType::Undefined
        },
        None => NodeType::Undefined,
    }
}

/// The node type for a media class.
pub fn get_node_type_for_node(media_class: Option<&str>) -> (r: NodeType)
    ensures
        r == node_type_of(opt_str_view(media_class)),
{
    match media_class {
        Some(c) => if str_eq(c, "Stream/Output/Audio") {
            NodeType::StreamOutput
        } else if str_eq(c, "Stream/Input/Audio") {
            NodeType::StreamInput
        } else if str_eq(c, "Audio/Source") || str_eq(c, "Audio/Source/Virtual") {
            NodeType::Source
        } else if str_eq(c, "Audio/Sink") {
            NodeType::Sink
        } else {
            NodeType::Undefined
        },
        None => NodeType::Undefined,
    }
}

/// Whether a media class marks a virtual source.
pub fn is_virtual_class(media_class: Option<&str>) -> (r: bool)
    ensures
        r == (opt_str_view(media_class) == Some("Audio/Source/Virtual"@)),
{
    match media_class {
        Some(c) => str_eq(c, "Audio/Source/Virtual"),
        None => false,
    }
}

/// The identity of a node, fixed when it is bound.
#[derive(Clone, Copy, Debug, PartialEq, Eq, Structural)]
pub struct NodeInfo {
    pub boundid: u32,
    pub serial: u32,
    pub nodetype: NodeType,
    pub is_virtual: bool,
    /// The bound id of the device behind the node, for a device-backed node.
    pub device_id: Option<u32>,
    /// The device-relative sub-index of the node's route, when it has one.
    pub card_profile_device: Option<i32>,
}

impl NodeInfo {
    /// The identity of a node from its bound id, serial, media class and
    /// device properties; its type and virtuality follow from the media class.
    pub fn from_properties(
        boundid: u32,
        serial: u32,
        media_class: Option<&str>,
        device_id: Option<u32>,
        card_profile_device: Option<i32>,
    ) -> (r: NodeInfo)
        ensures
            r.boundid == boundid,
            r.serial == serial,
            r.nodetype == node_type_of(opt_str_view(media_class)),
            r.is_virtual == (opt_str_view(media_class) == Some("Audio/Source/Virtual"@)),
            r.device_id == device_id,
            r.card_profile_device == card_profile_device,
    {
        NodeInfo {
            boundid,
            serial,
            nodetype: get_node_type_for_node(media_class),
            is_virtual: is_virtual_class(media_class),
            device_id,
            card_profile_device,
        }
    }
}

/// One channel of a node: its place in the channel volumes and its volume.
#[derive(Clone, Copy, Debug, PartialEq, Eq, Structural)]
pub struct PwChannelObject {
    pub index: usize,
    pub volume: u32,
}

/// A notification about a node.
#[derive(Clone, Copy, Debug, PartialEq, Eq, Structural)]
pub enum NodeEvent {
    /// The audio format changed.
    Format,
    /// The device the node belongs to was resolved anew.
    Device,
}

/// The volume state of a node as a volume-mixer service reports it.
pub struct MixerVolume {
    pub channel_volumes: Vec<u32>,
    pub volume: u32,
    pub mute: bool,
}

/// What a parameter-change notification of a node calls for.
#[derive(Clone, Copy, Debug, PartialEq, Eq, Structural)]
pub enum NodeRefresh {
    /// Query the current "Props" and apply them.
    Props,
    /// Enumerate the formats and take the first.
    Format,
}

pub open spec fn node_refresh_for(what: ParamKind) -> Option<NodeRefresh> {
    match what {
        ParamKind::Props => Some(NodeRefresh::Props),
        ParamKind::Format => Some(NodeRefresh::Format),
        _ => None,
    }
}

pub open spec fn opt_string_view(s: Option<String>) -> Option<Seq<char>> {
    match s {
        Some(c) => Some(c@),
        None => None,
    }
}

/// The first of three optional strings that is present, else the empty string.
pub open spec fn first_present(a: Option<Seq<char>>, b: Option<Seq<char>>, c: Option<Seq<char>>) -> Seq<char> {
    match a {
        Some(x) => x,
        None => match b {
            Some(x) => x,
            None => match c {
                Some(x) => x,
                None => Seq::empty(),
            },
        },
    }
}

/// A node's display name: devices prefer their description, streams their nick.
pub open spec fn node_name_of(
    nodetype: NodeType,
    description: Option<Seq<char>>,
    nick: Option<Seq<char>>,
    name: Option<Seq<char>>,
) -> Seq<char> {
    match nodetype {
        NodeType::Sink | NodeType::Source => first_present(description, nick, name),
        _ => first_present(nick, description, name),
    }
}

/// A node's icon: a stream takes the last icon name its media, window and
/// application give, in that order, else a generic music icon; a sink or a
/// source a sound-card icon.
pub open spec fn node_icon_of(
    nodetype: NodeType,
    media_icon: Option<Seq<char>>,
    window_icon: Option<Seq<char>>,
    application_icon: Option<Seq<char>>,
) -> Seq<char> {
    match nodetype {
        NodeType::StreamInput | NodeType::StreamOutput => match application_icon {
            Some(x) => x,
            None => match window_icon {
                Some(x) => x,
                None => match media_icon {
                    Some(x) => x,
                    None => "library-music-symbolic"@,
                },
            },
        },
        NodeType::Sink | NodeType::Source => "soundcard-symbolic"@,
        NodeType::Undefined => "library-music-symbolic"@,
    }
}

/// The first route of a "Route" enumeration at or after `i` that applies to
/// the device sub-index `device`: its index.
pub open spec fn route_index_for_device_from(pods: Seq<Pod>, device: i32, i: int) -> Option<i32>
    decreases pods.len() - i,
{
    if 0 <= i < pods.len() {
        match pods[i] {
            Pod::Object(o) => match (int_of(o, "device"@), int_of(o, "index"@)) {
                (Some(d), Some(x)) => if d == device {
                    Some(x)
                } else {
                    route_index_for_device_from(pods, device, i + 1)
                },
                _ => route_index_for_device_from(pods, device, i + 1),
            },
            _ => route_index_for_device_from(pods, device, i + 1),
        }
    } else {
        None
    }
}

/// The index of the first route of a "Route" enumeration for the device sub-index `device`.
pub fn find_route_index(pods: &Vec<Pod>, device: i32) -> (r: Option<i32>)
    ensures
        r == route_index_for_device_from(pods@, device, 0),
{
    let mut i: usize = 0;
    while i < pods.len()
        invariant
            i <= pods@.len(),
            route_index_for_device_from(pods@, device, i as int) == route_index_for_device_from(
                pods@,
                device,
                0,
            ),
        decreases pods@.len() - i,
    {
        if let Pod::Object(o) = &pods[i] {
            if let (Some(d), Some(x)) = (o.int_field("device"), o.int_field("index")) {
                if d == device {
                    return Some(x);
                }
            }
        }
        i = i + 1;
    }
    None
}

/// A "Route" write that carries the parameters `props` to route `index` of
/// the device sub-index `device`.
pub open spec fn is_route_props_write(w: ParamWrite, index: i32, device: i32, props: Pod) -> bool {
    &&& w.kind == ParamKind::Route
    &&& w.pod matches Pod::Object(o) && {
        &&& o.schema == Schema::Route
        &&& o.properties@.len() == 3
        &&& o.properties@[0].key@ == "index"@
        &&& o.properties@[0].value == Pod::Int(index)
        &&& o.properties@[1].key@ == "device"@
        &&& o.properties@[1].value == Pod::Int(device)
        &&& o.properties@[2].key@ == "props"@
        &&& o.properties@[2].value == props
    }
}

/// Where a parameter write is to be set.
#[derive(Clone, Copy, Debug, PartialEq, Eq, Structural)]
pub enum WriteTarget {
    /// On the node itself.
    Node,
    /// On the device with this bound id.
    Device(u32),
}

/// A parameter write with its destination.
pub struct Outbound {
    pub target: WriteTarget,
    pub write: ParamWrite,
}

/// An object the registry reported for a node's interests.
pub enum RegistryObject {
    /// A link out of the node, to the node whose bound id it names, if it names one.
    Link { input_node: Option<u32> },
    /// The device behind the node.
    Device { bound_id: u32 },
}

/// Whether `x` is among `v`.
pub fn contains_index(v: &Vec<i32>, x: i32) -> (r: bool)
    ensures
        r == v@.contains(x),
{
    let mut i: usize = 0;
    while i < v.len()
        invariant
            i <= v@.len(),
            forall|k: int| 0 <= k < i ==> v@[k] != x,
        decreases v@.len() - i,
    {
        if v[i] == x {
            assert(v@[i as int] == x);
            return true;
        }
        i = i + 1;
    }
    false
}

/// Channel objects that mirror the channel volumes one for one.
pub open spec fn channels_match(cv: Seq<u32>, channels: Seq<PwChannelObject>) -> bool {
    &&& channels.len() == cv.len()
    &&& forall|i: int|
        0 <= i < cv.len() ==> #[trigger] channels[i] == (PwChannelObject {
            index: i as usize,
            volume: cv[i],
        })
}

/// A node of the graph and the local state kept for it.
pub struct PwNodeObject {
    pub info: NodeInfo,
    pub name: String,
    pub description: String,
    pub iconname: String,
    /// The audio format for display, as "<channels>ch <rate>Hz <format>".
    pub formatstr: String,
    pub hidden: bool,
    pub channellock: bool,
    pub volumes: Volumes,
    /// One object per channel volume, rebuilt when the format changes.
    pub channels: Vec<PwChannelObject>,
    pub format: Option<AudioFormat>,
    /// The bound id of the device the node belongs to, once resolved.
    pub device: Option<u32>,
    /// Up while an inbound update is applied: setters then send nothing.
    pub block: EchoGuard,
    /// Notifications not yet handed out.
    pub events: Vec<NodeEvent>,
    /// Parameter writes not yet handed out.
    pub outbox: Vec<ParamWrite>,
}

impl PwNodeObject {
    /// The channel objects mirror the channel volumes, and every volume is at most 1.0.
    pub open spec fn wf(&self) -> bool {
        &&& channels_match(self.volumes.channel_volumes@, self.channels@)
        &&& volumes_in_range(self.volumes@)
    }

    /// Whether an inbound update is being applied.
    pub open spec fn applying_inbound(&self) -> bool {
        self.block.is_armed()
    }

    pub open spec fn is_device_backed(&self) -> bool {
        self.info.device_id is Some
    }

    /// Everything but the volumes, the channel objects, the outbox and the guard agrees.
    pub open spec fn same_besides_volumes(&self, other: &PwNodeObject) -> bool {
        &&& self.info == other.info
        &&& self.name == other.name
        &&& self.description == other.description
        &&& self.iconname == other.iconname
        &&& self.formatstr == other.formatstr
        &&& self.hidden == other.hidden
        &&& self.channellock == other.channellock
        &&& self.format == other.format
        &&& self.device == other.device
        &&& self.events == other.events
    }

    /// A node with the given identity and no state from the graph yet.
    pub fn new(info: NodeInfo) -> (r: PwNodeObject)
        ensures
            r.wf(),
            !r.applying_inbound(),
            r.info == info,
            r.volumes@.channel_volumes.len() == 0,
            r.volumes@.volume == 0,
            r.volumes@.mainvolume == 0,
            r.volumes@.monitorvolume == 0,
            !r.volumes@.mute,
            r.format is None,
            r.device is None,
            r.events@.len() == 0,
            r.outbox@.len() == 0,
    {
        PwNodeObject {
            info,
            name: String::new(),
            description: String::new(),
            iconname: String::new(),
            formatstr: String::new(),
            hidden: false,
            channellock: false,
            volumes: Volumes {
                volume: 0,
                mainvolume: 0,
                monitorvolume: 0,
                mute: false,
                channel_volumes: Vec::new(),
            },
            channels: Vec::new(),
            format: None,
            device: None,
            block: EchoGuard::new(),
            events: Vec::new(),
            outbox: Vec::new(),
        }
    }

    /// Whether an inbound update is being applied.
    pub fn is_applying_inbound(&self) -> (r: bool)
        ensures
            r == self.applying_inbound(),
    {
        self.block.armed()
    }

    pub fn volume(&self) -> (r: u32)
        ensures
            r == self.volumes.volume,
    {
        self.volumes.volume
    }

    pub fn mute(&self) -> (r: bool)
        ensures
            r == self.volumes.mute,
    {
        self.volumes.mute
    }

    pub fn mainvolume(&self) -> (r: u32)
        ensures
            r == self.volumes.mainvolume,
    {
        self.volumes.mainvolume
    }

    pub fn monitorvolume(&self) -> (r: u32)
        ensures
            r == self.volumes.monitorvolume,
    {
        self.volumes.monitorvolume
    }

    /// A copy of the channel volumes.
    pub fn channel_volumes_vec(&self) -> (r: Vec<u32>)
        ensures
            r@ == self.volumes.channel_volumes@,
    {
        copy_volumes(&self.volumes.channel_volumes)
    }

    /// The channel volumes; the same as `channel_volumes_vec`.
    pub fn channel_volumes(&self) -> (r: Vec<u32>)
        ensures
            r@ == self.volumes.channel_volumes@,
    {
        self.channel_volumes_vec()
    }

    /// The channel objects, one per channel volume.
    pub fn channelmodel(&self) -> (r: &Vec<PwChannelObject>)
        ensures
            r@ == self.channels@,
    {
        &self.channels
    }

    /// The write that pushes the edit `what` out.
    fn volume_write(&self, what: PropertyChanged) -> (r: ParamWrite)
        ensures
            is_volume_write(r, what, self.volumes@, self.is_device_backed()),
    {
        match what {
            PropertyChanged::Volume => if self.info.device_id.is_some() {
                let scaled = scale_volumes(&self.volumes.channel_volumes, self.volumes.volume);
                props_write("channelVolumes", float_array(&scaled))
            } else {
                props_write("volume", Pod::Float(self.volumes.volume))
            },
            PropertyChanged::Mute => props_write("mute", Pod::Bool(self.volumes.mute)),
            PropertyChanged::ChannelVolumes => props_write(
                "channelVolumes",
                float_array(&self.volumes.channel_volumes),
            ),
        }
    }

    /// Queues the write for the edit `what`.
    fn send_volume(&mut self, what: PropertyChanged)
        ensures
            final(self).outbox@.len() == old(self).outbox@.len() + 1,
            final(self).outbox@.drop_last() == old(self).outbox@,
            is_volume_write(final(self).outbox@.last(), what, old(self).volumes@, old(self).is_device_backed()),
            final(self).same_besides_volumes(old(self)),
            final(self).volumes == old(self).volumes,
            final(self).channels == old(self).channels,
            final(self).block == old(self).block,
    {
        let w = self.volume_write(what);
        self.outbox.push(w);
        assert(self.outbox@.drop_last() =~= old(self).outbox@);
    }

    /// Queues the write of the main volume.
    fn send_mainvolume(&mut self)
        ensures
            final(self).outbox@.len() == old(self).outbox@.len() + 1,
            final(self).outbox@.drop_last() == old(self).outbox@,
            is_mainvolume_write(final(self).outbox@.last(), old(self).volumes@),
            final(self).same_besides_volumes(old(self)),
            final(self).volumes == old(self).volumes,
            final(self).channels == old(self).channels,
            final(self).block == old(self).block,
    {
        let w = props_write("volume", Pod::Float(self.volumes.mainvolume));
        self.outbox.push(w);
        assert(self.outbox@.drop_last() =~= old(self).outbox@);
    }

    /// Queues the write of the monitor volume, repeated for every channel.
    fn send_monitorvolume(&mut self)
        ensures
            final(self).outbox@.len() == old(self).outbox@.len() + 1,
            final(self).outbox@.drop_last() == old(self).outbox@,
            is_monitorvolume_write(final(self).outbox@.last(), old(self).volumes@),
            final(self).same_besides_volumes(old(self)),
            final(self).volumes == old(self).volumes,
            final(self).channels == old(self).channels,
            final(self).block == old(self).block,
    {
        let n = self.volumes.channel_volumes.len();
        let mut values: Vec<u32> = Vec::new();
        let mut i: usize = 0;
        while i < n
            invariant
                i <= n,
                values@ =~= Seq::new(i as nat, |k: int| self.volumes.monitorvolume),
            decreases n - i,
        {
            values.push(self.volumes.monitorvolume);
            i = i + 1;
        }
        let w = props_write("monitorVolumes", float_array(&values));
        self.outbox.push(w);
        assert(self.outbox@.drop_last() =~= old(self).outbox@);
    }

    /// Rebuilds the channel objects from the channel volumes.
    fn update_channelmodel(&mut self)
        requires
            volumes_in_range(old(self).volumes@),
        ensures
            final(self).wf(),
            final(self).same_besides_volumes(old(self)),
            final(self).volumes == old(self).volumes,
            final(self).outbox@ == old(self).outbox@,
            final(self).block == old(self).block,
    {
        let mut channels: Vec<PwChannelObject> = Vec::new();
        let n = self.volumes.channel_volumes.len();
        let mut i: usize = 0;
        while i < n
            invariant
                n == self.volumes.channel_volumes@.len(),
                i <= n,
                channels@.len() == i,
                forall|k: int|
                    0 <= k < i ==> #[trigger] channels@[k] == (PwChannelObject {
                        index: k as usize,
                        volume: self.volumes.channel_volumes@[k],
                    }),
            decreases n - i,
        {
            channels.push(PwChannelObject { index: i, volume: self.volumes.channel_volumes[i] });
            i = i + 1;
        }
        self.channels = channels;
    }

    /// What a parameter-change notification of the node calls for.
    pub fn refresh_for(what: ParamKind) -> (r: Option<NodeRefresh>)
        ensures
            r == node_refresh_for(what),
    {
        match what {
            ParamKind::Props => Some(NodeRefresh::Props),
            ParamKind::Format => Some(NodeRefresh::Format),
            _ => None,
        }
    }

    /// Applies the answer of a "Props" point query through the setters.
    /// Called with the guard up, it sends nothing.
    pub fn update_props(&mut self, pods: &Vec<Pod>)
        requires
            old(self).wf(),
            old(self).applying_inbound(),
        ensures
            final(self).wf(),
            final(self).applying_inbound(),
            final(self).volumes@ == props_state(old(self).volumes@, pods@, old(self).is_device_backed()),
            final(self).same_besides_volumes(old(self)),
            final(self).outbox@ == old(self).outbox@,
    {
        let ghost start = self.volumes@;
        if let Some(o) = query_first_object(pods) {
            if o.schema == Schema::Props {
                let device_backed = self.info.device_id.is_some();
                let mut cv: Option<Vec<u32>> = None;
                if let Some(c) = o.float_array_field("channelVolumes") {
                    if c.len() > 0 {
                        cv = Some(clamp_volumes(&c));
                    }
                }
                assert(cv matches Some(c) ==> props_channel_volumes(*o) == Some(c@));
                assert(cv is None ==> props_channel_volumes(*o) is None);
                if let Some(c) = &cv {
                    self.set_channel_volumes_vec(c);
                    if device_backed {
                        let m = max_volume(c);
                        proof {
                            lemma_max_in_range(c@);
                        }
                        self.set_volume(m);
                    }
                }
                if let Some(x) = o.float_field("volume") {
                    let x = clamp_volume(x);
                    self.set_mainvolume(x);
                    if !device_backed {
                        self.set_volume(x);
                    }
                }
                if let Some(b) = o.bool_field("mute") {
                    self.set_mute(b);
                }
                if let Some(m) = o.float_array_field("monitorVolumes") {
                    let mv = clamp_volume(max_volume(&m));
                    self.set_monitorvolume(mv);
                }
                assert(self.volumes@ == props_update(start, *o, device_backed));
            }
        }
    }

    /// Applies an inbound "Props" answer with the echo guard up, and lowers
    /// the guard afterwards: the update writes nothing back out.
    pub fn apply_props(&mut self, pods: &Vec<Pod>)
        requires
            old(self).wf(),
        ensures
            final(self).wf(),
            !final(self).applying_inbound(),
            final(self).volumes@ == props_state(old(self).volumes@, pods@, old(self).is_device_backed()),
            final(self).same_besides_volumes(old(self)),
            final(self).outbox@ == old(self).outbox@,
    {
        self.block.arm();
        self.update_props(pods);
        self.block.release();
    }

    /// Takes the display name from the node's global properties.
    pub fn label_set_name(&mut self, description: Option<String>, nick: Option<String>, name: Option<String>)
        ensures
            final(self).name@ == node_name_of(
                old(self).info.nodetype,
                opt_string_view(description),
                opt_string_view(nick),
                opt_string_view(name),
            ),
            final(self).description == old(self).description,
            final(self).iconname == old(self).iconname,
            final(self).info == old(self).info,
            final(self).formatstr == old(self).formatstr,
            final(self).volumes == old(self).volumes,
            final(self).channels == old(self).channels,
            final(self).format == old(self).format,
            final(self).device == old(self).device,
            final(self).events == old(self).events,
            final(self).outbox == old(self).outbox,
            final(self).block == old(self).block,
    {
        let (first, second) = match self.info.nodetype {
            NodeType::Sink | NodeType::Source => (description, nick),
            _ => (nick, description),
        };
        self.name = match first {
            Some(x) => x,
            None => match second {
                Some(x) => x,
                None => match name {
                    Some(x) => x,
                    None => String::new(),
                },
            },
        };
    }

    /// Takes the description from the node's media name, or empties it.
    pub fn label_set_description(&mut self, media_name: Option<String>)
        ensures
            final(self).description@ == first_present(opt_string_view(media_name), None, None),
            final(self).name == old(self).name,
            final(self).iconname == old(self).iconname,
            final(self).info == old(self).info,
            final(self).formatstr == old(self).formatstr,
            final(self).volumes == old(self).volumes,
            final(self).channels == old(self).channels,
            final(self).format == old(self).format,
            final(self).device == old(self).device,
            final(self).events == old(self).events,
            final(self).outbox == old(self).outbox,
            final(self).block == old(self).block,
    {
        self.description = match media_name {
            Some(x) => x,
            None => String::new(),
        };
    }

    /// Picks the icon from the node's type and the icon names it was given.
    pub fn update_icon_name(
        &mut self,
        media_icon: Option<String>,
        window_icon: Option<String>,
        application_icon: Option<String>,
    )
        ensures
            final(self).iconname@ == node_icon_of(
                old(self).info.nodetype,
                opt_string_view(media_icon),
                opt_string_view(window_icon),
                opt_string_view(application_icon),
            ),
            final(self).name == old(self).name,
            final(self).description == old(self).description,
            final(self).info == old(self).info,
            final(self).formatstr == old(self).formatstr,
            final(self).volumes == old(self).volumes,
            final(self).channels == old(self).channels,
            final(self).format == old(self).format,
            final(self).device == old(self).device,
            final(self).events == old(self).events,
            final(self).outbox == old(self).outbox,
            final(self).block == old(self).block,
    {
        self.iconname = match self.info.nodetype {
            NodeType::StreamInput | NodeType::StreamOutput => match application_icon {
                Some(x) => x,
                None => match window_icon {
                    Some(x) => x,
                    None => match media_icon {
                        Some(x) => x,
                        None => "library-music-symbolic".to_owned(),
                    },
                },
            },
            NodeType::Sink | NodeType::Source => "soundcard-symbolic".to_owned(),
            NodeType::Undefined => "library-music-symbolic".to_owned(),
        };
    }

    /// The object serial of the node.
    pub fn serial(&self) -> (r: u32)
        ensures
            r == self.info.serial,
    {
        self.info.serial
    }

    pub fn boundid(&self) -> (r: u32)
        ensures
            r == self.info.boundid,
    {
        self.info.boundid
    }

    pub fn nodetype(&self) -> (r: NodeType)
        ensures
            r == self.info.nodetype,
    {
        self.info.nodetype
    }

    pub fn format(&self) -> (r: Option<AudioFormat>)
        ensures
            r == self.format,
    {
        self.format
    }

    /// The writes that make `target_node` the default target of this node:
    /// its bound id under "target.node" and its serial under "target.object".
    pub fn set_default_target(&self, target_node: &PwNodeObject) -> (r: Vec<MetadataWrite>)
        ensures
            is_target_pair(
                r@,
                self.info.boundid,
                decimal(target_node.info.boundid as int),
                decimal(target_node.info.serial as int),
            ),
    {
        let mut ws: Vec<MetadataWrite> = Vec::new();
        ws.push(metadata_write(self.info.boundid, "target.node", decimal_string(target_node.info.boundid as i64)));
        ws.push(metadata_write(self.info.boundid, "target.object", decimal_string(target_node.info.serial as i64)));
        ws
    }

    /// The writes that clear this node's default target: "-1" under both keys.
    pub fn unset_default_target(&self) -> (r: Vec<MetadataWrite>)
        ensures
            is_target_pair(r@, self.info.boundid, "-1"@, "-1"@),
    {
        let mut ws: Vec<MetadataWrite> = Vec::new();
        ws.push(metadata_write(self.info.boundid, "target.node", "-1".to_owned()));
        ws.push(metadata_write(self.info.boundid, "target.object", "-1".to_owned()));
        ws
    }

    /// Where to look for this node's default target, in priority order,
    /// given what the metadata store holds under "target.object" and
    /// "target.node". The first lookup that finds a node gives the target.
    pub fn default_target(target_object: Option<String>, target_node: Option<String>) -> (r: Vec<
        TargetLookup,
    >)
        ensures
            r@.map_values(|l: TargetLookup| l@) == target_lookups(
                opt_string_view(target_object),
                opt_string_view(target_node),
            ),
    {
        let ghost obj_view = opt_string_view(target_object);
        let ghost node_view = opt_string_view(target_node);
        let mut r: Vec<TargetLookup> = Vec::new();
        if let Some(v) = target_object {
            if !str_eq(v.as_str(), "-1") {
                r.push(TargetLookup::BySerial(v));
            }
        }
        if let Some(v) = target_node {
            if !str_eq(v.as_str(), "-1") {
                r.push(TargetLookup::ByBoundId(v));
            }
        }
        assert(r@.map_values(|l: TargetLookup| l@) =~= target_lookups(obj_view, node_view));
        r
    }

    /// Selects `routeobj` on `device` for this node. When the route lists
    /// profiles and the device has no active profile among them, the
    /// device is first switched to the route's first profile. A node with no
    /// device sub-index asks for nothing.
    pub fn set_route(&self, routeobj: &PwRouteObject, device: &mut PwDeviceObject)
        ensures
            final(device).name == old(device).name,
            final(device).icon_name == old(device).icon_name,
            final(device).boundid == old(device).boundid,
            final(device).profile_index == old(device).profile_index,
            final(device).route_index_input == old(device).route_index_input,
            final(device).route_index_output == old(device).route_index_output,
            final(device).profiles == old(device).profiles,
            final(device).routes == old(device).routes,
            final(device).events == old(device).events,
            self.info.card_profile_device is None ==> final(device).outbox@ == old(device).outbox@,
            self.info.card_profile_device matches Some(cpd) ==> {
                let profiles = routeobj.profiles@;
                let switch = profiles.len() > 0 && !(old(device).profile_index matches Some(p)
                    && profiles.contains(p));
                &&& final(device).outbox@.len() == old(device).outbox@.len() + if switch {
                    2int
                } else {
                    1int
                }
                &&& final(device).outbox@.subrange(0, old(device).outbox@.len() as int)
                    == old(device).outbox@
                &&& switch ==> is_profile_request(
                    final(device).outbox@[old(device).outbox@.len() as int],
                    profiles[0],
                )
                &&& is_route_request(final(device).outbox@.last(), routeobj.index, cpd)
            },
    {
        if let Some(cpd) = self.info.card_profile_device {
            let ghost start = device.outbox@;
            let profiles = routeobj.get_profiles();
            let listed = match device.profile_index {
                Some(p) => contains_index(profiles, p),
                None => false,
            };
            if profiles.len() > 0 && !listed {
                device.set_profile(profiles[0]);
            }
            device.set_route(routeobj.index, cpd);
            assert(device.outbox@.subrange(0, start.len() as int) =~= start);
        }
    }

    /// For a device-backed node, the "Route" write that carries the props
    /// write `w` to the route of the node's device sub-index, found in the
    /// device's "Route" enumeration `routes`. `None` when the node has no
    /// sub-index or no route applies to it.
    pub fn route_write_for(&self, routes: &Vec<Pod>, w: ParamWrite) -> (r: Option<ParamWrite>)
        ensures
            r matches Some(rw) ==> self.info.card_profile_device matches Some(dev)
                && route_index_for_device_from(routes@, dev, 0) matches Some(idx)
                && is_route_props_write(rw, idx, dev, w.pod),
            r is None ==> (self.info.card_profile_device is None || route_index_for_device_from(
                routes@,
                self.info.card_profile_device->0,
                0,
            ) is None),
    {
        match self.info.card_profile_device {
            Some(dev) => match find_route_index(routes, dev) {
                Some(idx) => {
                    let mut o = PodObject::new(Schema::Route);
                    o.add("index", Pod::Int(idx));
                    o.add("device", Pod::Int(dev));
                    o.add("props", w.pod);
                    Some(ParamWrite { kind: ParamKind::Route, pod: Pod::Object(o) })
                },
                None => None,
            },
            None => None,
        }
    }

    /// Decides where a queued write `w` of this node goes. A node with no
    /// device sets it on itself. A device-backed node cannot: the write goes
    /// to its device, wrapped in a "Route" write for the route of the node's
    /// device sub-index. `device_routes` is the device's "Route"
    /// enumeration, `None` when no device with the node's device id was
    /// found. When the device, the sub-index or the route is missing, the
    /// write goes nowhere.
    pub fn dispatch_write(&self, w: ParamWrite, device_routes: Option<&Vec<Pod>>) -> (r: Option<Outbound>)
        ensures
            self.info.device_id is None ==> (r matches Some(o) && o.target == WriteTarget::Node
                && o.write == w),
            self.info.device_id matches Some(id) ==> match (device_routes, self.info.card_profile_device) {
                (Some(routes), Some(dev)) => match route_index_for_device_from(routes@, dev, 0) {
                    Some(idx) => (r matches Some(o) && o.target == WriteTarget::Device(id)
                        && is_route_props_write(o.write, idx, dev, w.pod)),
                    None => r is None,
                },
                _ => r is None,
            },
    {
        match self.info.device_id {
            None => Some(Outbound { target: WriteTarget::Node, write: w }),
            Some(id) => match device_routes {
                Some(routes) => match self.route_write_for(routes, w) {
                    Some(rw) => Some(Outbound { target: WriteTarget::Device(id), write: rw }),
                    None => None,
                },
                None => None,
            },
        }
    }

    /// Takes in an object that the registry reported for this node: a
    /// device sets the node's device (to none when `device_known` is false,
    /// that is, when no device model has that bound id) and is announced;
    /// a link changes nothing.
    pub fn object_added(&mut self, obj: &RegistryObject, device_known: bool)
        ensures
            obj matches RegistryObject::Device { bound_id } ==> {
                &&& final(self).device == if device_known {
                    Some(*bound_id)
                } else {
                    None
                }
                &&& final(self).events@ == old(self).events@.push(NodeEvent::Device)
            },
            obj is Link ==> final(self).device == old(self).device && final(self).events
                == old(self).events,
            final(self).info == old(self).info,
            final(self).name == old(self).name,
            final(self).volumes == old(self).volumes,
            final(self).channels == old(self).channels,
            final(self).format == old(self).format,
            final(self).outbox == old(self).outbox,
            final(self).block == old(self).block,
    {
        if let RegistryObject::Device { bound_id } = obj {
            self.device = if device_known {
                Some(*bound_id)
            } else {
                None
            };
            self.events.push(NodeEvent::Device);
        }
    }

    /// Hands out the queued notifications, oldest first.
    pub fn take_events(&mut self) -> (r: Vec<NodeEvent>)
        ensures
            r@ == old(self).events@,
            final(self).events@.len() == 0,
            final(self).info == old(self).info,
            final(self).volumes == old(self).volumes,
            final(self).channels == old(self).channels,
            final(self).outbox == old(self).outbox,
            final(self).block == old(self).block,
    {
        let mut out: Vec<NodeEvent> = Vec::new();
        std::mem::swap(&mut out, &mut self.events);
        out
    }

    /// Hands out the queued parameter writes, oldest first.
    pub fn take_outbound(&mut self) -> (r: Vec<ParamWrite>)
        ensures
            r@ == old(self).outbox@,
            final(self).outbox@.len() == 0,
            final(self).info == old(self).info,
            final(self).volumes == old(self).volumes,
            final(self).channels == old(self).channels,
            final(self).events == old(self).events,
            final(self).block == old(self).block,
    {
        let mut out: Vec<ParamWrite> = Vec::new();
        std::mem::swap(&mut out, &mut self.outbox);
        out
    }

    /// Takes a new audio format, named `format_name` for display: stores
    /// it, announces it, and rebuilds the channels to its channel count.
    /// Kept channels keep their volume; new ones take the node's volume.
    pub fn update_format(&mut self, format: AudioFormat, format_name: &str)
        requires
            old(self).wf(),
        ensures
            final(self).wf(),
            final(self).format == Some(format),
            final(self).formatstr@ == format_label(format.channels, format.rate, format_name@),
            final(self).events@ == old(self).events@.push(NodeEvent::Format),
            final(self).volumes@ == (VolumesView {
                channel_volumes: resized(
                    old(self).volumes@.channel_volumes,
                    channel_slots(format.channels),
                    old(self).volumes@.volume,
                ),
                ..old(self).volumes@
            }),
            final(self).info == old(self).info,
            final(self).name == old(self).name,
            final(self).description == old(self).description,
            final(self).iconname == old(self).iconname,
            final(self).hidden == old(self).hidden,
            final(self).channellock == old(self).channellock,
            final(self).device == old(self).device,
            final(self).applying_inbound() == old(self).applying_inbound(),
            final(self).outbox@ == old(self).outbox@,
    {
        let label = decimal_string(format.channels as i64).concat("ch ");
        let label = label.concat(decimal_string(format.rate as i64).as_str());
        let label = label.concat("Hz ");
        let label = label.concat(format_name);
        self.formatstr = label;
        self.format = Some(format);
        self.events.push(NodeEvent::Format);

        let n: usize = if format.channels <= 0 {
            0
        } else if format.channels > 64 {
            64
        } else {
            format.channels as usize
        };
        let old_len = self.volumes.channel_volumes.len();
        let mut cv: Vec<u32> = Vec::new();
        let mut i: usize = 0;
        while i < n
            invariant
                i <= n,
                n == channel_slots(format.channels),
                old_len == self.volumes.channel_volumes@.len(),
                cv@ =~= resized(self.volumes.channel_volumes@, i as nat, self.volumes.volume),
            decreases n - i,
        {
            if i < old_len {
                cv.push(self.volumes.channel_volumes[i]);
            } else {
                cv.push(self.volumes.volume);
            }
            i = i + 1;
        }
        self.volumes.channel_volumes = cv;
        self.update_channelmodel();
    }

    /// Applies the volume state a mixer service reported, with the echo
    /// guard up: the channel volumes (when any are given), the volume and
    /// the mute flag are taken, volumes cut down to 1.0, and nothing is
    /// written back out.
    pub fn apply_mixer_volume(&mut self, state: &MixerVolume)
        requires
            old(self).wf(),
        ensures
            final(self).wf(),
            !final(self).applying_inbound(),
            final(self).volumes@ == (VolumesView {
                channel_volumes: if state.channel_volumes@.len() > 0 {
                    clamped(state.channel_volumes@)
                } else {
                    old(self).volumes@.channel_volumes
                },
                volume: clamp_gain(state.volume),
                mute: state.mute,
                ..old(self).volumes@
            }),
            final(self).same_besides_volumes(old(self)),
            final(self).outbox@ == old(self).outbox@,
    {
        self.block.arm();
        if state.channel_volumes.len() > 0 {
            let cv = clamp_volumes(&state.channel_volumes);
            self.set_channel_volumes_vec(&cv);
        }
        self.set_volume(clamp_volume(state.volume));
        self.set_mute(state.mute);
        self.block.release();
    }

    /// Sets the volume; unless an inbound update is being applied, pushes it out.
    pub fn set_volume(&mut self, volume: u32)
        requires
            old(self).wf(),
            volume <= UNITY_GAIN,
        ensures
            final(self).wf(),
            final(self).volumes@ == (VolumesView { volume, ..old(self).volumes@ }),
            final(self).same_besides_volumes(old(self)),
            final(self).applying_inbound() == old(self).applying_inbound(),
            sent_one_unless(old(self).outbox@, final(self).outbox@, old(self).applying_inbound()),
            !old(self).applying_inbound() ==> is_volume_write(
                final(self).outbox@.last(),
                PropertyChanged::Volume,
                final(self).volumes@,
                final(self).is_device_backed(),
            ),
    {
        self.volumes.volume = volume;
        if !self.block.armed() {
            self.send_volume(PropertyChanged::Volume);
        }
    }

    /// Sets the mute flag; unless an inbound update is being applied, pushes it out.
    pub fn set_mute(&mut self, mute: bool)
        requires
            old(self).wf(),
        ensures
            final(self).wf(),
            final(self).volumes@ == (VolumesView { mute, ..old(self).volumes@ }),
            final(self).same_besides_volumes(old(self)),
            final(self).applying_inbound() == old(self).applying_inbound(),
            sent_one_unless(old(self).outbox@, final(self).outbox@, old(self).applying_inbound()),
            !old(self).applying_inbound() ==> is_volume_write(
                final(self).outbox@.last(),
                PropertyChanged::Mute,
                final(self).volumes@,
                final(self).is_device_backed(),
            ),
    {
        self.volumes.mute = mute;
        if !self.block.armed() {
            self.send_volume(PropertyChanged::Mute);
        }
    }

    /// Sets the main volume; unless an inbound update is being applied, pushes it out.
    pub fn set_mainvolume(&mut self, mainvolume: u32)
        requires
            old(self).wf(),
            mainvolume <= UNITY_GAIN,
        ensures
            final(self).wf(),
            final(self).volumes@ == (VolumesView { mainvolume, ..old(self).volumes@ }),
            final(self).same_besides_volumes(old(self)),
            final(self).applying_inbound() == old(self).applying_inbound(),
            sent_one_unless(old(self).outbox@, final(self).outbox@, old(self).applying_inbound()),
            !old(self).applying_inbound() ==> is_mainvolume_write(final(self).outbox@.last(), final(self).volumes@),
    {
        self.volumes.mainvolume = mainvolume;
        if !self.block.armed() {
            self.send_mainvolume();
        }
    }

    /// Sets the monitor volume; unless an inbound update is being applied, pushes it out.
    pub fn set_monitorvolume(&mut self, monitorvolume: u32)
        requires
            old(self).wf(),
            monitorvolume <= UNITY_GAIN,
        ensures
            final(self).wf(),
            final(self).volumes@ == (VolumesView { monitorvolume, ..old(self).volumes@ }),
            final(self).same_besides_volumes(old(self)),
            final(self).applying_inbound() == old(self).applying_inbound(),
            sent_one_unless(old(self).outbox@, final(self).outbox@, old(self).applying_inbound()),
            !old(self).applying_inbound() ==> is_monitorvolume_write(final(self).outbox@.last(), final(self).volumes@),
    {
        self.volumes.monitorvolume = monitorvolume;
        if !self.block.armed() {
            self.send_monitorvolume();
        }
    }

    /// Replaces the channel volumes and their objects, and sends nothing.
    pub fn set_channel_volumes_vec_no_send(&mut self, values: &Vec<u32>)
        requires
            old(self).wf(),
            all_in_range(values@),
        ensures
            final(self).wf(),
            final(self).volumes@ == (VolumesView { channel_volumes: values@, ..old(self).volumes@ }),
            final(self).same_besides_volumes(old(self)),
            final(self).applying_inbound() == old(self).applying_inbound(),
            final(self).outbox@ == old(self).outbox@,
    {
        self.volumes.channel_volumes = copy_volumes(values);
        self.update_channelmodel();
    }

    /// Replaces the channel volumes; unless an inbound update is being
    /// applied, pushes them out.
    pub fn set_channel_volumes_vec(&mut self, values: &Vec<u32>)
        requires
            old(self).wf(),
            all_in_range(values@),
        ensures
            final(self).wf(),
            final(self).volumes@ == (VolumesView { channel_volumes: values@, ..old(self).volumes@ }),
            final(self).same_besides_volumes(old(self)),
            final(self).applying_inbound() == old(self).applying_inbound(),
            sent_one_unless(old(self).outbox@, final(self).outbox@, old(self).applying_inbound()),
            !old(self).applying_inbound() ==> is_volume_write(
                final(self).outbox@.last(),
                PropertyChanged::ChannelVolumes,
                final(self).volumes@,
                final(self).is_device_backed(),
            ),
    {
        self.set_channel_volumes_vec_no_send(values);
        if !self.block.armed() {
            self.send_volume(PropertyChanged::ChannelVolumes);
        }
    }

    /// Replaces the channel volumes; the same as `set_channel_volumes_vec`.
    pub fn set_channel_volumes(&mut self, values: &Vec<u32>)
        requires
            old(self).wf(),
            all_in_range(values@),
        ensures
            final(self).wf(),
            final(self).volumes@ == (VolumesView { channel_volumes: values@, ..old(self).volumes@ }),
            final(self).same_besides_volumes(old(self)),
            final(self).applying_inbound() == old(self).applying_inbound(),
            sent_one_unless(old(self).outbox@, final(self).outbox@, old(self).applying_inbound()),
            !old(self).applying_inbound() ==> is_volume_write(
                final(self).outbox@.last(),
                PropertyChanged::ChannelVolumes,
                final(self).volumes@,
                final(self).is_device_backed(),
            ),
    {
        self.set_channel_volumes_vec(values);
    }

    /// Sets the volume of channel `index`, when there is such a channel, and
    /// then, unless an inbound update is being applied, pushes all channel
    /// volumes out. An index past the last channel changes and sends nothing.
    pub fn set_channel_volume(&mut self, index: usize, volume: u32)
        requires
            old(self).wf(),
            volume <= UNITY_GAIN,
        ensures
            final(self).wf(),
            final(self).volumes@ == (VolumesView {
                channel_volumes: if index < old(self).volumes@.channel_volumes.len() {
                    old(self).volumes@.channel_volumes.update(index as int, volume)
                } else {
                    old(self).volumes@.channel_volumes
                },
                ..old(self).volumes@
            }),
            final(self).same_besides_volumes(old(self)),
            final(self).applying_inbound() == old(self).applying_inbound(),
            sent_one_unless(
                old(self).outbox@,
                final(self).outbox@,
                old(self).applying_inbound() || index >= old(self).volumes@.channel_volumes.len(),
            ),
            !old(self).applying_inbound() && index < old(self).volumes@.channel_volumes.len()
                ==> is_volume_write(
                final(self).outbox@.last(),
                PropertyChanged::ChannelVolumes,
                final(self).volumes@,
                final(self).is_device_backed(),
            ),
    {
        if index < self.volumes.channel_volumes.len() {
            self.volumes.channel_volumes.set(index, volume);
            self.channels.set(index, PwChannelObject { index, volume });
            assert(channels_match(self.volumes.channel_volumes@, self.channels@));
            if !self.block.armed() {
                self.send_volume(PropertyChanged::ChannelVolumes);
            }
        }
    }
}

} // verus!
