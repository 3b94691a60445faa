use pwvucontrol::device::{PwDeviceObject, PwRouteObject, RouteDirection};
use pwvucontrol::format::decode_format;
use pwvucontrol::node::{
    find_route_index, get_node_type_for_node, is_virtual_class, MixerVolume, NodeEvent, NodeInfo,
    NodeRefresh, NodeType, PwNodeObject, RegistryObject, WriteTarget,
};
use pwvucontrol::target::TargetLookup;
use pwvucontrol::volume::scale_volumes;
use pwvucontrol::pod::{ParamKind, ParamWrite, Pod, PodObject, PodProperty, Schema};
use pwvucontrol::registry::PwvucontrolManager;

fn prop(key: &str, value: Pod) -> PodProperty {
    PodProperty { key: key.to_string(), value }
}

fn info(nodetype: NodeType, device_id: Option<u32>) -> NodeInfo {
    NodeInfo {
        boundid: 55,
        serial: 1201,
        nodetype,
        is_virtual: false,
        device_id,
        card_profile_device: device_id.map(|_| 1),
    }
}

fn floats(values: &[u32]) -> Pod {
    Pod::Array(values.iter().map(|v| Pod::Float(*v)).collect())
}

fn props(fields: Vec<PodProperty>) -> Vec<Pod> {
    vec![Pod::Object(PodObject { schema: Schema::Props, properties: fields })]
}

fn single_field(w: &ParamWrite) -> (String, &Pod) {
    assert_eq!(w.kind, ParamKind::Props);
    match &w.pod {
        Pod::Object(o) => {
            assert_eq!(o.schema, Schema::Props);
            assert_eq!(o.properties.len(), 1);
            (o.properties[0].key.clone(), &o.properties[0].value)
        }
        _ => panic!("not an object"),
    }
}

fn float_values(p: &Pod) -> Vec<u32> {
    match p {
        Pod::Array(items) => items
            .iter()
            .map(|i| match i {
                Pod::Float(v) => *v,
                _ => panic!("not a float"),
            })
            .collect(),
        _ => panic!("not an array"),
    }
}

fn format_answer(channels: i32, positions: &[u32]) -> Vec<Pod> {
    vec![Pod::Object(PodObject {
        schema: Schema::Format,
        properties: vec![
            prop("format", Pod::Choice(vec![Pod::Id(283)])),
            prop("rate", Pod::Int(48000)),
            prop("channels", Pod::Int(channels)),
            prop("position", Pod::Array(positions.iter().map(|p| Pod::Id(*p)).collect())),
        ],
    })]
}

#[test]
fn node_types_from_media_class() {
    assert_eq!(get_node_type_for_node(Some("Stream/Output/Audio")), NodeType::StreamOutput);
    assert_eq!(get_node_type_for_node(Some("Stream/Input/Audio")), NodeType::StreamInput);
    assert_eq!(get_node_type_for_node(Some("Audio/Source")), NodeType::Source);
    assert_eq!(get_node_type_for_node(Some("Audio/Source/Virtual")), NodeType::Source);
    assert_eq!(get_node_type_for_node(Some("Audio/Sink")), NodeType::Sink);
    assert_eq!(get_node_type_for_node(Some("Video/Source")), NodeType::Undefined);
    assert_eq!(get_node_type_for_node(None), NodeType::Undefined);
    assert!(is_virtual_class(Some("Audio/Source/Virtual")));
    assert!(!is_virtual_class(Some("Audio/Source")));
}

#[test]
fn inbound_props_apply_without_echo() {
    let mut n = PwNodeObject::new(info(NodeType::Sink, Some(40)));
    let update = props(vec![
        prop("channelVolumes", floats(&[400_000, 800_000])),
        prop("volume", Pod::Float(1_000_000)),
        prop("mute", Pod::Bool(true)),
        prop("monitorVolumes", floats(&[100, 300])),
    ]);
    n.apply_props(&update);
    assert_eq!(n.channel_volumes_vec(), vec![400_000, 800_000]);
    assert_eq!(n.volume(), 800_000);
    assert_eq!(n.mainvolume(), 1_000_000);
    assert!(n.mute());
    assert_eq!(n.monitorvolume(), 300);
    assert_eq!(n.channelmodel().len(), 2);
    assert_eq!(n.channelmodel()[1].volume, 800_000);
    assert!(n.take_outbound().is_empty());
    assert!(!n.is_applying_inbound());
}

#[test]
fn inbound_props_are_idempotent() {
    let mut n = PwNodeObject::new(info(NodeType::StreamOutput, None));
    let update = props(vec![
        prop("channelVolumes", floats(&[300_000, 600_000])),
        prop("volume", Pod::Float(700_000)),
        prop("mute", Pod::Bool(false)),
    ]);
    n.apply_props(&update);
    let first = (n.volume(), n.mute(), n.channel_volumes_vec(), n.mainvolume());
    n.apply_props(&update);
    let second = (n.volume(), n.mute(), n.channel_volumes_vec(), n.mainvolume());
    assert_eq!(first, second);
    assert_eq!(first.0, 700_000);
    assert!(n.take_outbound().is_empty());
}

#[test]
fn local_setters_send_one_write_each() {
    let mut n = PwNodeObject::new(info(NodeType::StreamOutput, None));
    n.set_volume(500_000);
    n.set_mute(true);
    n.set_mainvolume(900_000);
    let out = n.take_outbound();
    assert_eq!(out.len(), 3);
    let (k, v) = single_field(&out[0]);
    assert_eq!(k, "volume");
    assert!(matches!(v, Pod::Float(500_000)));
    let (k, v) = single_field(&out[1]);
    assert_eq!(k, "mute");
    assert!(matches!(v, Pod::Bool(true)));
    let (k, v) = single_field(&out[2]);
    assert_eq!(k, "volume");
    assert!(matches!(v, Pod::Float(900_000)));
}

#[test]
fn device_backed_volume_scales_channels() {
    let mut n = PwNodeObject::new(info(NodeType::Sink, Some(40)));
    n.apply_props(&props(vec![prop("channelVolumes", floats(&[500_000, 1_000_000]))]));
    n.set_volume(500_000);
    let out = n.take_outbound();
    assert_eq!(out.len(), 1);
    let (k, v) = single_field(&out[0]);
    assert_eq!(k, "channelVolumes");
    assert_eq!(float_values(v), vec![250_000, 500_000]);
    assert_eq!(scale_volumes(&vec![0, 0], 300), vec![300, 300]);
}

#[test]
fn channel_volume_edits() {
    let mut n = PwNodeObject::new(info(NodeType::Sink, None));
    n.set_channel_volumes_vec(&vec![1, 2, 3]);
    n.set_channel_volume(1, 20);
    n.set_monitorvolume(7);
    assert_eq!(n.channel_volumes(), vec![1, 20, 3]);
    assert_eq!(n.channelmodel()[1].volume, 20);
    let out = n.take_outbound();
    assert_eq!(out.len(), 3);
    assert_eq!(float_values(single_field(&out[0]).1), vec![1, 2, 3]);
    assert_eq!(float_values(single_field(&out[1]).1), vec![1, 20, 3]);
    let (k, v) = single_field(&out[2]);
    assert_eq!(k, "monitorVolumes");
    assert_eq!(float_values(v), vec![7, 7, 7]);
}

#[test]
fn format_change_rebuilds_channels() {
    let mut n = PwNodeObject::new(info(NodeType::Sink, None));
    let two = decode_format(&format_answer(2, &[3, 4])).expect("format");
    n.update_format(two, "F32LE");
    assert_eq!(n.channel_volumes_vec().len(), 2);
    n.set_channel_volumes_vec_no_send(&vec![100, 200]);
    n.set_volume(200);
    n.take_outbound();
    let six = decode_format(&format_answer(6, &[3, 4, 5, 6, 7, 8])).expect("format");
    assert_eq!(six.channels, 6);
    assert_eq!(six.rate, 48000);
    assert_eq!(six.positions[5], 8);
    assert_eq!(six.positions[6], 0);
    n.update_format(six, "F32LE");
    assert_eq!(n.channel_volumes_vec(), vec![100, 200, 200, 200, 200, 200]);
    assert_eq!(n.channelmodel().len(), 6);
    assert_eq!(n.channelmodel()[5].index, 5);
    assert!(n.formatstr.starts_with("6ch"));
    assert_eq!(n.formatstr, "6ch 48000Hz F32LE");
    assert_eq!(n.take_events(), vec![NodeEvent::Format, NodeEvent::Format]);
    assert!(n.take_outbound().is_empty());
}

#[test]
fn undefined_format_is_skipped() {
    let mut answer = format_answer(2, &[3, 4]);
    if let Pod::Object(o) = &mut answer[0] {
        o.properties[0].value = Pod::Id(0);
    }
    assert!(decode_format(&answer).is_none());
    let missing = vec![Pod::Object(PodObject {
        schema: Schema::Format,
        properties: vec![prop("format", Pod::Id(283))],
    })];
    assert!(decode_format(&missing).is_none());
    for absent in ["channels", "rate"] {
        let mut answer = format_answer(2, &[3, 4]);
        if let Pod::Object(o) = &mut answer[0] {
            o.properties.retain(|p| p.key != absent);
        }
        assert!(decode_format(&answer).is_none());
    }
}

#[test]
fn names_and_icons() {
    let mut sink = PwNodeObject::new(info(NodeType::Sink, None));
    sink.label_set_name(Some("Speakers".to_string()), Some("spk".to_string()), Some("alsa".to_string()));
    assert_eq!(sink.name, "Speakers");
    sink.update_icon_name(Some("x".to_string()), None, None);
    assert_eq!(sink.iconname, "soundcard-symbolic");
    let mut stream = PwNodeObject::new(info(NodeType::StreamOutput, None));
    stream.label_set_name(Some("Speakers".to_string()), Some("firefox".to_string()), None);
    assert_eq!(stream.name, "firefox");
    stream.label_set_name(None, None, None);
    assert_eq!(stream.name, "");
    stream.update_icon_name(Some("media".to_string()), Some("window".to_string()), None);
    assert_eq!(stream.iconname, "window");
    stream.update_icon_name(None, None, None);
    assert_eq!(stream.iconname, "library-music-symbolic");
    stream.label_set_description(Some("Video".to_string()));
    assert_eq!(stream.description, "Video");
}

#[test]
fn default_target_lookups() {
    let l = PwNodeObject::default_target(Some("1201".to_string()), Some("55".to_string()));
    assert_eq!(l.len(), 2);
    assert!(matches!(&l[0], TargetLookup::BySerial(s) if s == "1201"));
    assert!(matches!(&l[1], TargetLookup::ByBoundId(s) if s == "55"));
    let l = PwNodeObject::default_target(Some("-1".to_string()), Some("-1".to_string()));
    assert!(l.is_empty());
    let l = PwNodeObject::default_target(None, Some("12".to_string()));
    assert_eq!(l.len(), 1);
}

#[test]
fn default_target_writes() {
    let n = PwNodeObject::new(info(NodeType::StreamOutput, None));
    let mut t_info = info(NodeType::Sink, None);
    t_info.boundid = 77;
    t_info.serial = 3040;
    let t = PwNodeObject::new(t_info);
    let ws = n.set_default_target(&t);
    assert_eq!(ws.len(), 2);
    assert_eq!((ws[0].subject, ws[0].key.as_str(), ws[0].value.as_str()), (55, "target.node", "77"));
    assert_eq!((ws[1].key.as_str(), ws[1].value.as_str()), ("target.object", "3040"));
    assert_eq!(ws[1].value_type, "Spa:Id");
    let ws = n.unset_default_target();
    assert_eq!(ws[0].value, "-1");
    assert_eq!(ws[1].value, "-1");
}

fn route_obj(index: i32, profiles: Vec<i32>) -> PwRouteObject {
    PwRouteObject {
        index,
        description: "Headphones".to_string(),
        available: 0,
        direction: RouteDirection::Output,
        device: Some(1),
        profiles,
    }
}

#[test]
fn node_route_switches_profile_first() {
    let n = PwNodeObject::new(info(NodeType::Sink, Some(40)));
    let mut d = PwDeviceObject::new(40, "Card".to_string(), None);
    d.profile_index = Some(1);
    n.set_route(&route_obj(5, vec![3, 4]), &mut d);
    let out = d.take_outbound();
    assert_eq!(out.len(), 2);
    assert_eq!(out[0].kind, ParamKind::Profile);
    assert_eq!(out[1].kind, ParamKind::Route);
    n.set_route(&route_obj(5, vec![1, 4]), &mut d);
    assert_eq!(d.take_outbound().len(), 1);
    let standalone = PwNodeObject::new(info(NodeType::Sink, None));
    standalone.set_route(&route_obj(5, vec![3]), &mut d);
    assert!(d.take_outbound().is_empty());
}

#[test]
fn route_lookup_for_device_nodes() {
    let routes = vec![
        Pod::Object(PodObject {
            schema: Schema::Route,
            properties: vec![prop("index", Pod::Int(2)), prop("device", Pod::Int(0))],
        }),
        Pod::Object(PodObject {
            schema: Schema::Route,
            properties: vec![prop("index", Pod::Int(6)), prop("device", Pod::Int(1))],
        }),
    ];
    assert_eq!(find_route_index(&routes, 1), Some(6));
    assert_eq!(find_route_index(&routes, 3), None);
    let mut n = PwNodeObject::new(info(NodeType::Sink, Some(40)));
    n.set_mute(true);
    let w = n.take_outbound().pop().unwrap();
    let rw = n.route_write_for(&routes, w).expect("route write");
    assert_eq!(rw.kind, ParamKind::Route);
    match &rw.pod {
        Pod::Object(o) => {
            assert_eq!(o.int_field("index"), Some(6));
            assert_eq!(o.int_field("device"), Some(1));
            assert!(o.find("props").is_some());
        }
        _ => panic!("not an object"),
    }
}

#[test]
fn node_refresh_dispatch() {
    assert_eq!(PwNodeObject::refresh_for(ParamKind::Props), Some(NodeRefresh::Props));
    assert_eq!(PwNodeObject::refresh_for(ParamKind::Format), Some(NodeRefresh::Format));
    assert_eq!(PwNodeObject::refresh_for(ParamKind::Route), None);
}

#[test]
fn registry_resolves_devices() {
    let mut m = PwvucontrolManager::new();
    m.add_device(PwDeviceObject::new(40, "Card".to_string(), None));
    m.add_node(PwNodeObject::new(info(NodeType::Sink, Some(40))));
    assert_eq!(m.get_node_by_id(55), Some(0));
    assert_eq!(m.get_device_by_id(40), Some(0));
    assert_eq!(m.get_device_by_id(41), None);
    m.node_object_added(0, &RegistryObject::Link { input_node: Some(9) });
    assert_eq!(m.nodes[0].device, None);
    m.node_object_added(0, &RegistryObject::Device { bound_id: 40 });
    assert_eq!(m.nodes[0].device, Some(40));
    m.node_object_added(0, &RegistryObject::Device { bound_id: 41 });
    assert_eq!(m.nodes[0].device, None);
    assert_eq!(m.nodes[0].events.len(), 2);
}

#[test]
fn mixer_state_applies_without_echo() {
    let mut n = PwNodeObject::new(info(NodeType::StreamOutput, None));
    n.apply_mixer_volume(&MixerVolume { channel_volumes: vec![10, 20], volume: 20, mute: true });
    assert_eq!(n.channel_volumes_vec(), vec![10, 20]);
    assert_eq!(n.volume(), 20);
    assert!(n.mute());
    n.apply_mixer_volume(&MixerVolume { channel_volumes: vec![], volume: 5, mute: false });
    assert_eq!(n.channel_volumes_vec(), vec![10, 20]);
    assert_eq!(n.volume(), 5);
    assert!(n.take_outbound().is_empty());
}

#[test]
fn node_identity_from_properties() {
    let i = NodeInfo::from_properties(3, 4, Some("Audio/Source/Virtual"), None, None);
    assert_eq!(i.nodetype, NodeType::Source);
    assert!(i.is_virtual);
    let i = NodeInfo::from_properties(3, 4, Some("Stream/Input/Audio"), Some(9), Some(2));
    assert_eq!(i.nodetype, NodeType::StreamInput);
    assert!(!i.is_virtual);
    assert_eq!(i.device_id, Some(9));
}

#[test]
fn out_of_range_channel_sends_nothing() {
    let mut n = PwNodeObject::new(info(NodeType::Sink, None));
    n.set_channel_volumes_vec_no_send(&vec![1, 2]);
    n.set_channel_volume(5, 9);
    assert_eq!(n.channel_volumes_vec(), vec![1, 2]);
    assert!(n.take_outbound().is_empty());
    n.set_channel_volume(0, 9);
    assert_eq!(n.take_outbound().len(), 1);
}

#[test]
fn inbound_volumes_are_cut_to_unity() {
    let mut n = PwNodeObject::new(info(NodeType::StreamOutput, None));
    n.apply_props(&props(vec![
        prop("channelVolumes", floats(&[2_000_000, 500_000])),
        prop("volume", Pod::Float(1_500_000)),
        prop("monitorVolumes", floats(&[3_000_000])),
    ]));
    assert_eq!(n.channel_volumes_vec(), vec![1_000_000, 500_000]);
    assert_eq!(n.volume(), 1_000_000);
    assert_eq!(n.mainvolume(), 1_000_000);
    assert_eq!(n.monitorvolume(), 1_000_000);
    n.apply_mixer_volume(&MixerVolume { channel_volumes: vec![4_000_000], volume: 4_000_000, mute: false });
    assert_eq!(n.channel_volumes_vec(), vec![1_000_000]);
    assert_eq!(n.volume(), 1_000_000);
}

#[test]
fn writes_are_dispatched_by_destination() {
    let routes = vec![Pod::Object(PodObject {
        schema: Schema::Route,
        properties: vec![prop("index", Pod::Int(6)), prop("device", Pod::Int(1))],
    })];
    let mut standalone = PwNodeObject::new(info(NodeType::StreamOutput, None));
    standalone.set_mute(true);
    let w = standalone.take_outbound().pop().unwrap();
    let o = standalone.dispatch_write(w, None).expect("node write");
    assert_eq!(o.target, WriteTarget::Node);
    assert_eq!(o.write.kind, ParamKind::Props);

    let mut backed = PwNodeObject::new(info(NodeType::Sink, Some(40)));
    backed.set_mute(true);
    let w = backed.take_outbound().pop().unwrap();
    let o = backed.dispatch_write(w, Some(&routes)).expect("device write");
    assert_eq!(o.target, WriteTarget::Device(40));
    assert_eq!(o.write.kind, ParamKind::Route);

    backed.set_mute(false);
    let w = backed.take_outbound().pop().unwrap();
    assert!(backed.dispatch_write(w, None).is_none());
    backed.set_mute(false);
    let w = backed.take_outbound().pop().unwrap();
    assert!(backed.dispatch_write(w, Some(&vec![])).is_none());
}
