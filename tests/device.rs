use pwvucontrol::device::{
    route_filter, DeviceEvent, DeviceRefresh, PwDeviceObject, RouteDirection,
};
use pwvucontrol::pod::{index_object, query_index, ParamKind, Pod, PodObject, PodProperty, Schema};

fn prop(key: &str, value: Pod) -> PodProperty {
    PodProperty { key: key.to_string(), value }
}

fn profile(index: i32, description: &str) -> Pod {
    Pod::Object(PodObject {
        schema: Schema::Profile,
        properties: vec![
            prop("index", Pod::Int(index)),
            prop("description", Pod::Str(description.to_string())),
            prop("available", Pod::Id(2)),
        ],
    })
}

fn route(index: i32, direction: u32, device: i32, profiles: Vec<i32>) -> Pod {
    Pod::Object(PodObject {
        schema: Schema::Route,
        properties: vec![
            prop("index", Pod::Int(index)),
            prop("direction", Pod::Id(direction)),
            prop("description", Pod::Str(format!("route {}", index))),
            prop("available", Pod::Id(0)),
            prop("device", Pod::Int(device)),
            prop("profiles", Pod::Array(profiles.into_iter().map(Pod::Int).collect())),
        ],
    })
}

fn current(index: i32, schema: Schema) -> Vec<Pod> {
    vec![Pod::Object(index_object(schema, index))]
}

fn device() -> PwDeviceObject {
    PwDeviceObject::new(40, "Built-in Audio".to_string(), None)
}

#[test]
fn new_device_names_and_icon() {
    let d = device();
    assert_eq!(d.name.as_deref(), Some("Built-in Audio"));
    assert_eq!(d.icon_name, "soundcard-symbolic");
    let e = PwDeviceObject::new(41, "USB".to_string(), Some("audio-card-usb".to_string()));
    assert_eq!(e.icon_name, "audio-card-usb");
}

#[test]
fn active_profile_scenario() {
    let mut d = device();
    let enumerated = vec![profile(0, "Off"), profile(1, "Analog Stereo"), profile(2, "Analog Surround")];
    d.update_profiles(Some(&enumerated), &current(2, Schema::Profile));
    assert_eq!(PwDeviceObject::get_current_profile_index(&current(2, Schema::Profile)), Some(2));
    assert_eq!(d.profile_index, Some(2));
    assert_eq!(d.profiles.len(), 3);
    assert_eq!(d.profiles[1].description, "Analog Stereo");

    d.set_profile(1);
    assert_eq!(d.profile_index, Some(2));
    let out = d.take_outbound();
    assert_eq!(out.len(), 1);
    assert_eq!(out[0].kind, ParamKind::Profile);
    let echoed = vec![out.into_iter().next().unwrap().pod];
    assert_eq!(query_index(&echoed, Schema::Profile), Some(1));

    d.update_profiles(Some(&enumerated), &echoed);
    assert_eq!(d.profile_index, Some(1));
}

#[test]
fn profile_list_replace_reports_counts() {
    let mut d = device();
    let five: Vec<Pod> = (0..5).map(|i| profile(i, "p")).collect();
    d.update_profiles(Some(&five), &current(0, Schema::Profile));
    d.take_events();
    let three = vec![profile(7, "a"), profile(3, "b"), profile(5, "c")];
    d.update_profiles(Some(&three), &current(3, Schema::Profile));
    assert_eq!(d.profiles.len(), 3);
    assert_eq!(
        d.take_events(),
        vec![
            DeviceEvent::PreUpdateProfile,
            DeviceEvent::ProfilesReplaced { removed: 5, inserted: 3 },
            DeviceEvent::PostUpdateProfile,
        ]
    );
    let order: Vec<i32> = d.profiles.iter().map(|p| p.index).collect();
    assert_eq!(order, vec![7, 3, 5]);
}

#[test]
fn failed_enumeration_leaves_device_alone() {
    let mut d = device();
    d.update_profiles(Some(&vec![profile(0, "Off")]), &current(0, Schema::Profile));
    d.take_events();
    d.update_profiles(None, &current(5, Schema::Profile));
    d.update_routes(None, &vec![], &vec![]);
    assert_eq!(d.profiles.len(), 1);
    assert_eq!(d.profile_index, Some(0));
    assert!(d.events.is_empty());
}

#[test]
fn undecodable_entries_are_skipped() {
    let mut d = device();
    let broken = Pod::Object(PodObject {
        schema: Schema::Profile,
        properties: vec![prop("index", Pod::Int(9))],
    });
    d.update_profiles(Some(&vec![profile(0, "Off"), broken, Pod::Int(3), profile(1, "On")]), &vec![]);
    assert_eq!(d.profiles.len(), 2);
    assert_eq!(d.profile_index, None);
}

fn routed_device() -> PwDeviceObject {
    let mut d = device();
    let routes = vec![
        route(3, 0, 0, vec![1]),
        route(4, 1, 1, vec![1]),
        route(7, 0, 0, vec![1, 2]),
        route(9, 0, 0, vec![2]),
        route(8, 1, 1, vec![]),
    ];
    d.update_routes(Some(&routes), &current(3, Schema::Route), &current(8, Schema::Route));
    d
}

#[test]
fn route_index_to_view_position() {
    let mut d = routed_device();
    assert_eq!(d.get_route_model_for_direction(RouteDirection::Input), vec![0, 2, 3]);
    assert_eq!(d.get_route_model_for_direction(RouteDirection::Output), vec![1, 4]);
    assert_eq!(d.route_index_input, 0);
    assert_eq!(d.route_index_output, 1);
    assert_eq!(d.get_model_index_from_route_index(RouteDirection::Input, 7), Some(1));
    assert_eq!(d.get_model_index_from_route_index(RouteDirection::Input, 99), None);
    assert_eq!(d.get_model_index_from_route_index(RouteDirection::Input, 4), None);

    d.update_current_route_index_for_direction_sync(RouteDirection::Input, &current(7, Schema::Route));
    assert_eq!(d.route_index_input, 1);
    d.update_current_route_index_for_direction_sync(RouteDirection::Input, &current(99, Schema::Route));
    assert_eq!(d.route_index_input, 1);
    assert_eq!(d.route_index_output, 1);
}

#[test]
fn route_list_replace_reports_counts() {
    let mut d = routed_device();
    let events = d.take_events();
    assert_eq!(events[1], DeviceEvent::RoutesReplaced { removed: 0, inserted: 5 });
    assert_eq!(d.routes[2].profiles, vec![1, 2]);
    assert_eq!(d.routes[2].device, Some(0));
}

#[test]
fn set_route_request() {
    let mut d = device();
    d.set_route(7, 1);
    let out = d.take_outbound();
    assert_eq!(out.len(), 1);
    assert_eq!(out[0].kind, ParamKind::Route);
    match &out[0].pod {
        Pod::Object(o) => {
            assert_eq!(o.schema, Schema::Route);
            assert_eq!(o.int_field("index"), Some(7));
            assert_eq!(o.int_field("device"), Some(1));
        }
        _ => panic!("not an object"),
    }
}

#[test]
fn route_filter_names_direction() {
    match route_filter(RouteDirection::Output) {
        Pod::Object(o) => assert_eq!(o.id_field("direction"), Some(1)),
        _ => panic!("not an object"),
    }
}

#[test]
fn device_refresh_dispatch() {
    assert_eq!(PwDeviceObject::refresh_for(ParamKind::EnumProfile), Some(DeviceRefresh::Profiles));
    assert_eq!(PwDeviceObject::refresh_for(ParamKind::Profile), Some(DeviceRefresh::ActiveProfile));
    assert_eq!(PwDeviceObject::refresh_for(ParamKind::EnumRoute), Some(DeviceRefresh::Routes));
    assert_eq!(PwDeviceObject::refresh_for(ParamKind::Route), Some(DeviceRefresh::ActiveRoutes));
    assert_eq!(PwDeviceObject::refresh_for(ParamKind::Props), None);
}

#[test]
fn active_profile_must_be_listed() {
    let mut d = device();
    let enumerated = vec![profile(0, "Off"), profile(1, "Analog Stereo")];
    d.update_profiles(Some(&enumerated), &current(4, Schema::Profile));
    assert_eq!(d.profile_index, None);
    d.update_profile_index(&current(1, Schema::Profile));
    assert_eq!(d.profile_index, Some(1));
    d.update_profile_index(&vec![]);
    assert_eq!(d.profile_index, None);
    assert!(d.has_profile(0));
    assert!(!d.has_profile(4));
}
