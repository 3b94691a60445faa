use pwvucontrol::pod::{
    float_array, index_object, query_index, ParamKind, Pod, PodObject, PodProperty, Schema,
};
use pwvucontrol::text::{decimal_string, str_eq};

fn prop(key: &str, value: Pod) -> PodProperty {
    PodProperty { key: key.to_string(), value }
}

fn object(schema: Schema, props: Vec<PodProperty>) -> PodObject {
    PodObject { schema, properties: props }
}

#[test]
fn field_lookup_takes_first_match() {
    let o = object(
        Schema::Profile,
        vec![prop("index", Pod::Int(4)), prop("index", Pod::Int(9)), prop("available", Pod::Id(2))],
    );
    assert_eq!(o.int_field("index"), Some(4));
    assert_eq!(o.id_field("available"), Some(2));
}

#[test]
fn missing_field_reads_as_absent() {
    let o = object(Schema::Profile, vec![prop("description", Pod::Str("Off".to_string()))]);
    assert_eq!(o.int_field("index"), None);
    assert_eq!(o.id_field("available"), None);
    assert_eq!(o.bool_field("mute"), None);
    assert_eq!(o.float_field("volume"), None);
    assert!(o.float_array_field("channelVolumes").is_none());
    assert_eq!(o.string_field("description"), Some("Off".to_string()));
}

#[test]
fn wrong_type_reads_as_absent() {
    let o = object(Schema::Props, vec![prop("volume", Pod::Int(3)), prop("mute", Pod::Id(1))]);
    assert_eq!(o.float_field("volume"), None);
    assert_eq!(o.bool_field("mute"), None);
}

#[test]
fn choice_unwraps_to_default() {
    let o = object(
        Schema::Format,
        vec![
            prop("rate", Pod::Choice(vec![Pod::Int(48000), Pod::Int(44100), Pod::Int(96000)])),
            prop("channels", Pod::Choice(vec![])),
        ],
    );
    assert_eq!(o.int_field("rate"), Some(48000));
    assert_eq!(o.int_field("channels"), None);
}

#[test]
fn arrays_decode_only_when_uniform() {
    let o = object(
        Schema::Props,
        vec![
            prop("channelVolumes", Pod::Array(vec![Pod::Float(250_000), Pod::Float(750_000)])),
            prop("monitorVolumes", Pod::Array(vec![Pod::Float(1), Pod::Int(2)])),
            prop("position", Pod::Array(vec![Pod::Id(3), Pod::Id(4)])),
            prop("profiles", Pod::Array(vec![Pod::Int(1), Pod::Int(2)])),
        ],
    );
    assert_eq!(o.float_array_field("channelVolumes"), Some(vec![250_000, 750_000]));
    assert_eq!(o.float_array_field("monitorVolumes"), None);
    assert_eq!(o.id_array_field("position"), Some(vec![3, 4]));
    assert_eq!(o.int_array_field("profiles"), Some(vec![1, 2]));
    assert_eq!(o.int_array_field("position"), None);
}

#[test]
fn float_array_encodes_each_element() {
    match float_array(&vec![1, 2, 3]) {
        Pod::Array(items) => {
            assert_eq!(items.len(), 3);
            assert!(matches!(items[2], Pod::Float(3)));
        }
        _ => panic!("not an array"),
    }
}

#[test]
fn index_round_trip() {
    for n in [0, 1, 7, -3, i32::MAX] {
        let o = index_object(Schema::Profile, n);
        let answer = vec![Pod::Int(5), Pod::Object(o)];
        assert_eq!(query_index(&answer, Schema::Profile), Some(n));
    }
}

#[test]
fn point_query_uses_first_object_only() {
    let answer = vec![
        Pod::Object(object(Schema::Profile, vec![prop("description", Pod::Str("x".to_string()))])),
        Pod::Object(index_object(Schema::Profile, 3)),
    ];
    assert_eq!(query_index(&answer, Schema::Profile), None);
    assert_eq!(query_index(&vec![], Schema::Profile), None);
    let other = vec![Pod::Object(index_object(Schema::Route, 3))];
    assert_eq!(query_index(&other, Schema::Profile), None);
}

#[test]
fn param_kind_names() {
    assert_eq!(ParamKind::from_name("Props"), ParamKind::Props);
    assert_eq!(ParamKind::from_name("EnumRoute"), ParamKind::EnumRoute);
    assert_eq!(ParamKind::from_name("EnumProfile"), ParamKind::EnumProfile);
    assert_eq!(ParamKind::from_name("Latency"), ParamKind::Other);
}

#[test]
fn string_helpers() {
    assert!(str_eq("Audio/Sink", "Audio/Sink"));
    assert!(!str_eq("Audio/Sink", "Audio/Sinks"));
    assert!(!str_eq("abc", "abd"));
    assert_eq!(decimal_string(48000), "48000");
    assert_eq!(decimal_string(-12), "-12");
    assert_eq!(decimal_string(0), "0");
    assert_eq!(decimal_string(i64::MIN), "-9223372036854775808");
}
