//! The typed-object parameter format ("pods") exchanged with the audio graph,
//! and the decoding and encoding of named fields.

use vstd::prelude::*;
use crate::text::str_eq;

verus! {

/// The named-field layout that a parameter object follows.
#[derive(Clone, Copy, Debug, PartialEq, Eq, Structural)]
pub enum Schema {
    Props,
    Format,
    Profile,
    Route,
    Unknown,
}

/// The parameter a request or a change notification is about.
#[derive(Clone, Copy, Debug, PartialEq, Eq, Structural)]
pub enum ParamKind {
    Props,
    Format,
    EnumFormat,
    Profile,
    EnumProfile,
    Route,
    EnumRoute,
    Other,
}

impl ParamKind {
    /// The parameter named by a change notification's tag.
    pub fn from_name(name: &str) -> (r: ParamKind)
        ensures
            r == param_kind_of(name@),
    {
        if str_eq(name, "Props") {
            ParamKind::Props
        } else if str_eq(name, "Format") {
            ParamKind::Format
        } else if str_eq(name, "EnumFormat") {
            ParamKind::EnumFormat
        } else if str_eq(name, "Profile") {
            ParamKind::Profile
        } else if str_eq(name, "EnumProfile") {
            ParamKind::EnumProfile
        } else if str_eq(name, "Route") {
            ParamKind::Route
        } else if str_eq(name, "EnumRoute") {
            ParamKind::EnumRoute
        } else {
            ParamKind::Other
        }
    }
}

pub open spec fn param_kind_of(name: Seq<char>) -> ParamKind {
    if name == "Props"@ {
        ParamKind::Props
    } else if name == "Format"@ {
        ParamKind::Format
    } else if name == "EnumFormat"@ {
        ParamKind::EnumFormat
    } else if name == "Profile"@ {
        ParamKind::Profile
    } else if name == "EnumProfile"@ {
        ParamKind::EnumProfile
    } else if name == "Route"@ {
        ParamKind::Route
    } else if name == "EnumRoute"@ {
        ParamKind::EnumRoute
    } else {
        ParamKind::Other
    }
}

/// One value of the parameter format.
///
/// Floating-point values travel as gains in millionths (`1_000_000` is a
/// gain of 1.0); the program that talks to the graph converts at its edge.
pub enum Pod {
    Unit,
    Bool(bool),
    Id(u32),
    Int(i32),
    Float(u32),
    Str(String),
    Array(Vec<Pod>),
    /// A constrained value: the first entry is the default, the rest are
    /// the alternatives or bounds.
    Choice(Vec<Pod>),
    Object(PodObject),
}

/// A named field of an object.
pub struct PodProperty {
    pub key: String,
    pub value: Pod,
}

/// An object: a schema tag and its fields in wire order.
pub struct PodObject {
    pub schema: Schema,
    pub properties: Vec<PodProperty>,
}

/// An outbound "set parameter" request.
pub struct ParamWrite {
    pub kind: ParamKind,
    pub pod: Pod,
}

/// The first object among `pods` at or after position `i`.
pub open spec fn first_object_from(pods: Seq<Pod>, i: int) -> Option<PodObject>
    decreases pods.len() - i,
{
    if 0 <= i < pods.len() {
        match pods[i] {
            Pod::Object(o) => Some(o),
            _ => first_object_from(pods, i + 1),
        }
    } else {
        None
    }
}

/// The answer of a point query: its first object, if any.
pub open spec fn first_object(pods: Seq<Pod>) -> Option<PodObject> {
    first_object_from(pods, 0)
}

/// The `index` field of a point query's answer, when it is an object of `schema`.
pub open spec fn queried_index(pods: Seq<Pod>, schema: Schema) -> Option<i32> {
    match first_object(pods) {
        Some(o) => if o.schema == schema {
            int_of(o, "index"@)
        } else {
            None
        },
        None => None,
    }
}

/// An object of `schema` with the single field `index` holding `index`.
pub open spec fn is_index_object(o: PodObject, schema: Schema, index: i32) -> bool {
    &&& o.schema == schema
    &&& o.properties@.len() == 1
    &&& o.properties@[0].key@ == "index"@
    &&& o.properties@[0].value == Pod::Int(index)
}

/// The first field named `key` at or after position `i`.
pub open spec fn find_from(props: Seq<PodProperty>, key: Seq<char>, i: int) -> Option<Pod>
    decreases props.len() - i,
{
    if 0 <= i < props.len() {
        if props[i].key@ == key {
            Some(props[i].value)
        } else {
            find_from(props, key, i + 1)
        }
    } else {
        None
    }
}

/// The first field of `o` named `key`.
pub open spec fn find_field(o: PodObject, key: Seq<char>) -> Option<Pod> {
    find_from(o.properties@, key, 0)
}

/// A choice container unwrapped to its default; any other value as it is.
/// A choice with no entries yields nothing.
pub open spec fn unwrap_choice(p: Pod) -> Option<Pod> {
    match p {
        Pod::Choice(vs) => if vs@.len() > 0 {
            Some(vs@[0])
        } else {
            None
        },
        _ => Some(p),
    }
}

/// The value of the field `key` of `o`, with a choice unwrapped.
pub open spec fn value_of(o: PodObject, key: Seq<char>) -> Option<Pod> {
    match find_field(o, key) {
        Some(p) => unwrap_choice(p),
        None => None,
    }
}

/// `r` refers to the value that `s` holds, or both are empty.
pub open spec fn same_pod(r: Option<&Pod>, s: Option<Pod>) -> bool {
    match r {
        Some(p) => s == Some(*p),
        None => s is None,
    }
}

/// The field `key` of `o` read as an int.
pub open spec fn int_of(o: PodObject, key: Seq<char>) -> Option<i32> {
    match value_of(o, key) {
        Some(Pod::Int(n)) => Some(n),
        _ => None,
    }
}

/// The field `key` of `o` read as an id.
pub open spec fn id_of(o: PodObject, key: Seq<char>) -> Option<u32> {
    match value_of(o, key) {
        Some(Pod::Id(n)) => Some(n),
        _ => None,
    }
}

/// The field `key` of `o` read as a bool.
pub open spec fn bool_of(o: PodObject, key: Seq<char>) -> Option<bool> {
    match value_of(o, key) {
        Some(Pod::Bool(b)) => Some(b),
        _ => None,
    }
}

/// The field `key` of `o` read as a float.
pub open spec fn float_of(o: PodObject, key: Seq<char>) -> Option<u32> {
    match value_of(o, key) {
        Some(Pod::Float(v)) => Some(v),
        _ => None,
    }
}

/// The field `key` of `o` read as a string.
pub open spec fn string_of(o: PodObject, key: Seq<char>) -> Option<Seq<char>> {
    match value_of(o, key) {
        Some(Pod::Str(s)) => Some(s@),
        _ => None,
    }
}

pub open spec fn float_value(p: Pod) -> u32 {
    match p {
        Pod::Float(v) => v,
        _ => 0,
    }
}

pub open spec fn id_value(p: Pod) -> u32 {
    match p {
        Pod::Id(v) => v,
        _ => 0,
    }
}

pub open spec fn int_value(p: Pod) -> i32 {
    match p {
        Pod::Int(v) => v,
        _ => 0,
    }
}

/// The field `key` of `o` as an array of floats: every element must be a float.
pub open spec fn floats_of(o: PodObject, key: Seq<char>) -> Option<Seq<u32>> {
    match value_of(o, key) {
        Some(Pod::Array(items)) => if forall|i: int| 0 <= i < items@.len() ==> (#[trigger] items@[i]) is Float {
            Some(items@.map_values(|p: Pod| float_value(p)))
        } else {
            None
        },
        _ => None,
    }
}

/// The field `key` of `o` as an array of ids: every element must be an id.
pub open spec fn ids_of(o: PodObject, key: Seq<char>) -> Option<Seq<u32>> {
    match value_of(o, key) {
        Some(Pod::Array(items)) => if forall|i: int| 0 <= i < items@.len() ==> (#[trigger] items@[i]) is Id {
            Some(items@.map_values(|p: Pod| id_value(p)))
        } else {
            None
        },
        _ => None,
    }
}

/// The field `key` of `o` as an array of ints: every element must be an int.
pub open spec fn ints_of(o: PodObject, key: Seq<char>) -> Option<Seq<i32>> {
    match value_of(o, key) {
        Some(Pod::Array(items)) => if forall|i: int| 0 <= i < items@.len() ==> (#[trigger] items@[i]) is Int {
            Some(items@.map_values(|p: Pod| int_value(p)))
        } else {
            None
        },
        _ => None,
    }
}

/// The first object among the answers of a point query.
pub fn query_first_object(pods: &Vec<Pod>) -> (r: Option<&PodObject>)
    ensures
        r matches Some(o) ==> first_object(pods@) == Some(*o),
        r is None ==> first_object(pods@) is None,
{
    let mut i: usize = 0;
    while i < pods.len()
        invariant
            i <= pods@.len(),
            first_object_from(pods@, i as int) == first_object(pods@),
        decreases pods@.len() - i,
    {
        if let Pod::Object(o) = &pods[i] {
            return Some(o);
        }
        i = i + 1;
    }
    None
}

/// The `index` field of a point query's answer of `schema`.
pub fn query_index(pods: &Vec<Pod>, schema: Schema) -> (r: Option<i32>)
    ensures
        r == queried_index(pods@, schema),
{
    match query_first_object(pods) {
        Some(o) => if o.schema == schema {
            o.int_field("index")
        } else {
            None
        },
        None => None,
    }
}

/// An object of `schema` whose only field is `index`.
pub fn index_object(schema: Schema, index: i32) -> (r: PodObject)
    ensures
        is_index_object(r, schema, index),
{
    let mut o = PodObject::new(schema);
    o.add("index", Pod::Int(index));
    o
}

/// Unwraps a choice container to its default entry.
pub fn choice_default(p: &Pod) -> (r: Option<&Pod>)
    ensures
        same_pod(r, unwrap_choice(*p)),
{
    match p {
        Pod::Choice(vs) => if vs.len() > 0 {
            Some(&vs[0])
        } else {
            None
        },
        _ => Some(p),
    }
}

/// An array pod whose elements are the floats of `values`.
pub fn float_array(values: &Vec<u32>) -> (r: Pod)
    ensures
        r matches Pod::Array(items) && items@.len() == values@.len() && forall|i: int|
            0 <= i < values@.len() ==> #[trigger] items@[i] == Pod::Float(values@[i]),
{
    let mut items: Vec<Pod> = Vec::new();
    let mut i: usize = 0;
    while i < values.len()
        invariant
            i <= values@.len(),
            items@.len() == i,
            forall|j: int| 0 <= j < i ==> #[trigger] items@[j] == Pod::Float(values@[j]),
        decreases values@.len() - i,
    {
        items.push(Pod::Float(values[i]));
        i = i + 1;
    }
    Pod::Array(items)
}

/// An array pod whose elements are the ints of `values`.
pub fn int_array(values: &Vec<i32>) -> (r: Pod)
    ensures
        r matches Pod::Array(items) && items@.len() == values@.len() && forall|i: int|
            0 <= i < values@.len() ==> #[trigger] items@[i] == Pod::Int(values@[i]),
{
    let mut items: Vec<Pod> = Vec::new();
    let mut i: usize = 0;
    while i < values.len()
        invariant
            i <= values@.len(),
            items@.len() == i,
            forall|j: int| 0 <= j < i ==> #[trigger] items@[j] == Pod::Int(values@[j]),
        decreases values@.len() - i,
    {
        items.push(Pod::Int(values[i]));
        i = i + 1;
    }
    Pod::Array(items)
}

impl PodObject {
    /// An object of `schema` with no fields yet.
    pub fn new(schema: Schema) -> (r: PodObject)
        ensures
            r.schema == schema,
            r.properties@.len() == 0,
    {
        PodObject { schema, properties: Vec::new() }
    }

    /// Appends the field `key` with `value`.
    pub fn add(&mut self, key: &str, value: Pod)
        ensures
            final(self).schema == old(self).schema,
            final(self).properties@.len() == old(self).properties@.len() + 1,
            forall|i: int|
                0 <= i < old(self).properties@.len() ==> #[trigger] final(self).properties@[i]
                    == old(self).properties@[i],
            final(self).properties@.last().key@ == key@,
            final(self).properties@.last().value == value,
    {
        self.properties.push(PodProperty { key: key.to_owned(), value });
    }

    /// The first field named `key`, as it stands on the wire.
    pub fn find(&self, key: &str) -> (r: Option<&Pod>)
        ensures
            r matches Some(p) ==> find_field(*self, key@) == Some(*p),
            r is None ==> find_field(*self, key@) is None,
    {
        let n = self.properties.len();
        let mut i: usize = 0;
        while i < n
            invariant
                n == self.properties@.len(),
                i <= n,
                find_from(self.properties@, key@, i as int) == find_field(*self, key@),
            decreases n - i,
        {
            if str_eq(self.properties[i].key.as_str(), key) {
                return Some(&self.properties[i].value);
            }
            i = i + 1;
        }
        None
    }

    /// The value of the field `key`, with a choice unwrapped.
    pub fn value(&self, key: &str) -> (r: Option<&Pod>)
        ensures
            same_pod(r, value_of(*self, key@)),
    {
        match self.find(key) {
            Some(p) => choice_default(p),
            None => None,
        }
    }

    /// The field `key` read as an int; absent when missing or of another type.
    pub fn int_field(&self, key: &str) -> (r: Option<i32>)
        ensures
            r == int_of(*self, key@),
    {
        match self.value(key) {
            Some(Pod::Int(n)) => Some(*n),
            _ => None,
        }
    }

    /// The field `key` read as an id; absent when missing or of another type.
    pub fn id_field(&self, key: &str) -> (r: Option<u32>)
        ensures
            r == id_of(*self, key@),
    {
        match self.value(key) {
            Some(Pod::Id(n)) => Some(*n),
            _ => None,
        }
    }

    /// The field `key` read as a bool; absent when missing or of another type.
    pub fn bool_field(&self, key: &str) -> (r: Option<bool>)
        ensures
            r == bool_of(*self, key@),
    {
        match self.value(key) {
            Some(Pod::Bool(b)) => Some(*b),
            _ => None,
        }
    }

    /// The field `key` read as a float; absent when missing or of another type.
    pub fn float_field(&self, key: &str) -> (r: Option<u32>)
        ensures
            r == float_of(*self, key@),
    {
        match self.value(key) {
            Some(Pod::Float(v)) => Some(*v),
            _ => None,
        }
    }

    /// The field `key` read as a string; absent when missing or of another type.
    pub fn string_field(&self, key: &str) -> (r: Option<String>)
        ensures
            r matches Some(s) ==> string_of(*self, key@) == Some(s@),
            r is None ==> string_of(*self, key@) is None,
    {
        match self.value(key) {
            Some(Pod::Str(s)) => Some(s.clone()),
            _ => None,
        }
    }

    /// The field `key` read as an array of floats.
    pub fn float_array_field(&self, key: &str) -> (r: Option<Vec<u32>>)
        ensures
            r matches Some(v) ==> floats_of(*self, key@) == Some(v@),
            r is None ==> floats_of(*self, key@) is None,
    {
        match self.value(key) {
            Some(Pod::Array(items)) => {
                let mut out: Vec<u32> = Vec::new();
                let mut i: usize = 0;
                while i < items.len()
                    invariant
                        value_of(*self, key@) == Some(Pod::Array(*items)),
                        i <= items@.len(),
                        out@ =~= items@.subrange(0, i as int).map_values(|p: Pod| float_value(p)),
                        forall|j: int| 0 <= j < i ==> (#[trigger] items@[j]) is Float,
                    decreases items@.len() - i,
                {
                    match &items[i] {
                        Pod::Float(v) => out.push(*v),
                        _ => {
                            assert(!(items@[i as int] is Float));
                            return None;
                        },
                    }
                    i = i + 1;
                }
                assert(items@.subrange(0, items@.len() as int) =~= items@);
                Some(out)
            },
            _ => None,
        }
    }

    /// The field `key` read as an array of ids.
    pub fn id_array_field(&self, key: &str) -> (r: Option<Vec<u32>>)
        ensures
            r matches Some(v) ==> ids_of(*self, key@) == Some(v@),
            r is None ==> ids_of(*self, key@) is None,
    {
        match self.value(key) {
            Some(Pod::Array(items)) => {
                let mut out: Vec<u32> = Vec::new();
                let mut i: usize = 0;
                while i < items.len()
                    invariant
                        value_of(*self, key@) == Some(Pod::Array(*items)),
                        i <= items@.len(),
                        out@ =~= items@.subrange(0, i as int).map_values(|p: Pod| id_value(p)),
                        forall|j: int| 0 <= j < i ==> (#[trigger] items@[j]) is Id,
                    decreases items@.len() - i,
                {
                    match &items[i] {
                        Pod::Id(v) => out.push(*v),
                        _ => {
                            assert(!(items@[i as int] is Id));
                            return None;
                        },
                    }
                    i = i + 1;
                }
                assert(items@.subrange(0, items@.len() as int) =~= items@);
                Some(out)
            },
            _ => None,
        }
    }

    /// The field `key` read as an array of ints.
    pub fn int_array_field(&self, key: &str) -> (r: Option<Vec<i32>>)
        ensures
            r matches Some(v) ==> ints_of(*self, key@) == Some(v@),
            r is None ==> ints_of(*self, key@) is None,
    {
        match self.value(key) {
            Some(Pod::Array(items)) => {
                let mut out: Vec<i32> = Vec::new();
                let mut i: usize = 0;
                while i < items.len()
                    invariant
                        value_of(*self, key@) == Some(Pod::Array(*items)),
                        i <= items@.len(),
                        out@ =~= items@.subrange(0, i as int).map_values(|p: Pod| int_value(p)),
                        forall|j: int| 0 <= j < i ==> (#[trigger] items@[j]) is Int,
                    decreases items@.len() - i,
                {
                    match &items[i] {
                        Pod::Int(v) => out.push(*v),
                        _ => {
                            assert(!(items@[i as int] is Int));
                            return None;
                        },
                    }
                    i = i + 1;
                }
                assert(items@.subrange(0, items@.len() as int) =~= items@);
                Some(out)
            },
            _ => None,
        }
    }
}

/// A field that an object does not carry decodes to nothing, whatever type
/// it is read as.
pub proof fn lemma_missing_field_is_absent(o: PodObject, key: Seq<char>)
    requires
        find_field(o, key) is None,
    ensures
        value_of(o, key) is None,
        int_of(o, key) is None,
        id_of(o, key) is None,
        bool_of(o, key) is None,
        float_of(o, key) is None,
        string_of(o, key) is None,
        floats_of(o, key) is None,
        ids_of(o, key) is None,
        ints_of(o, key) is None,
{
}

/// Decoding the index object that `index_object` builds, alone in a point
/// query's answer, gives back the index it was built with.
pub proof fn lemma_index_round_trip(o: PodObject, schema: Schema, index: i32)
    requires
        is_index_object(o, schema, index),
    ensures
        int_of(o, "index"@) == Some(index),
        queried_index(seq![Pod::Object(o)], schema) == Some(index),
{
    assert(find_from(o.properties@, "index"@, 0) == Some(Pod::Int(index)));
    assert(first_object_from(seq![Pod::Object(o)], 0) == Some(o));
}

} // verus!
