//! A node's default target: where the metadata store keeps it, and how it
//! is looked up.

use vstd::prelude::*;

verus! {

/// A place to look for a node's default target.
pub enum TargetLookup {
    /// The node whose object serial is the given one.
    BySerial(String),
    /// The node whose bound id is the given one.
    ByBoundId(String),
}

pub enum TargetLookupView {
    BySerial(Seq<char>),
    ByBoundId(Seq<char>),
}

impl View for TargetLookup {
    type V = TargetLookupView;

    open spec fn view(&self) -> TargetLookupView {
        match self {
            TargetLookup::BySerial(s) => TargetLookupView::BySerial(s@),
            TargetLookup::ByBoundId(s) => TargetLookupView::ByBoundId(s@),
        }
    }
}

/// The lookups for a default target, in priority order, from the stored
/// "target.object" (a serial) and "target.node" (a bound id). A key that is
/// absent, or holds "-1", gives no lookup.
pub open spec fn target_lookups(target_object: Option<Seq<char>>, target_node: Option<Seq<char>>) -> Seq<TargetLookupView> {
    let by_serial = match target_object {
        Some(v) => if v != "-1"@ {
            seq![TargetLookupView::BySerial(v)]
        } else {
            Seq::empty()
        },
        None => Seq::empty(),
    };
    let by_id = match target_node {
        Some(v) => if v != "-1"@ {
            seq![TargetLookupView::ByBoundId(v)]
        } else {
            Seq::empty()
        },
        None => Seq::empty(),
    };
    by_serial + by_id
}

/// A write to the metadata store.
pub struct MetadataWrite {
    pub subject: u32,
    pub key: String,
    pub value_type: String,
    pub value: String,
}

pub open spec fn is_metadata_write(w: MetadataWrite, subject: u32, key: Seq<char>, value: Seq<char>) -> bool {
    &&& w.subject == subject
    &&& w.key@ == key
    &&& w.value_type@ == "Spa:Id"@
    &&& w.value@ == value
}

/// The pair of writes that store `node` and `object` as the default target of `subject`.
pub open spec fn is_target_pair(ws: Seq<MetadataWrite>, subject: u32, node: Seq<char>, object: Seq<char>) -> bool {
    &&& ws.len() == 2
    &&& is_metadata_write(ws[0], subject, "target.node"@, node)
    &&& is_metadata_write(ws[1], subject, "target.object"@, object)
}

pub(crate) fn metadata_write(subject: u32, key: &str, value: String) -> (r: MetadataWrite)
    ensures
        is_metadata_write(r, subject, key@, value@),
{
    MetadataWrite { subject, key: key.to_owned(), value_type: "Spa:Id".to_owned(), value }
}

} // verus!
