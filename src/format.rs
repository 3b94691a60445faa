//! A node's audio format: decoding it from a "Format" enumeration, and its
//! display form.

use vstd::prelude::*;
use crate::pod::{
    find_field, first_object, id_of, ids_of, int_of, lemma_missing_field_is_absent,
    query_first_object, Pod, PodObject, Schema,
};
use crate::text::decimal;

verus! {

/// A node's audio format. Positions past the channel map are zero.
#[derive(Clone, Copy, Debug)]
pub struct AudioFormat {
    pub channels: i32,
    pub format: u32,
    pub rate: i32,
    pub positions: [u32; 64],
}

/// What a "Format" object gives.
pub struct FormatInfo {
    pub channels: i32,
    pub format: u32,
    pub rate: i32,
    pub positions: Seq<u32>,
}

/// The format named by the first object of a "Format" enumeration. The
/// format id, the channel count, the rate and the position array are all
/// required: a missing one leaves the format absent. A format id of 0 means
/// that no format is set yet: then there is nothing to take either.
pub open spec fn decoded_format(pods: Seq<Pod>) -> Option<FormatInfo> {
    match first_object(pods) {
        Some(o) => if o.schema == Schema::Format {
            match (
                id_of(o, "format"@),
                int_of(o, "channels"@),
                int_of(o, "rate"@),
                ids_of(o, "position"@),
            ) {
                (Some(f), Some(channels), Some(rate), Some(ps)) => if f != 0 {
                    Some(FormatInfo { channels, format: f, rate, positions: ps })
                } else {
                    None
                },
                _ => None,
            }
        } else {
            None
        },
        None => None,
    }
}

/// `f` holds `info`, its positions cut or padded with zeros to 64 slots.
pub open spec fn format_holds(f: AudioFormat, info: FormatInfo) -> bool {
    &&& f.channels == info.channels
    &&& f.format == info.format
    &&& f.rate == info.rate
    &&& forall|i: int|
        0 <= i < 64 ==> #[trigger] f.positions@[i] == (if i < info.positions.len() {
            info.positions[i]
        } else {
            0
        })
}

/// The display form of a format: "<channels>ch <rate>Hz <name>".
pub open spec fn format_label(channels: i32, rate: i32, name: Seq<char>) -> Seq<char> {
    decimal(channels as int) + "ch "@ + decimal(rate as int) + "Hz "@ + name
}

/// The number of channel slots a channel count gives: at most 64, at least 0.
pub open spec fn channel_slots(channels: i32) -> nat {
    if channels <= 0 {
        0
    } else if channels > 64 {
        64
    } else {
        channels as nat
    }
}

/// The channel volumes cut or extended to `n`; new channels take `fill`.
pub open spec fn resized(cv: Seq<u32>, n: nat, fill: u32) -> Seq<u32> {
    Seq::new(n, |i: int| if i < cv.len() { cv[i] } else { fill })
}

/// A "Format" answer whose first object lacks the format id, the channel
/// count, the rate or the positions decodes to no format.
pub proof fn lemma_format_missing_field(pods: Seq<Pod>, o: PodObject)
    requires
        first_object(pods) == Some(o),
        find_field(o, "format"@) is None || find_field(o, "channels"@) is None || find_field(
            o,
            "rate"@,
        ) is None || find_field(o, "position"@) is None,
    ensures
        decoded_format(pods) is None,
{
    if find_field(o, "format"@) is None {
        lemma_missing_field_is_absent(o, "format"@);
    } else if find_field(o, "channels"@) is None {
        lemma_missing_field_is_absent(o, "channels"@);
    } else if find_field(o, "rate"@) is None {
        lemma_missing_field_is_absent(o, "rate"@);
    } else {
        lemma_missing_field_is_absent(o, "position"@);
    }
}

/// Decodes the format that a "Format" enumeration reports.
pub fn decode_format(pods: &Vec<Pod>) -> (r: Option<AudioFormat>)
    ensures
        r matches Some(f) ==> decoded_format(pods@) matches Some(info) && format_holds(f, info),
        r is None ==> decoded_format(pods@) is None,
{
    let o = match query_first_object(pods) {
        Some(o) => o,
        None => return None,
    };
    if o.schema != Schema::Format {
        return None;
    }
    let format = match o.id_field("format") {
        Some(f) => f,
        None => return None,
    };
    let ps = match o.id_array_field("position") {
        Some(ps) => ps,
        None => return None,
    };
    if format == 0 {
        return None;
    }
    let channels = match o.int_field("channels") {
        Some(c) => c,
        None => return None,
    };
    let rate = match o.int_field("rate") {
        Some(r) => r,
        None => return None,
    };
    let mut positions: [u32; 64] = [0u32; 64];
    let mut i: usize = 0;
    while i < 64
        invariant
            i <= 64,
            forall|k: int|
                0 <= k < 64 ==> #[trigger] positions@[k] == (if k < i && k < ps@.len() {
                    ps@[k]
                } else {
                    0
                }),
        decreases 64 - i,
    {
        if i < ps.len() {
            positions[i] = ps[i];
        }
        i = i + 1;
    }
    Some(AudioFormat { channels, format, rate, positions })
}

} // verus!
