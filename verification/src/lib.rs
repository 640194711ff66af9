//! Construction of a fixed sample message record.
//!
//! The record mirrors an externally defined serialization schema: a name, an
//! ordered list of tags, optional time and duration stamps, a list of nested
//! sub-records and an optional nested sub-record. The schema carries the
//! sub-record's measurement as a 32-bit float; here it is held as the IEEE 754
//! bit pattern of that float, so callers that need the float itself convert
//! with `f32::from_bits` on their side.

use vstd::prelude::*;

verus! {

/// Bit pattern of the 32-bit float 3.4, the measurement of the one entry in
/// `subs`.
pub const SUB_VALUE_BITS: u32 = 0x4059_999A;

/// Bit pattern of the 32-bit float 0.0, the measurement of the `meta`
/// sub-record.
pub const META_VALUE_BITS: u32 = 0;

/// A nested sub-record: a boolean flag and a 32-bit float measurement, held
/// as its bit pattern.
#[derive(Clone, Copy, Debug, PartialEq, Eq, Structural)]
pub struct SubMessage {
    pub flag: bool,
    pub value_bits: u32,
}

/// A point in time, as the schema carries it: seconds and nanoseconds.
#[derive(Clone, Copy, Debug, PartialEq, Eq, Structural)]
pub struct Timestamp {
    pub seconds: i64,
    pub nanos: i32,
}

/// A span of time, as the schema carries it: seconds and nanoseconds.
#[derive(Clone, Copy, Debug, PartialEq, Eq, Structural)]
pub struct Duration {
    pub seconds: i64,
    pub nanos: i32,
}

/// The message record: built in one step from literal values and never
/// mutated afterwards.
#[derive(Debug, PartialEq)]
pub struct SampleMessage {
    pub name: String,
    pub time: Option<Timestamp>,
    pub duration: Option<Duration>,
    pub tags: Vec<String>,
    pub subs: Vec<SubMessage>,
    pub meta: Option<SubMessage>,
}

/// The one record this library builds: name "Rust", tags ["rust", "proto"] in
/// order, no time and no duration, a single sub-record with the flag set and
/// measurement 3.4, and a `meta` sub-record with the flag clear and
/// measurement 0.0.
pub open spec fn is_sample_message(m: SampleMessage) -> bool {
    &&& m.name@ == "Rust"@
    &&& m.time is None
    &&& m.duration is None
    &&& m.tags@.len() == 2
    &&& m.tags@[0]@ == "rust"@
    &&& m.tags@[1]@ == "proto"@
    &&& m.subs@ == seq![SubMessage { flag: true, value_bits: SUB_VALUE_BITS }]
    &&& m.meta == Some(SubMessage { flag: false, value_bits: META_VALUE_BITS })
}

/// Builds the sample message record. Always succeeds, takes no input, and
/// returns the same record on every call.
pub fn get_proto() -> (m: SampleMessage)
    ensures
        is_sample_message(m),
{
    let mut tags: Vec<String> = Vec::new();
    tags.push("rust".to_owned());
    tags.push("proto".to_owned());
    let mut subs: Vec<SubMessage> = Vec::new();
    subs.push(SubMessage { flag: true, value_bits: SUB_VALUE_BITS });
    proof {
        assert(subs@ =~= seq![SubMessage { flag: true, value_bits: SUB_VALUE_BITS }]);
    }
    SampleMessage {
        name: "Rust".to_owned(),
        time: None,
        duration: None,
        tags,
        subs,
        meta: Some(SubMessage { flag: false, value_bits: META_VALUE_BITS }),
    }
}

/// Determinism: any two records that `get_proto` can return are
/// field-for-field equal.
pub proof fn lemma_get_proto_deterministic(m1: SampleMessage, m2: SampleMessage)
    requires
        is_sample_message(m1),
        is_sample_message(m2),
    ensures
        m1.name@ == m2.name@,
        m1.time == m2.time,
        m1.duration == m2.duration,
        m1.tags@.len() == m2.tags@.len(),
        forall|i: int| 0 <= i < m1.tags@.len() ==> #[trigger] m1.tags@[i]@ == m2.tags@[i]@,
        m1.subs@ == m2.subs@,
        m1.meta == m2.meta,
{
}

} // verus!
