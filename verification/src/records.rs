//! The persisted shape of committed events: each event is wrapped in a
//! record carrying the aggregate's type and id, a sequence number, the
//! event's type tag and protocol version. Sequence numbers continue from the
//! aggregate's last committed sequence, so a whole stream counts 1, 2, 3, …
//! without gaps.

use vstd::prelude::*;

use crate::protocol::{spec_event_type, spec_event_version, BankAccountEvent};

verus! {

/// One committed event as the durable store keeps it.
#[derive(Debug)]
pub struct EventRecord {
    /// The constant aggregate type tag, `"account"`.
    pub aggregate_type: String,
    /// The id of the aggregate instance.
    pub aggregate_id: String,
    /// The position of this event in the aggregate's stream, starting at 1.
    pub sequence: usize,
    /// The stable type tag of the payload.
    pub event_type: String,
    /// The protocol version the payload was written under.
    pub event_version: String,
    /// The fact itself.
    pub payload: BankAccountEvent,
    /// An opaque bag of auditing data — correlation identifiers and the
    /// receipt timestamp — filled by the caller and carried unread.
    pub metadata: String,
}

/// A record is well-formed for an aggregate id when it carries the constant
/// aggregate type, that id, and the tags its payload prescribes.
pub open spec fn record_wf(r: EventRecord, aggregate_id: Seq<char>) -> bool {
    &&& r.aggregate_type@ == "account"@
    &&& r.aggregate_id@ == aggregate_id
    &&& r.event_type@ == spec_event_type(r.payload)
    &&& r.event_version@ == spec_event_version()
}

/// The records carry the sequence numbers base+1, base+2, … in order.
pub open spec fn sequences_contiguous_from(rs: Seq<EventRecord>, base: int) -> bool {
    forall|i: int| 0 <= i < rs.len() ==> #[trigger] rs[i].sequence == base + 1 + i
}

/// Wraps the events one command produced with the metadata the store
/// persists, numbering them consecutively after the aggregate's last
/// committed sequence. The same metadata bag is stamped on every record of
/// the batch.
pub fn wrap_events(
    aggregate_id: &str,
    last_sequence: usize,
    events: Vec<BankAccountEvent>,
    metadata: &str,
) -> (r: Vec<EventRecord>)
    requires
        last_sequence + events@.len() <= usize::MAX,
    ensures
        r@.len() == events@.len(),
        sequences_contiguous_from(r@, last_sequence as int),
        forall|i: int| 0 <= i < r@.len() ==> record_wf(#[trigger] r@[i], aggregate_id@),
        forall|i: int| 0 <= i < r@.len() ==> #[trigger] r@[i].payload == events@[i],
        forall|i: int| 0 <= i < r@.len() ==> #[trigger] r@[i].metadata@ == metadata@,
{
    let mut records: Vec<EventRecord> = Vec::new();
    let mut i: usize = 0;
    while i < events.len()
        invariant
            i <= events@.len(),
            last_sequence + events@.len() <= usize::MAX,
            records@.len() == i,
            forall|j: int| 0 <= j < i ==> record_wf(#[trigger] records@[j], aggregate_id@),
            forall|j: int| 0 <= j < i ==> #[trigger] records@[j].sequence == last_sequence + 1 + j,
            forall|j: int| 0 <= j < i ==> #[trigger] records@[j].payload == events@[j],
            forall|j: int| 0 <= j < i ==> #[trigger] records@[j].metadata@ == metadata@,
        decreases events@.len() - i,
    {
        let payload = events[i].clone();
        let event_type = payload.event_type();
        let event_version = payload.event_version();
        records.push(
            EventRecord {
                aggregate_type: "account".to_owned(),
                aggregate_id: aggregate_id.to_owned(),
                sequence: last_sequence + 1 + i,
                event_type,
                event_version,
                payload,
                metadata: metadata.to_owned(),
            },
        );
        i = i + 1;
    }
    records
}

} // verus!
