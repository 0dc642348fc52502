use vstd::prelude::*;
use crate::model::{Component, ErrorKind, PilotRecord, PipelineError};

verus! {

/// An HTTP status in the success class.
pub open spec fn is_success(status: u16) -> bool {
    200 <= status <= 299
}

/// How one remote call ended: no completed exchange, or a status and, where
/// the body could be decoded into the expected schema, the decoded value.
pub open spec fn reply_outcome<T>(status: Option<u16>, decoded: Option<T>) -> Result<T, ErrorKind> {
    match status {
        None => Err(ErrorKind::Fetch),
        Some(s) => if !is_success(s) {
            Err(ErrorKind::Fetch)
        } else {
            match decoded {
                Some(v) => Ok(v),
                None => Err(ErrorKind::Parse),
            }
        },
    }
}

/// Classifies a reply: a failed exchange or a non-success status is a fetch
/// error, an undecodable body after a success is a parse error.
pub fn classify_reply<T>(status: Option<u16>, decoded: Option<T>) -> (r: Result<T, ErrorKind>)
    ensures
        r == reply_outcome(status, decoded),
{
    match status {
        None => Err(ErrorKind::Fetch),
        Some(s) => if s < 200 || s > 299 {
            Err(ErrorKind::Fetch)
        } else {
            match decoded {
                Some(v) => Ok(v),
                None => Err(ErrorKind::Parse),
            }
        },
    }
}

/// The lookup address of one serial number: the directory's base address
/// with the serial number appended to its path.
pub fn pilot_url(base: &str, serial_number: &str) -> (r: String)
    ensures
        r@ == base@ + serial_number@,
{
    let mut url = String::from_str(base);
    url.append(serial_number);
    url
}

/// One entry of the result set: a violator's serial number and what its
/// lookup gave.
#[derive(Debug)]
pub struct PilotEntry {
    pub serial_number: String,
    pub result: Result<PilotRecord, PipelineError>,
}

/// The entry owed to serial number `id` whose lookup ended in `outcome`:
/// the record, or the error tagged with the resolver and the serial number.
pub open spec fn entry_for(id: String, outcome: Result<PilotRecord, ErrorKind>, e: PilotEntry) -> bool {
    &&& e.serial_number == id
    &&& match outcome {
        Ok(p) => e.result == Ok::<PilotRecord, PipelineError>(p),
        Err(k) => e.result matches Err(err) && err.component == Component::PilotResolver
            && err.kind == k && err.serial_number == Some(id),
    }
}

/// Pairs each violator with the outcome of its own lookup. Lookups are
/// independent: a failed one is recorded in its entry and the others still
/// stand (best effort). `outcomes[i]` belongs to `ids[i]`, whatever order the
/// lookups completed in.
pub fn resolve_pilots(ids: &Vec<String>, outcomes: Vec<Result<PilotRecord, ErrorKind>>) -> (r: Vec<PilotEntry>)
    requires
        outcomes@.len() == ids@.len(),
    ensures
        r@.len() == ids@.len(),
        forall|i: int| 0 <= i < ids@.len() ==> entry_for(ids@[i], outcomes@[i], #[trigger] r@[i]),
{
    let mut rest = outcomes;
    let mut entries: Vec<PilotEntry> = Vec::new();
    let mut i: usize = 0;
    while i < ids.len()
        invariant
            i <= ids@.len(),
            outcomes@.len() == ids@.len(),
            entries@.len() == i,
            rest@ == outcomes@.subrange(i as int, outcomes@.len() as int),
            forall|j: int| 0 <= j < i ==> entry_for(ids@[j], outcomes@[j], #[trigger] entries@[j]),
        decreases ids@.len() - i,
    {
        let outcome = rest.remove(0);
        let id = ids[i].clone();
        let result = match outcome {
            Ok(p) => Ok(p),
            Err(k) => Err(PipelineError {
                component: Component::PilotResolver,
                kind: k,
                serial_number: Some(ids[i].clone()),
            }),
        };
        entries.push(PilotEntry { serial_number: id, result });
        i = i + 1;
    }
    entries
}

} // verus!
