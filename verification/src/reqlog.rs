//! Framing for the request log.
//!
//! The logger backend persists one line per issued request: a JSON object
//! carrying the issue timestamp, the invocation id and the workload request
//! itself.  The writer that the line goes to lives outside; the line's bytes
//! are built and pinned down here.

use vstd::prelude::*;

use crate::json::{
    empty_model, json_string_text, obj_insert, obj_model, obj_new, obj_text, obj_to_string,
    val_object, val_string, val_u64,
};
use crate::source::error::SourceError;
use crate::source::invoc::dec_text;
use crate::wreq::WorkloadRequest;

verus! {

/// The contents of one request-log line.
pub open spec fn logged_request_model(
    epoch_us: u64,
    invocation_id: Seq<char>,
    wreq: WorkloadRequest,
) -> Map<Seq<char>, Seq<char>> {
    empty_model().insert("epoch_us"@, dec_text(epoch_us)).insert(
        "invocation_id"@,
        json_string_text(invocation_id),
    ).insert("wreq"@, obj_text(wreq.wire_model()))
}

/// One request-log line: the issue timestamp in microseconds since the epoch,
/// the invocation id, and the workload request (the writer appends the
/// newline).
pub fn logged_request_line(epoch_us: u64, invocation_id: &str, wreq: &WorkloadRequest) -> (r:
    Result<String, SourceError>)
    ensures
        r is Ok,
        r is Ok ==> r->Ok_0@ == obj_text(logged_request_model(epoch_us, invocation_id@, *wreq)),
{
    let mut m = obj_new();
    obj_insert(&mut m, "epoch_us", val_u64(epoch_us));
    obj_insert(&mut m, "invocation_id", val_string(invocation_id));
    obj_insert(&mut m, "wreq", val_object(wreq.to_json_obj()));
    proof {
        assert(obj_model(m) =~= logged_request_model(epoch_us, invocation_id@, *wreq));
    }
    match obj_to_string(&m) {
        Ok(s) => Ok(s),
        Err(e) => Err(SourceError::JsonSerialization(e)),
    }
}

} // verus!
