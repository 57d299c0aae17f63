//! Client-side bookkeeping: building the per-function workers, tallying the
//! joins, deciding what a shutdown signal means, and framing invocation-log
//! lines.
//!
//! The client's task plumbing — spawning, the broadcast channel, the join
//! multiplexing — lives outside; what stands here is every decision that
//! plumbing carries out.

use vstd::prelude::*;

use crate::json::{
    empty_model, json_string_text, obj_insert, obj_model, obj_new, obj_text, obj_to_string,
    parse_obj, val_string,
};
use crate::rng::{chacha_from_entropy, chacha_from_seed, chacha_next_u64};
use crate::source::error::SourceError;
use crate::source::iat::IatGenerator;
use crate::source::minuterange::MinuteRange;
use crate::source::worker::{built_from, mapped_payload_ok, mapped_wreq_ok, FunctionWorker, WorkerError};
use crate::source::FunctionRow;

verus! {

/// The seed used when the caller asks for a fixed one by passing zero.
pub const DEFAULT_FIXED_SEED: u64 = 0x0f0f_0f0f_0f0f_0f0f;

/// A row can become a worker: its workload request parses and its payload is
/// a JSON object.
pub open spec fn row_ok(row: FunctionRow) -> bool {
    mapped_wreq_ok(row.mapped_wreq@) && mapped_payload_ok(row.mapped_wreq@)
}

/// Copy a schedule.
fn clone_rpm(v: &Vec<u32>) -> (r: Vec<u32>)
    ensures
        r@ == v@,
{
    let r = v.clone();
    proof {
        assert(r@ =~= v@);
    }
    r
}

/// Build one worker per row, in row order: the master generator is seeded
/// from the caller's choice (zero means the fixed default, absent means
/// system entropy, whose failure is returned) and hands each worker its own
/// 64-bit seed.  The first row whose request cannot be parsed or fixed fails
/// the whole construction.
pub fn build_workers<G: IatGenerator + Copy>(
    rows: &Vec<FunctionRow>,
    seed: Option<u64>,
    iat_gen: G,
    minute_range: MinuteRange,
    minio_address: &str,
    bucket_name: &str,
) -> (r: Result<Vec<FunctionWorker<G>>, SourceError>)
    requires
        minute_range.wf(),
    ensures
        r is Ok ==> (forall|i: int| 0 <= i < rows@.len() ==> row_ok(#[trigger] rows@[i])),
        seed is Some ==> ((r is Ok) <==> (forall|i: int|
            0 <= i < rows@.len() ==> row_ok(#[trigger] rows@[i]))),
        r is Err ==> ((r->Err_0 is Worker && !(forall|i: int|
            0 <= i < rows@.len() ==> row_ok(#[trigger] rows@[i]))) || (r->Err_0 is Entropy
            && seed is None)),
        r is Ok ==> ({
            let ws = r->Ok_0@;
            &&& ws.len() == rows@.len()
            &&& forall|i: int|
                0 <= i < ws.len() ==> built_from(
                    #[trigger] ws[i],
                    rows@[i],
                    minute_range,
                    minio_address@,
                    bucket_name@,
                ) && ws[i].iat_gen == iat_gen
        }),
{
    let mut rng = match seed {
        Some(s) => if s == 0 {
            chacha_from_seed(DEFAULT_FIXED_SEED)
        } else {
            chacha_from_seed(s)
        },
        None => match chacha_from_entropy() {
            Ok(rng) => rng,
            Err(e) => {
                return Err(SourceError::Entropy(e));
            },
        },
    };
    let mut workers: Vec<FunctionWorker<G>> = Vec::new();
    let n = rows.len();
    let mut i: usize = 0;
    while i < n
        invariant
            i <= n == rows@.len(),
            minute_range.wf(),
            workers@.len() == i,
            forall|j: int| 0 <= j < i ==> row_ok(#[trigger] rows@[j]),
            forall|j: int|
                0 <= j < i ==> built_from(
                    #[trigger] workers@[j],
                    rows@[j],
                    minute_range,
                    minio_address@,
                    bucket_name@,
                ) && workers@[j].iat_gen == iat_gen,
        decreases n - i,
    {
        let row = FunctionRow {
            pavg_bits: rows[i].pavg_bits,
            mapped_wreq: rows[i].mapped_wreq.clone(),
            rpm: clone_rpm(&rows[i].rpm),
        };
        let worker_seed = chacha_next_u64(&mut rng);
        match FunctionWorker::new(
            row,
            worker_seed,
            iat_gen,
            minute_range,
            minio_address,
            bucket_name,
        ) {
            Ok(w) => {
                workers.push(w);
            },
            Err(e) => {
                proof {
                    assert(!row_ok(rows@[i as int]));
                }
                return Err(SourceError::Worker(e));
            },
        }
        i = i + 1;
    }
    Ok(workers)
}

/// The outcome of joining one worker task.
pub enum JoinOutcome {
    /// The worker ran to its end and issued this many requests.
    Success { requests: u64 },
    /// The worker ended with an error; it contributes no count.
    Failed,
    /// The worker was aborted; it contributes no count.
    Cancelled,
}

/// What the client does after an external shutdown signal.
pub enum QuitAction {
    /// The rebroadcast reached every live worker: keep joining them.
    ContinueJoining,
    /// Some worker is already gone (or the channel is closed): force-abort
    /// the stragglers.
    AbortAll,
}

/// Decide how to react to an external shutdown signal: the shutdown was
/// rebroadcast, reaching `subscribers` workers out of `expected` live ones;
/// anything short of all of them means stragglers must be aborted.
pub fn on_quit_signal(send_ok: bool, subscribers: usize, expected: usize) -> (r: QuitAction)
    ensures
        (r is ContinueJoining) <==> (send_ok && subscribers == expected),
{
    if send_ok && subscribers == expected {
        QuitAction::ContinueJoining
    } else {
        QuitAction::AbortAll
    }
}

/// The client's running account of its workers' results.
pub struct RunTally {
    /// Requests issued by all workers joined so far.
    pub num_requests: u64,
}

impl RunTally {
    pub fn new() -> (r: RunTally)
        ensures
            r.num_requests == 0,
    {
        RunTally { num_requests: 0 }
    }

    /// Account one joined worker: only a successful join contributes its
    /// request count.
    pub fn on_worker_join(&mut self, outcome: JoinOutcome)
        requires
            outcome is Success ==> old(self).num_requests + outcome->requests <= u64::MAX,
        ensures
            final(self).num_requests == old(self).num_requests + (if outcome is Success {
                outcome->requests as int
            } else {
                0
            }),
    {
        match outcome {
            JoinOutcome::Success { requests } => {
                self.num_requests = self.num_requests + requests;
            },
            JoinOutcome::Failed => (),
            JoinOutcome::Cancelled => (),
        }
    }
}

/// One invocation-log line: a JSON object whose single member maps the
/// invocation id to the function id (the writer appends the newline).
pub fn invocation_log_line(invocation_id: &str, function_id: &str) -> (r: Result<
    String,
    SourceError,
>)
    ensures
        r is Ok,
        r is Ok ==> r->Ok_0@ == obj_text(
            empty_model().insert(invocation_id@, json_string_text(function_id@)),
        ),
        r is Ok ==> parse_obj(r->Ok_0@) == Some(
            empty_model().insert(invocation_id@, json_string_text(function_id@)),
        ),
{
    let mut m = obj_new();
    obj_insert(&mut m, invocation_id, val_string(function_id));
    proof {
        assert(obj_model(m) =~= empty_model().insert(
            invocation_id@,
            json_string_text(function_id@),
        ));
    }
    match obj_to_string(&m) {
        Ok(s) => Ok(s),
        Err(e) => Err(SourceError::JsonSerialization(e)),
    }
}

} // verus!
