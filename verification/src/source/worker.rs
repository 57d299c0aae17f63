//! The per-function worker.
//!
//! One worker replays one function's RPM schedule, minute by minute.  This
//! type is the worker's decision core: it parses and fixes the workload
//! request once at construction, walks the schedule under the minute range,
//! hands out the sleep for each IAT, and accounts for issued requests.  The
//! cooperative scheduling around it — the start gate, the minute barrier, the
//! minute timer and the biased race against shutdown — drives it from outside
//! through these methods:
//!
//! 1. `kick` releases a freshly built worker.
//! 2. `next_minute` walks the schedule: minutes before the range are skipped
//!    without arriving at the barrier, the first minute past the range or
//!    past the schedule finishes the worker, and any other minute is arrived
//!    at.
//! 3. `supply_iats` turns the minute's RPM into the minute's IATs.
//! 4. Inside a minute, `next_sleep_us` gives each successive sleep (a full
//!    minute once the IATs are exhausted), `on_issue` counts one issued
//!    request, and `on_minute_elapsed` closes the minute.
//! 5. `on_quit` ends the worker at any point, yielding its request count.

use vstd::prelude::*;

use crate::fixer::{fix_fbpml_payload, fixed_model, FixerError};
use crate::json::{json_string_content, obj_text, parse_obj, val_text};
use crate::rng::{xoshiro_clone, xoshiro_from_seed};
use crate::source::iat::{sum_us, IatError, IatGenerator};
use crate::source::minuterange::MinuteRange;
use crate::source::FunctionRow;
use crate::wreq::{bench_key, mean_key, payload_key, stdev_key, wire_shape_ok, WorkloadRequest, WreqError};
use crate::MICROSECONDS_PER_MINUTE;

verus! {

/// What terminates a worker abnormally.
#[allow(inconsistent_fields)]
#[derive(Debug)]
pub enum WorkerError {
    /// The row's workload request could not be read.
    Deserialization { msg: String, source: WreqError },
    /// The request's payload could not be fixed.
    FbpmlPayloadFix { wreq: Box<WorkloadRequest>, source: FixerError },
    /// The minute's IATs could not be generated.
    IatGen { source: IatError },
}

/// Where a worker stands in its lifecycle.
#[derive(Debug)]
pub enum WorkerPhase {
    /// Built, waiting for the start gate.
    Created,
    /// Between minutes, walking the schedule.
    Scheduling,
    /// A minute chosen, waiting for its IATs.
    AwaitingIats,
    /// Inside a minute, issuing requests.
    InMinute,
    /// Finished, whether normally, by shutdown, or by error.
    Done,
}

/// What the schedule walk decides for the next minute.
#[derive(Debug)]
pub enum MinuteDecision {
    /// The minute lies before the range: pass it without arriving at the
    /// barrier.
    Skip(u16),
    /// Run this minute: arrive at the barrier and generate its IATs.
    Arrive { minute: u16, rpm: u32 },
    /// The schedule or the range is exhausted: the worker is done, with this
    /// many requests issued.
    Finished(u64),
}

/// The row's `mapped_wreq` text parses as a workload request.
pub open spec fn mapped_wreq_ok(mapped: Seq<char>) -> bool {
    parse_obj(mapped) is Some && wire_shape_ok(parse_obj(mapped)->0)
}

/// The parsed request's payload is a JSON object, so the fixer accepts it.
pub open spec fn mapped_payload_ok(mapped: Seq<char>) -> bool {
    parse_obj(json_string_content(parse_obj(mapped)->0[payload_key()])->0) is Some
}

/// What a freshly built worker looks like: untouched counters, the row's
/// schedule, and the row's workload request with its payload already fixed to
/// the given endpoint.
pub open spec fn built_from<G: IatGenerator>(
    w: FunctionWorker<G>,
    row: FunctionRow,
    minute_range: MinuteRange,
    minio_address: Seq<char>,
    bucket_name: Seq<char>,
) -> bool {
    let mo = parse_obj(row.mapped_wreq@)->0;
    &&& w.wf()
    &&& w.phase is Created
    &&& w.num_requests == 0
    &&& w.rpm@ == row.rpm@
    &&& w.minute_range == minute_range
    &&& w.pavg_bits == row.pavg_bits
    &&& Some(w.wreq.bench@) == json_string_content(mo[bench_key()])
    &&& w.wreq.payload@ == obj_text(
        fixed_model(
            parse_obj(json_string_content(mo[payload_key()])->0)->0,
            minio_address,
            bucket_name,
        ),
    )
    &&& (w.wreq.mean is Some <==> mo.dom().contains(mean_key()))
    &&& (w.wreq.mean is Some ==> val_text(w.wreq.mean->0) == mo[mean_key()])
    &&& (w.wreq.stdev is Some <==> mo.dom().contains(stdev_key()))
    &&& (w.wreq.stdev is Some ==> val_text(w.wreq.stdev->0) == mo[stdev_key()])
}

/// One per-function worker.
pub struct FunctionWorker<G: IatGenerator> {
    /// The arrival process.
    pub iat_gen: G,
    /// The worker's own fast generator, cloned at the top of each minute.
    pub rng: rand_xoshiro::Xoshiro256PlusPlus,
    /// The seed the generator was built from; outside samplers for this
    /// worker derive from the same seed.
    pub seed: u64,
    /// The fixed workload request stamped on every issued request.
    pub wreq: WorkloadRequest,
    /// The row's advisory average execution time, as IEEE 754 double bits.
    pub pavg_bits: u64,
    /// The RPM schedule: entry `i` targets minute `i + 1`.
    pub rpm: Vec<u32>,
    /// The minutes this worker executes.
    pub minute_range: MinuteRange,
    /// Lifecycle phase.
    pub phase: WorkerPhase,
    /// The 0-based index into `rpm` of the next minute to consider.
    pub next_idx: usize,
    /// The minute being executed (1-based), while one is.
    pub cur_minute: u16,
    /// That minute's RPM target.
    pub cur_rpm: u32,
    /// That minute's IATs.
    pub iats: Vec<u64>,
    /// How many of them have been slept through.
    pub iat_pos: usize,
    /// Requests issued so far.
    pub num_requests: u64,
}

impl<G: IatGenerator> FunctionWorker<G> {
    /// The worker's well-formedness: the range is valid, the IAT cursor stays
    /// in bounds, and inside a minute the minute is one the range admits and
    /// the schedule has — so no request is ever issued for a minute outside
    /// the range.
    pub open spec fn wf(self) -> bool {
        &&& self.minute_range.wf()
        &&& self.iat_pos <= self.iats@.len()
        &&& ((self.phase is AwaitingIats || self.phase is InMinute) ==> {
            &&& 1 <= self.cur_minute as int <= self.rpm@.len()
            &&& self.minute_range.spec_contains(self.cur_minute)
            &&& self.next_idx == self.cur_minute as usize
            &&& self.cur_rpm == self.rpm@[self.cur_minute as int - 1]
        })
    }

    /// Build a worker from its row: parse the workload request, fix its
    /// payload, and seed the fast generator.
    pub fn new(
        row: FunctionRow,
        seed: u64,
        iat_gen: G,
        minute_range: MinuteRange,
        minio_address: &str,
        bucket_name: &str,
    ) -> (r: Result<Self, WorkerError>)
        requires
            minute_range.wf(),
        ensures
            r is Ok <==> (mapped_wreq_ok(row.mapped_wreq@) && mapped_payload_ok(row.mapped_wreq@)),
            r is Err ==> ((r->Err_0 is Deserialization) <==> !mapped_wreq_ok(row.mapped_wreq@)),
            r is Err ==> ((r->Err_0 is FbpmlPayloadFix) <==> (mapped_wreq_ok(row.mapped_wreq@)
                && !mapped_payload_ok(row.mapped_wreq@))),
            r is Ok ==> ({
                let w = r->Ok_0;
                &&& built_from(w, row, minute_range, minio_address@, bucket_name@)
                &&& w.seed == seed
                &&& w.iat_gen == iat_gen
            }),
    {
        let mut wreq = match WorkloadRequest::from_json(row.mapped_wreq.as_str()) {
            Ok(w) => w,
            Err(e) => {
                return Err(
                    WorkerError::Deserialization {
                        msg: "invalid mapped workload request".to_owned(),
                        source: e,
                    },
                );
            },
        };
        match fix_fbpml_payload(&mut wreq, minio_address, bucket_name) {
            Ok(()) => (),
            Err(e) => {
                return Err(WorkerError::FbpmlPayloadFix { wreq: Box::new(wreq), source: e });
            },
        }
        Ok(
            FunctionWorker {
                iat_gen,
                rng: xoshiro_from_seed(seed),
                seed,
                wreq,
                pavg_bits: row.pavg_bits,
                rpm: row.rpm,
                minute_range,
                phase: WorkerPhase::Created,
                next_idx: 0,
                cur_minute: 0,
                cur_rpm: 0,
                iats: Vec::new(),
                iat_pos: 0,
                num_requests: 0,
            },
        )
    }

    /// Release the worker through the start gate.
    pub fn kick(&mut self)
        requires
            old(self).phase is Created,
        ensures
            *final(self) == (FunctionWorker {
                phase: WorkerPhase::Scheduling,
                next_idx: 0,
                ..*old(self)
            }),
    {
        self.phase = WorkerPhase::Scheduling;
        self.next_idx = 0;
    }

    /// Walk the schedule to the next minute: skip minutes before the range
    /// (without arriving at the barrier), finish past the range or past the
    /// schedule, and otherwise arrive at the minute.
    pub fn next_minute(&mut self) -> (r: MinuteDecision)
        requires
            old(self).wf(),
            old(self).phase is Scheduling,
        ensures
            final(self).wf(),
            ({
                let s = *old(self);
                let idx = s.next_idx;
                if idx >= s.rpm@.len() {
                    &&& r == MinuteDecision::Finished(s.num_requests)
                    &&& *final(self) == (FunctionWorker { phase: WorkerPhase::Done, ..s })
                } else if idx + 1 < s.minute_range.0 {
                    &&& r == MinuteDecision::Skip((idx + 1) as u16)
                    &&& *final(self) == (FunctionWorker { next_idx: (idx + 1) as usize, ..s })
                } else if idx + 1 > s.minute_range.1 {
                    &&& r == MinuteDecision::Finished(s.num_requests)
                    &&& *final(self) == (FunctionWorker { phase: WorkerPhase::Done, ..s })
                } else {
                    &&& r == (MinuteDecision::Arrive {
                        minute: (idx + 1) as u16,
                        rpm: s.rpm@[idx as int],
                    })
                    &&& *final(self) == (FunctionWorker {
                        phase: WorkerPhase::AwaitingIats,
                        next_idx: (idx + 1) as usize,
                        cur_minute: (idx + 1) as u16,
                        cur_rpm: s.rpm@[idx as int],
                        ..s
                    })
                }
            }),
    {
        let idx = self.next_idx;
        if idx >= self.rpm.len() {
            self.phase = WorkerPhase::Done;
            return MinuteDecision::Finished(self.num_requests);
        }
        if idx + 1 < self.minute_range.start() as usize {
            self.next_idx = idx + 1;
            return MinuteDecision::Skip((idx + 1) as u16);
        }
        if idx + 1 > self.minute_range.end() as usize {
            self.phase = WorkerPhase::Done;
            return MinuteDecision::Finished(self.num_requests);
        }
        let minute = (idx + 1) as u16;
        let rpm = self.rpm[idx];
        self.phase = WorkerPhase::AwaitingIats;
        self.next_idx = idx + 1;
        self.cur_minute = minute;
        self.cur_rpm = rpm;
        MinuteDecision::Arrive { minute, rpm }
    }

    /// Generate the arrived minute's IATs (from a clone of the worker's
    /// generator, so the next minute starts from the same state, and from the
    /// raw samples where the arrival process is sampled outside).  A positive
    /// RPM always succeeds; a generation error finishes the worker.
    pub fn supply_iats(&mut self, raw_samples: &[u64]) -> (r: Result<(), WorkerError>)
        requires
            old(self).wf(),
            old(self).phase is AwaitingIats,
        ensures
            final(self).wf(),
            old(self).cur_rpm > 0 ==> r is Ok,
            r is Ok ==> ({
                &&& old(self).iat_gen.gen_post(
                    old(self).cur_rpm,
                    raw_samples@,
                    Ok(final(self).iats),
                )
                &&& sum_us(final(self).iats@) <= MICROSECONDS_PER_MINUTE
                &&& *final(self) == (FunctionWorker {
                    phase: WorkerPhase::InMinute,
                    iats: final(self).iats,
                    iat_pos: 0,
                    ..*old(self)
                })
            }),
            r is Err ==> r->Err_0 is IatGen && *final(self) == (FunctionWorker {
                phase: WorkerPhase::Done,
                ..*old(self)
            }),
    {
        let mut rng = xoshiro_clone(&self.rng);
        let iats = match self.iat_gen.gen(self.cur_rpm, &mut rng, raw_samples) {
            Ok(iats) => iats,
            Err(e) => {
                self.phase = WorkerPhase::Done;
                return Err(WorkerError::IatGen { source: e });
            },
        };
        self.iats = iats;
        self.iat_pos = 0;
        self.phase = WorkerPhase::InMinute;
        Ok(())
    }

    /// The sleep before the next request: the next IAT, or a full minute once
    /// the minute's IATs are exhausted.
    pub fn next_sleep_us(&mut self) -> (r: u64)
        requires
            old(self).wf(),
            old(self).phase is InMinute,
        ensures
            final(self).wf(),
            ({
                let s = *old(self);
                if s.iat_pos < s.iats@.len() {
                    &&& r == s.iats@[s.iat_pos as int]
                    &&& *final(self) == (FunctionWorker { iat_pos: (s.iat_pos + 1) as usize, ..s })
                } else {
                    &&& r == MICROSECONDS_PER_MINUTE
                    &&& *final(self) == s
                }
            }),
    {
        if self.iat_pos < self.iats.len() {
            let iat = self.iats[self.iat_pos];
            self.iat_pos = self.iat_pos + 1;
            iat
        } else {
            MICROSECONDS_PER_MINUTE
        }
    }

    /// The minute a request issued now belongs to: always one the range
    /// admits and the schedule has.
    pub fn current_minute(&self) -> (r: u16)
        requires
            self.wf(),
            self.phase is AwaitingIats || self.phase is InMinute,
        ensures
            r == self.cur_minute,
            self.minute_range.spec_contains(r),
            1 <= r as int <= self.rpm@.len(),
    {
        self.cur_minute
    }

    /// Account for one issue attempt: only a successful one counts.
    pub fn on_issue(&mut self, issued_ok: bool)
        requires
            old(self).phase is InMinute,
            old(self).num_requests < u64::MAX,
        ensures
            *final(self) == (FunctionWorker {
                num_requests: if issued_ok {
                    (old(self).num_requests + 1) as u64
                } else {
                    old(self).num_requests
                },
                ..*old(self)
            }),
    {
        if issued_ok {
            self.num_requests = self.num_requests + 1;
        }
    }

    /// The minute's deadline fired: close the minute and go back to the
    /// schedule, whatever IATs were left.
    pub fn on_minute_elapsed(&mut self)
        requires
            old(self).wf(),
            old(self).phase is InMinute,
        ensures
            final(self).wf(),
            *final(self) == (FunctionWorker { phase: WorkerPhase::Scheduling, ..*old(self) }),
    {
        self.phase = WorkerPhase::Scheduling;
    }

    /// Shutdown: the worker ends at once, whatever minute it was in, and
    /// reports how many requests it issued.
    pub fn on_quit(&mut self) -> (r: u64)
        ensures
            r == old(self).num_requests,
            *final(self) == (FunctionWorker { phase: WorkerPhase::Done, ..*old(self) }),
    {
        self.phase = WorkerPhase::Done;
        self.num_requests
    }
}

/// Range scoping: while a worker stands in a minute (arrived or issuing),
/// that minute lies inside its `MinuteRange` and inside its schedule, so no
/// request is issued for any minute outside either.
pub proof fn lemma_issue_minute_in_range<G: IatGenerator>(w: FunctionWorker<G>)
    requires
        w.wf(),
        w.phase is AwaitingIats || w.phase is InMinute,
    ensures
        w.minute_range.spec_contains(w.cur_minute),
        1 <= w.cur_minute as int <= w.rpm@.len(),
{
}

} // verus!
