//! The per-function invocation template.
//!
//! A `WorkloadRequest` names a benchmark, carries its invocation payload, and
//! optionally records the measured mean and standard deviation of its
//! execution time.  The two statistics travel as opaque JSON number values:
//! `None` stands for the "no measurement" sentinel, which is omitted from the
//! wire form and reappears as `None` after a round trip.  Equality and
//! ordering are defined solely over `(bench, payload)`.

use vstd::prelude::*;

use core::cmp::Ordering;
use vstd::pervasive::unreached;
use vstd::string::StringSliceAdditionalSpecFns;
use vstd::utf8::encode_utf8;

use crate::json::{
    empty_model, json_is_number, json_string_content, json_string_text, obj_from_str, obj_get,
    obj_insert, obj_model, obj_new, obj_text, obj_to_string, parse_obj, reparseable, val_as_str,
    val_clone, val_is_number, val_string, val_text,
};

verus! {

/// What can go wrong when reading a `WorkloadRequest` from JSON text.
#[derive(Debug)]
pub enum WreqError {
    /// The text is not a JSON object.
    Json(serde_json::Error),
    /// The object lacks a required member or gives one the wrong type.
    Shape { msg: String },
}

/// The per-function invocation template.
#[derive(Debug)]
pub struct WorkloadRequest {
    /// The average execution time of this workload, as a JSON number value;
    /// `None` when no finite measurement exists.
    pub mean: Option<serde_json::Value>,
    /// The standard deviation of the execution time of this workload, under
    /// the same convention.
    pub stdev: Option<serde_json::Value>,
    /// The name of the benchmark; doubles as the function id.
    pub bench: String,
    /// The payload of the invocation request.
    pub payload: String,
}

pub open spec fn bench_key() -> Seq<char> {
    "bench"@
}

pub open spec fn payload_key() -> Seq<char> {
    "payload"@
}

pub open spec fn mean_key() -> Seq<char> {
    "mean"@
}

pub open spec fn stdev_key() -> Seq<char> {
    "stdev"@
}

/// The four member names are pairwise distinct.
proof fn lemma_wreq_keys_distinct()
    ensures
        bench_key() != payload_key(),
        bench_key() != mean_key(),
        bench_key() != stdev_key(),
        payload_key() != mean_key(),
        payload_key() != stdev_key(),
        mean_key() != stdev_key(),
{
    reveal_strlit("bench");
    reveal_strlit("payload");
    reveal_strlit("mean");
    reveal_strlit("stdev");
    assert(bench_key()[0] == 'b');
    assert(payload_key()[0] == 'p');
    assert(mean_key()[0] == 'm');
    assert(stdev_key()[0] == 's');
}

impl WorkloadRequest {
    /// A well-formed request records statistics only as JSON number values.
    pub open spec fn wf(self) -> bool {
        &&& (self.mean is Some ==> json_is_number(val_text(self.mean->0)))
        &&& (self.stdev is Some ==> json_is_number(val_text(self.stdev->0)))
    }

    /// The contents of this request's wire form: `bench` and `payload` as
    /// string members, `mean` and `stdev` as number members when present.
    pub open spec fn wire_model(self) -> Map<Seq<char>, Seq<char>> {
        let base = empty_model().insert(bench_key(), json_string_text(self.bench@)).insert(
            payload_key(),
            json_string_text(self.payload@),
        );
        let with_mean = if self.mean is Some {
            base.insert(mean_key(), val_text(self.mean->0))
        } else {
            base
        };
        if self.stdev is Some {
            with_mean.insert(stdev_key(), val_text(self.stdev->0))
        } else {
            with_mean
        }
    }

    /// Build a request; a statistic that is not a JSON number value is
    /// recorded as absent.
    pub fn new(
        mean: Option<serde_json::Value>,
        stdev: Option<serde_json::Value>,
        bench: String,
        payload: String,
    ) -> (r: WorkloadRequest)
        ensures
            r.wf(),
            r.bench == bench,
            r.payload == payload,
            r.mean is Some <==> (mean is Some && json_is_number(val_text(mean->0))),
            r.mean is Some ==> r.mean == mean,
            r.stdev is Some <==> (stdev is Some && json_is_number(val_text(stdev->0))),
            r.stdev is Some ==> r.stdev == stdev,
    {
        let mean = match mean {
            Some(v) => if val_is_number(&v) {
                Some(v)
            } else {
                None
            },
            None => None,
        };
        let stdev = match stdev {
            Some(v) => if val_is_number(&v) {
                Some(v)
            } else {
                None
            },
            None => None,
        };
        WorkloadRequest { mean, stdev, bench, payload }
    }

    /// The wire form, built as a JSON object.  A well-formed request holds
    /// only string and number members, so its wire object stays within the
    /// parser's recursion limit.
    pub fn to_json_obj(&self) -> (m: serde_json::Map<String, serde_json::Value>)
        ensures
            obj_model(m) == self.wire_model(),
            json_string_content(self.wire_model()[bench_key()]) == Some(self.bench@),
            json_string_content(self.wire_model()[payload_key()]) == Some(self.payload@),
            self.wf() ==> wire_shape_ok(self.wire_model()),
            self.wf() ==> reparseable(self.wire_model()),
    {
        proof {
            lemma_wreq_keys_distinct();
        }
        let mut m = obj_new();
        obj_insert(&mut m, "bench", val_string(self.bench.as_str()));
        obj_insert(&mut m, "payload", val_string(self.payload.as_str()));
        if let Some(v) = &self.mean {
            obj_insert(&mut m, "mean", val_clone(v));
        }
        if let Some(v) = &self.stdev {
            obj_insert(&mut m, "stdev", val_clone(v));
        }
        proof {
            assert(obj_model(m) =~= self.wire_model());
        }
        m
    }

    /// Serialise to the canonical JSON wire form.
    pub fn to_json(&self) -> (r: String)
        ensures
            r@ == obj_text(self.wire_model()),
            self.wf() ==> parse_obj(r@) == Some(self.wire_model()),
            json_string_content(self.wire_model()[bench_key()]) == Some(self.bench@),
            json_string_content(self.wire_model()[payload_key()]) == Some(self.payload@),
            self.wf() ==> wire_shape_ok(self.wire_model()),
    {
        let m = self.to_json_obj();
        match obj_to_string(&m) {
            Ok(s) => s,
            Err(_) => unreached(),
        }
    }

    /// The wire form of a well-formed request loses nothing: reading back a
    /// serialised request yields a request equal to the original (equality
    /// holds over `bench` and `payload`), present statistics survive with
    /// their values, and absent ones survive as absent.
    pub fn wire_roundtrip(&self) -> (r: WorkloadRequest)
        ensures
            self.wf() ==> r.bench@ == self.bench@,
            self.wf() ==> r.payload@ == self.payload@,
            self.wf() ==> (r.mean is Some <==> self.mean is Some),
            self.wf() ==> (r.mean is Some ==> val_text(r.mean->0) == val_text(self.mean->0)),
            self.wf() ==> (r.stdev is Some <==> self.stdev is Some),
            self.wf() ==> (r.stdev is Some ==> val_text(r.stdev->0) == val_text(self.stdev->0)),
    {
        let text = self.to_json();
        proof {
            lemma_wreq_keys_distinct();
        }
        match WorkloadRequest::from_json(text.as_str()) {
            Ok(r) => r,
            Err(_) => WorkloadRequest {
                mean: None,
                stdev: None,
                bench: self.bench.clone(),
                payload: self.payload.clone(),
            },
        }
    }

    /// Deserialise from JSON text: the object must give `bench` and `payload`
    /// as strings, and may give `mean` and `stdev` as numbers; other members
    /// are ignored.
    pub fn from_json(s: &str) -> (r: Result<WorkloadRequest, WreqError>)
        ensures
            r is Ok <==> (parse_obj(s@) is Some && wire_shape_ok(parse_obj(s@)->0)),
            r is Ok ==> ({
                let mo = parse_obj(s@)->0;
                let w = r->Ok_0;
                &&& w.wf()
                &&& Some(w.bench@) == json_string_content(mo[bench_key()])
                &&& Some(w.payload@) == json_string_content(mo[payload_key()])
                &&& (w.mean is Some <==> mo.dom().contains(mean_key()))
                &&& (w.mean is Some ==> val_text(w.mean->0) == mo[mean_key()])
                &&& (w.stdev is Some <==> mo.dom().contains(stdev_key()))
                &&& (w.stdev is Some ==> val_text(w.stdev->0) == mo[stdev_key()])
            }),
            r is Err ==> ((r->Err_0 is Json) <==> parse_obj(s@) is None),
    {
        let m = match obj_from_str(s) {
            Ok(m) => m,
            Err(e) => {
                return Err(WreqError::Json(e));
            },
        };
        let bench = match obj_get(&m, "bench") {
            Some(v) => match val_as_str(v) {
                Some(t) => t.to_owned(),
                None => {
                    return Err(WreqError::Shape { msg: "bench must be a string".to_owned() });
                },
            },
            None => {
                return Err(WreqError::Shape { msg: "bench is missing".to_owned() });
            },
        };
        let payload = match obj_get(&m, "payload") {
            Some(v) => match val_as_str(v) {
                Some(t) => t.to_owned(),
                None => {
                    return Err(WreqError::Shape { msg: "payload must be a string".to_owned() });
                },
            },
            None => {
                return Err(WreqError::Shape { msg: "payload is missing".to_owned() });
            },
        };
        let mean = match obj_get(&m, "mean") {
            Some(v) => if val_is_number(v) {
                Some(val_clone(v))
            } else {
                return Err(WreqError::Shape { msg: "mean must be a number".to_owned() });
            },
            None => None,
        };
        let stdev = match obj_get(&m, "stdev") {
            Some(v) => if val_is_number(v) {
                Some(val_clone(v))
            } else {
                return Err(WreqError::Shape { msg: "stdev must be a number".to_owned() });
            },
            None => None,
        };
        Ok(WorkloadRequest { mean, stdev, bench, payload })
    }
}

/// An object model fits the wire form of some request: `bench` and `payload`
/// are strings, and `mean` and `stdev`, when present, are numbers.
pub open spec fn wire_shape_ok(mo: Map<Seq<char>, Seq<char>>) -> bool {
    &&& mo.dom().contains(bench_key())
    &&& json_string_content(mo[bench_key()]) is Some
    &&& mo.dom().contains(payload_key())
    &&& json_string_content(mo[payload_key()]) is Some
    &&& (mo.dom().contains(mean_key()) ==> json_is_number(mo[mean_key()]))
    &&& (mo.dom().contains(stdev_key()) ==> json_is_number(mo[stdev_key()]))
}

/// Lexicographic order on byte sequences.
pub open spec fn lex_cmp_bytes(a: Seq<u8>, b: Seq<u8>) -> Ordering
    decreases a.len(),
{
    if a.len() == 0 && b.len() == 0 {
        Ordering::Equal
    } else if a.len() == 0 {
        Ordering::Less
    } else if b.len() == 0 {
        Ordering::Greater
    } else if a[0] < b[0] {
        Ordering::Less
    } else if a[0] > b[0] {
        Ordering::Greater
    } else {
        lex_cmp_bytes(a.skip(1), b.skip(1))
    }
}

/// Requests are ordered over `(bench, payload)`, each compared as its UTF-8
/// bytes (the order `str` gives them in std).
pub open spec fn wreq_cmp_spec(a: WorkloadRequest, b: WorkloadRequest) -> Ordering {
    let c = lex_cmp_bytes(encode_utf8(a.bench@), encode_utf8(b.bench@));
    if c == Ordering::Equal {
        lex_cmp_bytes(encode_utf8(a.payload@), encode_utf8(b.payload@))
    } else {
        c
    }
}

/// Compare two byte slices lexicographically.
fn cmp_bytes(a: &[u8], b: &[u8]) -> (r: Ordering)
    ensures
        r == lex_cmp_bytes(a@, b@),
{
    let mut i: usize = 0;
    proof {
        assert(a@.skip(0) =~= a@);
        assert(b@.skip(0) =~= b@);
    }
    loop
        invariant
            i <= a@.len(),
            i <= b@.len(),
            lex_cmp_bytes(a@, b@) == lex_cmp_bytes(a@.skip(i as int), b@.skip(i as int)),
        decreases a@.len() - i,
    {
        if i == a.len() && i == b.len() {
            return Ordering::Equal;
        }
        if i == a.len() {
            return Ordering::Less;
        }
        if i == b.len() {
            return Ordering::Greater;
        }
        let x = a[i];
        let y = b[i];
        if x < y {
            return Ordering::Less;
        }
        if x > y {
            return Ordering::Greater;
        }
        proof {
            assert(a@.skip(i as int).skip(1) =~= a@.skip(i as int + 1));
            assert(b@.skip(i as int).skip(1) =~= b@.skip(i as int + 1));
        }
        i = i + 1;
    }
}

impl PartialEq for WorkloadRequest {
    fn eq(&self, other: &Self) -> (r: bool) {
        self.bench == other.bench && self.payload == other.payload
    }
}

impl vstd::std_specs::cmp::PartialEqSpecImpl for WorkloadRequest {
    open spec fn obeys_eq_spec() -> bool {
        true
    }

    open spec fn eq_spec(&self, other: &Self) -> bool {
        self.bench@ == other.bench@ && self.payload@ == other.payload@
    }
}

impl PartialOrd for WorkloadRequest {
    fn partial_cmp(&self, other: &Self) -> (r: Option<Ordering>) {
        let c = cmp_bytes(self.bench.as_str().as_bytes(), other.bench.as_str().as_bytes());
        match c {
            Ordering::Equal => Some(
                cmp_bytes(self.payload.as_str().as_bytes(), other.payload.as_str().as_bytes()),
            ),
            lt_or_gt => Some(lt_or_gt),
        }
    }
}

impl vstd::std_specs::cmp::PartialOrdSpecImpl for WorkloadRequest {
    open spec fn obeys_partial_cmp_spec() -> bool {
        true
    }

    open spec fn partial_cmp_spec(&self, other: &Self) -> Option<Ordering> {
        Some(wreq_cmp_spec(*self, *other))
    }
}

} // verus!
