use rand_distr::Distribution;
use rand_xoshiro::rand_core::SeedableRng;
use rand_xoshiro::Xoshiro256PlusPlus;

use faasrail_loadgen::source::client::build_workers;
use faasrail_loadgen::source::invoc::{format_invocation_id, InvocationCounter};
use faasrail_loadgen::source::worker::{MinuteDecision, WorkerError, WorkerPhase};
use faasrail_loadgen::source::{Equidistant, FunctionRow, MinuteRange, Poisson};

fn exp_raw_samples(rpm: u32, rng: &mut Xoshiro256PlusPlus) -> Vec<u64> {
    let exp = rand_distr::Exp::new(rpm as f64 / 60e6).expect("invalid rate");
    let mut raw = Vec::new();
    let mut sum = 0.0f64;
    while sum < 60e6 {
        let x: f64 = exp.sample(rng);
        sum += x;
        raw.push(x as u64);
    }
    raw
}

fn one_row(mapped_wreq: &str, rpm: Vec<u32>) -> FunctionRow {
    FunctionRow { pavg_bits: 0, mapped_wreq: mapped_wreq.to_string(), rpm }
}

#[test]
fn equidistant_one_minute() {
    // One function, one minute of six equidistant requests.
    let rows = vec![one_row("{\"bench\":\"f\",\"payload\":\"{}\"}", vec![6])];
    let mut workers = build_workers(
        &rows,
        Some(0),
        Equidistant,
        MinuteRange::default(),
        "localhost:59000",
        "snaplace-fbpml",
    )
    .expect("construction failed");
    assert_eq!(workers.len(), 1);
    let mut w = workers.pop().unwrap();
    assert_eq!(w.wreq.bench, "f");

    let mut counter = InvocationCounter::new(0);
    let mut ids: Vec<String> = Vec::new();
    let mut gaps: Vec<u64> = Vec::new();
    w.kick();
    loop {
        match w.next_minute() {
            MinuteDecision::Finished(n) => {
                assert_eq!(n, 6);
                break;
            },
            MinuteDecision::Skip(m) => panic!("unexpected skip of minute {m}"),
            MinuteDecision::Arrive { minute, rpm } => {
                assert_eq!((minute, rpm), (1, 6));
                w.supply_iats(&[]).expect("generation failed");
                loop {
                    let sleep_us = w.next_sleep_us();
                    if sleep_us == 60_000_000 {
                        // The generator is exhausted; the minute timer is next.
                        w.on_minute_elapsed();
                        break;
                    }
                    gaps.push(sleep_us);
                    ids.push(format_invocation_id(counter.fetch_next()));
                    w.on_issue(true);
                }
            },
        }
    }
    assert_eq!(gaps, vec![10_000_000u64; 6]);
    assert_eq!(ids.len(), 6);
    for (i, id) in ids.iter().enumerate() {
        assert_eq!(id.len(), 24);
        assert_eq!(*id, format!("{i:024}"));
    }
    assert_eq!(ids[0], "000000000000000000000000");
    assert_eq!(ids[5], "000000000000000000000005");
}

#[test]
fn range_scoping_two_of_five() {
    // A five-minute schedule scoped to minutes 2..3: only those run, and the
    // barrier is arrived at exactly twice.
    let range: MinuteRange = "2..3".parse().unwrap();
    let rows = vec![one_row("{\"bench\":\"f\",\"payload\":\"{}\"}", vec![10, 10, 10, 10, 10])];
    let mut workers =
        build_workers(&rows, Some(0), Equidistant, range, "a", "b").expect("construction failed");
    let mut w = workers.pop().unwrap();

    let mut skipped: Vec<u16> = Vec::new();
    let mut arrived: Vec<u16> = Vec::new();
    let mut issued_minutes: Vec<u16> = Vec::new();
    w.kick();
    let total = loop {
        match w.next_minute() {
            MinuteDecision::Finished(n) => break n,
            MinuteDecision::Skip(m) => skipped.push(m),
            MinuteDecision::Arrive { minute, rpm } => {
                arrived.push(minute);
                assert_eq!(rpm, 10);
                w.supply_iats(&[]).expect("generation failed");
                loop {
                    let sleep_us = w.next_sleep_us();
                    if sleep_us == 60_000_000 {
                        w.on_minute_elapsed();
                        break;
                    }
                    issued_minutes.push(w.current_minute());
                    w.on_issue(true);
                }
            },
        }
    };
    assert_eq!(skipped, vec![1]);
    assert_eq!(arrived, vec![2, 3]);
    assert_eq!(total, 20);
    assert_eq!(issued_minutes.len(), 20);
    for m in issued_minutes {
        assert!(m == 2 || m == 3);
    }
    assert!(matches!(w.phase, WorkerPhase::Done));
}

#[test]
fn shutdown_mid_minute() {
    // One function at 10_000 RPM under a Poisson process; shutdown fires 100
    // milliseconds into the minute.
    let rows = vec![one_row("{\"bench\":\"f\",\"payload\":\"{}\"}", vec![10_000])];
    let mut workers = build_workers(
        &rows,
        Some(0),
        Poisson,
        MinuteRange::default(),
        "localhost:59000",
        "snaplace-fbpml",
    )
    .expect("construction failed");
    let mut w = workers.pop().unwrap();

    let mut sample_rng = Xoshiro256PlusPlus::seed_from_u64(w.seed);
    w.kick();
    match w.next_minute() {
        MinuteDecision::Arrive { minute, rpm } => {
            assert_eq!((minute, rpm), (1, 10_000));
            let raw = exp_raw_samples(rpm, &mut sample_rng.clone());
            w.supply_iats(&raw).expect("generation failed");
        },
        other => panic!("expected the first minute, got {other:?}"),
    }
    let mut elapsed_us: u64 = 0;
    loop {
        let sleep_us = w.next_sleep_us();
        elapsed_us += sleep_us;
        if elapsed_us > 100_000 {
            break;
        }
        w.on_issue(true);
    }
    let issued = w.on_quit();
    assert!(matches!(w.phase, WorkerPhase::Done));
    // Expected about 10_000 * 0.1 / 60, roughly 17 requests.
    assert!(issued >= 3 && issued <= 60, "issued = {issued}");
    assert_eq!(w.num_requests, issued);
}

#[test]
fn worker_construction_errors() {
    // A workload request that does not parse.
    let row = one_row("not json", vec![1]);
    let r = build_workers(
        &vec![row],
        Some(0),
        Equidistant,
        MinuteRange::default(),
        "a",
        "b",
    );
    match r {
        Err(faasrail_loadgen::source::SourceError::Worker(WorkerError::Deserialization {
            ..
        })) => (),
        other => panic!("expected a deserialization error, got {:?}", other.is_ok()),
    }

    // A payload that is not a JSON object.
    let row = one_row("{\"bench\":\"f\",\"payload\":\"3\"}", vec![1]);
    let r = build_workers(
        &vec![row],
        Some(0),
        Equidistant,
        MinuteRange::default(),
        "a",
        "b",
    );
    match r {
        Err(faasrail_loadgen::source::SourceError::Worker(WorkerError::FbpmlPayloadFix {
            ..
        })) => (),
        other => panic!("expected a payload-fix error, got {:?}", other.is_ok()),
    }
}

#[test]
fn worker_iat_generation_error_finishes_worker() {
    // A zero RPM minute is an invalid rate for the Poisson process.
    let rows = vec![one_row("{\"bench\":\"f\",\"payload\":\"{}\"}", vec![0])];
    let mut workers = build_workers(
        &rows,
        Some(0),
        Poisson,
        MinuteRange::default(),
        "a",
        "b",
    )
    .expect("construction failed");
    let mut w = workers.pop().unwrap();
    w.kick();
    match w.next_minute() {
        MinuteDecision::Arrive { minute, rpm } => {
            assert_eq!((minute, rpm), (1, 0));
            let r = w.supply_iats(&[]);
            assert!(matches!(r, Err(WorkerError::IatGen { .. })));
            assert!(matches!(w.phase, WorkerPhase::Done));
        },
        other => panic!("expected the first minute, got {other:?}"),
    }
}

#[test]
fn worker_fixes_payload_once_at_construction() {
    let rows = vec![one_row(
        "{\"bench\":\"f\",\"payload\":\"{\\\"minio_address\\\":\\\"old\\\",\\\"bucket_name\\\":\\\"x\\\"}\"}",
        vec![1],
    )];
    let mut workers = build_workers(
        &rows,
        Some(0),
        Equidistant,
        MinuteRange::default(),
        "host:1234",
        "the-bucket",
    )
    .expect("construction failed");
    let w = workers.pop().unwrap();
    let v: serde_json::Value = serde_json::from_str(&w.wreq.payload).unwrap();
    assert_eq!(v.get("minio_address").unwrap().as_str(), Some("host:1234"));
    assert_eq!(v.get("bucket_name").unwrap().as_str(), Some("the-bucket"));
}

#[test]
fn range_past_schedule_issues_nothing() {
    // The range starts beyond the schedule: every minute is skipped and no
    // request is issued.
    let range: MinuteRange = "10..20".parse().unwrap();
    let rows = vec![one_row("{\"bench\":\"f\",\"payload\":\"{}\"}", vec![5, 5, 5])];
    let mut workers =
        build_workers(&rows, Some(0), Equidistant, range, "a", "b").expect("construction failed");
    let mut w = workers.pop().unwrap();
    w.kick();
    let mut skipped = 0;
    let total = loop {
        match w.next_minute() {
            MinuteDecision::Finished(n) => break n,
            MinuteDecision::Skip(_) => skipped += 1,
            MinuteDecision::Arrive { minute, .. } => panic!("unexpected minute {minute}"),
        }
    };
    assert_eq!(skipped, 3);
    assert_eq!(total, 0);
}

#[test]
fn worker_keeps_row_statistics() {
    // The row's statistics survive construction and the payload fix.
    let rows = vec![one_row(
        "{\"mean\":1.5,\"stdev\":2.25,\"bench\":\"f\",\"payload\":\"{}\"}",
        vec![1],
    )];
    let mut workers = build_workers(
        &rows,
        Some(0),
        Equidistant,
        MinuteRange::default(),
        "a",
        "b",
    )
    .expect("construction failed");
    let w = workers.pop().unwrap();
    assert_eq!(w.wreq.mean.as_ref().and_then(|v| v.as_f64()), Some(1.5));
    assert_eq!(w.wreq.stdev.as_ref().and_then(|v| v.as_f64()), Some(2.25));
}
