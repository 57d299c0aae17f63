use std::collections::HashSet;

use rand_distr::Distribution;
use rand_xoshiro::rand_core::SeedableRng;
use rand_xoshiro::Xoshiro256PlusPlus;

use faasrail_loadgen::reqlog::logged_request_line;
use faasrail_loadgen::source::client::{
    build_workers, invocation_log_line, on_quit_signal, JoinOutcome, QuitAction, RunTally,
    DEFAULT_FIXED_SEED,
};
use faasrail_loadgen::source::invoc::{format_invocation_id, InvocationCounter};
use faasrail_loadgen::source::worker::MinuteDecision;
use faasrail_loadgen::source::{FunctionRow, MinuteRange, Poisson};
use faasrail_loadgen::WorkloadRequest;

fn exp_raw_samples(rpm: u32, rng: &mut Xoshiro256PlusPlus) -> Vec<u64> {
    let exp = rand_distr::Exp::new(rpm as f64 / 60e6).expect("invalid rate");
    let mut raw = Vec::new();
    let mut sum = 0.0f64;
    while sum < 60e6 {
        let x: f64 = exp.sample(rng);
        sum += x;
        raw.push(x as u64);
    }
    raw
}

#[test]
fn poisson_two_functions_two_minutes() {
    // Two functions, each at 100 then 50 RPM, under the fixed seed: both
    // workers pass the barrier exactly twice, ids never collide, and the
    // total request count lands near 300.
    let mapped_one = "{\"bench\":\"f1\",\"payload\":\"{}\"}";
    let mapped_two = "{\"bench\":\"f2\",\"payload\":\"{}\"}";
    let rows = vec![
        FunctionRow { pavg_bits: 0, mapped_wreq: mapped_one.to_string(), rpm: vec![100, 50] },
        FunctionRow { pavg_bits: 0, mapped_wreq: mapped_two.to_string(), rpm: vec![100, 50] },
    ];
    let workers = build_workers(
        &rows,
        Some(0x0f0f_0f0f_0f0f_0f0f),
        Poisson,
        MinuteRange::default(),
        "localhost:59000",
        "snaplace-fbpml",
    )
    .expect("construction failed");
    assert_eq!(workers.len(), 2);

    let mut counter = InvocationCounter::new(0);
    let mut ids: Vec<String> = Vec::new();
    let mut total: u64 = 0;
    for mut w in workers {
        let sample_rng = Xoshiro256PlusPlus::seed_from_u64(w.seed);
        let mut barriers = 0;
        w.kick();
        let issued = loop {
            match w.next_minute() {
                MinuteDecision::Finished(n) => break n,
                MinuteDecision::Skip(m) => panic!("unexpected skip of minute {m}"),
                MinuteDecision::Arrive { minute: _, rpm } => {
                    barriers += 1;
                    let raw = exp_raw_samples(rpm, &mut sample_rng.clone());
                    w.supply_iats(&raw).expect("generation failed");
                    loop {
                        let sleep_us = w.next_sleep_us();
                        if sleep_us == 60_000_000 {
                            w.on_minute_elapsed();
                            break;
                        }
                        ids.push(format_invocation_id(counter.fetch_next()));
                        w.on_issue(true);
                    }
                },
            }
        };
        assert_eq!(barriers, 2);
        total += issued;
    }
    assert!(total >= 270 && total <= 330, "total = {total}");
    let distinct: HashSet<&String> = ids.iter().collect();
    assert_eq!(distinct.len(), ids.len());
}

#[test]
fn invocation_ids_are_padded_and_unique() {
    assert_eq!(format_invocation_id(0), "000000000000000000000000");
    assert_eq!(format_invocation_id(42), "000000000000000000000042");
    assert_eq!(
        format_invocation_id(u64::MAX),
        "000018446744073709551615"
    );
    let mut counter = InvocationCounter::new(7);
    assert_eq!(counter.fetch_next(), 7);
    assert_eq!(counter.fetch_next(), 8);
    assert_eq!(counter.fetch_next(), 9);
}

#[test]
fn quit_signal_decision() {
    assert!(matches!(on_quit_signal(true, 4, 4), QuitAction::ContinueJoining));
    assert!(matches!(on_quit_signal(true, 3, 4), QuitAction::AbortAll));
    assert!(matches!(on_quit_signal(false, 4, 4), QuitAction::AbortAll));
}

#[test]
fn run_tally_counts_only_successes() {
    let mut tally = RunTally::new();
    tally.on_worker_join(JoinOutcome::Success { requests: 5 });
    tally.on_worker_join(JoinOutcome::Failed);
    tally.on_worker_join(JoinOutcome::Cancelled);
    tally.on_worker_join(JoinOutcome::Success { requests: 7 });
    assert_eq!(tally.num_requests, 12);
}

#[test]
fn invocation_log_line_bytes() {
    let line = invocation_log_line("000000000000000000000042", "f1").unwrap();
    assert_eq!(line, "{\"000000000000000000000042\":\"f1\"}");
}

#[test]
fn logged_request_line_bytes() {
    let req = WorkloadRequest::new(None, None, "f1".to_string(), "{}".to_string());
    let line = logged_request_line(1234, "000000000000000000000007", &req).unwrap();
    assert_eq!(
        line,
        "{\"epoch_us\":1234,\"invocation_id\":\"000000000000000000000007\",\"wreq\":{\"bench\":\"f1\",\"payload\":\"{}\"}}"
    );
}

#[test]
fn default_seed_sentinel_is_deterministic() {
    let rows = vec![FunctionRow {
        pavg_bits: 0,
        mapped_wreq: "{\"bench\":\"f\",\"payload\":\"{}\"}".to_string(),
        rpm: vec![1],
    }];
    let a = build_workers(
        &rows,
        Some(0),
        Poisson,
        MinuteRange::default(),
        "a",
        "b",
    )
    .unwrap();
    let b = build_workers(
        &rows,
        Some(DEFAULT_FIXED_SEED),
        Poisson,
        MinuteRange::default(),
        "a",
        "b",
    )
    .unwrap();
    // Zero asks for the fixed sentinel seed, so both derive the same worker seed.
    assert_eq!(a[0].seed, b[0].seed);
}

#[test]
fn entropy_seeding_succeeds() {
    let rows = vec![FunctionRow {
        pavg_bits: 0,
        mapped_wreq: "{\"bench\":\"f\",\"payload\":\"{}\"}".to_string(),
        rpm: vec![1],
    }];
    let ws = build_workers(&rows, None, Poisson, MinuteRange::default(), "a", "b")
        .expect("entropy seeding failed");
    assert_eq!(ws.len(), 1);
}
