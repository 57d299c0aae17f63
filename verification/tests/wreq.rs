use std::cmp::Ordering;

use faasrail_loadgen::wreq::WreqError;
use faasrail_loadgen::WorkloadRequest;

#[test]
fn serde_nan() {
    let req = WorkloadRequest::new(
        None,
        None,
        "test-workload".to_string(),
        "test-payload".to_string(),
    );
    let ser = req.to_json();
    println!("{ser:#?}");

    const SER: &str = "{\"bench\":\"test-workload\",\"payload\":\"test-payload\"}";
    assert_eq!(ser, SER);
    let des = WorkloadRequest::from_json(SER).expect("failed to deserialize WorkloadRequest");
    assert_eq!(req, des);
}

#[test]
fn wreq_roundtrip_with_stats() {
    let text = "{\"mean\":1.5,\"stdev\":2.25,\"bench\":\"b\",\"payload\":\"p\"}";
    let req = WorkloadRequest::from_json(text).unwrap();
    assert!(req.mean.is_some());
    assert!(req.stdev.is_some());
    let ser = req.to_json();
    assert_eq!(ser, "{\"bench\":\"b\",\"mean\":1.5,\"payload\":\"p\",\"stdev\":2.25}");
    let back = WorkloadRequest::from_json(&ser).unwrap();
    assert_eq!(req, back);
    assert_eq!(back.mean.as_ref().and_then(|v| v.as_f64()), Some(1.5));
    assert_eq!(back.stdev.as_ref().and_then(|v| v.as_f64()), Some(2.25));
}

#[test]
fn wreq_roundtrip_keeps_absent_stats_absent() {
    let req = WorkloadRequest::new(None, None, "f".to_string(), "{}".to_string());
    let back = req.wire_roundtrip();
    assert_eq!(req, back);
    assert!(back.mean.is_none());
    assert!(back.stdev.is_none());
    // A non-number statistic is recorded as absent at construction.
    let odd = WorkloadRequest::new(
        Some(serde_json::Value::String("fast".to_string())),
        None,
        "f".to_string(),
        "{}".to_string(),
    );
    assert!(odd.mean.is_none());
}

#[test]
fn wreq_shape_errors() {
    let r = WorkloadRequest::from_json("{\"payload\":\"p\"}");
    assert!(matches!(r, Err(WreqError::Shape { .. })));
    let r = WorkloadRequest::from_json("{\"bench\":3,\"payload\":\"p\"}");
    assert!(matches!(r, Err(WreqError::Shape { .. })));
    let r = WorkloadRequest::from_json("{\"bench\":\"b\"}");
    assert!(matches!(r, Err(WreqError::Shape { .. })));
    let r = WorkloadRequest::from_json("{\"bench\":\"b\",\"payload\":\"p\",\"mean\":\"x\"}");
    assert!(matches!(r, Err(WreqError::Shape { .. })));
    let r = WorkloadRequest::from_json("[1,2]");
    assert!(matches!(r, Err(WreqError::Json(_))));
    let r = WorkloadRequest::from_json("not json");
    assert!(matches!(r, Err(WreqError::Json(_))));
}

#[test]
fn wreq_ignores_unknown_members() {
    let req =
        WorkloadRequest::from_json("{\"bench\":\"b\",\"payload\":\"p\",\"other\":[1,2]}").unwrap();
    assert_eq!(req.bench, "b");
    assert_eq!(req.payload, "p");
}

#[test]
fn wreq_eq_and_order_over_bench_and_payload() {
    let a = WorkloadRequest::new(
        Some(serde_json::Value::from(1.0f64)),
        None,
        "a".to_string(),
        "x".to_string(),
    );
    let b = WorkloadRequest::new(None, None, "a".to_string(), "x".to_string());
    assert_eq!(a, b);

    let c = WorkloadRequest::new(None, None, "b".to_string(), "a".to_string());
    assert_ne!(a, c);
    assert_eq!(a.partial_cmp(&c), Some(Ordering::Less));
    let d = WorkloadRequest::new(None, None, "a".to_string(), "y".to_string());
    assert_eq!(a.partial_cmp(&d), Some(Ordering::Less));
    assert_eq!(d.partial_cmp(&a), Some(Ordering::Greater));
    assert_eq!(a.partial_cmp(&b), Some(Ordering::Equal));
}
