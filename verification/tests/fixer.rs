use faasrail_loadgen::fixer::{fix_fbpml_payload, FbpmlPayloadFixer, FixerError};
use faasrail_loadgen::WorkloadRequest;

fn wreq_with_payload(payload: &str) -> WorkloadRequest {
    WorkloadRequest::new(None, None, "f".to_string(), payload.to_string())
}

#[test]
fn fixer_rewrites_and_is_idempotent() {
    let mut req = wreq_with_payload(
        "{\"minio_address\":\"old\",\"bucket_name\":\"b\",\"extra\":1}",
    );
    let original = req.payload.clone();
    let fixer = FbpmlPayloadFixer::new("new", "b");
    fixer.fix_payload(&mut req).expect("fix failed");

    let v: serde_json::Value = serde_json::from_str(&req.payload).unwrap();
    assert_eq!(v.get("minio_address").unwrap().as_str(), Some("new"));
    assert_eq!(v.get("bucket_name").unwrap().as_str(), Some("b"));
    assert_eq!(v.get("extra").unwrap().as_u64(), Some(1));
    assert_ne!(req.payload, original);

    let once = req.payload.clone();
    fixer.fix_payload(&mut req).expect("second fix failed");
    assert_eq!(req.payload, once);
}

#[test]
fn fixer_missing_keys_is_noop() {
    let mut req = wreq_with_payload("{\"x\":1}");
    fix_fbpml_payload(&mut req, "new-address", "new-bucket").expect("fix failed");
    let before: serde_json::Value = serde_json::from_str("{\"x\":1}").unwrap();
    let after: serde_json::Value = serde_json::from_str(&req.payload).unwrap();
    assert_eq!(before, after);
    assert!(after.get("minio_address").is_none());
    assert!(after.get("bucket_name").is_none());
}

#[test]
fn fixer_rejects_non_object_payload() {
    let mut req = wreq_with_payload("[1,2]");
    let r = fix_fbpml_payload(&mut req, "a", "b");
    assert!(matches!(r, Err(FixerError::JsonDeserialization(_))));
    assert_eq!(req.payload, "[1,2]");

    let mut req = wreq_with_payload("3");
    let r = fix_fbpml_payload(&mut req, "a", "b");
    assert!(matches!(r, Err(FixerError::JsonDeserialization(_))));
}

#[test]
fn fixer_preserves_other_members() {
    let mut req = wreq_with_payload(
        "{\"zeta\":true,\"minio_address\":\"old\",\"alpha\":[1,2],\"nested\":{\"k\":\"v\"}}",
    );
    fix_fbpml_payload(&mut req, "host:9", "bucket").expect("fix failed");
    let v: serde_json::Value = serde_json::from_str(&req.payload).unwrap();
    assert_eq!(v.get("zeta").unwrap().as_bool(), Some(true));
    assert_eq!(v.get("alpha").unwrap().as_array().unwrap().len(), 2);
    assert_eq!(v.get("nested").unwrap().get("k").unwrap().as_str(), Some("v"));
    assert_eq!(v.get("minio_address").unwrap().as_str(), Some("host:9"));
    // An absent managed key is not injected.
    assert!(v.get("bucket_name").is_none());
}

#[test]
fn fixer_overwrites_non_string_managed_value() {
    let mut req = wreq_with_payload("{\"minio_address\":17}");
    fix_fbpml_payload(&mut req, "addr", "bucket").expect("fix failed");
    let v: serde_json::Value = serde_json::from_str(&req.payload).unwrap();
    assert_eq!(v.get("minio_address").unwrap().as_str(), Some("addr"));
}
