//! The payload fixer.
//!
//! Before a worker issues its first request, the function's JSON payload is
//! rewritten so that it points at the experiment's storage endpoint: when the
//! payload object carries a `minio_address` or `bucket_name` member, that
//! member's value is replaced by the configured target string; absent members
//! are not inserted, and every other member is left untouched.  The rewrite
//! is pure and idempotent.

use vstd::prelude::*;

use crate::json::{
    json_string_text, obj_contains_key, obj_from_str, obj_get, obj_insert, obj_model,
    obj_text, obj_to_string, parse_obj, reparseable, val_as_str, val_string, val_text,
};
use crate::strutil::str_eq;
use crate::wreq::WorkloadRequest;

verus! {

/// What can go wrong while fixing a payload.
#[derive(Debug)]
pub enum FixerError {
    /// Re-serialising the rewritten object failed.
    JsonSerialization(serde_json::Error),
    /// The payload is not a JSON object.
    JsonDeserialization(serde_json::Error),
}

pub open spec fn minio_address_key() -> Seq<char> {
    "minio_address"@
}

pub open spec fn bucket_name_key() -> Seq<char> {
    "bucket_name"@
}

/// One key's rewrite: when the object carries `key`, its value becomes the
/// string `target`; otherwise the object is unchanged.
pub open spec fn fix_key_model(
    mo: Map<Seq<char>, Seq<char>>,
    key: Seq<char>,
    target: Seq<char>,
) -> Map<Seq<char>, Seq<char>> {
    if mo.dom().contains(key) {
        mo.insert(key, json_string_text(target))
    } else {
        mo
    }
}

/// The whole rewrite: `minio_address` first, then `bucket_name`.
pub open spec fn fixed_model(
    mo: Map<Seq<char>, Seq<char>>,
    minio_address: Seq<char>,
    bucket_name: Seq<char>,
) -> Map<Seq<char>, Seq<char>> {
    fix_key_model(fix_key_model(mo, minio_address_key(), minio_address), bucket_name_key(), bucket_name)
}

/// Rewriting a payload object twice with the same targets gives the same
/// object as rewriting it once.
pub proof fn lemma_fix_idempotent(
    mo: Map<Seq<char>, Seq<char>>,
    minio_address: Seq<char>,
    bucket_name: Seq<char>,
)
    ensures
        fixed_model(fixed_model(mo, minio_address, bucket_name), minio_address, bucket_name)
            == fixed_model(mo, minio_address, bucket_name),
{
    assert(fixed_model(fixed_model(mo, minio_address, bucket_name), minio_address, bucket_name)
        =~= fixed_model(mo, minio_address, bucket_name));
}

/// The rewrite never adds or removes members: in particular, a payload
/// without `minio_address` stays without it.
pub proof fn lemma_fix_preserves_keys(
    mo: Map<Seq<char>, Seq<char>>,
    minio_address: Seq<char>,
    bucket_name: Seq<char>,
)
    ensures
        fixed_model(mo, minio_address, bucket_name).dom() == mo.dom(),
{
    assert(fixed_model(mo, minio_address, bucket_name).dom() =~= mo.dom());
}

/// Members other than the two managed keys keep their values.
pub proof fn lemma_fix_preserves_other_members(
    mo: Map<Seq<char>, Seq<char>>,
    minio_address: Seq<char>,
    bucket_name: Seq<char>,
    k: Seq<char>,
)
    requires
        k != minio_address_key(),
        k != bucket_name_key(),
    ensures
        fixed_model(mo, minio_address, bucket_name).dom().contains(k) == mo.dom().contains(k),
        mo.dom().contains(k) ==> fixed_model(mo, minio_address, bucket_name)[k] == mo[k],
{
}

/// Rewrite one member of the payload object, if present.  Only string values
/// go in, so a re-parseable object stays re-parseable.
fn fix_one_key(m: &mut serde_json::Map<String, serde_json::Value>, key: &str, target: &str)
    ensures
        obj_model(*final(m)) == fix_key_model(obj_model(*old(m)), key@, target@),
        reparseable(obj_model(*old(m))) ==> reparseable(obj_model(*final(m))),
{
    if obj_contains_key(m, key) {
        let needs_rewrite = match obj_get(m, key) {
            Some(v) => match val_as_str(v) {
                Some(s) => !str_eq(s, target),
                None => true,
            },
            None => true,
        };
        if needs_rewrite {
            obj_insert(m, key, val_string(target));
        } else {
            proof {
                assert(obj_model(*m).insert(key@, json_string_text(target@)) =~= obj_model(*m));
            }
        }
    }
}

/// Rewrite the storage-endpoint members of a request's payload.
///
/// The payload must be a JSON object; on success it is replaced by the
/// canonical serialisation of the rewritten object, and on failure the
/// request is left untouched.
pub fn fix_fbpml_payload(
    req: &mut WorkloadRequest,
    minio_address: &str,
    bucket_name: &str,
) -> (r: Result<(), FixerError>)
    ensures
        r is Ok <==> parse_obj(old(req).payload@) is Some,
        r is Err ==> *final(req) == *old(req) && r->Err_0 is JsonDeserialization,
        r is Ok ==> ({
            let fixed = fixed_model(parse_obj(old(req).payload@)->0, minio_address@, bucket_name@);
            &&& final(req).payload@ == obj_text(fixed)
            &&& parse_obj(final(req).payload@) == Some(fixed)
            &&& fixed_model(fixed, minio_address@, bucket_name@) == fixed
            &&& final(req).bench == old(req).bench
            &&& final(req).mean == old(req).mean
            &&& final(req).stdev == old(req).stdev
        }),
{
    proof {
        if parse_obj(req.payload@) is Some {
            lemma_fix_idempotent(parse_obj(req.payload@)->0, minio_address@, bucket_name@);
        }
    }
    let mut m = match obj_from_str(req.payload.as_str()) {
        Ok(m) => m,
        Err(e) => {
            return Err(FixerError::JsonDeserialization(e));
        },
    };
    fix_one_key(&mut m, "minio_address", minio_address);
    fix_one_key(&mut m, "bucket_name", bucket_name);
    match obj_to_string(&m) {
        Ok(s) => {
            req.payload = s;
            Ok(())
        },
        Err(e) => Err(FixerError::JsonSerialization(e)),
    }
}

/// A fixer configured once with the experiment's storage endpoint.
pub struct FbpmlPayloadFixer {
    minio_address: String,
    bucket_name: String,
}

impl FbpmlPayloadFixer {
    /// The configured storage address.
    pub closed spec fn spec_minio_address(self) -> Seq<char> {
        self.minio_address@
    }

    /// The configured bucket name.
    pub closed spec fn spec_bucket_name(self) -> Seq<char> {
        self.bucket_name@
    }

    pub fn new(minio_address: &str, bucket_name: &str) -> (r: Self)
        ensures
            r.spec_minio_address() == minio_address@,
            r.spec_bucket_name() == bucket_name@,
    {
        FbpmlPayloadFixer { minio_address: minio_address.to_owned(), bucket_name: bucket_name.to_owned() }
    }

    /// Rewrite a request's payload with the configured endpoint.
    pub fn fix_payload(&self, req: &mut WorkloadRequest) -> (r: Result<(), FixerError>)
        ensures
            r is Ok <==> parse_obj(old(req).payload@) is Some,
            r is Err ==> *final(req) == *old(req) && r->Err_0 is JsonDeserialization,
            r is Ok ==> ({
                let fixed = fixed_model(
                    parse_obj(old(req).payload@)->0,
                    self.spec_minio_address(),
                    self.spec_bucket_name(),
                );
                &&& final(req).payload@ == obj_text(fixed)
                &&& parse_obj(final(req).payload@) == Some(fixed)
                &&& fixed_model(fixed, self.spec_minio_address(), self.spec_bucket_name())
                    == fixed
                &&& final(req).bench == old(req).bench
                &&& final(req).mean == old(req).mean
                &&& final(req).stdev == old(req).stdev
            }),
    {
        fix_fbpml_payload(req, self.minio_address.as_str(), self.bucket_name.as_str())
    }
}

} // verus!
