use vstd::prelude::*;

verus! {

/// Settings of the object store: where it is, how to sign in, and which
/// bucket and region hold the objects. Loaded once and never changed.
#[derive(Debug, Clone)]
pub struct Config {
    pub s3_endpoint: String,
    pub s3_access_key: String,
    pub s3_secret_key: String,
    pub s3_bucket: String,
    pub s3_region: String,
}

} // verus!
