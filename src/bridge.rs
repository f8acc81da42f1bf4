use vstd::prelude::*;

use futures::TryStreamExt;
use rusoto_core::{ByteStream, HttpClient, Region, RusotoError};
use rusoto_credential::StaticProvider;
use rusoto_s3::{
    DeleteObjectRequest, GetObjectError, GetObjectRequest, PutObjectRequest, S3Client, S3,
};
use tokio::runtime::Runtime;

use crate::config::Config;
use crate::plugin::ObjectRef;
use crate::store::{store_failure, StoreError};

verus! {

/// A multi-worker tokio runtime: the execution bridge that drives the
/// object-store futures to completion for the host's blocking callbacks.
#[verifier::external_type_specification]
#[verifier::external_body]
pub struct ExRuntime(tokio::runtime::Runtime);

/// A rusoto S3 client bound to one endpoint, region and credential set.
#[verifier::external_type_specification]
#[verifier::external_body]
pub struct ExS3Client(rusoto_s3::S3Client);

/// The streamed body of a fetched object.
#[verifier::external_type_specification]
#[verifier::external_body]
pub struct ExByteStream(rusoto_core::ByteStream);

/// Relies on tokio's `runtime::Builder::new_multi_thread().enable_all().build()`:
/// `None` when the runtime could not be started.
#[verifier::external_body]
pub(crate) fn start_runtime() -> (r: Option<Runtime>) {
    tokio::runtime::Builder::new_multi_thread().enable_all().build().ok()
}

/// Relies on tokio's `Runtime::shutdown_timeout`: stops the workers and
/// returns once they are done or `grace_secs` seconds have passed.
#[verifier::external_body]
pub(crate) fn shutdown_runtime(rt: Runtime, grace_secs: u64) {
    rt.shutdown_timeout(std::time::Duration::from_secs(grace_secs))
}

/// Relies on native-tls's `TlsConnector::new`, hyper-tls's
/// `HttpsConnector::from`, and rusoto's `HttpClient::from_connector`,
/// `StaticProvider::new_minimal` and `S3Client::new_with`: a client for the
/// configured endpoint and region that signs with the configured keys, or
/// `None` when no TLS context could be created. No request is sent.
#[verifier::external_body]
pub(crate) fn client_for(config: &Config) -> (r: Option<S3Client>) {
    let tls = native_tls::TlsConnector::new().ok()?;
    let mut http = hyper::client::HttpConnector::new();
    http.enforce_http(false);
    let https = hyper_tls::HttpsConnector::from((http, tokio_native_tls::TlsConnector::from(tls)));
    let credentials = StaticProvider::new_minimal(config.s3_access_key.clone(), config.s3_secret_key.clone());
    let region = Region::Custom { name: config.s3_region.clone(), endpoint: config.s3_endpoint.clone() };
    Some(S3Client::new_with(HttpClient::from_connector(https), credentials, region))
}

/// Relies on rusoto's `S3::put_object`, run on `rt`: stores `body` under
/// `obj.key` in `obj.bucket`, replacing what was there.
#[verifier::external_body]
pub(crate) fn put_object(rt: &Runtime, client: &S3Client, obj: &ObjectRef, body: Vec<u8>) -> (r: Result<
    (),
    StoreError,
>)
    ensures
        r is Err ==> r->Err_0 == StoreError::Request,
{
    let req = PutObjectRequest {
        bucket: obj.bucket.clone(),
        key: obj.key.clone(),
        body: Some(body.into()),
        ..Default::default()
    };
    rt.block_on(client.put_object(req)).map(|_| ()).map_err(|_| StoreError::Request)
}

/// Relies on rusoto's `S3::get_object`, run on `rt`: the body of the object
/// under `obj.key` in `obj.bucket`; the store's "no such key" answer becomes
/// `NoSuchKey`, a reply without a body `EmptyBody`.
#[verifier::external_body]
pub(crate) fn get_object(rt: &Runtime, client: &S3Client, obj: &ObjectRef) -> (r: Result<
    ByteStream,
    StoreError,
>)
    ensures
        r is Err ==> store_failure(r->Err_0),
{
    let req = GetObjectRequest { bucket: obj.bucket.clone(), key: obj.key.clone(), ..Default::default() };
    match rt.block_on(client.get_object(req)) {
        Ok(resp) => resp.body.ok_or(StoreError::EmptyBody),
        Err(RusotoError::Service(GetObjectError::NoSuchKey(_))) => Err(StoreError::NoSuchKey),
        Err(_) => Err(StoreError::Request),
    }
}

/// Relies on futures' `TryStreamExt::try_concat`, run on `rt`: all the
/// chunks of a fetched body, in order.
#[verifier::external_body]
pub(crate) fn collect_body(rt: &Runtime, body: ByteStream) -> (r: Result<Vec<u8>, StoreError>)
    ensures
        r is Err ==> r->Err_0 == StoreError::Request,
{
    rt.block_on(body.map_ok(|chunk| chunk.to_vec()).try_concat()).map_err(|_| StoreError::Request)
}

/// Relies on rusoto's `S3::delete_object`, run on `rt`: removes the object
/// under `obj.key` in `obj.bucket`.
#[verifier::external_body]
pub(crate) fn delete_object(rt: &Runtime, client: &S3Client, obj: &ObjectRef) -> (r: Result<
    (),
    StoreError,
>)
    ensures
        r is Err ==> r->Err_0 == StoreError::Request,
{
    let req = DeleteObjectRequest { bucket: obj.bucket.clone(), key: obj.key.clone(), ..Default::default() };
    rt.block_on(client.delete_object(req)).map(|_| ()).map_err(|_| StoreError::Request)
}

/// Relies on rusoto's `S3::list_buckets`, run on `rt`: the name of each
/// bucket that the credentials can see, where the store gave one; a reply
/// without a bucket list becomes `EmptyBody`.
#[verifier::external_body]
pub(crate) fn list_buckets(rt: &Runtime, client: &S3Client) -> (r: Result<
    Vec<Option<String>>,
    StoreError,
>)
    ensures
        r is Err ==> r->Err_0 == StoreError::Request || r->Err_0 == StoreError::EmptyBody,
{
    match rt.block_on(client.list_buckets()) {
        Ok(resp) => resp.buckets.map(|bs| bs.into_iter().map(|b| b.name).collect()).ok_or(StoreError::EmptyBody),
        Err(_) => Err(StoreError::Request),
    }
}

} // verus!
