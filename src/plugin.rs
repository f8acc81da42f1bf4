use vstd::prelude::*;

use rusoto_s3::S3Client;
use tokio::runtime::Runtime;

use crate::bridge::{
    client_for, collect_body, delete_object, get_object, list_buckets, put_object,
    shutdown_runtime, start_runtime,
};
use crate::codes::{STORAGE_AREA_PLUGIN, SUCCESS};
use crate::config::Config;
use crate::store::{
    bytes_of, create_outcome, range_outcome, range_result, remove_outcome, store_failure,
    whole_outcome, StoreError,
};

verus! {

/// Seconds that finalize grants the execution bridge to drain.
pub const SHUTDOWN_GRACE_SECS: u64 = 5;

/// State that every callback shares: the store settings and the execution
/// bridge, which is present from a successful start until finalize.
pub struct AppState {
    pub runtime: Option<Runtime>,
    pub config: Config,
}

/// The state is there and its execution bridge still runs.
pub open spec fn serving(state: Option<&AppState>) -> bool {
    state is Some && state.unwrap().runtime is Some
}

impl AppState {
    /// Starts the execution bridge and keeps it with `config`; `None` when
    /// the bridge could not be started.
    pub fn start(config: Config) -> (r: Option<AppState>)
        ensures
            r is Some ==> r.unwrap().runtime is Some && r.unwrap().config == config,
    {
        match start_runtime() {
            Some(rt) => Some(AppState { runtime: Some(rt), config }),
            None => None,
        }
    }

    /// Whether the execution bridge still runs.
    pub fn is_running(&self) -> (r: bool)
        ensures
            r == self.runtime is Some,
    {
        self.runtime.is_some()
    }
}

/// Takes the execution bridge out of the state and shuts it down, granting
/// it the grace period to drain. Safe to call on a state whose bridge is
/// already gone.
pub fn finalize(state: &mut AppState)
    ensures
        final(state).runtime is None,
        final(state).config == old(state).config,
{
    let rt = state.runtime.take();
    if let Some(rt) = rt {
        shutdown_runtime(rt, SHUTDOWN_GRACE_SECS);
    }
}

/// Startup reachability check: lists the buckets that the configured
/// credentials can see and returns their names. Fails with `Shutdown` when
/// the bridge is gone, `Client` when no client can be built, and with the
/// store's failure when the listing fails.
pub fn discover_buckets(state: &AppState) -> (r: Result<Vec<String>, StoreError>)
    ensures
        r == Err::<Vec<String>, StoreError>(StoreError::Shutdown) <==> state.runtime is None,
        r is Err && state.runtime is Some ==> r->Err_0 == StoreError::Client || store_failure(
            r->Err_0,
        ),
{
    let rt = match &state.runtime {
        Some(rt) => rt,
        None => return Err(StoreError::Shutdown),
    };
    let client = match client_for(&state.config) {
        Some(c) => c,
        None => return Err(StoreError::Client),
    };
    buckets_outcome(list_buckets(rt, &client))
}

/// Names of the listed buckets when the listing succeeded, else its failure.
pub fn buckets_outcome(listed: Result<Vec<Option<String>>, StoreError>) -> (r: Result<
    Vec<String>,
    StoreError,
>)
    ensures
        r is Ok <==> listed is Ok,
        r is Ok ==> r->Ok_0@ == present_names(listed->Ok_0@),
        r is Err ==> r->Err_0 == listed->Err_0,
{
    match listed {
        Ok(names) => Ok(named(&names)),
        Err(e) => Err(e),
    }
}

/// The names that are present, in order.
pub open spec fn present_names(names: Seq<Option<String>>) -> Seq<String>
    decreases names.len(),
{
    if names.len() == 0 {
        Seq::empty()
    } else {
        let rest = present_names(names.drop_last());
        match names.last() {
            Some(n) => rest.push(n),
            None => rest,
        }
    }
}

/// Keeps the names that are present, in order.
pub fn named(names: &Vec<Option<String>>) -> (r: Vec<String>)
    ensures
        r@ == present_names(names@),
{
    let mut out: Vec<String> = Vec::new();
    let mut i: usize = 0;
    while i < names.len()
        invariant
            i <= names@.len(),
            out@ == present_names(names@.subrange(0, i as int)),
        decreases names@.len() - i,
    {
        proof {
            assert(names@.subrange(0, i + 1).drop_last() =~= names@.subrange(0, i as int));
        }
        match &names[i] {
            Some(n) => out.push(n.clone()),
            None => {},
        }
        i = i + 1;
    }
    proof {
        assert(names@.subrange(0, names@.len() as int) =~= names@);
    }
    out
}

/// Where an object lives: a bucket and the key in it.
pub struct ObjectRef {
    pub bucket: String,
    pub key: String,
}

/// The object that `key` names: the key as given, in the configured bucket.
pub fn object_ref(config: &Config, key: &str) -> (r: ObjectRef)
    ensures
        r.bucket@ == config.s3_bucket@,
        r.key@ == key@,
{
    ObjectRef { bucket: config.s3_bucket.clone(), key: key.to_owned() }
}

/// The error that a storage call gives before any request, if any: the
/// state is absent, its bridge is gone, or the key could not be read.
pub open spec fn early_error(state: Option<&AppState>, key: Option<&str>) -> Option<StoreError> {
    if state is None {
        Some(StoreError::Unavailable)
    } else if state.unwrap().runtime is None {
        Some(StoreError::Shutdown)
    } else if key is None {
        Some(StoreError::InvalidKey)
    } else {
        None
    }
}

/// A failure that comes after the early checks: no client, or the store's.
pub open spec fn late_error(e: StoreError) -> bool {
    e == StoreError::Client || store_failure(e)
}

/// Puts `content`, unchanged, under `key` in the configured bucket,
/// replacing any earlier object. Fails before any request with the early
/// error, if there is one; after it only with `Client` or the store's
/// failure.
pub fn create_object(state: Option<&AppState>, key: Option<&str>, content: Vec<u8>) -> (r: Result<
    (),
    StoreError,
>)
    ensures
        early_error(state, key) is Some ==> r == Err::<(), StoreError>(
            early_error(state, key).unwrap(),
        ),
        early_error(state, key) is None && r is Err ==> late_error(r->Err_0),
        r == Err::<(), StoreError>(StoreError::Unavailable) <==> state is None,
        r == Err::<(), StoreError>(StoreError::Shutdown) <==> state is Some
            && state.unwrap().runtime is None,
        r == Err::<(), StoreError>(StoreError::InvalidKey) <==> serving(state) && key is None,
{
    let state = match state {
        Some(s) => s,
        None => return Err(StoreError::Unavailable),
    };
    let rt = match &state.runtime {
        Some(rt) => rt,
        None => return Err(StoreError::Shutdown),
    };
    let key = match key {
        Some(k) => k,
        None => return Err(StoreError::InvalidKey),
    };
    let client = match client_for(&state.config) {
        Some(c) => c,
        None => return Err(StoreError::Client),
    };
    let obj = object_ref(&state.config, key);
    put_object(rt, &client, &obj, content)
}

/// Stores `content` under `key`, replacing any earlier object; the content
/// type does not change what is stored. Succeeds exactly when the put did.
pub fn storage_create(state: Option<&AppState>, key: Option<&str>, content: Vec<u8>, _content_type: i32) -> (r:
    i32)
    ensures
        r == SUCCESS || r == STORAGE_AREA_PLUGIN,
        early_error(state, key) is Some ==> r == STORAGE_AREA_PLUGIN,
{
    create_outcome(create_object(state, key, content))
}

/// Fetches the whole object at `obj`, chunk by chunk.
fn fetch(rt: &Runtime, client: &S3Client, obj: &ObjectRef) -> (r: Result<Vec<u8>, StoreError>)
    ensures
        r is Err ==> store_failure(r->Err_0),
{
    match get_object(rt, client, obj) {
        Ok(body) => collect_body(rt, body),
        Err(e) => Err(e),
    }
}

/// Fetches the whole object under `key` in the configured bucket. Fails
/// before any request with the early error, if there is one; after it only
/// with `Client` or the store's failure (`NoSuchKey` for a missing object).
pub fn read_object(state: Option<&AppState>, key: Option<&str>) -> (r: Result<Vec<u8>, StoreError>)
    ensures
        early_error(state, key) is Some ==> r == Err::<Vec<u8>, StoreError>(
            early_error(state, key).unwrap(),
        ),
        early_error(state, key) is None && r is Err ==> late_error(r->Err_0),
        r == Err::<Vec<u8>, StoreError>(StoreError::Unavailable) <==> state is None,
        r == Err::<Vec<u8>, StoreError>(StoreError::Shutdown) <==> state is Some
            && state.unwrap().runtime is None,
        r == Err::<Vec<u8>, StoreError>(StoreError::InvalidKey) <==> serving(state) && key is None,
{
    let state = match state {
        Some(s) => s,
        None => return Err(StoreError::Unavailable),
    };
    let rt = match &state.runtime {
        Some(rt) => rt,
        None => return Err(StoreError::Shutdown),
    };
    let key = match key {
        Some(k) => k,
        None => return Err(StoreError::InvalidKey),
    };
    let client = match client_for(&state.config) {
        Some(c) => c,
        None => return Err(StoreError::Client),
    };
    let obj = object_ref(&state.config, key);
    fetch(rt, &client, &obj)
}

/// Reads the whole object under `key`: the fetched bytes, unchanged, or the
/// generic code when the read failed.
pub fn storage_read_whole(state: Option<&AppState>, key: Option<&str>, _content_type: i32) -> (r:
    Result<Vec<u8>, i32>)
    ensures
        r is Err ==> r == Err::<Vec<u8>, i32>(STORAGE_AREA_PLUGIN),
        early_error(state, key) is Some ==> r is Err,
{
    whole_outcome(read_object(state, key))
}

/// Reads `size` bytes from `range_start` of the object under `key`. An
/// empty range succeeds at once, with nothing fetched, whatever the key.
/// Otherwise the whole object is fetched and the answer is exactly
/// `range_result` of what came back: the slice when the range lies inside
/// the object, the generic code when it reaches past the end, the object is
/// missing, or the fetch failed.
pub fn storage_read_range(
    state: Option<&AppState>,
    key: Option<&str>,
    _content_type: i32,
    range_start: u64,
    size: u64,
) -> (r: Result<Vec<u8>, i32>)
    ensures
        state is None ==> r == Err::<Vec<u8>, i32>(STORAGE_AREA_PLUGIN),
        state is Some && size == 0 ==> r is Ok && r->Ok_0@.len() == 0,
        size > 0 && early_error(state, key) is Some ==> r == Err::<Vec<u8>, i32>(
            STORAGE_AREA_PLUGIN,
        ),
        state is Some && size > 0 ==> exists|fetched: Result<Seq<u8>, StoreError>|
            bytes_of(r) == #[trigger] range_result(fetched, range_start as nat, size as nat),
        r is Err ==> r == Err::<Vec<u8>, i32>(STORAGE_AREA_PLUGIN),
        r is Ok ==> r->Ok_0@.len() == size,
{
    if state.is_none() {
        return Err(STORAGE_AREA_PLUGIN);
    }
    if size == 0 {
        return Ok(Vec::new());
    }
    let fetched = read_object(state, key);
    let r = range_outcome(fetched, range_start, size);
    proof {
        let f = bytes_of(fetched);
        assert(bytes_of(r) == range_result(f, range_start as nat, size as nat));
    }
    r
}

/// Deletes the object under `key` in the configured bucket. Fails before
/// any request with the early error, if there is one; after it only with
/// `Client` or the store's failure.
pub fn remove_object(state: Option<&AppState>, key: Option<&str>) -> (r: Result<(), StoreError>)
    ensures
        early_error(state, key) is Some ==> r == Err::<(), StoreError>(
            early_error(state, key).unwrap(),
        ),
        early_error(state, key) is None && r is Err ==> late_error(r->Err_0),
        r == Err::<(), StoreError>(StoreError::Unavailable) <==> state is None,
        r == Err::<(), StoreError>(StoreError::Shutdown) <==> state is Some
            && state.unwrap().runtime is None,
        r == Err::<(), StoreError>(StoreError::InvalidKey) <==> serving(state) && key is None,
{
    let state = match state {
        Some(s) => s,
        None => return Err(StoreError::Unavailable),
    };
    let rt = match &state.runtime {
        Some(rt) => rt,
        None => return Err(StoreError::Shutdown),
    };
    let key = match key {
        Some(k) => k,
        None => return Err(StoreError::InvalidKey),
    };
    let client = match client_for(&state.config) {
        Some(c) => c,
        None => return Err(StoreError::Client),
    };
    let obj = object_ref(&state.config, key);
    delete_object(rt, &client, &obj)
}

/// Removes the object under `key`; a missing object counts as removed.
pub fn storage_remove(state: Option<&AppState>, key: Option<&str>, _content_type: i32) -> (r: i32)
    ensures
        r == SUCCESS || r == STORAGE_AREA_PLUGIN,
        early_error(state, key) is Some ==> r == STORAGE_AREA_PLUGIN,
{
    remove_outcome(remove_object(state, key))
}

} // verus!
