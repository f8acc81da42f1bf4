use s3::codes::STORAGE_AREA_PLUGIN;
use s3::config::Config;
use s3::plugin::{
    buckets_outcome, create_object, discover_buckets, finalize, named, object_ref, read_object,
    remove_object, storage_create, storage_read_range, storage_read_whole,
    storage_remove, AppState,
};
use s3::store::StoreError;

fn unreachable_config() -> Config {
    Config {
        s3_endpoint: "http://127.0.0.1:9".to_string(),
        s3_access_key: "AK".to_string(),
        s3_secret_key: "SK".to_string(),
        s3_bucket: "orthanc".to_string(),
        s3_region: "us-east-1".to_string(),
    }
}

#[test]
fn absent_state_fails_every_storage_call() {
    assert_eq!(storage_create(None, Some("abc-123"), vec![1u8], 1), STORAGE_AREA_PLUGIN);
    assert_eq!(storage_read_whole(None, Some("abc-123"), 1), Err(STORAGE_AREA_PLUGIN));
    assert_eq!(storage_read_range(None, Some("abc-123"), 1, 0, 2), Err(STORAGE_AREA_PLUGIN));
    assert_eq!(storage_remove(None, Some("abc-123"), 1), STORAGE_AREA_PLUGIN);
}

#[test]
fn unreadable_key_fails_without_request() {
    let mut state = AppState::start(unreachable_config()).expect("runtime");
    assert_eq!(storage_create(Some(&state), None, vec![1u8], 1), STORAGE_AREA_PLUGIN);
    assert_eq!(storage_read_whole(Some(&state), None, 1), Err(STORAGE_AREA_PLUGIN));
    assert_eq!(storage_read_range(Some(&state), None, 1, 0, 2), Err(STORAGE_AREA_PLUGIN));
    assert_eq!(storage_remove(Some(&state), None, 1), STORAGE_AREA_PLUGIN);
    finalize(&mut state);
}

#[test]
fn empty_range_succeeds_for_any_key() {
    let mut state = AppState::start(unreachable_config()).expect("runtime");
    assert_eq!(storage_read_range(Some(&state), Some("missing"), 1, 0, 0), Ok(Vec::new()));
    assert_eq!(storage_read_range(Some(&state), None, 1, 5, 0), Ok(Vec::new()));
    finalize(&mut state);
}

#[test]
fn finalize_stops_the_bridge() {
    let mut state = AppState::start(unreachable_config()).expect("runtime");
    assert!(state.is_running());
    finalize(&mut state);
    assert!(!state.is_running());
    assert_eq!(state.config.s3_bucket, "orthanc");
    assert_eq!(storage_create(Some(&state), Some("abc-123"), vec![1u8], 1), STORAGE_AREA_PLUGIN);
    assert_eq!(storage_read_whole(Some(&state), Some("abc-123"), 1), Err(STORAGE_AREA_PLUGIN));
    assert_eq!(storage_read_range(Some(&state), Some("abc-123"), 1, 0, 1), Err(STORAGE_AREA_PLUGIN));
    assert_eq!(storage_remove(Some(&state), Some("abc-123"), 1), STORAGE_AREA_PLUGIN);
    assert_eq!(discover_buckets(&state), Err(StoreError::Shutdown));
    finalize(&mut state);
    assert!(!state.is_running());
}

#[test]
fn unreachable_store_fails_reads_and_writes() {
    let mut state = AppState::start(unreachable_config()).expect("runtime");
    assert_eq!(storage_read_whole(Some(&state), Some("abc-123"), 1), Err(STORAGE_AREA_PLUGIN));
    assert_eq!(storage_read_range(Some(&state), Some("abc-123"), 1, 1, 2), Err(STORAGE_AREA_PLUGIN));
    assert_eq!(storage_create(Some(&state), Some("abc-123"), vec![0x44u8], 1), STORAGE_AREA_PLUGIN);
    assert!(discover_buckets(&state).is_err());
    finalize(&mut state);
}

#[test]
fn bucket_names_keep_present_ones_in_order() {
    let names = vec![Some("a".to_string()), None, Some("b".to_string())];
    assert_eq!(named(&names), vec!["a".to_string(), "b".to_string()]);
    assert_eq!(named(&Vec::new()), Vec::<String>::new());
}


#[test]
fn object_ref_uses_configured_bucket_and_given_key() {
    let obj = object_ref(&unreachable_config(), "abc-123");
    assert_eq!(obj.bucket, "orthanc");
    assert_eq!(obj.key, "abc-123");
}

#[test]
fn early_errors_are_distinct() {
    assert_eq!(create_object(None, Some("k"), vec![1u8]), Err(StoreError::Unavailable));
    assert_eq!(read_object(None, Some("k")), Err(StoreError::Unavailable));
    assert_eq!(remove_object(None, Some("k")), Err(StoreError::Unavailable));
    let mut state = AppState::start(unreachable_config()).expect("runtime");
    assert_eq!(create_object(Some(&state), None, vec![1u8]), Err(StoreError::InvalidKey));
    assert_eq!(read_object(Some(&state), None), Err(StoreError::InvalidKey));
    assert_eq!(remove_object(Some(&state), None), Err(StoreError::InvalidKey));
    finalize(&mut state);
    assert_eq!(create_object(Some(&state), Some("k"), vec![1u8]), Err(StoreError::Shutdown));
    assert_eq!(read_object(Some(&state), Some("k")), Err(StoreError::Shutdown));
    assert_eq!(remove_object(Some(&state), Some("k")), Err(StoreError::Shutdown));
}

#[test]
fn unreachable_store_reports_request_failure() {
    let mut state = AppState::start(unreachable_config()).expect("runtime");
    assert_eq!(read_object(Some(&state), Some("abc-123")), Err(StoreError::Request));
    assert_eq!(create_object(Some(&state), Some("abc-123"), vec![1u8]), Err(StoreError::Request));
    assert_eq!(discover_buckets(&state), Err(StoreError::Request));
    finalize(&mut state);
}

#[test]
fn bucket_listing_outcome() {
    let listed = Ok(vec![None, Some("orthanc".to_string())]);
    assert_eq!(buckets_outcome(listed), Ok(vec!["orthanc".to_string()]));
    assert_eq!(buckets_outcome(Err(StoreError::EmptyBody)), Err(StoreError::EmptyBody));
}
