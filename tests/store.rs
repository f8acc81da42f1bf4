use s3::codes::{STORAGE_AREA_PLUGIN, SUCCESS};
use s3::store::{copy_range, create_outcome, range_outcome, remove_outcome, whole_outcome, StoreError};

#[test]
fn scenario_against_store_replies() {
    let bytes = vec![0x44u8, 0x49, 0x43, 0x4D];
    assert_eq!(create_outcome(Ok(())), SUCCESS);
    assert_eq!(whole_outcome(Ok(bytes.clone())), Ok(vec![0x44u8, 0x49, 0x43, 0x4D]));
    assert_eq!(range_outcome(Ok(bytes.clone()), 1, 2), Ok(vec![0x49u8, 0x43]));
    assert_eq!(remove_outcome(Ok(())), SUCCESS);
    assert_eq!(whole_outcome(Err(StoreError::NoSuchKey)), Err(STORAGE_AREA_PLUGIN));
}

#[test]
fn failed_put_is_reported() {
    assert_eq!(create_outcome(Err(StoreError::Request)), STORAGE_AREA_PLUGIN);
}

#[test]
fn missing_object_removal_succeeds() {
    assert_eq!(remove_outcome(Err(StoreError::NoSuchKey)), SUCCESS);
    assert_eq!(remove_outcome(Err(StoreError::Request)), STORAGE_AREA_PLUGIN);
}

#[test]
fn empty_range_needs_no_object() {
    assert_eq!(range_outcome(Err(StoreError::NoSuchKey), 7, 0), Ok(Vec::new()));
    assert_eq!(range_outcome(Ok(vec![1u8, 2]), 9, 0), Ok(Vec::new()));
}

#[test]
fn range_past_end_is_refused() {
    let content = vec![1u8, 2, 3, 4];
    assert_eq!(copy_range(&content, 3, 2), Err(StoreError::RangeOutOfBounds));
    assert_eq!(copy_range(&content, 5, 0), Err(StoreError::RangeOutOfBounds));
    assert_eq!(copy_range(&content, u64::MAX, 2), Err(StoreError::RangeOutOfBounds));
    assert_eq!(range_outcome(Ok(content.clone()), 3, 2), Err(STORAGE_AREA_PLUGIN));
}

#[test]
fn range_at_edges() {
    let content = vec![1u8, 2, 3, 4];
    assert_eq!(copy_range(&content, 0, 4), Ok(vec![1u8, 2, 3, 4]));
    assert_eq!(copy_range(&content, 4, 0), Ok(Vec::new()));
    assert_eq!(copy_range(&content, 2, 2), Ok(vec![3u8, 4]));
}

#[test]
fn failed_fetch_reads_fail() {
    assert_eq!(whole_outcome(Err(StoreError::Request)), Err(STORAGE_AREA_PLUGIN));
    assert_eq!(range_outcome(Err(StoreError::EmptyBody), 0, 1), Err(STORAGE_AREA_PLUGIN));
}

#[test]
fn whole_read_hands_back_fetched_bytes() {
    assert_eq!(whole_outcome(Ok(vec![2u8, 3])), Ok(vec![2u8, 3]));
    assert_eq!(whole_outcome(Ok(Vec::new())), Ok(Vec::new()));
}
