use file_storage::s3::{
    BucketCreateOutcome, MAX_DELETE_BATCH, PrefixListing, S3FileStorage, bucket_creation_result,
    delete_batches, listing_keys,
};

fn backend() -> S3FileStorage {
    S3FileStorage {
        bucket: String::from("file-storage-bucket"),
        region: String::from("us-west-2"),
        endpoint: String::from("http://localhost:4566"),
    }
}

fn numbered_keys(prefix: &str, n: usize) -> Vec<String> {
    let mut keys = Vec::new();
    for i in 0..n {
        keys.push(format!("{}/{}", prefix, i));
    }
    keys
}

#[test]
fn path_key_mappings_are_identity() {
    let st = backend();
    assert_eq!(st.path_to_key("reports/2024/q1.csv"), "reports/2024/q1.csv");
    assert_eq!(st.key_to_path("reports/2024/q1.csv"), "reports/2024/q1.csv");
    assert_eq!(st.dir_to_prefix("reports/"), "reports/");
}

#[test]
fn copy_source_names_bucket_and_key() {
    let st = backend();
    assert_eq!(st.copy_source("a/b.txt"), "file-storage-bucket/a/b.txt");
}

#[test]
fn create_file_is_a_successful_noop() {
    let st = backend();
    assert!(st.create_file("placeholder").is_ok());
}

#[test]
fn listing_keys_maps_missing_keys_to_empty() {
    let entries = vec![Some(String::from("a")), None, Some(String::from("b"))];
    let keys = listing_keys(&entries);
    assert_eq!(keys, vec![String::from("a"), String::new(), String::from("b")]);
}

#[test]
fn prefix_listing_tracks_token_and_exhaustion() {
    let mut listing = PrefixListing::new();
    assert!(listing.keys.is_empty());
    assert!(listing.token.is_none());
    assert!(!listing.exhausted);

    listing.absorb_page(numbered_keys("p", 3), Some(String::from("tok-1")));
    assert_eq!(listing.keys.len(), 3);
    assert_eq!(listing.token.as_deref(), Some("tok-1"));
    assert!(!listing.exhausted);

    listing.absorb_page(numbered_keys("q", 2), None);
    assert_eq!(listing.keys.len(), 5);
    assert!(listing.token.is_none());
    assert!(listing.exhausted);
    assert_eq!(listing.keys[0], "p/0");
    assert_eq!(listing.keys[3], "q/0");
    assert_eq!(listing.keys[4], "q/1");
}

#[test]
fn listing_larger_than_one_page_is_complete() {
    let all = numbered_keys("bulk", 1500);
    let mut listing = PrefixListing::new();
    listing.absorb_page(all[..1000].to_vec(), Some(String::from("tok")));
    listing.absorb_page(all[1000..].to_vec(), None);
    assert!(listing.exhausted);
    assert_eq!(listing.keys.len(), 1500);
    assert_eq!(listing.keys, all);
}

#[test]
fn delete_batches_of_nothing_is_no_call() {
    let batches = delete_batches(Vec::new());
    assert!(batches.is_empty());
}

#[test]
fn delete_batches_single_key() {
    let batches = delete_batches(vec![String::from("only")]);
    assert_eq!(batches.len(), 1);
    assert_eq!(batches[0], vec![String::from("only")]);
}

#[test]
fn delete_batches_exactly_at_limit() {
    let batches = delete_batches(numbered_keys("k", MAX_DELETE_BATCH));
    assert_eq!(batches.len(), 1);
    assert_eq!(batches[0].len(), MAX_DELETE_BATCH);
}

#[test]
fn delete_batches_splits_past_limit() {
    let all = numbered_keys("k", 1200);
    let batches = delete_batches(all.clone());
    assert_eq!(batches.len(), 2);
    assert_eq!(batches[0].len(), 1000);
    assert_eq!(batches[1].len(), 200);
    let mut rejoined = Vec::new();
    for batch in &batches {
        assert!(!batch.is_empty());
        assert!(batch.len() <= MAX_DELETE_BATCH);
        rejoined.extend(batch.iter().cloned());
    }
    assert_eq!(rejoined, all);
}

#[test]
fn bucket_creation_treats_existing_as_success() {
    assert!(bucket_creation_result(BucketCreateOutcome::Created).is_ok());
    assert!(bucket_creation_result(BucketCreateOutcome::AlreadyExists).is_ok());
    assert!(bucket_creation_result(BucketCreateOutcome::AlreadyOwnedByYou).is_ok());
}

#[test]
fn bucket_creation_propagates_other_failures() {
    match bucket_creation_result(BucketCreateOutcome::Failed(String::from("access denied"))) {
        Err(e) => assert_eq!(e.message(), "access denied"),
        Ok(()) => panic!("a genuine failure must be propagated"),
    }
}
