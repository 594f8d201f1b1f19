use file_storage::local::{LocalConfig, LocalFileStorageBuilder};
use file_storage::s3::{S3Config, S3FileStorageBuilder};
use file_storage::{
    BuildError, Builder, ConfigSource, StorageConfig, StorageError, StorageHandle, StorageType,
    build_storage,
};

fn empty_source() -> ConfigSource {
    ConfigSource { root_path: None, bucket: None, region: None, endpoint: None }
}

#[test]
fn s3_config_defaults() {
    let config = S3Config::default().load(&empty_source());
    assert_eq!(config.bucket, "file-storage-bucket");
    assert_eq!(config.region, "us-west-2");
    assert_eq!(config.endpoint, "http://localhost:4566");
}

#[test]
fn s3_config_explicit_values() {
    let source = ConfigSource {
        root_path: None,
        bucket: Some(String::from("media")),
        region: Some(String::from("eu-central-1")),
        endpoint: Some(String::from("http://minio:9000")),
    };
    let config = S3Config::default().load(&source);
    assert_eq!(config.bucket, "media");
    assert_eq!(config.region, "eu-central-1");
    assert_eq!(config.endpoint, "http://minio:9000");
}

#[test]
fn local_config_default_root_is_empty() {
    let config = LocalConfig::default().load(&empty_source());
    assert_eq!(config.root_path, "");
}

#[test]
fn local_config_explicit_root() {
    let source = ConfigSource {
        root_path: Some(String::from("/var/data")),
        bucket: None,
        region: None,
        endpoint: None,
    };
    let config = LocalConfig::default().load(&source);
    assert_eq!(config.root_path, "/var/data");
}

#[test]
fn local_builder_always_succeeds() {
    let config = LocalConfig::default().load(&empty_source());
    let built = LocalFileStorageBuilder::with_config(config).build();
    match built {
        Ok(StorageHandle::Local(st)) => assert_eq!(st.root_path, ""),
        _ => panic!("local build must yield a local handle"),
    }
}

#[test]
fn s3_builder_always_succeeds() {
    let source = ConfigSource {
        root_path: None,
        bucket: Some(String::from("b")),
        region: None,
        endpoint: None,
    };
    let config = S3Config::default().load(&source);
    let built = S3FileStorageBuilder::with_config(config).build();
    match built {
        Ok(StorageHandle::S3(st)) => {
            assert_eq!(st.bucket, "b");
            assert_eq!(st.region, "us-west-2");
            assert_eq!(st.endpoint, "http://localhost:4566");
        }
        _ => panic!("object-store build must yield an object-store handle"),
    }
}

#[test]
fn build_storage_selects_local() {
    let source = ConfigSource {
        root_path: Some(String::from("/srv")),
        bucket: None,
        region: None,
        endpoint: None,
    };
    match build_storage(StorageType::Local, &source) {
        StorageHandle::Local(st) => assert_eq!(st.root_path, "/srv"),
        StorageHandle::S3(_) => panic!("selected the wrong backend"),
    }
}

#[test]
fn build_storage_selects_s3_with_defaults() {
    match build_storage(StorageType::S3, &empty_source()) {
        StorageHandle::S3(st) => {
            assert_eq!(st.bucket, "file-storage-bucket");
            assert_eq!(st.region, "us-west-2");
            assert_eq!(st.endpoint, "http://localhost:4566");
        }
        StorageHandle::Local(_) => panic!("selected the wrong backend"),
    }
}

#[test]
fn build_error_keeps_message() {
    let e = BuildError::new("region not found");
    assert_eq!(e.message(), "region not found");
}

#[test]
fn storage_error_keeps_message() {
    let e = StorageError::new("connection refused");
    assert_eq!(e.message(), "connection refused");
    let e2 = StorageError::from_string(String::from("timed out"));
    assert_eq!(e2.message(), "timed out");
}
