//! A backend-agnostic file/object storage abstraction.
//!
//! One contract covers file and directory operations (read, write, create,
//! remove, copy, list, recursive create/remove); it is satisfied either by a
//! local filesystem rooted at a fixed directory or by an S3-compatible object
//! store that emulates directories over key prefixes. Callers pick a backend
//! once, by configuration, and afterwards hold only a
//! [`contract::StorageHandle`].

use vstd::prelude::*;

pub mod contract;
pub mod local;
pub mod model;
pub mod s3;

pub use contract::{
    BuildError, Builder, ConfigSource, FileStorage, StorageConfig, StorageError, StorageHandle,
};

use crate::contract::resolved;
use crate::local::{LocalConfig, LocalFileStorageBuilder};
use crate::s3::{S3Config, S3FileStorageBuilder};

verus! {

/// The backend kinds a caller can select.
pub enum StorageType {
    S3,
    Local,
}

/// The single entry operation: resolves the configuration of the selected
/// backend kind from the given raw settings and hands back a ready handle.
/// Every missing setting falls back to its documented default, so
/// construction of the handle itself never fails.
pub fn build_storage(storage_type: StorageType, source: &ConfigSource) -> (h: StorageHandle)
    ensures
        match storage_type {
            StorageType::S3 => h matches StorageHandle::S3(st) && st.bucket@ == resolved(
                source.bucket,
                "file-storage-bucket"@,
            ) && st.region@ == resolved(source.region, "us-west-2"@) && st.endpoint@ == resolved(
                source.endpoint,
                "http://localhost:4566"@,
            ),
            StorageType::Local => h matches StorageHandle::Local(st) && st.root_path@ == resolved(
                source.root_path,
                Seq::<char>::empty(),
            ),
        },
{
    match storage_type {
        StorageType::S3 => {
            let config = S3Config::default().load(source);
            let builder = S3FileStorageBuilder::with_config(config);
            builder.build().unwrap()
        },
        StorageType::Local => {
            let config = LocalConfig::default().load(source);
            let builder = LocalFileStorageBuilder::with_config(config);
            builder.build().unwrap()
        },
    }
}

} // verus!
