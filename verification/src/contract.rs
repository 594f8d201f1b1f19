//! The storage contract: the capability surface every backend honors, its two
//! error kinds, and the configuration source that backend settings are
//! resolved from.

use vstd::prelude::*;

use crate::local::LocalFileStorage;
use crate::s3::S3FileStorage;

verus! {

/// The error raised when constructing a backend fails. It carries a
/// human-readable detail string and nothing else.
#[derive(Debug)]
pub struct BuildError {
    details: String,
}

impl View for BuildError {
    type V = Seq<char>;

    closed spec fn view(&self) -> Seq<char> {
        self.details@
    }
}

impl BuildError {
    pub fn new(msg: &str) -> (e: BuildError)
        ensures
            e@ == msg@,
    {
        BuildError { details: msg.to_owned() }
    }

    /// The detail string given when the error was made.
    pub fn message(&self) -> (m: &str)
        ensures
            m@ == self@,
    {
        self.details.as_str()
    }
}

/// The single error kind every contract operation reports: a generic I/O
/// failure carrying a human-readable detail string. Backend-native failures
/// are flattened into this kind; callers branch on presence of an error, not
/// on backend-specific subtypes.
#[derive(Debug)]
pub struct StorageError {
    details: String,
}

impl View for StorageError {
    type V = Seq<char>;

    closed spec fn view(&self) -> Seq<char> {
        self.details@
    }
}

impl StorageError {
    pub fn new(msg: &str) -> (e: StorageError)
        ensures
            e@ == msg@,
    {
        StorageError { details: msg.to_owned() }
    }

    pub fn from_string(msg: String) -> (e: StorageError)
        ensures
            e@ == msg@,
    {
        StorageError { details: msg }
    }

    /// The detail string given when the error was made.
    pub fn message(&self) -> (m: &str)
        ensures
            m@ == self@,
    {
        self.details.as_str()
    }
}

/// The raw settings a process supplies to configuration loading: each field
/// holds the value of one environment-style variable, or `None` where the
/// variable is unset. Resolution never fails; a missing value falls back to a
/// documented default.
pub struct ConfigSource {
    /// Raw `ROOT_PATH` value (local backend).
    pub root_path: Option<String>,
    /// Raw `BUCKET` value (object backend).
    pub bucket: Option<String>,
    /// Raw `REGION` value (object backend).
    pub region: Option<String>,
    /// Raw `ENDPOINT` value (object backend).
    pub endpoint: Option<String>,
}

/// The value a raw setting resolves to: the given string when set, the
/// documented default otherwise.
pub open spec fn resolved(raw: Option<String>, default: Seq<char>) -> Seq<char> {
    match raw {
        Option::Some(s) => s@,
        Option::None => default,
    }
}

/// A per-backend settings record, resolved once, eagerly, before backend
/// construction.
pub trait StorageConfig: Sized {
    /// What loading from a given source must produce.
    spec fn loads_to(self, source: ConfigSource, r: Self) -> bool;

    /// Resolve this configuration from raw settings. Resolution never fails:
    /// every missing value falls back to its documented default.
    fn load(self, source: &ConfigSource) -> (r: Self)
        ensures
            self.loads_to(*source, r),
    ;
}

/// The caller-facing handle: one of the two concrete backends, exposed only
/// through the storage contract surface.
pub enum StorageHandle {
    Local(LocalFileStorage),
    S3(S3FileStorage),
}

/// Constructs a concrete backend from a resolved configuration.
pub trait Builder<C: StorageConfig>: Sized {
    /// What holding a configuration means for this builder.
    spec fn wraps(self, config: C) -> bool;

    /// What a successful or failed build must look like.
    spec fn builds_to(self, r: Result<StorageHandle, BuildError>) -> bool;

    fn with_config(config: C) -> (r: Self)
        ensures
            r.wraps(config),
    ;

    fn build(self) -> (r: Result<StorageHandle, BuildError>)
        ensures
            self.builds_to(r),
    ;
}

/// The capability set every backend implements. The required semantics of
/// each operation, for both backends, are stated by the spec functions in
/// [`crate::model`]; implementations perform the actual filesystem or
/// object-store I/O and are therefore supplied by the embedding process, not
/// by this crate.
pub trait FileStorage {
    /// Returns the whole content at `path`; fails if absent or unreadable.
    fn read_file(&self, path: &str) -> Result<Vec<u8>, StorageError>;

    /// Overwrites an existing target with `buf`. On the local backend the
    /// target must already exist; the object backend creates it.
    fn write(&mut self, path: &str, buf: &[u8]) -> Result<(), StorageError>;

    /// Creates an empty target on the local backend; a deliberate no-op on
    /// the object backend, which has no empty-object placeholder concept.
    fn create_file(&self, path: &str) -> Result<(), StorageError>;

    /// Removes one target. The local backend fails if it is absent; the
    /// object backend's delete on a missing key succeeds.
    fn remove_file(&self, path: &str) -> Result<(), StorageError>;

    /// Copies `source_path` to `target_path` within the same backend; the
    /// source must exist.
    fn copy(&self, source_path: &str, target_path: &str) -> Result<(), StorageError>;

    /// Lists the entries addressed by `path`, in backend-defined order.
    fn read_dir(&self, path: &str) -> Result<Vec<String>, StorageError>;

    /// Recursively creates the directory (or, on the object backend, the
    /// bucket itself); calling it twice is never an error.
    fn create_dir_all(&self, path: &str) -> Result<(), StorageError>;

    /// Removes every entry addressed by the path prefix; a prefix matching
    /// zero entries succeeds as a no-op.
    fn remove_dir_all(&self, path: &str) -> Result<(), StorageError>;
}

} // verus!
