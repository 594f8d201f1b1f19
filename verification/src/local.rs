//! The local backend: maps every contract operation onto a rooted filesystem
//! subtree. The translation is pure — each logical path resolves to
//! `root_path + "/" + path` by plain string concatenation, with no separator
//! normalization and no defense against `..` segments — and is verified here;
//! the host filesystem calls themselves are performed by the embedding
//! process.

use vstd::prelude::*;

use crate::contract::{
    BuildError, Builder, ConfigSource, StorageConfig, StorageError, StorageHandle, resolved,
};

verus! {

/// Settings of the local backend: one field, the root path. A missing raw
/// value defaults to the empty string, meaning the current directory.
pub struct LocalConfig {
    pub root_path: String,
}

impl Default for LocalConfig {
    fn default() -> (c: Self)
        ensures
            c.root_path@ == Seq::<char>::empty(),
    {
        LocalConfig { root_path: String::new() }
    }
}

impl StorageConfig for LocalConfig {
    open spec fn loads_to(self, source: ConfigSource, r: Self) -> bool {
        r.root_path@ == resolved(source.root_path, Seq::<char>::empty())
    }

    fn load(self, source: &ConfigSource) -> (r: Self) {
        let root_path = match &source.root_path {
            Option::Some(s) => s.clone(),
            Option::None => String::new(),
        };
        LocalConfig { root_path }
    }
}

/// The local backend's fixed state: the base directory established at
/// construction, immutable thereafter.
pub struct LocalFileStorage {
    pub root_path: String,
}

impl LocalFileStorage {
    /// The full path an operation on `path` addresses:
    /// `root_path + "/" + path`, by plain concatenation.
    pub open spec fn resolved_path(&self, path: Seq<char>) -> Seq<char> {
        self.root_path@ + "/"@ + path
    }

    /// Resolves a logical path against the root. Every contract operation of
    /// this backend addresses exactly the resolved path.
    pub fn resolve(&self, path: &str) -> (full: String)
        ensures
            full@ == self.resolved_path(path@),
    {
        let mut full = self.root_path.clone();
        full.append("/");
        full.append(path);
        full
    }
}

pub struct LocalFileStorageBuilder {
    pub config: LocalConfig,
}

impl Builder<LocalConfig> for LocalFileStorageBuilder {
    open spec fn wraps(self, config: LocalConfig) -> bool {
        self.config == config
    }

    open spec fn builds_to(self, r: Result<StorageHandle, BuildError>) -> bool {
        r matches Result::Ok(StorageHandle::Local(st)) && st.root_path@ == self.config.root_path@
    }

    fn with_config(config: LocalConfig) -> (r: Self) {
        LocalFileStorageBuilder { config }
    }

    /// Local construction needs no validation and always succeeds.
    fn build(self) -> (r: Result<StorageHandle, BuildError>) {
        Result::Ok(StorageHandle::Local(LocalFileStorage { root_path: self.config.root_path }))
    }
}

/// How one host call of the recursive directory removal ended, as the
/// embedding process observed it.
pub enum RemoveTreeOutcome {
    /// The subtree existed and was removed.
    Removed,
    /// Nothing exists at the path.
    Missing,
    /// Any other host failure, with its detail string.
    Failed(String),
}

/// Whether a tree-removal outcome counts as success for `remove_dir_all`: a
/// missing subtree is a successful no-op, so everything but a genuine host
/// failure does.
pub open spec fn remove_tree_ok(outcome: RemoveTreeOutcome) -> bool {
    !(outcome is Failed)
}

/// Settles the contract result of `remove_dir_all` on the local backend:
/// removing a subtree that does not exist is a successful no-op, so only a
/// genuine host failure is reported; its detail string is kept unchanged.
pub fn remove_tree_result(outcome: RemoveTreeOutcome) -> (r: Result<(), StorageError>)
    ensures
        r is Ok <==> remove_tree_ok(outcome),
        outcome matches RemoveTreeOutcome::Failed(d) ==> r matches Result::Err(e) && e@ == d@,
{
    match outcome {
        RemoveTreeOutcome::Removed => Result::Ok(()),
        RemoveTreeOutcome::Missing => Result::Ok(()),
        RemoveTreeOutcome::Failed(d) => Result::Err(StorageError::from_string(d)),
    }
}

} // verus!
