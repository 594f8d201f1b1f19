//! The object-store backend: maps contract operations onto key and prefix
//! operations against a single bucket, emulating directories over flat
//! key/value storage. The translation algorithms — key mapping, exhaustive
//! prefix listing across pages, batched deletion within the store's batch
//! limit, and idempotent bucket creation — are verified here; the network
//! calls themselves are performed by the embedding process.

use vstd::prelude::*;

use crate::contract::{
    BuildError, Builder, ConfigSource, StorageConfig, StorageError, StorageHandle, resolved,
};

verus! {

/// Settings of the object backend. Each raw setting feeds the field of the
/// same name; a missing bucket defaults to `file-storage-bucket`, a missing
/// region to `us-west-2`, and a missing endpoint to `http://localhost:4566`.
pub struct S3Config {
    pub bucket: String,
    pub region: String,
    pub endpoint: String,
}

impl Default for S3Config {
    fn default() -> (c: Self)
        ensures
            c.bucket@ == Seq::<char>::empty(),
            c.region@ == Seq::<char>::empty(),
            c.endpoint@ == Seq::<char>::empty(),
    {
        S3Config { bucket: String::new(), region: String::new(), endpoint: String::new() }
    }
}

impl StorageConfig for S3Config {
    open spec fn loads_to(self, source: ConfigSource, r: Self) -> bool {
        &&& r.bucket@ == resolved(source.bucket, "file-storage-bucket"@)
        &&& r.region@ == resolved(source.region, "us-west-2"@)
        &&& r.endpoint@ == resolved(source.endpoint, "http://localhost:4566"@)
    }

    fn load(self, source: &ConfigSource) -> (r: Self) {
        let bucket = match &source.bucket {
            Option::Some(s) => s.clone(),
            Option::None => String::from_str("file-storage-bucket"),
        };
        let region = match &source.region {
            Option::Some(s) => s.clone(),
            Option::None => String::from_str("us-west-2"),
        };
        let endpoint = match &source.endpoint {
            Option::Some(s) => s.clone(),
            Option::None => String::from_str("http://localhost:4566"),
        };
        S3Config { bucket, region, endpoint }
    }
}

/// The object backend's fixed state: the bucket every key lives in, and the
/// region and endpoint the store's client is to be built with. Each instance
/// addresses exactly one bucket; the client itself is owned by the embedding
/// process.
pub struct S3FileStorage {
    pub bucket: String,
    pub region: String,
    pub endpoint: String,
}

impl S3FileStorage {
    /// Path-to-key mapping: the logical path is used verbatim as the object
    /// key (a seam left for future normalization).
    pub fn path_to_key(&self, path: &str) -> (key: String)
        ensures
            key@ == path@,
    {
        path.to_owned()
    }

    /// Key-to-path mapping: the inverse of [`Self::path_to_key`], also the
    /// identity.
    pub fn key_to_path(&self, key: &str) -> (path: String)
        ensures
            path@ == key@,
    {
        key.to_owned()
    }

    /// Directory-to-prefix mapping: a directory-style path is used verbatim
    /// as a key prefix.
    pub fn dir_to_prefix(&self, dir_path: &str) -> (prefix: String)
        ensures
            prefix@ == dir_path@,
    {
        dir_path.to_owned()
    }

    /// The copy-source naming a server-side copy uses:
    /// `bucket + "/" + source key`.
    pub fn copy_source(&self, source_path: &str) -> (src: String)
        ensures
            src@ == self.bucket@ + "/"@ + source_path@,
    {
        let mut src = self.bucket.clone();
        src.append("/");
        src.append(source_path);
        src
    }

    /// A deliberate no-op: object stores have no concept of a zero-byte
    /// placeholder a caller must pre-create before writing, so creating a
    /// file succeeds without touching the store. A later listing must not be
    /// assumed to include a path that was only created, never written.
    pub fn create_file(&self, _path: &str) -> (r: Result<(), StorageError>)
        ensures
            r is Ok,
    {
        Result::Ok(())
    }
}

pub struct S3FileStorageBuilder {
    pub config: S3Config,
}

impl Builder<S3Config> for S3FileStorageBuilder {
    open spec fn wraps(self, config: S3Config) -> bool {
        self.config == config
    }

    open spec fn builds_to(self, r: Result<StorageHandle, BuildError>) -> bool {
        r matches Result::Ok(StorageHandle::S3(st)) && st.bucket@ == self.config.bucket@
            && st.region@ == self.config.region@ && st.endpoint@ == self.config.endpoint@
    }

    fn with_config(config: S3Config) -> (r: Self) {
        S3FileStorageBuilder { config }
    }

    /// Assembling the backend's fixed state always succeeds; whether the
    /// configured region and endpoint are reachable only shows when the
    /// embedding process builds the store's client from them.
    fn build(self) -> (r: Result<StorageHandle, BuildError>) {
        Result::Ok(
            StorageHandle::S3(
                S3FileStorage {
                    bucket: self.config.bucket,
                    region: self.config.region,
                    endpoint: self.config.endpoint,
                },
            ),
        )
    }
}

/// A prefix listing in progress. One listing call may be truncated by the
/// store's page-size limit, so a listing is complete only once every page has
/// been absorbed and the store reports no continuation token.
pub struct PrefixListing {
    /// Every key absorbed so far, in the order the store returned them.
    pub keys: Vec<String>,
    /// The continuation token the next listing call must carry.
    pub token: Option<String>,
    /// Whether the store has reported the final page.
    pub exhausted: bool,
}

impl PrefixListing {
    /// An empty listing, before the first page.
    pub fn new() -> (st: Self)
        ensures
            st.keys@ == Seq::<String>::empty(),
            st.token is None,
            !st.exhausted,
    {
        PrefixListing { keys: Vec::new(), token: Option::None, exhausted: false }
    }

    /// Absorbs one page of the store's response: appends the page's keys and
    /// keeps the continuation token. The listing is exhausted exactly when
    /// the store hands back no token.
    pub fn absorb_page(&mut self, page: Vec<String>, next_token: Option<String>)
        requires
            !old(self).exhausted,
        ensures
            final(self).keys@ == old(self).keys@ + page@,
            final(self).token == next_token,
            final(self).exhausted == (next_token is None),
    {
        let mut page = page;
        self.keys.append(&mut page);
        self.exhausted = match &next_token {
            Option::Some(_) => false,
            Option::None => true,
        };
        self.token = next_token;
    }
}

/// The keys a listing holds after absorbing the given pages in order,
/// starting from the keys it already held.
pub open spec fn absorbed(init: Seq<String>, pages: Seq<Seq<String>>) -> Seq<String>
    decreases pages.len(),
{
    if pages.len() == 0 {
        init
    } else {
        absorbed(init + pages.first(), pages.drop_first())
    }
}

/// Listing completeness: absorbing every page the store hands back yields
/// exactly the concatenation of all pages' keys, in order — the accumulator
/// neither drops nor invents a key, however many pages the store needs for
/// the prefix.
pub proof fn lemma_listing_complete(init: Seq<String>, pages: Seq<Seq<String>>)
    ensures
        absorbed(init, pages) == init + pages.flatten(),
    decreases pages.len(),
{
    if pages.len() == 0 {
        assert(absorbed(init, pages) =~= init + pages.flatten());
    } else {
        lemma_listing_complete(init + pages.first(), pages.drop_first());
        assert((init + pages.first()) + pages.drop_first().flatten() =~= init + (pages.first()
            + pages.drop_first().flatten()));
    }
}

/// The most keys one batch-delete call may name.
pub const MAX_DELETE_BATCH: usize = 1000;

/// The per-batch key sequences of a batch plan.
pub open spec fn key_views(batches: Seq<Vec<String>>) -> Seq<Seq<String>> {
    batches.map_values(|b: Vec<String>| b@)
}

/// Splits the keys matched by a prefix into the batch-delete calls that
/// remove them: every key lands in exactly one batch, order kept, every
/// batch but the last is exactly full, no batch exceeds the store's limit or
/// is empty, and a prefix matching zero keys yields no call at all.
pub fn delete_batches(keys: Vec<String>) -> (batches: Vec<Vec<String>>)
    ensures
        key_views(batches@).flatten() == keys@,
        forall|i: int|
            0 <= i < batches@.len() ==> 1 <= (#[trigger] batches@[i]@.len()) <= MAX_DELETE_BATCH,
        forall|i: int|
            0 <= i < batches@.len() - 1 ==> (#[trigger] batches@[i]@.len()) == MAX_DELETE_BATCH,
        (batches@.len() == 0) <==> (keys@.len() == 0),
{
    broadcast use Seq::lemma_flatten_push;

    let ghost all = keys@;
    let mut rest = keys;
    let mut batches: Vec<Vec<String>> = Vec::new();
    while rest.len() > MAX_DELETE_BATCH
        invariant
            key_views(batches@).flatten() + rest@ == all,
            forall|i: int|
                0 <= i < batches@.len() ==> (#[trigger] batches@[i]@.len()) == MAX_DELETE_BATCH,
            rest@.len() == 0 ==> all.len() == 0 && batches@.len() == 0,
        decreases rest@.len(),
    {
        let ghost prior = batches@;
        let ghost head = rest@;
        let tail = rest.split_off(MAX_DELETE_BATCH);
        let full = rest;
        batches.push(full);
        rest = tail;
        proof {
            assert(key_views(batches@) =~= key_views(prior).push(full@));
            key_views(prior).lemma_flatten_push(full@);
            assert(key_views(batches@).flatten() + rest@ =~= (key_views(prior).flatten() + full@)
                + rest@);
            assert((key_views(prior).flatten() + full@) + rest@ =~= key_views(prior).flatten() + (
            full@ + rest@));
            assert(full@ + rest@ =~= head);
        }
    }
    if rest.len() > 0 {
        let ghost prior = batches@;
        let last = rest;
        batches.push(last);
        proof {
            assert(key_views(batches@) =~= key_views(prior).push(last@));
            key_views(prior).lemma_flatten_push(last@);
        }
    } else {
        proof {
            assert(key_views(batches@).flatten() =~= key_views(batches@).flatten() + rest@);
        }
    }
    batches
}

/// Rebuilds contract paths from the keys of one listing response page: each
/// key maps through the key-to-path translation, and a key the store left
/// unset maps to the empty path.
pub fn listing_keys(entries: &Vec<Option<String>>) -> (keys: Vec<String>)
    ensures
        keys@.len() == entries@.len(),
        forall|i: int|
            0 <= i < entries@.len() ==> (#[trigger] keys@[i])@ == resolved(
                entries@[i],
                Seq::<char>::empty(),
            ),
{
    let mut keys: Vec<String> = Vec::new();
    let mut i: usize = 0;
    while i < entries.len()
        invariant
            i <= entries@.len(),
            keys@.len() == i,
            forall|j: int|
                0 <= j < i ==> (#[trigger] keys@[j])@ == resolved(
                    entries@[j],
                    Seq::<char>::empty(),
                ),
        decreases entries@.len() - i,
    {
        match &entries[i] {
            Option::Some(s) => keys.push(s.clone()),
            Option::None => keys.push(String::new()),
        }
        i = i + 1;
    }
    keys
}

/// How one bucket-creation call ended, as the embedding process observed it.
pub enum BucketCreateOutcome {
    /// The bucket was newly created.
    Created,
    /// A bucket of that name already exists.
    AlreadyExists,
    /// The bucket already exists and the caller owns it.
    AlreadyOwnedByYou,
    /// Any other service or transport failure, with its detail string.
    Failed(String),
}

/// Whether a bucket-creation outcome counts as success for `create_dir_all`:
/// everything but a genuine failure does.
pub open spec fn bucket_creation_ok(outcome: BucketCreateOutcome) -> bool {
    !(outcome is Failed)
}

/// Settles the contract result of `create_dir_all` on the object backend,
/// which approximates directory creation by creating the bucket itself:
/// "bucket already exists" and "bucket already owned by the caller" count as
/// success — the operation is idempotent — and every other failure is
/// propagated unchanged.
pub fn bucket_creation_result(outcome: BucketCreateOutcome) -> (r: Result<(), StorageError>)
    ensures
        r is Ok <==> bucket_creation_ok(outcome),
        outcome matches BucketCreateOutcome::Failed(d) ==> r matches Result::Err(e) && e@ == d@,
{
    match outcome {
        BucketCreateOutcome::Created => Result::Ok(()),
        BucketCreateOutcome::AlreadyExists => Result::Ok(()),
        BucketCreateOutcome::AlreadyOwnedByYou => Result::Ok(()),
        BucketCreateOutcome::Failed(d) => Result::Err(StorageError::from_string(d)),
    }
}

/// Idempotent directory creation, object backend: a repeat creation of the
/// bucket is answered by the store with "already exists" or "already owned
/// by you", and either answer — like a fresh creation — settles to success,
/// never to an error.
pub proof fn lemma_object_create_dir_all_idempotent()
    ensures
        bucket_creation_ok(BucketCreateOutcome::Created),
        bucket_creation_ok(BucketCreateOutcome::AlreadyExists),
        bucket_creation_ok(BucketCreateOutcome::AlreadyOwnedByYou),
{
}

} // verus!
