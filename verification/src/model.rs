//! The required semantics of the storage contract, stated over an abstract
//! medium: a map from paths (object keys) to byte contents. Every backend
//! must honor these effects — the local backend through the host filesystem,
//! the object backend through key and prefix operations against its bucket —
//! and the proofs here establish the cross-operation laws the contract
//! promises: round-trips, idempotent directory creation, no-op deletion of an
//! empty prefix, copy preserving content, the two backends' divergent create
//! and remove-missing semantics.

use vstd::prelude::*;

verus! {

/// The abstract content of a backend's storage medium: each present path
/// (for the object backend, each key) maps to its byte content.
pub type StoredBytes = Map<Seq<char>, Seq<u8>>;

/// What reading a path returns on either backend: the stored bytes when the
/// path is present, and an error (here `None`) when it is absent.
pub open spec fn read_result(files: StoredBytes, path: Seq<char>) -> Option<Seq<u8>> {
    if files.dom().contains(path) {
        Option::Some(files[path])
    } else {
        Option::None
    }
}

/// Whether a local write succeeds: the local backend opens the target
/// without create semantics, so the target must already exist.
pub open spec fn local_write_ok(files: StoredBytes, path: Seq<char>) -> bool {
    files.dom().contains(path)
}

/// The medium after a local write: the content is replaced when the target
/// exists, and nothing changes when the write fails.
pub open spec fn local_write_effect(
    files: StoredBytes,
    path: Seq<char>,
    buf: Seq<u8>,
) -> StoredBytes {
    if local_write_ok(files, path) {
        files.insert(path, buf)
    } else {
        files
    }
}

/// The medium after a local `create_file`: an empty target exists at the
/// path afterwards (an existing one is truncated). The operation always
/// succeeds.
pub open spec fn local_create_file_effect(files: StoredBytes, path: Seq<char>) -> StoredBytes {
    files.insert(path, Seq::<u8>::empty())
}

/// Whether a local `remove_file` succeeds: the path must exist.
pub open spec fn local_remove_file_ok(files: StoredBytes, path: Seq<char>) -> bool {
    files.dom().contains(path)
}

/// The medium after a local `remove_file`: the path is gone when it existed,
/// and nothing changes when the removal fails.
pub open spec fn local_remove_file_effect(files: StoredBytes, path: Seq<char>) -> StoredBytes {
    if local_remove_file_ok(files, path) {
        files.remove(path)
    } else {
        files
    }
}

/// The medium after an object-store write: a PUT stores the whole buffer
/// under the key, creating it when absent. The operation needs no prior
/// create.
pub open spec fn object_write_effect(
    files: StoredBytes,
    path: Seq<char>,
    buf: Seq<u8>,
) -> StoredBytes {
    files.insert(path, buf)
}

/// The medium after an object-store `create_file`: untouched, by design —
/// the operation is a documented no-op.
pub open spec fn object_create_file_effect(files: StoredBytes, path: Seq<char>) -> StoredBytes {
    files
}

/// The medium after an object-store `remove_file`: a DELETE of a key
/// succeeds whether or not the key exists, so the operation never fails.
pub open spec fn object_remove_file_effect(files: StoredBytes, path: Seq<char>) -> StoredBytes {
    files.remove(path)
}

/// Whether a copy succeeds on either backend: the source must exist.
pub open spec fn copy_ok(files: StoredBytes, source: Seq<char>) -> bool {
    files.dom().contains(source)
}

/// The medium after a copy on either backend: the target holds the source's
/// content when the source exists, and nothing changes when the copy fails.
pub open spec fn copy_effect(
    files: StoredBytes,
    source: Seq<char>,
    target: Seq<char>,
) -> StoredBytes {
    if copy_ok(files, source) {
        files.insert(target, files[source])
    } else {
        files
    }
}

/// The paths a prefix listing addresses: every present path the given prefix
/// is a prefix of.
pub open spec fn prefix_entries(files: StoredBytes, prefix: Seq<char>) -> Set<Seq<char>> {
    files.dom().filter(|k: Seq<char>| prefix.is_prefix_of(k))
}

/// The medium after removing a whole prefix: exactly the paths the prefix
/// listing addresses are gone.
pub open spec fn remove_prefix_effect(files: StoredBytes, prefix: Seq<char>) -> StoredBytes {
    files.remove_keys(prefix_entries(files, prefix))
}

/// The directories of the local backend after its recursive create: the path
/// exists afterwards, and the host primitive succeeds whether or not it
/// already did.
pub open spec fn local_create_dirs_effect(dirs: Set<Seq<char>>, path: Seq<char>) -> Set<Seq<char>> {
    dirs.insert(path)
}

/// Round-trip, local backend: creating a file, then writing a buffer to it,
/// then reading the path back yields exactly that buffer — the prior create
/// is what entitles the write to succeed.
pub proof fn lemma_local_round_trip(files: StoredBytes, path: Seq<char>, buf: Seq<u8>)
    ensures
        local_write_ok(local_create_file_effect(files, path), path),
        read_result(
            local_write_effect(local_create_file_effect(files, path), path, buf),
            path,
        ) == Option::Some(buf),
{
}

/// Round-trip, object backend: a write needs no prior create, and reading
/// the key back yields exactly the written buffer.
pub proof fn lemma_object_round_trip(files: StoredBytes, path: Seq<char>, buf: Seq<u8>)
    ensures
        read_result(object_write_effect(files, path, buf), path) == Option::Some(buf),
{
}

/// Idempotent directory creation, local backend: creating a directory path
/// twice leaves exactly the state one creation leaves, and neither call
/// fails.
pub proof fn lemma_local_create_dir_all_idempotent(dirs: Set<Seq<char>>, path: Seq<char>)
    ensures
        local_create_dirs_effect(local_create_dirs_effect(dirs, path), path)
            == local_create_dirs_effect(dirs, path),
{
    assert(local_create_dirs_effect(local_create_dirs_effect(dirs, path), path)
        =~= local_create_dirs_effect(dirs, path));
}

/// Empty-prefix deletion is a no-op: removing a prefix that matches zero
/// present paths leaves the medium exactly as it was, and does not fail.
pub proof fn lemma_remove_prefix_empty(files: StoredBytes, prefix: Seq<char>)
    requires
        forall|k: Seq<char>| files.dom().contains(k) ==> !prefix.is_prefix_of(k),
    ensures
        remove_prefix_effect(files, prefix) == files,
{
    assert(remove_prefix_effect(files, prefix) =~= files);
}

/// Copy preserves content, local backend: after creating and writing a
/// buffer at the source and copying the source to the target, the target
/// reads back as that buffer; and when source and target differ, removing
/// the source afterwards succeeds and leaves the target's content untouched.
pub proof fn lemma_local_copy_preserves(
    files: StoredBytes,
    source: Seq<char>,
    target: Seq<char>,
    buf: Seq<u8>,
)
    ensures
        copy_ok(local_write_effect(local_create_file_effect(files, source), source, buf), source),
        read_result(
            copy_effect(
                local_write_effect(local_create_file_effect(files, source), source, buf),
                source,
                target,
            ),
            target,
        ) == Option::Some(buf),
        source != target ==> local_remove_file_ok(
            copy_effect(
                local_write_effect(local_create_file_effect(files, source), source, buf),
                source,
                target,
            ),
            source,
        ),
        source != target ==> read_result(
            local_remove_file_effect(
                copy_effect(
                    local_write_effect(local_create_file_effect(files, source), source, buf),
                    source,
                    target,
                ),
                source,
            ),
            target,
        ) == Option::Some(buf),
{
}

/// Copy preserves content, object backend: after writing a buffer at the
/// source and copying the source to the target, the target reads back as
/// that buffer; and when source and target differ, removing the source
/// afterwards leaves the target's content untouched.
pub proof fn lemma_object_copy_preserves(
    files: StoredBytes,
    source: Seq<char>,
    target: Seq<char>,
    buf: Seq<u8>,
)
    ensures
        copy_ok(object_write_effect(files, source, buf), source),
        read_result(
            copy_effect(object_write_effect(files, source, buf), source, target),
            target,
        ) == Option::Some(buf),
        source != target ==> read_result(
            object_remove_file_effect(
                copy_effect(object_write_effect(files, source, buf), source, target),
                source,
            ),
            target,
        ) == Option::Some(buf),
{
}

/// Divergent create semantics, documented per backend: on the local backend
/// a created path shows up under every prefix of it, so a listing of its
/// parent includes it; on the object backend `create_file` leaves the medium
/// untouched, so no listing may be assumed to include a path that was only
/// created, never written.
pub proof fn lemma_divergent_create(files: StoredBytes, path: Seq<char>, prefix: Seq<char>)
    ensures
        prefix.is_prefix_of(path) ==> prefix_entries(
            local_create_file_effect(files, path),
            prefix,
        ).contains(path),
        object_create_file_effect(files, path) == files,
        prefix_entries(object_create_file_effect(files, path), prefix) == prefix_entries(
            files,
            prefix,
        ),
{
}

/// Missing-file removal: the local backend reports an error for an absent
/// path and leaves the medium unchanged; the object backend's delete of an
/// absent key succeeds — the store's documented behavior — and leaves the
/// medium unchanged as well.
pub proof fn lemma_remove_missing(files: StoredBytes, path: Seq<char>)
    requires
        !files.dom().contains(path),
    ensures
        !local_remove_file_ok(files, path),
        object_remove_file_effect(files, path) == files,
{
    assert(object_remove_file_effect(files, path) =~= files);
}

} // verus!
