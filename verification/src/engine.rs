//! The trusted boundary to the storage engine.
//!
//! Everything in this module that carries `#[verifier::external_body]` is a
//! trusted item: its contract states what the named engine operation does, as
//! the engine's source shows it, and the rest of the crate is verified against
//! these contracts. The contracts describe the engine's state through the
//! ghost [`StoreModel`] carried by [`crate::store::MegadexDb`] and
//! [`WriteTxn`].
//!
//! An environment can be shared: opening a path twice yields one instance,
//! and `get_env` hands the instance out, so a store's ghost view cannot in
//! general know what its relations hold. Every clause that ties an engine
//! result to the ghost view is therefore conditioned on the store being
//! exclusive: built on an environment fresh from `new_temp`, in a directory
//! just created with an unpredictable name, whose handle is consumed by the
//! store and cannot be duplicated. For any other store the wrappers claim
//! only the shape of results and the error taxonomy.

use vstd::prelude::*;

use std::sync::Arc;
use std::sync::RwLock;
use std::sync::RwLockReadGuard;
use std::path::Path;

use crate::error::MegadexDbError;
use crate::model::StoreModel;
use crate::model::add_index_entry;
use crate::model::remove_index_entry;
use crate::model::index_ids;
use crate::model::is_sorted_ids_of;
use crate::model::strictly_sorted_entries;
use crate::store::MegadexDb;

verus! {

// ---------------------------------------------------------------------------
// Declarations of the engine's types. Verus treats values of these types as
// opaque; the wrappers below give their operations contracts.
// ---------------------------------------------------------------------------
#[verifier::external_type_specification]
#[verifier::external_body]
#[verifier::reject_recursive_types(E)]
pub struct ExRkv<E>(rkv::Rkv<E>);

#[verifier::external_type_specification]
#[verifier::external_body]
pub struct ExSafeModeEnvironment(rkv::backend::SafeModeEnvironment);

#[verifier::external_type_specification]
#[verifier::external_body]
pub struct ExSafeModeDatabase(rkv::backend::SafeModeDatabase);

#[verifier::external_type_specification]
#[verifier::external_body]
#[verifier::reject_recursive_types(D)]
pub struct ExSingleStore<D>(rkv::SingleStore<D>);

#[verifier::external_type_specification]
#[verifier::external_body]
#[verifier::reject_recursive_types(D)]
pub struct ExMultiStore<D>(rkv::MultiStore<D>);

#[verifier::external_type_specification]
#[verifier::external_body]
#[verifier::reject_recursive_types(T)]
pub struct ExReader<T>(rkv::Reader<T>);

#[verifier::external_type_specification]
#[verifier::external_body]
#[verifier::reject_recursive_types(T)]
pub struct ExWriter<T>(rkv::Writer<T>);

#[verifier::external_type_specification]
#[verifier::external_body]
pub struct ExSafeModeRoTransaction<'t>(rkv::backend::SafeModeRoTransaction<'t>);

#[verifier::external_type_specification]
#[verifier::external_body]
pub struct ExSafeModeRwTransaction<'t>(rkv::backend::SafeModeRwTransaction<'t>);

#[verifier::external_type_specification]
#[verifier::external_body]
#[verifier::reject_recursive_types(T)]
pub struct ExRwLock<T: ?Sized>(RwLock<T>);

#[verifier::external_type_specification]
#[verifier::external_body]
#[verifier::reject_recursive_types(T)]
pub struct ExRwLockReadGuard<'a, T: ?Sized>(RwLockReadGuard<'a, T>);

/// The opened environment shared by every store built on it.
pub type SafeEnv = rkv::Rkv<rkv::backend::SafeModeEnvironment>;

/// A read transaction: a consistent snapshot of the environment.
pub type SafeReader<'a> = rkv::Reader<rkv::backend::SafeModeRoTransaction<'a>>;

/// A write transaction of the environment.
pub type SafeWriter<'a> = rkv::Writer<rkv::backend::SafeModeRwTransaction<'a>>;

/// A handle to one opened storage environment.
///
/// A `Db` cannot be duplicated, and building a store consumes it, so a store
/// built on a fresh `new_temp` environment is the only handle to its
/// relations and its contracts bind the engine's results to its ghost view.
/// An environment opened by path (`Db::new`) may be shared — one instance
/// per canonical path — and `get_env` hands the instance out; stores over a
/// possibly shared environment keep only the weaker, unconditional clauses.
pub struct Db {
    pub(crate) env: Arc<RwLock<SafeEnv>>,
    pub(crate) fresh: Ghost<bool>,
}

impl Db {
    /// Whether this handle was opened on a newly created, empty environment
    /// that no other handle can reach: every relation opened in it starts
    /// with no entries, and only a store built on this handle ever touches
    /// them. Holds for `new_temp`; nothing is claimed for an environment
    /// opened on an existing path.
    pub closed spec fn is_fresh(&self) -> bool {
        self.fresh@
    }
}

/// An open write transaction together with the ghost contents that the store
/// will hold once the transaction's writes are applied. The wrappers below are
/// the only place where the ghost contents change.
pub(crate) struct WriteTxn<'a> {
    pub(crate) w: SafeWriter<'a>,
    pub(crate) model: Ghost<StoreModel>,
}

impl Db {
    /// Open a fresh environment in a new temporary directory. The directory is
    /// kept for the life of the process, since the engine persists the
    /// environment into it on every commit.
    ///
    /// Relies on tempfile's `Builder::tempdir` to create a fresh directory
    /// under an unpredictable name (so no caller reaches it by path) and on
    /// rkv's `Manager::get_or_create` with `Rkv::new` to open one shared
    /// environment per canonical path.
    #[verifier::external_body]
    pub fn new_temp() -> (r: Result<Db, MegadexDbError>)
        ensures
            r matches Ok(db) ==> db.is_fresh(),
            r matches Err(e) ==> (e matches MegadexDbError::EngineError(_) || e
                matches MegadexDbError::LockError(_)),
    {
        let root = tempfile::Builder::new().prefix("megadex").disable_cleanup(true).tempdir().map_err(
            |e| MegadexDbError::EngineError(format!("{}", e)),
        )?;
        let mut manager = rkv::Manager::<rkv::backend::SafeModeEnvironment>::singleton().write()
            .map_err(|e| MegadexDbError::LockError(format!("{}", e)))?;
        let env = manager.get_or_create(root.path(), rkv::Rkv::new::<rkv::backend::SafeMode>)
            .map_err(|e| MegadexDbError::EngineError(format!("{}", e)))?;
        Ok(Db { env, fresh: Ghost(arbitrary()) })
    }

    /// Open the environment persisted under `dir`, or create it; repeated opens
    /// of the same path share one environment instance.
    ///
    /// Relies on rkv's `Manager::get_or_create` with `Rkv::new`, which caches
    /// one environment per canonical path for the whole process.
    #[verifier::external_body]
    pub fn new(dir: &str) -> (r: Result<Db, MegadexDbError>)
        ensures
            r matches Err(e) ==> (e matches MegadexDbError::EngineError(_) || e
                matches MegadexDbError::LockError(_)),
    {
        let mut manager = rkv::Manager::<rkv::backend::SafeModeEnvironment>::singleton().write()
            .map_err(|e| MegadexDbError::LockError(format!("{}", e)))?;
        let env = manager.get_or_create(Path::new(dir), rkv::Rkv::new::<rkv::backend::SafeMode>)
            .map_err(|e| MegadexDbError::EngineError(format!("{}", e)))?;
        Ok(Db { env, fresh: Ghost(arbitrary()) })
    }
}

/// Relies on `Arc::clone`: the clone is the same shared environment handle.
#[verifier::external_body]
pub(crate) fn arc_clone_env(env: &Arc<RwLock<SafeEnv>>) -> (r: Arc<RwLock<SafeEnv>>)
    ensures
        r == *env,
{
    env.clone()
}

/// Relies on `std::sync::RwLock::read`: acquires the shared environment lock,
/// failing only when the lock is poisoned.
#[verifier::external_body]
pub(crate) fn lock_env<'a>(env: &'a Arc<RwLock<SafeEnv>>) -> (r: Result<
    RwLockReadGuard<'a, SafeEnv>,
    MegadexDbError,
>)
    ensures
        r matches Err(e) ==> e matches MegadexDbError::LockError(_),
{
    env.read().map_err(|e| MegadexDbError::LockError(format!("{}", e)))
}

/// Relies on rkv's `Rkv::read`: begins a read transaction, whose snapshot is
/// taken at this call.
#[verifier::external_body]
pub(crate) fn begin_read<'a, 'b>(env: &'a RwLockReadGuard<'b, SafeEnv>) -> (r: Result<
    SafeReader<'a>,
    MegadexDbError,
>)
    ensures
        r matches Err(e) ==> e matches MegadexDbError::EngineError(_),
{
    env.read().map_err(|e| MegadexDbError::EngineError(format!("{}", e)))
}

/// Relies on rkv's `Rkv::write`: begins a write transaction on a snapshot taken
/// at this call.
#[verifier::external_body]
pub(crate) fn begin_write<'a, 'b>(env: &'a RwLockReadGuard<'b, SafeEnv>) -> (r: Result<
    SafeWriter<'a>,
    MegadexDbError,
>)
    ensures
        r matches Err(e) ==> e matches MegadexDbError::EngineError(_),
{
    env.write().map_err(|e| MegadexDbError::EngineError(format!("{}", e)))
}

/// Relies on rkv's `Rkv::open_single`: opens or creates the single-valued
/// primary relation named `_main_`. The ghost half of the result names the
/// relation's contents at this moment; in a fresh environment the relation
/// was just created and holds nothing.
#[verifier::external_body]
pub(crate) fn open_main(db: &Db) -> (r: Result<
    (rkv::SingleStore<rkv::backend::SafeModeDatabase>, Ghost<Map<Seq<u8>, Seq<u8>>>),
    MegadexDbError,
>)
    ensures
        r matches Ok(p) ==> (db.is_fresh() ==> p.1@ == Map::<Seq<u8>, Seq<u8>>::empty()),
        r matches Err(e) ==> (e matches MegadexDbError::EngineError(_) || e
            matches MegadexDbError::LockError(_)),
{
    let env = db.env.write().map_err(|e| MegadexDbError::LockError(format!("{}", e)))?;
    let store = env.open_single("_main_", rkv::StoreOptions::create()).map_err(
        |e| MegadexDbError::EngineError(format!("{}", e)),
    )?;
    Ok((store, Ghost(arbitrary())))
}

/// Relies on rkv's `Rkv::open_multi`: opens or creates the multi-valued
/// secondary relation named `name`, in which duplicate (value, identifier)
/// pairs collapse and the identifiers under one value are kept in the
/// engine's entry order. The ghost half of the result names the relation's
/// contents at this moment; in a fresh environment the relation was just
/// created and holds nothing.
#[verifier::external_body]
pub(crate) fn open_index(db: &Db, name: &str) -> (r: Result<
    (rkv::MultiStore<rkv::backend::SafeModeDatabase>, Ghost<Map<Seq<u8>, Set<Seq<u8>>>>),
    MegadexDbError,
>)
    ensures
        r matches Ok(p) ==> (db.is_fresh() ==> p.1@ == Map::<Seq<u8>, Set<Seq<u8>>>::empty()),
        r matches Err(e) ==> (e matches MegadexDbError::EngineError(_) || e
            matches MegadexDbError::LockError(_)),
{
    let env = db.env.write().map_err(|e| MegadexDbError::LockError(format!("{}", e)))?;
    let store = env.open_multi(name, rkv::StoreOptions::create()).map_err(
        |e| MegadexDbError::EngineError(format!("{}", e)),
    )?;
    Ok((store, Ghost(arbitrary())))
}

/// Relies on rkv's `SingleStore::get` under a read transaction: returns the
/// blob stored for `id` in the primary relation, or `None` when absent. For
/// an exclusive store the snapshot is exactly the store's ghost contents; a
/// store over a possibly shared environment gets only the shape and error
/// taxonomy.
#[verifier::external_body]
pub(crate) fn read_main<'a>(
    md: &MegadexDb,
    reader: &SafeReader<'a>,
    id: &[u8],
) -> (r: Result<Option<Vec<u8>>, MegadexDbError>)
    ensures
        match r {
            Ok(opt) => md.exclusive() ==> match opt {
                Some(v) => md@.main.contains_key(id@) && v@ == md@.main[id@],
                None => !md@.main.contains_key(id@),
            },
            Err(e) => e matches MegadexDbError::EngineError(_) || e
                matches MegadexDbError::InvalidType(_, _),
        },
{
    match md.main.get(reader, id) {
        Ok(Some(rkv::Value::Blob(b))) => Ok(Some(b.to_vec())),
        Ok(Some(v)) => Err(
            MegadexDbError::InvalidType("blob".to_owned(), format!("{:?}", v)),
        ),
        Ok(None) => Ok(None),
        Err(e) => Err(MegadexDbError::EngineError(format!("{}", e))),
    }
}

/// Relies on rkv's `MultiStore::get` under a read transaction: yields the
/// identifiers stored under `key` in the secondary relation at position `i`,
/// without duplicates and strictly ascending in the engine's entry order (the
/// engine keeps the entries of one key in a set of their serialized forms,
/// a constant tag, the length as eight little-endian bytes, then the bytes,
/// ordered byte-wise). For an exclusive store the listing is exactly the
/// stored set of the store's ghost contents.
#[verifier::external_body]
pub(crate) fn read_index_at<'a>(
    md: &MegadexDb,
    reader: &SafeReader<'a>,
    i: usize,
    key: &[u8],
) -> (r: Result<Vec<Vec<u8>>, MegadexDbError>)
    requires
        i < md.field_names().len(),
    ensures
        match r {
            Ok(ids) => strictly_sorted_entries(crate::model::bytes_view(ids@)) && (md.exclusive()
                ==> is_sorted_ids_of(
                crate::model::bytes_view(ids@),
                index_ids(md@, md.field_names()[i as int], key@),
            )),
            Err(e) => e matches MegadexDbError::EngineError(_) || e
                matches MegadexDbError::InvalidType(_, _),
        },
{
    let iter = md.indices[i].1.get(reader, key).map_err(
        |e| MegadexDbError::EngineError(format!("{}", e)),
    )?;
    let mut out: Vec<Vec<u8>> = Vec::new();
    for item in iter {
        match item {
            Ok((_, rkv::Value::Blob(b))) => out.push(b.to_vec()),
            Ok((_, v)) => return Err(
                MegadexDbError::InvalidType("blob".to_owned(), format!("{:?}", v)),
            ),
            Err(e) => return Err(MegadexDbError::EngineError(format!("{}", e))),
        }
    }
    Ok(out)
}

/// Relies on rkv's `MultiStore::get` under a read transaction, as
/// `read_index_at` does, but skipping entries of the wrong shape instead of
/// failing: the best-effort identifier query must not let one bad entry block
/// the rest. An exclusive store only ever stores blobs, so for it the skipped
/// set is empty and the listing is exactly the stored set of its ghost
/// contents.
#[verifier::external_body]
pub(crate) fn read_index_at_lossy<'a>(
    md: &MegadexDb,
    reader: &SafeReader<'a>,
    i: usize,
    key: &[u8],
) -> (r: Result<Vec<Vec<u8>>, MegadexDbError>)
    requires
        i < md.field_names().len(),
    ensures
        match r {
            Ok(ids) => strictly_sorted_entries(crate::model::bytes_view(ids@)) && (md.exclusive()
                ==> is_sorted_ids_of(
                crate::model::bytes_view(ids@),
                index_ids(md@, md.field_names()[i as int], key@),
            )),
            Err(e) => e matches MegadexDbError::EngineError(_),
        },
{
    let iter = md.indices[i].1.get(reader, key).map_err(
        |e| MegadexDbError::EngineError(format!("{}", e)),
    )?;
    let mut out: Vec<Vec<u8>> = Vec::new();
    for item in iter {
        match item {
            Ok((_, rkv::Value::Blob(b))) => out.push(b.to_vec()),
            Ok(_) => {},
            Err(e) => return Err(MegadexDbError::EngineError(format!("{}", e))),
        }
    }
    Ok(out)
}

/// Relies on rkv's `SingleStore::put` inside a write transaction: stores `rec`
/// under `id` in the primary relation, replacing any previous value; on failure
/// the transaction's state is unchanged.
#[verifier::external_body]
pub(crate) fn txn_put_main<'a>(
    md: &MegadexDb,
    txn: &mut WriteTxn<'a>,
    id: &[u8],
    rec: &[u8],
) -> (r: Result<(), MegadexDbError>)
    ensures
        r matches Ok(_) ==> final(txn).model@ == (StoreModel {
            main: old(txn).model@.main.insert(id@, rec@),
            indices: old(txn).model@.indices,
        }),
        r matches Err(e) ==> final(txn).model@ == old(txn).model@ && e
            matches MegadexDbError::EngineError(_),
{
    md.main.put(&mut txn.w, id, &rkv::Value::Blob(rec)).map_err(
        |e| MegadexDbError::EngineError(format!("{}", e)),
    )
}

/// Relies on rkv's `MultiStore::put` inside a write transaction: adds the pair
/// `key -> id` to the secondary relation at position `i`; a pair already
/// present collapses; on failure the transaction's state is unchanged.
#[verifier::external_body]
pub(crate) fn txn_put_index<'a>(
    md: &MegadexDb,
    txn: &mut WriteTxn<'a>,
    i: usize,
    key: &[u8],
    id: &[u8],
) -> (r: Result<(), MegadexDbError>)
    requires
        i < md.field_names().len(),
    ensures
        r matches Ok(_) ==> final(txn).model@ == add_index_entry(
            old(txn).model@,
            md.field_names()[i as int],
            key@,
            id@,
        ),
        r matches Err(e) ==> final(txn).model@ == old(txn).model@ && e
            matches MegadexDbError::EngineError(_),
{
    md.indices[i].1.put(&mut txn.w, key, &rkv::Value::Blob(id)).map_err(
        |e| MegadexDbError::EngineError(format!("{}", e)),
    )
}

/// Relies on rkv's `SingleStore::delete` inside a write transaction: removes
/// the primary entry for `id`, failing (with the transaction's state unchanged)
/// when no entry is present. Success witnesses the entry's presence only for
/// an exclusive store, whose ghost contents are the relation's real ones.
#[verifier::external_body]
pub(crate) fn txn_del_main<'a>(
    md: &MegadexDb,
    txn: &mut WriteTxn<'a>,
    id: &[u8],
) -> (r: Result<(), MegadexDbError>)
    ensures
        r matches Ok(_) ==> (md.exclusive() ==> old(txn).model@.main.contains_key(id@))
            && final(txn).model@ == (StoreModel {
            main: old(txn).model@.main.remove(id@),
            indices: old(txn).model@.indices,
        }),
        r matches Err(e) ==> final(txn).model@ == old(txn).model@ && e
            matches MegadexDbError::EngineError(_),
{
    md.main.delete(&mut txn.w, id).map_err(
        |e| MegadexDbError::EngineError(format!("{}", e)),
    )
}

/// Relies on rkv's `MultiStore::delete` inside a write transaction: removes the
/// exact pair `key -> id` from the secondary relation at position `i`. An
/// absent pair fails with `ValueError` (the engine reports exactly this case
/// as its pair-not-found error) and the transaction's state is unchanged on
/// every failure. Presence and absence are witnessed against the ghost
/// contents only for an exclusive store, whose ghost contents are the
/// relation's real ones.
#[verifier::external_body]
pub(crate) fn txn_del_index<'a>(
    md: &MegadexDb,
    txn: &mut WriteTxn<'a>,
    i: usize,
    key: &[u8],
    id: &[u8],
) -> (r: Result<(), MegadexDbError>)
    requires
        i < md.field_names().len(),
    ensures
        r matches Ok(_) ==> (md.exclusive() ==> index_ids(
            old(txn).model@,
            md.field_names()[i as int],
            key@,
        ).contains(id@)) && final(txn).model@ == remove_index_entry(
            old(txn).model@,
            md.field_names()[i as int],
            key@,
            id@,
        ),
        r matches Err(e) ==> final(txn).model@ == old(txn).model@ && match e {
            MegadexDbError::ValueError(_) => md.exclusive() ==> !index_ids(
                old(txn).model@,
                md.field_names()[i as int],
                key@,
            ).contains(id@),
            MegadexDbError::EngineError(_) => true,
            _ => false,
        },
{
    md.indices[i].1.delete(&mut txn.w, key, &rkv::Value::Blob(id)).map_err(|e| match e {
        rkv::StoreError::KeyValuePairNotFound => MegadexDbError::ValueError(
            "index entry not found for id".to_owned(),
        ),
        other => MegadexDbError::EngineError(format!("{}", other)),
    })
}

/// Relies on rkv's `Writer::commit`: applies the transaction's writes to the
/// environment, replacing its in-memory state and then persisting it to disk.
/// A failure while persisting leaves the new state visible in memory (the
/// engine replaces its state before writing the file); a failure before the
/// replacement (a poisoned interior lock) leaves the old state. Callers
/// publish the new ghost contents either way, so after a failed commit a
/// handle's view is only trustworthy again once the store is reopened.
#[verifier::external_body]
pub(crate) fn txn_commit(txn: WriteTxn<'_>) -> (r: Result<(), MegadexDbError>)
    ensures
        r matches Err(e) ==> e matches MegadexDbError::EngineError(_),
{
    txn.w.commit().map_err(|e| MegadexDbError::EngineError(format!("{}", e)))
}

} // verus!
