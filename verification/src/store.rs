//! The record store: one primary relation plus one secondary relation per
//! registered field, with atomic writes across all of them.

use vstd::prelude::*;

use std::sync::Arc;
use std::sync::RwLock;

use crate::engine::SafeEnv;
use crate::engine::Db;
use crate::engine::WriteTxn;
use crate::engine::arc_clone_env;
use crate::engine::lock_env;
use crate::engine::begin_read;
use crate::engine::begin_write;
use crate::engine::open_main;
use crate::engine::open_index;
use crate::engine::read_main;
use crate::engine::read_index_at;
use crate::engine::read_index_at_lossy;
use crate::engine::txn_put_main;
use crate::engine::txn_put_index;
use crate::engine::txn_del_main;
use crate::engine::txn_del_index;
use crate::engine::txn_commit;
use crate::error::MegadexDbError;
use crate::model::StoreModel;
use crate::model::hydrated;
use crate::model::field_query_result;
use crate::model::entries_view;
use crate::model::bytes_view;
use crate::model::index_ids;
use crate::model::is_sorted_ids_of;
use crate::model::put_index_entries;
use crate::model::del_index_entries;
use crate::model::del_entries_present;
use crate::model::del_present;
use crate::model::lemma_del_present_prefix;
use crate::model::store_empty;
use crate::model::store_put;
use crate::model::store_del;
use crate::model::lemma_put_entries_snoc;
use crate::model::lemma_del_entries_snoc;

verus! {

/// A record store over one environment: a single-valued primary relation
/// (identifier bytes -> record bytes) and, for each field name registered at
/// open time, a multi-valued secondary relation (field-value bytes ->
/// identifier bytes).
///
/// Identifiers, records and field values are canonical byte strings; callers
/// choose one codec to produce them and use it consistently. The ghost
/// [`StoreModel`] tracks the committed contents of all these relations.
///
/// A store is *exclusive* when it was built on an environment fresh from
/// `Db::new_temp`: that environment cannot be reached by any other handle,
/// so the ghost contents are the relations' real contents, and the read and
/// delete contracts below bind the engine's results to them. A store over an
/// environment opened by path (`Db::new`) may share its relations with other
/// opens of the same path, so only the weaker clauses — shapes, orderings
/// among returned entries, and the error taxonomy — hold for it.
pub struct MegadexDb {
    pub(crate) env: Arc<RwLock<SafeEnv>>,
    pub(crate) main: rkv::SingleStore<rkv::backend::SafeModeDatabase>,
    pub(crate) indices: Vec<(String, rkv::MultiStore<rkv::backend::SafeModeDatabase>)>,
    pub(crate) model: Ghost<StoreModel>,
    pub(crate) excl: Ghost<bool>,
}

impl View for MegadexDb {
    type V = StoreModel;

    closed spec fn view(&self) -> StoreModel {
        self.model@
    }
}

impl MegadexDb {
    /// The primary relation's name is reserved: a secondary relation may not
    /// shadow it, or the engine would hand back the primary store under a
    /// field name.
    #[verifier::type_invariant]
    spec fn wf(self) -> bool {
        forall|i: int|
            0 <= i < self.indices@.len() ==> (#[trigger] self.indices@[i]).0@ != "_main_"@
    }

    /// The names of the registered fields, in registration order.
    pub closed spec fn field_names(&self) -> Seq<Seq<char>> {
        self.indices@.map_values(
            |p: (String, rkv::MultiStore<rkv::backend::SafeModeDatabase>)| p.0@,
        )
    }

    /// Whether a field of this name was registered at open time.
    pub open spec fn registered(&self, f: Seq<char>) -> bool {
        self.field_names().contains(f)
    }

    /// Whether this store is the only handle to its relations: it was built
    /// on an environment fresh from `Db::new_temp`. The model-tied read and
    /// delete guarantees hold exactly of exclusive stores.
    pub closed spec fn exclusive(&self) -> bool {
        self.excl@
    }

    /// Open a record store on the given environment, consuming the handle,
    /// and create the primary relation and one secondary relation per field
    /// name. Field names must not claim the primary relation's reserved name
    /// `_main_`; such a name is rejected with `ValueError`, and `ValueError`
    /// arises from nothing else. On a fresh environment (`Db::new_temp`) the
    /// opened store is empty and exclusive: the only handle to its relations.
    pub fn new(db: Db, fields: Vec<String>) -> (r: Result<MegadexDb, MegadexDbError>)
        ensures
            r matches Ok(md) ==> md.field_names() == fields@.map_values(|s: String| s@),
            r matches Ok(md) ==> md.exclusive() == db.is_fresh(),
            r matches Ok(md) ==> (db.is_fresh() ==> store_empty(md@)),
            r matches Ok(_) ==> forall|t: int|
                0 <= t < fields@.len() ==> (#[trigger] fields@[t])@ != "_main_"@,
            (exists|t: int| 0 <= t < fields@.len() && (#[trigger] fields@[t])@ == "_main_"@)
                ==> r matches Err(_),
            r matches Err(e) ==> match e {
                MegadexDbError::ValueError(_) => exists|t: int|
                    0 <= t < fields@.len() && (#[trigger] fields@[t])@ == "_main_"@,
                MegadexDbError::EngineError(_) => true,
                MegadexDbError::LockError(_) => true,
                _ => false,
            },
    {
        let ghost was_fresh = db.is_fresh();
        let reserved: String = "_main_".to_owned();
        let (main, g_main) = open_main(&db)?;
        let mut indices: Vec<(String, rkv::MultiStore<rkv::backend::SafeModeDatabase>)> =
            Vec::new();
        let ghost mut idxm: Map<Seq<char>, Map<Seq<u8>, Set<Seq<u8>>>> = Map::empty();
        let mut j: usize = 0;
        while j < fields.len()
            invariant
                j <= fields@.len(),
                reserved@ == "_main_"@,
                was_fresh == db.is_fresh(),
                indices@.len() == j,
                forall|t: int|
                    0 <= t < j ==> (#[trigger] indices@[t]).0@ == fields@[t]@ && indices@[t].0@
                        != "_main_"@,
                forall|t: int| 0 <= t < j ==> (#[trigger] fields@[t])@ != "_main_"@,
                was_fresh ==> g_main@ == Map::<Seq<u8>, Seq<u8>>::empty(),
                was_fresh ==> forall|f: Seq<char>| #[trigger]
                    idxm.contains_key(f) ==> idxm[f] == Map::<Seq<u8>, Set<Seq<u8>>>::empty(),
            decreases fields@.len() - j,
        {
            if fields[j] == reserved {
                return Err(
                    MegadexDbError::ValueError("field name _main_ is reserved".to_owned()),
                );
            }
            let (store, g_idx) = open_index(&db, fields[j].as_str())?;
            indices.push((fields[j].clone(), store));
            proof {
                idxm = idxm.insert(fields@[j as int]@, g_idx@);
            }
            j += 1;
        }
        let md = MegadexDb {
            env: db.env,
            main,
            indices,
            model: Ghost(StoreModel { main: g_main@, indices: idxm }),
            excl: Ghost(was_fresh),
        };
        proof {
            assert(md.field_names() =~= fields@.map_values(|s: String| s@));
            if was_fresh {
                assert forall|f: Seq<char>, k: Seq<u8>|
                    index_ids(md@, f, k) == Set::<Seq<u8>>::empty() by {
                    if md@.indices.contains_key(f) {
                        assert(idxm.contains_key(f));
                    }
                }
                assert(store_empty(md@));
            }
        }
        Ok(md)
    }

    /// The environment handle this store was opened on, unchanged and
    /// unconsumed.
    pub closed spec fn env_handle(&self) -> Arc<RwLock<SafeEnv>> {
        self.env
    }

    /// Hand out the underlying environment, shared with every other store
    /// built on it. No verified operation of this crate accepts the raw
    /// handle, so handing it out cannot break an exclusive store's
    /// guarantees within verified code; unverified code writing the store's
    /// relations through it steps outside those guarantees.
    pub fn get_env(&self) -> (r: Arc<RwLock<SafeEnv>>)
        ensures
            r == self.env_handle(),
    {
        arc_clone_env(&self.env)
    }

    /// Look up the record stored under `id` in the primary relation. Returns
    /// `Ok(None)` when no record is present; absence is not an error. For an
    /// exclusive store the result is exactly what the store's contents hold
    /// under `id`.
    pub fn get(&self, id: &[u8]) -> (r: Result<Option<Vec<u8>>, MegadexDbError>)
        ensures
            match r {
                Ok(opt) => self.exclusive() ==> match opt {
                    Some(v) => self@.main.contains_key(id@) && v@ == self@.main[id@],
                    None => !self@.main.contains_key(id@),
                },
                Err(e) => e matches MegadexDbError::EngineError(_) || e
                    matches MegadexDbError::LockError(_) || e
                    matches MegadexDbError::InvalidType(_, _),
            },
    {
        let guard = lock_env(&self.env)?;
        let reader = begin_read(&guard)?;
        read_main(self, &reader, id)
    }

    /// Store `record` under `id` and add one index entry `value -> id` for
    /// every `(field, value)` pair in `fields`, all inside one write
    /// transaction. Overwrites the primary entry for an existing identifier;
    /// previously written index entries for that identifier are not removed.
    ///
    /// On success the store holds exactly the old contents with the primary
    /// entry written and every listed index entry added. On failure the store
    /// holds either the fully old or the fully new contents, never a partial
    /// mix; a pair naming an unregistered field always fails, with
    /// `IndexUndefined` naming that field unless the engine failed first.
    pub fn put(&mut self, id: &[u8], record: &[u8], fields: &Vec<(String, Vec<u8>)>) -> (r: Result<
        (),
        MegadexDbError,
    >)
        ensures
            final(self).field_names() == old(self).field_names(),
            final(self).exclusive() == old(self).exclusive(),
            r matches Ok(_) ==> final(self)@ == store_put(
                old(self)@,
                id@,
                record@,
                entries_view(fields@),
            ) && (forall|t: int|
                0 <= t < fields@.len() ==> old(self).registered((#[trigger] fields@[t]).0@)),
            r matches Err(e) ==> (final(self)@ == old(self)@ || final(self)@ == store_put(
                old(self)@,
                id@,
                record@,
                entries_view(fields@),
            )) && (e matches MegadexDbError::EngineError(_) || e
                matches MegadexDbError::LockError(_) || e
                matches MegadexDbError::IndexUndefined(_)),
            r matches Err(e) ==> match e {
                MegadexDbError::IndexUndefined(n) => !old(self).registered(n@) && final(self)@
                    == old(self)@ && (exists|t: int|
                    0 <= t < fields@.len() && (#[trigger] fields@[t]).0@ == n@ && (forall|u: int|
                        0 <= u < t ==> old(self).registered((#[trigger] fields@[u]).0@))),
                _ => true,
            },
            (exists|t: int|
                0 <= t < fields@.len() && !old(self).registered((#[trigger] fields@[t]).0@))
                ==> r matches Err(_),
    {
        proof {
            use_type_invariant(&*self);
        }
        let ghost m0 = self.model@;
        let ghost ev = entries_view(fields@);
        let env = arc_clone_env(&self.env);
        let guard = lock_env(&env)?;
        let w = begin_write(&guard)?;
        let mut txn = WriteTxn { w, model: self.model };
        txn_put_main(self, &mut txn, id, record)?;
        let ghost m_mid = txn.model@;
        let mut j: usize = 0;
        while j < fields.len()
            invariant
                j <= fields@.len(),
                ev == entries_view(fields@),
                m_mid == (StoreModel { main: m0.main.insert(id@, record@), indices: m0.indices }),
                txn.model@ == put_index_entries(m_mid, id@, ev.take(j as int)),
                forall|t: int| 0 <= t < j ==> self.registered(#[trigger] ev[t].0),
                *self == *old(self),
                self.model@ == m0,
            decreases fields@.len() - j,
        {
            let i = match self.find_index(fields[j].0.as_str()) {
                Some(i) => i,
                None => {
                    proof {
                        assert forall|u: int| 0 <= u < j implies old(self).registered(
                            (#[trigger] fields@[u]).0@,
                        ) by {
                            assert(ev[u] == (fields@[u].0@, fields@[u].1@));
                            assert(self.registered(ev[u].0));
                        }
                    }
                    return Err(MegadexDbError::IndexUndefined(fields[j].0.clone()));
                },
            };
            match txn_put_index(self, &mut txn, i, fields[j].1.as_slice(), id) {
                Ok(_) => {
                    proof {
                        lemma_put_entries_snoc(m_mid, id@, ev.take(j as int), ev[j as int]);
                        assert(ev.take(j as int).push(ev[j as int]) =~= ev.take(j as int + 1));
                    }
                },
                Err(e) => {
                    return Err(e);
                },
            }
            j += 1;
        }
        proof {
            assert(ev.take(fields@.len() as int) =~= ev);
            assert forall|t: int|
                0 <= t < fields@.len() implies old(self).registered(
                (#[trigger] fields@[t]).0@,
            ) by {
                assert(ev[t] == (fields@[t].0@, fields@[t].1@));
                assert(self.registered(ev[t].0));
            }
        }
        let gm: Ghost<StoreModel> = Ghost(txn.model@);
        let r = txn_commit(txn);
        self.model = gm;
        match r {
            Ok(_) => Ok(()),
            Err(e) => Err(e),
        }
    }

    /// Remove the primary entry for `id` and one index entry `value -> id` for
    /// every `(field, value)` pair in `fields`, all inside one write
    /// transaction. The pairs must be exactly the values the record held when
    /// it was last put: the engine removes index entries by exact byte match
    /// and fails when a pair is absent, so a stale pair aborts the whole
    /// deletion.
    ///
    /// On success the record and every listed index entry were present and are
    /// removed together. A pair that does not resolve to `id` any more fails
    /// the whole deletion with `ValueError` before anything commits, so stale
    /// arguments leave no orphaned entries. On failure the store holds either
    /// the fully old or the fully new contents, never a partial mix.
    pub fn del(&mut self, id: &[u8], fields: &Vec<(String, Vec<u8>)>) -> (r: Result<
        (),
        MegadexDbError,
    >)
        ensures
            final(self).field_names() == old(self).field_names(),
            final(self).exclusive() == old(self).exclusive(),
            r matches Ok(_) ==> final(self)@ == store_del(old(self)@, id@, entries_view(fields@))
                && (old(self).exclusive() ==> del_present(old(self)@, id@, entries_view(fields@)))
                && (forall|t: int|
                0 <= t < fields@.len() ==> old(self).registered((#[trigger] fields@[t]).0@)),
            r matches Err(e) ==> (final(self)@ == old(self)@ || final(self)@ == store_del(
                old(self)@,
                id@,
                entries_view(fields@),
            )) && (e matches MegadexDbError::EngineError(_) || e
                matches MegadexDbError::LockError(_) || e
                matches MegadexDbError::IndexUndefined(_) || e
                matches MegadexDbError::ValueError(_)),
            r matches Err(e) ==> match e {
                MegadexDbError::IndexUndefined(n) => !old(self).registered(n@) && final(self)@
                    == old(self)@ && (exists|t: int|
                    0 <= t < fields@.len() && (#[trigger] fields@[t]).0@ == n@ && (forall|u: int|
                        0 <= u < t ==> old(self).registered((#[trigger] fields@[u]).0@))),
                MegadexDbError::ValueError(_) => (old(self).exclusive() ==> !del_present(
                    old(self)@,
                    id@,
                    entries_view(fields@),
                )) && final(self)@ == old(self)@,
                _ => true,
            },
            (exists|t: int|
                0 <= t < fields@.len() && !old(self).registered((#[trigger] fields@[t]).0@))
                ==> r matches Err(_),
    {
        proof {
            use_type_invariant(&*self);
        }
        let ghost m0 = self.model@;
        let ghost ev = entries_view(fields@);
        let env = arc_clone_env(&self.env);
        let guard = lock_env(&env)?;
        let w = begin_write(&guard)?;
        let mut txn = WriteTxn { w, model: self.model };
        txn_del_main(self, &mut txn, id)?;
        let ghost m_mid = txn.model@;
        let mut j: usize = 0;
        while j < fields.len()
            invariant
                j <= fields@.len(),
                ev == entries_view(fields@),
                old(self).exclusive() ==> m0.main.contains_key(id@),
                m_mid == (StoreModel { main: m0.main.remove(id@), indices: m0.indices }),
                txn.model@ == del_index_entries(m_mid, id@, ev.take(j as int)),
                old(self).exclusive() ==> del_entries_present(m_mid, id@, ev.take(j as int)),
                forall|t: int| 0 <= t < j ==> self.registered(#[trigger] ev[t].0),
                *self == *old(self),
                self.model@ == m0,
            decreases fields@.len() - j,
        {
            let i = match self.find_index(fields[j].0.as_str()) {
                Some(i) => i,
                None => {
                    proof {
                        assert forall|u: int| 0 <= u < j implies old(self).registered(
                            (#[trigger] fields@[u]).0@,
                        ) by {
                            assert(ev[u] == (fields@[u].0@, fields@[u].1@));
                            assert(self.registered(ev[u].0));
                        }
                    }
                    return Err(MegadexDbError::IndexUndefined(fields[j].0.clone()));
                },
            };
            match txn_del_index(self, &mut txn, i, fields[j].1.as_slice(), id) {
                Ok(_) => {
                    proof {
                        lemma_del_entries_snoc(m_mid, id@, ev.take(j as int), ev[j as int]);
                        assert(ev.take(j as int).push(ev[j as int]) =~= ev.take(j as int + 1));
                    }
                },
                Err(e) => {
                    proof {
                        // For an exclusive store, a pair-not-found failure
                        // refutes the whole deletion's entries being present.
                        if old(self).exclusive() && del_entries_present(m_mid, id@, ev) {
                            lemma_del_present_prefix(m_mid, id@, ev, j as int);
                        }
                    }
                    return Err(e);
                },
            }
            j += 1;
        }
        proof {
            assert(ev.take(fields@.len() as int) =~= ev);
            assert forall|t: int|
                0 <= t < fields@.len() implies old(self).registered(
                (#[trigger] fields@[t]).0@,
            ) by {
                assert(ev[t] == (fields@[t].0@, fields@[t].1@));
                assert(self.registered(ev[t].0));
            }
        }
        let gm: Ghost<StoreModel> = Ghost(txn.model@);
        let r = txn_commit(txn);
        self.model = gm;
        match r {
            Ok(_) => Ok(()),
            Err(e) => Err(e),
        }
    }

    /// Retrieve every record whose indexed field `name` held `key`, by walking
    /// the secondary relation and fetching each identifier from the primary
    /// relation under one read snapshot. Fails closed with `IndexUndefined`
    /// when `name` was not registered at open time, and with `ValueError` when
    /// an index entry points at a missing primary record. For an exclusive
    /// store the result is exactly the records of the identifiers stored
    /// under `key`, in their sorted listing order.
    pub fn get_by_field(&self, name: &str, key: &[u8]) -> (r: Result<Vec<Vec<u8>>, MegadexDbError>)
        ensures
            !self.registered(name@) ==> match r {
                Err(MegadexDbError::IndexUndefined(n)) => n@ == name@,
                _ => false,
            },
            r matches Err(e) ==> match e {
                MegadexDbError::IndexUndefined(n) => !self.registered(n@) && n@ == name@,
                _ => true,
            },
            r matches Ok(recs) ==> self.registered(name@) && (self.exclusive()
                ==> field_query_result(recs@, self@, name@, key@)),
            r matches Err(e) ==> (e matches MegadexDbError::IndexUndefined(_) || e
                matches MegadexDbError::EngineError(_) || e matches MegadexDbError::LockError(_)
                || e matches MegadexDbError::InvalidType(_, _) || e
                matches MegadexDbError::ValueError(_)),
            r matches Err(e) ==> match e {
                MegadexDbError::ValueError(_) => self.exclusive() ==> exists|b: Seq<u8>|
                    index_ids(self@, name@, key@).contains(b) && !self@.main.contains_key(b),
                _ => true,
            },
    {
        let i = match self.find_index(name) {
            Some(i) => i,
            None => {
                return Err(MegadexDbError::IndexUndefined(name.to_owned()));
            },
        };
        proof {
            assert(self.registered(name@)) by {
                assert(self.field_names()[i as int] == name@);
            }
        }
        let guard = lock_env(&self.env)?;
        let reader = begin_read(&guard)?;
        let ids = read_index_at(self, &reader, i, key)?;
        let ghost gids = bytes_view(ids@);
        let mut recs: Vec<Vec<u8>> = Vec::new();
        let mut t: usize = 0;
        while t < ids.len()
            invariant
                t <= ids@.len(),
                self.registered(name@),
                gids == bytes_view(ids@),
                self.exclusive() ==> is_sorted_ids_of(gids, index_ids(self@, name@, key@)),
                recs@.len() == t,
                self.exclusive() ==> forall|u: int|
                    0 <= u < t ==> self@.main.contains_key(#[trigger] gids[u]) && recs@[u]@
                        == self@.main[gids[u]],
            decreases ids@.len() - t,
        {
            match read_main(self, &reader, ids[t].as_slice())? {
                Some(rec) => {
                    recs.push(rec);
                },
                None => {
                    proof {
                        if self.exclusive() {
                            assert(index_ids(self@, name@, key@).contains(gids[t as int]));
                        }
                    }
                    return Err(MegadexDbError::ValueError("Object not found for id".to_owned()));
                },
            }
            t += 1;
        }
        proof {
            if self.exclusive() {
                assert(field_query_result(recs@, self@, name@, key@)) by {
                    assert(is_sorted_ids_of(gids, index_ids(self@, name@, key@)) && hydrated(
                        recs@,
                        gids,
                        self@,
                    ));
                }
            }
        }
        Ok(recs)
    }

    /// Retrieve the raw identifier bytes stored under `key` in the secondary
    /// relation of field `name`, without touching the primary relation. The
    /// identifiers come back without duplicates, strictly ascending in the
    /// engine's entry order; for an exclusive store they are exactly the
    /// stored set, so the result is determined by it.
    pub fn get_ids_by_field_raw(&self, name: &str, key: &[u8]) -> (r: Result<
        Vec<Vec<u8>>,
        MegadexDbError,
    >)
        ensures
            !self.registered(name@) ==> match r {
                Err(MegadexDbError::IndexUndefined(n)) => n@ == name@,
                _ => false,
            },
            r matches Err(e) ==> match e {
                MegadexDbError::IndexUndefined(n) => !self.registered(n@) && n@ == name@,
                _ => true,
            },
            r matches Ok(ids) ==> self.registered(name@) && crate::model::strictly_sorted_entries(
                bytes_view(ids@),
            ) && (self.exclusive() ==> is_sorted_ids_of(
                bytes_view(ids@),
                index_ids(self@, name@, key@),
            )),
            r matches Err(e) ==> (e matches MegadexDbError::IndexUndefined(_) || e
                matches MegadexDbError::EngineError(_) || e matches MegadexDbError::LockError(_)
                || e matches MegadexDbError::InvalidType(_, _)),
    {
        let i = match self.find_index(name) {
            Some(i) => i,
            None => {
                return Err(MegadexDbError::IndexUndefined(name.to_owned()));
            },
        };
        proof {
            assert(self.registered(name@)) by {
                assert(self.field_names()[i as int] == name@);
            }
        }
        let guard = lock_env(&self.env)?;
        let reader = begin_read(&guard)?;
        read_index_at(self, &reader, i, key)
    }

    /// Retrieve the identifiers stored under `key` in the secondary relation
    /// of field `name`, decoded as strings. This is the best-effort variant:
    /// an entry that does not decode, or has the wrong shape, is silently
    /// dropped rather than failing the whole query. For an exclusive store
    /// the result holds exactly the decodings of the decodable stored
    /// identifiers, in the order of their sorted listing, so it is determined
    /// by the stored set.
    pub fn get_ids_by_field(&self, name: &str, key: &[u8]) -> (r: Result<
        Vec<String>,
        MegadexDbError,
    >)
        ensures
            !self.registered(name@) ==> match r {
                Err(MegadexDbError::IndexUndefined(n)) => n@ == name@,
                _ => false,
            },
            r matches Err(e) ==> match e {
                MegadexDbError::IndexUndefined(n) => !self.registered(n@) && n@ == name@,
                _ => true,
            },
            r matches Ok(ss) ==> self.registered(name@) && (self.exclusive()
                ==> crate::codec::ids_query_result(ss@, self@, name@, key@)),
            r matches Err(e) ==> (e matches MegadexDbError::IndexUndefined(_) || e
                matches MegadexDbError::EngineError(_) || e matches MegadexDbError::LockError(_)),
    {
        let i = match self.find_index(name) {
            Some(i) => i,
            None => {
                return Err(MegadexDbError::IndexUndefined(name.to_owned()));
            },
        };
        proof {
            assert(self.registered(name@)) by {
                assert(self.field_names()[i as int] == name@);
            }
        }
        let guard = lock_env(&self.env)?;
        let reader = begin_read(&guard)?;
        let ids = read_index_at_lossy(self, &reader, i, key)?;
        let out = crate::codec::decode_ids(&ids);
        proof {
            if self.exclusive() {
                assert(crate::codec::ids_query_result(out@, self@, name@, key@)) by {
                    assert(is_sorted_ids_of(bytes_view(ids@), index_ids(self@, name@, key@))
                        && out@.map_values(|s: String| s@) == crate::codec::decoded_seq(
                        bytes_view(ids@),
                    ));
                }
            }
        }
        Ok(out)
    }

    /// The position of the secondary relation registered under `name`, if any.
    fn find_index(&self, name: &str) -> (r: Option<usize>)
        ensures
            match r {
                Some(i) => i < self.field_names().len() && self.field_names()[i as int] == name@,
                None => !self.registered(name@),
            },
    {
        let owned = name.to_owned();
        let mut j: usize = 0;
        while j < self.indices.len()
            invariant
                j <= self.indices@.len(),
                owned@ == name@,
                forall|t: int| 0 <= t < j ==> (#[trigger] self.indices@[t]).0@ != name@,
            decreases self.indices@.len() - j,
        {
            if self.indices[j].0 == owned {
                return Some(j);
            }
            j += 1;
        }
        None
    }
}

} // verus!
