//! Laws of the record store.
//!
//! Each public proof function states one guarantee of the store over its
//! model, for every store contents and every input; the contracts of `put`,
//! `del`, `get` and the field queries connect these statements to the
//! executable operations.

use vstd::prelude::*;

use crate::model::StoreModel;
use crate::model::add_index_entry;
use crate::model::remove_index_entry;
use crate::model::field_query_result;
use crate::model::hydrated;
use crate::model::index_ids;
use crate::model::is_sorted_ids_of;
use crate::model::lemma_sorted_ids_unique;
use crate::model::lemma_entry_lt_irrefl;
use crate::model::entry_lt;
use crate::model::put_index_entries;
use crate::model::del_index_entries;
use crate::model::store_put;
use crate::model::store_del;
use crate::model::store_empty;

verus! {

/// Adding index entries never touches the primary relation.
proof fn lemma_put_entries_main(m: StoreModel, id: Seq<u8>, entries: Seq<(Seq<char>, Seq<u8>)>)
    ensures
        put_index_entries(m, id, entries).main == m.main,
    decreases entries.len(),
{
    if entries.len() > 0 {
        lemma_put_entries_main(
            add_index_entry(m, entries[0].0, entries[0].1, id),
            id,
            entries.drop_first(),
        );
    }
}

/// Removing index entries never touches the primary relation.
proof fn lemma_del_entries_main(m: StoreModel, id: Seq<u8>, entries: Seq<(Seq<char>, Seq<u8>)>)
    ensures
        del_index_entries(m, id, entries).main == m.main,
    decreases entries.len(),
{
    if entries.len() > 0 {
        lemma_del_entries_main(
            remove_index_entry(m, entries[0].0, entries[0].1, id),
            id,
            entries.drop_first(),
        );
    }
}

/// Adding one index entry keeps every identifier already present, under every
/// field and value.
proof fn lemma_add_entry_mono(
    m: StoreModel,
    f2: Seq<char>,
    k2: Seq<u8>,
    id2: Seq<u8>,
    f: Seq<char>,
    k: Seq<u8>,
    x: Seq<u8>,
)
    requires
        index_ids(m, f, k).contains(x),
    ensures
        index_ids(add_index_entry(m, f2, k2, id2), f, k).contains(x),
{
}

/// Adding a list of index entries keeps every identifier already present.
proof fn lemma_put_entries_mono(
    m: StoreModel,
    id: Seq<u8>,
    entries: Seq<(Seq<char>, Seq<u8>)>,
    f: Seq<char>,
    k: Seq<u8>,
    x: Seq<u8>,
)
    requires
        index_ids(m, f, k).contains(x),
    ensures
        index_ids(put_index_entries(m, id, entries), f, k).contains(x),
    decreases entries.len(),
{
    if entries.len() > 0 {
        lemma_add_entry_mono(m, entries[0].0, entries[0].1, id, f, k, x);
        lemma_put_entries_mono(
            add_index_entry(m, entries[0].0, entries[0].1, id),
            id,
            entries.drop_first(),
            f,
            k,
            x,
        );
    }
}

/// Adding a list of index entries for `id` puts `id` under each of them.
proof fn lemma_put_entries_complete(
    m: StoreModel,
    id: Seq<u8>,
    entries: Seq<(Seq<char>, Seq<u8>)>,
    j: int,
)
    requires
        0 <= j < entries.len(),
    ensures
        index_ids(put_index_entries(m, id, entries), entries[j].0, entries[j].1).contains(id),
    decreases entries.len(),
{
    let m1 = add_index_entry(m, entries[0].0, entries[0].1, id);
    if j == 0 {
        assert(index_ids(m1, entries[0].0, entries[0].1).contains(id));
        lemma_put_entries_mono(m1, id, entries.drop_first(), entries[0].0, entries[0].1, id);
    } else {
        lemma_put_entries_complete(m1, id, entries.drop_first(), j - 1);
        assert(entries.drop_first()[j - 1] == entries[j]);
    }
}

/// Removing index entries for `id` never makes `id` appear under a field and
/// value where it is absent.
proof fn lemma_del_entries_no_add(
    m: StoreModel,
    id: Seq<u8>,
    entries: Seq<(Seq<char>, Seq<u8>)>,
    f: Seq<char>,
    k: Seq<u8>,
)
    requires
        !index_ids(m, f, k).contains(id),
    ensures
        !index_ids(del_index_entries(m, id, entries), f, k).contains(id),
    decreases entries.len(),
{
    if entries.len() > 0 {
        let m1 = remove_index_entry(m, entries[0].0, entries[0].1, id);
        assert(!index_ids(m1, f, k).contains(id));
        lemma_del_entries_no_add(m1, id, entries.drop_first(), f, k);
    }
}

/// Removing a list of index entries for `id` leaves `id` absent under each of
/// them.
proof fn lemma_del_entries_removes(
    m: StoreModel,
    id: Seq<u8>,
    entries: Seq<(Seq<char>, Seq<u8>)>,
    j: int,
)
    requires
        0 <= j < entries.len(),
    ensures
        !index_ids(del_index_entries(m, id, entries), entries[j].0, entries[j].1).contains(id),
    decreases entries.len(),
{
    let m1 = remove_index_entry(m, entries[0].0, entries[0].1, id);
    if j == 0 {
        assert(!index_ids(m1, entries[0].0, entries[0].1).contains(id));
        lemma_del_entries_no_add(m1, id, entries.drop_first(), entries[0].0, entries[0].1);
    } else {
        lemma_del_entries_removes(m1, id, entries.drop_first(), j - 1);
        assert(entries.drop_first()[j - 1] == entries[j]);
    }
}

/// Round trip: after a `put` of `rec` under `id`, the primary relation holds
/// exactly `rec` under `id`, whatever index entries the put listed. Together
/// with the contract of `get`, a successful `put(id, rec, fields)` followed by
/// `get(id)` returns `Some` of bit-identical record bytes.
pub proof fn lemma_put_then_get(
    m: StoreModel,
    id: Seq<u8>,
    rec: Seq<u8>,
    entries: Seq<(Seq<char>, Seq<u8>)>,
)
    ensures
        store_put(m, id, rec, entries).main.contains_key(id),
        store_put(m, id, rec, entries).main[id] == rec,
{
    lemma_put_entries_main(
        StoreModel { main: m.main.insert(id, rec), indices: m.indices },
        id,
        entries,
    );
}

/// Index completeness: after a `put` that listed `(f, v)` among its index
/// entries, the identifier is stored under value `v` of field `f`, so a field
/// query for `(f, v)` includes it.
pub proof fn lemma_put_index_complete(
    m: StoreModel,
    id: Seq<u8>,
    rec: Seq<u8>,
    entries: Seq<(Seq<char>, Seq<u8>)>,
    j: int,
)
    requires
        0 <= j < entries.len(),
    ensures
        index_ids(store_put(m, id, rec, entries), entries[j].0, entries[j].1).contains(id),
{
    lemma_put_entries_complete(
        StoreModel { main: m.main.insert(id, rec), indices: m.indices },
        id,
        entries,
        j,
    );
}

/// Delete removes both primary and index entries: after a `del` of `id`, the
/// primary relation no longer holds `id`, and `id` is stored under none of the
/// listed `(f, v)` pairs.
pub proof fn lemma_del_removes(
    m: StoreModel,
    id: Seq<u8>,
    entries: Seq<(Seq<char>, Seq<u8>)>,
    j: int,
)
    requires
        0 <= j < entries.len(),
    ensures
        !store_del(m, id, entries).main.contains_key(id),
        !index_ids(store_del(m, id, entries), entries[j].0, entries[j].1).contains(id),
{
    lemma_del_entries_main(StoreModel { main: m.main.remove(id), indices: m.indices }, id, entries);
    lemma_del_entries_removes(
        StoreModel { main: m.main.remove(id), indices: m.indices },
        id,
        entries,
        j,
    );
}

/// Multiple identifiers share one index value: after two puts of distinct
/// identifiers that both listed `(f, v)`, both identifiers are stored under
/// value `v` of field `f`, and each primary record is the one its own put
/// wrote.
pub proof fn lemma_shared_index_value(
    m: StoreModel,
    id1: Seq<u8>,
    rec1: Seq<u8>,
    entries1: Seq<(Seq<char>, Seq<u8>)>,
    id2: Seq<u8>,
    rec2: Seq<u8>,
    entries2: Seq<(Seq<char>, Seq<u8>)>,
    j1: int,
    j2: int,
)
    requires
        0 <= j1 < entries1.len(),
        0 <= j2 < entries2.len(),
        entries1[j1] == entries2[j2],
    ensures
        index_ids(
            store_put(store_put(m, id1, rec1, entries1), id2, rec2, entries2),
            entries2[j2].0,
            entries2[j2].1,
        ).contains(id1),
        index_ids(
            store_put(store_put(m, id1, rec1, entries1), id2, rec2, entries2),
            entries2[j2].0,
            entries2[j2].1,
        ).contains(id2),
        store_put(store_put(m, id1, rec1, entries1), id2, rec2, entries2).main.contains_key(id2),
        store_put(store_put(m, id1, rec1, entries1), id2, rec2, entries2).main[id2] == rec2,
        id1 != id2 ==> store_put(
            store_put(m, id1, rec1, entries1),
            id2,
            rec2,
            entries2,
        ).main.contains_key(id1) && store_put(
            store_put(m, id1, rec1, entries1),
            id2,
            rec2,
            entries2,
        ).main[id1] == rec1,
{
    let m1 = store_put(m, id1, rec1, entries1);
    lemma_put_index_complete(m, id1, rec1, entries1, j1);
    lemma_put_entries_mono(
        StoreModel { main: m1.main.insert(id2, rec2), indices: m1.indices },
        id2,
        entries2,
        entries1[j1].0,
        entries1[j1].1,
        id1,
    );
    lemma_put_index_complete(m1, id2, rec2, entries2, j2);
    lemma_put_then_get(m1, id2, rec2, entries2);
    lemma_put_then_get(m, id1, rec1, entries1);
    lemma_put_entries_main(
        StoreModel { main: m1.main.insert(id2, rec2), indices: m1.indices },
        id2,
        entries2,
    );
}

/// A field query lists each stored identifier at most once: the listing is
/// strictly ascending in the engine's entry order, so an identifier stored
/// under a value appears in the result exactly one time.
pub proof fn lemma_field_query_no_dup(q: Seq<Seq<u8>>, s: Set<Seq<u8>>, i: int, j: int)
    requires
        is_sorted_ids_of(q, s),
        0 <= i < j < q.len(),
    ensures
        q[i] != q[j],
{
    assert(entry_lt(q[i], q[j]));
    lemma_entry_lt_irrefl(q[j]);
}

/// A field query's result is determined by the store contents: any two
/// results of querying value `k` of field `f` on the same contents hold the
/// same record bytes in the same order. The order is stable for a given set
/// of index entries, though it need not equal insertion order.
pub proof fn lemma_field_query_deterministic(
    recs1: Seq<Vec<u8>>,
    recs2: Seq<Vec<u8>>,
    m: StoreModel,
    f: Seq<char>,
    k: Seq<u8>,
)
    requires
        field_query_result(recs1, m, f, k),
        field_query_result(recs2, m, f, k),
    ensures
        recs1.len() == recs2.len(),
        forall|t: int| 0 <= t < recs1.len() ==> (#[trigger] recs1[t])@ == recs2[t]@,
{
    let ids1 = choose|ids: Seq<Seq<u8>>|
        #[trigger] is_sorted_ids_of(ids, index_ids(m, f, k)) && hydrated(recs1, ids, m);
    let ids2 = choose|ids: Seq<Seq<u8>>|
        #[trigger] is_sorted_ids_of(ids, index_ids(m, f, k)) && hydrated(recs2, ids, m);
    lemma_sorted_ids_unique(ids1, ids2, index_ids(m, f, k));
    assert forall|t: int| 0 <= t < recs1.len() implies (#[trigger] recs1[t])@ == recs2[t]@ by {
        assert(m.main.contains_key(ids1[t]));
        assert(ids2[t] == ids1[t]);
        assert(recs2[t]@ == m.main[ids2[t]]);
    }
}

/// Adding index entries for `id` puts nothing but `id` anywhere: an
/// identifier found under a field and value afterwards was there before, or
/// is `id` itself.
proof fn lemma_put_entries_upper(
    m: StoreModel,
    id: Seq<u8>,
    entries: Seq<(Seq<char>, Seq<u8>)>,
    f: Seq<char>,
    k: Seq<u8>,
    x: Seq<u8>,
)
    requires
        index_ids(put_index_entries(m, id, entries), f, k).contains(x),
    ensures
        index_ids(m, f, k).contains(x) || x == id,
    decreases entries.len(),
{
    if entries.len() > 0 {
        lemma_put_entries_upper(
            add_index_entry(m, entries[0].0, entries[0].1, id),
            id,
            entries.drop_first(),
            f,
            k,
            x,
        );
    }
}

/// Removing index entries for `id` removes nothing else: an identifier other
/// than `id` found under a field and value before is still there afterwards.
proof fn lemma_del_entries_lower(
    m: StoreModel,
    id: Seq<u8>,
    entries: Seq<(Seq<char>, Seq<u8>)>,
    f: Seq<char>,
    k: Seq<u8>,
    x: Seq<u8>,
)
    requires
        index_ids(m, f, k).contains(x),
        x != id,
    ensures
        index_ids(del_index_entries(m, id, entries), f, k).contains(x),
    decreases entries.len(),
{
    if entries.len() > 0 {
        let m1 = remove_index_entry(m, entries[0].0, entries[0].1, id);
        assert(index_ids(m1, f, k).contains(x));
        lemma_del_entries_lower(m1, id, entries.drop_first(), f, k, x);
    }
}

/// Removing index entries adds nothing: an identifier found under a field and
/// value afterwards was there before.
proof fn lemma_del_entries_upper(
    m: StoreModel,
    id: Seq<u8>,
    entries: Seq<(Seq<char>, Seq<u8>)>,
    f: Seq<char>,
    k: Seq<u8>,
    x: Seq<u8>,
)
    requires
        index_ids(del_index_entries(m, id, entries), f, k).contains(x),
    ensures
        index_ids(m, f, k).contains(x),
    decreases entries.len(),
{
    if entries.len() > 0 {
        let m1 = remove_index_entry(m, entries[0].0, entries[0].1, id);
        lemma_del_entries_upper(m1, id, entries.drop_first(), f, k, x);
    }
}

/// The concrete scenario in general form. From an empty store, put two
/// distinct identifiers, each listing the shared index pair `(f, v)` among
/// its entries; then the identifiers stored under `(f, v)` are exactly the
/// two, and each primary record is the one its put wrote. Delete the first
/// identifier with a list of pairs containing `(f, v)`: its primary entry is
/// gone and exactly the second identifier remains under `(f, v)`, its record
/// intact.
pub proof fn lemma_fresh_scenario(
    m: StoreModel,
    id1: Seq<u8>,
    rec1: Seq<u8>,
    entries1: Seq<(Seq<char>, Seq<u8>)>,
    j1: int,
    id2: Seq<u8>,
    rec2: Seq<u8>,
    entries2: Seq<(Seq<char>, Seq<u8>)>,
    j2: int,
    entries_d: Seq<(Seq<char>, Seq<u8>)>,
    jd: int,
)
    requires
        store_empty(m),
        id1 != id2,
        0 <= j1 < entries1.len(),
        0 <= j2 < entries2.len(),
        0 <= jd < entries_d.len(),
        entries1[j1] == entries2[j2],
        entries_d[jd] == entries1[j1],
    ensures
        ({
            let f = entries1[j1].0;
            let k = entries1[j1].1;
            let m2 = store_put(store_put(m, id1, rec1, entries1), id2, rec2, entries2);
            let m3 = store_del(m2, id1, entries_d);
            index_ids(m2, f, k) == set![id1, id2] && m2.main.contains_key(id1) && m2.main[id1]
                == rec1 && m2.main.contains_key(id2) && m2.main[id2] == rec2 && index_ids(
                m3,
                f,
                k,
            ) == set![id2] && !m3.main.contains_key(id1) && m3.main.contains_key(id2)
                && m3.main[id2] == rec2
        }),
{
    let f = entries1[j1].0;
    let k = entries1[j1].1;
    let m1 = store_put(m, id1, rec1, entries1);
    let m2 = store_put(m1, id2, rec2, entries2);
    let m3 = store_del(m2, id1, entries_d);

    // Both identifiers are under (f, v), and their records are in place.
    lemma_shared_index_value(
        m,
        id1,
        rec1,
        entries1,
        id2,
        rec2,
        entries2,
        j1,
        j2,
    );

    // Nothing else is: each put adds only its own identifier, and the store
    // began empty.
    assert forall|x: Seq<u8>| index_ids(m2, f, k).contains(x) implies set![id1, id2].contains(
        x,
    ) by {
        lemma_put_entries_upper(
            StoreModel { main: m1.main.insert(id2, rec2), indices: m1.indices },
            id2,
            entries2,
            f,
            k,
            x,
        );
        if index_ids(m1, f, k).contains(x) {
            lemma_put_entries_upper(
                StoreModel { main: m.main.insert(id1, rec1), indices: m.indices },
                id1,
                entries1,
                f,
                k,
                x,
            );
            assert(index_ids(m, f, k) == Set::<Seq<u8>>::empty());
        }
    }
    assert(index_ids(m2, f, k) =~= set![id1, id2]);

    // Deleting id1 removes it from (f, v) and from the primary relation, and
    // touches nothing of id2's.
    lemma_del_removes(m2, id1, entries_d, jd);
    assert forall|x: Seq<u8>| index_ids(m3, f, k).contains(x) implies set![id2].contains(x) by {
        lemma_del_entries_upper(
            StoreModel { main: m2.main.remove(id1), indices: m2.indices },
            id1,
            entries_d,
            f,
            k,
            x,
        );
    }
    lemma_del_entries_lower(
        StoreModel { main: m2.main.remove(id1), indices: m2.indices },
        id1,
        entries_d,
        f,
        k,
        id2,
    );
    assert(index_ids(m3, f, k) =~= set![id2]);
    lemma_del_entries_main(
        StoreModel { main: m2.main.remove(id1), indices: m2.indices },
        id1,
        entries_d,
    );
}

/// Adding index entries that are all already present changes nothing.
proof fn lemma_put_entries_noop(m: StoreModel, id: Seq<u8>, entries: Seq<(Seq<char>, Seq<u8>)>)
    requires
        forall|j: int|
            0 <= j < entries.len() ==> index_ids(
                m,
                (#[trigger] entries[j]).0,
                entries[j].1,
            ).contains(id),
    ensures
        put_index_entries(m, id, entries) == m,
    decreases entries.len(),
{
    if entries.len() > 0 {
        let f = entries[0].0;
        let k = entries[0].1;
        let m1 = add_index_entry(m, f, k, id);
        assert(index_ids(m, f, k).contains(id));
        assert(m.indices.contains_key(f) && m.indices[f].contains_key(k));
        assert(index_ids(m, f, k).insert(id) =~= index_ids(m, f, k));
        assert(m.indices[f].insert(k, index_ids(m, f, k).insert(id)) =~= m.indices[f]);
        assert(m.indices.insert(f, m.indices[f].insert(k, index_ids(m, f, k).insert(id)))
            =~= m.indices);
        assert(m1 =~= m);
        assert forall|j: int|
            0 <= j < entries.drop_first().len() implies index_ids(
            m1,
            (#[trigger] entries.drop_first()[j]).0,
            entries.drop_first()[j].1,
        ).contains(id) by {
            assert(entries.drop_first()[j] == entries[j + 1]);
        }
        lemma_put_entries_noop(m1, id, entries.drop_first());
    }
}

/// Re-put stores an identifier exactly once: from contents where nothing is
/// stored under `(f, v)`, two identical puts each listing `(f, v)` leave
/// exactly `{id}` stored there, and the sorted listing any query walks is
/// exactly `[id]` — the engine collapses the duplicate pair, so the decoded
/// identifiers of the best-effort query carry `id`'s decoding once.
pub proof fn lemma_reput_stores_once(
    m: StoreModel,
    id: Seq<u8>,
    rec: Seq<u8>,
    entries: Seq<(Seq<char>, Seq<u8>)>,
    j: int,
)
    requires
        0 <= j < entries.len(),
        index_ids(m, entries[j].0, entries[j].1) == Set::<Seq<u8>>::empty(),
    ensures
        ({
            let m2 = store_put(store_put(m, id, rec, entries), id, rec, entries);
            index_ids(m2, entries[j].0, entries[j].1) == set![id] && (forall|q: Seq<Seq<u8>>|
                is_sorted_ids_of(q, index_ids(m2, entries[j].0, entries[j].1)) ==> q == seq![id])
        }),
{
    let f = entries[j].0;
    let k = entries[j].1;
    let m1 = store_put(m, id, rec, entries);
    lemma_put_idempotent(m, id, rec, entries);
    lemma_put_index_complete(m, id, rec, entries, j);
    assert forall|x: Seq<u8>| index_ids(m1, f, k).contains(x) implies set![id].contains(x) by {
        lemma_put_entries_upper(
            StoreModel { main: m.main.insert(id, rec), indices: m.indices },
            id,
            entries,
            f,
            k,
            x,
        );
    }
    assert(index_ids(m1, f, k) =~= set![id]);
    assert forall|q: Seq<Seq<u8>>| is_sorted_ids_of(q, set![id]) implies q == seq![id] by {
        assert(is_sorted_ids_of(seq![id], set![id])) by {
            assert(seq![id][0] == id);
        }
        lemma_sorted_ids_unique(q, seq![id], set![id]);
    }
}

/// Idempotence of re-put: a second `put` with identical arguments leaves the
/// store exactly as the first left it, so `get` and every field query return
/// the same results. Duplicate (value, identifier) index pairs collapse.
pub proof fn lemma_put_idempotent(
    m: StoreModel,
    id: Seq<u8>,
    rec: Seq<u8>,
    entries: Seq<(Seq<char>, Seq<u8>)>,
)
    ensures
        store_put(store_put(m, id, rec, entries), id, rec, entries) == store_put(
            m,
            id,
            rec,
            entries,
        ),
{
    let m1 = store_put(m, id, rec, entries);
    lemma_put_then_get(m, id, rec, entries);
    assert(m1.main.insert(id, rec) =~= m1.main);
    let m2_mid = StoreModel { main: m1.main.insert(id, rec), indices: m1.indices };
    assert(m2_mid =~= m1);
    assert forall|j: int|
        0 <= j < entries.len() implies index_ids(
        m1,
        (#[trigger] entries[j]).0,
        entries[j].1,
    ).contains(id) by {
        lemma_put_index_complete(m, id, rec, entries, j);
    }
    lemma_put_entries_noop(m1, id, entries);
}

} // verus!
