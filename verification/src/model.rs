//! The mathematical model of one record store.
//!
//! A store holds a primary relation (identifier bytes -> record bytes) and, for
//! each registered field name, a secondary relation mapping a field value to the
//! set of identifiers whose record carried that value. All contracts of the
//! executable store are stated over this model.

use vstd::prelude::*;

verus! {

/// Contents of one record store: the primary relation and every secondary relation.
///
/// `main` maps identifier bytes to record bytes. `indices` maps a field name to
/// that field's secondary relation, which maps field-value bytes to the set of
/// identifier bytes stored under that value. Duplicate (value, identifier) pairs
/// collapse, which is why a set of identifiers is the right model.
#[verifier::ext_equal]
pub struct StoreModel {
    pub main: Map<Seq<u8>, Seq<u8>>,
    pub indices: Map<Seq<char>, Map<Seq<u8>, Set<Seq<u8>>>>,
}

/// The set of identifiers stored under value `k` in the secondary relation of
/// field `f`; empty when the field or the value has no entry.
pub open spec fn index_ids(m: StoreModel, f: Seq<char>, k: Seq<u8>) -> Set<Seq<u8>> {
    if m.indices.contains_key(f) && m.indices[f].contains_key(k) {
        m.indices[f][k]
    } else {
        Set::empty()
    }
}

/// The store after adding the index entry `k -> id` to field `f`'s relation.
pub open spec fn add_index_entry(m: StoreModel, f: Seq<char>, k: Seq<u8>, id: Seq<u8>) -> StoreModel {
    let fm = if m.indices.contains_key(f) {
        m.indices[f]
    } else {
        Map::empty()
    };
    StoreModel { main: m.main, indices: m.indices.insert(f, fm.insert(k, index_ids(m, f, k).insert(id))) }
}

/// The store after removing the index entry `k -> id` from field `f`'s relation.
pub open spec fn remove_index_entry(m: StoreModel, f: Seq<char>, k: Seq<u8>, id: Seq<u8>) -> StoreModel {
    let fm = if m.indices.contains_key(f) {
        m.indices[f]
    } else {
        Map::empty()
    };
    StoreModel { main: m.main, indices: m.indices.insert(f, fm.insert(k, index_ids(m, f, k).remove(id))) }
}

/// The store after adding, in order, one index entry `k -> id` for every
/// `(f, k)` pair in `entries`.
pub open spec fn put_index_entries(m: StoreModel, id: Seq<u8>, entries: Seq<(Seq<char>, Seq<u8>)>) -> StoreModel
    decreases entries.len(),
{
    if entries.len() == 0 {
        m
    } else {
        put_index_entries(add_index_entry(m, entries[0].0, entries[0].1, id), id, entries.drop_first())
    }
}

/// The store after removing, in order, one index entry `k -> id` for every
/// `(f, k)` pair in `entries`.
pub open spec fn del_index_entries(m: StoreModel, id: Seq<u8>, entries: Seq<(Seq<char>, Seq<u8>)>) -> StoreModel
    decreases entries.len(),
{
    if entries.len() == 0 {
        m
    } else {
        del_index_entries(remove_index_entry(m, entries[0].0, entries[0].1, id), id, entries.drop_first())
    }
}

/// The store after one whole `put`: the primary entry is written (replacing any
/// previous record under `id`), then every listed index entry is added.
pub open spec fn store_put(m: StoreModel, id: Seq<u8>, rec: Seq<u8>, entries: Seq<(Seq<char>, Seq<u8>)>) -> StoreModel {
    put_index_entries(StoreModel { main: m.main.insert(id, rec), indices: m.indices }, id, entries)
}

/// The store after one whole `del`: the primary entry for `id` is removed, then
/// every listed index entry is removed.
pub open spec fn store_del(m: StoreModel, id: Seq<u8>, entries: Seq<(Seq<char>, Seq<u8>)>) -> StoreModel {
    del_index_entries(StoreModel { main: m.main.remove(id), indices: m.indices }, id, entries)
}

/// Whether removing the listed index entries for `id`, in order, finds every
/// entry present at its step. The engine deletes by exact (value, identifier)
/// pair and fails when the pair is absent, so a successful `del` implies this.
pub open spec fn del_entries_present(m: StoreModel, id: Seq<u8>, entries: Seq<(Seq<char>, Seq<u8>)>) -> bool
    decreases entries.len(),
{
    if entries.len() == 0 {
        true
    } else {
        index_ids(m, entries[0].0, entries[0].1).contains(id)
            && del_entries_present(remove_index_entry(m, entries[0].0, entries[0].1, id), id, entries.drop_first())
    }
}

/// Whether one whole `del` of `id` with the listed entries finds everything it
/// removes: the primary entry and each index entry in turn.
pub open spec fn del_present(m: StoreModel, id: Seq<u8>, entries: Seq<(Seq<char>, Seq<u8>)>) -> bool {
    m.main.contains_key(id) && del_entries_present(
        StoreModel { main: m.main.remove(id), indices: m.indices },
        id,
        entries,
    )
}

/// Whether the store holds nothing: the primary relation is empty and no
/// identifier is stored under any value of any field. This is the state of a
/// store freshly opened on a new environment.
pub open spec fn store_empty(m: StoreModel) -> bool {
    m.main == Map::<Seq<u8>, Seq<u8>>::empty() && (forall|f: Seq<char>, k: Seq<u8>|
        index_ids(m, f, k) == Set::<Seq<u8>>::empty())
}

/// When every removal of a deletion finds its entry, the entry of each step
/// is present in the state that the earlier steps leave.
pub proof fn lemma_del_present_prefix(
    m: StoreModel,
    id: Seq<u8>,
    entries: Seq<(Seq<char>, Seq<u8>)>,
    j: int,
)
    requires
        del_entries_present(m, id, entries),
        0 <= j < entries.len(),
    ensures
        index_ids(del_index_entries(m, id, entries.take(j)), entries[j].0, entries[j].1).contains(
            id,
        ),
    decreases j,
{
    if j == 0 {
        assert(entries.take(0) =~= Seq::<(Seq<char>, Seq<u8>)>::empty());
        assert(del_index_entries(m, id, entries.take(0)) == m);
    } else {
        let m1 = remove_index_entry(m, entries[0].0, entries[0].1, id);
        lemma_del_present_prefix(m1, id, entries.drop_first(), j - 1);
        assert(entries.take(j)[0] == entries[0]);
        assert(entries.take(j).drop_first() =~= entries.drop_first().take(j - 1));
        assert(del_index_entries(m, id, entries.take(j)) == del_index_entries(
            m1,
            id,
            entries.drop_first().take(j - 1),
        ));
        assert(entries.drop_first()[j - 1] == entries[j]);
    }
}

/// The byte-string views of a list of byte vectors, position by position.
pub open spec fn bytes_view(s: Seq<Vec<u8>>) -> Seq<Seq<u8>> {
    s.map_values(|v: Vec<u8>| v@)
}

/// The view of an executable `(field name, value bytes)` list.
pub open spec fn entries_view(s: Seq<(String, Vec<u8>)>) -> Seq<(Seq<char>, Seq<u8>)> {
    s.map_values(|p: (String, Vec<u8>)| (p.0@, p.1@))
}

// ---------------------------------------------------------------------------
// The engine's entry order, and sorted identifier sequences.
//
// The engine stores each identifier under an index value as a tagged,
// length-prefixed byte string, and keeps the entries of one value in a set
// ordered by byte-wise lexicographic comparison of that stored form. The tag
// is the same for every entry, so two entries order by the length prefix
// followed by the identifier bytes. A query yields the identifiers strictly
// ascending in this order, which makes the result of a lookup a pure function
// of the stored set; the laws rely on that.
// ---------------------------------------------------------------------------

/// Strict byte-wise lexicographic order on byte strings.
pub open spec fn lex_lt(a: Seq<u8>, b: Seq<u8>) -> bool
    decreases a.len(),
{
    if b.len() == 0 {
        false
    } else if a.len() == 0 {
        true
    } else if a[0] < b[0] {
        true
    } else if a[0] > b[0] {
        false
    } else {
        lex_lt(a.drop_first(), b.drop_first())
    }
}

/// A length as the eight bytes of its little-endian form, the engine's prefix
/// for a stored entry.
pub open spec fn le_bytes8(n: nat) -> Seq<u8> {
    seq![
        (n % 256) as u8,
        ((n / 256) % 256) as u8,
        ((n / 65536) % 256) as u8,
        ((n / 16777216) % 256) as u8,
        ((n / 4294967296) % 256) as u8,
        ((n / 1099511627776) % 256) as u8,
        ((n / 281474976710656) % 256) as u8,
        ((n / 72057594037927936) % 256) as u8,
    ]
}

/// The stored form of an identifier entry, up to the constant leading tag:
/// the identifier's length as eight little-endian bytes, then its bytes.
pub open spec fn stored_entry(id: Seq<u8>) -> Seq<u8> {
    le_bytes8(id.len()) + id
}

/// The engine's strict order on identifier entries: byte-wise lexicographic
/// on the stored form.
pub open spec fn entry_lt(a: Seq<u8>, b: Seq<u8>) -> bool {
    lex_lt(stored_entry(a), stored_entry(b))
}

/// Whether `q` is strictly ascending in the engine's entry order.
pub open spec fn strictly_sorted_entries(q: Seq<Seq<u8>>) -> bool {
    forall|i: int, j: int| 0 <= i < j < q.len() ==> entry_lt(q[i], q[j])
}

/// Whether `q` lists exactly the elements of `s`, strictly ascending in the
/// engine's entry order. Such a listing is unique for a given set
/// (`lemma_sorted_ids_unique`).
pub open spec fn is_sorted_ids_of(q: Seq<Seq<u8>>, s: Set<Seq<u8>>) -> bool {
    strictly_sorted_entries(q) && (forall|i: int| 0 <= i < q.len() ==> s.contains(q[i])) && (forall|b: Seq<u8>|
        s.contains(b) ==> q.contains(b))
}

/// Whether `recs` lists, position by position, the primary records of the
/// identifiers in `ids`.
pub open spec fn hydrated(recs: Seq<Vec<u8>>, ids: Seq<Seq<u8>>, m: StoreModel) -> bool {
    recs.len() == ids.len() && (forall|t: int|
        0 <= t < ids.len() ==> m.main.contains_key(#[trigger] ids[t]) && recs[t]@ == m.main[ids[t]])
}

/// Whether `recs` is the result of a field query on `m`: the primary records
/// of exactly the identifiers stored under value `k` of field `f`, in their
/// sorted order. The identifier listing is unique (`lemma_sorted_ids_unique`),
/// so `recs` is determined by `m`, `f` and `k`.
pub open spec fn field_query_result(recs: Seq<Vec<u8>>, m: StoreModel, f: Seq<char>, k: Seq<u8>) -> bool {
    exists|ids: Seq<Seq<u8>>|
        #[trigger] is_sorted_ids_of(ids, index_ids(m, f, k)) && hydrated(recs, ids, m)
}

pub proof fn lemma_lex_lt_irrefl(a: Seq<u8>)
    ensures
        !lex_lt(a, a),
    decreases a.len(),
{
    if a.len() > 0 {
        lemma_lex_lt_irrefl(a.drop_first());
    }
}

pub proof fn lemma_lex_lt_asym(a: Seq<u8>, b: Seq<u8>)
    requires
        lex_lt(a, b),
    ensures
        !lex_lt(b, a),
    decreases a.len(),
{
    if a.len() > 0 && b.len() > 0 && a[0] == b[0] {
        lemma_lex_lt_asym(a.drop_first(), b.drop_first());
    }
}

pub proof fn lemma_entry_lt_irrefl(a: Seq<u8>)
    ensures
        !entry_lt(a, a),
{
    lemma_lex_lt_irrefl(stored_entry(a));
}

pub proof fn lemma_entry_lt_asym(a: Seq<u8>, b: Seq<u8>)
    requires
        entry_lt(a, b),
    ensures
        !entry_lt(b, a),
{
    lemma_lex_lt_asym(stored_entry(a), stored_entry(b));
}

/// Two strictly ascending listings of the same set are the same sequence: the
/// order in which a lookup yields identifiers is determined by the stored set.
pub proof fn lemma_sorted_ids_unique(q1: Seq<Seq<u8>>, q2: Seq<Seq<u8>>, s: Set<Seq<u8>>)
    requires
        is_sorted_ids_of(q1, s),
        is_sorted_ids_of(q2, s),
    ensures
        q1 == q2,
    decreases q1.len(),
{
    if q1.len() == 0 {
        if q2.len() > 0 {
            assert(s.contains(q2[0]));
            assert(false);
        }
        assert(q1 =~= q2);
    } else {
        if q2.len() == 0 {
            assert(s.contains(q1[0]));
            assert(false);
        }
        // The heads are equal: each head occurs in the other sequence, and any
        // occurrence past position 0 would contradict asymmetry.
        assert(q2.contains(q1[0]));
        assert(q1.contains(q2[0]));
        let i1 = choose|i: int| 0 <= i < q2.len() && q2[i] == q1[0];
        let i2 = choose|i: int| 0 <= i < q1.len() && q1[i] == q2[0];
        if i1 > 0 {
            assert(entry_lt(q2[0], q2[i1]));
            if i2 > 0 {
                assert(entry_lt(q1[0], q1[i2]));
                lemma_entry_lt_asym(q2[0], q1[0]);
                assert(false);
            }
        }
        assert(q1[0] == q2[0]);
        // The tails list exactly s minus the shared head.
        let head = q1[0];
        let rest = s.remove(head);
        lemma_entry_lt_irrefl(head);
        assert forall|b: Seq<u8>| rest.contains(b) implies q1.drop_first().contains(b) by {
            assert(s.contains(b));
            let i = choose|i: int| 0 <= i < q1.len() && q1[i] == b;
            assert(i != 0);
            assert(q1.drop_first()[i - 1] == b);
        }
        assert forall|b: Seq<u8>| rest.contains(b) implies q2.drop_first().contains(b) by {
            assert(s.contains(b));
            let i = choose|i: int| 0 <= i < q2.len() && q2[i] == b;
            assert(i != 0);
            assert(q2.drop_first()[i - 1] == b);
        }
        assert forall|i: int| 0 <= i < q1.drop_first().len() implies rest.contains(
            q1.drop_first()[i],
        ) by {
            assert(q1.drop_first()[i] == q1[i + 1]);
            assert(entry_lt(q1[0], q1[i + 1]));
            lemma_entry_lt_irrefl(q1[i + 1]);
        }
        assert forall|i: int| 0 <= i < q2.drop_first().len() implies rest.contains(
            q2.drop_first()[i],
        ) by {
            assert(q2.drop_first()[i] == q2[i + 1]);
            assert(entry_lt(q2[0], q2[i + 1]));
            lemma_entry_lt_irrefl(q2[i + 1]);
        }
        lemma_sorted_ids_unique(q1.drop_first(), q2.drop_first(), rest);
        assert(q1 =~= seq![q1[0]] + q1.drop_first());
        assert(q2 =~= seq![q2[0]] + q2.drop_first());
    }
}

// ---------------------------------------------------------------------------
// Unfolding lemmas: processing an entry list one element at a time, from the
// left, matches the recursive definitions above.
// ---------------------------------------------------------------------------

pub proof fn lemma_put_entries_snoc(m: StoreModel, id: Seq<u8>, entries: Seq<(Seq<char>, Seq<u8>)>, e: (Seq<char>, Seq<u8>))
    ensures
        put_index_entries(m, id, entries.push(e)) == add_index_entry(
            put_index_entries(m, id, entries),
            e.0,
            e.1,
            id,
        ),
    decreases entries.len(),
{
    if entries.len() == 0 {
        assert(entries.push(e)[0] == e);
        assert(entries.push(e).drop_first() =~= entries);
        assert(put_index_entries(m, id, entries.push(e)) == put_index_entries(
            add_index_entry(m, e.0, e.1, id),
            id,
            entries,
        ));
    } else {
        assert(entries.push(e)[0] == entries[0]);
        assert(entries.push(e).drop_first() =~= entries.drop_first().push(e));
        let m1 = add_index_entry(m, entries[0].0, entries[0].1, id);
        assert(put_index_entries(m, id, entries.push(e)) == put_index_entries(
            m1,
            id,
            entries.drop_first().push(e),
        ));
        lemma_put_entries_snoc(m1, id, entries.drop_first(), e);
    }
}

pub proof fn lemma_del_entries_snoc(m: StoreModel, id: Seq<u8>, entries: Seq<(Seq<char>, Seq<u8>)>, e: (Seq<char>, Seq<u8>))
    ensures
        del_index_entries(m, id, entries.push(e)) == remove_index_entry(
            del_index_entries(m, id, entries),
            e.0,
            e.1,
            id,
        ),
        del_entries_present(m, id, entries.push(e)) == (del_entries_present(m, id, entries)
            && index_ids(del_index_entries(m, id, entries), e.0, e.1).contains(id)),
    decreases entries.len(),
{
    if entries.len() == 0 {
        assert(entries.push(e)[0] == e);
        assert(entries.push(e).drop_first() =~= entries);
        assert(del_index_entries(m, id, entries.push(e)) == del_index_entries(
            remove_index_entry(m, e.0, e.1, id),
            id,
            entries,
        ));
        assert(del_entries_present(m, id, entries.push(e)) == (index_ids(m, e.0, e.1).contains(id)
            && del_entries_present(remove_index_entry(m, e.0, e.1, id), id, entries)));
    } else {
        assert(entries.push(e)[0] == entries[0]);
        assert(entries.push(e).drop_first() =~= entries.drop_first().push(e));
        let m1 = remove_index_entry(m, entries[0].0, entries[0].1, id);
        assert(del_index_entries(m, id, entries.push(e)) == del_index_entries(
            m1,
            id,
            entries.drop_first().push(e),
        ));
        assert(del_entries_present(m, id, entries.push(e)) == (index_ids(m, entries[0].0, entries[0].1).contains(id)
            && del_entries_present(m1, id, entries.drop_first().push(e))));
        lemma_del_entries_snoc(m1, id, entries.drop_first(), e);
    }
}

} // verus!
