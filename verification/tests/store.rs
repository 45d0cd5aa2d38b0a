//! Tests of the record store through its public byte-string API, against a
//! real environment in a fresh temporary directory per test.

use megadex::Db;
use megadex::MegadexDb;
use megadex::MegadexDbError;

fn enc<T: serde::Serialize>(v: &T) -> Vec<u8> {
    bincode::serialize(v).unwrap()
}

fn fresh_store(fields: &[&str]) -> MegadexDb {
    let db = Db::new_temp().unwrap();
    let names: Vec<String> = fields.iter().map(|f| f.to_string()).collect();
    MegadexDb::new(db, names).unwrap()
}

#[test]
fn it_works() {
    let db = Db::new_temp().unwrap();
    let mut md = MegadexDb::new(db, vec!["a".to_string(), "b".to_string()]).unwrap();
    let w_id = enc(&"wat".to_string());
    let w_rec = enc(&("wat".to_string(), 42u32, "lalalala".to_string()));
    let x_id = enc(&"baz".to_string());
    let x_rec = enc(&("baz".to_string(), 64u32, "lalalala".to_string()));
    let b_val = enc(&"lalalala".to_string());

    md.put(&w_id, &w_rec, &vec![("b".to_string(), b_val.clone())]).unwrap();
    let lala = md.get(&w_id).unwrap();
    assert_eq!(Some(w_rec.clone()), lala);

    md.put(&x_id, &x_rec, &vec![("b".to_string(), b_val.clone())]).unwrap();
    let lala = md.get(&x_id).unwrap();
    assert_eq!(Some(x_rec.clone()), lala);

    let ha = md.get_by_field("b", &b_val).unwrap();
    assert_eq!(ha, vec![x_rec.clone(), w_rec.clone()]);

    let res = md.get_by_field("c", &b_val).err().unwrap();
    assert_eq!(MegadexDbError::IndexUndefined("c".into()), res);

    md.del(&w_id, &vec![("b".to_string(), b_val.clone())]).unwrap();

    let lala = md.get(&w_id).unwrap();
    assert_eq!(None, lala);

    let ha = md.get_by_field("b", &enc(&"lalalala".as_bytes())).unwrap();
    assert_eq!(ha, vec![x_rec.clone()]);
}

#[test]
fn round_trip_returns_identical_bytes() {
    let mut md = fresh_store(&["color"]);
    let id = enc(&"carrot".to_string());
    let rec = enc(&("carrot".to_string(), 7u32, "orange".to_string()));
    let idx = vec![("color".to_string(), enc(&"orange".to_string()))];
    md.put(&id, &rec, &idx).unwrap();
    assert_eq!(md.get(&id).unwrap(), Some(rec.clone()));
}

#[test]
fn index_completeness_after_put() {
    let mut md = fresh_store(&["color"]);
    let id = enc(&"carrot".to_string());
    let rec = enc(&("carrot".to_string(), 7u32, "orange".to_string()));
    let key = enc(&"orange".to_string());
    md.put(&id, &rec, &vec![("color".to_string(), key.clone())]).unwrap();
    let found = md.get_by_field("color", &key).unwrap();
    assert_eq!(found.iter().filter(|r| **r == rec).count(), 1);
    let ids = md.get_ids_by_field_raw("color", &key).unwrap();
    assert_eq!(ids, vec![id.clone()]);
}

#[test]
fn delete_removes_primary_and_index_entries() {
    let mut md = fresh_store(&["color", "shape"]);
    let id = enc(&"carrot".to_string());
    let rec = enc(&("carrot".to_string(), 7u32, "orange".to_string()));
    let color = enc(&"orange".to_string());
    let shape = enc(&"long".to_string());
    let idx = vec![
        ("color".to_string(), color.clone()),
        ("shape".to_string(), shape.clone()),
    ];
    md.put(&id, &rec, &idx).unwrap();
    md.del(&id, &idx).unwrap();
    assert_eq!(md.get(&id).unwrap(), None);
    assert_eq!(md.get_by_field("color", &color).unwrap(), Vec::<Vec<u8>>::new());
    assert_eq!(md.get_by_field("shape", &shape).unwrap(), Vec::<Vec<u8>>::new());
}

#[test]
fn two_identifiers_share_one_index_value() {
    let mut md = fresh_store(&["flavor"]);
    let id1 = enc(&"garlic".to_string());
    let rec1 = enc(&("garlic".to_string(), 1u32));
    let id2 = enc(&"rhubarb".to_string());
    let rec2 = enc(&("rhubarb".to_string(), 2u32));
    let key = enc(&"bold".to_string());
    md.put(&id1, &rec1, &vec![("flavor".to_string(), key.clone())]).unwrap();
    md.put(&id2, &rec2, &vec![("flavor".to_string(), key.clone())]).unwrap();
    let first = md.get_by_field("flavor", &key).unwrap();
    assert_eq!(first.len(), 2);
    assert!(first.contains(&rec1));
    assert!(first.contains(&rec2));
    // The order is stable for a given set of entries.
    let second = md.get_by_field("flavor", &key).unwrap();
    assert_eq!(first, second);
}

#[test]
fn unknown_field_query_fails_closed() {
    let md = fresh_store(&["flavor"]);
    let key = enc(&"bold".to_string());
    let res = md.get_by_field("nonexistent", &key);
    assert_eq!(
        res.err().unwrap(),
        MegadexDbError::IndexUndefined("nonexistent".to_string())
    );
    let res = md.get_ids_by_field("nonexistent", &key);
    assert_eq!(
        res.err().unwrap(),
        MegadexDbError::IndexUndefined("nonexistent".to_string())
    );
    let res = md.get_ids_by_field_raw("nonexistent", &key);
    assert_eq!(
        res.err().unwrap(),
        MegadexDbError::IndexUndefined("nonexistent".to_string())
    );
}

#[test]
fn re_put_is_idempotent() {
    let mut md = fresh_store(&["flavor"]);
    let id = enc(&"garlic".to_string());
    let rec = enc(&("garlic".to_string(), 1u32));
    let key = enc(&"bold".to_string());
    let idx = vec![("flavor".to_string(), key.clone())];
    md.put(&id, &rec, &idx).unwrap();
    md.put(&id, &rec, &idx).unwrap();
    assert_eq!(md.get(&id).unwrap(), Some(rec.clone()));
    // Identical (value, identifier) pairs collapse: no duplicate results.
    assert_eq!(md.get_by_field("flavor", &key).unwrap(), vec![rec.clone()]);
    assert_eq!(md.get_ids_by_field_raw("flavor", &key).unwrap(), vec![id.clone()]);
}

#[test]
fn put_with_unregistered_field_fails_and_changes_nothing() {
    let mut md = fresh_store(&["flavor"]);
    let id = enc(&"garlic".to_string());
    let rec = enc(&("garlic".to_string(), 1u32));
    let key = enc(&"bold".to_string());
    let res = md.put(&id, &rec, &vec![("unknown".to_string(), key.clone())]);
    assert_eq!(
        res.err().unwrap(),
        MegadexDbError::IndexUndefined("unknown".to_string())
    );
    // The whole transaction aborted: not even the primary entry was written.
    assert_eq!(md.get(&id).unwrap(), None);
}

#[test]
fn del_of_missing_identifier_is_an_engine_error() {
    let mut md = fresh_store(&["flavor"]);
    let id = enc(&"ghost".to_string());
    let res = md.del(&id, &vec![]);
    assert!(matches!(res, Err(MegadexDbError::EngineError(_))));
}

#[test]
fn dangling_index_entry_is_a_value_error() {
    let mut md = fresh_store(&["flavor"]);
    let id = enc(&"garlic".to_string());
    let rec = enc(&("garlic".to_string(), 1u32));
    let key = enc(&"bold".to_string());
    md.put(&id, &rec, &vec![("flavor".to_string(), key.clone())]).unwrap();
    // Remove only the primary entry; the index entry is left dangling.
    md.del(&id, &vec![]).unwrap();
    let res = md.get_by_field("flavor", &key);
    assert!(matches!(res, Err(MegadexDbError::ValueError(_))));
}

#[test]
fn stale_delete_pair_aborts_whole_deletion() {
    let mut md = fresh_store(&["flavor"]);
    let id = enc(&"garlic".to_string());
    let rec = enc(&("garlic".to_string(), 1u32));
    let key = enc(&"bold".to_string());
    md.put(&id, &rec, &vec![("flavor".to_string(), key.clone())]).unwrap();
    // A pair that no longer resolves to the identifier is a checked failure.
    let stale = enc(&"mild".to_string());
    let res = md.del(&id, &vec![("flavor".to_string(), stale)]);
    assert!(matches!(res, Err(MegadexDbError::ValueError(_))));
    // Nothing changed: the record is still there, under its index entry.
    assert_eq!(md.get(&id).unwrap(), Some(rec.clone()));
    assert_eq!(md.get_by_field("flavor", &key).unwrap(), vec![rec.clone()]);
}

#[test]
fn empty_result_is_not_an_error() {
    let md = fresh_store(&["flavor"]);
    let key = enc(&"unseen".to_string());
    assert_eq!(md.get_by_field("flavor", &key).unwrap(), Vec::<Vec<u8>>::new());
    assert_eq!(md.get(&enc(&"nobody".to_string())).unwrap(), None);
}

#[test]
fn best_effort_ids_drop_undecodable_entries() {
    let mut md = fresh_store(&["flavor"]);
    let good_id = enc(&"wat".to_string());
    let good_rec = enc(&("wat".to_string(), 1u32));
    // Not a valid encoded string: the length prefix claims far more bytes
    // than follow.
    let bad_id = vec![255u8; 12];
    let bad_rec = enc(&("bad".to_string(), 2u32));
    let key = enc(&"bold".to_string());
    md.put(&good_id, &good_rec, &vec![("flavor".to_string(), key.clone())]).unwrap();
    md.put(&bad_id, &bad_rec, &vec![("flavor".to_string(), key.clone())]).unwrap();
    // The raw query yields both identifiers; the decoded query drops the
    // unreadable one instead of failing.
    assert_eq!(md.get_ids_by_field_raw("flavor", &key).unwrap().len(), 2);
    assert_eq!(md.get_ids_by_field("flavor", &key).unwrap(), vec!["wat".to_string()]);
}

#[test]
fn raw_ids_come_back_sorted_and_deduplicated() {
    let mut md = fresh_store(&["flavor"]);
    let key = enc(&"bold".to_string());
    let ids = vec![
        enc(&"wat".to_string()),
        enc(&"baz".to_string()),
        enc(&"alpha".to_string()),
    ];
    for id in &ids {
        let rec = enc(&("rec".to_string(), 0u32));
        md.put(id, &rec, &vec![("flavor".to_string(), key.clone())]).unwrap();
    }
    let got = md.get_ids_by_field_raw("flavor", &key).unwrap();
    // The engine orders entries by their length-prefixed stored form: the two
    // eleven-byte identifiers first (byte-wise), then the thirteen-byte one.
    let expected = vec![
        enc(&"baz".to_string()),
        enc(&"wat".to_string()),
        enc(&"alpha".to_string()),
    ];
    assert_eq!(got, expected);
}

#[test]
fn decoded_ids_match_the_stored_strings() {
    let mut md = fresh_store(&["flavor"]);
    let key = enc(&"bold".to_string());
    for name in ["garlic", "rhubarb"] {
        let id = megadex::encode_str(name).unwrap();
        let rec = enc(&(name.to_string(), 0u32));
        md.put(&id, &rec, &vec![("flavor".to_string(), key.clone())]).unwrap();
    }
    let names = md.get_ids_by_field("flavor", &key).unwrap();
    assert_eq!(names, vec!["garlic".to_string(), "rhubarb".to_string()]);
}

#[test]
fn reserved_field_name_is_rejected() {
    let db = Db::new_temp().unwrap();
    let res = MegadexDb::new(db, vec!["_main_".to_string()]);
    assert!(matches!(res, Err(MegadexDbError::ValueError(_))));
}

#[test]
fn error_equality_follows_payloads() {
    assert_eq!(
        MegadexDbError::IndexUndefined("a".to_string()),
        MegadexDbError::IndexUndefined("a".to_string())
    );
    assert_ne!(
        MegadexDbError::IndexUndefined("a".to_string()),
        MegadexDbError::IndexUndefined("b".to_string())
    );
    assert_ne!(
        MegadexDbError::IndexUndefined("a".to_string()),
        MegadexDbError::ValueError("a".to_string())
    );
    assert_eq!(
        MegadexDbError::InvalidType("blob".to_string(), "str".to_string()),
        MegadexDbError::InvalidType("blob".to_string(), "str".to_string())
    );
    assert_eq!(MegadexDbError::LockError("x".to_string()).kind(), "lock error");
}

#[test]
fn shared_path_serves_two_stores() {
    // Opening one path twice yields one shared environment instance, so a
    // write through one store is visible to a read through the other. Such
    // stores are not exclusive: their model-tied guarantees do not apply.
    let dir = tempfile::Builder::new()
        .prefix("megadex-shared")
        .disable_cleanup(true)
        .tempdir()
        .unwrap();
    let path = dir.path().to_str().unwrap().to_string();
    let db1 = Db::new(&path).unwrap();
    let db2 = Db::new(&path).unwrap();
    let mut md1 = MegadexDb::new(db1, vec!["flavor".to_string()]).unwrap();
    let md2 = MegadexDb::new(db2, vec!["flavor".to_string()]).unwrap();
    let id = enc(&"garlic".to_string());
    let rec = enc(&("garlic".to_string(), 1u32));
    md1.put(&id, &rec, &vec![]).unwrap();
    // Both handles read the same primary relation.
    assert_eq!(md2.get(&id).unwrap(), Some(rec));
    let _env = md2.get_env();
}
