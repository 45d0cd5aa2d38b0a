//! The vegetable scenario: one record type with identifier `name` and indexed
//! fields `flavor` and `leaves`, exercised end to end.

use megadex::Db;
use megadex::MegadexDb;

fn enc<T: serde::Serialize>(v: &T) -> Vec<u8> {
    bincode::serialize(v).unwrap()
}

// A vegetable record, serialized as its field tuple: name, flavor, leaves,
// weight.
fn veggie_rec(name: &str, flavor: &str, leaves: &str, weight: f64) -> Vec<u8> {
    enc(&(name.to_string(), flavor.to_string(), leaves.to_string(), weight))
}

#[test]
fn check_veggies() {
    let db = Db::new_temp().unwrap();
    let mut md = MegadexDb::new(db, vec!["flavor".to_string(), "leaves".to_string()]).unwrap();

    let garlic_id = enc(&"garlic".to_string());
    let garlic = veggie_rec("garlic", "bold", "pointy", 0.5);
    let garlic_fields = vec![
        ("flavor".to_string(), enc(&"bold".to_string())),
        ("leaves".to_string(), enc(&"pointy".to_string())),
    ];

    let rhubarb_id = enc(&"rhubarb".to_string());
    let rhubarb = veggie_rec("rhubarb", "bold", "broad", 2.5);
    let rhubarb_fields = vec![
        ("flavor".to_string(), enc(&"bold".to_string())),
        ("leaves".to_string(), enc(&"broad".to_string())),
    ];

    md.put(&rhubarb_id, &rhubarb, &rhubarb_fields).unwrap();
    md.put(&garlic_id, &garlic, &garlic_fields).unwrap();

    let g1 = md.get(&garlic_id).unwrap().unwrap();
    assert_eq!(g1, garlic);
    let r1 = md.get(&rhubarb_id).unwrap().unwrap();
    assert_eq!(r1, rhubarb);

    // Both bold records come back, order-independent set equality.
    let bold = md.get_by_field("flavor", &enc(&"bold".to_string())).unwrap();
    assert_eq!(bold.len(), 2);
    assert!(bold.contains(&garlic));
    assert!(bold.contains(&rhubarb));

    let pointy_ids = md
        .get_ids_by_field("leaves", &enc(&"pointy".to_string()))
        .unwrap();
    assert_eq!(pointy_ids, vec!["garlic".to_string()]);

    md.del(&rhubarb_id, &rhubarb_fields).unwrap();
    md.del(&garlic_id, &garlic_fields).unwrap();

    assert_eq!(md.get(&garlic_id).unwrap(), None);
    assert_eq!(
        md.get_by_field("flavor", &enc(&"bold".to_string())).unwrap(),
        Vec::<Vec<u8>>::new()
    );
}

#[test]
fn garlic_scenario() {
    let db = Db::new_temp().unwrap();
    let mut md = MegadexDb::new(db, vec!["flavor".to_string()]).unwrap();

    let garlic_id = enc(&"garlic".to_string());
    let garlic = veggie_rec("garlic", "bold", "pointy", 0.5);
    let rhubarb_id = enc(&"rhubarb".to_string());
    let rhubarb = veggie_rec("rhubarb", "bold", "broad", 2.5);
    let bold = enc(&"bold".to_string());

    md.put(&garlic_id, &garlic, &vec![("flavor".to_string(), bold.clone())]).unwrap();
    md.put(&rhubarb_id, &rhubarb, &vec![("flavor".to_string(), bold.clone())]).unwrap();

    let both = md.get_by_field("flavor", &bold).unwrap();
    assert_eq!(both.len(), 2);
    assert!(both.contains(&garlic));
    assert!(both.contains(&rhubarb));

    md.del(&garlic_id, &vec![("flavor".to_string(), bold.clone())]).unwrap();
    assert_eq!(md.get(&garlic_id).unwrap(), None);
    assert_eq!(md.get_by_field("flavor", &bold).unwrap(), vec![rhubarb.clone()]);
}

#[test]
fn ready_made_scenario_runs_clean() {
    megadex::check_veggies().unwrap();
}
