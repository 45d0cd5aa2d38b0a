//! A ready-made end-to-end scenario against a real environment.

use vstd::prelude::*;

use crate::codec::encode_str;
use crate::engine::Db;
use crate::error::MegadexDbError;
use crate::store::MegadexDb;

verus! {

/// Exercise one record store end to end: open a fresh environment, register
/// the `flavor` and `leaves` fields, store two records indexed by both,
/// retrieve them by identifier and by field, then delete them again. Stops at
/// the first failure and returns it. Every queried and written field is
/// registered, so the scenario can never fail with `IndexUndefined`.
pub fn check_veggies() -> (r: Result<(), MegadexDbError>)
    ensures
        r matches Err(e) ==> !(e matches MegadexDbError::IndexUndefined(_)),
{
    let db = Db::new_temp()?;
    let fields = vec!["flavor".to_owned(), "leaves".to_owned()];
    let mut md = MegadexDb::new(db, fields)?;
    proof {
        assert(md.registered("flavor"@)) by {
            assert(md.field_names()[0] == "flavor"@);
        }
        assert(md.registered("leaves"@)) by {
            assert(md.field_names()[1] == "leaves"@);
        }
    }

    let garlic = encode_str("garlic")?;
    let rhubarb = encode_str("rhubarb")?;
    let garlic_rec = encode_str("a bold, pointy-leaved bulb")?;
    let rhubarb_rec = encode_str("a bold, broad-leaved stalk")?;

    let garlic_fields: Vec<(String, Vec<u8>)> = vec![
        ("flavor".to_owned(), encode_str("bold")?),
        ("leaves".to_owned(), encode_str("pointy")?),
    ];
    let rhubarb_fields: Vec<(String, Vec<u8>)> = vec![
        ("flavor".to_owned(), encode_str("bold")?),
        ("leaves".to_owned(), encode_str("broad")?),
    ];
    proof {
        assert(garlic_fields@[0].0@ == "flavor"@);
        assert(garlic_fields@[1].0@ == "leaves"@);
        assert(rhubarb_fields@[0].0@ == "flavor"@);
        assert(rhubarb_fields@[1].0@ == "leaves"@);
    }

    md.put(rhubarb.as_slice(), rhubarb_rec.as_slice(), &rhubarb_fields)?;
    md.put(garlic.as_slice(), garlic_rec.as_slice(), &garlic_fields)?;

    let _g = md.get(garlic.as_slice())?;
    let _r = md.get(rhubarb.as_slice())?;

    let bold = encode_str("bold")?;
    let _both = md.get_by_field("flavor", bold.as_slice())?;

    let pointy = encode_str("pointy")?;
    let _names = md.get_ids_by_field("leaves", pointy.as_slice())?;

    md.del(rhubarb.as_slice(), &rhubarb_fields)?;
    md.del(garlic.as_slice(), &garlic_fields)?;

    Ok(())
}

} // verus!
