//! The byte codec boundary for identifiers.
//!
//! Identifiers are canonical byte strings produced by one codec. The store
//! itself never inspects them; only the best-effort identifier query decodes
//! them back into strings, through the trusted items below.

use vstd::prelude::*;

use crate::error::MegadexDbError;
use crate::model::StoreModel;
use crate::model::index_ids;
use crate::model::is_sorted_ids_of;

verus! {

/// The canonical byte encoding of a string: what the codec produces for it.
/// The encoding depends on the characters alone.
pub uninterp spec fn codec_str_bytes(s: Seq<char>) -> Seq<u8>;

/// Whether some string's canonical encoding leads `b`. This is exactly the
/// condition under which the codec decodes `b` as a string.
pub open spec fn str_decodable(b: Seq<u8>) -> bool {
    exists|s: Seq<char>| codec_str_bytes(s).is_prefix_of(b)
}

/// The string decoded from `b`: the one whose canonical encoding leads `b`.
/// At most one string qualifies (the codec pins the length first), so this is
/// well defined wherever `str_decodable` holds.
pub open spec fn decoded_str(b: Seq<u8>) -> Seq<char> {
    choose|s: Seq<char>| codec_str_bytes(s).is_prefix_of(b)
}

/// The decodings of the decodable entries of `ids`, in order; entries that do
/// not decode contribute nothing.
pub open spec fn decoded_seq(ids: Seq<Seq<u8>>) -> Seq<Seq<char>>
    decreases ids.len(),
{
    if ids.len() == 0 {
        Seq::empty()
    } else {
        let rest = decoded_seq(ids.drop_first());
        if str_decodable(ids[0]) {
            seq![decoded_str(ids[0])] + rest
        } else {
            rest
        }
    }
}

/// Whether `ss` is the result of the best-effort identifier query on `m` for
/// value `k` of field `f`: the decodings of the decodable identifiers stored
/// there, in their sorted listing order. The listing is unique for a given
/// set, so `ss` is determined by `m`, `f` and `k`.
pub open spec fn ids_query_result(ss: Seq<String>, m: StoreModel, f: Seq<char>, k: Seq<u8>) -> bool {
    exists|ids: Seq<Seq<u8>>|
        #[trigger] is_sorted_ids_of(ids, index_ids(m, f, k)) && ss.map_values(|s: String| s@)
            == decoded_seq(ids)
}

/// Encode a string as its canonical identifier bytes.
///
/// Relies on bincode's `serialize` for `&str`: the encoding is a pure function
/// of the characters (an eight-byte length, then the text), strings and string
/// slices encode identically, and distinct strings have distinct encodings.
#[verifier::external_body]
pub fn encode_str(s: &str) -> (r: Result<Vec<u8>, MegadexDbError>)
    ensures
        r matches Ok(v) ==> v@ == codec_str_bytes(s@),
        r matches Ok(v) ==> forall|s2: Seq<char>| codec_str_bytes(s2) == v@ ==> s2 == s@,
        r matches Err(e) ==> e matches MegadexDbError::CodecError(_),
{
    bincode::serialize(s).map_err(|e| MegadexDbError::CodecError(format!("{}", e)))
}

/// Relies on bincode's `deserialize` for `String`: it reads an eight-byte
/// length and that many bytes of text, ignoring what trails. So it succeeds
/// exactly when some string's canonical encoding leads the input; the result
/// is that string, and no other string's encoding can lead the same input
/// (two leading encodings share the length prefix, hence their length, hence
/// their text).
#[verifier::external_body]
pub(crate) fn decode_str(bytes: &[u8]) -> (r: Result<String, MegadexDbError>)
    ensures
        r matches Ok(s) ==> codec_str_bytes(s@).is_prefix_of(bytes@),
        r matches Ok(s) ==> forall|s2: Seq<char>|
            codec_str_bytes(s2).is_prefix_of(bytes@) ==> s2 == s@,
        r matches Err(e) ==> e matches MegadexDbError::CodecError(_) && !str_decodable(bytes@),
{
    bincode::deserialize::<String>(bytes).map_err(
        |e| MegadexDbError::CodecError(format!("{}", e)),
    )
}

/// Appending one identifier to a list appends its decoding (or nothing) to
/// the list's decodings.
pub proof fn lemma_decoded_seq_snoc(ids: Seq<Seq<u8>>, b: Seq<u8>)
    ensures
        decoded_seq(ids.push(b)) == decoded_seq(ids) + (if str_decodable(b) {
            seq![decoded_str(b)]
        } else {
            Seq::<Seq<char>>::empty()
        }),
    decreases ids.len(),
{
    if ids.len() == 0 {
        assert(ids.push(b)[0] == b);
        assert(ids.push(b).drop_first() =~= ids);
        if str_decodable(b) {
            assert(decoded_seq(ids.push(b)) =~= decoded_seq(ids) + seq![decoded_str(b)]);
        } else {
            assert(decoded_seq(ids.push(b)) =~= decoded_seq(ids) + Seq::<Seq<char>>::empty());
        }
    } else {
        assert(ids.push(b)[0] == ids[0]);
        assert(ids.push(b).drop_first() =~= ids.drop_first().push(b));
        lemma_decoded_seq_snoc(ids.drop_first(), b);
        if str_decodable(ids[0]) {
            assert(decoded_seq(ids.push(b)) =~= decoded_seq(ids) + (if str_decodable(b) {
                seq![decoded_str(b)]
            } else {
                Seq::<Seq<char>>::empty()
            }));
        }
    }
}

/// Decode each identifier in `ids` as a string, keeping input order and
/// silently dropping entries that do not decode. This is the documented
/// best-effort behavior of the identifier query: one unreadable entry must
/// not block access to the rest. The result holds exactly the decodings of
/// the decodable entries, in order.
pub fn decode_ids(ids: &Vec<Vec<u8>>) -> (r: Vec<String>)
    ensures
        r@.map_values(|s: String| s@) == decoded_seq(crate::model::bytes_view(ids@)),
{
    let ghost bv = crate::model::bytes_view(ids@);
    let mut out: Vec<String> = Vec::new();
    let mut j: usize = 0;
    while j < ids.len()
        invariant
            j <= ids@.len(),
            bv == crate::model::bytes_view(ids@),
            out@.map_values(|s: String| s@) == decoded_seq(bv.take(j as int)),
        decreases ids@.len() - j,
    {
        let ghost prev = out@;
        match decode_str(ids[j].as_slice()) {
            Ok(s) => {
                out.push(s);
                proof {
                    assert(codec_str_bytes(s@).is_prefix_of(bv[j as int]));
                    assert(str_decodable(bv[j as int]));
                    assert(decoded_str(bv[j as int]) == s@) by {
                        assert(codec_str_bytes(decoded_str(bv[j as int])).is_prefix_of(
                            bv[j as int],
                        ));
                    }
                    assert(out@.map_values(|x: String| x@) =~= prev.map_values(|x: String| x@)
                        + seq![s@]);
                }
            },
            Err(_) => {
                proof {
                    assert(!str_decodable(bv[j as int]));
                }
            },
        }
        proof {
            lemma_decoded_seq_snoc(bv.take(j as int), bv[j as int]);
            assert(bv.take(j as int).push(bv[j as int]) =~= bv.take(j as int + 1));
            assert(out@.map_values(|x: String| x@) =~= decoded_seq(bv.take(j as int + 1)));
        }
        j += 1;
    }
    proof {
        assert(bv.take(ids@.len() as int) =~= bv);
    }
    out
}

} // verus!
