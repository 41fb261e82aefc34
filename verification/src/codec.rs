//! The codec itself: encoding a JSON value into a storable column and
//! decoding a retrieved column back into a JSON value.

use vstd::prelude::*;

use crate::column::ColumnValue;
use crate::column::DecodeError;
use crate::json_text::json_from_slice;
use crate::json_text::json_parse;
use crate::json_text::json_text_of;
use crate::json_text::json_to_vec;

verus! {

/// The four bytes of the JSON token `null`.
pub open spec fn null_bytes() -> Seq<u8> {
    seq![110u8, 117u8, 108u8, 108u8]
}

/// The four bytes of the replacement text `NULL`.
pub open spec fn upper_null_bytes() -> Seq<u8> {
    seq![78u8, 85u8, 76u8, 76u8]
}

/// The leftmost-first, non-overlapping replacement of every occurrence of
/// the bytes `null` by `NULL`. This is the substitution the encoder applies
/// to the serialized text before it is stored.
pub open spec fn spec_replace_null(s: Seq<u8>) -> Seq<u8>
    decreases s.len(),
{
    if s.len() < 4 {
        s
    } else if s.subrange(0, 4) == null_bytes() {
        upper_null_bytes() + spec_replace_null(s.skip(4))
    } else {
        seq![s[0]] + spec_replace_null(s.skip(1))
    }
}

/// Whether the bytes `null` occur anywhere in `s`.
pub open spec fn contains_null(s: Seq<u8>) -> bool {
    exists|i: int| 0 <= i && i + 4 <= s.len() && #[trigger] s.subrange(i, i + 4) == null_bytes()
}

/// On a byte sequence free of `null`, the substitution changes nothing.
proof fn lemma_replace_null_absent(s: Seq<u8>)
    requires
        !contains_null(s),
    ensures
        spec_replace_null(s) == s,
    decreases s.len(),
{
    if s.len() < 4 {
    } else {
        assert(s.subrange(0, 4) != null_bytes()) by {
            if s.subrange(0, 4) == null_bytes() {
                let z: int = 0;
                assert(s.subrange(z, z + 4) == null_bytes());
                assert(contains_null(s));
            }
        }
        assert(!contains_null(s.skip(1))) by {
            if contains_null(s.skip(1)) {
                let j = choose|j: int|
                    0 <= j && j + 4 <= s.skip(1).len() && #[trigger] s.skip(1).subrange(j, j + 4)
                        == null_bytes();
                assert(s.subrange(j + 1, j + 1 + 4) =~= s.skip(1).subrange(j, j + 4));
                assert(contains_null(s));
            }
        }
        lemma_replace_null_absent(s.skip(1));
        assert(seq![s[0]] + s.skip(1) =~= s);
    }
}

/// Replace every occurrence of the bytes `null` by `NULL`, scanning left to
/// right without overlap.
pub fn replace_null(s: &Vec<u8>) -> (r: Vec<u8>)
    ensures
        r@ == spec_replace_null(s@),
{
    let mut out: Vec<u8> = Vec::new();
    let mut i: usize = 0;
    proof {
        assert(s@.skip(0) =~= s@);
        assert(out@ + spec_replace_null(s@) =~= spec_replace_null(s@));
    }
    while i < s.len()
        invariant
            i <= s.len(),
            spec_replace_null(s@) == out@ + spec_replace_null(s@.skip(i as int)),
        decreases s.len() - i,
    {
        let ghost pre = s@.skip(i as int);
        let ghost out0 = out@;
        if s.len() - i >= 4 && s[i] == 110 && s[i + 1] == 117 && s[i + 2] == 108 && s[i + 3]
            == 108 {
            out.push(78);
            out.push(85);
            out.push(76);
            out.push(76);
            proof {
                assert(pre.subrange(0, 4) =~= null_bytes());
                assert(pre.skip(4) =~= s@.skip(i + 4));
                assert(spec_replace_null(pre) == upper_null_bytes() + spec_replace_null(
                    s@.skip(i + 4),
                ));
                assert(out@ =~= out0 + upper_null_bytes());
                assert(out0 + spec_replace_null(pre) =~= out@ + spec_replace_null(s@.skip(i + 4)));
            }
            i = i + 4;
        } else {
            let c = s[i];
            out.push(c);
            proof {
                if pre.len() >= 4 {
                    assert(pre.subrange(0, 4) != null_bytes()) by {
                        if pre.subrange(0, 4) == null_bytes() {
                            assert(s@[i as int] == pre.subrange(0, 4)[0]);
                            assert(s@[i + 1] == pre.subrange(0, 4)[1]);
                            assert(s@[i + 2] == pre.subrange(0, 4)[2]);
                            assert(s@[i + 3] == pre.subrange(0, 4)[3]);
                        }
                    }
                    assert(spec_replace_null(pre) == seq![pre[0]] + spec_replace_null(pre.skip(1)));
                } else {
                    assert(spec_replace_null(pre) == pre);
                    assert(spec_replace_null(pre.skip(1)) == pre.skip(1));
                    assert(pre =~= seq![pre[0]] + pre.skip(1));
                }
                assert(pre[0] == s@[i as int]);
                assert(pre.skip(1) =~= s@.skip(i + 1));
                assert(out@ =~= out0 + seq![c]);
                assert(out0 + spec_replace_null(pre) =~= out@ + spec_replace_null(s@.skip(i + 1)));
            }
            i = i + 1;
        }
    }
    proof {
        assert(s@.skip(i as int) =~= Seq::<u8>::empty());
        assert(out@ + spec_replace_null(s@.skip(i as int)) =~= out@);
    }
    out
}

/// The value a retrieved column stands for, before error reporting: a text
/// or blob cell stands for whatever its bytes parse to, and no other cell
/// kind stands for a value at all.
pub open spec fn decode_outcome(c: ColumnValue) -> Option<serde_json::Value> {
    match c {
        ColumnValue::Text(b) => json_parse(b@),
        ColumnValue::Blob(b) => json_parse(b@),
        ColumnValue::Null => None,
        ColumnValue::Integer(_) => None,
        ColumnValue::Real(_) => None,
    }
}

/// Encode a JSON value for storage: serialize it to its canonical text,
/// then rewrite every occurrence of the bytes `null` to `NULL`.
///
/// When the canonical text is free of `null` the substitution changes
/// nothing, and reparsing the stored text can only reproduce the original
/// value: decoding what was encoded returns the value itself whenever
/// parsing succeeds.
pub fn to_sql(v: &serde_json::Value) -> (r: ColumnValue)
    ensures
        (r matches ColumnValue::Text(t) && t@ == spec_replace_null(json_text_of(*v))),
        !contains_null(json_text_of(*v)) ==> (r matches ColumnValue::Text(t) && t@ == json_text_of(
            *v,
        ) && (json_parse(t@) matches Some(w) ==> w == *v)),
{
    let bytes = json_to_vec(v);
    let replaced = replace_null(&bytes);
    proof {
        if !contains_null(json_text_of(*v)) {
            lemma_replace_null_absent(json_text_of(*v));
        }
    }
    ColumnValue::Text(replaced)
}

/// Decode a retrieved column into a JSON value: parse the raw bytes of a
/// text or blob cell as JSON text; reject every other cell kind with
/// `TypeMismatch`, and bytes that are not JSON with `ParseFailure`.
pub fn column_result(value: &ColumnValue) -> (r: Result<serde_json::Value, DecodeError>)
    ensures
        (match *value {
            ColumnValue::Text(_) => (match decode_outcome(*value) {
                Some(v) => r matches Ok(w) && w == v,
                None => r matches Err(DecodeError::ParseFailure(_)),
            }),
            ColumnValue::Blob(_) => (match decode_outcome(*value) {
                Some(v) => r matches Ok(w) && w == v,
                None => r matches Err(DecodeError::ParseFailure(_)),
            }),
            _ => r matches Err(DecodeError::TypeMismatch),
        }),
{
    match value {
        ColumnValue::Text(b) => match json_from_slice(b.as_slice()) {
            Ok(v) => Ok(v),
            Err(e) => Err(DecodeError::ParseFailure(e)),
        },
        ColumnValue::Blob(b) => match json_from_slice(b.as_slice()) {
            Ok(v) => Ok(v),
            Err(e) => Err(DecodeError::ParseFailure(e)),
        },
        _ => Err(DecodeError::TypeMismatch),
    }
}

/// A text cell and a blob cell holding the same bytes decode alike: the
/// outcome depends on the bytes alone, never on which of the two column
/// kinds carried them.
pub proof fn lemma_text_blob_equivalent(bytes: Vec<u8>)
    ensures
        decode_outcome(ColumnValue::Text(bytes)) == decode_outcome(ColumnValue::Blob(bytes)),
{
}

} // verus!
