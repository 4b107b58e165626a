//! Codec for the protocol's extra-parameter path segments.
//!
//! A segment has the shape `<key>=<v1>,<v2>,...,<vn>.json`. Decoding
//! strips the key and the `.json` suffix and splits the interior on
//! commas, preserving order and duplicates; a segment whose first value
//! is empty is rejected as an empty query rather than treated as a
//! match-everything list.

use vstd::prelude::*;
use vstd::string::StrSliceExecFns;
use vstd::string::StringExecFns;
use crate::strutil::str_starts_with;

verus! {

/// Why a path segment failed to decode.
#[derive(Clone, Copy, Debug, PartialEq, Eq, Structural)]
pub enum DecodeError {
    /// The segment does not have the `<key>=<interior>.json` shape.
    MalformedSegment,
    /// The segment is shaped correctly but its first value is empty.
    EmptyQuery,
}

/// The literal suffix that closes every segment.
pub open spec fn json_suffix() -> Seq<char> {
    seq!['.', 'j', 's', 'o', 'n']
}

/// A segment is well formed when it begins with `key` followed by `=`,
/// ends with `.json`, and the two regions do not overlap.
pub open spec fn wellformed_segment(key: Seq<char>, s: Seq<char>) -> bool {
    &&& s.len() >= key.len() + 6
    &&& s.subrange(0, key.len() as int) == key
    &&& s[key.len() as int] == '='
    &&& s.subrange(s.len() - 5, s.len() as int) == json_suffix()
}

/// The value region of a well-formed segment: what stands between
/// `key=` and `.json`.
pub open spec fn interior_of(key: Seq<char>, s: Seq<char>) -> Seq<char> {
    s.subrange(key.len() as int + 1, s.len() - 5)
}

/// Whether a value carries no separator.
pub open spec fn comma_free(v: Seq<char>) -> bool {
    forall|i: int| 0 <= i < v.len() ==> v[i] != ','
}

/// The values joined back into one interior, separated by commas.
pub open spec fn join_values(vs: Seq<Seq<char>>) -> Seq<char>
    decreases vs.len(),
{
    if vs.len() == 0 {
        Seq::empty()
    } else if vs.len() == 1 {
        vs[0]
    } else {
        vs[0] + seq![','] + join_values(vs.drop_first())
    }
}

/// `vs` is the comma-split of `interior`: at least one value, none of
/// them holds a comma, and joining them with commas restores the
/// interior. Exactly one `vs` satisfies this for a given interior.
pub open spec fn splits_into(interior: Seq<char>, vs: Seq<Seq<char>>) -> bool {
    &&& vs.len() >= 1
    &&& forall|i: int| 0 <= i < vs.len() ==> comma_free(#[trigger] vs[i])
    &&& join_values(vs) == interior
}

/// The comma-split of an interior, as a value.
pub open spec fn split_values(interior: Seq<char>) -> Seq<Seq<char>> {
    choose|vs: Seq<Seq<char>>| splits_into(interior, vs)
}

/// Whether the first comma-split value of an interior is empty: the
/// case a decoder must reject as an empty query.
pub open spec fn first_value_empty(interior: Seq<char>) -> bool {
    interior.len() == 0 || interior[0] == ','
}

/// The full segment that a key and a value list encode to.
pub open spec fn encoded_segment(key: Seq<char>, vs: Seq<Seq<char>>) -> Seq<char> {
    key + seq!['='] + join_values(vs) + json_suffix()
}

proof fn lemma_join_push(vs: Seq<Seq<char>>, x: Seq<char>)
    requires
        vs.len() >= 1,
    ensures
        join_values(vs.push(x)) == join_values(vs) + seq![','] + x,
    decreases vs.len(),
{
    if vs.len() == 1 {
        assert(vs.push(x).drop_first() =~= seq![x]);
        assert(join_values(seq![x]) == x);
        assert(vs.push(x)[0] == vs[0]);
        assert(join_values(vs.push(x)) == vs.push(x)[0] + seq![','] + join_values(
            vs.push(x).drop_first(),
        ));
        assert(join_values(vs.push(x)) == vs[0] + seq![','] + x);
    } else {
        lemma_join_push(vs.drop_first(), x);
        assert(vs.push(x).drop_first() =~= vs.drop_first().push(x));
        assert(join_values(vs.push(x)) =~= join_values(vs) + seq![','] + x);
    }
}

/// An interior splits into exactly one value list: joining with a
/// separator that no value contains is injective.
pub proof fn lemma_split_unique(interior: Seq<char>, vs1: Seq<Seq<char>>, vs2: Seq<Seq<char>>)
    requires
        splits_into(interior, vs1),
        splits_into(interior, vs2),
    ensures
        vs1 == vs2,
    decreases vs1.len(),
{
    lemma_first_piece(interior, vs1);
    lemma_first_piece(interior, vs2);
    if vs1.len() == 1 && vs2.len() == 1 {
        assert(vs1 =~= vs2);
    } else if vs1.len() == 1 {
        // join(vs2) has a comma at vs2[0].len(), join(vs1) has none
        assert(interior[vs2[0].len() as int] == ',');
        assert(comma_free(vs1[0]));
        assert(false);
    } else if vs2.len() == 1 {
        assert(interior[vs1[0].len() as int] == ',');
        assert(comma_free(vs2[0]));
        assert(false);
    } else {
        // both have a first comma at the end of their first value
        assert(interior[vs1[0].len() as int] == ',');
        assert(interior[vs2[0].len() as int] == ',');
        assert(comma_free(vs1[0]));
        assert(comma_free(vs2[0]));
        // the first values span up to the first comma, so they agree
        assert(vs1[0].len() == vs2[0].len()) by {
            if vs1[0].len() < vs2[0].len() {
                assert(vs2[0][vs1[0].len() as int] == interior[vs1[0].len() as int]);
                assert(false);
            } else if vs2[0].len() < vs1[0].len() {
                assert(vs1[0][vs2[0].len() as int] == interior[vs2[0].len() as int]);
                assert(false);
            }
        }
        assert forall|i: int| 0 <= i < vs1[0].len() implies vs1[0][i] == vs2[0][i] by {
            assert(vs1[0][i] == interior[i]);
            assert(vs2[0][i] == interior[i]);
        }
        assert(vs1[0] =~= vs2[0]);
        let rest = interior.subrange(vs1[0].len() as int + 1, interior.len() as int);
        assert(join_values(vs1.drop_first()) =~= rest);
        assert(join_values(vs2.drop_first()) =~= rest);
        lemma_split_unique(rest, vs1.drop_first(), vs2.drop_first());
        assert(vs1.len() == vs2.len());
        assert forall|i: int| 0 <= i < vs1.len() implies vs1[i] == vs2[i] by {
            if i > 0 {
                assert(vs1[i] == vs1.drop_first()[i - 1]);
                assert(vs2[i] == vs2.drop_first()[i - 1]);
            }
        }
        assert(vs1 =~= vs2);
    }
}

/// In a split, the first value stands at the head of the interior, and
/// when there are further values a comma follows it.
proof fn lemma_first_piece(interior: Seq<char>, vs: Seq<Seq<char>>)
    requires
        splits_into(interior, vs),
    ensures
        vs[0].len() <= interior.len(),
        forall|i: int| 0 <= i < vs[0].len() ==> vs[0][i] == interior[i],
        vs.len() > 1 ==> vs[0].len() < interior.len() && interior[vs[0].len() as int] == ',',
{
    if vs.len() == 1 {
    } else {
        assert(interior =~= vs[0] + seq![','] + join_values(vs.drop_first()));
    }
}

/// A split's first value is empty exactly when the interior is empty or
/// opens with a comma.
pub proof fn lemma_first_value_empty(interior: Seq<char>, vs: Seq<Seq<char>>)
    requires
        splits_into(interior, vs),
    ensures
        (vs[0].len() == 0) == first_value_empty(interior),
{
    lemma_first_piece(interior, vs);
    if vs[0].len() > 0 {
        assert(interior[0] == vs[0][0]);
        assert(comma_free(vs[0]));
    } else {
        if vs.len() == 1 {
            assert(interior =~= vs[0]);
        }
    }
}

/// Re-encoding a well-formed segment's split values restores the
/// segment: the codec's round-trip law.
pub proof fn lemma_round_trip(key: Seq<char>, segment: Seq<char>, vs: Seq<Seq<char>>)
    requires
        wellformed_segment(key, segment),
        splits_into(interior_of(key, segment), vs),
    ensures
        encoded_segment(key, vs) == segment,
{
    assert(encoded_segment(key, vs) =~= segment);
}

/// Split an interior on commas, preserving order, duplicates and empty
/// values after the first.
fn split_interior(interior: &str) -> (r: Vec<String>)
    ensures
        splits_into(interior@, r.deep_view()),
        r.deep_view() == split_values(interior@),
{
    let n = interior.unicode_len();
    let mut out: Vec<String> = Vec::new();
    let mut start: usize = 0;
    let mut i: usize = 0;
    while i < n
        invariant
            start <= i <= n == interior@.len(),
            out@.len() == 0 ==> start == 0,
            out@.len() >= 1 ==> join_values(out.deep_view()) + seq![','] == interior@.subrange(
                0,
                start as int,
            ),
            forall|j: int| 0 <= j < out@.len() ==> comma_free(#[trigger] out.deep_view()[j]),
            forall|j: int| start <= j < i ==> interior@[j] != ',',
        decreases n - i,
    {
        if interior.get_char(i) == ',' {
            let piece = interior.substring_char(start, i).to_owned();
            assert(comma_free(piece@));
            let ghost pre = out.deep_view();
            proof {
                if out@.len() >= 1 {
                    lemma_join_push(pre, piece@);
                }
            }
            out.push(piece);
            assert(out.deep_view() =~= pre.push(piece@));
            assert(join_values(out.deep_view()) + seq![','] =~= interior@.subrange(
                0,
                i + 1,
            ));
            start = i + 1;
        }
        i += 1;
    }
    let last = interior.substring_char(start, n).to_owned();
    assert(comma_free(last@));
    let ghost pre = out.deep_view();
    proof {
        if out@.len() >= 1 {
            lemma_join_push(pre, last@);
        }
    }
    out.push(last);
    assert(out.deep_view() =~= pre.push(last@));
    assert(join_values(out.deep_view()) =~= interior@);
    proof {
        lemma_split_unique(interior@, out.deep_view(), split_values(interior@));
    }
    out
}

/// Decode a path segment of the shape `<key>=<v1>,...,<vn>.json` into
/// its ordered list of raw values.
///
/// The result is the comma-split of the segment's interior; a segment
/// of another shape is refused as malformed, and one whose first value
/// is empty as an empty query.
pub fn decode(key: &str, segment: &str) -> (r: Result<Vec<String>, DecodeError>)
    ensures
        (r is Ok) <==> (wellformed_segment(key@, segment@) && !first_value_empty(
            interior_of(key@, segment@),
        )),
        (r == Result::<Vec<String>, DecodeError>::Err(DecodeError::MalformedSegment))
            <==> !wellformed_segment(key@, segment@),
        (r == Result::<Vec<String>, DecodeError>::Err(DecodeError::EmptyQuery))
            <==> (wellformed_segment(key@, segment@) && first_value_empty(
            interior_of(key@, segment@),
        )),
        r matches Ok(vs) ==> vs.deep_view() == split_values(interior_of(key@, segment@))
            && splits_into(interior_of(key@, segment@), vs.deep_view())
            && vs.deep_view()[0].len() > 0,
{
    let n = segment.unicode_len();
    let k = key.unicode_len();
    if n < 6 || n - 6 < k {
        assert(!wellformed_segment(key@, segment@));
        return Err(DecodeError::MalformedSegment);
    }
    if !str_starts_with(segment, key) {
        assert(!wellformed_segment(key@, segment@));
        return Err(DecodeError::MalformedSegment);
    }
    if segment.get_char(k) != '=' {
        return Err(DecodeError::MalformedSegment);
    }
    if segment.get_char(n - 5) != '.' || segment.get_char(n - 4) != 'j' || segment.get_char(
        n - 3,
    ) != 's' || segment.get_char(n - 2) != 'o' || segment.get_char(n - 1) != 'n' {
        assert(segment@.subrange(segment@.len() - 5, segment@.len() as int) != json_suffix());
        return Err(DecodeError::MalformedSegment);
    }
    assert(segment@.subrange(segment@.len() - 5, segment@.len() as int) =~= json_suffix());
    assert(wellformed_segment(key@, segment@));
    let interior = segment.substring_char(k + 1, n - 5);
    assert(interior@ == interior_of(key@, segment@));
    let interior_len = interior.unicode_len();
    if interior_len == 0 || interior.get_char(0) == ',' {
        return Err(DecodeError::EmptyQuery);
    }
    let values = split_interior(interior);
    proof {
        lemma_first_value_empty(interior@, values.deep_view());
    }
    Ok(values)
}

/// Encode a key and an ordered list of values back into a path segment:
/// the values joined with commas, wrapped in `<key>=` and `.json`.
pub fn encode(key: &str, values: &Vec<String>) -> (r: String)
    ensures
        r@ == encoded_segment(key@, values.deep_view()),
{
    proof {
        reveal_strlit("=");
        reveal_strlit(".json");
        assert("="@ =~= seq!['=']);
        assert(".json"@ =~= json_suffix());
    }
    let mut out = key.to_owned();
    out.append("=");
    let mut i: usize = 0;
    while i < values.len()
        invariant
            i <= values@.len(),
            i == 0 ==> out@ == key@ + seq!['='],
            i >= 1 ==> out@ == key@ + seq!['='] + join_values(values.deep_view().subrange(0, i as int)),
        decreases values@.len() - i,
    {
        if i > 0 {
            out.append(",");
            proof {
                reveal_strlit(",");
                assert(","@ =~= seq![',']);
            }
        }
        out.append(values[i].as_str());
        proof {
            let dv = values.deep_view();
            if i > 0 {
                lemma_join_push(dv.subrange(0, i as int), dv[i as int]);
                assert(dv.subrange(0, i as int).push(dv[i as int]) =~= dv.subrange(0, i + 1));
            } else {
                assert(dv.subrange(0, 1) =~= seq![dv[0]]);
                assert(join_values(seq![dv[0]]) == dv[0]);
            }
        }
        i += 1;
    }
    proof {
        let dv = values.deep_view();
        if values@.len() == 0 {
            assert(join_values(dv) == Seq::<char>::empty());
        } else {
            assert(dv.subrange(0, dv.len() as int) =~= dv);
        }
    }
    out.append(".json");
    assert(out@ =~= encoded_segment(key@, values.deep_view()));
    out
}

} // verus!

