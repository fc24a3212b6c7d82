//! Pairs of a text and a number, as pairs of a string and a number.
use vstd::prelude::*;

use crate::text::{CText, NulError};

verus! {

/// The pairs as plain values.
pub fn serialize(pairs: &Vec<(CText, i64)>) -> (written: Vec<(String, i64)>)
    ensures
        is_written(pairs@, written@),
        forall|i: int| 0 <= i < written@.len() ==> is_clean(#[trigger] written@[i]),
{
    let mut written: Vec<(String, i64)> = Vec::new();
    let mut i: usize = 0;
    while i < pairs.len()
        invariant
            i <= pairs@.len(),
            is_written(pairs@.take(i as int), written@),
            forall|k: int| 0 <= k < written@.len() ==> is_clean(#[trigger] written@[k]),
        decreases pairs@.len() - i,
    {
        written.push((pairs[i].0.to_string(), pairs[i].1));
        i = i + 1;
        assert forall|k: int| 0 <= k < i implies #[trigger] same(
            pairs@.take(i as int)[k],
            written@[k],
        ) by {
            if k < i - 1 {
                assert(same(pairs@.take(i - 1)[k], written@[k]));
            }
        }
    }
    assert(pairs@.take(pairs@.len() as int) =~= pairs@);
    written
}

/// A pair and the plain values that it is written as.
pub open spec fn same(pair: (CText, i64), written: (String, i64)) -> bool {
    pair.0@ == written.0@ && pair.1 == written.1
}

/// The pairs and the plain values that they are written as.
pub open spec fn is_written(pairs: Seq<(CText, i64)>, written: Seq<(String, i64)>) -> bool {
    &&& pairs.len() == written.len()
    &&& forall|i: int| 0 <= i < pairs.len() ==> #[trigger] same(pairs[i], written[i])
}

/// Nothing of the pair holds a NUL byte.
pub open spec fn is_clean(written: (String, i64)) -> bool {
    !crate::text::has_nul(written.0@)
}

/// Where the NUL byte stands that a pair is refused for: in the key.
pub open spec fn refused_at(written: (String, i64)) -> int {
    crate::text::first_nul(written.0@)
}

/// The pairs of plain values. The first one that holds a NUL byte is refused.
pub fn deserialize(written: Vec<(String, i64)>) -> (pairs: Result<Vec<(CText, i64)>, NulError>)
    ensures
        match pairs {
            Ok(pairs) => is_written(pairs@, written@) && forall|i: int|
                0 <= i < written@.len() ==> is_clean(#[trigger] written@[i]),
            Err(error) => exists|i: int|
                0 <= i < written@.len() && !is_clean(#[trigger] written@[i]) && error.position
                    == refused_at(written@[i]) && forall|k: int|
                    0 <= k < i ==> is_clean(#[trigger] written@[k]),
        },
{
    let mut pairs: Vec<(CText, i64)> = Vec::new();
    let mut i: usize = 0;
    while i < written.len()
        invariant
            i <= written@.len(),
            is_written(pairs@, written@.take(i as int)),
            forall|k: int| 0 <= k < i ==> is_clean(#[trigger] written@[k]),
        decreases written@.len() - i,
    {
        let key = match CText::new(written[i].0.as_str()) {
            Ok(key) => key,
            Err(error) => {
                assert(!is_clean(written@[i as int]));
                return Err(error);
            },
        };
        let value: i64 = written[i].1;
        pairs.push((key, value));
        i = i + 1;
        assert forall|k: int| 0 <= k < i implies #[trigger] same(
            pairs@[k],
            written@.take(i as int)[k],
        ) by {
            if k < i - 1 {
                assert(same(pairs@[k], written@.take(i - 1)[k]));
            }
        }
    }
    assert(written@.take(written@.len() as int) =~= written@);
    Ok(pairs)
}

/// Pairs that are written down can be read back, and are then the same pairs.
pub proof fn pairs_round_trip(
    pairs: Seq<(CText, i64)>,
    written: Seq<(String, i64)>,
    read: Seq<(CText, i64)>,
)
    requires
        is_written(pairs, written),
        is_written(read, written),
    ensures
        read.len() == pairs.len(),
        forall|i: int|
            #![trigger read[i]]
            0 <= i < read.len() ==> read[i].0@ == pairs[i].0@ && read[i].1 == pairs[i].1,
{
    assert forall|i: int| #![trigger read[i]] 0 <= i < read.len() implies read[i].0@ == pairs[i].0@
        && read[i].1 == pairs[i].1 by {
        assert(same(pairs[i], written[i]));
        assert(same(read[i], written[i]));
    }
}

} // verus!
