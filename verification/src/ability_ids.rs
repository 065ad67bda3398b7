//! The ids of ability definitions, which the abilities file keys by their decimal text.
use crate::numbers::{parse_u32, spec_parse_u32};
use vstd::prelude::*;

verus! {

/// The largest id that the keys denote, or 0 when none denotes one.
pub open spec fn largest_id(keys: Seq<String>) -> int
    decreases keys.len(),
{
    if keys.len() == 0 {
        0
    } else {
        let m = largest_id(keys.drop_last());
        match spec_parse_u32(keys.last()@) {
            Some(v) => if v > m {
                v as int
            } else {
                m
            },
            None => m,
        }
    }
}

/// The id for a new ability: one past the largest id among the keys of the abilities
/// file (keys that are not ids are skipped, and with none the new id is 1). None when
/// the largest id is already the largest `u32`.
pub fn next_ability_id(keys: &Vec<String>) -> (r: Option<u32>)
    ensures
        r == (if largest_id(keys@) < u32::MAX {
            Some((largest_id(keys@) + 1) as u32)
        } else {
            None::<u32>
        }),
{
    let mut m: u32 = 0;
    let mut i: usize = 0;
    while i < keys.len()
        invariant
            i <= keys.len(),
            m == largest_id(keys@.take(i as int)),
        decreases keys.len() - i,
    {
        assert(keys@.take(i as int + 1).drop_last() =~= keys@.take(i as int));
        assert(keys@.take(i as int + 1).last() == keys@[i as int]);
        if let Some(v) = parse_u32(keys[i].as_str()) {
            if v > m {
                m = v;
            }
        }
        i = i + 1;
    }
    assert(keys@.take(keys.len() as int) =~= keys@);
    if m < u32::MAX {
        Some(m + 1)
    } else {
        None
    }
}

} // verus!
