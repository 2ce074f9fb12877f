use crate::models::{Nutrient, Serving};
use vstd::prelude::*;

verus! {

/// The first element of `s` that satisfies `p`, if any.
pub open spec fn first_match<T>(s: Seq<T>, p: spec_fn(T) -> bool) -> Option<T>
    decreases s.len(),
{
    if s.len() == 0 {
        None
    } else {
        let earlier = first_match(s.drop_last(), p);
        if earlier is Some {
            earlier
        } else if p(s.last()) {
            Some(s.last())
        } else {
            None
        }
    }
}

pub open spec fn serving_has_id(id: i32) -> spec_fn(Serving) -> bool {
    |s: Serving| s.id == id
}

pub open spec fn nutrient_has_id(id: i32) -> spec_fn(Nutrient) -> bool {
    |n: Nutrient| n.id == id
}

/// A match found in a prefix is the first match of the whole sequence.
pub proof fn lemma_first_match_prefix<T>(s: Seq<T>, p: spec_fn(T) -> bool, k: int)
    requires
        0 <= k <= s.len(),
        first_match(s.subrange(0, k), p) is Some,
    ensures
        first_match(s, p) == first_match(s.subrange(0, k), p),
    decreases s.len(),
{
    if k == s.len() {
        assert(s.subrange(0, k) =~= s);
    } else {
        assert(s.drop_last().subrange(0, k) =~= s.subrange(0, k));
        lemma_first_match_prefix(s.drop_last(), p, k);
    }
}

/// Position of the first serving with the given id.
pub fn find_serving(servings: &Vec<Serving>, id: i32) -> (r: Option<usize>)
    ensures
        match r {
            Some(k) => k < servings@.len() && first_match(servings@, serving_has_id(id)) == Some(
                servings@[k as int],
            ),
            None => first_match(servings@, serving_has_id(id)) is None,
        },
{
    let mut i: usize = 0;
    while i < servings.len()
        invariant
            i <= servings@.len(),
            first_match(servings@.subrange(0, i as int), serving_has_id(id)) is None,
        decreases servings@.len() - i,
    {
        assert(servings@.subrange(0, i + 1).drop_last() =~= servings@.subrange(0, i as int));
        if servings[i].id == id {
            proof {
                lemma_first_match_prefix(servings@, serving_has_id(id), i + 1);
            }
            return Some(i);
        }
        i = i + 1;
    }
    assert(servings@.subrange(0, i as int) =~= servings@);
    None
}

/// Position of the first nutrient with the given id.
pub fn find_nutrient(nutrients: &Vec<Nutrient>, id: i32) -> (r: Option<usize>)
    ensures
        match r {
            Some(k) => k < nutrients@.len() && first_match(nutrients@, nutrient_has_id(id))
                == Some(nutrients@[k as int]),
            None => first_match(nutrients@, nutrient_has_id(id)) is None,
        },
{
    let mut i: usize = 0;
    while i < nutrients.len()
        invariant
            i <= nutrients@.len(),
            first_match(nutrients@.subrange(0, i as int), nutrient_has_id(id)) is None,
        decreases nutrients@.len() - i,
    {
        assert(nutrients@.subrange(0, i + 1).drop_last() =~= nutrients@.subrange(0, i as int));
        if nutrients[i].id == id {
            proof {
                lemma_first_match_prefix(nutrients@, nutrient_has_id(id), i + 1);
            }
            return Some(i);
        }
        i = i + 1;
    }
    assert(nutrients@.subrange(0, i as int) =~= nutrients@);
    None
}

} // verus!
