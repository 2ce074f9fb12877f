use crate::models::{DietNutrient, Meal, MealServing};
use vstd::prelude::*;

verus! {

/// A meal with the servings placed in it.
#[derive(Clone, Debug)]
pub struct MealContents {
    pub meal: Meal,
    pub servings: Vec<MealServing>,
}

/// What a diet holds: its nutrient targets and its meals.
#[derive(Clone, Debug)]
pub struct DietContents {
    pub nutrition: Vec<DietNutrient>,
    pub meals: Vec<MealContents>,
}

/// A serving row to insert into a meal.
#[derive(Clone, Copy, Debug, PartialEq, Eq, Structural)]
pub struct NewMealServing {
    pub meal_id: i32,
    pub serving_id: i32,
    pub amount: u64,
}

/// A copied meal: the id it was created under, its name, and the serving
/// rows to insert into it.
#[derive(Clone, Debug)]
pub struct MealCopy {
    pub meal_id: i32,
    pub name: String,
    pub servings: Vec<NewMealServing>,
}

/// The rows that a diet copy inserts: the targets and the meals.
#[derive(Clone, Debug)]
pub struct DietCopy {
    pub nutrition: Vec<DietNutrient>,
    pub meals: Vec<MealCopy>,
}

/// The id under which source meal `i` was created, if its creation succeeded.
pub open spec fn created_id(ids: Seq<Option<i32>>, i: int) -> Option<i32> {
    if 0 <= i < ids.len() {
        ids[i]
    } else {
        None
    }
}

/// The positions, in order, of the first `n` source meals that were created.
pub open spec fn kept_meals(ids: Seq<Option<i32>>, n: int) -> Seq<int>
    decreases n,
{
    if n <= 0 {
        Seq::empty()
    } else {
        let earlier = kept_meals(ids, n - 1);
        if created_id(ids, n - 1) is Some {
            earlier.push(n - 1)
        } else {
            earlier
        }
    }
}

/// `c` copies meal `m` into the meal created as `meal_id`.
pub open spec fn copies_meal(c: MealCopy, m: MealContents, meal_id: i32) -> bool {
    &&& c.meal_id == meal_id
    &&& c.name@ == m.meal.name@
    &&& c.servings@.len() == m.servings@.len()
    &&& forall|k: int|
        0 <= k < c.servings@.len() ==> #[trigger] c.servings@[k] == (NewMealServing {
            meal_id,
            serving_id: m.servings@[k].serving_id,
            amount: m.servings@[k].amount,
        })
}

/// `r` copies diet `src` into diet `new_diet_id`, where `ids` tells for each
/// source meal the id of its copy, or that creating the copy failed: every
/// target is copied, and each created meal with all its servings.
pub open spec fn is_copy(src: DietContents, new_diet_id: i32, ids: Seq<Option<i32>>, r: DietCopy) -> bool {
    let kept = kept_meals(ids, src.meals@.len() as int);
    &&& r.nutrition@.len() == src.nutrition@.len()
    &&& forall|j: int|
        0 <= j < r.nutrition@.len() ==> #[trigger] r.nutrition@[j] == (DietNutrient {
            diet_id: new_diet_id,
            ..src.nutrition@[j]
        })
    &&& r.meals@.len() == kept.len()
    &&& forall|j: int|
        0 <= j < r.meals@.len() ==> copies_meal(
            #[trigger] r.meals@[j],
            src.meals@[kept[j]],
            created_id(ids, kept[j])->0,
        )
}

proof fn lemma_kept_meals_in_range(ids: Seq<Option<i32>>, n: int)
    requires
        n >= 0,
    ensures
        kept_meals(ids, n).len() <= n,
        forall|j: int|
            0 <= j < kept_meals(ids, n).len() ==> 0 <= #[trigger] kept_meals(ids, n)[j] < n
                && created_id(ids, kept_meals(ids, n)[j]) is Some,
    decreases n,
{
    if n > 0 {
        lemma_kept_meals_in_range(ids, n - 1);
    }
}

/// The targets of `src` moved to diet `new_diet_id`.
pub fn copy_nutrition(src: &Vec<DietNutrient>, new_diet_id: i32) -> (r: Vec<DietNutrient>)
    ensures
        r@.len() == src@.len(),
        forall|j: int|
            0 <= j < r@.len() ==> #[trigger] r@[j] == (DietNutrient {
                diet_id: new_diet_id,
                ..src@[j]
            }),
{
    let mut out: Vec<DietNutrient> = Vec::new();
    let mut i: usize = 0;
    while i < src.len()
        invariant
            i <= src@.len(),
            out@.len() == i,
            forall|j: int|
                0 <= j < i ==> #[trigger] out@[j] == (DietNutrient {
                    diet_id: new_diet_id,
                    ..src@[j]
                }),
        decreases src@.len() - i,
    {
        let t = src[i];
        out.push(DietNutrient { diet_id: new_diet_id, ..t });
        i = i + 1;
    }
    out
}

/// The serving rows of `m` moved to meal `meal_id`.
fn copy_meal(m: &MealContents, meal_id: i32) -> (r: MealCopy)
    ensures
        copies_meal(r, *m, meal_id),
{
    let mut out: Vec<NewMealServing> = Vec::new();
    let mut k: usize = 0;
    while k < m.servings.len()
        invariant
            k <= m.servings@.len(),
            out@.len() == k,
            forall|q: int|
                0 <= q < k ==> #[trigger] out@[q] == (NewMealServing {
                    meal_id,
                    serving_id: m.servings@[q].serving_id,
                    amount: m.servings@[q].amount,
                }),
        decreases m.servings@.len() - k,
    {
        let s = m.servings[k];
        out.push(NewMealServing { meal_id, serving_id: s.serving_id, amount: s.amount });
        k = k + 1;
    }
    MealCopy { meal_id, name: m.meal.name.clone(), servings: out }
}

/// The rows that copy diet `src` into the new diet `new_diet_id`. Entry `i`
/// of `new_meal_ids` is the id under which source meal `i` was created, or
/// `None` where creating it failed; such a meal is skipped and the rest are
/// copied.
pub fn copy_diet(src: &DietContents, new_diet_id: i32, new_meal_ids: &Vec<Option<i32>>) -> (r: DietCopy)
    ensures
        is_copy(*src, new_diet_id, new_meal_ids@, r),
{
    let nutrition = copy_nutrition(&src.nutrition, new_diet_id);
    let ghost ids = new_meal_ids@;
    let mut meals: Vec<MealCopy> = Vec::new();
    let mut i: usize = 0;
    while i < src.meals.len()
        invariant
            i <= src.meals@.len(),
            ids == new_meal_ids@,
            meals@.len() == kept_meals(ids, i as int).len(),
            forall|j: int|
                0 <= j < meals@.len() ==> copies_meal(
                    #[trigger] meals@[j],
                    src.meals@[kept_meals(ids, i as int)[j]],
                    created_id(ids, kept_meals(ids, i as int)[j])->0,
                ),
        decreases src.meals@.len() - i,
    {
        let id: Option<i32> = if i < new_meal_ids.len() {
            new_meal_ids[i]
        } else {
            None
        };
        assert(id == created_id(ids, i as int));
        match id {
            Some(meal_id) => {
                let c = copy_meal(&src.meals[i], meal_id);
                meals.push(c);
            },
            None => {},
        }
        i = i + 1;
    }
    DietCopy { nutrition, meals }
}

/// With every meal created, a copy has as many meals as its source, each
/// with as many servings as the meal it copies, and all the targets. Where a
/// meal could not be created, the copy has fewer meals than its source and
/// still all the targets.
pub proof fn law_copy_counts(src: DietContents, new_diet_id: i32, ids: Seq<Option<i32>>, r: DietCopy)
    requires
        is_copy(src, new_diet_id, ids, r),
    ensures
        r.nutrition@.len() == src.nutrition@.len(),
        (forall|i: int| 0 <= i < src.meals@.len() ==> #[trigger] created_id(ids, i) is Some) ==> {
            &&& r.meals@.len() == src.meals@.len()
            &&& forall|i: int|
                0 <= i < src.meals@.len() ==> (#[trigger] r.meals@[i]).servings@.len()
                    == src.meals@[i].servings@.len()
        },
        (exists|i: int| 0 <= i < src.meals@.len() && #[trigger] created_id(ids, i) is None)
            ==> r.meals@.len() < src.meals@.len(),
{
    let n = src.meals@.len() as int;
    lemma_kept_meals_in_range(ids, n);
    if forall|i: int| 0 <= i < n ==> #[trigger] created_id(ids, i) is Some {
        lemma_all_kept(ids, n);
        assert forall|i: int| 0 <= i < n implies (#[trigger] r.meals@[i]).servings@.len()
            == src.meals@[i].servings@.len() by {
            assert(copies_meal(r.meals@[i], src.meals@[kept_meals(ids, n)[i]], created_id(ids, kept_meals(ids, n)[i])->0));
        }
    }
    if exists|i: int| 0 <= i < n && #[trigger] created_id(ids, i) is None {
        let f = choose|i: int| 0 <= i < n && #[trigger] created_id(ids, i) is None;
        lemma_skipped_shortens(ids, n, f);
    }
}

proof fn lemma_all_kept(ids: Seq<Option<i32>>, n: int)
    requires
        n >= 0,
        forall|i: int| 0 <= i < n ==> #[trigger] created_id(ids, i) is Some,
    ensures
        kept_meals(ids, n).len() == n,
        forall|j: int| 0 <= j < n ==> #[trigger] kept_meals(ids, n)[j] == j,
    decreases n,
{
    if n > 0 {
        lemma_all_kept(ids, n - 1);
        assert(created_id(ids, n - 1) is Some);
        assert forall|j: int| 0 <= j < n implies #[trigger] kept_meals(ids, n)[j] == j by {
            if j < n - 1 {
                assert(kept_meals(ids, n)[j] == kept_meals(ids, n - 1)[j]);
            }
        }
    }
}

proof fn lemma_skipped_shortens(ids: Seq<Option<i32>>, n: int, f: int)
    requires
        0 <= f < n,
        created_id(ids, f) is None,
    ensures
        kept_meals(ids, n).len() < n,
    decreases n,
{
    lemma_kept_meals_in_range(ids, n - 1);
    if f < n - 1 {
        lemma_skipped_shortens(ids, n - 1, f);
    }
}

} // verus!
