use crate::models::{Food, Serving};
use crate::nutrition::{
    lines_of, own_lines, resolve_nutrients, resolved, Catalog, Line, MealInfoNutrient,
};
use crate::lookup::find_nutrient;
use vstd::prelude::*;

verus! {

/// A serving placed in a meal, joined with its food and serving records.
#[derive(Clone, Debug)]
pub struct MealServingEntry {
    pub food_id: i32,
    pub food_name: String,
    pub meal_serving_id: i32,
    pub serving: Serving,
    pub amount: u64,
}

/// A food of a meal with the nutrients that its consumed amount contributes.
#[derive(Clone, Debug)]
pub struct MealInfoFood {
    pub id: i32,
    pub name: String,
    pub meal_serving_id: i32,
    pub serving_id: i32,
    pub serving_base: u64,
    pub serving_amount: u64,
    pub serving_unit: String,
    pub nutrients: Vec<MealInfoNutrient>,
}

/// A meal with its foods.
#[derive(Clone, Debug)]
pub struct MealInfo {
    pub id: i32,
    pub name: String,
    pub foods: Vec<MealInfoFood>,
}

/// A serving as food search shows it.
#[derive(Clone, Debug)]
pub struct SearchFoodServing {
    pub id: i32,
    pub amount: u64,
    pub unit: String,
    pub nutrients: Vec<MealInfoNutrient>,
    pub relative: Option<i32>,
}

/// A food as food search shows it, with all its servings.
#[derive(Clone, Debug)]
pub struct SearchFood {
    pub id: i32,
    pub name: String,
    pub servings: Vec<SearchFoodServing>,
}

/// The entries whose nutrients resolve, in order: for each, its position
/// among the entries and its nutrient lines. Entries that fail to resolve
/// are left out.
pub open spec fn resolved_entries(cat: Catalog, entries: Seq<MealServingEntry>) -> Seq<(int, Seq<Line>)>
    decreases entries.len(),
{
    if entries.len() == 0 {
        Seq::empty()
    } else {
        let earlier = resolved_entries(cat, entries.drop_last());
        let e = entries.last();
        match resolved(cat, e.serving, e.amount as int) {
            Ok(lines) => earlier.push((entries.len() - 1, lines)),
            Err(_) => earlier,
        }
    }
}

/// `f` shows entry `e` with nutrient lines `lines`.
pub open spec fn shows_entry(f: MealInfoFood, e: MealServingEntry, lines: Seq<Line>) -> bool {
    &&& f.id == e.food_id
    &&& f.name@ == e.food_name@
    &&& f.meal_serving_id == e.meal_serving_id
    &&& f.serving_id == e.serving.id
    &&& f.serving_base == e.serving.amount
    &&& f.serving_amount == e.amount
    &&& f.serving_unit@ == e.serving.unit@
    &&& lines_of(f.nutrients@) == lines
}

/// The foods of a meal: each entry with the nutrients of its consumed
/// amount; an entry whose serving cannot be resolved is dropped and the
/// others are kept.
pub fn meal_info_foods(cat: &Catalog, entries: &Vec<MealServingEntry>) -> (r: Vec<MealInfoFood>)
    ensures
        r@.len() == resolved_entries(*cat, entries@).len(),
        forall|j: int|
            0 <= j < r@.len() ==> {
                let (k, lines) = #[trigger] resolved_entries(*cat, entries@)[j];
                0 <= k < entries@.len() && shows_entry(r@[j], entries@[k], lines)
            },
{
    let mut out: Vec<MealInfoFood> = Vec::new();
    let mut i: usize = 0;
    while i < entries.len()
        invariant
            i <= entries@.len(),
            out@.len() == resolved_entries(*cat, entries@.subrange(0, i as int)).len(),
            forall|j: int|
                0 <= j < out@.len() ==> {
                    let (k, lines) = #[trigger] resolved_entries(
                        *cat,
                        entries@.subrange(0, i as int),
                    )[j];
                    0 <= k < i && shows_entry(out@[j], entries@[k], lines)
                },
        decreases entries@.len() - i,
    {
        let e = &entries[i];
        let ghost pre = entries@.subrange(0, i as int);
        let ghost cur = entries@.subrange(0, i + 1);
        assert(cur.drop_last() =~= pre);
        assert(cur.last() == *e);
        match resolve_nutrients(cat, &e.serving, e.amount) {
            Ok(nutrients) => {
                let food = MealInfoFood {
                    id: e.food_id,
                    name: e.food_name.clone(),
                    meal_serving_id: e.meal_serving_id,
                    serving_id: e.serving.id,
                    serving_base: e.serving.amount,
                    serving_amount: e.amount,
                    serving_unit: e.serving.unit.clone(),
                    nutrients,
                };
                out.push(food);
            },
            Err(_) => {},
        }
        i = i + 1;
    }
    assert(entries@.subrange(0, i as int) =~= entries@);
    out
}

/// The stored nutrient rows of serving `sid`, unscaled.
pub fn serving_own_nutrients(cat: &Catalog, sid: i32) -> (r: Vec<MealInfoNutrient>)
    ensures
        lines_of(r@) == own_lines(cat.nutrients@, cat.serving_nutrients@, sid),
{
    let ghost ns = cat.nutrients@;
    let ghost rows = cat.serving_nutrients@;
    let mut out: Vec<MealInfoNutrient> = Vec::new();
    let mut i: usize = 0;
    while i < cat.serving_nutrients.len()
        invariant
            i <= rows.len(),
            ns == cat.nutrients@,
            rows == cat.serving_nutrients@,
            lines_of(out@) == own_lines(ns, rows.subrange(0, i as int), sid),
        decreases rows.len() - i,
    {
        let row = cat.serving_nutrients[i];
        assert(rows.subrange(0, i + 1).drop_last() =~= rows.subrange(0, i as int));
        assert(rows.subrange(0, i + 1).last() == row);
        if row.serving_id == sid {
            match find_nutrient(&cat.nutrients, row.nutrient_id) {
                Some(k) => {
                    let line = MealInfoNutrient {
                        name: cat.nutrients[k].name.clone(),
                        amount: row.amount,
                        unit: cat.nutrients[k].unit.clone(),
                    };
                    let ghost before = out@;
                    out.push(line);
                    proof {
                        assert(lines_of(out@) =~= lines_of(before).push(line@));
                    }
                },
                None => {},
            }
        }
        i = i + 1;
    }
    assert(rows.subrange(0, i as int) =~= rows);
    out
}

/// The servings of food `food_id`, in table order.
pub open spec fn food_servings(servings: Seq<Serving>, food_id: i32) -> Seq<Serving>
    decreases servings.len(),
{
    if servings.len() == 0 {
        Seq::empty()
    } else {
        let earlier = food_servings(servings.drop_last(), food_id);
        if servings.last().food_id == food_id {
            earlier.push(servings.last())
        } else {
            earlier
        }
    }
}

/// `v` shows serving `s`: its stored nutrient rows when it is not relative,
/// no nutrients when it is.
pub open spec fn shows_serving(cat: Catalog, v: SearchFoodServing, s: Serving) -> bool {
    &&& v.id == s.id
    &&& v.amount == s.amount
    &&& v.unit@ == s.unit@
    &&& v.relative == s.relative
    &&& lines_of(v.nutrients@) == if s.relative is None {
        own_lines(cat.nutrients@, cat.serving_nutrients@, s.id)
    } else {
        Seq::empty()
    }
}

/// A food with all its servings, as food search shows it.
pub fn search_food_entry(cat: &Catalog, food: &Food) -> (r: SearchFood)
    ensures
        r.id == food.id,
        r.name@ == food.name@,
        r.servings@.len() == food_servings(cat.servings@, food.id).len(),
        forall|j: int|
            0 <= j < r.servings@.len() ==> shows_serving(
                *cat,
                #[trigger] r.servings@[j],
                food_servings(cat.servings@, food.id)[j],
            ),
{
    let ghost ss = cat.servings@;
    let mut out: Vec<SearchFoodServing> = Vec::new();
    let mut i: usize = 0;
    while i < cat.servings.len()
        invariant
            i <= ss.len(),
            ss == cat.servings@,
            out@.len() == food_servings(ss.subrange(0, i as int), food.id).len(),
            forall|j: int|
                0 <= j < out@.len() ==> shows_serving(
                    *cat,
                    #[trigger] out@[j],
                    food_servings(ss.subrange(0, i as int), food.id)[j],
                ),
        decreases ss.len() - i,
    {
        let s = &cat.servings[i];
        assert(ss.subrange(0, i + 1).drop_last() =~= ss.subrange(0, i as int));
        assert(ss.subrange(0, i + 1).last() == *s);
        if s.food_id == food.id {
            let nutrients = match s.relative {
                None => serving_own_nutrients(cat, s.id),
                Some(_) => {
                    let v: Vec<MealInfoNutrient> = Vec::new();
                    assert(lines_of(v@) =~= Seq::<Line>::empty());
                    v
                },
            };
            out.push(
                SearchFoodServing {
                    id: s.id,
                    amount: s.amount,
                    unit: s.unit.clone(),
                    nutrients,
                    relative: s.relative,
                },
            );
        }
        i = i + 1;
    }
    assert(ss.subrange(0, i as int) =~= ss);
    SearchFood { id: food.id, name: food.name.clone(), servings: out }
}

} // verus!
