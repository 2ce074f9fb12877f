use crate::dates::{age_at, age_on, today, Date};
use crate::models::{DefaultNutrient, DietNutrient};
use vstd::prelude::*;

verus! {

/// `rule` applies to a user of gender `gender` and age `age`: the genders are
/// equal, `age_min` is reached and `age_max`, when present, is not.
pub open spec fn rule_applies(rule: DefaultNutrient, gender: Seq<char>, age: int) -> bool {
    &&& rule.gender@ == gender
    &&& rule.age_min <= age
    &&& match rule.age_max {
        None => true,
        Some(m) => age < m,
    }
}

/// The target that `rule` gives to diet `diet_id`.
pub open spec fn target_of(rule: DefaultNutrient, diet_id: i32) -> DietNutrient {
    DietNutrient {
        diet_id,
        nutrient_id: rule.nutrient_id,
        min_intake: rule.min_intake,
        max_intake: rule.max_intake,
        relative: rule.relative,
    }
}

/// The targets of every rule that applies, in the order of the rules.
pub open spec fn default_targets(
    rules: Seq<DefaultNutrient>,
    gender: Seq<char>,
    age: int,
    diet_id: i32,
) -> Seq<DietNutrient>
    decreases rules.len(),
{
    if rules.len() == 0 {
        Seq::empty()
    } else {
        let earlier = default_targets(rules.drop_last(), gender, age, diet_id);
        if rule_applies(rules.last(), gender, age) {
            earlier.push(target_of(rules.last(), diet_id))
        } else {
            earlier
        }
    }
}

/// Whether `rule` applies to a user of gender `gender` and age `age`.
pub fn applies_to(rule: &DefaultNutrient, gender: &String, age: u32) -> (r: bool)
    ensures
        r == rule_applies(*rule, gender@, age as int),
{
    let age = age as i64;
    rule.gender == *gender && rule.age_min as i64 <= age && match rule.age_max {
        None => true,
        Some(m) => age < m as i64,
    }
}

/// The nutrient targets that a new diet `diet_id` gets from the default
/// rules, for a user of gender `gender` and age `age`.
pub fn default_diet_nutrition(
    rules: &Vec<DefaultNutrient>,
    gender: &String,
    age: u32,
    diet_id: i32,
) -> (r: Vec<DietNutrient>)
    ensures
        r@ == default_targets(rules@, gender@, age as int, diet_id),
{
    let mut out: Vec<DietNutrient> = Vec::new();
    let mut i: usize = 0;
    while i < rules.len()
        invariant
            i <= rules@.len(),
            out@ == default_targets(rules@.subrange(0, i as int), gender@, age as int, diet_id),
        decreases rules@.len() - i,
    {
        let rule = &rules[i];
        assert(rules@.subrange(0, i + 1).drop_last() =~= rules@.subrange(0, i as int));
        assert(rules@.subrange(0, i + 1).last() == *rule);
        if applies_to(rule, gender, age) {
            out.push(
                DietNutrient {
                    diet_id,
                    nutrient_id: rule.nutrient_id,
                    min_intake: rule.min_intake,
                    max_intake: rule.max_intake,
                    relative: rule.relative,
                },
            );
        }
        i = i + 1;
    }
    assert(rules@.subrange(0, i as int) =~= rules@);
    out
}

/// The default targets of a new diet for a user born on `birthdate`, on the
/// day `today`.
pub fn diet_nutrition_on(
    rules: &Vec<DefaultNutrient>,
    gender: &String,
    birthdate: &Date,
    today: &Date,
    diet_id: i32,
) -> (r: Vec<DietNutrient>)
    ensures
        r@ == default_targets(rules@, gender@, age_on(*birthdate, *today), diet_id),
{
    let age = age_at(birthdate, today);
    default_diet_nutrition(rules, gender, age, diet_id)
}

/// The default targets of a new diet for a user born on `birthdate`, as of
/// the current date.
pub fn diet_nutrition_for_user(
    rules: &Vec<DefaultNutrient>,
    gender: &String,
    birthdate: &Date,
    diet_id: i32,
) -> (r: Vec<DietNutrient>)
    ensures
        exists|t: Date|
            t.valid() && r@ == default_targets(rules@, gender@, age_on(*birthdate, t), diet_id),
{
    let t = today();
    diet_nutrition_on(rules, gender, birthdate, &t, diet_id)
}

/// A rule's age range includes `age_min` and excludes `age_max`; without
/// `age_max` it has no upper end.
pub proof fn law_age_range_bounds(rule: DefaultNutrient, age: int)
    ensures
        (rule.age_max is None || rule.age_min < rule.age_max->0) ==> rule_applies(
            rule,
            rule.gender@,
            rule.age_min as int,
        ),
        rule.age_max is Some ==> !rule_applies(rule, rule.gender@, rule.age_max->0 as int),
        (rule.age_max is None && age >= rule.age_min) ==> rule_applies(rule, rule.gender@, age),
        age < rule.age_min ==> !rule_applies(rule, rule.gender@, age),
{
}

/// The default targets are exactly the targets of the rules that apply to
/// the gender and age: each applying rule gives one, and each one comes
/// from an applying rule. Nothing else enters, so equal gender and age give
/// equal targets.
pub proof fn law_default_targets_match_rules(
    rules: Seq<DefaultNutrient>,
    gender: Seq<char>,
    age: int,
    diet_id: i32,
)
    ensures
        forall|i: int|
            0 <= i < rules.len() && rule_applies(#[trigger] rules[i], gender, age) ==> exists|j: int|
                0 <= j < default_targets(rules, gender, age, diet_id).len() && default_targets(
                    rules,
                    gender,
                    age,
                    diet_id,
                )[j] == target_of(rules[i], diet_id),
        forall|j: int|
            0 <= j < default_targets(rules, gender, age, diet_id).len() ==> exists|i: int|
                0 <= i < rules.len() && rule_applies(rules[i], gender, age) && #[trigger] default_targets(
                    rules,
                    gender,
                    age,
                    diet_id,
                )[j] == target_of(rules[i], diet_id),
    decreases rules.len(),
{
    if rules.len() > 0 {
        let e = rules.drop_last();
        law_default_targets_match_rules(e, gender, age, diet_id);
        let t = default_targets(rules, gender, age, diet_id);
        let te = default_targets(e, gender, age, diet_id);
        assert forall|i: int|
            0 <= i < rules.len() && rule_applies(#[trigger] rules[i], gender, age) implies exists|j: int|
                0 <= j < t.len() && t[j] == target_of(rules[i], diet_id) by {
            if i < rules.len() - 1 {
                assert(rules[i] == e[i]);
                let j = choose|j: int| 0 <= j < te.len() && te[j] == target_of(e[i], diet_id);
                assert(t[j] == te[j]);
            } else {
                assert(t[t.len() - 1] == target_of(rules[i], diet_id));
            }
        }
        assert forall|j: int| 0 <= j < t.len() implies exists|i: int|
            0 <= i < rules.len() && rule_applies(rules[i], gender, age) && #[trigger] t[j]
                == target_of(rules[i], diet_id) by {
            if j < te.len() {
                assert(t[j] == te[j]);
                let i = choose|i: int|
                    0 <= i < e.len() && rule_applies(e[i], gender, age) && te[j] == target_of(
                        e[i],
                        diet_id,
                    );
                assert(rules[i] == e[i]);
            } else {
                assert(rules[rules.len() - 1] == rules.last());
            }
        }
    }
}

} // verus!
