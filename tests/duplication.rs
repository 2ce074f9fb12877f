use diet_backend::duplication::{copy_diet, DietContents, MealContents};
use diet_backend::models::{DietNutrient, Meal, MealServing};

fn source() -> DietContents {
    let target = |n: i32| DietNutrient { diet_id: 1, nutrient_id: n, min_intake: Some(10), max_intake: Some(20), relative: n == 2 };
    let meal = |id: i32, servings: usize| MealContents {
        meal: Meal { id, diet_id: 1, name: format!("meal {}", id) },
        servings: (0..servings).map(|k| MealServing { id: 100 + k as i32, meal_id: id, serving_id: 5 + k as i32, amount: 1_000 }).collect(),
    };
    DietContents { nutrition: vec![target(1), target(2), target(3)], meals: vec![meal(11, 2), meal(12, 0), meal(13, 3)] }
}

#[test]
fn full_copy_keeps_counts() {
    let src = source();
    let c = copy_diet(&src, 9, &vec![Some(21), Some(22), Some(23)]);
    assert_eq!(c.nutrition.len(), 3);
    assert!(c.nutrition.iter().all(|t| t.diet_id == 9));
    assert_eq!(c.nutrition[1].relative, true);
    assert_eq!(c.meals.len(), 3);
    assert_eq!(c.meals.iter().map(|m| m.servings.len()).collect::<Vec<_>>(), vec![2, 0, 3]);
    assert_eq!(c.meals[2].meal_id, 23);
    assert_eq!(c.meals[2].name, "meal 13");
    assert!(c.meals[2].servings.iter().all(|s| s.meal_id == 23));
    assert_eq!(c.meals[0].servings[1].serving_id, 6);
}

#[test]
fn failed_meal_is_skipped() {
    let src = source();
    let c = copy_diet(&src, 9, &vec![Some(21), None, Some(23)]);
    assert_eq!(c.nutrition.len(), 3);
    assert_eq!(c.meals.len(), 2);
    assert_eq!(c.meals[1].meal_id, 23);
    assert_eq!(c.meals[1].servings.len(), 3);
}
