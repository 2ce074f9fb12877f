use diet_backend::listing::{meal_info_foods, search_food_entry, MealServingEntry};
use diet_backend::models::{Food, Nutrient, Serving, ServingNutrient};
use diet_backend::nutrition::{resolve_nutrients, resolve_serving_id, Catalog, MealInfoNutrient, ResolveError};

fn serving(id: i32, amount: u64, relative: Option<i32>) -> Serving {
    Serving { id, food_id: 1, unit: if relative.is_some() { "slice".to_string() } else { "g".to_string() }, amount, relative }
}

fn catalog() -> Catalog {
    Catalog {
        nutrients: vec![
            Nutrient { id: 1, name: "Protein".to_string(), unit: "g".to_string() },
            Nutrient { id: 2, name: "Sodium".to_string(), unit: "mg".to_string() },
        ],
        servings: vec![serving(10, 100_000, None), serving(11, 50_000, Some(10)), serving(12, 1_000, Some(99)), serving(13, 0, None)],
        serving_nutrients: vec![
            ServingNutrient { serving_id: 10, nutrient_id: 1, amount: 31_000 },
            ServingNutrient { serving_id: 10, nutrient_id: 2, amount: 74_000 },
            ServingNutrient { serving_id: 10, nutrient_id: 7, amount: 5_000 },
            ServingNutrient { serving_id: 20, nutrient_id: 1, amount: 9_000 },
        ],
    }
}

fn amounts(v: &[MealInfoNutrient]) -> Vec<(String, u64, String)> {
    v.iter().map(|n| (n.name.clone(), n.amount, n.unit.clone())).collect()
}

#[test]
fn base_amount_gives_stored_rows() {
    let cat = catalog();
    let r = resolve_nutrients(&cat, &cat.servings[0], 100_000).unwrap();
    assert_eq!(amounts(&r), vec![("Protein".to_string(), 31_000, "g".to_string()), ("Sodium".to_string(), 74_000, "mg".to_string())]);
}

#[test]
fn consumed_amount_scales_rows() {
    let cat = catalog();
    let r = resolve_nutrients(&cat, &cat.servings[0], 150_000).unwrap();
    assert_eq!(r[0].amount, 46_500);
    assert_eq!(r[1].amount, 111_000);
    let r = resolve_nutrients(&cat, &cat.servings[0], 1).unwrap();
    assert_eq!(r[0].amount, 0);
}

#[test]
fn relative_serving_scales_base_rows() {
    let cat = catalog();
    let rel = resolve_nutrients(&cat, &cat.servings[1], 25_000).unwrap();
    let base = resolve_nutrients(&cat, &cat.servings[0], 100_000).unwrap();
    assert_eq!(rel.len(), base.len());
    for (r, b) in rel.iter().zip(base.iter()) {
        assert_eq!(r.amount, b.amount * 25_000 / 100_000);
    }
    assert_eq!(rel[0].amount, 7_750);
}

#[test]
fn dangling_relative_is_not_found() {
    let cat = catalog();
    assert_eq!(resolve_nutrients(&cat, &cat.servings[2], 1_000).unwrap_err(), ResolveError::ServingNotFound);
    assert_eq!(resolve_serving_id(&cat, 42, 1_000).unwrap_err(), ResolveError::ServingNotFound);
}

#[test]
fn zero_base_amount_is_rejected_only_where_rows_are_divided() {
    let mut cat = catalog();
    assert!(resolve_serving_id(&cat, 13, 1_000).unwrap().is_empty());
    cat.serving_nutrients.push(ServingNutrient { serving_id: 13, nutrient_id: 1, amount: 2_000 });
    assert_eq!(resolve_serving_id(&cat, 13, 1_000).unwrap_err(), ResolveError::ZeroBaseAmount);
    let at_base = resolve_serving_id(&cat, 13, 0).unwrap();
    assert_eq!(at_base.len(), 1);
    assert_eq!(at_base[0].amount, 2_000);
}

#[test]
fn oversized_amount_is_rejected() {
    let mut cat = catalog();
    cat.servings.push(serving(40, 1, None));
    cat.serving_nutrients.push(ServingNutrient { serving_id: 40, nutrient_id: 1, amount: 3 });
    assert_eq!(resolve_serving_id(&cat, 40, u64::MAX).unwrap_err(), ResolveError::AmountTooLarge);
    assert_eq!(resolve_serving_id(&cat, 40, u64::MAX / 3).unwrap()[0].amount, u64::MAX / 3 * 3);
}

#[test]
fn serving_without_rows_resolves_empty() {
    let mut cat = catalog();
    cat.servings.push(serving(30, 100, None));
    assert!(resolve_serving_id(&cat, 30, 100).unwrap().is_empty());
}

#[test]
fn meal_listing_drops_unresolvable_entries() {
    let cat = catalog();
    let entry = |ms: i32, s: Serving, amount: u64| MealServingEntry { food_id: 1, food_name: "Bread".to_string(), meal_serving_id: ms, serving: s, amount };
    let entries = vec![entry(1, serving(10, 100_000, None), 200_000), entry(2, serving(12, 1_000, Some(99)), 1_000), entry(3, serving(11, 50_000, Some(10)), 50_000)];
    let foods = meal_info_foods(&cat, &entries);
    assert_eq!(foods.len(), 2);
    assert_eq!(foods[0].meal_serving_id, 1);
    assert_eq!(foods[0].nutrients[0].amount, 62_000);
    assert_eq!(foods[1].meal_serving_id, 3);
    assert_eq!(foods[1].serving_unit, "slice");
    assert_eq!(foods[1].nutrients[1].amount, 37_000);
    let empty = vec![entry(4, serving(13, 0, None), 5_000)];
    let foods = meal_info_foods(&cat, &empty);
    assert_eq!(foods.len(), 1);
    assert!(foods[0].nutrients.is_empty());
}

#[test]
fn search_entry_lists_servings() {
    let cat = catalog();
    let food = Food { id: 1, name: "Bread".to_string(), user_id: 0 };
    let f = search_food_entry(&cat, &food);
    assert_eq!(f.name, "Bread");
    assert_eq!(f.servings.len(), 4);
    assert_eq!(f.servings[0].nutrients.len(), 2);
    assert_eq!(f.servings[0].nutrients[1].amount, 74_000);
    assert!(f.servings[1].nutrients.is_empty());
    assert_eq!(f.servings[1].relative, Some(10));
    let other = Food { id: 2, name: "Milk".to_string(), user_id: 0 };
    assert!(search_food_entry(&cat, &other).servings.is_empty());
}
