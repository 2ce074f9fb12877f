use chrono::Datelike;
use diet_backend::dates::{add_one_year, age_at, calculate_age, date_not_after, Date};

fn today() -> Date {
    let t = chrono::Utc::now().date_naive();
    Date { year: t.year(), month: t.month(), day: t.day() }
}
use diet_backend::defaults::{applies_to, default_diet_nutrition, diet_nutrition_on};
use diet_backend::models::DefaultNutrient;

fn rule(nutrient_id: i32, gender: &str, age_min: i32, age_max: Option<i32>) -> DefaultNutrient {
    DefaultNutrient { nutrient_id, min_intake: Some(1_000), max_intake: None, relative: false, gender: gender.to_string(), age_min, age_max }
}

fn d(year: i32, month: u32, day: u32) -> Date {
    Date { year, month, day }
}

#[test]
fn child_gets_only_the_child_rule() {
    let rules = vec![rule(1, "M", 0, Some(18)), rule(2, "M", 18, None)];
    let now = d(2026, 10, 18);
    let born = d(2016, 10, 18);
    let targets = diet_nutrition_on(&rules, &"M".to_string(), &born, &now, 7);
    assert_eq!(targets.len(), 1);
    assert_eq!(targets[0].nutrient_id, 1);
    assert_eq!(targets[0].diet_id, 7);
    assert_eq!(targets[0].min_intake, Some(1_000));
}

#[test]
fn age_bounds_are_inclusive_then_exclusive() {
    let r = rule(1, "F", 18, Some(30));
    let f = "F".to_string();
    assert!(applies_to(&r, &f, 18));
    assert!(applies_to(&r, &f, 29));
    assert!(!applies_to(&r, &f, 30));
    assert!(!applies_to(&r, &f, 17));
    assert!(!applies_to(&r, &"M".to_string(), 20));
    assert!(applies_to(&rule(1, "F", 18, None), &f, 120));
}

#[test]
fn same_inputs_give_same_targets() {
    let rules = vec![rule(1, "F", 0, Some(18)), rule(2, "F", 10, None), rule(3, "M", 0, None)];
    let a = default_diet_nutrition(&rules, &"F".to_string(), 12, 1);
    let b = default_diet_nutrition(&rules, &"F".to_string(), 12, 1);
    assert_eq!(a, b);
    assert_eq!(a.iter().map(|t| t.nutrient_id).collect::<Vec<_>>(), vec![1, 2]);
}

#[test]
fn age_counts_whole_years() {
    assert_eq!(age_at(&d(2000, 5, 20), &d(2026, 5, 19)), 25);
    assert_eq!(age_at(&d(2000, 5, 20), &d(2026, 5, 20)), 26);
    assert_eq!(age_at(&d(2030, 1, 1), &d(2026, 5, 20)), 0);
}

#[test]
fn age_from_today() {
    let t = today();
    let born = d(t.year - 10, t.month, if t.month == 2 && t.day == 29 { 28 } else { t.day });
    assert_eq!(calculate_age(&born), 10);
}

#[test]
fn dates_compare_by_day() {
    assert!(date_not_after(&d(2026, 1, 1), &d(2026, 1, 1)));
    assert!(date_not_after(&d(2025, 12, 31), &d(2026, 1, 1)));
    assert!(!date_not_after(&d(2026, 1, 2), &d(2026, 1, 1)));
}

#[test]
fn one_year_later() {
    assert_eq!(add_one_year(&d(2024, 2, 29)), d(2025, 2, 28));
    assert_eq!(add_one_year(&d(2027, 2, 29)), d(2028, 2, 29));
    assert_eq!(add_one_year(&d(2026, 10, 18)), d(2027, 10, 18));
}

#[test]
fn ten_year_old_gets_child_targets() {
    let rules = vec![rule(1, "M", 0, Some(18)), rule(2, "M", 18, None)];
    let t = today();
    let born = d(t.year - 10, t.month, if t.month == 2 && t.day == 29 { 28 } else { t.day });
    let targets = diet_backend::defaults::diet_nutrition_for_user(&rules, &"M".to_string(), &born, 3);
    assert_eq!(targets.iter().map(|x| x.nutrient_id).collect::<Vec<_>>(), vec![1]);
}
