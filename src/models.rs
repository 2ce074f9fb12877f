use crate::dates::Date;
use vstd::prelude::*;

verus! {

/// A nutrient of the reference table, such as protein in grams.
#[derive(Clone, Debug)]
pub struct Nutrient {
    pub id: i32,
    pub name: String,
    pub unit: String,
}

/// A food; its quantities are described by its servings.
#[derive(Clone, Debug)]
pub struct Food {
    pub id: i32,
    pub name: String,
    pub user_id: i32,
}

/// A quantified unit of a food. A relative serving names another serving
/// whose nutrient rows it borrows, scaled by the ratio of amounts.
#[derive(Clone, Debug)]
pub struct Serving {
    pub id: i32,
    pub food_id: i32,
    pub unit: String,
    pub amount: u64,
    pub relative: Option<i32>,
}

/// The amount of one nutrient in the base amount of one serving.
#[derive(Clone, Copy, Debug, PartialEq, Eq, Structural)]
pub struct ServingNutrient {
    pub serving_id: i32,
    pub nutrient_id: i32,
    pub amount: u64,
}

/// A named set of nutrient targets owned by one user.
#[derive(Clone, Debug)]
pub struct Diet {
    pub id: i32,
    pub name: String,
    pub user_id: i32,
}

/// One nutrient target of a diet.
#[derive(Clone, Copy, Debug, PartialEq, Eq, Structural)]
pub struct DietNutrient {
    pub diet_id: i32,
    pub nutrient_id: i32,
    pub min_intake: Option<u64>,
    pub max_intake: Option<u64>,
    pub relative: bool,
}

/// The nutrient targets of a diet.
#[derive(Clone, Debug)]
pub struct DietNutrition {
    pub nutrition: Vec<DietNutrient>,
}

/// A named group of servings within a diet.
#[derive(Clone, Debug)]
pub struct Meal {
    pub id: i32,
    pub diet_id: i32,
    pub name: String,
}

/// A serving placed in a meal, with the amount consumed in the serving's unit.
#[derive(Clone, Copy, Debug, PartialEq, Eq, Structural)]
pub struct MealServing {
    pub id: i32,
    pub meal_id: i32,
    pub serving_id: i32,
    pub amount: u64,
}

/// A demographic default for one nutrient target: it applies to users of the
/// given gender whose age lies in `[age_min, age_max)`, or `[age_min, ..)`
/// when `age_max` is absent.
#[derive(Clone, Debug)]
pub struct DefaultNutrient {
    pub nutrient_id: i32,
    pub min_intake: Option<u64>,
    pub max_intake: Option<u64>,
    pub relative: bool,
    pub gender: String,
    pub age_min: i32,
    pub age_max: Option<i32>,
}

/// A registered user.
#[derive(Clone, Debug)]
pub struct UserAccount {
    pub id: i32,
    pub name: String,
    pub email: String,
    pub gender: String,
    pub weight: u64,
    pub birthdate: Date,
}

/// What the nutrition rules read of a user.
#[derive(Clone, Debug)]
pub struct UserInformation {
    pub weight: u64,
    pub gender: String,
    pub birthdate: Date,
}

} // verus!
