use crate::access::Mutation;
use vstd::prelude::*;

verus! {

/// Where the server listens and which database it uses.
#[derive(Clone, Debug)]
pub struct Settings {
    pub host: String,
    pub port: u16,
    pub database_url: String,
}

/// Login credentials.
#[derive(Clone, Debug)]
pub struct LoginForm {
    pub email: String,
    pub password: String,
}

/// A request for a new diet.
#[derive(Clone, Debug)]
pub struct NewDietForm {
    pub diet_name: String,
}

/// A request to rename a diet.
#[derive(Clone, Debug)]
pub struct EditDietForm {
    pub diet_id: i32,
    pub diet_name: String,
}

/// A request to delete a diet.
#[derive(Clone, Copy, Debug, PartialEq, Eq, Structural)]
pub struct DeleteDietForm {
    pub diet_id: i32,
}

/// A request to copy a diet under a new name.
#[derive(Clone, Debug)]
pub struct DuplicateDietForm {
    pub diet_id: i32,
    pub diet_name: String,
}

/// A request for a new meal in a diet.
#[derive(Clone, Debug)]
pub struct AddMealForm {
    pub diet_id: i32,
    pub meal_name: String,
}

/// A request to delete a meal.
#[derive(Clone, Copy, Debug, PartialEq, Eq, Structural)]
pub struct DeleteMealForm {
    pub meal_id: i32,
}

/// A request to place a serving in a meal.
#[derive(Clone, Copy, Debug, PartialEq, Eq, Structural)]
pub struct AddMealServingForm {
    pub meal_id: i32,
    pub serving_id: i32,
    pub amount: u64,
}

/// A request to remove a serving from a meal.
#[derive(Clone, Copy, Debug, PartialEq, Eq, Structural)]
pub struct DeleteMealServingForm {
    pub meal_serving_id: i32,
}

/// A request to change the serving or amount of a meal serving.
#[derive(Clone, Copy, Debug, PartialEq, Eq, Structural)]
pub struct EditMealServingForm {
    pub meal_serving_id: i32,
    pub serving_id: i32,
    pub amount: u64,
}

impl EditDietForm {
    pub fn to_mutation(&self) -> (r: Mutation)
        ensures
            r == (Mutation::EditDiet { diet_id: self.diet_id, diet_name: self.diet_name }),
    {
        Mutation::EditDiet { diet_id: self.diet_id, diet_name: self.diet_name.clone() }
    }
}

impl DeleteDietForm {
    pub fn to_mutation(&self) -> (r: Mutation)
        ensures
            r == (Mutation::DeleteDiet { diet_id: self.diet_id }),
    {
        Mutation::DeleteDiet { diet_id: self.diet_id }
    }
}

impl DuplicateDietForm {
    pub fn to_mutation(&self) -> (r: Mutation)
        ensures
            r == (Mutation::DuplicateDiet { diet_id: self.diet_id, diet_name: self.diet_name }),
    {
        Mutation::DuplicateDiet { diet_id: self.diet_id, diet_name: self.diet_name.clone() }
    }
}

impl AddMealForm {
    pub fn to_mutation(&self) -> (r: Mutation)
        ensures
            r == (Mutation::AddMeal { diet_id: self.diet_id, meal_name: self.meal_name }),
    {
        Mutation::AddMeal { diet_id: self.diet_id, meal_name: self.meal_name.clone() }
    }
}

impl DeleteMealForm {
    pub fn to_mutation(&self) -> (r: Mutation)
        ensures
            r == (Mutation::DeleteMeal { meal_id: self.meal_id }),
    {
        Mutation::DeleteMeal { meal_id: self.meal_id }
    }
}

impl AddMealServingForm {
    pub fn to_mutation(&self) -> (r: Mutation)
        ensures
            r == (Mutation::AddMealServing {
                meal_id: self.meal_id,
                serving_id: self.serving_id,
                amount: self.amount,
            }),
    {
        Mutation::AddMealServing {
            meal_id: self.meal_id,
            serving_id: self.serving_id,
            amount: self.amount,
        }
    }
}

impl DeleteMealServingForm {
    pub fn to_mutation(&self) -> (r: Mutation)
        ensures
            r == (Mutation::DeleteMealServing { meal_serving_id: self.meal_serving_id }),
    {
        Mutation::DeleteMealServing { meal_serving_id: self.meal_serving_id }
    }
}

impl EditMealServingForm {
    pub fn to_mutation(&self) -> (r: Mutation)
        ensures
            r == (Mutation::EditMealServing {
                meal_serving_id: self.meal_serving_id,
                serving_id: self.serving_id,
                amount: self.amount,
            }),
    {
        Mutation::EditMealServing {
            meal_serving_id: self.meal_serving_id,
            serving_id: self.serving_id,
            amount: self.amount,
        }
    }
}

} // verus!
