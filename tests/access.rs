use diet_backend::access::{authorize, plan_mutation, Mutation, Write};
use diet_backend::forms::{DeleteDietForm, EditMealServingForm};
use diet_backend::response::ApiError;

#[test]
fn other_users_are_denied_without_writes() {
    let m = DeleteDietForm { diet_id: 4 }.to_mutation();
    assert_eq!(plan_mutation(1, Some(2), &m).unwrap_err(), ApiError::AccessDenied);
    let m = EditMealServingForm { meal_serving_id: 3, serving_id: 2, amount: 5 }.to_mutation();
    assert_eq!(plan_mutation(1, Some(2), &m).unwrap_err(), ApiError::AccessDenied);
}

#[test]
fn missing_owner_reports_the_mutation_failure() {
    assert_eq!(plan_mutation(1, None, &Mutation::DeleteMeal { meal_id: 3 }).unwrap_err(), ApiError::DeleteMeal);
    assert_eq!(authorize(1, None, ApiError::QueryMeals), Err(ApiError::QueryMeals));
    assert_eq!(authorize(1, Some(1), ApiError::QueryMeals), Ok(()));
}

#[test]
fn owner_deletes_diet_in_cascade_order() {
    let w = plan_mutation(1, Some(1), &Mutation::DeleteDiet { diet_id: 4 }).unwrap();
    assert_eq!(w.len(), 4);
    assert!(matches!(w[0], Write::DeleteServingsOfDiet { diet_id: 4 }));
    assert!(matches!(w[1], Write::DeleteMealsOfDiet { diet_id: 4 }));
    assert!(matches!(w[2], Write::DeleteTargetsOfDiet { diet_id: 4 }));
    assert!(matches!(w[3], Write::DeleteDiet { diet_id: 4 }));
    let w = plan_mutation(1, Some(1), &Mutation::DuplicateDiet { diet_id: 4, diet_name: "Copy".to_string() }).unwrap();
    assert!(matches!(&w[0], Write::CopyDiet { diet_id: 4, user_id: 1, diet_name } if diet_name == "Copy"));
}
