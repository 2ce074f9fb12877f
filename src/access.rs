use crate::response::ApiError;
use vstd::prelude::*;

verus! {

/// A change that a user asks for on a diet, a meal or a meal serving.
#[derive(Clone, Debug)]
pub enum Mutation {
    EditDiet { diet_id: i32, diet_name: String },
    DeleteDiet { diet_id: i32 },
    DuplicateDiet { diet_id: i32, diet_name: String },
    AddMeal { diet_id: i32, meal_name: String },
    DeleteMeal { meal_id: i32 },
    AddMealServing { meal_id: i32, serving_id: i32, amount: u64 },
    DeleteMealServing { meal_serving_id: i32 },
    EditMealServing { meal_serving_id: i32, serving_id: i32, amount: u64 },
}

/// One write to the data store, in the order in which it is to be made.
#[derive(Clone, Debug)]
pub enum Write {
    RenameDiet { diet_id: i32, diet_name: String },
    DeleteServingsOfDiet { diet_id: i32 },
    DeleteMealsOfDiet { diet_id: i32 },
    DeleteTargetsOfDiet { diet_id: i32 },
    DeleteDiet { diet_id: i32 },
    CopyDiet { diet_id: i32, diet_name: String, user_id: i32 },
    InsertMeal { diet_id: i32, meal_name: String },
    DeleteServingsOfMeal { meal_id: i32 },
    DeleteMeal { meal_id: i32 },
    InsertMealServing { meal_id: i32, serving_id: i32, amount: u64 },
    DeleteMealServing { meal_serving_id: i32 },
    UpdateMealServing { meal_serving_id: i32, serving_id: i32, amount: u64 },
}

/// The failure that a mutation reports when its target cannot be found.
pub open spec fn failure_of(m: Mutation) -> ApiError {
    match m {
        Mutation::EditDiet { .. } => ApiError::EditDiet,
        Mutation::DeleteDiet { .. } => ApiError::DeleteDiet,
        Mutation::DuplicateDiet { .. } => ApiError::DuplicateDiet,
        Mutation::AddMeal { .. } => ApiError::CreateMeal,
        Mutation::DeleteMeal { .. } => ApiError::DeleteMeal,
        Mutation::AddMealServing { .. } => ApiError::AddMealServing,
        Mutation::DeleteMealServing { .. } => ApiError::DeleteMealServing,
        Mutation::EditMealServing { .. } => ApiError::EditMealServing,
    }
}

/// The writes that carry out mutation `m` for user `user_id`. Deleting a
/// diet removes its meal servings, its meals, its targets and then the diet;
/// deleting a meal removes its servings and then the meal.
pub open spec fn writes_of(m: Mutation, user_id: i32) -> Seq<Write> {
    match m {
        Mutation::EditDiet { diet_id, diet_name } => seq![Write::RenameDiet { diet_id, diet_name }],
        Mutation::DeleteDiet { diet_id } => seq![
            Write::DeleteServingsOfDiet { diet_id },
            Write::DeleteMealsOfDiet { diet_id },
            Write::DeleteTargetsOfDiet { diet_id },
            Write::DeleteDiet { diet_id },
        ],
        Mutation::DuplicateDiet { diet_id, diet_name } => seq![
            Write::CopyDiet { diet_id, diet_name, user_id },
        ],
        Mutation::AddMeal { diet_id, meal_name } => seq![Write::InsertMeal { diet_id, meal_name }],
        Mutation::DeleteMeal { meal_id } => seq![
            Write::DeleteServingsOfMeal { meal_id },
            Write::DeleteMeal { meal_id },
        ],
        Mutation::AddMealServing { meal_id, serving_id, amount } => seq![
            Write::InsertMealServing { meal_id, serving_id, amount },
        ],
        Mutation::DeleteMealServing { meal_serving_id } => seq![
            Write::DeleteMealServing { meal_serving_id },
        ],
        Mutation::EditMealServing { meal_serving_id, serving_id, amount } => seq![
            Write::UpdateMealServing { meal_serving_id, serving_id, amount },
        ],
    }
}

/// The outcome of mutation `m` asked for by `user_id`, where `owner` is the
/// owner of its target as resolved through meal and diet (`None` when the
/// target was not found): the failure of the mutation when there is no
/// owner, access denied when the owner is someone else, and the writes
/// otherwise.
pub open spec fn planned(user_id: i32, owner: Option<i32>, m: Mutation) -> Result<Seq<Write>, ApiError> {
    match owner {
        None => Err(failure_of(m)),
        Some(o) => if o != user_id {
            Err(ApiError::AccessDenied)
        } else {
            Ok(writes_of(m, user_id))
        },
    }
}

/// Whether `user_id` may act on a resource owned by `owner` (`None` when the
/// resource was not found); `missing` is the failure to report then.
pub fn authorize(user_id: i32, owner: Option<i32>, missing: ApiError) -> (r: Result<(), ApiError>)
    ensures
        match owner {
            None => r == Err::<(), ApiError>(missing),
            Some(o) => if o != user_id {
                r == Err::<(), ApiError>(ApiError::AccessDenied)
            } else {
                r == Ok::<(), ApiError>(())
            },
        },
{
    match owner {
        None => Err(missing),
        Some(o) => if o != user_id {
            Err(ApiError::AccessDenied)
        } else {
            Ok(())
        },
    }
}

impl Mutation {
    /// The failure that this mutation reports when its target cannot be
    /// found or a write fails.
    pub fn failure(&self) -> (r: ApiError)
        ensures
            r == failure_of(*self),
    {
        match self {
            Mutation::EditDiet { .. } => ApiError::EditDiet,
            Mutation::DeleteDiet { .. } => ApiError::DeleteDiet,
            Mutation::DuplicateDiet { .. } => ApiError::DuplicateDiet,
            Mutation::AddMeal { .. } => ApiError::CreateMeal,
            Mutation::DeleteMeal { .. } => ApiError::DeleteMeal,
            Mutation::AddMealServing { .. } => ApiError::AddMealServing,
            Mutation::DeleteMealServing { .. } => ApiError::DeleteMealServing,
            Mutation::EditMealServing { .. } => ApiError::EditMealServing,
        }
    }
}

fn writes(m: &Mutation, user_id: i32) -> (r: Vec<Write>)
    ensures
        r@ == writes_of(*m, user_id),
{
    let r = match m {
        Mutation::EditDiet { diet_id, diet_name } => vec![
            Write::RenameDiet { diet_id: *diet_id, diet_name: diet_name.clone() },
        ],
        Mutation::DeleteDiet { diet_id } => vec![
            Write::DeleteServingsOfDiet { diet_id: *diet_id },
            Write::DeleteMealsOfDiet { diet_id: *diet_id },
            Write::DeleteTargetsOfDiet { diet_id: *diet_id },
            Write::DeleteDiet { diet_id: *diet_id },
        ],
        Mutation::DuplicateDiet { diet_id, diet_name } => vec![
            Write::CopyDiet { diet_id: *diet_id, diet_name: diet_name.clone(), user_id },
        ],
        Mutation::AddMeal { diet_id, meal_name } => vec![
            Write::InsertMeal { diet_id: *diet_id, meal_name: meal_name.clone() },
        ],
        Mutation::DeleteMeal { meal_id } => vec![
            Write::DeleteServingsOfMeal { meal_id: *meal_id },
            Write::DeleteMeal { meal_id: *meal_id },
        ],
        Mutation::AddMealServing { meal_id, serving_id, amount } => vec![
            Write::InsertMealServing { meal_id: *meal_id, serving_id: *serving_id, amount: *amount },
        ],
        Mutation::DeleteMealServing { meal_serving_id } => vec![
            Write::DeleteMealServing { meal_serving_id: *meal_serving_id },
        ],
        Mutation::EditMealServing { meal_serving_id, serving_id, amount } => vec![
            Write::UpdateMealServing {
                meal_serving_id: *meal_serving_id,
                serving_id: *serving_id,
                amount: *amount,
            },
        ],
    };
    proof {
        assert(r@ =~= writes_of(*m, user_id));
    }
    r
}

/// The writes that carry out mutation `m` for `user_id`, after the ownership
/// check against `owner`, the resolved owner of its target.
pub fn plan_mutation(user_id: i32, owner: Option<i32>, m: &Mutation) -> (r: Result<Vec<Write>, ApiError>)
    ensures
        match r {
            Ok(w) => planned(user_id, owner, *m) == Ok::<Seq<Write>, ApiError>(w@),
            Err(e) => planned(user_id, owner, *m) == Err::<Seq<Write>, ApiError>(e),
        },
{
    match authorize(user_id, owner, m.failure()) {
        Err(e) => Err(e),
        Ok(()) => Ok(writes(m, user_id)),
    }
}

/// A mutation asked for by a user other than the owner of its target is
/// denied and makes no write; the owner's own mutation makes at least one.
pub proof fn law_only_owner_writes(user_id: i32, owner: i32, m: Mutation)
    ensures
        owner != user_id ==> planned(user_id, Some(owner), m) == Err::<Seq<Write>, ApiError>(
            ApiError::AccessDenied,
        ),
        owner == user_id ==> (planned(user_id, Some(owner), m) matches Ok(w) && w.len() > 0),
{
}

} // verus!
