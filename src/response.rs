use vstd::prelude::*;

verus! {

/// The failures that the API reports to its clients.
#[derive(Clone, Copy, Debug, PartialEq, Eq, Structural)]
pub enum ApiError {
    RegistrationFailed,
    AuthFailed,
    NotLoggedIn,
    QueryDiets,
    QueryDietNutrition,
    AccessDenied,
    QueryNutrients,
    QueryMeals,
    CreateDiet,
    EditDiet,
    DeleteDiet,
    CreateMeal,
    DeleteMeal,
    SearchFoods,
    AddMealServing,
    DeleteMealServing,
    EditMealServing,
    QueryFood,
    DuplicateDiet,
    InvalidInput,
}

/// The user-facing message of each failure.
pub open spec fn error_message(e: ApiError) -> Seq<char> {
    match e {
        ApiError::RegistrationFailed => "Failed to register user (try again)"@,
        ApiError::AuthFailed => "User authentication failed (check your credentials)"@,
        ApiError::NotLoggedIn => "User is not logged in (missing session_id)"@,
        ApiError::QueryDiets => "Failed to query user diets (try refreshing the page)"@,
        ApiError::QueryDietNutrition => "Failed to query diet nutrition (try refreshing the page)"@,
        ApiError::AccessDenied => "Access denied (user cannot access the requested resource)"@,
        ApiError::QueryNutrients => "Failed to query nutrients (try refreshing the page)"@,
        ApiError::QueryMeals => "Failed to query meals (try refreshing the page)"@,
        ApiError::CreateDiet => "Failed to create diet (try again)"@,
        ApiError::EditDiet => "Failed to edit diet (try again)"@,
        ApiError::DeleteDiet => "Failed to delete diet (try again)"@,
        ApiError::CreateMeal => "Failed to create meal (try again)"@,
        ApiError::DeleteMeal => "Failed to delete meal (try again)"@,
        ApiError::SearchFoods => "Failed to search foods (try again)"@,
        ApiError::AddMealServing => "Failed to add serving to meal (try again)"@,
        ApiError::DeleteMealServing => "Failed to delete serving from meal (try again)"@,
        ApiError::EditMealServing => "Failed to edit serving (try again)"@,
        ApiError::QueryFood => "Failed to query food (try again)"@,
        ApiError::DuplicateDiet => "Failed to duplicate diet (try again)"@,
        ApiError::InvalidInput => "Invalid input (check the form fields)"@,
    }
}

impl ApiError {
    /// The user-facing message of this failure.
    pub fn to_string(&self) -> (r: String)
        ensures
            r@ == error_message(*self),
    {
        let text: &str = match self {
            ApiError::RegistrationFailed => "Failed to register user (try again)",
            ApiError::AuthFailed => "User authentication failed (check your credentials)",
            ApiError::NotLoggedIn => "User is not logged in (missing session_id)",
            ApiError::QueryDiets => "Failed to query user diets (try refreshing the page)",
            ApiError::QueryDietNutrition => "Failed to query diet nutrition (try refreshing the page)",
            ApiError::AccessDenied => "Access denied (user cannot access the requested resource)",
            ApiError::QueryNutrients => "Failed to query nutrients (try refreshing the page)",
            ApiError::QueryMeals => "Failed to query meals (try refreshing the page)",
            ApiError::CreateDiet => "Failed to create diet (try again)",
            ApiError::EditDiet => "Failed to edit diet (try again)",
            ApiError::DeleteDiet => "Failed to delete diet (try again)",
            ApiError::CreateMeal => "Failed to create meal (try again)",
            ApiError::DeleteMeal => "Failed to delete meal (try again)",
            ApiError::SearchFoods => "Failed to search foods (try again)",
            ApiError::AddMealServing => "Failed to add serving to meal (try again)",
            ApiError::DeleteMealServing => "Failed to delete serving from meal (try again)",
            ApiError::EditMealServing => "Failed to edit serving (try again)",
            ApiError::QueryFood => "Failed to query food (try again)",
            ApiError::DuplicateDiet => "Failed to duplicate diet (try again)",
            ApiError::InvalidInput => "Invalid input (check the form fields)",
        };
        String::from_str(text)
    }
}

/// The body of a failed response: `{"err": "<message>"}`.
#[derive(Clone, Debug)]
pub struct ApiResponseError {
    pub err: String,
}

/// A response carrying either data or a failure message.
#[derive(Clone, Debug)]
pub enum ApiResponse<T> {
    Success(T),
    Failure(ApiResponseError),
}

impl<T> ApiResponse<T> {
    /// A successful response carrying `data`.
    pub fn ok(data: T) -> (r: Self)
        ensures
            r == ApiResponse::<T>::Success(data),
    {
        ApiResponse::Success(data)
    }

    /// A failed response carrying the message of `error`.
    pub fn err(error: ApiError) -> (r: Self)
        ensures
            r matches ApiResponse::Failure(f) && f.err@ == error_message(error),
    {
        ApiResponse::Failure(ApiResponseError { err: error.to_string() })
    }
}

/// A response that carries only an error message, empty on success.
#[derive(Clone, Debug)]
pub struct JsonResponse {
    pub err: String,
}

impl JsonResponse {
    /// A successful response: the message is empty.
    pub fn ok() -> (r: Self)
        ensures
            r.err@ == Seq::<char>::empty(),
    {
        JsonResponse { err: String::new() }
    }

    /// A failed response with the message `err`.
    pub fn err(err: String) -> (r: Self)
        ensures
            r.err == err,
    {
        JsonResponse { err }
    }
}

} // verus!
