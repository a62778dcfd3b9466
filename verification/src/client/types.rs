//! The shapes of the remote service's documents.
//!
//! Every type here is plain data. Two kinds of value that the service sends
//! are carried without being interpreted: a fractional amount travels as a
//! [`Quantity`], an instant as a [`Timestamp`].

use vstd::prelude::*;
use crate::dates::{CalendarDate, Timestamp};

verus! {

/// A fractional amount, kept as the bit pattern of its 64-bit binary
/// floating-point form. The library stores and forwards quantities; it never
/// computes with them.
#[derive(Debug, Clone, Copy, PartialEq, Eq)]
pub struct Quantity {
    pub bits: u64,
}

#[derive(Debug, Clone, PartialEq, Eq)]
pub struct AuthToken {
    pub token: String,
}

#[derive(Debug, Clone, PartialEq, Eq)]
pub struct AuthRequest {
    pub username: String,
    pub password: String,
}

#[derive(Debug, Clone, PartialEq, Eq)]
pub struct Recipe {
    pub id: i32,
    pub name: String,
    pub description: Option<String>,
    pub instructions: Option<String>,
    pub servings: Option<i32>,
    pub working_time: Option<i32>,
    pub waiting_time: Option<i32>,
    pub created: Timestamp,
    pub updated: Timestamp,
    pub internal: bool,
    pub show_ingredient_overview: bool,
    pub keywords: Vec<Keyword>,
    pub steps: Vec<Step>,
    pub nutrition: Option<Nutrition>,
}

#[derive(Debug, Clone, PartialEq, Eq)]
pub struct Keyword {
    pub id: i32,
    pub name: String,
    pub description: Option<String>,
    pub created: Timestamp,
    pub updated: Timestamp,
}

#[derive(Debug, Clone, PartialEq, Eq)]
pub struct Step {
    pub id: i32,
    pub name: String,
    pub instruction: String,
    pub ingredients: Vec<StepIngredient>,
    pub time: Option<i32>,
    pub order: i32,
    pub file: Option<String>,
}

#[derive(Debug, Clone, PartialEq, Eq)]
pub struct StepIngredient {
    pub id: i32,
    pub food: Food,
    pub unit: Option<Unit>,
    pub amount: Quantity,
    pub note: Option<String>,
    pub order: i32,
    pub is_header: bool,
    pub no_amount: bool,
}

#[derive(Debug, Clone, PartialEq, Eq)]
pub struct Food {
    pub id: i32,
    pub name: String,
    pub plural_name: Option<String>,
    pub description: Option<String>,
    pub recipe: Option<i32>,
    pub food_onhand: bool,
    pub supermarket_category: Option<i32>,
    pub inherit_fields: Vec<InheritField>,
    pub properties: Vec<FoodProperty>,
}

#[derive(Debug, Clone, PartialEq, Eq)]
pub struct Unit {
    pub id: i32,
    pub name: String,
    pub plural_name: Option<String>,
    pub description: Option<String>,
    pub base_unit: Option<String>,
    pub type_: Option<String>,
}

#[derive(Debug, Clone, PartialEq, Eq)]
pub struct InheritField {
    pub id: i32,
    pub name: String,
    pub field: String,
}

#[derive(Debug, Clone, PartialEq, Eq)]
pub struct FoodProperty {
    pub id: i32,
    pub property_amount: Quantity,
    pub property_type: PropertyType,
}

#[derive(Debug, Clone, PartialEq, Eq)]
pub struct PropertyType {
    pub id: i32,
    pub name: String,
    pub unit: String,
    pub order: i32,
    pub fdc_id: Option<i32>,
}

#[derive(Debug, Clone, Copy, PartialEq, Eq)]
pub struct Nutrition {
    pub calories: Option<Quantity>,
    pub proteins: Option<Quantity>,
    pub fats: Option<Quantity>,
    pub carbs: Option<Quantity>,
}

#[derive(Debug, Clone, PartialEq, Eq)]
pub struct ShoppingListEntry {
    pub id: i32,
    pub food: Food,
    pub unit: Option<Unit>,
    pub amount: Quantity,
    pub order: i32,
    pub checked: bool,
    pub created: Timestamp,
    pub completed: Option<Timestamp>,
    pub delay_until: Option<Timestamp>,
    pub created_by: i32,
    pub completed_by: Option<i32>,
}

#[derive(Debug, Clone, PartialEq, Eq)]
pub struct MealPlan {
    pub id: i32,
    pub title: Option<String>,
    pub recipe: Option<Recipe>,
    pub servings: i32,
    pub note: Option<String>,
    pub date: CalendarDate,
    pub meal_type: MealType,
    pub created: Timestamp,
    pub updated: Timestamp,
    pub created_by: i32,
}

#[derive(Debug, Clone, PartialEq, Eq)]
pub struct MealType {
    pub id: i32,
    pub name: String,
    pub order: i32,
    pub color: String,
    pub default: bool,
    pub created_by: i32,
    pub icon: Option<String>,
}

#[derive(Debug, Clone, PartialEq, Eq)]
pub struct CookLog {
    pub id: i32,
    pub recipe: Recipe,
    pub servings: i32,
    pub rating: Option<i32>,
    pub comment: Option<String>,
    pub created: Timestamp,
    pub created_by: i32,
}

#[derive(Debug, Clone, PartialEq, Eq)]
pub struct RecipeImport {
    pub url: String,
}

/// One page of a collection, as the service wraps it.
#[derive(Debug, Clone, PartialEq, Eq)]
pub struct PaginatedResponse<T> {
    pub count: i32,
    pub next: Option<String>,
    pub previous: Option<String>,
    pub results: Vec<T>,
}

#[derive(Debug, Clone, PartialEq, Eq)]
pub struct CreateRecipeRequest {
    pub name: String,
    pub description: Option<String>,
    pub servings: Option<i32>,
    pub working_time: i32,
    pub waiting_time: i32,
    pub keywords: Vec<CreateKeywordRequest>,
    pub steps: Vec<CreateStepRequest>,
}

#[derive(Debug, Clone, PartialEq, Eq)]
pub struct CreateKeywordRequest {
    pub name: String,
}

#[derive(Debug, Clone, PartialEq, Eq)]
pub struct CreateStepRequest {
    pub name: Option<String>,
    pub instruction: String,
    pub ingredients: Vec<CreateStepIngredientRequest>,
    pub time: Option<i32>,
    pub order: i32,
}

#[derive(Debug, Clone, PartialEq, Eq)]
pub struct CreateStepIngredientRequest {
    pub food: CreateFoodRequest,
    pub unit: Option<CreateUnitRequest>,
    pub amount: String,
    pub note: Option<String>,
    pub order: i32,
    pub is_header: bool,
    pub no_amount: bool,
}

#[derive(Debug, Clone, PartialEq, Eq)]
pub struct CreateFoodRequest {
    pub name: String,
}

#[derive(Debug, Clone, PartialEq, Eq)]
pub struct CreateUnitRequest {
    pub name: String,
}

#[derive(Debug, Clone, Copy, PartialEq, Eq)]
pub struct CreateShoppingListEntryRequest {
    pub food: i32,
    pub unit: Option<i32>,
    pub amount: Quantity,
}

#[derive(Debug, Clone, PartialEq, Eq)]
pub struct CreateMealPlanRequest {
    pub recipe: Option<i32>,
    pub title: Option<String>,
    pub servings: i32,
    pub date: CalendarDate,
    pub meal_type: i32,
    pub note: Option<String>,
}

#[derive(Debug, Clone, PartialEq, Eq)]
pub struct CreateCookLogRequest {
    pub recipe: i32,
    pub servings: i32,
    pub rating: Option<i32>,
    pub comment: Option<String>,
}

#[derive(Debug, Clone, Copy, PartialEq, Eq)]
pub struct UpdateFoodRequest {
    pub food_onhand: Option<bool>,
}

#[derive(Debug, Clone, Copy, PartialEq, Eq)]
pub struct UpdateShoppingListEntryRequest {
    pub checked: Option<bool>,
    pub amount: Option<Quantity>,
}

#[derive(Debug, Clone, PartialEq, Eq)]
pub struct BulkShoppingListRequest {
    pub entries: Vec<CreateShoppingListEntryRequest>,
}

} // verus!
