//! The meal-plan tools and the cook log.

use vstd::prelude::*;
use crate::client::client::ClientError;
use crate::client::types::{
    CookLog,
    CreateCookLogRequest,
    CreateMealPlanRequest,
    MealPlan,
    MealType,
    PaginatedResponse,
    Recipe,
};
use crate::dates::{
    day_format,
    parse_date,
    parsed_date,
    utc_day,
    CalendarDate,
    Timestamp,
};
use crate::server::failure::{fails_marked, fails_plainly, opt_view, ToolFailure};
use crate::server::{
    CreateMealPlanParams,
    DeleteMealPlanParams,
    GetCookLogParams,
    GetMealPlansParams,
    LogCookedRecipeParams,
};
use crate::text::{concat3, copy_opt, eq_ignoring_case, same_ignoring_case};

verus! {

/// The number of a recipe that may be missing.
pub open spec fn recipe_number(recipe: Option<Recipe>) -> Option<i32> {
    match recipe {
        Some(r) => Some(r.id),
        None => None,
    }
}

/// The name of a recipe that may be missing.
pub open spec fn recipe_title(recipe: Option<Recipe>) -> Option<Seq<char>> {
    match recipe {
        Some(r) => Some(r.name@),
        None => None,
    }
}

/// One meal plan, as the tools show it.
#[derive(Debug, Clone, PartialEq, Eq)]
pub struct MealPlanSummary {
    pub id: i32,
    pub date: CalendarDate,
    pub meal_type: String,
    pub recipe_id: Option<i32>,
    pub recipe_name: Option<String>,
    pub title: Option<String>,
    pub servings: i32,
    pub note: Option<String>,
    pub created: Timestamp,
}

/// A shown meal plan as the contracts see it.
pub struct MealPlanSummaryView {
    pub id: i32,
    pub date: CalendarDate,
    pub meal_type: Seq<char>,
    pub recipe_id: Option<i32>,
    pub recipe_name: Option<Seq<char>>,
    pub title: Option<Seq<char>>,
    pub servings: i32,
    pub note: Option<Seq<char>>,
    pub created: Timestamp,
}

impl View for MealPlanSummary {
    type V = MealPlanSummaryView;

    open spec fn view(&self) -> MealPlanSummaryView {
        MealPlanSummaryView {
            id: self.id,
            date: self.date,
            meal_type: self.meal_type@,
            recipe_id: self.recipe_id,
            recipe_name: opt_view(self.recipe_name),
            title: opt_view(self.title),
            servings: self.servings,
            note: opt_view(self.note),
            created: self.created,
        }
    }
}

/// The views of a list of shown meal plans.
pub open spec fn plan_views(plans: Seq<MealPlanSummary>) -> Seq<MealPlanSummaryView> {
    plans.map_values(|p: MealPlanSummary| p@)
}

/// How the tools show a meal plan.
pub open spec fn planned(plan: MealPlan) -> MealPlanSummaryView {
    MealPlanSummaryView {
        id: plan.id,
        date: plan.date,
        meal_type: plan.meal_type.name@,
        recipe_id: recipe_number(plan.recipe),
        recipe_name: recipe_title(plan.recipe),
        title: opt_view(plan.title),
        servings: plan.servings,
        note: opt_view(plan.note),
        created: plan.created,
    }
}

/// Whether a plan passes the filter: any plan where there is none, else the
/// plans whose meal type has the filter's name, the case of letters set
/// aside.
pub open spec fn passes(plan: MealPlan, filter: Option<String>) -> bool {
    match filter {
        Some(name) => same_ignoring_case(plan.meal_type.name@, name@),
        None => true,
    }
}

/// The plans that pass the filter, shown in their order.
pub open spec fn plans_shown(plans: Seq<MealPlan>, filter: Option<String>) -> Seq<
    MealPlanSummaryView,
> {
    plans.filter(|p: MealPlan| passes(p, filter)).map_values(|p: MealPlan| planned(p))
}

fn show_plan(plan: &MealPlan) -> (r: MealPlanSummary)
    ensures
        r@ == planned(*plan),
{
    let (recipe_id, recipe_name) = match &plan.recipe {
        Some(recipe) => (Some(recipe.id), Some(recipe.name.clone())),
        None => (None, None),
    };
    MealPlanSummary {
        id: plan.id,
        date: plan.date,
        meal_type: plan.meal_type.name.clone(),
        recipe_id,
        recipe_name,
        title: copy_opt(&plan.title),
        servings: plan.servings,
        note: copy_opt(&plan.note),
        created: plan.created,
    }
}

/// What the meal-plan reading hands back.
#[derive(Debug, Clone, PartialEq, Eq)]
pub struct MealPlansReport {
    pub meal_plans: Vec<MealPlanSummary>,
    /// How many plans passed the filter.
    pub total_count: usize,
    pub date_range: String,
    pub meal_type_filter: Option<String>,
}

/// Shapes the meal plans for the caller: the plans of the meal type asked
/// for, or all where none is asked for, with their number and the range of
/// days in words; or the failure of the reading.
pub fn get_meal_plans(
    params: GetMealPlansParams,
    reply: Result<PaginatedResponse<MealPlan>, ClientError>,
) -> (r: Result<MealPlansReport, ToolFailure>)
    ensures
        match reply {
            Err(error) => fails_plainly(r, "Failed to get meal plans"@, error.message@),
            Ok(page) => {
                &&& r is Ok
                &&& plan_views(r->Ok_0.meal_plans@) == plans_shown(
                    page.results@,
                    params.meal_type,
                )
                &&& r->Ok_0.total_count == r->Ok_0.meal_plans@.len()
                &&& r->Ok_0.date_range@ == params.from_date@ + " to "@ + params.to_date@
                &&& r->Ok_0.meal_type_filter == params.meal_type
            },
        },
{
    match reply {
        Err(error) => Err(ToolFailure::plain("Failed to get meal plans", error.message)),
        Ok(page) => {
            let ghost keep = |p: MealPlan| passes(p, params.meal_type);
            let ghost view = |p: MealPlan| planned(p);
            let plans = &page.results;
            let mut out: Vec<MealPlanSummary> = Vec::new();
            let mut i: usize = 0;
            proof {
                reveal(Seq::filter);
                assert(plan_views(out@) =~= plans@.take(0).filter(keep).map_values(view));
            }
            while i < plans.len()
                invariant
                    i <= plans.len(),
                    keep == |p: MealPlan| passes(p, params.meal_type),
                    view == |p: MealPlan| planned(p),
                    plan_views(out@) == plans@.take(i as int).filter(keep).map_values(view),
                decreases plans.len() - i,
            {
                proof {
                    assert(plans@.take(i + 1) =~= plans@.take(i as int).push(plans@[i as int]));
                    plans@.take(i as int).lemma_filter_push(plans@[i as int], keep);
                }
                let wanted = match &params.meal_type {
                    Some(name) => eq_ignoring_case(
                        plans[i].meal_type.name.as_str(),
                        name.as_str(),
                    ),
                    None => true,
                };
                if wanted {
                    let ghost before = plan_views(out@);
                    let plan = show_plan(&plans[i]);
                    out.push(plan);
                    assert(plan_views(out@) =~= before.push(plan@));
                    assert(plan_views(out@) =~= plans@.take(i + 1).filter(keep).map_values(view));
                }
                i = i + 1;
            }
            assert(plans@.take(plans.len() as int) =~= plans@);
            let total_count = out.len();
            let date_range = concat3(params.from_date.as_str(), " to ", params.to_date.as_str());
            Ok(
                MealPlansReport {
                    meal_plans: out,
                    total_count,
                    date_range,
                    meal_type_filter: params.meal_type,
                },
            )
        },
    }
}

/// The refusal of a call whose parameters cannot be read: what is wrong, and
/// what the reader of the parameter complained of.
#[derive(Debug, Clone, PartialEq, Eq)]
pub struct InvalidParams {
    pub message: String,
    pub error: String,
}

/// What is to be sent for the meal plan that `params` describe, given what
/// the reading of its date came to: the request on that day, or the refusal
/// with the reader's complaint.
pub open spec fn plan_request(params: CreateMealPlanParams, date: Result<CalendarDate, Seq<char>>) -> Result<
    CreateMealPlanRequest,
    (Seq<char>, Seq<char>),
> {
    match date {
        Ok(day) => Ok(
            CreateMealPlanRequest {
                recipe: params.recipe_id,
                title: params.title,
                servings: params.servings,
                date: day,
                meal_type: params.meal_type,
                note: params.note,
            },
        ),
        Err(complaint) => Err(("Invalid date format"@, complaint)),
    }
}

/// `r` is what [`plan_request`] describes.
pub open spec fn is_plan_request(
    r: Result<CreateMealPlanRequest, InvalidParams>,
    expected: Result<CreateMealPlanRequest, (Seq<char>, Seq<char>)>,
) -> bool {
    match expected {
        Ok(request) => r == Ok::<CreateMealPlanRequest, InvalidParams>(request),
        Err((message, complaint)) => {
            &&& r is Err
            &&& r->Err_0.message@ == message
            &&& r->Err_0.error@ == complaint
        },
    }
}

/// The view of what the reading of a date came to.
pub open spec fn date_view(date: Result<CalendarDate, String>) -> Result<CalendarDate, Seq<char>> {
    match date {
        Ok(day) => Ok(day),
        Err(complaint) => Err(complaint@),
    }
}

/// The request for the meal plan that `params` describe, on the day that
/// the reading of its date gave; or the refusal where the date could not be
/// read.
pub fn meal_plan_request(params: CreateMealPlanParams, date: Result<CalendarDate, String>) -> (r:
    Result<CreateMealPlanRequest, InvalidParams>)
    ensures
        is_plan_request(r, plan_request(params, date_view(date))),
{
    match date {
        Ok(day) => Ok(
            CreateMealPlanRequest {
                recipe: params.recipe_id,
                title: params.title,
                servings: params.servings,
                date: day,
                meal_type: params.meal_type,
                note: params.note,
            },
        ),
        Err(complaint) => Err(
            InvalidParams { message: String::from_str("Invalid date format"), error: complaint },
        ),
    }
}

/// The request for the meal plan that `params` describe, or the refusal
/// where its date does not read as a year, a month and a day.
pub fn create_meal_plan_request(params: CreateMealPlanParams) -> (r: Result<
    CreateMealPlanRequest,
    InvalidParams,
>)
    ensures
        is_plan_request(r, plan_request(params, parsed_date(params.date@, day_format()))),
        r is Ok ==> r->Ok_0.date.wf(),
{
    let date = parse_date(params.date.as_str(), "%Y-%m-%d");
    meal_plan_request(params, date)
}

/// What the tool that creates a meal plan hands back.
#[derive(Debug, Clone, PartialEq, Eq)]
pub struct CreatedMealPlan {
    pub plan: MealPlanSummary,
    pub success: bool,
    pub message: String,
}

/// Shapes the answer to the creation of a meal plan.
pub fn create_meal_plan(reply: Result<MealPlan, ClientError>) -> (r: Result<
    CreatedMealPlan,
    ToolFailure,
>)
    ensures
        match reply {
            Err(error) => fails_marked(r, "Failed to create meal plan"@, error.message@),
            Ok(plan) => {
                &&& r is Ok
                &&& r->Ok_0.plan@ == planned(plan)
                &&& r->Ok_0.success
                &&& r->Ok_0.message@ == "Meal plan created successfully"@
            },
        },
{
    match reply {
        Err(error) => Err(ToolFailure::marked("Failed to create meal plan", error.message)),
        Ok(plan) => Ok(
            CreatedMealPlan {
                plan: show_plan(&plan),
                success: true,
                message: String::from_str("Meal plan created successfully"),
            },
        ),
    }
}

/// What the tool that deletes a meal plan hands back.
#[derive(Debug, Clone, PartialEq, Eq)]
pub struct DeletedMealPlan {
    pub id: i32,
    pub success: bool,
    pub message: String,
}

/// Shapes the answer to the deletion of a meal plan.
pub fn delete_meal_plan(params: DeleteMealPlanParams, reply: Result<(), ClientError>) -> (r: Result<
    DeletedMealPlan,
    ToolFailure,
>)
    ensures
        match reply {
            Err(error) => fails_marked(r, "Failed to delete meal plan"@, error.message@),
            Ok(_) => {
                &&& r is Ok
                &&& r->Ok_0.id == params.id
                &&& r->Ok_0.success
                &&& r->Ok_0.message@ == "Meal plan deleted successfully"@
            },
        },
{
    match reply {
        Err(error) => Err(ToolFailure::marked("Failed to delete meal plan", error.message)),
        Ok(_) => Ok(
            DeletedMealPlan {
                id: params.id,
                success: true,
                message: String::from_str("Meal plan deleted successfully"),
            },
        ),
    }
}

/// What the tools tell of one meal type.
#[derive(Debug, Clone, PartialEq, Eq)]
pub struct MealTypeSummary {
    pub id: i32,
    pub name: String,
    pub order: i32,
    pub icon: Option<String>,
    pub color: String,
}

/// `s` is what the tools tell of `meal_type`.
pub open spec fn is_meal_type_summary(s: MealTypeSummary, meal_type: MealType) -> bool {
    &&& s.id == meal_type.id
    &&& s.name@ == meal_type.name@
    &&& s.order == meal_type.order
    &&& opt_view(s.icon) == opt_view(meal_type.icon)
    &&& s.color@ == meal_type.color@
}

/// `summaries` tells of `meal_types`, one for one and in their order.
pub open spec fn are_meal_type_summaries(
    summaries: Seq<MealTypeSummary>,
    meal_types: Seq<MealType>,
) -> bool {
    &&& summaries.len() == meal_types.len()
    &&& forall|i: int|
        0 <= i < summaries.len() ==> is_meal_type_summary(#[trigger] summaries[i], meal_types[i])
}

/// What the reading of meal types hands back.
#[derive(Debug, Clone, PartialEq, Eq)]
pub struct MealTypesReport {
    pub meal_types: Vec<MealTypeSummary>,
    pub total_count: i32,
}

/// Shapes the meal types for the caller.
pub fn get_meal_types(reply: Result<PaginatedResponse<MealType>, ClientError>) -> (r: Result<
    MealTypesReport,
    ToolFailure,
>)
    ensures
        match reply {
            Err(error) => fails_plainly(r, "Failed to get meal types"@, error.message@),
            Ok(page) => {
                &&& r is Ok
                &&& are_meal_type_summaries(r->Ok_0.meal_types@, page.results@)
                &&& r->Ok_0.total_count == page.count
            },
        },
{
    match reply {
        Err(error) => Err(ToolFailure::plain("Failed to get meal types", error.message)),
        Ok(page) => {
            let mut out: Vec<MealTypeSummary> = Vec::new();
            let mut i: usize = 0;
            while i < page.results.len()
                invariant
                    i <= page.results.len(),
                    are_meal_type_summaries(out@, page.results@.take(i as int)),
                decreases page.results.len() - i,
            {
                let meal_type = &page.results[i];
                out.push(
                    MealTypeSummary {
                        id: meal_type.id,
                        name: meal_type.name.clone(),
                        order: meal_type.order,
                        icon: copy_opt(&meal_type.icon),
                        color: meal_type.color.clone(),
                    },
                );
                i = i + 1;
            }
            assert(page.results@.take(page.results.len() as int) =~= page.results@);
            Ok(MealTypesReport { meal_types: out, total_count: page.count })
        },
    }
}

/// One entry of the cook log, as the tools show it.
#[derive(Debug, Clone, PartialEq, Eq)]
pub struct CookLogEntry {
    pub id: i32,
    pub recipe_id: i32,
    pub recipe_name: String,
    pub servings: i32,
    pub rating: Option<i32>,
    pub comment: Option<String>,
    pub created: Timestamp,
    /// The day, in UTC, on which the recipe was cooked; absent where the
    /// calendar cannot name it.
    pub date_cooked: Option<String>,
}

/// `e` is how the tools show the cook log entry `log`.
pub open spec fn is_cook_log_entry(e: CookLogEntry, log: CookLog) -> bool {
    &&& e.id == log.id
    &&& e.recipe_id == log.recipe.id
    &&& e.recipe_name@ == log.recipe.name@
    &&& e.servings == log.servings
    &&& e.rating == log.rating
    &&& opt_view(e.comment) == opt_view(log.comment)
    &&& e.created == log.created
    &&& opt_view(e.date_cooked) == utc_day(log.created.secs as int, day_format())
}

/// `entries` shows `logs`, one for one and in their order.
pub open spec fn are_cook_log_entries(entries: Seq<CookLogEntry>, logs: Seq<CookLog>) -> bool {
    &&& entries.len() == logs.len()
    &&& forall|i: int| 0 <= i < entries.len() ==> is_cook_log_entry(#[trigger] entries[i], logs[i])
}

/// What the reading of the cook log hands back.
#[derive(Debug, Clone, PartialEq, Eq)]
pub struct CookLogReport {
    pub cook_log: Vec<CookLogEntry>,
    pub total_count: i32,
    pub days_back: i32,
    pub recipe_filter: Option<i32>,
}

fn show_log(log: &CookLog) -> (r: CookLogEntry)
    ensures
        is_cook_log_entry(r, *log),
{
    CookLogEntry {
        id: log.id,
        recipe_id: log.recipe.id,
        recipe_name: log.recipe.name.clone(),
        servings: log.servings,
        rating: log.rating,
        comment: copy_opt(&log.comment),
        created: log.created,
        date_cooked: log.created.day(),
    }
}

/// Shapes the cook log for the caller: every entry with the day on which it
/// falls, the count that the service gave, and what was asked for.
pub fn get_cook_log(params: GetCookLogParams, reply: Result<PaginatedResponse<CookLog>, ClientError>) -> (r:
    Result<CookLogReport, ToolFailure>)
    ensures
        match reply {
            Err(error) => fails_plainly(r, "Failed to get cook log"@, error.message@),
            Ok(page) => {
                &&& r is Ok
                &&& are_cook_log_entries(r->Ok_0.cook_log@, page.results@)
                &&& r->Ok_0.total_count == page.count
                &&& r->Ok_0.days_back == params.days_back
                &&& r->Ok_0.recipe_filter == params.recipe_id
            },
        },
{
    match reply {
        Err(error) => Err(ToolFailure::plain("Failed to get cook log", error.message)),
        Ok(page) => {
            let mut out: Vec<CookLogEntry> = Vec::new();
            let mut i: usize = 0;
            while i < page.results.len()
                invariant
                    i <= page.results.len(),
                    are_cook_log_entries(out@, page.results@.take(i as int)),
                decreases page.results.len() - i,
            {
                out.push(show_log(&page.results[i]));
                i = i + 1;
            }
            assert(page.results@.take(page.results.len() as int) =~= page.results@);
            Ok(
                CookLogReport {
                    cook_log: out,
                    total_count: page.count,
                    days_back: params.days_back,
                    recipe_filter: params.recipe_id,
                },
            )
        },
    }
}

/// The request that records the cooking that `params` describe.
pub fn log_cooked_recipe_request(params: LogCookedRecipeParams) -> (r: CreateCookLogRequest)
    ensures
        r == (CreateCookLogRequest {
            recipe: params.recipe_id,
            servings: params.servings,
            rating: params.rating,
            comment: params.comment,
        }),
{
    CreateCookLogRequest {
        recipe: params.recipe_id,
        servings: params.servings,
        rating: params.rating,
        comment: params.comment,
    }
}

/// What the tool that records a cooking hands back.
#[derive(Debug, Clone, PartialEq, Eq)]
pub struct LoggedCooking {
    pub id: i32,
    pub recipe_id: i32,
    pub recipe_name: String,
    pub servings: i32,
    pub rating: Option<i32>,
    pub comment: Option<String>,
    pub created: Timestamp,
    pub success: bool,
    pub message: String,
}

/// Shapes the answer to the recording of a cooking.
pub fn log_cooked_recipe(reply: Result<CookLog, ClientError>) -> (r: Result<
    LoggedCooking,
    ToolFailure,
>)
    ensures
        match reply {
            Err(error) => fails_marked(r, "Failed to log cooked recipe"@, error.message@),
            Ok(log) => {
                &&& r is Ok
                &&& r->Ok_0.id == log.id
                &&& r->Ok_0.recipe_id == log.recipe.id
                &&& r->Ok_0.recipe_name == log.recipe.name
                &&& r->Ok_0.servings == log.servings
                &&& r->Ok_0.rating == log.rating
                &&& r->Ok_0.comment == log.comment
                &&& r->Ok_0.created == log.created
                &&& r->Ok_0.success
                &&& r->Ok_0.message@ == "Recipe cooking logged successfully"@
            },
        },
{
    match reply {
        Err(error) => Err(ToolFailure::marked("Failed to log cooked recipe", error.message)),
        Ok(log) => Ok(
            LoggedCooking {
                id: log.id,
                recipe_id: log.recipe.id,
                recipe_name: log.recipe.name,
                servings: log.servings,
                rating: log.rating,
                comment: log.comment,
                created: log.created,
                success: true,
                message: String::from_str("Recipe cooking logged successfully"),
            },
        ),
    }
}

} // verus!
