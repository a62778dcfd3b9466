//! The recipe tools: searching, reading with scaled servings, creating and
//! importing.

use vstd::prelude::*;
use crate::client::client::ClientError;
use crate::client::types::{
    CreateRecipeRequest,
    CreateStepRequest,
    Keyword,
    Nutrition,
    PaginatedResponse,
    Quantity,
    Recipe,
    Step,
    StepIngredient,
};
use crate::dates::Timestamp;
use crate::server::failure::{
    fails_marked,
    fails_plainly,
    marked_failure,
    opt_view,
    ToolFailure,
    ToolFailureView,
};
use crate::server::shopping::{name_of_unit, unit_name};
use crate::server::{
    CreateRecipeParams,
    GetRecipeDetailsParams,
    ImportRecipeParams,
    SearchRecipesParams,
};
use crate::text::{concat3, copy_opt, decimal_i64, decimal_int, texts};

verus! {

/// A time in minutes that may be missing, a missing one counting for zero.
pub open spec fn minutes(time: Option<i32>) -> int {
    match time {
        Some(n) => n as int,
        None => 0,
    }
}

/// The working and the waiting time of a recipe together, in minutes.
pub open spec fn total_minutes(working: Option<i32>, waiting: Option<i32>) -> int {
    minutes(working) + minutes(waiting)
}

/// The working and the waiting time of a recipe together, in minutes.
pub fn total_time(working: Option<i32>, waiting: Option<i32>) -> (r: i64)
    ensures
        r == total_minutes(working, waiting),
{
    let a: i64 = match working {
        Some(n) => n as i64,
        None => 0,
    };
    let b: i64 = match waiting {
        Some(n) => n as i64,
        None => 0,
    };
    a + b
}

/// The names of a recipe's keywords, in their order.
pub open spec fn keyword_names(keywords: Seq<Keyword>) -> Seq<Seq<char>> {
    keywords.map_values(|k: Keyword| k.name@)
}

/// The names of a recipe's keywords, in their order.
pub fn names_of_keywords(keywords: &Vec<Keyword>) -> (r: Vec<String>)
    ensures
        texts(r@) == keyword_names(keywords@),
{
    let mut names: Vec<String> = Vec::new();
    let mut i: usize = 0;
    while i < keywords.len()
        invariant
            i <= keywords.len(),
            names@.len() == i,
            forall|k: int| 0 <= k < i ==> (#[trigger] names@[k])@ == keywords@[k].name@,
        decreases keywords.len() - i,
    {
        names.push(keywords[i].name.clone());
        i = i + 1;
    }
    assert(texts(names@) =~= keyword_names(keywords@));
    names
}

/// What a recipe search tells of one recipe.
#[derive(Debug, Clone, PartialEq, Eq)]
pub struct RecipeSummary {
    pub id: i32,
    pub name: String,
    pub description: Option<String>,
    pub total_time: i64,
    pub servings: Option<i32>,
    pub keywords: Vec<String>,
    pub created: Timestamp,
    pub updated: Timestamp,
}

/// `s` is what a search tells of `recipe`.
pub open spec fn is_recipe_summary(s: RecipeSummary, recipe: Recipe) -> bool {
    &&& s.id == recipe.id
    &&& s.name@ == recipe.name@
    &&& opt_view(s.description) == opt_view(recipe.description)
    &&& s.total_time == total_minutes(recipe.working_time, recipe.waiting_time)
    &&& s.servings == recipe.servings
    &&& texts(s.keywords@) == keyword_names(recipe.keywords@)
    &&& s.created == recipe.created
    &&& s.updated == recipe.updated
}

/// `summaries` tells of `recipes`, one for one and in their order.
pub open spec fn are_recipe_summaries(summaries: Seq<RecipeSummary>, recipes: Seq<Recipe>) -> bool {
    &&& summaries.len() == recipes.len()
    &&& forall|i: int|
        0 <= i < summaries.len() ==> is_recipe_summary(#[trigger] summaries[i], recipes[i])
}

/// What the recipe search hands back.
#[derive(Debug, Clone, PartialEq, Eq)]
pub struct RecipeSearchReport {
    pub recipes: Vec<RecipeSummary>,
    pub total_count: i32,
    pub search_interpretation: String,
}

/// How a search is put in words: how many recipes the service counts, and
/// what was searched by where anything was.
pub open spec fn interpretation(count: i32, query: Option<String>) -> Seq<char> {
    let found = "Found "@ + decimal_int(count as int) + " recipes"@;
    match query {
        Some(text) => found + " matching '"@ + text@ + "'"@,
        None => found,
    }
}

/// Shapes the result of a recipe search: every recipe found with its total
/// time and the names of its keywords, the count that the service gave, and
/// the search put in words; or the failure of the search.
pub fn search_recipes(
    params: SearchRecipesParams,
    reply: Result<PaginatedResponse<Recipe>, ClientError>,
) -> (r: Result<RecipeSearchReport, ToolFailure>)
    ensures
        match reply {
            Err(error) => fails_plainly(r, "Failed to search recipes"@, error.message@),
            Ok(page) => {
                &&& r is Ok
                &&& are_recipe_summaries(r->Ok_0.recipes@, page.results@)
                &&& r->Ok_0.total_count == page.count
                &&& r->Ok_0.search_interpretation@ == interpretation(page.count, params.query)
            },
        },
{
    match reply {
        Err(error) => Err(ToolFailure::plain("Failed to search recipes", error.message)),
        Ok(page) => {
            let mut recipes: Vec<RecipeSummary> = Vec::new();
            let mut i: usize = 0;
            while i < page.results.len()
                invariant
                    i <= page.results.len(),
                    are_recipe_summaries(recipes@, page.results@.take(i as int)),
                decreases page.results.len() - i,
            {
                let recipe = &page.results[i];
                recipes.push(
                    RecipeSummary {
                        id: recipe.id,
                        name: recipe.name.clone(),
                        description: copy_opt(&recipe.description),
                        total_time: total_time(recipe.working_time, recipe.waiting_time),
                        servings: recipe.servings,
                        keywords: names_of_keywords(&recipe.keywords),
                        created: recipe.created,
                        updated: recipe.updated,
                    },
                );
                i = i + 1;
            }
            assert(page.results@.take(page.results.len() as int) =~= page.results@);
            let count = decimal_i64(page.count as i64);
            let mut words = concat3("Found ", count.as_str(), " recipes");
            match &params.query {
                Some(text) => {
                    words.append(" matching '");
                    words.append(text.as_str());
                    words.append("'");
                },
                None => {},
            }
            Ok(
                RecipeSearchReport {
                    recipes,
                    total_count: page.count,
                    search_interpretation: words,
                },
            )
        },
    }
}

/// One ingredient as the recipe tool shows it. The amount is the recipe's
/// own; see [`Scaling`].
#[derive(Debug, Clone, PartialEq, Eq)]
pub struct IngredientLine {
    pub food: String,
    pub amount: Quantity,
    pub unit: Option<String>,
    pub note: Option<String>,
    pub is_header: bool,
    pub no_amount: bool,
}

/// An ingredient line as the contracts see it.
pub struct IngredientLineView {
    pub food: Seq<char>,
    pub amount: Quantity,
    pub unit: Option<Seq<char>>,
    pub note: Option<Seq<char>>,
    pub is_header: bool,
    pub no_amount: bool,
}

impl View for IngredientLine {
    type V = IngredientLineView;

    open spec fn view(&self) -> IngredientLineView {
        IngredientLineView {
            food: self.food@,
            amount: self.amount,
            unit: opt_view(self.unit),
            note: opt_view(self.note),
            is_header: self.is_header,
            no_amount: self.no_amount,
        }
    }
}

/// The views of a list of ingredient lines.
pub open spec fn line_views(lines: Seq<IngredientLine>) -> Seq<IngredientLineView> {
    lines.map_values(|l: IngredientLine| l@)
}

/// How the recipe tool shows an ingredient.
pub open spec fn line_of(ingredient: StepIngredient) -> IngredientLineView {
    IngredientLineView {
        food: ingredient.food.name@,
        amount: ingredient.amount,
        unit: unit_name(ingredient.unit),
        note: opt_view(ingredient.note),
        is_header: ingredient.is_header,
        no_amount: ingredient.no_amount,
    }
}

/// The ingredients of all steps, step after step, as the recipe tool shows
/// them.
pub open spec fn lines_of(steps: Seq<Step>) -> Seq<IngredientLineView> {
    steps.map_values(|s: Step| s.ingredients@.map_values(|i: StepIngredient| line_of(i))).flatten()
}

/// How the recipe tool words a step: the instruction alone, or the step's
/// name, a colon and the instruction where the step has a name.
pub open spec fn worded(step: Step) -> Seq<char> {
    if step.name@.len() == 0 {
        step.instruction@
    } else {
        step.name@ + ": "@ + step.instruction@
    }
}

/// The steps of a recipe, worded, in their order.
pub open spec fn all_worded(steps: Seq<Step>) -> Seq<Seq<char>> {
    steps.map_values(|s: Step| worded(s))
}

/// The ratio by which the amounts of a recipe are to be multiplied: the
/// servings asked for over the servings that the recipe is written for.
#[derive(Debug, Clone, Copy, PartialEq, Eq)]
pub struct Scaling {
    pub target: i32,
    pub written: i32,
}

/// The ratio to scale by: there is one where servings are asked for and the
/// recipe says for how many it is written.
pub open spec fn scaling_of(asked: Option<i32>, written: Option<i32>) -> Option<Scaling> {
    match (asked, written) {
        (Some(target), Some(written)) => Some(Scaling { target, written }),
        _ => None,
    }
}

/// Whether scaling changes anything: there is a ratio, and it is not one.
/// A ratio over zero servings counts as a change.
pub open spec fn scales(scaling: Option<Scaling>) -> bool {
    match scaling {
        Some(ratio) => ratio.target != ratio.written || ratio.written == 0,
        None => false,
    }
}

/// The servings shown: those asked for, else those the recipe is written
/// for, else one.
pub open spec fn servings_shown(asked: Option<i32>, written: Option<i32>) -> i32 {
    match asked {
        Some(n) => n,
        None => match written {
            Some(n) => n,
            None => 1,
        },
    }
}

/// What the recipe tool hands back.
#[derive(Debug, Clone, PartialEq, Eq)]
pub struct RecipeDetails {
    pub id: i32,
    pub name: String,
    pub description: Option<String>,
    pub instructions: Vec<String>,
    pub ingredients: Vec<IngredientLine>,
    pub servings: i32,
    pub working_time: Option<i32>,
    pub waiting_time: Option<i32>,
    pub total_time: i64,
    pub keywords: Vec<String>,
    pub nutrition: Option<Nutrition>,
    pub created: Timestamp,
    pub updated: Timestamp,
    /// The ratio by which every amount is to be multiplied, if any.
    pub scaling: Option<Scaling>,
    pub scaling_applied: bool,
}

/// `d` is what the recipe tool tells of `recipe` where `asked` servings are
/// asked for.
pub open spec fn is_recipe_details(d: RecipeDetails, recipe: Recipe, asked: Option<i32>) -> bool {
    &&& d.id == recipe.id
    &&& d.name@ == recipe.name@
    &&& opt_view(d.description) == opt_view(recipe.description)
    &&& texts(d.instructions@) == all_worded(recipe.steps@)
    &&& line_views(d.ingredients@) == lines_of(recipe.steps@)
    &&& d.servings == servings_shown(asked, recipe.servings)
    &&& d.working_time == recipe.working_time
    &&& d.waiting_time == recipe.waiting_time
    &&& d.total_time == total_minutes(recipe.working_time, recipe.waiting_time)
    &&& texts(d.keywords@) == keyword_names(recipe.keywords@)
    &&& d.nutrition == recipe.nutrition
    &&& d.created == recipe.created
    &&& d.updated == recipe.updated
    &&& d.scaling == scaling_of(asked, recipe.servings)
    &&& d.scaling_applied == scales(d.scaling)
}

fn lines(steps: &Vec<Step>) -> (r: Vec<IngredientLine>)
    ensures
        line_views(r@) == lines_of(steps@),
{
    let ghost per_step = |s: Step| s.ingredients@.map_values(|i: StepIngredient| line_of(i));
    let mut out: Vec<IngredientLine> = Vec::new();
    let mut s: usize = 0;
    proof {
        assert(steps@.take(0).map_values(per_step) =~= Seq::<Seq<IngredientLineView>>::empty());
        assert(line_views(out@) =~= steps@.take(0).map_values(per_step).flatten());
    }
    while s < steps.len()
        invariant
            s <= steps.len(),
            per_step == |s: Step| s.ingredients@.map_values(|i: StepIngredient| line_of(i)),
            line_views(out@) == steps@.take(s as int).map_values(per_step).flatten(),
        decreases steps.len() - s,
    {
        let ghost done = line_views(out@);
        let ingredients = &steps[s].ingredients;
        let mut j: usize = 0;
        proof {
            assert(done + per_step(steps@[s as int]).take(0) =~= done);
        }
        while j < ingredients.len()
            invariant
                j <= ingredients.len(),
                ingredients@ == steps@[s as int].ingredients@,
                per_step == |s: Step| s.ingredients@.map_values(|i: StepIngredient| line_of(i)),
                line_views(out@) == done + per_step(steps@[s as int]).take(j as int),
            decreases ingredients.len() - j,
        {
            let ingredient = &ingredients[j];
            let ghost before = line_views(out@);
            let line = IngredientLine {
                food: ingredient.food.name.clone(),
                amount: ingredient.amount,
                unit: name_of_unit(&ingredient.unit),
                note: copy_opt(&ingredient.note),
                is_header: ingredient.is_header,
                no_amount: ingredient.no_amount,
            };
            out.push(line);
            proof {
                assert(line_views(out@) =~= before.push(line@));
                assert(per_step(steps@[s as int]).take(j + 1) =~= per_step(
                    steps@[s as int],
                ).take(j as int).push(line_of(ingredients@[j as int])));
                assert(line_views(out@) =~= done + per_step(steps@[s as int]).take(j + 1));
            }
            j = j + 1;
        }
        proof {
            assert(per_step(steps@[s as int]).take(ingredients.len() as int) =~= per_step(
                steps@[s as int],
            ));
            assert(steps@.take(s + 1).map_values(per_step) =~= steps@.take(s as int).map_values(
                per_step,
            ).push(per_step(steps@[s as int])));
            steps@.take(s as int).map_values(per_step).lemma_flatten_push(
                per_step(steps@[s as int]),
            );
        }
        s = s + 1;
    }
    assert(steps@.take(steps.len() as int) =~= steps@);
    out
}

fn wordings(steps: &Vec<Step>) -> (r: Vec<String>)
    ensures
        texts(r@) == all_worded(steps@),
{
    let mut out: Vec<String> = Vec::new();
    let mut i: usize = 0;
    while i < steps.len()
        invariant
            i <= steps.len(),
            out@.len() == i,
            forall|k: int| 0 <= k < i ==> (#[trigger] out@[k])@ == worded(steps@[k]),
        decreases steps.len() - i,
    {
        let step = &steps[i];
        let words = if step.name.as_str().unicode_len() == 0 {
            step.instruction.clone()
        } else {
            concat3(step.name.as_str(), ": ", step.instruction.as_str())
        };
        out.push(words);
        i = i + 1;
    }
    assert(texts(out@) =~= all_worded(steps@));
    out
}

/// Shapes a recipe for the caller: its steps worded, the ingredients of all
/// its steps, the servings shown, the ratio to scale the amounts by and
/// whether that changes anything; or the failure of the reading.
pub fn get_recipe_details(params: GetRecipeDetailsParams, reply: Result<Recipe, ClientError>) -> (r:
    Result<RecipeDetails, ToolFailure>)
    ensures
        match reply {
            Err(error) => fails_plainly(r, "Failed to get recipe details"@, error.message@),
            Ok(recipe) => r is Ok && is_recipe_details(r->Ok_0, recipe, params.servings),
        },
{
    match reply {
        Err(error) => Err(ToolFailure::plain("Failed to get recipe details", error.message)),
        Ok(recipe) => {
            let scaling = match (params.servings, recipe.servings) {
                (Some(target), Some(written)) => Some(Scaling { target, written }),
                _ => None,
            };
            let scaling_applied = match scaling {
                Some(ratio) => ratio.target != ratio.written || ratio.written == 0,
                None => false,
            };
            let servings = match params.servings {
                Some(n) => n,
                None => match recipe.servings {
                    Some(n) => n,
                    None => 1,
                },
            };
            let instructions = wordings(&recipe.steps);
            let ingredients = lines(&recipe.steps);
            let keywords = names_of_keywords(&recipe.keywords);
            Ok(
                RecipeDetails {
                    id: recipe.id,
                    name: recipe.name,
                    description: recipe.description,
                    instructions,
                    ingredients,
                    servings,
                    working_time: recipe.working_time,
                    waiting_time: recipe.waiting_time,
                    total_time: total_time(recipe.working_time, recipe.waiting_time),
                    keywords,
                    nutrition: recipe.nutrition,
                    created: recipe.created,
                    updated: recipe.updated,
                    scaling,
                    scaling_applied,
                },
            )
        },
    }
}

/// A time in minutes that may be missing, a missing one counting for zero.
pub fn minutes_or_zero(time: Option<i32>) -> (r: i32)
    ensures
        r == minutes(time),
{
    match time {
        Some(n) => n,
        None => 0,
    }
}

/// `request` asks for the recipe that `params` describe: the times that are
/// not given count for zero, there are no keywords, and the instructions, if
/// any, make one step.
pub open spec fn is_creation_of(request: CreateRecipeRequest, params: CreateRecipeParams) -> bool {
    &&& request.name == params.name
    &&& request.description == params.description
    &&& request.servings == params.servings
    &&& request.working_time == minutes(params.prep_time)
    &&& request.waiting_time == minutes(params.cook_time)
    &&& request.keywords@.len() == 0
    &&& match params.instructions {
        Some(text) => {
            &&& request.steps@.len() == 1
            &&& request.steps@[0].name is None
            &&& request.steps@[0].instruction == text
            &&& request.steps@[0].ingredients@.len() == 0
            &&& request.steps@[0].time is None
            &&& request.steps@[0].order == 0
        },
        None => request.steps@.len() == 0,
    }
}

/// The request that creates the recipe that `params` describe.
pub fn create_recipe_request(params: CreateRecipeParams) -> (r: CreateRecipeRequest)
    ensures
        is_creation_of(r, params),
{
    let mut steps: Vec<CreateStepRequest> = Vec::new();
    match params.instructions {
        Some(text) => {
            steps.push(
                CreateStepRequest {
                    name: None,
                    instruction: text,
                    ingredients: Vec::new(),
                    time: None,
                    order: 0,
                },
            );
        },
        None => {},
    }
    CreateRecipeRequest {
        name: params.name,
        description: params.description,
        servings: params.servings,
        working_time: minutes_or_zero(params.prep_time),
        waiting_time: minutes_or_zero(params.cook_time),
        keywords: Vec::new(),
        steps,
    }
}

/// What the creating tool hands back.
#[derive(Debug, Clone, PartialEq, Eq)]
pub struct CreatedRecipe {
    pub id: i32,
    pub name: String,
    pub description: Option<String>,
    pub servings: Option<i32>,
    pub working_time: Option<i32>,
    pub waiting_time: Option<i32>,
    pub created: Timestamp,
    pub success: bool,
    pub message: String,
}

/// Shapes the answer to the creation of a recipe.
pub fn create_recipe(reply: Result<Recipe, ClientError>) -> (r: Result<CreatedRecipe, ToolFailure>)
    ensures
        match reply {
            Err(error) => fails_marked(r, "Failed to create recipe"@, error.message@),
            Ok(recipe) => {
                &&& r is Ok
                &&& r->Ok_0.id == recipe.id
                &&& r->Ok_0.name == recipe.name
                &&& r->Ok_0.description == recipe.description
                &&& r->Ok_0.servings == recipe.servings
                &&& r->Ok_0.working_time == recipe.working_time
                &&& r->Ok_0.waiting_time == recipe.waiting_time
                &&& r->Ok_0.created == recipe.created
                &&& r->Ok_0.success
                &&& r->Ok_0.message@ == "Recipe created successfully"@
            },
        },
{
    match reply {
        Err(error) => Err(ToolFailure::marked("Failed to create recipe", error.message)),
        Ok(recipe) => Ok(
            CreatedRecipe {
                id: recipe.id,
                name: recipe.name,
                description: recipe.description,
                servings: recipe.servings,
                working_time: recipe.working_time,
                waiting_time: recipe.waiting_time,
                created: recipe.created,
                success: true,
                message: String::from_str("Recipe created successfully"),
            },
        ),
    }
}

/// What the importing tool hands back.
#[derive(Debug, Clone, PartialEq, Eq)]
pub struct ImportedRecipe {
    pub id: i32,
    pub name: String,
    pub description: Option<String>,
    pub imported_from: String,
    pub success: bool,
    pub message: String,
}

/// The failure of an import from the page at `url`.
pub open spec fn import_failure(url: Seq<char>, details: Seq<char>) -> ToolFailureView {
    ToolFailureView { url: Some(url), ..marked_failure("Failed to import recipe"@, details) }
}

/// Shapes the answer to the import of a recipe.
pub fn import_recipe_from_url(params: ImportRecipeParams, reply: Result<Recipe, ClientError>) -> (r:
    Result<ImportedRecipe, ToolFailure>)
    ensures
        match reply {
            Err(error) => r is Err && r->Err_0@ == import_failure(params.url@, error.message@),
            Ok(recipe) => {
                &&& r is Ok
                &&& r->Ok_0.id == recipe.id
                &&& r->Ok_0.name == recipe.name
                &&& r->Ok_0.description == recipe.description
                &&& r->Ok_0.imported_from == params.url
                &&& r->Ok_0.success
                &&& r->Ok_0.message@ == "Recipe imported successfully"@
            },
        },
{
    match reply {
        Err(error) => {
            let mut failure = ToolFailure::marked("Failed to import recipe", error.message);
            failure.url = Some(params.url);
            Err(failure)
        },
        Ok(recipe) => Ok(
            ImportedRecipe {
                id: recipe.id,
                name: recipe.name,
                description: recipe.description,
                imported_from: params.url,
                success: true,
                message: String::from_str("Recipe imported successfully"),
            },
        ),
    }
}

} // verus!
