use mcp_tandoor::client::client::{ClientError, RemoteErrorKind};
use mcp_tandoor::client::types::{
    CookLog, CreateCookLogRequest, CreateMealPlanRequest, Food, Keyword, MealPlan, MealType,
    Nutrition, PaginatedResponse, Quantity, Recipe, Step, StepIngredient, Unit,
};
use mcp_tandoor::dates::{CalendarDate, Timestamp};
use mcp_tandoor::client::auth::{AuthError, AuthErrorKind};
use mcp_tandoor::server::catalog::{
    authentication_failure, get_keywords, get_units, session_unavailable_failure, KeywordSummary,
    UnitSummary,
};
use mcp_tandoor::server::planning::{
    create_meal_plan, create_meal_plan_request, delete_meal_plan, get_cook_log, get_meal_plans,
    get_meal_types, log_cooked_recipe, log_cooked_recipe_request, meal_plan_request,
    MealPlanSummary, MealTypeSummary,
};
use mcp_tandoor::server::recipes::{
    create_recipe, create_recipe_request, get_recipe_details, import_recipe_from_url,
    minutes_or_zero, names_of_keywords, search_recipes, total_time, IngredientLine, Scaling,
};
use mcp_tandoor::server::{
    default_days_back, default_servings, CreateMealPlanParams, CreateRecipeParams,
    DeleteMealPlanParams, GetCookLogParams, GetMealPlansParams, GetRecipeDetailsParams,
    ImportRecipeParams, LogCookedRecipeParams, SearchRecipesParams,
};

fn at(secs: i64) -> Timestamp {
    Timestamp { secs, nanos: 0 }
}

fn quantity(value: f64) -> Quantity {
    Quantity { bits: value.to_bits() }
}

fn food(id: i32, name: &str) -> Food {
    Food {
        id,
        name: name.to_string(),
        plural_name: None,
        description: None,
        recipe: None,
        food_onhand: false,
        supermarket_category: None,
        inherit_fields: vec![],
        properties: vec![],
    }
}

fn unit(name: &str) -> Unit {
    Unit {
        id: 1,
        name: name.to_string(),
        plural_name: Some(format!("{}s", name)),
        description: None,
        base_unit: Some("g".to_string()),
        type_: Some("weight".to_string()),
    }
}

fn keyword(id: i32, name: &str) -> Keyword {
    Keyword {
        id,
        name: name.to_string(),
        description: Some(format!("about {}", name)),
        created: at(1),
        updated: at(2),
    }
}

fn ingredient(name: &str, amount: f64, unit_name: Option<&str>) -> StepIngredient {
    StepIngredient {
        id: 1,
        food: food(1, name),
        unit: unit_name.map(unit),
        amount: quantity(amount),
        note: None,
        order: 0,
        is_header: false,
        no_amount: false,
    }
}

fn step(name: &str, instruction: &str, ingredients: Vec<StepIngredient>) -> Step {
    Step {
        id: 1,
        name: name.to_string(),
        instruction: instruction.to_string(),
        ingredients,
        time: None,
        order: 0,
        file: None,
    }
}

fn recipe(id: i32, name: &str) -> Recipe {
    Recipe {
        id,
        name: name.to_string(),
        description: Some("tasty".to_string()),
        instructions: None,
        servings: Some(4),
        working_time: Some(30),
        waiting_time: Some(15),
        created: at(100),
        updated: at(200),
        internal: true,
        show_ingredient_overview: false,
        keywords: vec![keyword(1, "quick"), keyword(2, "vegan")],
        steps: vec![],
        nutrition: None,
    }
}

fn meal_type(id: i32, name: &str) -> MealType {
    MealType {
        id,
        name: name.to_string(),
        order: id,
        color: "#fff".to_string(),
        default: false,
        created_by: 1,
        icon: None,
    }
}

fn plan(id: i32, kind: &str, with_recipe: bool) -> MealPlan {
    MealPlan {
        id,
        title: Some(format!("plan {}", id)),
        recipe: if with_recipe { Some(recipe(70 + id, "Soup")) } else { None },
        servings: 2,
        note: None,
        date: CalendarDate { year: 2024, month: 5, day: id as u32 },
        meal_type: meal_type(1, kind),
        created: at(10),
        updated: at(20),
        created_by: 1,
    }
}

fn page<T>(results: Vec<T>) -> PaginatedResponse<T> {
    PaginatedResponse { count: results.len() as i32, next: None, previous: None, results }
}

fn failure(message: &str) -> ClientError {
    ClientError { kind: RemoteErrorKind::ServerError, message: message.to_string() }
}

#[test]
fn total_time_adds_what_is_given() {
    assert_eq!(total_time(Some(30), Some(15)), 45);
    assert_eq!(total_time(None, Some(15)), 15);
    assert_eq!(total_time(Some(30), None), 30);
    assert_eq!(total_time(None, None), 0);
    assert_eq!(total_time(Some(i32::MAX), Some(i32::MAX)), 4294967294);
    assert_eq!(total_time(Some(i32::MIN), Some(i32::MIN)), -4294967296);
    assert_eq!(minutes_or_zero(None), 0);
    assert_eq!(minutes_or_zero(Some(-3)), -3);
}

#[test]
fn keyword_names_keep_their_order() {
    assert_eq!(
        names_of_keywords(&vec![keyword(1, "b"), keyword(2, "a")]),
        vec!["b".to_string(), "a".to_string()]
    );
    assert_eq!(names_of_keywords(&vec![]), Vec::<String>::new());
}

#[test]
fn recipe_search_report() {
    let mut bare = recipe(2, "Toast");
    bare.description = None;
    bare.servings = None;
    bare.working_time = None;
    bare.waiting_time = None;
    bare.keywords = vec![];
    let mut found = page(vec![recipe(1, "Curry"), bare]);
    found.count = 31;
    let params = SearchRecipesParams { query: Some("cu'rry".to_string()), limit: Some(2) };
    let report = search_recipes(params, Ok(found)).expect("a report");
    assert_eq!(report.total_count, 31);
    assert_eq!(report.search_interpretation, "Found 31 recipes matching 'cu'rry'");
    assert_eq!(report.recipes.len(), 2);
    assert_eq!(report.recipes[0].id, 1);
    assert_eq!(report.recipes[0].name, "Curry");
    assert_eq!(report.recipes[0].description, Some("tasty".to_string()));
    assert_eq!(report.recipes[0].total_time, 45);
    assert_eq!(report.recipes[0].servings, Some(4));
    assert_eq!(report.recipes[0].keywords, vec!["quick".to_string(), "vegan".to_string()]);
    assert_eq!(report.recipes[0].created, at(100));
    assert_eq!(report.recipes[0].updated, at(200));
    assert_eq!(report.recipes[1].name, "Toast");
    assert_eq!(report.recipes[1].description, None);
    assert_eq!(report.recipes[1].total_time, 0);
    assert_eq!(report.recipes[1].servings, None);
    assert!(report.recipes[1].keywords.is_empty());
}

#[test]
fn recipe_search_without_a_query_or_with_a_failure() {
    let params = SearchRecipesParams { query: None, limit: None };
    let report = search_recipes(params, Ok(page(vec![]))).expect("a report");
    assert_eq!(report.search_interpretation, "Found 0 recipes");
    assert!(report.recipes.is_empty());
    let mut odd: PaginatedResponse<Recipe> = page(vec![]);
    odd.count = -4;
    let params = SearchRecipesParams { query: Some("".to_string()), limit: None };
    let report = search_recipes(params, Ok(odd)).expect("a report");
    assert_eq!(report.search_interpretation, "Found -4 recipes matching ''");
    let params = SearchRecipesParams { query: None, limit: None };
    let failed = search_recipes(params, Err(failure("no"))).expect_err("a failure");
    assert_eq!(failed.error, "Failed to search recipes");
    assert_eq!(failed.details, Some("no".to_string()));
    assert_eq!(failed.success, None);
}

#[test]
fn recipe_details_word_steps_and_list_ingredients() {
    let mut full = recipe(3, "Pancakes");
    full.nutrition = Some(Nutrition {
        calories: Some(quantity(220.5)),
        proteins: None,
        fats: None,
        carbs: Some(quantity(30.0)),
    });
    let mut heading = ingredient("Batter", 0.0, None);
    heading.is_header = true;
    heading.note = Some("first".to_string());
    full.steps = vec![
        step("Preparation", "Mix it", vec![heading, ingredient("Flour", 250.0, Some("gram"))]),
        step("", "Rest", vec![]),
        step("Cooking", "Fry it", vec![ingredient("Butter", 1.5, None)]),
    ];
    let details =
        get_recipe_details(GetRecipeDetailsParams { id: 3, servings: None }, Ok(full)).expect("details");
    assert_eq!(details.id, 3);
    assert_eq!(details.name, "Pancakes");
    assert_eq!(details.description, Some("tasty".to_string()));
    assert_eq!(
        details.instructions,
        vec!["Preparation: Mix it".to_string(), "Rest".to_string(), "Cooking: Fry it".to_string()]
    );
    assert_eq!(
        details.ingredients,
        vec![
            IngredientLine {
                food: "Batter".to_string(),
                amount: quantity(0.0),
                unit: None,
                note: Some("first".to_string()),
                is_header: true,
                no_amount: false,
            },
            IngredientLine {
                food: "Flour".to_string(),
                amount: quantity(250.0),
                unit: Some("gram".to_string()),
                note: None,
                is_header: false,
                no_amount: false,
            },
            IngredientLine {
                food: "Butter".to_string(),
                amount: quantity(1.5),
                unit: None,
                note: None,
                is_header: false,
                no_amount: false,
            },
        ]
    );
    assert_eq!(details.servings, 4);
    assert_eq!(details.working_time, Some(30));
    assert_eq!(details.waiting_time, Some(15));
    assert_eq!(details.total_time, 45);
    assert_eq!(details.keywords, vec!["quick".to_string(), "vegan".to_string()]);
    assert_eq!(details.nutrition.unwrap().calories, Some(quantity(220.5)));
    assert_eq!(details.created, at(100));
    assert_eq!(details.updated, at(200));
    assert_eq!(details.scaling, None);
    assert!(!details.scaling_applied);
}

#[test]
fn recipe_details_scale_by_the_servings_asked_for() {
    let scaled = |asked: Option<i32>, written: Option<i32>| {
        let mut r = recipe(1, "x");
        r.servings = written;
        let d = get_recipe_details(GetRecipeDetailsParams { id: 1, servings: asked }, Ok(r)).unwrap();
        (d.servings, d.scaling, d.scaling_applied)
    };
    assert_eq!(scaled(Some(8), Some(4)), (8, Some(Scaling { target: 8, written: 4 }), true));
    assert_eq!(scaled(Some(4), Some(4)), (4, Some(Scaling { target: 4, written: 4 }), false));
    assert_eq!(scaled(Some(2), None), (2, None, false));
    assert_eq!(scaled(None, Some(6)), (6, None, false));
    assert_eq!(scaled(None, None), (1, None, false));
    assert_eq!(scaled(Some(3), Some(0)), (3, Some(Scaling { target: 3, written: 0 }), true));
    assert_eq!(scaled(Some(0), Some(0)), (0, Some(Scaling { target: 0, written: 0 }), true));
}

#[test]
fn recipe_details_of_a_missing_recipe() {
    let failed = get_recipe_details(
        GetRecipeDetailsParams { id: 999999, servings: None },
        Err(ClientError {
            kind: RemoteErrorKind::NotFound,
            message: "Failed to get recipe: 404 Not Found".to_string(),
        }),
    )
    .expect_err("a failure");
    assert_eq!(failed.error, "Failed to get recipe details");
    assert_eq!(failed.details, Some("Failed to get recipe: 404 Not Found".to_string()));
}

#[test]
fn recipe_creation_request_and_answer() {
    let params = CreateRecipeParams {
        name: "Porridge".to_string(),
        description: Some("warm".to_string()),
        instructions: Some("Boil oats.".to_string()),
        servings: Some(2),
        prep_time: Some(5),
        cook_time: None,
    };
    let request = create_recipe_request(params);
    assert_eq!(request.name, "Porridge");
    assert_eq!(request.description, Some("warm".to_string()));
    assert_eq!(request.servings, Some(2));
    assert_eq!(request.working_time, 5);
    assert_eq!(request.waiting_time, 0);
    assert!(request.keywords.is_empty());
    assert_eq!(request.steps.len(), 1);
    assert_eq!(request.steps[0].name, None);
    assert_eq!(request.steps[0].instruction, "Boil oats.");
    assert!(request.steps[0].ingredients.is_empty());
    assert_eq!(request.steps[0].time, None);
    assert_eq!(request.steps[0].order, 0);

    let bare = create_recipe_request(CreateRecipeParams {
        name: "Water".to_string(),
        description: None,
        instructions: None,
        servings: None,
        prep_time: None,
        cook_time: Some(1),
    });
    assert!(bare.steps.is_empty());
    assert_eq!(bare.working_time, 0);
    assert_eq!(bare.waiting_time, 1);

    let created = create_recipe(Ok(recipe(17, "Porridge"))).expect("created");
    assert_eq!(created.id, 17);
    assert_eq!(created.name, "Porridge");
    assert_eq!(created.servings, Some(4));
    assert_eq!(created.working_time, Some(30));
    assert_eq!(created.waiting_time, Some(15));
    assert_eq!(created.created, at(100));
    assert!(created.success);
    assert_eq!(created.message, "Recipe created successfully");

    let failed = create_recipe(Err(failure("Failed to create recipe: 400 Bad Request")))
        .expect_err("a failure");
    assert_eq!(failed.error, "Failed to create recipe");
    assert_eq!(failed.details, Some("Failed to create recipe: 400 Bad Request".to_string()));
    assert_eq!(failed.success, Some(false));
}

#[test]
fn recipe_import_answer() {
    let params = ImportRecipeParams { url: "https://example.org/soup".to_string() };
    let imported = import_recipe_from_url(params.clone(), Ok(recipe(4, "Soup"))).expect("imported");
    assert_eq!(imported.id, 4);
    assert_eq!(imported.name, "Soup");
    assert_eq!(imported.description, Some("tasty".to_string()));
    assert_eq!(imported.imported_from, "https://example.org/soup");
    assert!(imported.success);
    assert_eq!(imported.message, "Recipe imported successfully");
    let failed = import_recipe_from_url(params, Err(failure("nope"))).expect_err("a failure");
    assert_eq!(failed.error, "Failed to import recipe");
    assert_eq!(failed.url, Some("https://example.org/soup".to_string()));
    assert_eq!(failed.details, Some("nope".to_string()));
    assert_eq!(failed.success, Some(false));
    assert_eq!(failed.message, None);
}

#[test]
fn meal_plans_pass_the_filter_without_regard_to_case() {
    let plans = vec![
        plan(1, "Breakfast", true),
        plan(2, "Dinner", false),
        plan(3, "breakfast", false),
        plan(4, "BREAKFAST!", true),
    ];
    let params = GetMealPlansParams {
        from_date: "2024-05-01".to_string(),
        to_date: "2024-05-07".to_string(),
        meal_type: Some("BreakFast".to_string()),
    };
    let mut found = page(plans.clone());
    found.count = 90;
    let report = get_meal_plans(params, Ok(found)).expect("a report");
    assert_eq!(report.total_count, 2);
    assert_eq!(report.date_range, "2024-05-01 to 2024-05-07");
    assert_eq!(report.meal_type_filter, Some("BreakFast".to_string()));
    assert_eq!(
        report.meal_plans,
        vec![
            MealPlanSummary {
                id: 1,
                date: CalendarDate { year: 2024, month: 5, day: 1 },
                meal_type: "Breakfast".to_string(),
                recipe_id: Some(71),
                recipe_name: Some("Soup".to_string()),
                title: Some("plan 1".to_string()),
                servings: 2,
                note: None,
                created: at(10),
            },
            MealPlanSummary {
                id: 3,
                date: CalendarDate { year: 2024, month: 5, day: 3 },
                meal_type: "breakfast".to_string(),
                recipe_id: None,
                recipe_name: None,
                title: Some("plan 3".to_string()),
                servings: 2,
                note: None,
                created: at(10),
            },
        ]
    );
    let params = GetMealPlansParams {
        from_date: "a".to_string(),
        to_date: "b".to_string(),
        meal_type: None,
    };
    let report = get_meal_plans(params, Ok(page(plans))).expect("a report");
    assert_eq!(report.total_count, 4);
    assert_eq!(report.meal_plans.len(), 4);
    assert_eq!(report.date_range, "a to b");
    assert_eq!(report.meal_type_filter, None);
    let params = GetMealPlansParams {
        from_date: "a".to_string(),
        to_date: "b".to_string(),
        meal_type: None,
    };
    let failed = get_meal_plans(params, Err(failure("x"))).expect_err("a failure");
    assert_eq!(failed.error, "Failed to get meal plans");
}

fn plan_params(date: &str) -> CreateMealPlanParams {
    CreateMealPlanParams {
        recipe_id: Some(3),
        title: Some("Sunday roast".to_string()),
        servings: 6,
        date: date.to_string(),
        meal_type: 2,
        note: Some("guests".to_string()),
    }
}

#[test]
fn meal_plan_request_reads_its_date() {
    let request = create_meal_plan_request(plan_params("2024-02-29")).expect("a leap day");
    assert_eq!(
        request,
        CreateMealPlanRequest {
            recipe: Some(3),
            title: Some("Sunday roast".to_string()),
            servings: 6,
            date: CalendarDate { year: 2024, month: 2, day: 29 },
            meal_type: 2,
            note: Some("guests".to_string()),
        }
    );
    let request = create_meal_plan_request(plan_params("1999-12-31")).expect("a day");
    assert_eq!(request.date, CalendarDate { year: 1999, month: 12, day: 31 });
    let request = create_meal_plan_request(plan_params("2024-1-5")).expect("a day");
    assert_eq!(request.date, CalendarDate { year: 2024, month: 1, day: 5 });
}

#[test]
fn meal_plan_request_refuses_what_is_no_date() {
    for text in ["2023-02-29", "29.02.2024", "", "2024-13-01", "tomorrow", "2024-01-01T10:00"] {
        let refused = create_meal_plan_request(plan_params(text)).expect_err("no date");
        assert_eq!(refused.message, "Invalid date format");
        assert!(!refused.error.is_empty());
        assert_ne!(refused.error, text);
    }
    let refused = create_meal_plan_request(plan_params("2023-02-29")).unwrap_err();
    assert_eq!(refused.error, "input is out of range");
    let refused = create_meal_plan_request(plan_params("tomorrow")).unwrap_err();
    assert_eq!(refused.error, "input contains invalid characters");
}

#[test]
fn meal_plan_request_from_a_date_that_was_read() {
    let day = CalendarDate { year: 2030, month: 1, day: 2 };
    let request = meal_plan_request(plan_params("whatever"), Ok(day)).expect("a request");
    assert_eq!(request.date, day);
    assert_eq!(request.recipe, Some(3));
    assert_eq!(request.servings, 6);
    assert_eq!(request.meal_type, 2);
    let refused =
        meal_plan_request(plan_params("whatever"), Err("bad".to_string())).expect_err("refused");
    assert_eq!(refused.message, "Invalid date format");
    assert_eq!(refused.error, "bad");
}

#[test]
fn meal_plan_creation_and_deletion_answers() {
    let created = create_meal_plan(Ok(plan(5, "Lunch", true))).expect("created");
    assert_eq!(created.plan.id, 5);
    assert_eq!(created.plan.meal_type, "Lunch");
    assert_eq!(created.plan.recipe_id, Some(75));
    assert_eq!(created.plan.recipe_name, Some("Soup".to_string()));
    assert_eq!(created.plan.date, CalendarDate { year: 2024, month: 5, day: 5 });
    assert!(created.success);
    assert_eq!(created.message, "Meal plan created successfully");
    let failed = create_meal_plan(Err(failure("x"))).expect_err("a failure");
    assert_eq!(failed.error, "Failed to create meal plan");
    assert_eq!(failed.success, Some(false));

    let deleted = delete_meal_plan(DeleteMealPlanParams { id: 8 }, Ok(())).expect("deleted");
    assert_eq!(deleted.id, 8);
    assert!(deleted.success);
    assert_eq!(deleted.message, "Meal plan deleted successfully");
    let failed =
        delete_meal_plan(DeleteMealPlanParams { id: 8 }, Err(failure("y"))).expect_err("a failure");
    assert_eq!(failed.error, "Failed to delete meal plan");
    assert_eq!(failed.details, Some("y".to_string()));
    assert_eq!(failed.success, Some(false));
}

#[test]
fn meal_types_report() {
    let mut lunch = meal_type(2, "Lunch");
    lunch.icon = Some("🍲".to_string());
    let mut found = page(vec![meal_type(1, "Breakfast"), lunch]);
    found.count = 2;
    let report = get_meal_types(Ok(found)).expect("a report");
    assert_eq!(report.total_count, 2);
    assert_eq!(
        report.meal_types,
        vec![
            MealTypeSummary {
                id: 1,
                name: "Breakfast".to_string(),
                order: 1,
                icon: None,
                color: "#fff".to_string(),
            },
            MealTypeSummary {
                id: 2,
                name: "Lunch".to_string(),
                order: 2,
                icon: Some("🍲".to_string()),
                color: "#fff".to_string(),
            },
        ]
    );
    let failed = get_meal_types(Err(failure("z"))).expect_err("a failure");
    assert_eq!(failed.error, "Failed to get meal types");
}

#[test]
fn cook_log_report_names_the_day() {
    assert_eq!(default_days_back(), 30);
    assert_eq!(default_servings(), 1);
    let log = |id: i32, secs: i64| CookLog {
        id,
        recipe: recipe(40 + id, "Stew"),
        servings: 3,
        rating: Some(5),
        comment: Some("good".to_string()),
        created: Timestamp { secs, nanos: 7 },
        created_by: 1,
    };
    let mut found = page(vec![log(1, 1_710_072_000), log(2, 1_710_028_799), log(3, i64::MAX)]);
    found.count = 3;
    let params = GetCookLogParams { recipe_id: Some(41), days_back: 30 };
    let report = get_cook_log(params, Ok(found)).expect("a report");
    assert_eq!(report.total_count, 3);
    assert_eq!(report.days_back, 30);
    assert_eq!(report.recipe_filter, Some(41));
    assert_eq!(report.cook_log.len(), 3);
    assert_eq!(report.cook_log[0].id, 1);
    assert_eq!(report.cook_log[0].recipe_id, 41);
    assert_eq!(report.cook_log[0].recipe_name, "Stew");
    assert_eq!(report.cook_log[0].servings, 3);
    assert_eq!(report.cook_log[0].rating, Some(5));
    assert_eq!(report.cook_log[0].comment, Some("good".to_string()));
    assert_eq!(report.cook_log[0].created, Timestamp { secs: 1_710_072_000, nanos: 7 });
    assert_eq!(report.cook_log[0].date_cooked, Some("2024-03-10".to_string()));
    assert_eq!(report.cook_log[1].date_cooked, Some("2024-03-09".to_string()));
    assert_eq!(report.cook_log[2].date_cooked, None);
    let failed = get_cook_log(GetCookLogParams { recipe_id: None, days_back: 1 }, Err(failure("q")))
        .expect_err("a failure");
    assert_eq!(failed.error, "Failed to get cook log");
}

#[test]
fn cooking_is_logged() {
    let request = log_cooked_recipe_request(LogCookedRecipeParams {
        recipe_id: 9,
        servings: 2,
        rating: None,
        comment: Some("fine".to_string()),
    });
    assert_eq!(
        request,
        CreateCookLogRequest { recipe: 9, servings: 2, rating: None, comment: Some("fine".to_string()) }
    );
    let logged = log_cooked_recipe(Ok(CookLog {
        id: 12,
        recipe: recipe(9, "Stew"),
        servings: 2,
        rating: None,
        comment: Some("fine".to_string()),
        created: at(55),
        created_by: 1,
    }))
    .expect("logged");
    assert_eq!(logged.id, 12);
    assert_eq!(logged.recipe_id, 9);
    assert_eq!(logged.recipe_name, "Stew");
    assert_eq!(logged.servings, 2);
    assert_eq!(logged.rating, None);
    assert_eq!(logged.comment, Some("fine".to_string()));
    assert_eq!(logged.created, at(55));
    assert!(logged.success);
    assert_eq!(logged.message, "Recipe cooking logged successfully");
    let failed = log_cooked_recipe(Err(failure("w"))).expect_err("a failure");
    assert_eq!(failed.error, "Failed to log cooked recipe");
    assert_eq!(failed.success, Some(false));
}

#[test]
fn keywords_report_and_its_failures() {
    let report = get_keywords(Ok(page(vec![keyword(1, "quick")]))).expect("a report");
    assert_eq!(report.total_count, 1);
    assert_eq!(
        report.keywords,
        vec![KeywordSummary {
            id: 1,
            name: "quick".to_string(),
            description: Some("about quick".to_string()),
        }]
    );

    let failed = get_keywords(Err(ClientError {
        kind: RemoteErrorKind::NotAuthenticated,
        message: "Not authenticated - please verify credentials and re-authenticate".to_string(),
    }))
    .expect_err("a failure");
    assert_eq!(failed.error, "Authentication Error");
    assert_eq!(
        failed.message,
        Some("Your authentication token has expired or is invalid".to_string())
    );
    assert_eq!(
        failed.details,
        Some("Not authenticated - please verify credentials and re-authenticate".to_string())
    );
    assert_eq!(
        failed.suggestion,
        Some("Please restart the MCP server to re-authenticate with Tandoor".to_string())
    );

    let failed = get_keywords(Err(failure("Failed to connect to Tandoor API: refused")))
        .expect_err("a failure");
    assert_eq!(failed.error, "Connection Error");
    assert_eq!(failed.message, Some("Unable to connect to Tandoor server".to_string()));
    assert_eq!(
        failed.suggestion,
        Some("Check that Tandoor is running and accessible at the configured URL".to_string())
    );

    let failed = get_keywords(Err(failure("Tandoor server error getting keywords (500): x")))
        .expect_err("a failure");
    assert_eq!(failed.error, "Failed to get keywords");
    assert_eq!(
        failed.message,
        Some("An unexpected error occurred while fetching keywords".to_string())
    );
    assert_eq!(failed.suggestion, Some("Check server logs for more details".to_string()));

    // the report is read as it stands: the case of letters counts
    let failed = get_keywords(Err(failure("not authenticated"))).expect_err("a failure");
    assert_eq!(failed.error, "Failed to get keywords");
}

#[test]
fn guard_failure_payload() {
    let failed = authentication_failure(AuthError {
        kind: AuthErrorKind::InvalidCredentials,
        message: "Authentication failed: Invalid username or password".to_string(),
    });
    assert_eq!(failed.error, "Authentication Error");
    assert_eq!(failed.kind, Some("invalid_credentials".to_string()));
    assert_eq!(failed.message, Some("Failed to authenticate with Tandoor".to_string()));
    assert_eq!(
        failed.details,
        Some("Authentication failed: Invalid username or password".to_string())
    );
    assert_eq!(
        failed.suggestion,
        Some("Check your Tandoor credentials and server connectivity".to_string())
    );
    assert_eq!(failed.url, None);
    assert_eq!(failed.success, None);
}

#[test]
fn every_cause_of_failed_authentication_has_its_name() {
    let cases = [
        (AuthErrorKind::Unreachable, "unreachable"),
        (AuthErrorKind::MalformedCredentials, "malformed_credentials"),
        (AuthErrorKind::InvalidCredentials, "invalid_credentials"),
        (AuthErrorKind::AccountDisabled, "account_disabled"),
        (AuthErrorKind::EndpointNotFound, "endpoint_not_found"),
        (AuthErrorKind::ServerError, "server_error"),
        (AuthErrorKind::UnexpectedStatus, "unexpected_status"),
        (AuthErrorKind::UnparseableResponse, "unparseable_response"),
    ];
    for (kind, name) in cases {
        assert_eq!(kind.name(), name);
        let failed = authentication_failure(AuthError { kind, message: "m".to_string() });
        assert_eq!(failed.error, "Authentication Error");
        assert_eq!(failed.kind, Some(name.to_string()));
        assert_eq!(failed.details, Some("m".to_string()));
    }
}

#[test]
fn session_unavailable_is_a_category_of_its_own() {
    let failed = session_unavailable_failure(ClientError {
        kind: RemoteErrorKind::SessionUnavailable,
        message: "No authentication credentials available".to_string(),
    });
    assert_eq!(failed.error, "Session Unavailable");
    assert_eq!(failed.kind, Some("session_unavailable".to_string()));
    assert_eq!(
        failed.message,
        Some("No token is held and no credentials are stored".to_string())
    );
    assert_eq!(failed.details, Some("No authentication credentials available".to_string()));
    assert_eq!(
        failed.suggestion,
        Some("Supply credentials or a token when the server is started".to_string())
    );
    assert_eq!(failed.url, None);
    assert_eq!(failed.success, None);
}

#[test]
fn other_failures_carry_no_kind() {
    let failed = get_units(Err(failure("u"))).expect_err("a failure");
    assert_eq!(failed.kind, None);
    let failed = get_keywords(Err(failure("Failed to connect"))).expect_err("a failure");
    assert_eq!(failed.kind, None);
    let failed = create_recipe(Err(failure("x"))).expect_err("a failure");
    assert_eq!(failed.kind, None);
}

#[test]
fn units_report() {
    let report = get_units(Ok(page(vec![unit("gram")]))).expect("a report");
    assert_eq!(report.total_count, 1);
    assert_eq!(
        report.units,
        vec![UnitSummary {
            id: 1,
            name: "gram".to_string(),
            plural_name: Some("grams".to_string()),
            description: None,
            base_unit: Some("g".to_string()),
            type_: Some("weight".to_string()),
        }]
    );
    let failed = get_units(Err(failure("u"))).expect_err("a failure");
    assert_eq!(failed.error, "Failed to get units");
    assert_eq!(failed.details, Some("u".to_string()));
}
