use mcp_tandoor::client::auth::{
    refusal, AuthErrorKind, AuthReply, HttpStatus, Method, TandoorAuth, AUTH_TIMEOUT_SECS,
};
use mcp_tandoor::client::client::{
    classify_status, interpret, ApiRequest, ClientError, Operation, Payload, RemoteErrorKind,
    Transport, REQUEST_TIMEOUT_SECS,
};
use mcp_tandoor::client::envelope::{body_shape, BodyShape, ListBody};
use mcp_tandoor::client::types::{
    AuthToken, BulkShoppingListRequest, CreateCookLogRequest, CreateKeywordRequest,
    CreateMealPlanRequest, CreateRecipeRequest, CreateShoppingListEntryRequest, CreateStepRequest,
    PaginatedResponse, Quantity, RecipeImport, UpdateFoodRequest, UpdateShoppingListEntryRequest,
};
use mcp_tandoor::dates::{CalendarDate, Timestamp};
use mcp_tandoor::TandoorClient;

const BASE: &str = "http://localhost:8080";

fn client() -> TandoorClient {
    let mut client = TandoorClient::new(BASE.to_string());
    client.set_token("tda_12345678_abcd".to_string());
    client
}

fn status(code: u16, text: &str) -> HttpStatus {
    HttpStatus { code, text: text.to_string() }
}

fn sent(request: Result<ApiRequest, ClientError>) -> ApiRequest {
    let request = request.expect("a token is held");
    assert_eq!(request.authorization, "Bearer tda_12345678_abcd");
    assert_eq!(request.timeout_secs, REQUEST_TIMEOUT_SECS);
    request
}

fn quantity(value: f64) -> Quantity {
    Quantity { bits: value.to_bits() }
}

#[test]
fn test_authentication_success() {
    let mut client = TandoorClient::new(BASE.to_string());
    let login = client.login_request("admin".to_string(), "testing1".to_string());
    assert_eq!(login.method, Method::Post);
    assert_eq!(login.url, "http://localhost:8080/api-token-auth/");
    assert_eq!(login.body.username, "admin");
    assert_eq!(login.body.password, "testing1");
    assert_eq!(login.timeout_secs, AUTH_TIMEOUT_SECS);
    let result = client.authenticate(AuthReply::Answered {
        status: status(200, "200 OK"),
        body: Some("{\"token\":\"tda_1\"}".to_string()),
        token: Ok(AuthToken { token: "tda_1".to_string() }),
    });
    assert!(result.is_ok(), "Should authenticate successfully with valid credentials");
    assert!(client.is_authenticated(), "Client should be authenticated");
    assert!(client.get_token().is_some(), "Should have authentication token");
    assert_eq!(client.get_token(), Some("tda_1"));
}

#[test]
fn test_authentication_failure() {
    let mut client = TandoorClient::new(BASE.to_string());
    let _ = client.login_request("invalid_user".to_string(), "wrong_password".to_string());
    let result = client.authenticate(AuthReply::Answered {
        status: status(400, "400 Bad Request"),
        body: Some("{\"non_field_errors\":[\"Unable to log in\"]}".to_string()),
        token: Err("missing field `token`".to_string()),
    });
    assert!(result.is_err(), "Should fail with invalid credentials");
    assert!(!client.is_authenticated(), "Client should not be authenticated");
    assert!(client.get_token().is_none(), "Should not have authentication token");
}

#[test]
fn every_refusal_has_its_kind_and_message() {
    let body = Some("boom".to_string());
    let cases = [
        (
            400,
            "400 Bad Request",
            AuthErrorKind::MalformedCredentials,
            "Invalid credentials provided. Please check username and password.",
        ),
        (
            401,
            "401 Unauthorized",
            AuthErrorKind::InvalidCredentials,
            "Authentication failed: Invalid username or password",
        ),
        (
            403,
            "403 Forbidden",
            AuthErrorKind::AccountDisabled,
            "Access denied: User account may be disabled",
        ),
        (
            404,
            "404 Not Found",
            AuthErrorKind::EndpointNotFound,
            "Tandoor API endpoint not found. Check your base URL: http://localhost:8080",
        ),
        (
            500,
            "500 Internal Server Error",
            AuthErrorKind::ServerError,
            "Tandoor server error (500 Internal Server Error): boom",
        ),
        (
            599,
            "599 <unknown status code>",
            AuthErrorKind::ServerError,
            "Tandoor server error (599 <unknown status code>): boom",
        ),
        (
            429,
            "429 Too Many Requests",
            AuthErrorKind::UnexpectedStatus,
            "Authentication failed with status 429 Too Many Requests: boom",
        ),
        (
            302,
            "302 Found",
            AuthErrorKind::UnexpectedStatus,
            "Authentication failed with status 302 Found: boom",
        ),
    ];
    for (code, text, kind, message) in cases {
        let error = refusal(BASE, &status(code, text), &body);
        assert_eq!(error.kind, kind);
        assert_eq!(error.message, message);
    }
}

#[test]
fn refusal_without_a_readable_body() {
    let error = refusal(BASE, &status(503, "503 Service Unavailable"), &None);
    assert_eq!(error.kind, AuthErrorKind::ServerError);
    assert_eq!(
        error.message,
        "Tandoor server error (503 Service Unavailable): Unable to read error response"
    );
}

#[test]
fn unreachable_and_unparseable_answers() {
    let mut auth = TandoorAuth::new(BASE.to_string());
    let error = auth
        .authenticate(AuthReply::Unreachable { detail: "connection refused".to_string() })
        .expect_err("no answer");
    assert_eq!(error.kind, AuthErrorKind::Unreachable);
    assert_eq!(
        error.message,
        "Failed to connect to Tandoor server at http://localhost:8080: connection refused"
    );
    let error = auth
        .authenticate(AuthReply::Answered {
            status: status(200, "200 OK"),
            body: Some("<html>".to_string()),
            token: Err("expected value at line 1 column 1".to_string()),
        })
        .expect_err("no token in the body");
    assert_eq!(error.kind, AuthErrorKind::UnparseableResponse);
    assert_eq!(
        error.message,
        "Invalid response from Tandoor server: expected value at line 1 column 1"
    );
    assert!(!auth.is_authenticated());
    assert_eq!(auth.get_token(), None);
}

#[test]
fn a_refusing_status_wins_over_a_decoded_token() {
    let mut auth = TandoorAuth::new(BASE.to_string());
    let error = auth
        .authenticate(AuthReply::Answered {
            status: status(403, "403 Forbidden"),
            body: None,
            token: Ok(AuthToken { token: "tda_stray".to_string() }),
        })
        .expect_err("refused");
    assert_eq!(error.kind, AuthErrorKind::AccountDisabled);
    assert!(!auth.is_authenticated());
}

#[test]
fn success_class_is_two_hundred_to_two_ninety_nine() {
    assert!(!status(199, "").is_success());
    assert!(status(200, "").is_success());
    assert!(status(204, "").is_success());
    assert!(status(299, "").is_success());
    assert!(!status(300, "").is_success());
    assert!(!status(404, "").is_success());
}

#[test]
fn an_empty_token_does_not_authenticate() {
    let mut auth = TandoorAuth::new(BASE.to_string());
    auth.set_token("".to_string());
    assert!(!auth.is_authenticated());
    assert_eq!(auth.get_token(), Some(""));
    auth.set_token("x".to_string());
    assert!(auth.is_authenticated());
    let mut client = TandoorClient::new(BASE.to_string());
    assert!(!client.is_authenticated());
    client.set_token(String::new());
    assert!(!client.is_authenticated());
    client.set_token(" ".to_string());
    assert!(client.is_authenticated());
    let granted_nothing = client.authenticate(AuthReply::Answered {
        status: status(200, "200 OK"),
        body: Some("{\"token\":\"\"}".to_string()),
        token: Ok(AuthToken { token: String::new() }),
    });
    assert!(granted_nothing.is_ok());
    assert_eq!(client.get_token(), Some(""));
    assert!(!client.is_authenticated());
}

#[test]
fn set_token_replaces_the_token() {
    let mut auth = TandoorAuth::new(BASE.to_string());
    assert!(!auth.is_authenticated());
    auth.set_token("a".to_string());
    assert_eq!(auth.get_token(), Some("a"));
    auth.set_token("b".to_string());
    assert_eq!(auth.get_token(), Some("b"));
}

#[test]
fn token_preview_shows_ten_characters() {
    let mut client = TandoorClient::new(BASE.to_string());
    assert_eq!(client.get_token_preview(), None);
    client.set_token("tda_12345678_abcd_efgh".to_string());
    assert_eq!(client.get_token_preview(), Some("tda_123456...".to_string()));
    client.set_token("0123456789".to_string());
    assert_eq!(client.get_token_preview(), Some("0123456789...".to_string()));
    client.set_token("short".to_string());
    assert_eq!(client.get_token_preview(), Some("short...".to_string()));
    client.set_token("".to_string());
    assert_eq!(client.get_token_preview(), Some("...".to_string()));
    client.set_token("ääääääääääää".to_string());
    assert_eq!(client.get_token_preview(), Some("ääääääääää...".to_string()));
}

#[test]
fn auth_header_needs_a_token() {
    let empty = TandoorClient::new(BASE.to_string());
    let error = empty.get_auth_header().expect_err("no token");
    assert_eq!(error.kind, RemoteErrorKind::NotAuthenticated);
    assert_eq!(
        error.message,
        "Not authenticated - please verify credentials and re-authenticate"
    );
    assert_eq!(client().get_auth_header().unwrap(), "Bearer tda_12345678_abcd");
}

#[test]
fn no_endpoint_sends_without_a_token() {
    let c = TandoorClient::new(BASE.to_string());
    let now = Timestamp { secs: 0, nanos: 0 };
    let refusals = vec![
        c.search_recipes(Some("x"), Some(1)),
        c.get_recipe(1),
        c.import_recipe_from_url("http://example.org"),
        c.search_foods("x", None),
        c.update_food_availability(1, true),
        c.get_shopping_list(),
        c.add_bulk_to_shopping_list(vec![]),
        c.delete_shopping_list_entry(1),
        c.get_meal_plans(None, None),
        c.delete_meal_plan(1),
        c.get_meal_types(),
        c.get_cook_log(None, Some(30), now),
        c.get_cook_log(None, Some(i32::MAX), Timestamp { secs: i64::MIN, nanos: 0 }),
        c.get_keywords(),
        c.get_units(),
    ];
    for refusal in refusals {
        let error = refusal.expect_err("no token");
        assert_eq!(error.kind, RemoteErrorKind::NotAuthenticated);
        assert_eq!(
            error.message,
            "Not authenticated - please verify credentials and re-authenticate"
        );
    }
}

#[test]
fn test_search_recipes_no_query() {
    let request = sent(client().search_recipes(None, Some(5)));
    assert_eq!(request.operation, Operation::SearchRecipes);
    assert_eq!(request.method, Method::Get);
    assert_eq!(request.url, "http://localhost:8080/api/recipe/?page_size=5");
    assert_eq!(request.body, Payload::Empty);
}

#[test]
fn test_search_recipes_with_query() {
    let request = sent(client().search_recipes(Some("pasta"), Some(5)));
    assert_eq!(request.url, "http://localhost:8080/api/recipe/?query=pasta&page_size=5");
}

#[test]
fn search_recipes_without_parameters_has_no_query() {
    let request = sent(client().search_recipes(None, None));
    assert_eq!(request.url, "http://localhost:8080/api/recipe/");
    let request = sent(client().search_recipes(Some("soup"), None));
    assert_eq!(request.url, "http://localhost:8080/api/recipe/?query=soup");
}

#[test]
fn queries_are_percent_encoded() {
    let request = sent(client().search_recipes(Some("mac & cheese"), None));
    assert_eq!(request.url, "http://localhost:8080/api/recipe/?query=mac%20%26%20cheese");
    let request = sent(client().search_foods("crème fraîche", Some(1)));
    assert_eq!(
        request.url,
        "http://localhost:8080/api/food/?query=cr%C3%A8me%20fra%C3%AEche&page_size=1"
    );
    let request = sent(client().search_foods("a-b_c.d~e/f?g=h", None));
    assert_eq!(request.url, "http://localhost:8080/api/food/?query=a-b_c.d~e%2Ff%3Fg%3Dh");
    let request = sent(client().search_foods("", Some(100)));
    assert_eq!(request.url, "http://localhost:8080/api/food/?query=&page_size=100");
}

#[test]
fn item_addresses_carry_the_number() {
    let c = client();
    let request = sent(c.get_recipe(999999));
    assert_eq!(request.operation, Operation::GetRecipe);
    assert_eq!(request.method, Method::Get);
    assert_eq!(request.url, "http://localhost:8080/api/recipe/999999/");
    let request = sent(c.get_recipe(-3));
    assert_eq!(request.url, "http://localhost:8080/api/recipe/-3/");
    let request = sent(c.get_recipe(i32::MIN));
    assert_eq!(request.url, "http://localhost:8080/api/recipe/-2147483648/");
    let request = sent(c.delete_shopping_list_entry(12));
    assert_eq!(request.method, Method::Delete);
    assert_eq!(request.url, "http://localhost:8080/api/shopping-list-entry/12/");
    let request = sent(c.delete_meal_plan(0));
    assert_eq!(request.method, Method::Delete);
    assert_eq!(request.url, "http://localhost:8080/api/meal-plan/0/");
}

#[test]
fn plain_readings() {
    let c = client();
    let cases = [
        (c.get_shopping_list(), Operation::GetShoppingList, "/api/shopping-list-entry/"),
        (c.get_meal_types(), Operation::GetMealTypes, "/api/meal-type/"),
        (c.get_keywords(), Operation::GetKeywords, "/api/keyword/"),
        (c.get_units(), Operation::GetUnits, "/api/unit/"),
    ];
    for (request, operation, path) in cases {
        let request = sent(request);
        assert_eq!(request.operation, operation);
        assert_eq!(request.method, Method::Get);
        assert_eq!(request.url, format!("{}{}", BASE, path));
        assert_eq!(request.body, Payload::Empty);
    }
}

#[test]
fn requests_with_a_body() {
    let c = client();
    let recipe = CreateRecipeRequest {
        name: "Test".to_string(),
        description: None,
        servings: Some(4),
        working_time: 30,
        waiting_time: 15,
        keywords: vec![CreateKeywordRequest { name: "test".to_string() }],
        steps: vec![],
    };
    let request = sent(c.create_recipe(recipe.clone()));
    assert_eq!(request.operation, Operation::CreateRecipe);
    assert_eq!(request.method, Method::Post);
    assert_eq!(request.url, "http://localhost:8080/api/recipe/");
    assert_eq!(request.body, Payload::Recipe(recipe));

    let request = sent(c.import_recipe_from_url("https://example.org/r?x=1"));
    assert_eq!(request.method, Method::Post);
    assert_eq!(request.url, "http://localhost:8080/api/recipe-from-source/");
    assert_eq!(
        request.body,
        Payload::Import(RecipeImport { url: "https://example.org/r?x=1".to_string() })
    );

    let request = sent(c.update_food_availability(7, false));
    assert_eq!(request.method, Method::Patch);
    assert_eq!(request.url, "http://localhost:8080/api/food/7/");
    assert_eq!(request.body, Payload::Food(UpdateFoodRequest { food_onhand: Some(false) }));

    let entry = CreateShoppingListEntryRequest { food: 3, unit: None, amount: quantity(2.0) };
    let request = sent(c.add_to_shopping_list(entry));
    assert_eq!(request.method, Method::Post);
    assert_eq!(request.url, "http://localhost:8080/api/shopping-list-entry/");
    assert_eq!(request.body, Payload::Entry(entry));

    let request = sent(c.add_bulk_to_shopping_list(vec![entry, entry]));
    assert_eq!(request.url, "http://localhost:8080/api/shopping-list-entry/bulk/");
    assert_eq!(
        request.body,
        Payload::Entries(BulkShoppingListRequest { entries: vec![entry, entry] })
    );

    let update = UpdateShoppingListEntryRequest { checked: Some(true), amount: None };
    let request = sent(c.update_shopping_list_entry(44, update));
    assert_eq!(request.method, Method::Patch);
    assert_eq!(request.url, "http://localhost:8080/api/shopping-list-entry/44/");
    assert_eq!(request.body, Payload::EntryUpdate(update));

    let plan = CreateMealPlanRequest {
        recipe: Some(1),
        title: None,
        servings: 2,
        date: CalendarDate { year: 2024, month: 2, day: 29 },
        meal_type: 1,
        note: None,
    };
    let request = sent(c.create_meal_plan(plan.clone()));
    assert_eq!(request.url, "http://localhost:8080/api/meal-plan/");
    assert_eq!(request.body, Payload::MealPlan(plan));

    let log = CreateCookLogRequest { recipe: 5, servings: 1, rating: Some(4), comment: None };
    let request = sent(c.log_cooked_recipe(log.clone()));
    assert_eq!(request.url, "http://localhost:8080/api/cook-log/");
    assert_eq!(request.body, Payload::CookLog(log));
}

#[test]
fn meal_plan_readings_carry_their_range() {
    let c = client();
    assert_eq!(sent(c.get_meal_plans(None, None)).url, "http://localhost:8080/api/meal-plan/");
    assert_eq!(
        sent(c.get_meal_plans(Some("2024-01-01"), None)).url,
        "http://localhost:8080/api/meal-plan/?from_date=2024-01-01"
    );
    assert_eq!(
        sent(c.get_meal_plans(None, Some("2024-01-07"))).url,
        "http://localhost:8080/api/meal-plan/?to_date=2024-01-07"
    );
    assert_eq!(
        sent(c.get_meal_plans(Some("2024-01-01"), Some("2024-01-07"))).url,
        "http://localhost:8080/api/meal-plan/?from_date=2024-01-01&to_date=2024-01-07"
    );
}

#[test]
fn cook_log_reaches_back_from_now() {
    let c = client();
    // 2024-03-10T12:00:00Z
    let now = Timestamp { secs: 1_710_072_000, nanos: 0 };
    assert_eq!(sent(c.get_cook_log(None, None, now)).url, "http://localhost:8080/api/cook-log/");
    assert_eq!(
        sent(c.get_cook_log(Some(8), None, now)).url,
        "http://localhost:8080/api/cook-log/?recipe=8"
    );
    assert_eq!(
        sent(c.get_cook_log(None, Some(30), now)).url,
        "http://localhost:8080/api/cook-log/?from_date=2024-02-09"
    );
    assert_eq!(
        sent(c.get_cook_log(Some(8), Some(0), now)).url,
        "http://localhost:8080/api/cook-log/?recipe=8&from_date=2024-03-10"
    );
    assert_eq!(
        sent(c.get_cook_log(None, Some(-1), now)).url,
        "http://localhost:8080/api/cook-log/?from_date=2024-03-11"
    );
    assert_eq!(
        sent(c.cook_log_request(Some(2), Some("2020-02-02"))).url,
        "http://localhost:8080/api/cook-log/?recipe=2&from_date=2020-02-02"
    );
}

#[test]
fn cook_log_beyond_the_calendar_is_refused() {
    let c = client();
    let now = Timestamp { secs: 1_710_072_000, nanos: 0 };
    let error = c.get_cook_log(None, Some(i32::MAX), now).expect_err("too far back");
    assert_eq!(error.kind, RemoteErrorKind::InvalidRequest);
    assert_eq!(error.message, "The start of the cook log lies beyond the calendar");
    let edge = Timestamp { secs: i64::MIN + 5, nanos: 0 };
    let error = c.get_cook_log(None, Some(1), edge).expect_err("out of range");
    assert_eq!(error.kind, RemoteErrorKind::InvalidRequest);
}

#[test]
fn statuses_are_classified() {
    assert_eq!(classify_status(400), RemoteErrorKind::Validation);
    assert_eq!(classify_status(401), RemoteErrorKind::Unauthorized);
    assert_eq!(classify_status(403), RemoteErrorKind::Forbidden);
    assert_eq!(classify_status(404), RemoteErrorKind::NotFound);
    assert_eq!(classify_status(500), RemoteErrorKind::ServerError);
    assert_eq!(classify_status(599), RemoteErrorKind::ServerError);
    assert_eq!(classify_status(600), RemoteErrorKind::UnexpectedStatus);
    assert_eq!(classify_status(499), RemoteErrorKind::UnexpectedStatus);
    assert_eq!(classify_status(302), RemoteErrorKind::UnexpectedStatus);
    assert_eq!(classify_status(0), RemoteErrorKind::UnexpectedStatus);
}

#[test]
fn test_get_recipe_not_found() {
    let request = sent(client().get_recipe(999999));
    let result: Result<i32, ClientError> = interpret(
        request.operation,
        Transport::Answered {
            status: status(404, "404 Not Found"),
            body: Some("{\"detail\":\"Not found.\"}".to_string()),
            decoded: Err("missing field `id`".to_string()),
        },
    );
    assert!(result.is_err(), "Should fail for non-existent recipe");
    let error = result.unwrap_err();
    assert_eq!(error.kind, RemoteErrorKind::NotFound);
    assert_eq!(error.message, "Failed to get recipe: 404 Not Found");
}

#[test]
fn interpret_hands_the_decoded_value_on() {
    let result: Result<Vec<i32>, ClientError> = interpret(
        Operation::GetUnits,
        Transport::Answered {
            status: status(200, "200 OK"),
            body: Some("[1,2]".to_string()),
            decoded: Ok(vec![1, 2]),
        },
    );
    assert_eq!(result, Ok(vec![1, 2]));
    let result: Result<(), ClientError> = interpret(
        Operation::DeleteMealPlan,
        Transport::Answered { status: status(204, "204 No Content"), body: None, decoded: Ok(()) },
    );
    assert_eq!(result, Ok(()));
}

#[test]
fn interpret_names_each_failure() {
    let failed: Result<i32, ClientError> =
        interpret(Operation::GetUnits, Transport::Failed { detail: "timed out".to_string() });
    let error = failed.unwrap_err();
    assert_eq!(error.kind, RemoteErrorKind::Network);
    assert_eq!(error.message, "timed out");

    let malformed: Result<i32, ClientError> = interpret(
        Operation::GetUnits,
        Transport::Answered {
            status: status(200, "200 OK"),
            body: Some("oops".to_string()),
            decoded: Err("expected value".to_string()),
        },
    );
    let error = malformed.unwrap_err();
    assert_eq!(error.kind, RemoteErrorKind::MalformedResponse);
    assert_eq!(error.message, "expected value");

    let refused: Result<i32, ClientError> = interpret(
        Operation::CreateMealPlan,
        Transport::Answered {
            status: status(400, "400 Bad Request"),
            body: Some("{}".to_string()),
            decoded: Ok(1),
        },
    );
    let error = refused.unwrap_err();
    assert_eq!(error.kind, RemoteErrorKind::Validation);
    assert_eq!(error.message, "Failed to create meal plan: 400 Bad Request");
}

#[test]
fn every_operation_heads_its_failure() {
    let cases = [
        (Operation::SearchRecipes, "Failed to search recipes"),
        (Operation::GetRecipe, "Failed to get recipe"),
        (Operation::CreateRecipe, "Failed to create recipe"),
        (Operation::ImportRecipe, "Failed to import recipe"),
        (Operation::SearchFoods, "Failed to search foods"),
        (Operation::UpdateFoodAvailability, "Failed to update food availability"),
        (Operation::GetShoppingList, "Failed to get shopping list"),
        (Operation::AddToShoppingList, "Failed to add to shopping list"),
        (Operation::AddBulkToShoppingList, "Failed to add bulk to shopping list"),
        (Operation::UpdateShoppingListEntry, "Failed to update shopping list entry"),
        (Operation::DeleteShoppingListEntry, "Failed to delete shopping list entry"),
        (Operation::GetMealPlans, "Failed to get meal plans"),
        (Operation::CreateMealPlan, "Failed to create meal plan"),
        (Operation::DeleteMealPlan, "Failed to delete meal plan"),
        (Operation::GetMealTypes, "Failed to get meal types"),
        (Operation::GetCookLog, "Failed to get cook log"),
        (Operation::LogCookedRecipe, "Failed to log cooked recipe"),
        (Operation::GetKeywords, "Failed to get keywords"),
        (Operation::GetUnits, "Failed to get units"),
    ];
    for (operation, label) in cases {
        assert_eq!(operation.label(), label);
        if operation != Operation::GetKeywords {
            let refused: Result<(), ClientError> = interpret(
                operation,
                Transport::Answered {
                    status: status(500, "500 Internal Server Error"),
                    body: None,
                    decoded: Ok(()),
                },
            );
            let error = refused.unwrap_err();
            assert_eq!(error.kind, RemoteErrorKind::ServerError);
            assert_eq!(error.message, format!("{}: 500 Internal Server Error", label));
        }
    }
}

#[test]
fn keyword_failures_explain_themselves() {
    let answer = |code: u16, text: &str, body: Option<&str>| -> ClientError {
        let result: Result<(), ClientError> = interpret(
            Operation::GetKeywords,
            Transport::Answered {
                status: status(code, text),
                body: body.map(|b| b.to_string()),
                decoded: Ok(()),
            },
        );
        result.unwrap_err()
    };
    let error = answer(401, "401 Unauthorized", Some("x"));
    assert_eq!(error.kind, RemoteErrorKind::Unauthorized);
    assert_eq!(error.message, "Authentication expired or invalid. Please re-authenticate.");
    let error = answer(403, "403 Forbidden", Some("x"));
    assert_eq!(error.kind, RemoteErrorKind::Forbidden);
    assert_eq!(error.message, "Access denied to keywords endpoint. Check user permissions.");
    let error = answer(404, "404 Not Found", Some("x"));
    assert_eq!(error.kind, RemoteErrorKind::NotFound);
    assert_eq!(
        error.message,
        "Keywords endpoint not found. Check Tandoor version and API availability."
    );
    let error = answer(502, "502 Bad Gateway", Some("down"));
    assert_eq!(error.kind, RemoteErrorKind::ServerError);
    assert_eq!(error.message, "Tandoor server error getting keywords (502 Bad Gateway): down");
    let error = answer(400, "400 Bad Request", None);
    assert_eq!(error.kind, RemoteErrorKind::Validation);
    assert_eq!(
        error.message,
        "Failed to get keywords with status 400 Bad Request: Unable to read error response"
    );

    let failed: Result<(), ClientError> =
        interpret(Operation::GetKeywords, Transport::Failed { detail: "refused".to_string() });
    let error = failed.unwrap_err();
    assert_eq!(error.kind, RemoteErrorKind::Network);
    assert_eq!(error.message, "Failed to connect to Tandoor API: refused");

    let malformed: Result<(), ClientError> = interpret(
        Operation::GetKeywords,
        Transport::Answered {
            status: status(200, "200 OK"),
            body: None,
            decoded: Err("eof".to_string()),
        },
    );
    let error = malformed.unwrap_err();
    assert_eq!(error.kind, RemoteErrorKind::MalformedResponse);
    assert_eq!(error.message, "Invalid response format from Tandoor server: eof");
}

#[test]
fn body_shape_is_told_by_the_first_mark() {
    assert_eq!(body_shape("[]"), BodyShape::Array);
    assert_eq!(
        body_shape("{\"count\":0,\"next\":null,\"previous\":null,\"results\":[]}"),
        BodyShape::Object
    );
    assert_eq!(body_shape("  \n\t\r [1]"), BodyShape::Array);
    assert_eq!(body_shape("\n{ }"), BodyShape::Object);
    assert_eq!(body_shape(""), BodyShape::Other);
    assert_eq!(body_shape("   "), BodyShape::Other);
    assert_eq!(body_shape("null"), BodyShape::Other);
    assert_eq!(body_shape("\"[\""), BodyShape::Other);
    assert_eq!(body_shape("\u{a0}[]"), BodyShape::Other);
}

fn numbers(items: &[serde_json::Value]) -> Vec<i64> {
    items.iter().map(|item| item.as_i64().expect("a number")).collect()
}

/// Reads a body as the transport does: the shape decides how it is decoded.
fn list_body(text: &str) -> ListBody<i64> {
    match body_shape(text) {
        BodyShape::Array => {
            let items: Vec<serde_json::Value> = serde_json::from_str(text).expect("a list");
            ListBody::Bare(numbers(&items))
        }
        BodyShape::Object => {
            let document: serde_json::Value = serde_json::from_str(text).expect("an object");
            ListBody::Enveloped(PaginatedResponse {
                count: document["count"].as_i64().expect("a count") as i32,
                next: document["next"].as_str().map(|link| link.to_string()),
                previous: document["previous"].as_str().map(|link| link.to_string()),
                results: numbers(document["results"].as_array().expect("results")),
            })
        }
        BodyShape::Other => panic!("neither a list nor an object"),
    }
}

#[test]
fn bare_and_enveloped_empty_lists_agree() {
    let bare = list_body("[]");
    let enveloped = list_body("{\"count\":0,\"next\":null,\"previous\":null,\"results\":[]}");
    let expected: PaginatedResponse<i64> =
        PaginatedResponse { count: 0, next: None, previous: None, results: vec![] };
    assert_eq!(bare.normalize(), expected);
    assert_eq!(enveloped.normalize(), expected);
}

#[test]
fn bare_and_enveloped_lists_agree() {
    let bare = list_body(" [4, 5, 6]");
    let enveloped =
        list_body("\n{\"count\":3,\"next\":null,\"previous\":null,\"results\":[4,5,6]}");
    assert_eq!(bare.normalize(), enveloped.normalize());
}

#[test]
fn normalize_counts_a_bare_list_and_keeps_an_envelope() {
    let bare = ListBody::Bare(vec![10, 20, 30]);
    assert_eq!(
        bare.normalize(),
        PaginatedResponse { count: 3, next: None, previous: None, results: vec![10, 20, 30] }
    );
    let page = PaginatedResponse {
        count: 57,
        next: Some("http://localhost:8080/api/x/?page=2".to_string()),
        previous: None,
        results: vec![1],
    };
    assert_eq!(ListBody::Enveloped(page.clone()).normalize(), page);
}

#[test]
fn test_create_and_retrieve_recipe() {
    let test_name = "Test Recipe 1700000000".to_string();
    let create_request = CreateRecipeRequest {
        name: test_name.clone(),
        description: Some("A test recipe created by integration tests".to_string()),
        servings: Some(4),
        working_time: 30,
        waiting_time: 15,
        keywords: vec![CreateKeywordRequest { name: "test".to_string() }],
        steps: vec![
            CreateStepRequest {
                name: Some("Preparation".to_string()),
                instruction: "Prepare all ingredients".to_string(),
                ingredients: vec![],
                time: Some(10),
                order: 1,
            },
            CreateStepRequest {
                name: Some("Cooking".to_string()),
                instruction: "Cook everything together".to_string(),
                ingredients: vec![],
                time: Some(20),
                order: 2,
            },
        ],
    };
    let c = client();
    let request = sent(c.create_recipe(create_request));
    match &request.body {
        Payload::Recipe(body) => {
            assert_eq!(body.name, test_name, "Recipe name should match");
            assert_eq!(body.servings, Some(4), "Servings should match");
            assert_eq!(body.steps.len(), 2, "Should have 2 steps");
        }
        other => panic!("expected a recipe, got {:?}", other),
    }
    let created: Result<i32, ClientError> = interpret(
        request.operation,
        Transport::Answered {
            status: status(201, "201 Created"),
            body: Some("{\"id\":17}".to_string()),
            decoded: Ok(17),
        },
    );
    assert_eq!(created, Ok(17));
    let get = sent(c.get_recipe(17));
    assert_eq!(get.url, "http://localhost:8080/api/recipe/17/");
}
