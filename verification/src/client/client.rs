//! The requests of each endpoint, and the judgement of what came back.
//!
//! A client never sends anything itself. Each endpoint method builds the
//! request to send, or refuses where no token is held; [`interpret`] turns
//! what the transport brought back into a value or a failure with its cause.

use vstd::prelude::*;
use vstd::utf8::encode_utf8;
use crate::client::auth::{
    is_server_error_code,
    is_success_code,
    AuthError,
    AuthReply,
    HttpStatus,
    LoginRequest,
    Method,
    TandoorAuth,
    AUTH_TIMEOUT_SECS,
};
use crate::client::types::{
    BulkShoppingListRequest,
    CreateCookLogRequest,
    CreateMealPlanRequest,
    CreateRecipeRequest,
    CreateShoppingListEntryRequest,
    RecipeImport,
    UpdateFoodRequest,
    UpdateShoppingListEntryRequest,
};
use crate::dates::{day_format, utc_day, Timestamp};
use crate::session::{usable, Token};
use crate::text::{concat2, concat3, decimal_i64, decimal_int, join, joined, texts};

verus! {

/// The endpoints of the remote service that the client speaks to.
#[derive(Clone, Copy, Debug, PartialEq, Eq, Structural)]
pub enum Operation {
    SearchRecipes,
    GetRecipe,
    CreateRecipe,
    ImportRecipe,
    SearchFoods,
    UpdateFoodAvailability,
    GetShoppingList,
    AddToShoppingList,
    AddBulkToShoppingList,
    UpdateShoppingListEntry,
    DeleteShoppingListEntry,
    GetMealPlans,
    CreateMealPlan,
    DeleteMealPlan,
    GetMealTypes,
    GetCookLog,
    LogCookedRecipe,
    GetKeywords,
    GetUnits,
}

/// The document that a request carries.
#[derive(Debug, Clone, PartialEq, Eq)]
pub enum Payload {
    Empty,
    Recipe(CreateRecipeRequest),
    Import(RecipeImport),
    Food(UpdateFoodRequest),
    Entry(CreateShoppingListEntryRequest),
    Entries(BulkShoppingListRequest),
    EntryUpdate(UpdateShoppingListEntryRequest),
    MealPlan(CreateMealPlanRequest),
    CookLog(CreateCookLogRequest),
}

/// A request, ready to be sent.
#[derive(Debug, Clone, PartialEq, Eq)]
pub struct ApiRequest {
    pub operation: Operation,
    pub method: Method,
    pub url: String,
    /// The value of the `Authorization` header.
    pub authorization: String,
    pub body: Payload,
    /// The seconds that the call may take at most.
    pub timeout_secs: u64,
}

/// Why a call to the remote service failed.
#[derive(Clone, Copy, Debug, PartialEq, Eq, Structural)]
pub enum RemoteErrorKind {
    /// The client holds no token; nothing was sent.
    NotAuthenticated,
    /// There is no token and there are no credentials to get one with;
    /// nothing was sent, to the authenticator either.
    SessionUnavailable,
    /// The request cannot be built from what was asked; nothing was sent.
    InvalidRequest,
    /// The service gave no answer.
    Network,
    /// The service found the request invalid.
    Validation,
    /// The service does not accept the token.
    Unauthorized,
    /// The service refuses the call to this user.
    Forbidden,
    /// The service has no such thing.
    NotFound,
    /// The service failed on its side.
    ServerError,
    /// The service answered with a status that fits none of the others.
    UnexpectedStatus,
    /// The service accepted, but its answer could not be read.
    MalformedResponse,
}

/// A failed call: its cause, and a message for whoever asked.
#[derive(Debug, Clone, PartialEq, Eq)]
pub struct ClientError {
    pub kind: RemoteErrorKind,
    pub message: String,
}

/// What the transport brought back from one request for a `T`.
#[derive(Debug, PartialEq, Eq)]
pub enum Transport<T> {
    /// No answer; `detail` is the transport's own account of why.
    Failed { detail: String },
    /// An answer: its status, its body as text where that could be read, and
    /// what decoding the body gave.
    Answered { status: HttpStatus, body: Option<String>, decoded: Result<T, String> },
}

/// The cause that a refusing status stands for.
pub open spec fn kind_of_status(code: u16) -> RemoteErrorKind {
    if code == 400 {
        RemoteErrorKind::Validation
    } else if code == 401 {
        RemoteErrorKind::Unauthorized
    } else if code == 403 {
        RemoteErrorKind::Forbidden
    } else if code == 404 {
        RemoteErrorKind::NotFound
    } else if is_server_error_code(code) {
        RemoteErrorKind::ServerError
    } else {
        RemoteErrorKind::UnexpectedStatus
    }
}

/// How the failure of an operation is headed.
pub open spec fn failure_label(operation: Operation) -> Seq<char> {
    match operation {
        Operation::SearchRecipes => "Failed to search recipes"@,
        Operation::GetRecipe => "Failed to get recipe"@,
        Operation::CreateRecipe => "Failed to create recipe"@,
        Operation::ImportRecipe => "Failed to import recipe"@,
        Operation::SearchFoods => "Failed to search foods"@,
        Operation::UpdateFoodAvailability => "Failed to update food availability"@,
        Operation::GetShoppingList => "Failed to get shopping list"@,
        Operation::AddToShoppingList => "Failed to add to shopping list"@,
        Operation::AddBulkToShoppingList => "Failed to add bulk to shopping list"@,
        Operation::UpdateShoppingListEntry => "Failed to update shopping list entry"@,
        Operation::DeleteShoppingListEntry => "Failed to delete shopping list entry"@,
        Operation::GetMealPlans => "Failed to get meal plans"@,
        Operation::CreateMealPlan => "Failed to create meal plan"@,
        Operation::DeleteMealPlan => "Failed to delete meal plan"@,
        Operation::GetMealTypes => "Failed to get meal types"@,
        Operation::GetCookLog => "Failed to get cook log"@,
        Operation::LogCookedRecipe => "Failed to log cooked recipe"@,
        Operation::GetKeywords => "Failed to get keywords"@,
        Operation::GetUnits => "Failed to get units"@,
    }
}

/// The body of a refusal as the messages quote it.
pub open spec fn quoted(body: Option<String>) -> Seq<char> {
    match body {
        Some(text) => text@,
        None => "Unable to read error response"@,
    }
}

/// The message that goes with a refusing status. The keyword endpoint, which
/// also serves to probe a fresh token, explains itself at more length than
/// the others.
pub open spec fn status_message(
    operation: Operation,
    status: HttpStatus,
    body: Option<String>,
) -> Seq<char> {
    if operation != Operation::GetKeywords {
        failure_label(operation) + ": "@ + status.text@
    } else {
        match kind_of_status(status.code) {
            RemoteErrorKind::Unauthorized =>
                "Authentication expired or invalid. Please re-authenticate."@,
            RemoteErrorKind::Forbidden =>
                "Access denied to keywords endpoint. Check user permissions."@,
            RemoteErrorKind::NotFound =>
                "Keywords endpoint not found. Check Tandoor version and API availability."@,
            RemoteErrorKind::ServerError => "Tandoor server error getting keywords ("@
                + status.text@ + "): "@ + quoted(body),
            _ => "Failed to get keywords with status "@ + status.text@ + ": "@ + quoted(body),
        }
    }
}

/// The message that goes with an unanswered request.
pub open spec fn network_message(operation: Operation, detail: Seq<char>) -> Seq<char> {
    if operation == Operation::GetKeywords {
        "Failed to connect to Tandoor API: "@ + detail
    } else {
        detail
    }
}

/// The message that goes with an answer that could not be read.
pub open spec fn decode_message(operation: Operation, detail: Seq<char>) -> Seq<char> {
    if operation == Operation::GetKeywords {
        "Invalid response format from Tandoor server: "@ + detail
    } else {
        detail
    }
}

/// What the transport's report amounts to: the value, or the cause and the
/// message of the failure.
pub open spec fn judged<T>(operation: Operation, transport: Transport<T>) -> Result<
    T,
    (RemoteErrorKind, Seq<char>),
> {
    match transport {
        Transport::Failed { detail } => Err(
            (RemoteErrorKind::Network, network_message(operation, detail@)),
        ),
        Transport::Answered { status, body, decoded } => if !is_success_code(status.code) {
            Err((kind_of_status(status.code), status_message(operation, status, body)))
        } else {
            match decoded {
                Ok(value) => Ok(value),
                Err(detail) => Err(
                    (RemoteErrorKind::MalformedResponse, decode_message(operation, detail@)),
                ),
            }
        },
    }
}

/// `r` is the failure with this cause and this message.
pub open spec fn fails_with<T>(
    r: Result<T, ClientError>,
    kind: RemoteErrorKind,
    message: Seq<char>,
) -> bool {
    &&& r is Err
    &&& r->Err_0.kind == kind
    &&& r->Err_0.message@ == message
}

impl Operation {
    /// How the failure of this operation is headed.
    pub fn label(self) -> (r: &'static str)
        ensures
            r@ == failure_label(self),
    {
        match self {
            Operation::SearchRecipes => "Failed to search recipes",
            Operation::GetRecipe => "Failed to get recipe",
            Operation::CreateRecipe => "Failed to create recipe",
            Operation::ImportRecipe => "Failed to import recipe",
            Operation::SearchFoods => "Failed to search foods",
            Operation::UpdateFoodAvailability => "Failed to update food availability",
            Operation::GetShoppingList => "Failed to get shopping list",
            Operation::AddToShoppingList => "Failed to add to shopping list",
            Operation::AddBulkToShoppingList => "Failed to add bulk to shopping list",
            Operation::UpdateShoppingListEntry => "Failed to update shopping list entry",
            Operation::DeleteShoppingListEntry => "Failed to delete shopping list entry",
            Operation::GetMealPlans => "Failed to get meal plans",
            Operation::CreateMealPlan => "Failed to create meal plan",
            Operation::DeleteMealPlan => "Failed to delete meal plan",
            Operation::GetMealTypes => "Failed to get meal types",
            Operation::GetCookLog => "Failed to get cook log",
            Operation::LogCookedRecipe => "Failed to log cooked recipe",
            Operation::GetKeywords => "Failed to get keywords",
            Operation::GetUnits => "Failed to get units",
        }
    }

    fn is_keywords(self) -> (r: bool)
        ensures
            r == (self == Operation::GetKeywords),
    {
        match self {
            Operation::GetKeywords => true,
            _ => false,
        }
    }
}

/// The cause that a refusing status stands for.
pub fn classify_status(code: u16) -> (r: RemoteErrorKind)
    ensures
        r == kind_of_status(code),
{
    if code == 400 {
        RemoteErrorKind::Validation
    } else if code == 401 {
        RemoteErrorKind::Unauthorized
    } else if code == 403 {
        RemoteErrorKind::Forbidden
    } else if code == 404 {
        RemoteErrorKind::NotFound
    } else if 500 <= code && code <= 599 {
        RemoteErrorKind::ServerError
    } else {
        RemoteErrorKind::UnexpectedStatus
    }
}

fn refused(operation: Operation, status: &HttpStatus, body: &Option<String>) -> (r: ClientError)
    ensures
        r.kind == kind_of_status(status.code),
        r.message@ == status_message(operation, *status, *body),
{
    let kind = classify_status(status.code);
    let cited: &str = match body {
        Some(text) => text.as_str(),
        None => "Unable to read error response",
    };
    let message = if !operation.is_keywords() {
        concat3(operation.label(), ": ", status.text.as_str())
    } else {
        match kind {
            RemoteErrorKind::Unauthorized => String::from_str(
                "Authentication expired or invalid. Please re-authenticate.",
            ),
            RemoteErrorKind::Forbidden => String::from_str(
                "Access denied to keywords endpoint. Check user permissions.",
            ),
            RemoteErrorKind::NotFound => String::from_str(
                "Keywords endpoint not found. Check Tandoor version and API availability.",
            ),
            RemoteErrorKind::ServerError => {
                let head = concat3(
                    "Tandoor server error getting keywords (",
                    status.text.as_str(),
                    "): ",
                );
                concat2(head.as_str(), cited)
            },
            _ => {
                let head = concat3(
                    "Failed to get keywords with status ",
                    status.text.as_str(),
                    ": ",
                );
                concat2(head.as_str(), cited)
            },
        }
    };
    ClientError { kind, message }
}

/// Judges what the transport brought back from a request of `operation`:
/// the decoded value where the service accepted and the body could be read,
/// and otherwise the failure with its cause.
pub fn interpret<T>(operation: Operation, transport: Transport<T>) -> (r: Result<T, ClientError>)
    ensures
        match judged(operation, transport) {
            Ok(value) => r == Ok::<T, ClientError>(value),
            Err((kind, message)) => fails_with(r, kind, message),
        },
{
    match transport {
        Transport::Failed { detail } => {
            let message = if operation.is_keywords() {
                concat2("Failed to connect to Tandoor API: ", detail.as_str())
            } else {
                detail
            };
            Err(ClientError { kind: RemoteErrorKind::Network, message })
        },
        Transport::Answered { status, body, decoded } => {
            if !status.is_success() {
                Err(refused(operation, &status, &body))
            } else {
                match decoded {
                    Ok(value) => Ok(value),
                    Err(detail) => {
                        let message = if operation.is_keywords() {
                            concat2(
                                "Invalid response format from Tandoor server: ",
                                detail.as_str(),
                            )
                        } else {
                            detail
                        };
                        Err(ClientError { kind: RemoteErrorKind::MalformedResponse, message })
                    },
                }
            }
        },
    }
}

/// A byte that percent-encoding leaves as it is: a letter, a digit, or one
/// of `-`, `.`, `_`, `~`.
pub open spec fn is_unreserved(b: u8) -> bool {
    ||| 0x30 <= b <= 0x39
    ||| 0x41 <= b <= 0x5a
    ||| 0x61 <= b <= 0x7a
    ||| b == 0x2d
    ||| b == 0x2e
    ||| b == 0x5f
    ||| b == 0x7e
}

/// The upper-case hexadecimal digit for `d`, for `0 <= d < 16`.
pub open spec fn hex_digit(d: int) -> char {
    if d < 10 {
        ((0x30 + d) as u8) as char
    } else {
        ((0x41 + d - 10) as u8) as char
    }
}

/// One byte, percent-encoded.
pub open spec fn percent_encoded_byte(b: u8) -> Seq<char> {
    if is_unreserved(b) {
        seq![b as char]
    } else {
        seq!['%', hex_digit(b as int / 16), hex_digit(b as int % 16)]
    }
}

/// A run of bytes, percent-encoded byte by byte.
pub open spec fn percent_encoded(bytes: Seq<u8>) -> Seq<char>
    decreases bytes.len(),
{
    if bytes.len() == 0 {
        Seq::empty()
    } else {
        percent_encoded(bytes.drop_last()) + percent_encoded_byte(bytes.last())
    }
}

/// A text as it stands in a query: the bytes of its UTF-8 form,
/// percent-encoded.
pub open spec fn query_escaped(text: Seq<char>) -> Seq<char> {
    percent_encoded(encode_utf8(text))
}

/// Calls `urlencoding::encode`, which walks the bytes of the text's UTF-8
/// form, copies letters, digits and `-`, `.`, `_`, `~`, and writes every other
/// byte as `%` and two upper-case hexadecimal digits.
#[verifier::external_body]
pub(crate) fn escape(text: &str) -> (r: String)
    ensures
        r@ == percent_encoded(encode_utf8(text@)),
{
    urlencoding::encode(text).into_owned()
}

/// The seconds that one call to the service may take.
pub const REQUEST_TIMEOUT_SECS: u64 = 10;

/// How many characters of a token a preview shows.
pub const PREVIEW_CHARS: usize = 10;

/// The value of the `Authorization` header for a token.
pub open spec fn bearer(token: Token) -> Seq<char> {
    "Bearer "@ + token
}

/// The start of a token that may be shown in a log, and three dots.
pub open spec fn preview(token: Token) -> Seq<char> {
    if token.len() <= PREVIEW_CHARS {
        token + "..."@
    } else {
        token.subrange(0, PREVIEW_CHARS as int) + "..."@
    }
}

/// The address of the thing numbered `id` under `path`.
pub open spec fn item_url(base: Seq<char>, path: Seq<char>, id: i32) -> Seq<char> {
    base + path + decimal_int(id as int) + "/"@
}

/// An address with its query: nothing is added where there are no
/// parameters, else a question mark and the parameters with `&` between them.
pub open spec fn with_query(url: Seq<char>, params: Seq<Seq<char>>) -> Seq<char> {
    if params.len() == 0 {
        url
    } else {
        url + "?"@ + joined(params, "&"@)
    }
}

/// A parameter that is only written where a value is given.
pub open spec fn optional_param(name: Seq<char>, value: Option<Seq<char>>) -> Seq<Seq<char>> {
    match value {
        Some(text) => seq![name + text],
        None => Seq::empty(),
    }
}

/// The decimal form of a number that may be missing.
pub open spec fn optional_decimal(value: Option<i32>) -> Option<Seq<char>> {
    match value {
        Some(n) => Some(decimal_int(n as int)),
        None => None,
    }
}

/// A text that may be missing, escaped for a query.
pub open spec fn optional_escaped(value: Option<Seq<char>>) -> Option<Seq<char>> {
    match value {
        Some(text) => Some(query_escaped(text)),
        None => None,
    }
}

/// The view of a text that may be missing.
pub open spec fn optional_text(value: Option<&str>) -> Option<Seq<char>> {
    match value {
        Some(text) => Some(text@),
        None => None,
    }
}

/// The address of a recipe search.
pub open spec fn search_recipes_url(
    base: Seq<char>,
    query: Option<Seq<char>>,
    limit: Option<i32>,
) -> Seq<char> {
    with_query(
        base + "/api/recipe/"@,
        optional_param("query="@, optional_escaped(query)) + optional_param(
            "page_size="@,
            optional_decimal(limit),
        ),
    )
}

/// The address of a food search.
pub open spec fn search_foods_url(base: Seq<char>, query: Seq<char>, limit: Option<i32>) -> Seq<
    char,
> {
    let start = base + "/api/food/?query="@ + query_escaped(query);
    match limit {
        Some(n) => start + "&page_size="@ + decimal_int(n as int),
        None => start,
    }
}

/// The address of a reading of meal plans.
pub open spec fn meal_plans_url(
    base: Seq<char>,
    from_date: Option<Seq<char>>,
    to_date: Option<Seq<char>>,
) -> Seq<char> {
    with_query(
        base + "/api/meal-plan/"@,
        optional_param("from_date="@, from_date) + optional_param("to_date="@, to_date),
    )
}

/// The address of a reading of the cook log.
pub open spec fn cook_log_url(
    base: Seq<char>,
    recipe_id: Option<i32>,
    since: Option<Seq<char>>,
) -> Seq<char> {
    with_query(
        base + "/api/cook-log/"@,
        optional_param("recipe="@, optional_decimal(recipe_id)) + optional_param(
            "from_date="@,
            since,
        ),
    )
}

/// The day from which a cook log reaching `days_back` days back from `now`
/// starts: no day where no reach is asked for, and a refusal where the day
/// lies beyond what the calendar can name.
pub open spec fn cook_log_since(days_back: Option<i32>, now: Timestamp) -> Result<
    Option<Seq<char>>,
    (),
> {
    match days_back {
        None => Ok(None),
        Some(days) => match Timestamp::spec_days_earlier(now, days) {
            None => Err(()),
            Some(start) => match utc_day(start.secs as int, day_format()) {
                None => Err(()),
                Some(day) => Ok(Some(day)),
            },
        },
    }
}

/// `r` is the request described, where a token is held; where none is,
/// `r` is the refusal to send anything.
pub open spec fn sends(
    r: Result<ApiRequest, ClientError>,
    held: Option<Token>,
    operation: Operation,
    method: Method,
    url: Seq<char>,
    body: Payload,
) -> bool {
    match held {
        None => fails_with(
            r,
            RemoteErrorKind::NotAuthenticated,
            "Not authenticated - please verify credentials and re-authenticate"@,
        ),
        Some(token) => {
            &&& r is Ok
            &&& r->Ok_0.operation == operation
            &&& r->Ok_0.method == method
            &&& r->Ok_0.url@ == url
            &&& r->Ok_0.authorization@ == bearer(token)
            &&& r->Ok_0.body == body
            &&& r->Ok_0.timeout_secs == REQUEST_TIMEOUT_SECS
        },
    }
}

fn append_query(url: String, params: &Vec<String>) -> (r: String)
    ensures
        r@ == with_query(url@, texts(params@)),
{
    if params.len() == 0 {
        url
    } else {
        let query = join(params, "&");
        let mut r = url;
        r.append("?");
        r.append(query.as_str());
        r
    }
}

fn push_param(params: &mut Vec<String>, name: &str, value: Option<&str>)
    ensures
        texts(final(params)@) == texts(old(params)@) + optional_param(name@, optional_text(value)),
{
    match value {
        Some(text) => {
            let param = concat2(name, text);
            params.push(param);
            assert(texts(params@) =~= texts(old(params)@) + seq![name@ + text@]);
        },
        None => {
            assert(texts(params@) =~= texts(old(params)@) + Seq::<Seq<char>>::empty());
        },
    }
}

/// A client of the service at one base address, with the token it holds.
#[derive(Debug, Clone, PartialEq, Eq)]
pub struct TandoorClient {
    auth: TandoorAuth,
}

impl TandoorClient {
    /// The base address, as the contracts see it.
    pub closed spec fn base(&self) -> Seq<char> {
        self.auth.base()
    }

    /// The token held, as the contracts see it.
    pub closed spec fn held(&self) -> Option<Token> {
        self.auth.held()
    }

    /// A client of the service at `base_url`, without a token.
    pub fn new(base_url: String) -> (r: Self)
        ensures
            r.base() == base_url@,
            r.held() is None,
    {
        TandoorClient { auth: TandoorAuth::new(base_url) }
    }

    /// The request that exchanges `username` and `password` for a token.
    pub fn login_request(&self, username: String, password: String) -> (r: LoginRequest)
        ensures
            r.method == Method::Post,
            r.url@ == self.base() + "/api-token-auth/"@,
            r.body.username == username,
            r.body.password == password,
            r.timeout_secs == AUTH_TIMEOUT_SECS,
    {
        self.auth.login_request(username, password)
    }

    /// Takes in what came back from one attempt to authenticate. A token is
    /// kept; any failure leaves the client as it was and is reported with its
    /// cause.
    pub fn authenticate(&mut self, reply: AuthReply) -> (r: Result<(), AuthError>)
        ensures
            final(self).base() == old(self).base(),
            match crate::client::auth::verdict(old(self).base(), reply) {
                Ok(token) => r is Ok && final(self).held() == Some(token),
                Err((kind, message)) => {
                    &&& r is Err
                    &&& r->Err_0.kind == kind
                    &&& r->Err_0.message@ == message
                    &&& final(self).held() == old(self).held()
                },
            },
    {
        self.auth.authenticate(reply)
    }

    /// Whether a token is held that the client may go ahead with: one that
    /// is not the empty text.
    pub fn is_authenticated(&self) -> (r: bool)
        ensures
            r == usable(self.held()),
    {
        self.auth.is_authenticated()
    }

    /// The start of the token held, fit to be shown in a log.
    pub fn get_token_preview(&self) -> (r: Option<String>)
        ensures
            r is Some <==> self.held() is Some,
            r is Some ==> r->0@ == preview(self.held()->0),
    {
        match self.auth.get_token() {
            Some(token) => {
                let length = token.unicode_len();
                let shown = if length <= PREVIEW_CHARS {
                    length
                } else {
                    PREVIEW_CHARS
                };
                let start = token.substring_char(0, shown);
                assert(length <= PREVIEW_CHARS ==> start@ =~= token@);
                Some(concat2(start, "..."))
            },
            None => None,
        }
    }

    /// Replaces whatever token is held by `token`.
    pub fn set_token(&mut self, token: String)
        ensures
            final(self).base() == old(self).base(),
            final(self).held() == Some(token@),
    {
        self.auth.set_token(token);
    }

    /// The token held, if any.
    pub fn get_token(&self) -> (r: Option<&str>)
        ensures
            r is Some <==> self.held() is Some,
            r is Some ==> r->0@ == self.held()->0,
    {
        self.auth.get_token()
    }

    /// The value of the `Authorization` header, or the refusal to send
    /// anything where no token is held.
    pub fn get_auth_header(&self) -> (r: Result<String, ClientError>)
        ensures
            match self.held() {
                Some(token) => r is Ok && r->Ok_0@ == bearer(token),
                None => fails_with(
                    r,
                    RemoteErrorKind::NotAuthenticated,
                    "Not authenticated - please verify credentials and re-authenticate"@,
                ),
            },
    {
        match self.auth.get_token() {
            Some(token) => Ok(concat2("Bearer ", token)),
            None => Err(
                ClientError {
                    kind: RemoteErrorKind::NotAuthenticated,
                    message: String::from_str(
                        "Not authenticated - please verify credentials and re-authenticate",
                    ),
                },
            ),
        }
    }

    fn request(&self, operation: Operation, method: Method, url: String, body: Payload) -> (r:
        Result<ApiRequest, ClientError>)
        ensures
            sends(r, self.held(), operation, method, url@, body),
    {
        match self.get_auth_header() {
            Ok(authorization) => Ok(
                ApiRequest {
                    operation,
                    method,
                    url,
                    authorization,
                    body,
                    timeout_secs: REQUEST_TIMEOUT_SECS,
                },
            ),
            Err(error) => Err(error),
        }
    }

    fn endpoint(&self, path: &str) -> (r: String)
        ensures
            r@ == self.base() + path@,
    {
        concat2(self.auth.base_url(), path)
    }

    fn item(&self, path: &str, id: i32) -> (r: String)
        ensures
            r@ == item_url(self.base(), path@, id),
    {
        let number = decimal_i64(id as i64);
        let mut r = concat3(self.auth.base_url(), path, number.as_str());
        r.append("/");
        r
    }

    /// Searches recipes, by free text where `query` is given, at most `limit`
    /// to the page where that is given.
    pub fn search_recipes(&self, query: Option<&str>, limit: Option<i32>) -> (r: Result<
        ApiRequest,
        ClientError,
    >)
        ensures
            sends(
                r,
                self.held(),
                Operation::SearchRecipes,
                Method::Get,
                search_recipes_url(self.base(), optional_text(query), limit),
                Payload::Empty,
            ),
    {
        let mut params: Vec<String> = Vec::new();
        assert(texts(params@) =~= Seq::<Seq<char>>::empty());
        match query {
            Some(text) => {
                let escaped = escape(text);
                push_param(&mut params, "query=", Some(escaped.as_str()));
            },
            None => {
                push_param(&mut params, "query=", None);
            },
        }
        match limit {
            Some(n) => {
                let number = decimal_i64(n as i64);
                push_param(&mut params, "page_size=", Some(number.as_str()));
            },
            None => {
                push_param(&mut params, "page_size=", None);
            },
        }
        assert(texts(params@) =~= optional_param(
            "query="@,
            optional_escaped(optional_text(query)),
        ) + optional_param("page_size="@, optional_decimal(limit)));
        let url = append_query(self.endpoint("/api/recipe/"), &params);
        self.request(Operation::SearchRecipes, Method::Get, url, Payload::Empty)
    }

    /// Reads the recipe numbered `id`.
    pub fn get_recipe(&self, id: i32) -> (r: Result<ApiRequest, ClientError>)
        ensures
            sends(
                r,
                self.held(),
                Operation::GetRecipe,
                Method::Get,
                item_url(self.base(), "/api/recipe/"@, id),
                Payload::Empty,
            ),
    {
        self.request(
            Operation::GetRecipe,
            Method::Get,
            self.item("/api/recipe/", id),
            Payload::Empty,
        )
    }

    /// Creates a recipe.
    pub fn create_recipe(&self, request: CreateRecipeRequest) -> (r: Result<
        ApiRequest,
        ClientError,
    >)
        ensures
            sends(
                r,
                self.held(),
                Operation::CreateRecipe,
                Method::Post,
                self.base() + "/api/recipe/"@,
                Payload::Recipe(request),
            ),
    {
        self.request(
            Operation::CreateRecipe,
            Method::Post,
            self.endpoint("/api/recipe/"),
            Payload::Recipe(request),
        )
    }

    /// Has the service fetch a recipe from the page at `url`.
    pub fn import_recipe_from_url(&self, url: &str) -> (r: Result<ApiRequest, ClientError>)
        ensures
            match self.held() {
                None => sends(
                    r,
                    None,
                    Operation::ImportRecipe,
                    Method::Post,
                    Seq::empty(),
                    Payload::Empty,
                ),
                Some(token) => {
                    &&& r is Ok
                    &&& r->Ok_0.body is Import
                    &&& r->Ok_0.body->Import_0.url@ == url@
                    &&& sends(
                        r,
                        self.held(),
                        Operation::ImportRecipe,
                        Method::Post,
                        self.base() + "/api/recipe-from-source/"@,
                        r->Ok_0.body,
                    )
                },
            },
    {
        self.request(
            Operation::ImportRecipe,
            Method::Post,
            self.endpoint("/api/recipe-from-source/"),
            Payload::Import(RecipeImport { url: String::from_str(url) }),
        )
    }

    /// Searches foods by free text, at most `limit` to the page where that is
    /// given.
    pub fn search_foods(&self, query: &str, limit: Option<i32>) -> (r: Result<
        ApiRequest,
        ClientError,
    >)
        ensures
            sends(
                r,
                self.held(),
                Operation::SearchFoods,
                Method::Get,
                search_foods_url(self.base(), query@, limit),
                Payload::Empty,
            ),
    {
        let escaped = escape(query);
        let mut url = concat3(self.auth.base_url(), "/api/food/?query=", escaped.as_str());
        match limit {
            Some(n) => {
                let number = decimal_i64(n as i64);
                url.append("&page_size=");
                url.append(number.as_str());
            },
            None => {},
        }
        self.request(Operation::SearchFoods, Method::Get, url, Payload::Empty)
    }

    /// Marks the food numbered `food_id` as on hand or not.
    pub fn update_food_availability(&self, food_id: i32, available: bool) -> (r: Result<
        ApiRequest,
        ClientError,
    >)
        ensures
            sends(
                r,
                self.held(),
                Operation::UpdateFoodAvailability,
                Method::Patch,
                item_url(self.base(), "/api/food/"@, food_id),
                Payload::Food(UpdateFoodRequest { food_onhand: Some(available) }),
            ),
    {
        self.request(
            Operation::UpdateFoodAvailability,
            Method::Patch,
            self.item("/api/food/", food_id),
            Payload::Food(UpdateFoodRequest { food_onhand: Some(available) }),
        )
    }

    /// Reads the shopping list.
    pub fn get_shopping_list(&self) -> (r: Result<ApiRequest, ClientError>)
        ensures
            sends(
                r,
                self.held(),
                Operation::GetShoppingList,
                Method::Get,
                self.base() + "/api/shopping-list-entry/"@,
                Payload::Empty,
            ),
    {
        self.request(
            Operation::GetShoppingList,
            Method::Get,
            self.endpoint("/api/shopping-list-entry/"),
            Payload::Empty,
        )
    }

    /// Adds one entry to the shopping list.
    pub fn add_to_shopping_list(&self, request: CreateShoppingListEntryRequest) -> (r: Result<
        ApiRequest,
        ClientError,
    >)
        ensures
            sends(
                r,
                self.held(),
                Operation::AddToShoppingList,
                Method::Post,
                self.base() + "/api/shopping-list-entry/"@,
                Payload::Entry(request),
            ),
    {
        self.request(
            Operation::AddToShoppingList,
            Method::Post,
            self.endpoint("/api/shopping-list-entry/"),
            Payload::Entry(request),
        )
    }

    /// Adds several entries to the shopping list at once.
    pub fn add_bulk_to_shopping_list(&self, entries: Vec<CreateShoppingListEntryRequest>) -> (r:
        Result<ApiRequest, ClientError>)
        ensures
            sends(
                r,
                self.held(),
                Operation::AddBulkToShoppingList,
                Method::Post,
                self.base() + "/api/shopping-list-entry/bulk/"@,
                Payload::Entries(BulkShoppingListRequest { entries }),
            ),
    {
        self.request(
            Operation::AddBulkToShoppingList,
            Method::Post,
            self.endpoint("/api/shopping-list-entry/bulk/"),
            Payload::Entries(BulkShoppingListRequest { entries }),
        )
    }

    /// Changes the shopping-list entry numbered `entry_id`.
    pub fn update_shopping_list_entry(
        &self,
        entry_id: i32,
        request: UpdateShoppingListEntryRequest,
    ) -> (r: Result<ApiRequest, ClientError>)
        ensures
            sends(
                r,
                self.held(),
                Operation::UpdateShoppingListEntry,
                Method::Patch,
                item_url(self.base(), "/api/shopping-list-entry/"@, entry_id),
                Payload::EntryUpdate(request),
            ),
    {
        self.request(
            Operation::UpdateShoppingListEntry,
            Method::Patch,
            self.item("/api/shopping-list-entry/", entry_id),
            Payload::EntryUpdate(request),
        )
    }

    /// Removes the shopping-list entry numbered `entry_id`.
    pub fn delete_shopping_list_entry(&self, entry_id: i32) -> (r: Result<ApiRequest, ClientError>)
        ensures
            sends(
                r,
                self.held(),
                Operation::DeleteShoppingListEntry,
                Method::Delete,
                item_url(self.base(), "/api/shopping-list-entry/"@, entry_id),
                Payload::Empty,
            ),
    {
        self.request(
            Operation::DeleteShoppingListEntry,
            Method::Delete,
            self.item("/api/shopping-list-entry/", entry_id),
            Payload::Empty,
        )
    }

    /// Reads the meal plans, from and up to the days given.
    pub fn get_meal_plans(&self, from_date: Option<&str>, to_date: Option<&str>) -> (r: Result<
        ApiRequest,
        ClientError,
    >)
        ensures
            sends(
                r,
                self.held(),
                Operation::GetMealPlans,
                Method::Get,
                meal_plans_url(self.base(), optional_text(from_date), optional_text(to_date)),
                Payload::Empty,
            ),
    {
        let mut params: Vec<String> = Vec::new();
        assert(texts(params@) =~= Seq::<Seq<char>>::empty());
        push_param(&mut params, "from_date=", from_date);
        push_param(&mut params, "to_date=", to_date);
        assert(texts(params@) =~= optional_param("from_date="@, optional_text(from_date))
            + optional_param("to_date="@, optional_text(to_date)));
        let url = append_query(self.endpoint("/api/meal-plan/"), &params);
        self.request(Operation::GetMealPlans, Method::Get, url, Payload::Empty)
    }

    /// Creates a meal plan.
    pub fn create_meal_plan(&self, request: CreateMealPlanRequest) -> (r: Result<
        ApiRequest,
        ClientError,
    >)
        ensures
            sends(
                r,
                self.held(),
                Operation::CreateMealPlan,
                Method::Post,
                self.base() + "/api/meal-plan/"@,
                Payload::MealPlan(request),
            ),
    {
        self.request(
            Operation::CreateMealPlan,
            Method::Post,
            self.endpoint("/api/meal-plan/"),
            Payload::MealPlan(request),
        )
    }

    /// Removes the meal plan numbered `plan_id`.
    pub fn delete_meal_plan(&self, plan_id: i32) -> (r: Result<ApiRequest, ClientError>)
        ensures
            sends(
                r,
                self.held(),
                Operation::DeleteMealPlan,
                Method::Delete,
                item_url(self.base(), "/api/meal-plan/"@, plan_id),
                Payload::Empty,
            ),
    {
        self.request(
            Operation::DeleteMealPlan,
            Method::Delete,
            self.item("/api/meal-plan/", plan_id),
            Payload::Empty,
        )
    }

    /// Reads the meal types.
    pub fn get_meal_types(&self) -> (r: Result<ApiRequest, ClientError>)
        ensures
            sends(
                r,
                self.held(),
                Operation::GetMealTypes,
                Method::Get,
                self.base() + "/api/meal-type/"@,
                Payload::Empty,
            ),
    {
        self.request(
            Operation::GetMealTypes,
            Method::Get,
            self.endpoint("/api/meal-type/"),
            Payload::Empty,
        )
    }

    /// Reads the cook log, of one recipe where `recipe_id` is given, from the
    /// day `since` on where that is given.
    pub fn cook_log_request(&self, recipe_id: Option<i32>, since: Option<&str>) -> (r: Result<
        ApiRequest,
        ClientError,
    >)
        ensures
            sends(
                r,
                self.held(),
                Operation::GetCookLog,
                Method::Get,
                cook_log_url(self.base(), recipe_id, optional_text(since)),
                Payload::Empty,
            ),
    {
        let mut params: Vec<String> = Vec::new();
        assert(texts(params@) =~= Seq::<Seq<char>>::empty());
        match recipe_id {
            Some(n) => {
                let number = decimal_i64(n as i64);
                push_param(&mut params, "recipe=", Some(number.as_str()));
            },
            None => {
                push_param(&mut params, "recipe=", None);
            },
        }
        push_param(&mut params, "from_date=", since);
        assert(texts(params@) =~= optional_param("recipe="@, optional_decimal(recipe_id))
            + optional_param("from_date="@, optional_text(since)));
        let url = append_query(self.endpoint("/api/cook-log/"), &params);
        self.request(Operation::GetCookLog, Method::Get, url, Payload::Empty)
    }

    /// Reads the cook log, of one recipe where `recipe_id` is given, and no
    /// further back than `days_back` days before `now` where that is given.
    /// Where that day lies beyond what the calendar can name, nothing is to
    /// be sent.
    pub fn get_cook_log(&self, recipe_id: Option<i32>, days_back: Option<i32>, now: Timestamp) -> (r:
        Result<ApiRequest, ClientError>)
        ensures
            match cook_log_since(days_back, now) {
                Ok(since) => sends(
                    r,
                    self.held(),
                    Operation::GetCookLog,
                    Method::Get,
                    cook_log_url(self.base(), recipe_id, since),
                    Payload::Empty,
                ),
                Err(_) => match self.held() {
                    None => sends(
                        r,
                        None,
                        Operation::GetCookLog,
                        Method::Get,
                        Seq::empty(),
                        Payload::Empty,
                    ),
                    Some(_) => fails_with(
                        r,
                        RemoteErrorKind::InvalidRequest,
                        "The start of the cook log lies beyond the calendar"@,
                    ),
                },
            },
    {
        match days_back {
            None => self.cook_log_request(recipe_id, None),
            Some(days) => {
                let day = match now.days_earlier(days) {
                    Some(start) => start.day(),
                    None => None,
                };
                match day {
                    Some(text) => self.cook_log_request(recipe_id, Some(text.as_str())),
                    None => {
                        match self.get_auth_header() {
                            Ok(_) => Err(
                                ClientError {
                                    kind: RemoteErrorKind::InvalidRequest,
                                    message: String::from_str(
                                        "The start of the cook log lies beyond the calendar",
                                    ),
                                },
                            ),
                            Err(error) => Err(error),
                        }
                    },
                }
            },
        }
    }

    /// Records that a recipe was cooked.
    pub fn log_cooked_recipe(&self, request: CreateCookLogRequest) -> (r: Result<
        ApiRequest,
        ClientError,
    >)
        ensures
            sends(
                r,
                self.held(),
                Operation::LogCookedRecipe,
                Method::Post,
                self.base() + "/api/cook-log/"@,
                Payload::CookLog(request),
            ),
    {
        self.request(
            Operation::LogCookedRecipe,
            Method::Post,
            self.endpoint("/api/cook-log/"),
            Payload::CookLog(request),
        )
    }

    /// Reads the keywords.
    pub fn get_keywords(&self) -> (r: Result<ApiRequest, ClientError>)
        ensures
            sends(
                r,
                self.held(),
                Operation::GetKeywords,
                Method::Get,
                self.base() + "/api/keyword/"@,
                Payload::Empty,
            ),
    {
        self.request(
            Operation::GetKeywords,
            Method::Get,
            self.endpoint("/api/keyword/"),
            Payload::Empty,
        )
    }

    /// Reads the units.
    pub fn get_units(&self) -> (r: Result<ApiRequest, ClientError>)
        ensures
            sends(
                r,
                self.held(),
                Operation::GetUnits,
                Method::Get,
                self.base() + "/api/unit/"@,
                Payload::Empty,
            ),
    {
        self.request(
            Operation::GetUnits,
            Method::Get,
            self.endpoint("/api/unit/"),
            Payload::Empty,
        )
    }
}

} // verus!
