//! The tool side: what each tool is asked, the session guard that stands
//! before every call, and the reports that the tools hand back.

use vstd::prelude::*;
use crate::client::auth::{
    verdict,
    AuthError,
    AuthReply,
    LoginRequest,
    Method,
    AUTH_TIMEOUT_SECS,
};
use crate::client::client::{
    fails_with,
    sends,
    ApiRequest,
    ClientError,
    Operation,
    Payload,
    RemoteErrorKind,
    TandoorClient,
};
use crate::client::types::Quantity;
use crate::session::{
    decide,
    evaluate,
    settle,
    usable,
    CredentialStore,
    Decision,
    Invocation,
    Token,
    TokenCache,
};

pub mod catalog;
pub mod checkoff;
pub mod failure;
pub mod foods;
pub mod items;
pub mod pantry;
pub mod planning;
pub mod recipes;
pub mod shopping;

verus! {

#[derive(Debug, Clone, PartialEq, Eq)]
pub struct SearchRecipesParams {
    pub query: Option<String>,
    pub limit: Option<i32>,
}

#[derive(Debug, Clone, Copy, PartialEq, Eq)]
pub struct GetRecipeDetailsParams {
    pub id: i32,
    pub servings: Option<i32>,
}

#[derive(Debug, Clone, PartialEq, Eq)]
pub struct CreateRecipeParams {
    pub name: String,
    pub description: Option<String>,
    pub instructions: Option<String>,
    pub servings: Option<i32>,
    pub prep_time: Option<i32>,
    pub cook_time: Option<i32>,
}

#[derive(Debug, Clone, PartialEq, Eq)]
pub struct ImportRecipeParams {
    pub url: String,
}

#[derive(Debug, Clone, PartialEq, Eq)]
pub struct ShoppingItem {
    pub name: String,
    pub amount: Quantity,
    pub unit: Option<String>,
}

#[derive(Debug, Clone, PartialEq, Eq)]
pub struct AddToShoppingListParams {
    pub items: Option<Vec<ShoppingItem>>,
    pub request: Option<String>,
    pub from_recipe: Option<AddFromRecipeParams>,
}

#[derive(Debug, Clone, Copy, PartialEq, Eq)]
pub struct AddFromRecipeParams {
    pub recipe_id: i32,
    pub servings: Option<i32>,
}

#[derive(Debug, Clone, PartialEq, Eq)]
pub struct GetShoppingListParams {
    pub format: String,
}

/// How a caller points at a shopping-list entry: by its number, by the name
/// of its food, or by something that is neither.
#[derive(Debug, Clone, PartialEq, Eq)]
pub enum ItemRef {
    Id(i64),
    Name(String),
    Other,
}

#[derive(Debug, Clone, PartialEq, Eq)]
pub struct CheckShoppingItemsParams {
    pub items: Vec<ItemRef>,
}

#[derive(Debug, Clone, PartialEq, Eq)]
pub struct SearchFoodsParams {
    pub query: String,
    pub limit: Option<i32>,
}

#[derive(Debug, Clone, PartialEq, Eq)]
pub struct UpdatePantryItem {
    pub food: String,
    pub available: bool,
    pub amount: Option<Quantity>,
}

#[derive(Debug, Clone, PartialEq, Eq)]
pub struct UpdatePantryParams {
    pub items: Vec<UpdatePantryItem>,
}

#[derive(Debug, Clone, PartialEq, Eq)]
pub struct GetMealPlansParams {
    pub from_date: String,
    pub to_date: String,
    pub meal_type: Option<String>,
}

#[derive(Debug, Clone, PartialEq, Eq)]
pub struct CreateMealPlanParams {
    pub recipe_id: Option<i32>,
    pub title: Option<String>,
    pub servings: i32,
    pub date: String,
    pub meal_type: i32,
    pub note: Option<String>,
}

#[derive(Debug, Clone, Copy, PartialEq, Eq)]
pub struct DeleteMealPlanParams {
    pub id: i32,
}

#[derive(Debug, Clone, Copy, PartialEq, Eq)]
pub struct GetCookLogParams {
    pub recipe_id: Option<i32>,
    pub days_back: i32,
}

#[derive(Debug, Clone, PartialEq, Eq)]
pub struct LogCookedRecipeParams {
    pub recipe_id: i32,
    pub servings: i32,
    pub rating: Option<i32>,
    pub comment: Option<String>,
}

#[derive(Debug, Clone, PartialEq, Eq)]
pub struct SuggestFromInventoryParams {
    pub mode: String,
    pub days_until_expiry: i32,
}

/// The amount of a shopping item that names none: one, as a quantity.
pub fn default_amount() -> (r: Quantity)
    ensures
        r.bits == 0x3ff0_0000_0000_0000u64,
{
    Quantity { bits: 0x3ff0_0000_0000_0000u64 }
}

/// The layout of a shopping list that asks for none.
pub fn default_format() -> (r: String)
    ensures
        r@ == "flat"@,
{
    String::from_str("flat")
}

/// How many days back a cook log reaches that says nothing of it.
pub fn default_days_back() -> (r: i32)
    ensures
        r == 30,
{
    30
}

/// The servings of a cooked recipe that names none.
pub fn default_servings() -> (r: i32)
    ensures
        r == 1,
{
    1
}

/// The mode of a pantry suggestion that names none.
pub fn default_mode() -> (r: String)
    ensures
        r@ == "maximum-use"@,
{
    String::from_str("maximum-use")
}

/// The days until expiry of a pantry suggestion that names none.
pub fn default_days_until_expiry() -> (r: i32)
    ensures
        r == 3,
{
    3
}

/// What the session guard tells a tool to do before its call.
#[derive(Debug, PartialEq, Eq)]
pub enum GuardStep {
    /// The client holds a token: make the call.
    Ready,
    /// Send this request to the remote authenticator, once, and hand what
    /// comes back to [`TandoorMcpServer::authenticate`].
    Authenticate(LoginRequest),
    /// There is no token and no way to get one: the call must not be made.
    Unavailable(ClientError),
}

/// The token that an attempt to authenticate earned, if it earned one.
pub open spec fn granted(base_url: Seq<char>, reply: AuthReply) -> Option<Token> {
    match verdict(base_url, reply) {
        Ok(token) => Some(token),
        Err(_) => None,
    }
}

/// One tool server: a client of its own, behind the session that all servers
/// of the process share.
#[derive(Debug, Clone, PartialEq, Eq)]
pub struct TandoorMcpServer {
    client: TandoorClient,
}

impl TandoorMcpServer {
    /// The server's client, as the contracts see it.
    pub closed spec fn client_view(&self) -> TandoorClient {
        self.client
    }

    /// The base address of the remote service.
    pub open spec fn base(&self) -> Seq<char> {
        self.client_view().base()
    }

    /// The token that the server's client holds.
    pub open spec fn held(&self) -> Option<Token> {
        self.client_view().held()
    }

    /// A server for the service at `base_url`, its client without a token.
    pub fn new(base_url: String) -> (r: Self)
        ensures
            r.base() == base_url@,
            r.held() is None,
    {
        TandoorMcpServer { client: TandoorClient::new(base_url) }
    }

    /// A server for the service at `base_url`. The credentials go to the
    /// shared store, unless that holds a pair already.
    pub fn new_with_credentials(
        base_url: String,
        username: String,
        password: String,
        store: &mut CredentialStore,
    ) -> (r: Self)
        ensures
            r.base() == base_url@,
            r.held() is None,
            old(store)@ is Some ==> final(store)@ == old(store)@,
            old(store)@ is None ==> final(store)@ == Some(
                crate::session::CredentialView { username: username@, password: password@ },
            ),
    {
        store.initialize(username, password);
        TandoorMcpServer { client: TandoorClient::new(base_url) }
    }

    /// Puts `token` in the shared cache, in place of whatever it holds. This
    /// always succeeds.
    pub fn set_global_auth_token(&self, token: String, cache: &mut TokenCache) -> (r: Result<
        (),
        AuthError,
    >)
        ensures
            r is Ok,
            final(cache)@ == Some(token@),
    {
        cache.set(token);
        Ok(())
    }

    /// The request that exchanges `username` and `password` for a token.
    pub fn login_request(&self, username: String, password: String) -> (r: LoginRequest)
        ensures
            r.method == Method::Post,
            r.url@ == self.base() + "/api-token-auth/"@,
            r.body.username == username,
            r.body.password == password,
            r.timeout_secs == AUTH_TIMEOUT_SECS,
    {
        self.client.login_request(username, password)
    }

    /// Takes in what came back from one round trip to the remote
    /// authenticator. A token that was granted goes to the server's client
    /// and to the shared cache; a failure changes neither and is handed on as
    /// it is, with its cause.
    pub fn authenticate(&mut self, reply: AuthReply, cache: &mut TokenCache) -> (r: Result<
        (),
        AuthError,
    >)
        ensures
            final(self).base() == old(self).base(),
            final(cache)@ == settle(
                old(cache)@,
                old(self).held(),
                granted(old(self).base(), reply),
            ).cache,
            final(self).held() == settle(
                old(cache)@,
                old(self).held(),
                granted(old(self).base(), reply),
            ).local,
            match verdict(old(self).base(), reply) {
                Ok(_) => r is Ok,
                Err((kind, message)) => {
                    &&& r is Err
                    &&& r->Err_0.kind == kind
                    &&& r->Err_0.message@ == message
                },
            },
    {
        let result = self.client.authenticate(reply);
        match result {
            Ok(()) => {
                match self.client.get_token() {
                    Some(token) => {
                        cache.set(String::from_str(token));
                    },
                    None => {},
                }
                Ok(())
            },
            Err(error) => Err(error),
        }
    }

    /// The session guard. It looks for a token that is not empty in the
    /// server's own client, then for any token in the shared cache, which it
    /// adopts; failing both it asks for one round trip to the remote
    /// authenticator where credentials are stored, and refuses where none
    /// are. Only the adoption changes anything. Together with [`TandoorMcpServer::authenticate`], which
    /// takes in the answer of the round trip, this is one evaluation as
    /// [`evaluate`] describes it.
    pub fn ensure_authenticated(&mut self, cache: &TokenCache, store: &CredentialStore) -> (r:
        GuardStep)
        ensures
            final(self).base() == old(self).base(),
            (r is Authenticate) == (decide(old(self).held(), cache@, store@)
                == Decision::Authenticate),
            !(r is Authenticate) ==> forall|answer: Option<Token>|
                final(self).held() == (#[trigger] evaluate(
                    cache@,
                    store@,
                    Invocation { local: old(self).held(), answer },
                )).local,
            match decide(old(self).held(), cache@, store@) {
                Decision::UseLocal => r is Ready && final(self).held() == old(self).held(),
                Decision::AdoptShared => r is Ready && final(self).held() == cache@,
                Decision::Authenticate => {
                    &&& r is Authenticate
                    &&& r->Authenticate_0.method == Method::Post
                    &&& r->Authenticate_0.url@ == old(self).base() + "/api-token-auth/"@
                    &&& r->Authenticate_0.body.username@ == store@->0.username
                    &&& r->Authenticate_0.body.password@ == store@->0.password
                    &&& r->Authenticate_0.timeout_secs == AUTH_TIMEOUT_SECS
                    &&& final(self).held() == old(self).held()
                },
                Decision::Unavailable => {
                    &&& r is Unavailable
                    &&& fails_with::<()>(
                        Err(r->Unavailable_0),
                        RemoteErrorKind::SessionUnavailable,
                        "No authentication credentials available"@,
                    )
                    &&& final(self).held() == old(self).held()
                },
            },
    {
        if self.client.is_authenticated() {
            return GuardStep::Ready;
        }
        match cache.get() {
            Some(token) => {
                self.client.set_token(token);
                GuardStep::Ready
            },
            None => match store.get() {
                Some(pair) => GuardStep::Authenticate(
                    self.client.login_request(pair.username.clone(), pair.password.clone()),
                ),
                None => GuardStep::Unavailable(
                    ClientError {
                        kind: RemoteErrorKind::SessionUnavailable,
                        message: String::from_str("No authentication credentials available"),
                    },
                ),
            },
        }
    }

    /// The request that probes whether the token held opens the service, or
    /// the refusal to send anything where no token is held that is not
    /// empty.
    pub fn test_api_access(&self) -> (r: Result<ApiRequest, ClientError>)
        ensures
            if usable(self.held()) {
                sends(
                    r,
                    self.held(),
                    Operation::GetKeywords,
                    Method::Get,
                    self.base() + "/api/keyword/"@,
                    Payload::Empty,
                )
            } else {
                fails_with(
                    r,
                    RemoteErrorKind::NotAuthenticated,
                    "No authentication token available"@,
                )
            },
    {
        if self.client.is_authenticated() {
            self.client.get_keywords()
        } else {
            Err(
                ClientError {
                    kind: RemoteErrorKind::NotAuthenticated,
                    message: String::from_str("No authentication token available"),
                },
            )
        }
    }

    /// The server's client, for building the requests of a tool.
    pub fn client(&self) -> (r: &TandoorClient)
        ensures
            *r == self.client_view(),
    {
        &self.client
    }
}

} // verus!
