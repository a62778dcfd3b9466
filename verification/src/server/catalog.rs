//! The catalogue tools: keywords and units. The keyword tool is also the
//! one that tells a caller why the session is not usable.

use vstd::prelude::*;
use crate::client::auth::{kind_name, AuthError, AuthErrorKind};
use crate::client::client::ClientError;
use crate::client::types::{Keyword, PaginatedResponse, Unit};
use crate::server::failure::{
    advised_failure,
    fails_plainly,
    opt_view,
    ToolFailure,
    ToolFailureView,
};
use crate::text::{contains, copy_opt, occurs_in};

verus! {

/// What the tools tell of one keyword.
#[derive(Debug, Clone, PartialEq, Eq)]
pub struct KeywordSummary {
    pub id: i32,
    pub name: String,
    pub description: Option<String>,
}

/// `s` is what the tools tell of `keyword`.
pub open spec fn is_keyword_summary(s: KeywordSummary, keyword: Keyword) -> bool {
    &&& s.id == keyword.id
    &&& s.name@ == keyword.name@
    &&& opt_view(s.description) == opt_view(keyword.description)
}

/// `summaries` tells of `keywords`, one for one and in their order.
pub open spec fn are_keyword_summaries(summaries: Seq<KeywordSummary>, keywords: Seq<Keyword>) -> bool {
    &&& summaries.len() == keywords.len()
    &&& forall|i: int|
        0 <= i < summaries.len() ==> is_keyword_summary(#[trigger] summaries[i], keywords[i])
}

/// What the keyword tool hands back.
#[derive(Debug, Clone, PartialEq, Eq)]
pub struct KeywordsReport {
    pub keywords: Vec<KeywordSummary>,
    pub total_count: i32,
}

/// The failure of a tool whose session guard was refused a token by the
/// remote authenticator: the category is the same for every cause, the cause
/// goes with it by its name, and the authenticator's own message is handed
/// on as it is.
pub open spec fn guard_failure(kind: AuthErrorKind, details: Seq<char>) -> ToolFailureView {
    ToolFailureView {
        kind: Some(kind_name(kind)),
        ..advised_failure(
            "Authentication Error"@,
            "Failed to authenticate with Tandoor"@,
            details,
            "Check your Tandoor credentials and server connectivity"@,
        )
    }
}

/// The failure of a tool whose session guard found no token and no
/// credentials to get one with. It is a category of its own, since nothing
/// was asked of the remote authenticator.
pub open spec fn unavailable_failure(details: Seq<char>) -> ToolFailureView {
    ToolFailureView {
        kind: Some("session_unavailable"@),
        ..advised_failure(
            "Session Unavailable"@,
            "No token is held and no credentials are stored"@,
            details,
            "Supply credentials or a token when the server is started"@,
        )
    }
}

/// The failure of the keyword reading, told apart by what its report says:
/// a client without a token, a service that could not be reached, or
/// anything else.
pub open spec fn keywords_failure(details: Seq<char>) -> ToolFailureView {
    if occurs_in("Not authenticated"@, details) {
        advised_failure(
            "Authentication Error"@,
            "Your authentication token has expired or is invalid"@,
            details,
            "Please restart the MCP server to re-authenticate with Tandoor"@,
        )
    } else if occurs_in("Failed to connect"@, details) {
        advised_failure(
            "Connection Error"@,
            "Unable to connect to Tandoor server"@,
            details,
            "Check that Tandoor is running and accessible at the configured URL"@,
        )
    } else {
        advised_failure(
            "Failed to get keywords"@,
            "An unexpected error occurred while fetching keywords"@,
            details,
            "Check server logs for more details"@,
        )
    }
}

/// The failure that a tool hands back where the remote authenticator refused
/// the session guard a token.
pub fn authentication_failure(error: AuthError) -> (r: ToolFailure)
    ensures
        r@ == guard_failure(error.kind, error.message@),
{
    let mut failure = ToolFailure::advised(
        "Authentication Error",
        "Failed to authenticate with Tandoor",
        error.message,
        "Check your Tandoor credentials and server connectivity",
    );
    failure.kind = Some(String::from_str(error.kind.name()));
    failure
}

/// The failure that a tool hands back where the session guard found no token
/// and no credentials; `refusal` is what the guard said.
pub fn session_unavailable_failure(refusal: ClientError) -> (r: ToolFailure)
    ensures
        r@ == unavailable_failure(refusal.message@),
{
    let mut failure = ToolFailure::advised(
        "Session Unavailable",
        "No token is held and no credentials are stored",
        refusal.message,
        "Supply credentials or a token when the server is started",
    );
    failure.kind = Some(String::from_str("session_unavailable"));
    failure
}

/// Shapes the keywords for the caller, or tells what kind of failure the
/// reading met.
pub fn get_keywords(reply: Result<PaginatedResponse<Keyword>, ClientError>) -> (r: Result<
    KeywordsReport,
    ToolFailure,
>)
    ensures
        match reply {
            Err(error) => r is Err && r->Err_0@ == keywords_failure(error.message@),
            Ok(page) => {
                &&& r is Ok
                &&& are_keyword_summaries(r->Ok_0.keywords@, page.results@)
                &&& r->Ok_0.total_count == page.count
            },
        },
{
    match reply {
        Err(error) => {
            let details = error.message;
            if contains(details.as_str(), "Not authenticated") {
                Err(
                    ToolFailure::advised(
                        "Authentication Error",
                        "Your authentication token has expired or is invalid",
                        details,
                        "Please restart the MCP server to re-authenticate with Tandoor",
                    ),
                )
            } else if contains(details.as_str(), "Failed to connect") {
                Err(
                    ToolFailure::advised(
                        "Connection Error",
                        "Unable to connect to Tandoor server",
                        details,
                        "Check that Tandoor is running and accessible at the configured URL",
                    ),
                )
            } else {
                Err(
                    ToolFailure::advised(
                        "Failed to get keywords",
                        "An unexpected error occurred while fetching keywords",
                        details,
                        "Check server logs for more details",
                    ),
                )
            }
        },
        Ok(page) => {
            let mut out: Vec<KeywordSummary> = Vec::new();
            let mut i: usize = 0;
            while i < page.results.len()
                invariant
                    i <= page.results.len(),
                    are_keyword_summaries(out@, page.results@.take(i as int)),
                decreases page.results.len() - i,
            {
                let keyword = &page.results[i];
                out.push(
                    KeywordSummary {
                        id: keyword.id,
                        name: keyword.name.clone(),
                        description: copy_opt(&keyword.description),
                    },
                );
                i = i + 1;
            }
            assert(page.results@.take(page.results.len() as int) =~= page.results@);
            Ok(KeywordsReport { keywords: out, total_count: page.count })
        },
    }
}

/// What the tools tell of one unit.
#[derive(Debug, Clone, PartialEq, Eq)]
pub struct UnitSummary {
    pub id: i32,
    pub name: String,
    pub plural_name: Option<String>,
    pub description: Option<String>,
    pub base_unit: Option<String>,
    pub type_: Option<String>,
}

/// `s` is what the tools tell of `unit`.
pub open spec fn is_unit_summary(s: UnitSummary, unit: Unit) -> bool {
    &&& s.id == unit.id
    &&& s.name@ == unit.name@
    &&& opt_view(s.plural_name) == opt_view(unit.plural_name)
    &&& opt_view(s.description) == opt_view(unit.description)
    &&& opt_view(s.base_unit) == opt_view(unit.base_unit)
    &&& opt_view(s.type_) == opt_view(unit.type_)
}

/// `summaries` tells of `units`, one for one and in their order.
pub open spec fn are_unit_summaries(summaries: Seq<UnitSummary>, units: Seq<Unit>) -> bool {
    &&& summaries.len() == units.len()
    &&& forall|i: int|
        0 <= i < summaries.len() ==> is_unit_summary(#[trigger] summaries[i], units[i])
}

/// What the unit tool hands back.
#[derive(Debug, Clone, PartialEq, Eq)]
pub struct UnitsReport {
    pub units: Vec<UnitSummary>,
    pub total_count: i32,
}

/// Shapes the units for the caller.
pub fn get_units(reply: Result<PaginatedResponse<Unit>, ClientError>) -> (r: Result<
    UnitsReport,
    ToolFailure,
>)
    ensures
        match reply {
            Err(error) => fails_plainly(r, "Failed to get units"@, error.message@),
            Ok(page) => {
                &&& r is Ok
                &&& are_unit_summaries(r->Ok_0.units@, page.results@)
                &&& r->Ok_0.total_count == page.count
            },
        },
{
    match reply {
        Err(error) => Err(ToolFailure::plain("Failed to get units", error.message)),
        Ok(page) => {
            let mut out: Vec<UnitSummary> = Vec::new();
            let mut i: usize = 0;
            while i < page.results.len()
                invariant
                    i <= page.results.len(),
                    are_unit_summaries(out@, page.results@.take(i as int)),
                decreases page.results.len() - i,
            {
                let unit = &page.results[i];
                out.push(
                    UnitSummary {
                        id: unit.id,
                        name: unit.name.clone(),
                        plural_name: copy_opt(&unit.plural_name),
                        description: copy_opt(&unit.description),
                        base_unit: copy_opt(&unit.base_unit),
                        type_: copy_opt(&unit.type_),
                    },
                );
                i = i + 1;
            }
            assert(page.results@.take(page.results.len() as int) =~= page.results@);
            Ok(UnitsReport { units: out, total_count: page.count })
        },
    }
}

} // verus!
