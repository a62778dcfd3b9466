//! The payload of a tool that failed.

use vstd::prelude::*;

verus! {

/// What a tool hands back in place of its result: a category, and whatever
/// else helps the caller, each part present only where it applies.
#[derive(Debug, Clone, PartialEq, Eq)]
pub struct ToolFailure {
    /// The category of the failure.
    pub error: String,
    /// The cause within the category, by its name, where the failure came
    /// from the session guard.
    pub kind: Option<String>,
    /// What happened, in words for a person.
    pub message: Option<String>,
    /// What the failing call itself reported.
    pub details: Option<String>,
    /// What the caller may do about it.
    pub suggestion: Option<String>,
    /// The address that the tool was asked to work on.
    pub url: Option<String>,
    /// `Some(false)` for the tools whose results carry a success mark.
    pub success: Option<bool>,
}

/// The view of an optional text.
pub open spec fn opt_view(s: Option<String>) -> Option<Seq<char>> {
    match s {
        Some(text) => Some(text@),
        None => None,
    }
}

/// A failure as the contracts see it.
pub struct ToolFailureView {
    pub error: Seq<char>,
    pub kind: Option<Seq<char>>,
    pub message: Option<Seq<char>>,
    pub details: Option<Seq<char>>,
    pub suggestion: Option<Seq<char>>,
    pub url: Option<Seq<char>>,
    pub success: Option<bool>,
}

impl View for ToolFailure {
    type V = ToolFailureView;

    open spec fn view(&self) -> ToolFailureView {
        ToolFailureView {
            error: self.error@,
            kind: opt_view(self.kind),
            message: opt_view(self.message),
            details: opt_view(self.details),
            suggestion: opt_view(self.suggestion),
            url: opt_view(self.url),
            success: self.success,
        }
    }
}

/// A failure that gives its category and the report of the failing call.
pub open spec fn plain_failure(error: Seq<char>, details: Seq<char>) -> ToolFailureView {
    ToolFailureView {
        error,
        kind: None,
        message: None,
        details: Some(details),
        suggestion: None,
        url: None,
        success: None,
    }
}

/// A [`plain_failure`] with the success mark set to false.
pub open spec fn marked_failure(error: Seq<char>, details: Seq<char>) -> ToolFailureView {
    ToolFailureView { success: Some(false), ..plain_failure(error, details) }
}

/// A failure with a message and advice beside the report of the failing call.
pub open spec fn advised_failure(
    error: Seq<char>,
    message: Seq<char>,
    details: Seq<char>,
    suggestion: Seq<char>,
) -> ToolFailureView {
    ToolFailureView {
        error,
        kind: None,
        message: Some(message),
        details: Some(details),
        suggestion: Some(suggestion),
        url: None,
        success: None,
    }
}

/// `r` is the failure of a tool whose results carry no success mark.
pub open spec fn fails_plainly<T>(
    r: Result<T, ToolFailure>,
    error: Seq<char>,
    details: Seq<char>,
) -> bool {
    r is Err && r->Err_0@ == plain_failure(error, details)
}

/// `r` is the failure of a tool whose results carry a success mark.
pub open spec fn fails_marked<T>(
    r: Result<T, ToolFailure>,
    error: Seq<char>,
    details: Seq<char>,
) -> bool {
    r is Err && r->Err_0@ == marked_failure(error, details)
}

impl ToolFailure {
    /// A failure that gives its category and the report of the failing call.
    pub fn plain(error: &str, details: String) -> (r: Self)
        ensures
            r@ == plain_failure(error@, details@),
    {
        ToolFailure {
            error: String::from_str(error),
            kind: None,
            message: None,
            details: Some(details),
            suggestion: None,
            url: None,
            success: None,
        }
    }

    /// A plain failure with the success mark set to false.
    pub fn marked(error: &str, details: String) -> (r: Self)
        ensures
            r@ == marked_failure(error@, details@),
    {
        ToolFailure {
            error: String::from_str(error),
            kind: None,
            message: None,
            details: Some(details),
            suggestion: None,
            url: None,
            success: Some(false),
        }
    }

    /// A failure with a message and advice beside the report of the failing
    /// call.
    pub fn advised(error: &str, message: &str, details: String, suggestion: &str) -> (r: Self)
        ensures
            r@ == advised_failure(error@, message@, details@, suggestion@),
    {
        ToolFailure {
            error: String::from_str(error),
            kind: None,
            message: Some(String::from_str(message)),
            details: Some(details),
            suggestion: Some(String::from_str(suggestion)),
            url: None,
            success: None,
        }
    }
}

} // verus!
