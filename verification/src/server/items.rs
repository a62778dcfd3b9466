//! What a tool that works through a list reports of the items it could not
//! handle.

use vstd::prelude::*;
use crate::server::failure::opt_view;
use crate::text::{concat2, decimal_nat, decimal_u64};

verus! {

/// One item that a tool could not handle: which item, what went wrong, and
/// what the failing call reported or what the caller may try.
#[derive(Debug, Clone, PartialEq, Eq)]
pub struct ItemError {
    /// The food that the item named.
    pub food: Option<String>,
    /// The number by which the item pointed at an entry.
    pub item_id: Option<i64>,
    /// The name by which the item pointed at an entry.
    pub item_name: Option<String>,
    pub error: String,
    pub details: Option<String>,
    pub suggestion: Option<String>,
}

/// An item error as the contracts see it.
pub struct ItemErrorView {
    pub food: Option<Seq<char>>,
    pub item_id: Option<i64>,
    pub item_name: Option<Seq<char>>,
    pub error: Seq<char>,
    pub details: Option<Seq<char>>,
    pub suggestion: Option<Seq<char>>,
}

impl View for ItemError {
    type V = ItemErrorView;

    open spec fn view(&self) -> ItemErrorView {
        ItemErrorView {
            food: opt_view(self.food),
            item_id: self.item_id,
            item_name: opt_view(self.item_name),
            error: self.error@,
            details: opt_view(self.details),
            suggestion: opt_view(self.suggestion),
        }
    }
}

/// The views of a list of item errors.
pub open spec fn error_views(errors: Seq<ItemError>) -> Seq<ItemErrorView> {
    errors.map_values(|e: ItemError| e@)
}

/// A call for the food `food` failed, and reported `details`.
pub open spec fn food_call_failed(food: Seq<char>, error: Seq<char>, details: Seq<char>) -> ItemErrorView {
    ItemErrorView {
        food: Some(food),
        item_id: None,
        item_name: None,
        error,
        details: Some(details),
        suggestion: None,
    }
}

/// The service knows no food of the name `food`.
pub open spec fn food_not_found(food: Seq<char>) -> ItemErrorView {
    ItemErrorView {
        food: Some(food),
        item_id: None,
        item_name: None,
        error: "Food not found"@,
        details: None,
        suggestion: Some("Try creating the food first or use a different name"@),
    }
}

/// A call that stands for no single item failed, and reported `details`.
pub open spec fn call_failed(error: Seq<char>, details: Seq<char>) -> ItemErrorView {
    ItemErrorView {
        food: None,
        item_id: None,
        item_name: None,
        error,
        details: Some(details),
        suggestion: None,
    }
}

/// A call for the entry numbered `id` failed, and reported `details`.
pub open spec fn entry_call_failed(id: i64, error: Seq<char>, details: Seq<char>) -> ItemErrorView {
    ItemErrorView {
        food: None,
        item_id: Some(id),
        item_name: None,
        error,
        details: Some(details),
        suggestion: None,
    }
}

/// Something went wrong with the entry that `name` points at; `details` is
/// what the failing call reported, where a call failed.
pub open spec fn named_entry_failed(
    name: Seq<char>,
    error: Seq<char>,
    details: Option<Seq<char>>,
) -> ItemErrorView {
    ItemErrorView {
        food: None,
        item_id: None,
        item_name: Some(name),
        error,
        details,
        suggestion: None,
    }
}

impl ItemError {
    /// A call for the food `food` failed, and reported `details`.
    pub fn for_food(food: &str, error: &str, details: String) -> (r: Self)
        ensures
            r@ == food_call_failed(food@, error@, details@),
    {
        ItemError {
            food: Some(String::from_str(food)),
            item_id: None,
            item_name: None,
            error: String::from_str(error),
            details: Some(details),
            suggestion: None,
        }
    }

    /// The service knows no food of the name `food`.
    pub fn unknown_food(food: &str) -> (r: Self)
        ensures
            r@ == food_not_found(food@),
    {
        ItemError {
            food: Some(String::from_str(food)),
            item_id: None,
            item_name: None,
            error: String::from_str("Food not found"),
            details: None,
            suggestion: Some(
                String::from_str("Try creating the food first or use a different name"),
            ),
        }
    }

    /// A call that stands for no single item failed, and reported `details`.
    pub fn for_call(error: &str, details: String) -> (r: Self)
        ensures
            r@ == call_failed(error@, details@),
    {
        ItemError {
            food: None,
            item_id: None,
            item_name: None,
            error: String::from_str(error),
            details: Some(details),
            suggestion: None,
        }
    }

    /// A call for the entry numbered `id` failed, and reported `details`.
    pub fn for_entry(id: i64, error: &str, details: String) -> (r: Self)
        ensures
            r@ == entry_call_failed(id, error@, details@),
    {
        ItemError {
            food: None,
            item_id: Some(id),
            item_name: None,
            error: String::from_str(error),
            details: Some(details),
            suggestion: None,
        }
    }

    /// Something went wrong with the entry that `name` points at.
    pub fn for_name(name: &str, error: &str, details: Option<String>) -> (r: Self)
        ensures
            r@ == named_entry_failed(name@, error@, opt_view(details)),
    {
        ItemError {
            food: None,
            item_id: None,
            item_name: Some(String::from_str(name)),
            error: String::from_str(error),
            details,
            suggestion: None,
        }
    }
}

/// The line that sums a run up: `verb`, how many items went well, `between`,
/// how many did not, `after`.
pub open spec fn summary_line(
    verb: Seq<char>,
    done: nat,
    between: Seq<char>,
    failed: nat,
    after: Seq<char>,
) -> Seq<char> {
    verb + decimal_nat(done) + between + decimal_nat(failed) + after
}

/// The line that sums a run up.
pub fn summary(verb: &str, done: usize, between: &str, failed: usize, after: &str) -> (r: String)
    ensures
        r@ == summary_line(verb@, done as nat, between@, failed as nat, after@),
{
    let first = decimal_u64(done as u64);
    let second = decimal_u64(failed as u64);
    let mut r = concat2(verb, first.as_str());
    r.append(between);
    r.append(second.as_str());
    r.append(after);
    r
}

} // verus!
