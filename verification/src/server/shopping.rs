//! The shopping-list tools: reading the list, adding to it, checking
//! entries off, and clearing what was checked.

use vstd::prelude::*;
use crate::client::client::ClientError;
use crate::client::types::{
    CreateShoppingListEntryRequest,
    Food,
    PaginatedResponse,
    Quantity,
    ShoppingListEntry,
    Unit,
};
use crate::dates::Timestamp;
use crate::server::failure::{fails_plainly, opt_view, ToolFailure, ToolFailureView};
use crate::server::items::{
    call_failed,
    error_views,
    food_call_failed,
    food_not_found,
    summary,
    summary_line,
    ItemError,
    ItemErrorView,
};
use crate::server::{AddToShoppingListParams, GetShoppingListParams, ShoppingItem};
use crate::text::text_eq;

verus! {

/// The name of a unit that may be missing.
pub open spec fn unit_name(unit: Option<Unit>) -> Option<Seq<char>> {
    match unit {
        Some(u) => Some(u.name@),
        None => None,
    }
}

/// The name of a unit that may be missing.
pub fn name_of_unit(unit: &Option<Unit>) -> (r: Option<String>)
    ensures
        opt_view(r) == unit_name(*unit),
{
    match unit {
        Some(u) => Some(u.name.clone()),
        None => None,
    }
}

/// One entry of the shopping list, as the list tool shows it.
#[derive(Debug, Clone, PartialEq, Eq)]
pub struct ShoppingListItem {
    pub id: i32,
    pub food: String,
    pub amount: Quantity,
    pub unit: Option<String>,
    pub checked: bool,
    /// Whether the food is on hand.
    pub available: bool,
    pub created: Timestamp,
    pub completed: Option<Timestamp>,
}

/// A shown entry as the contracts see it.
pub struct ShoppingListItemView {
    pub id: i32,
    pub food: Seq<char>,
    pub amount: Quantity,
    pub unit: Option<Seq<char>>,
    pub checked: bool,
    pub available: bool,
    pub created: Timestamp,
    pub completed: Option<Timestamp>,
}

impl View for ShoppingListItem {
    type V = ShoppingListItemView;

    open spec fn view(&self) -> ShoppingListItemView {
        ShoppingListItemView {
            id: self.id,
            food: self.food@,
            amount: self.amount,
            unit: opt_view(self.unit),
            checked: self.checked,
            available: self.available,
            created: self.created,
            completed: self.completed,
        }
    }
}

/// The views of a list of shown entries.
pub open spec fn item_views(items: Seq<ShoppingListItem>) -> Seq<ShoppingListItemView> {
    items.map_values(|i: ShoppingListItem| i@)
}

/// How the list tool shows an entry.
pub open spec fn shown(entry: ShoppingListEntry) -> ShoppingListItemView {
    ShoppingListItemView {
        id: entry.id,
        food: entry.food.name@,
        amount: entry.amount,
        unit: unit_name(entry.unit),
        checked: entry.checked,
        available: entry.food.food_onhand,
        created: entry.created,
        completed: entry.completed,
    }
}

/// The entries shown, in their order.
pub open spec fn all_shown(entries: Seq<ShoppingListEntry>) -> Seq<ShoppingListItemView> {
    entries.map_values(|e: ShoppingListEntry| shown(e))
}

/// The entries that are checked off, or those that are not, shown in their
/// order.
pub open spec fn shown_where(entries: Seq<ShoppingListEntry>, checked: bool) -> Seq<
    ShoppingListItemView,
> {
    entries.filter(|e: ShoppingListEntry| e.checked == checked).map_values(
        |e: ShoppingListEntry| shown(e),
    )
}

/// What the list tool hands back: the list as it is, or in two groups.
#[derive(Debug, Clone, PartialEq, Eq)]
pub enum ShoppingListReport {
    Flat { items: Vec<ShoppingListItem>, total_items: i32 },
    Grouped {
        unchecked_items: Vec<ShoppingListItem>,
        checked_items: Vec<ShoppingListItem>,
        total_items: i32,
    },
}

/// `r` is the report of `page` in the layout `format`: two groups where the
/// layout is `grouped`, the list as it is for any other.
pub open spec fn is_list_report(
    r: ShoppingListReport,
    page: PaginatedResponse<ShoppingListEntry>,
    format: Seq<char>,
) -> bool {
    match r {
        ShoppingListReport::Flat { items, total_items } => {
            &&& format != "grouped"@
            &&& item_views(items@) == all_shown(page.results@)
            &&& total_items == page.count
        },
        ShoppingListReport::Grouped { unchecked_items, checked_items, total_items } => {
            &&& format == "grouped"@
            &&& item_views(unchecked_items@) == shown_where(page.results@, false)
            &&& item_views(checked_items@) == shown_where(page.results@, true)
            &&& total_items == page.count
        },
    }
}

fn show(entry: &ShoppingListEntry) -> (r: ShoppingListItem)
    ensures
        r@ == shown(*entry),
{
    ShoppingListItem {
        id: entry.id,
        food: entry.food.name.clone(),
        amount: entry.amount,
        unit: name_of_unit(&entry.unit),
        checked: entry.checked,
        available: entry.food.food_onhand,
        created: entry.created,
        completed: entry.completed,
    }
}

fn show_where(entries: &Vec<ShoppingListEntry>, checked: bool) -> (r: Vec<ShoppingListItem>)
    ensures
        item_views(r@) == shown_where(entries@, checked),
{
    let ghost keep = |e: ShoppingListEntry| e.checked == checked;
    let ghost view = |e: ShoppingListEntry| shown(e);
    let mut out: Vec<ShoppingListItem> = Vec::new();
    let mut i: usize = 0;
    proof {
        reveal(Seq::filter);
        assert(item_views(out@) =~= entries@.take(0).filter(keep).map_values(view));
    }
    while i < entries.len()
        invariant
            i <= entries.len(),
            keep == |e: ShoppingListEntry| e.checked == checked,
            view == |e: ShoppingListEntry| shown(e),
            item_views(out@) == entries@.take(i as int).filter(keep).map_values(view),
        decreases entries.len() - i,
    {
        proof {
            assert(entries@.take(i + 1) =~= entries@.take(i as int).push(entries@[i as int]));
            entries@.take(i as int).lemma_filter_push(entries@[i as int], keep);
        }
        if entries[i].checked == checked {
            let ghost before = item_views(out@);
            let item = show(&entries[i]);
            out.push(item);
            assert(item_views(out@) =~= before.push(item@));
            assert(item_views(out@) =~= entries@.take(i + 1).filter(keep).map_values(view));
        }
        i = i + 1;
    }
    assert(entries@.take(entries.len() as int) =~= entries@);
    out
}

fn show_all(entries: &Vec<ShoppingListEntry>) -> (r: Vec<ShoppingListItem>)
    ensures
        item_views(r@) == all_shown(entries@),
{
    let mut out: Vec<ShoppingListItem> = Vec::new();
    let mut i: usize = 0;
    while i < entries.len()
        invariant
            i <= entries.len(),
            out@.len() == i,
            forall|k: int| 0 <= k < i ==> (#[trigger] out@[k])@ == shown(entries@[k]),
        decreases entries.len() - i,
    {
        let item = show(&entries[i]);
        out.push(item);
        i = i + 1;
    }
    assert(item_views(out@) =~= all_shown(entries@));
    out
}

/// Shapes the shopping list for the caller: in two groups, the entries still
/// to buy and those checked off, where the layout `grouped` is asked for; as
/// one list for any other layout. A reading that failed is reported as such.
pub fn get_shopping_list(
    params: GetShoppingListParams,
    reply: Result<PaginatedResponse<ShoppingListEntry>, ClientError>,
) -> (r: Result<ShoppingListReport, ToolFailure>)
    ensures
        match reply {
            Err(error) => fails_plainly(r, "Failed to get shopping list"@, error.message@),
            Ok(page) => r is Ok && is_list_report(r->Ok_0, page, params.format@),
        },
{
    match reply {
        Err(error) => Err(ToolFailure::plain("Failed to get shopping list", error.message)),
        Ok(page) => {
            if text_eq(params.format.as_str(), "grouped") {
                let unchecked_items = show_where(&page.results, false);
                let checked_items = show_where(&page.results, true);
                Ok(
                    ShoppingListReport::Grouped {
                        unchecked_items,
                        checked_items,
                        total_items: page.count,
                    },
                )
            } else {
                let items = show_all(&page.results);
                Ok(ShoppingListReport::Flat { items, total_items: page.count })
            }
        },
    }
}

/// One entry that was added to the list.
#[derive(Debug, Clone, PartialEq, Eq)]
pub struct AddedItem {
    pub id: i32,
    pub food: String,
    pub amount: Quantity,
    pub unit: Option<String>,
    pub status: String,
}

/// An added entry as the contracts see it.
pub struct AddedItemView {
    pub id: i32,
    pub food: Seq<char>,
    pub amount: Quantity,
    pub unit: Option<Seq<char>>,
    pub status: Seq<char>,
}

impl View for AddedItem {
    type V = AddedItemView;

    open spec fn view(&self) -> AddedItemView {
        AddedItemView {
            id: self.id,
            food: self.food@,
            amount: self.amount,
            unit: opt_view(self.unit),
            status: self.status@,
        }
    }
}

/// The views of a list of added entries.
pub open spec fn added_views(items: Seq<AddedItem>) -> Seq<AddedItemView> {
    items.map_values(|i: AddedItem| i@)
}

/// What is reported of an entry that the service added.
pub open spec fn added_as(entry: ShoppingListEntry) -> AddedItemView {
    AddedItemView {
        id: entry.id,
        food: entry.food.name@,
        amount: entry.amount,
        unit: unit_name(entry.unit),
        status: "added"@,
    }
}

/// What is reported of the entries that the service added, in their order.
pub open spec fn all_added(entries: Seq<ShoppingListEntry>) -> Seq<AddedItemView> {
    entries.map_values(|e: ShoppingListEntry| added_as(e))
}

/// What the adding tool hands back.
#[derive(Debug, Clone, PartialEq, Eq)]
pub enum AddReport {
    /// The items were worked through.
    Added { added: Vec<AddedItem>, errors: Vec<ItemError>, summary: String },
    /// The caller asked in free text, which the tool does not read.
    Unsupported { message: String, request: String, suggestion: String },
}

/// `r` reports these additions and these errors.
pub open spec fn is_add_report(
    r: Result<AddReport, ToolFailure>,
    added: Seq<AddedItemView>,
    errors: Seq<ItemErrorView>,
) -> bool {
    match r {
        Ok(AddReport::Added { added: listed, errors: noted, summary }) => {
            &&& added_views(listed@) == added
            &&& error_views(noted@) == errors
            &&& summary@ == summary_line(
                "Added "@,
                added.len(),
                " items, "@,
                errors.len(),
                " errors"@,
            )
        },
        _ => false,
    }
}

/// `r` tells the caller that free text is not read.
pub open spec fn is_unsupported_report(r: Result<AddReport, ToolFailure>, request: Seq<char>) -> bool {
    match r {
        Ok(AddReport::Unsupported { message, request: quoted, suggestion }) => {
            &&& message@ == "Natural language processing not yet implemented"@
            &&& quoted@ == request
            &&& suggestion@
                == "Please use the structured 'items' parameter with an array of {name, amount} objects"@
        },
        _ => false,
    }
}

/// The failure of a call that names neither items nor a request.
pub open spec fn missing_parameters() -> ToolFailureView {
    ToolFailureView {
        error: "Missing required parameters"@,
        kind: None,
        message: Some("Please provide either 'items' array or 'request' text"@),
        details: None,
        suggestion: None,
        url: None,
        success: None,
    }
}

/// How far the adding tool has come: the items, the place of the one in
/// work, the entries to ask for, and the errors noted.
#[derive(Debug, Clone, PartialEq, Eq)]
pub struct AddRun {
    pub items: Vec<ShoppingItem>,
    pub cursor: usize,
    pub requests: Vec<CreateShoppingListEntryRequest>,
    pub errors: Vec<ItemError>,
}

/// Look the food of the item in work up by its name.
#[derive(Debug, Clone, PartialEq, Eq)]
pub struct ItemSearch {
    pub query: String,
    pub limit: i32,
    pub run: AddRun,
}

/// Ask the service for all the entries at once.
#[derive(Debug, Clone, PartialEq, Eq)]
pub struct BulkAdd {
    pub entries: Vec<CreateShoppingListEntryRequest>,
    pub errors: Vec<ItemError>,
}

/// What the adding tool does next.
#[derive(Debug, PartialEq, Eq)]
pub enum AddStep {
    Search(ItemSearch),
    Bulk(BulkAdd),
    Done(Result<AddReport, ToolFailure>),
}

/// How many foods a look-up by name asks for.
pub const ITEM_LOOKUP_PAGE: i32 = 1;

/// The entry to ask for where `food` was found for `item`.
pub open spec fn entry_for(food: Food, item: ShoppingItem) -> CreateShoppingListEntryRequest {
    CreateShoppingListEntryRequest { food: food.id, unit: None, amount: item.amount }
}

/// `r` is the step that follows once the items before `next` are dealt with:
/// the look-up of the item at `next`; past the last item, the one request for
/// all entries, or the report at once where there is no entry to ask for.
pub open spec fn adds_on(
    r: AddStep,
    items: Seq<ShoppingItem>,
    next: int,
    requests: Seq<CreateShoppingListEntryRequest>,
    errors: Seq<ItemErrorView>,
) -> bool {
    if next < items.len() {
        &&& r is Search
        &&& r->Search_0.query@ == items[next].name@
        &&& r->Search_0.limit == ITEM_LOOKUP_PAGE
        &&& r->Search_0.run.wf()
        &&& r->Search_0.run.items@ == items
        &&& r->Search_0.run.cursor == next
        &&& r->Search_0.run.requests@ == requests
        &&& error_views(r->Search_0.run.errors@) == errors
    } else if requests.len() > 0 {
        &&& r is Bulk
        &&& r->Bulk_0.entries@ == requests
        &&& error_views(r->Bulk_0.errors@) == errors
    } else {
        &&& r is Done
        &&& is_add_report(r->Done_0, Seq::empty(), errors)
    }
}

fn add_report(added: Vec<AddedItem>, errors: Vec<ItemError>) -> (r: Result<AddReport, ToolFailure>)
    ensures
        is_add_report(r, added_views(added@), error_views(errors@)),
{
    let summary = summary("Added ", added.len(), " items, ", errors.len(), " errors");
    Ok(AddReport::Added { added, errors, summary })
}

impl AddRun {
    /// The run is in the middle of its list.
    pub open spec fn wf(&self) -> bool {
        self.cursor < self.items@.len()
    }

    /// The item in work.
    pub open spec fn item(&self) -> ShoppingItem {
        self.items@[self.cursor as int]
    }

    /// `r` is the step of a run that takes nothing in and goes on from where
    /// it stands.
    pub open spec fn stays(&self, r: AddStep) -> bool {
        adds_on(r, self.items@, self.cursor as int, self.requests@, error_views(self.errors@))
    }

    fn proceed(
        items: Vec<ShoppingItem>,
        next: usize,
        requests: Vec<CreateShoppingListEntryRequest>,
        errors: Vec<ItemError>,
    ) -> (r: AddStep)
        ensures
            adds_on(r, items@, next as int, requests@, error_views(errors@)),
    {
        if next < items.len() {
            let query = items[next].name.clone();
            AddStep::Search(
                ItemSearch {
                    query,
                    limit: ITEM_LOOKUP_PAGE,
                    run: AddRun { items, cursor: next, requests, errors },
                },
            )
        } else if requests.len() > 0 {
            AddStep::Bulk(BulkAdd { entries: requests, errors })
        } else {
            let added: Vec<AddedItem> = Vec::new();
            assert(added_views(added@) =~= Seq::<AddedItemView>::empty());
            AddStep::Done(add_report(added, errors))
        }
    }
}

/// Starts the adding tool. With a list of items it sets out on the first of
/// them; with a request in free text it says that it does not read such; with
/// neither it fails.
pub fn add_to_shopping_list(params: AddToShoppingListParams) -> (r: AddStep)
    ensures
        match params.items {
            Some(items) => adds_on(r, items@, 0, Seq::empty(), Seq::empty()),
            None => match params.request {
                Some(request) => r is Done && is_unsupported_report(r->Done_0, request@),
                None => r is Done && r->Done_0 is Err && r->Done_0->Err_0@
                    == missing_parameters(),
            },
        },
{
    match params.items {
        Some(items) => {
            let requests: Vec<CreateShoppingListEntryRequest> = Vec::new();
            let errors: Vec<ItemError> = Vec::new();
            assert(requests@ =~= Seq::<CreateShoppingListEntryRequest>::empty());
            assert(error_views(errors@) =~= Seq::<ItemErrorView>::empty());
            AddRun::proceed(items, 0, requests, errors)
        },
        None => match params.request {
            Some(request) => AddStep::Done(
                Ok(
                    AddReport::Unsupported {
                        message: String::from_str(
                            "Natural language processing not yet implemented",
                        ),
                        request,
                        suggestion: String::from_str(
                            "Please use the structured 'items' parameter with an array of {name, amount} objects",
                        ),
                    },
                ),
            ),
            None => AddStep::Done(
                Err(
                    ToolFailure {
                        error: String::from_str("Missing required parameters"),
                        kind: None,
                        message: Some(
                            String::from_str(
                                "Please provide either 'items' array or 'request' text",
                            ),
                        ),
                        details: None,
                        suggestion: None,
                        url: None,
                        success: None,
                    },
                ),
            ),
        },
    }
}

impl ItemSearch {
    /// Takes in the look-up of the item in work. The first food found gives
    /// an entry to ask for, in the item's amount and without a unit; a
    /// look-up that failed or found nothing is noted. Then the tool goes on.
    /// A step that stands past its list takes nothing in.
    pub fn resume(self, reply: Result<PaginatedResponse<Food>, ClientError>) -> (r: AddStep)
        ensures
            !self.run.wf() ==> self.run.stays(r),
            self.run.wf() ==> match reply {
                Err(error) => adds_on(
                    r,
                    self.run.items@,
                    self.run.cursor + 1,
                    self.run.requests@,
                    error_views(self.run.errors@).push(
                        food_call_failed(
                            self.run.item().name@,
                            "Failed to search for food"@,
                            error.message@,
                        ),
                    ),
                ),
                Ok(page) => if page.results@.len() == 0 {
                    adds_on(
                        r,
                        self.run.items@,
                        self.run.cursor + 1,
                        self.run.requests@,
                        error_views(self.run.errors@).push(food_not_found(self.run.item().name@)),
                    )
                } else {
                    adds_on(
                        r,
                        self.run.items@,
                        self.run.cursor + 1,
                        self.run.requests@.push(entry_for(page.results@[0], self.run.item())),
                        error_views(self.run.errors@),
                    )
                },
            },
    {
        let run = self.run;
        if run.cursor >= run.items.len() {
            return AddRun::proceed(run.items, run.cursor, run.requests, run.errors);
        }
        match reply {
            Err(error) => {
                let mut errors = run.errors;
                let ghost before = error_views(errors@);
                let note = ItemError::for_food(
                    run.items[run.cursor].name.as_str(),
                    "Failed to search for food",
                    error.message,
                );
                errors.push(note);
                assert(error_views(errors@) =~= before.push(note@));
                AddRun::proceed(run.items, run.cursor + 1, run.requests, errors)
            },
            Ok(page) => {
                if page.results.len() == 0 {
                    let mut errors = run.errors;
                    let ghost before = error_views(errors@);
                    let note = ItemError::unknown_food(run.items[run.cursor].name.as_str());
                    errors.push(note);
                    assert(error_views(errors@) =~= before.push(note@));
                    AddRun::proceed(run.items, run.cursor + 1, run.requests, errors)
                } else {
                    let mut requests = run.requests;
                    requests.push(
                        CreateShoppingListEntryRequest {
                            food: page.results[0].id,
                            unit: None,
                            amount: run.items[run.cursor].amount,
                        },
                    );
                    AddRun::proceed(run.items, run.cursor + 1, requests, run.errors)
                }
            },
        }
    }
}

impl BulkAdd {
    /// Takes in what the service made of the request for all entries, and
    /// ends the tool: every entry that it added is reported, or its failure
    /// is noted as one more error.
    pub fn resume(self, reply: Result<Vec<ShoppingListEntry>, ClientError>) -> (r: AddStep)
        ensures
            r is Done,
            match reply {
                Ok(entries) => is_add_report(
                    r->Done_0,
                    all_added(entries@),
                    error_views(self.errors@),
                ),
                Err(error) => is_add_report(
                    r->Done_0,
                    Seq::empty(),
                    error_views(self.errors@).push(
                        call_failed("Failed to add items to shopping list"@, error.message@),
                    ),
                ),
            },
    {
        let mut added: Vec<AddedItem> = Vec::new();
        let mut errors = self.errors;
        match reply {
            Ok(entries) => {
                let mut i: usize = 0;
                while i < entries.len()
                    invariant
                        i <= entries.len(),
                        added@.len() == i,
                        forall|k: int| 0 <= k < i ==> (#[trigger] added@[k])@ == added_as(entries@[k]),
                    decreases entries.len() - i,
                {
                    let entry = &entries[i];
                    added.push(
                        AddedItem {
                            id: entry.id,
                            food: entry.food.name.clone(),
                            amount: entry.amount,
                            unit: name_of_unit(&entry.unit),
                            status: String::from_str("added"),
                        },
                    );
                    i = i + 1;
                }
                assert(added_views(added@) =~= all_added(entries@));
            },
            Err(error) => {
                let ghost before = error_views(errors@);
                let note = ItemError::for_call(
                    "Failed to add items to shopping list",
                    error.message,
                );
                errors.push(note);
                assert(error_views(errors@) =~= before.push(note@));
                assert(added_views(added@) =~= Seq::<AddedItemView>::empty());
            },
        }
        AddStep::Done(add_report(added, errors))
    }
}

} // verus!
