//! The food tools: searching foods, and marking a list of them as on hand or
//! not.

use vstd::prelude::*;
use crate::client::client::ClientError;
use crate::client::types::{Food, PaginatedResponse, Quantity};
use crate::server::failure::{fails_plainly, opt_view, ToolFailure};
use crate::server::items::{
    error_views,
    food_call_failed,
    food_not_found,
    summary,
    summary_line,
    ItemError,
    ItemErrorView,
};
use crate::server::{SearchFoodsParams, UpdatePantryItem, UpdatePantryParams};
use crate::text::copy_opt;

verus! {

/// What a food search tells of one food.
#[derive(Debug, Clone, PartialEq, Eq)]
pub struct FoodSummary {
    pub id: i32,
    pub name: String,
    pub plural_name: Option<String>,
    pub description: Option<String>,
    pub food_onhand: bool,
    pub supermarket_category: Option<i32>,
}

/// What the food search hands back.
#[derive(Debug, Clone, PartialEq, Eq)]
pub struct FoodSearchReport {
    pub foods: Vec<FoodSummary>,
    pub total_count: i32,
    pub query: String,
}

/// `s` is what a search tells of `food`.
pub open spec fn is_food_summary(s: FoodSummary, food: Food) -> bool {
    &&& s.id == food.id
    &&& s.name@ == food.name@
    &&& opt_view(s.plural_name) == opt_view(food.plural_name)
    &&& opt_view(s.description) == opt_view(food.description)
    &&& s.food_onhand == food.food_onhand
    &&& s.supermarket_category == food.supermarket_category
}

/// `summaries` tells of `foods`, one for one and in their order.
pub open spec fn are_food_summaries(summaries: Seq<FoodSummary>, foods: Seq<Food>) -> bool {
    &&& summaries.len() == foods.len()
    &&& forall|i: int|
        0 <= i < summaries.len() ==> is_food_summary(#[trigger] summaries[i], foods[i])
}

/// Shapes the result of a food search: every food found, the count that the
/// service gave, and the text searched by; or the failure of the search.
pub fn search_foods(
    params: SearchFoodsParams,
    reply: Result<PaginatedResponse<Food>, ClientError>,
) -> (r: Result<FoodSearchReport, ToolFailure>)
    ensures
        match reply {
            Err(error) => fails_plainly(r, "Failed to search foods"@, error.message@),
            Ok(page) => {
                &&& r is Ok
                &&& are_food_summaries(r->Ok_0.foods@, page.results@)
                &&& r->Ok_0.total_count == page.count
                &&& r->Ok_0.query == params.query
            },
        },
{
    match reply {
        Err(error) => Err(ToolFailure::plain("Failed to search foods", error.message)),
        Ok(page) => {
            let mut foods: Vec<FoodSummary> = Vec::new();
            let mut i: usize = 0;
            while i < page.results.len()
                invariant
                    i <= page.results.len(),
                    are_food_summaries(foods@, page.results@.take(i as int)),
                decreases page.results.len() - i,
            {
                let food = &page.results[i];
                foods.push(
                    FoodSummary {
                        id: food.id,
                        name: food.name.clone(),
                        plural_name: copy_opt(&food.plural_name),
                        description: copy_opt(&food.description),
                        food_onhand: food.food_onhand,
                        supermarket_category: food.supermarket_category,
                    },
                );
                i = i + 1;
            }
            assert(page.results@.take(page.results.len() as int) =~= page.results@);
            Ok(FoodSearchReport { foods, total_count: page.count, query: params.query })
        },
    }
}

/// One food whose mark was changed.
#[derive(Debug, Clone, PartialEq, Eq)]
pub struct PantryUpdate {
    pub id: i32,
    pub name: String,
    /// Whether the service now has the food as on hand.
    pub available: bool,
    /// The amount that the caller gave with the item, if any.
    pub amount: Option<Quantity>,
    pub status: String,
}

/// A pantry update as the contracts see it.
pub struct PantryUpdateView {
    pub id: i32,
    pub name: Seq<char>,
    pub available: bool,
    pub amount: Option<Quantity>,
    pub status: Seq<char>,
}

impl View for PantryUpdate {
    type V = PantryUpdateView;

    open spec fn view(&self) -> PantryUpdateView {
        PantryUpdateView {
            id: self.id,
            name: self.name@,
            available: self.available,
            amount: self.amount,
            status: self.status@,
        }
    }
}

/// The views of a list of pantry updates.
pub open spec fn update_views(updates: Seq<PantryUpdate>) -> Seq<PantryUpdateView> {
    updates.map_values(|u: PantryUpdate| u@)
}

/// What is reported of a food whose mark was changed on behalf of `item`.
pub open spec fn updated_as(food: Food, item: UpdatePantryItem) -> PantryUpdateView {
    PantryUpdateView {
        id: food.id,
        name: food.name@,
        available: food.food_onhand,
        amount: item.amount,
        status: "updated"@,
    }
}

/// What the pantry tool hands back.
#[derive(Debug, Clone, PartialEq, Eq)]
pub struct PantryReport {
    pub updated: Vec<PantryUpdate>,
    pub errors: Vec<ItemError>,
    pub summary: String,
}

/// How far the pantry tool has come: the items, the place of the one in
/// work, and what is gathered so far.
#[derive(Debug, Clone, PartialEq, Eq)]
pub struct PantryRun {
    pub items: Vec<UpdatePantryItem>,
    pub cursor: usize,
    pub updated: Vec<PantryUpdate>,
    pub errors: Vec<ItemError>,
}

/// Look the food of the item in work up by its name.
#[derive(Debug, Clone, PartialEq, Eq)]
pub struct FoodSearch {
    pub query: String,
    pub limit: i32,
    pub run: PantryRun,
}

/// Mark the food that was found for the item in work.
#[derive(Debug, Clone, PartialEq, Eq)]
pub struct FoodUpdate {
    pub food_id: i32,
    pub available: bool,
    pub run: PantryRun,
}

/// What the pantry tool does next.
#[derive(Debug, Clone, PartialEq, Eq)]
pub enum PantryStep {
    Search(FoodSearch),
    Update(FoodUpdate),
    Done(PantryReport),
}

/// How many foods a look-up by name asks for.
pub const LOOKUP_PAGE: i32 = 1;

/// `r` is the step that follows once the items before `next` are dealt with
/// and `updated` and `errors` are gathered: the look-up of the item at
/// `next`, or, past the last item, the report.
pub open spec fn goes_on(
    r: PantryStep,
    items: Seq<UpdatePantryItem>,
    next: int,
    updated: Seq<PantryUpdateView>,
    errors: Seq<ItemErrorView>,
) -> bool {
    if next < items.len() {
        &&& r is Search
        &&& r->Search_0.query@ == items[next].food@
        &&& r->Search_0.limit == LOOKUP_PAGE
        &&& r->Search_0.run.wf()
        &&& r->Search_0.run.items@ == items
        &&& r->Search_0.run.cursor == next
        &&& update_views(r->Search_0.run.updated@) == updated
        &&& error_views(r->Search_0.run.errors@) == errors
    } else {
        &&& r is Done
        &&& update_views(r->Done_0.updated@) == updated
        &&& error_views(r->Done_0.errors@) == errors
        &&& r->Done_0.summary@ == summary_line(
            "Updated "@,
            updated.len(),
            " items, "@,
            errors.len(),
            " errors"@,
        )
    }
}

impl PantryRun {
    /// The run is in the middle of its list.
    pub open spec fn wf(&self) -> bool {
        self.cursor < self.items@.len()
    }

    /// The item in work.
    pub open spec fn item(&self) -> UpdatePantryItem {
        self.items@[self.cursor as int]
    }

    /// `r` is the step of a run that takes nothing in and goes on from where
    /// it stands.
    pub open spec fn stays(&self, r: PantryStep) -> bool {
        goes_on(
            r,
            self.items@,
            self.cursor as int,
            update_views(self.updated@),
            error_views(self.errors@),
        )
    }

    fn proceed(
        items: Vec<UpdatePantryItem>,
        next: usize,
        updated: Vec<PantryUpdate>,
        errors: Vec<ItemError>,
    ) -> (r: PantryStep)
        ensures
            goes_on(r, items@, next as int, update_views(updated@), error_views(errors@)),
    {
        if next < items.len() {
            let query = items[next].food.clone();
            PantryStep::Search(
                FoodSearch {
                    query,
                    limit: LOOKUP_PAGE,
                    run: PantryRun { items, cursor: next, updated, errors },
                },
            )
        } else {
            let summary = summary("Updated ", updated.len(), " items, ", errors.len(), " errors");
            PantryStep::Done(PantryReport { updated, errors, summary })
        }
    }
}

/// Starts the pantry tool with the first item, or ends it at once where
/// there is none.
pub fn update_pantry(params: UpdatePantryParams) -> (r: PantryStep)
    ensures
        goes_on(r, params.items@, 0, Seq::empty(), Seq::empty()),
{
    let updated: Vec<PantryUpdate> = Vec::new();
    let errors: Vec<ItemError> = Vec::new();
    assert(update_views(updated@) =~= Seq::<PantryUpdateView>::empty());
    assert(error_views(errors@) =~= Seq::<ItemErrorView>::empty());
    PantryRun::proceed(params.items, 0, updated, errors)
}

impl FoodSearch {
    /// Takes in the look-up of the item in work. The first food found is to
    /// be marked as the item asks; a look-up that failed or found nothing is
    /// noted, and the tool goes on with the next item. A step that stands
    /// past its list takes nothing in and reports.
    pub fn resume(self, reply: Result<PaginatedResponse<Food>, ClientError>) -> (r: PantryStep)
        ensures
            !self.run.wf() ==> self.run.stays(r),
            self.run.wf() ==> match reply {
                Err(error) => goes_on(
                    r,
                    self.run.items@,
                    self.run.cursor + 1,
                    update_views(self.run.updated@),
                    error_views(self.run.errors@).push(
                        food_call_failed(
                            self.run.item().food@,
                            "Failed to search for food"@,
                            error.message@,
                        ),
                    ),
                ),
                Ok(page) => if page.results@.len() == 0 {
                    goes_on(
                        r,
                        self.run.items@,
                        self.run.cursor + 1,
                        update_views(self.run.updated@),
                        error_views(self.run.errors@).push(food_not_found(self.run.item().food@)),
                    )
                } else {
                    &&& r is Update
                    &&& r->Update_0.food_id == page.results@[0].id
                    &&& r->Update_0.available == self.run.item().available
                    &&& r->Update_0.run == self.run
                },
            },
    {
        let run = self.run;
        if run.cursor >= run.items.len() {
            return PantryRun::proceed(run.items, run.cursor, run.updated, run.errors);
        }
        match reply {
            Err(error) => {
                let mut errors = run.errors;
                let ghost before = error_views(errors@);
                let note = ItemError::for_food(
                    run.items[run.cursor].food.as_str(),
                    "Failed to search for food",
                    error.message,
                );
                errors.push(note);
                assert(error_views(errors@) =~= before.push(note@));
                PantryRun::proceed(run.items, run.cursor + 1, run.updated, errors)
            },
            Ok(page) => {
                if page.results.len() == 0 {
                    let mut errors = run.errors;
                    let ghost before = error_views(errors@);
                    let note = ItemError::unknown_food(run.items[run.cursor].food.as_str());
                    errors.push(note);
                    assert(error_views(errors@) =~= before.push(note@));
                    PantryRun::proceed(run.items, run.cursor + 1, run.updated, errors)
                } else {
                    let food_id = page.results[0].id;
                    let available = run.items[run.cursor].available;
                    PantryStep::Update(FoodUpdate { food_id, available, run })
                }
            },
        }
    }
}

impl FoodUpdate {
    /// Takes in the marking of the food found for the item in work, notes
    /// how it went, and goes on with the next item. A step that stands past
    /// its list takes nothing in and reports.
    pub fn resume(self, reply: Result<Food, ClientError>) -> (r: PantryStep)
        ensures
            !self.run.wf() ==> self.run.stays(r),
            self.run.wf() ==> match reply {
                Ok(food) => goes_on(
                    r,
                    self.run.items@,
                    self.run.cursor + 1,
                    update_views(self.run.updated@).push(updated_as(food, self.run.item())),
                    error_views(self.run.errors@),
                ),
                Err(error) => goes_on(
                    r,
                    self.run.items@,
                    self.run.cursor + 1,
                    update_views(self.run.updated@),
                    error_views(self.run.errors@).push(
                        food_call_failed(
                            self.run.item().food@,
                            "Failed to update availability"@,
                            error.message@,
                        ),
                    ),
                ),
            },
    {
        let run = self.run;
        if run.cursor >= run.items.len() {
            return PantryRun::proceed(run.items, run.cursor, run.updated, run.errors);
        }
        match reply {
            Ok(food) => {
                let mut updated = run.updated;
                let ghost before = update_views(updated@);
                let note = PantryUpdate {
                    id: food.id,
                    name: food.name,
                    available: food.food_onhand,
                    amount: run.items[run.cursor].amount,
                    status: String::from_str("updated"),
                };
                updated.push(note);
                assert(update_views(updated@) =~= before.push(note@));
                PantryRun::proceed(run.items, run.cursor + 1, updated, run.errors)
            },
            Err(error) => {
                let mut errors = run.errors;
                let ghost before = error_views(errors@);
                let note = ItemError::for_food(
                    run.items[run.cursor].food.as_str(),
                    "Failed to update availability",
                    error.message,
                );
                errors.push(note);
                assert(error_views(errors@) =~= before.push(note@));
                PantryRun::proceed(run.items, run.cursor + 1, run.updated, errors)
            },
        }
    }
}

} // verus!
