//! Checking shopping-list entries off, and clearing the entries that were
//! checked off into the pantry.

use vstd::prelude::*;
use crate::client::client::ClientError;
use crate::client::types::{
    Food,
    PaginatedResponse,
    Quantity,
    ShoppingListEntry,
    UpdateShoppingListEntryRequest,
};
use crate::server::failure::{fails_plainly, opt_view, ToolFailure};
use crate::server::items::{
    entry_call_failed,
    error_views,
    food_call_failed,
    named_entry_failed,
    summary,
    summary_line,
    ItemError,
    ItemErrorView,
};
use crate::server::shopping::{name_of_unit, unit_name};
use crate::server::{CheckShoppingItemsParams, ItemRef};
use crate::text::{contains_ignoring_case, occurs_ignoring_case, texts};

verus! {

/// One entry that was checked off.
#[derive(Debug, Clone, PartialEq, Eq)]
pub struct CheckedItem {
    pub id: i32,
    pub food: String,
    pub checked: bool,
    pub status: String,
}

/// A checked entry as the contracts see it.
pub struct CheckedItemView {
    pub id: i32,
    pub food: Seq<char>,
    pub checked: bool,
    pub status: Seq<char>,
}

impl View for CheckedItem {
    type V = CheckedItemView;

    open spec fn view(&self) -> CheckedItemView {
        CheckedItemView {
            id: self.id,
            food: self.food@,
            checked: self.checked,
            status: self.status@,
        }
    }
}

/// The views of a list of checked entries.
pub open spec fn checked_views(items: Seq<CheckedItem>) -> Seq<CheckedItemView> {
    items.map_values(|i: CheckedItem| i@)
}

/// What is reported of an entry that the service checked off.
pub open spec fn checked_as(entry: ShoppingListEntry) -> CheckedItemView {
    CheckedItemView {
        id: entry.id,
        food: entry.food.name@,
        checked: entry.checked,
        status: "checked"@,
    }
}

/// What the checking tool hands back.
#[derive(Debug, Clone, PartialEq, Eq)]
pub struct CheckReport {
    pub updated: Vec<CheckedItem>,
    pub errors: Vec<ItemError>,
    pub summary: String,
}

/// How far the checking tool has come.
#[derive(Debug, Clone, PartialEq, Eq)]
pub struct CheckRun {
    pub items: Vec<ItemRef>,
    pub cursor: usize,
    pub updated: Vec<CheckedItem>,
    pub errors: Vec<ItemError>,
}

/// Check the entry numbered `entry_id` off, by sending `change` for it.
#[derive(Debug, Clone, PartialEq, Eq)]
pub struct EntryCheck {
    pub entry_id: i32,
    pub change: UpdateShoppingListEntryRequest,
    pub run: CheckRun,
}

/// The change that checks an entry off: the mark is set, the amount is left
/// alone.
pub open spec fn check_mark() -> UpdateShoppingListEntryRequest {
    UpdateShoppingListEntryRequest { checked: Some(true), amount: None }
}

/// The change that checks an entry off.
pub fn checking_off() -> (r: UpdateShoppingListEntryRequest)
    ensures
        r == check_mark(),
{
    UpdateShoppingListEntryRequest { checked: Some(true), amount: None }
}

/// Read the shopping list, to find the entry that the item in work names.
#[derive(Debug, Clone, PartialEq, Eq)]
pub struct ListLookup {
    pub run: CheckRun,
}

/// What the checking tool does next.
#[derive(Debug, Clone, PartialEq, Eq)]
pub enum CheckStep {
    Update(EntryCheck),
    Lookup(ListLookup),
    Done(CheckReport),
}

/// The place of the first item, from `from` on, that points at an entry by
/// number or by name; the length of the list where there is none.
pub open spec fn next_pointer(items: Seq<ItemRef>, from: int) -> int
    decreases items.len() - from,
{
    if from >= items.len() {
        items.len() as int
    } else if from < 0 || items[from] is Other {
        next_pointer(items, from + 1)
    } else {
        from
    }
}

/// The number of the entry that a pointer by number means: the number, cut
/// down to the width of an entry number.
pub open spec fn entry_number(id: i64) -> i32 {
    id as i32
}

/// `r` is the step that follows once the items before `next` are dealt with:
/// the tool passes over items that point at nothing; for a number it checks
/// the entry of that number off; for a name it reads the list; past the last
/// item it reports.
pub open spec fn checks_on(
    r: CheckStep,
    items: Seq<ItemRef>,
    next: int,
    updated: Seq<CheckedItemView>,
    errors: Seq<ItemErrorView>,
) -> bool {
    let at = next_pointer(items, next);
    if at < items.len() {
        let run = match r {
            CheckStep::Update(step) => step.run,
            CheckStep::Lookup(step) => step.run,
            CheckStep::Done(_) => arbitrary(),
        };
        &&& !(r is Done)
        &&& run.wf()
        &&& run.items@ == items
        &&& run.cursor == at
        &&& checked_views(run.updated@) == updated
        &&& error_views(run.errors@) == errors
        &&& match items[at] {
            ItemRef::Id(id) => {
                &&& r is Update
                &&& r->Update_0.entry_id == entry_number(id)
                &&& r->Update_0.change == check_mark()
            },
            _ => r is Lookup,
        }
    } else {
        &&& r is Done
        &&& checked_views(r->Done_0.updated@) == updated
        &&& error_views(r->Done_0.errors@) == errors
        &&& r->Done_0.summary@ == summary_line(
            "Checked "@,
            updated.len(),
            " items, "@,
            errors.len(),
            " errors"@,
        )
    }
}

/// The entry at `i` is the first whose food name holds `name`, the case of
/// letters set aside.
pub open spec fn is_first_match(entries: Seq<ShoppingListEntry>, name: Seq<char>, i: int) -> bool {
    &&& 0 <= i < entries.len()
    &&& occurs_ignoring_case(name, entries[i].food.name@)
    &&& forall|k: int| 0 <= k < i ==> !occurs_ignoring_case(name, (#[trigger] entries[k]).food.name@)
}

/// No entry's food name holds `name`.
pub open spec fn no_match(entries: Seq<ShoppingListEntry>, name: Seq<char>) -> bool {
    forall|k: int|
        0 <= k < entries.len() ==> !occurs_ignoring_case(name, (#[trigger] entries[k]).food.name@)
}

/// The place of the first entry whose food name holds `name`, the case of
/// letters set aside.
pub fn find_entry(entries: &Vec<ShoppingListEntry>, name: &str) -> (r: Option<usize>)
    ensures
        match r {
            Some(i) => is_first_match(entries@, name@, i as int),
            None => no_match(entries@, name@),
        },
{
    let mut i: usize = 0;
    while i < entries.len()
        invariant
            i <= entries.len(),
            forall|k: int|
                0 <= k < i ==> !occurs_ignoring_case(name@, (#[trigger] entries@[k]).food.name@),
        decreases entries.len() - i,
    {
        if contains_ignoring_case(entries[i].food.name.as_str(), name) {
            return Some(i);
        }
        i = i + 1;
    }
    None
}

impl CheckRun {
    /// The run is at an item that points at an entry.
    pub open spec fn wf(&self) -> bool {
        self.cursor < self.items@.len() && !(self.items@[self.cursor as int] is Other)
    }

    /// The item in work.
    pub open spec fn item(&self) -> ItemRef {
        self.items@[self.cursor as int]
    }

    /// `r` is the step of a run that takes nothing in and goes on from where
    /// it stands.
    pub open spec fn stays(&self, r: CheckStep) -> bool {
        checks_on(
            r,
            self.items@,
            self.cursor as int,
            checked_views(self.updated@),
            error_views(self.errors@),
        )
    }

    fn is_wf(&self) -> (r: bool)
        ensures
            r == self.wf(),
            r ==> self.cursor < usize::MAX,
    {
        self.cursor < self.items.len() && !is_other(&self.items[self.cursor])
    }

    fn stay(self) -> (r: CheckStep)
        ensures
            self.stays(r),
    {
        CheckRun::proceed(self.items, self.cursor, self.updated, self.errors)
    }

    fn proceed(
        items: Vec<ItemRef>,
        next: usize,
        updated: Vec<CheckedItem>,
        errors: Vec<ItemError>,
    ) -> (r: CheckStep)
        ensures
            checks_on(r, items@, next as int, checked_views(updated@), error_views(errors@)),
    {
        let mut at = next;
        while at < items.len() && is_other(&items[at])
            invariant
                next <= at,
                next_pointer(items@, at as int) == next_pointer(items@, next as int),
            decreases items@.len() - at,
        {
            at = at + 1;
        }
        if at < items.len() {
            match &items[at] {
                ItemRef::Id(id) => {
                    let entry_id = #[verifier::truncate]
                    (*id as i32);
                    CheckStep::Update(
                        EntryCheck {
                            entry_id,
                            change: checking_off(),
                            run: CheckRun { items, cursor: at, updated, errors },
                        },
                    )
                },
                _ => CheckStep::Lookup(
                    ListLookup { run: CheckRun { items, cursor: at, updated, errors } },
                ),
            }
        } else {
            let summary = summary("Checked ", updated.len(), " items, ", errors.len(), " errors");
            CheckStep::Done(CheckReport { updated, errors, summary })
        }
    }

    fn note(self, error: ItemError) -> (r: CheckStep)
        requires
            self.wf(),
        ensures
            checks_on(
                r,
                self.items@,
                self.cursor + 1,
                checked_views(self.updated@),
                error_views(self.errors@).push(error@),
            ),
    {
        let count = self.items.len();
        let mut errors = self.errors;
        let ghost before = error_views(errors@);
        errors.push(error);
        assert(error_views(errors@) =~= before.push(error@));
        CheckRun::proceed(self.items, self.cursor + 1, self.updated, errors)
    }
}

fn is_other(item: &ItemRef) -> (r: bool)
    ensures
        r == (*item is Other),
{
    match item {
        ItemRef::Other => true,
        _ => false,
    }
}

/// Starts the checking tool at the first item that points at an entry.
pub fn check_shopping_items(params: CheckShoppingItemsParams) -> (r: CheckStep)
    ensures
        checks_on(r, params.items@, 0, Seq::empty(), Seq::empty()),
{
    let updated: Vec<CheckedItem> = Vec::new();
    let errors: Vec<ItemError> = Vec::new();
    assert(checked_views(updated@) =~= Seq::<CheckedItemView>::empty());
    assert(error_views(errors@) =~= Seq::<ItemErrorView>::empty());
    CheckRun::proceed(params.items, 0, updated, errors)
}

/// The error noted where checking the entry off failed for the item `item`.
pub open spec fn check_failed(item: ItemRef, details: Seq<char>) -> ItemErrorView {
    match item {
        ItemRef::Id(id) => entry_call_failed(id, "Failed to update item"@, details),
        ItemRef::Name(name) => named_entry_failed(name@, "Failed to update item"@, Some(details)),
        ItemRef::Other => named_entry_failed(Seq::empty(), "Failed to update item"@, Some(details)),
    }
}

impl EntryCheck {
    /// Takes in the checking off of one entry, notes how it went, and goes on
    /// with the next item. A step that stands at no pointer takes nothing
    /// in.
    pub fn resume(self, reply: Result<ShoppingListEntry, ClientError>) -> (r: CheckStep)
        ensures
            !self.run.wf() ==> self.run.stays(r),
            self.run.wf() ==> match reply {
                Ok(entry) => checks_on(
                    r,
                    self.run.items@,
                    self.run.cursor + 1,
                    checked_views(self.run.updated@).push(checked_as(entry)),
                    error_views(self.run.errors@),
                ),
                Err(error) => checks_on(
                    r,
                    self.run.items@,
                    self.run.cursor + 1,
                    checked_views(self.run.updated@),
                    error_views(self.run.errors@).push(
                        check_failed(self.run.item(), error.message@),
                    ),
                ),
            },
    {
        let run = self.run;
        if !run.is_wf() {
            return run.stay();
        }
        match reply {
            Ok(entry) => {
                let mut updated = run.updated;
                let ghost before = checked_views(updated@);
                let note = CheckedItem {
                    id: entry.id,
                    food: entry.food.name,
                    checked: entry.checked,
                    status: String::from_str("checked"),
                };
                updated.push(note);
                assert(checked_views(updated@) =~= before.push(note@));
                CheckRun::proceed(run.items, run.cursor + 1, updated, run.errors)
            },
            Err(error) => {
                let note = match &run.items[run.cursor] {
                    ItemRef::Id(id) => ItemError::for_entry(
                        *id,
                        "Failed to update item",
                        error.message,
                    ),
                    ItemRef::Name(name) => ItemError::for_name(
                        name.as_str(),
                        "Failed to update item",
                        Some(error.message),
                    ),
                    ItemRef::Other => ItemError::for_name(
                        "",
                        "Failed to update item",
                        Some(error.message),
                    ),
                };
                proof {
                    reveal_strlit("");
                    assert(""@ =~= Seq::<char>::empty());
                }
                run.note(note)
            },
        }
    }
}

impl ListLookup {
    /// The step is whole: the item in work points at an entry by name.
    pub open spec fn wf(&self) -> bool {
        self.run.wf() && self.run.item() is Name
    }

    /// The name by which the item in work points at an entry.
    pub open spec fn name(&self) -> Seq<char> {
        self.run.item()->Name_0@
    }

    /// Takes in the shopping list. The first entry whose food name holds the
    /// name of the item in work is to be checked off; where there is none, or
    /// the list could not be read, that is noted and the tool goes on. A step
    /// that stands at no pointer by name takes nothing in.
    pub fn resume(self, reply: Result<PaginatedResponse<ShoppingListEntry>, ClientError>) -> (r:
        CheckStep)
        ensures
            !self.wf() ==> self.run.stays(r),
            self.wf() ==> match reply {
                Err(error) => checks_on(
                    r,
                    self.run.items@,
                    self.run.cursor + 1,
                    checked_views(self.run.updated@),
                    error_views(self.run.errors@).push(
                        named_entry_failed(
                            self.name(),
                            "Failed to get shopping list"@,
                            Some(error.message@),
                        ),
                    ),
                ),
                Ok(page) => if no_match(page.results@, self.name()) {
                    checks_on(
                        r,
                        self.run.items@,
                        self.run.cursor + 1,
                        checked_views(self.run.updated@),
                        error_views(self.run.errors@).push(
                            named_entry_failed(
                                self.name(),
                                "Item not found in shopping list"@,
                                None,
                            ),
                        ),
                    )
                } else {
                    &&& r is Update
                    &&& r->Update_0.run == self.run
                    &&& r->Update_0.change == check_mark()
                    &&& exists|i: int|
                        is_first_match(page.results@, self.name(), i) && r->Update_0.entry_id
                            == page.results@[i].id
                },
            },
    {
        let run = self.run;
        if !run.is_wf() {
            return run.stay();
        }
        let name: &str = match &run.items[run.cursor] {
            ItemRef::Name(name) => name.as_str(),
            _ => {
                return run.stay();
            },
        };
        match reply {
            Err(error) => {
                let note = ItemError::for_name(
                    name,
                    "Failed to get shopping list",
                    Some(error.message),
                );
                run.note(note)
            },
            Ok(page) => match find_entry(&page.results, name) {
                Some(i) => {
                    let entry_id = page.results[i].id;
                    assert(!no_match(page.results@, name@));
                    CheckStep::Update(EntryCheck { entry_id, change: checking_off(), run })
                },
                None => {
                    let note = ItemError::for_name(name, "Item not found in shopping list", None);
                    run.note(note)
                },
            },
        }
    }
}

/// One entry that was taken off the list.
#[derive(Debug, Clone, PartialEq, Eq)]
pub struct RemovedItem {
    pub id: i32,
    pub food: String,
    pub amount: Quantity,
    pub unit: Option<String>,
    pub was_checked: bool,
}

/// A removed entry as the contracts see it.
pub struct RemovedItemView {
    pub id: i32,
    pub food: Seq<char>,
    pub amount: Quantity,
    pub unit: Option<Seq<char>>,
    pub was_checked: bool,
}

impl View for RemovedItem {
    type V = RemovedItemView;

    open spec fn view(&self) -> RemovedItemView {
        RemovedItemView {
            id: self.id,
            food: self.food@,
            amount: self.amount,
            unit: opt_view(self.unit),
            was_checked: self.was_checked,
        }
    }
}

/// The views of a list of removed entries.
pub open spec fn removed_views(items: Seq<RemovedItem>) -> Seq<RemovedItemView> {
    items.map_values(|i: RemovedItem| i@)
}

/// What is reported of an entry that was taken off the list.
pub open spec fn removed_as(entry: ShoppingListEntry) -> RemovedItemView {
    RemovedItemView {
        id: entry.id,
        food: entry.food.name@,
        amount: entry.amount,
        unit: unit_name(entry.unit),
        was_checked: entry.checked,
    }
}

/// What the clearing tool hands back.
#[derive(Debug, Clone, PartialEq, Eq)]
pub struct ClearReport {
    pub removed_items: Vec<RemovedItem>,
    /// The names of the foods that were marked as on hand.
    pub pantry_updates: Vec<String>,
    pub errors: Vec<ItemError>,
    pub summary: String,
}

/// How far the clearing tool has come.
#[derive(Debug, Clone, PartialEq, Eq)]
pub struct ClearRun {
    pub entries: Vec<ShoppingListEntry>,
    pub cursor: usize,
    pub removed: Vec<RemovedItem>,
    pub pantry_updates: Vec<String>,
    pub errors: Vec<ItemError>,
}

/// What the clearing tool has gathered, as the contracts see it.
pub struct Cleared {
    pub removed: Seq<RemovedItemView>,
    pub pantry_updates: Seq<Seq<char>>,
    pub errors: Seq<ItemErrorView>,
}

/// Take the entry numbered `entry_id` off the list.
#[derive(Debug, Clone, PartialEq, Eq)]
pub struct EntryRemoval {
    pub entry_id: i32,
    pub run: ClearRun,
}

/// Mark the food numbered `food_id` as on hand.
#[derive(Debug, Clone, PartialEq, Eq)]
pub struct FoodMark {
    pub food_id: i32,
    pub available: bool,
    pub run: ClearRun,
}

/// What the clearing tool does next.
#[derive(Debug, PartialEq, Eq)]
pub enum ClearStep {
    Delete(EntryRemoval),
    MarkOnHand(FoodMark),
    Done(Result<ClearReport, ToolFailure>),
}

/// The place of the first entry, from `from` on, that is checked off; the
/// length of the list where there is none.
pub open spec fn next_checked(entries: Seq<ShoppingListEntry>, from: int) -> int
    decreases entries.len() - from,
{
    if from >= entries.len() {
        entries.len() as int
    } else if from < 0 || !entries[from].checked {
        next_checked(entries, from + 1)
    } else {
        from
    }
}

impl ClearRun {
    /// The run is at an entry that is checked off.
    pub open spec fn wf(&self) -> bool {
        self.cursor < self.entries@.len() && self.entries@[self.cursor as int].checked
    }

    /// The entry in work.
    pub open spec fn entry(&self) -> ShoppingListEntry {
        self.entries@[self.cursor as int]
    }

    /// What the run has gathered.
    pub open spec fn gathered(&self) -> Cleared {
        Cleared {
            removed: removed_views(self.removed@),
            pantry_updates: texts(self.pantry_updates@),
            errors: error_views(self.errors@),
        }
    }

    /// `r` is the step of a run that takes nothing in and goes on from where
    /// it stands.
    pub open spec fn stays(&self, r: ClearStep) -> bool {
        clears_on(r, self.entries@, self.cursor as int, self.gathered())
    }

    fn is_wf(&self) -> (r: bool)
        ensures
            r == self.wf(),
            r ==> self.cursor < usize::MAX,
    {
        self.cursor < self.entries.len() && self.entries[self.cursor].checked
    }

    fn stay(self) -> (r: ClearStep)
        ensures
            self.stays(r),
    {
        ClearRun::proceed(self.entries, self.cursor, self.removed, self.pantry_updates, self.errors)
    }

    fn proceed(
        entries: Vec<ShoppingListEntry>,
        next: usize,
        removed: Vec<RemovedItem>,
        pantry_updates: Vec<String>,
        errors: Vec<ItemError>,
    ) -> (r: ClearStep)
        ensures
            clears_on(
                r,
                entries@,
                next as int,
                Cleared {
                    removed: removed_views(removed@),
                    pantry_updates: texts(pantry_updates@),
                    errors: error_views(errors@),
                },
            ),
    {
        let mut at = next;
        while at < entries.len() && !entries[at].checked
            invariant
                next <= at,
                next_checked(entries@, at as int) == next_checked(entries@, next as int),
            decreases entries@.len() - at,
        {
            at = at + 1;
        }
        if at < entries.len() {
            let entry_id = entries[at].id;
            ClearStep::Delete(
                EntryRemoval {
                    entry_id,
                    run: ClearRun { entries, cursor: at, removed, pantry_updates, errors },
                },
            )
        } else {
            let summary = summary(
                "Removed ",
                removed.len(),
                " checked items, updated pantry for ",
                pantry_updates.len(),
                " items",
            );
            ClearStep::Done(
                Ok(ClearReport { removed_items: removed, pantry_updates, errors, summary }),
            )
        }
    }
}

/// `r` is the step that follows once the entries before `next` are dealt
/// with: the tool passes over entries that are not checked off, takes the
/// next checked one off the list, and past the last entry reports.
pub open spec fn clears_on(
    r: ClearStep,
    entries: Seq<ShoppingListEntry>,
    next: int,
    gathered: Cleared,
) -> bool {
    let at = next_checked(entries, next);
    if at < entries.len() {
        &&& r is Delete
        &&& r->Delete_0.entry_id == entries[at].id
        &&& r->Delete_0.run.wf()
        &&& r->Delete_0.run.entries@ == entries
        &&& r->Delete_0.run.cursor == at
        &&& r->Delete_0.run.gathered() == gathered
    } else {
        &&& r is Done
        &&& r->Done_0 is Ok
        &&& removed_views(r->Done_0->Ok_0.removed_items@) == gathered.removed
        &&& texts(r->Done_0->Ok_0.pantry_updates@) == gathered.pantry_updates
        &&& error_views(r->Done_0->Ok_0.errors@) == gathered.errors
        &&& r->Done_0->Ok_0.summary@ == summary_line(
            "Removed "@,
            gathered.removed.len(),
            " checked items, updated pantry for "@,
            gathered.pantry_updates.len(),
            " items"@,
        )
    }
}

/// Starts the clearing tool on the shopping list that was read: at the first
/// entry that is checked off, or with the failure of the reading.
pub fn clear_shopping_list(reply: Result<PaginatedResponse<ShoppingListEntry>, ClientError>) -> (r:
    ClearStep)
    ensures
        match reply {
            Err(error) => r is Done && fails_plainly(
                r->Done_0,
                "Failed to get shopping list"@,
                error.message@,
            ),
            Ok(page) => clears_on(
                r,
                page.results@,
                0,
                Cleared {
                    removed: Seq::empty(),
                    pantry_updates: Seq::empty(),
                    errors: Seq::empty(),
                },
            ),
        },
{
    match reply {
        Err(error) => ClearStep::Done(
            Err(ToolFailure::plain("Failed to get shopping list", error.message)),
        ),
        Ok(page) => {
            let removed: Vec<RemovedItem> = Vec::new();
            let pantry_updates: Vec<String> = Vec::new();
            let errors: Vec<ItemError> = Vec::new();
            assert(removed_views(removed@) =~= Seq::<RemovedItemView>::empty());
            assert(texts(pantry_updates@) =~= Seq::<Seq<char>>::empty());
            assert(error_views(errors@) =~= Seq::<ItemErrorView>::empty());
            ClearRun::proceed(page.results, 0, removed, pantry_updates, errors)
        },
    }
}

impl EntryRemoval {
    /// Takes in the removal of the entry in work. An entry that is gone is
    /// reported, and its food is to be marked as on hand; a removal that
    /// failed is noted, and the tool goes on with the next entry. A step
    /// that stands at no checked entry takes nothing in.
    pub fn resume(self, reply: Result<(), ClientError>) -> (r: ClearStep)
        ensures
            !self.run.wf() ==> self.run.stays(r),
            self.run.wf() ==> match reply {
                Ok(_) => {
                    &&& r is MarkOnHand
                    &&& r->MarkOnHand_0.food_id == self.run.entry().food.id
                    &&& r->MarkOnHand_0.available
                    &&& r->MarkOnHand_0.run.wf()
                    &&& r->MarkOnHand_0.run.entries == self.run.entries
                    &&& r->MarkOnHand_0.run.cursor == self.run.cursor
                    &&& r->MarkOnHand_0.run.gathered() == Cleared {
                        removed: self.run.gathered().removed.push(removed_as(self.run.entry())),
                        ..self.run.gathered()
                    }
                },
                Err(error) => clears_on(
                    r,
                    self.run.entries@,
                    self.run.cursor + 1,
                    Cleared {
                        errors: self.run.gathered().errors.push(
                            food_call_failed(
                                self.run.entry().food.name@,
                                "Failed to remove from shopping list"@,
                                error.message@,
                            ),
                        ),
                        ..self.run.gathered()
                    },
                ),
            },
    {
        let run = self.run;
        if !run.is_wf() {
            return run.stay();
        }
        match reply {
            Ok(_) => {
                let mut removed = run.removed;
                let ghost before = removed_views(removed@);
                let entry = &run.entries[run.cursor];
                let note = RemovedItem {
                    id: entry.id,
                    food: entry.food.name.clone(),
                    amount: entry.amount,
                    unit: name_of_unit(&entry.unit),
                    was_checked: entry.checked,
                };
                let food_id = entry.food.id;
                removed.push(note);
                assert(removed_views(removed@) =~= before.push(note@));
                ClearStep::MarkOnHand(
                    FoodMark {
                        food_id,
                        available: true,
                        run: ClearRun {
                            entries: run.entries,
                            cursor: run.cursor,
                            removed,
                            pantry_updates: run.pantry_updates,
                            errors: run.errors,
                        },
                    },
                )
            },
            Err(error) => {
                let mut errors = run.errors;
                let ghost before = error_views(errors@);
                let note = ItemError::for_food(
                    run.entries[run.cursor].food.name.as_str(),
                    "Failed to remove from shopping list",
                    error.message,
                );
                errors.push(note);
                assert(error_views(errors@) =~= before.push(note@));
                ClearRun::proceed(
                    run.entries,
                    run.cursor + 1,
                    run.removed,
                    run.pantry_updates,
                    errors,
                )
            },
        }
    }
}

impl FoodMark {
    /// Takes in the marking of the food of the entry in work, notes how it
    /// went, and goes on with the next entry. A step that stands at no
    /// checked entry takes nothing in.
    pub fn resume(self, reply: Result<Food, ClientError>) -> (r: ClearStep)
        ensures
            !self.run.wf() ==> self.run.stays(r),
            self.run.wf() ==> match reply {
                Ok(_) => clears_on(
                    r,
                    self.run.entries@,
                    self.run.cursor + 1,
                    Cleared {
                        pantry_updates: self.run.gathered().pantry_updates.push(
                            self.run.entry().food.name@,
                        ),
                        ..self.run.gathered()
                    },
                ),
                Err(error) => clears_on(
                    r,
                    self.run.entries@,
                    self.run.cursor + 1,
                    Cleared {
                        errors: self.run.gathered().errors.push(
                            food_call_failed(
                                self.run.entry().food.name@,
                                "Failed to update pantry"@,
                                error.message@,
                            ),
                        ),
                        ..self.run.gathered()
                    },
                ),
            },
    {
        let run = self.run;
        if !run.is_wf() {
            return run.stay();
        }
        match reply {
            Ok(_) => {
                let mut pantry_updates = run.pantry_updates;
                let ghost before = texts(pantry_updates@);
                let name = run.entries[run.cursor].food.name.clone();
                pantry_updates.push(name);
                assert(texts(pantry_updates@) =~= before.push(name@));
                ClearRun::proceed(
                    run.entries,
                    run.cursor + 1,
                    run.removed,
                    pantry_updates,
                    run.errors,
                )
            },
            Err(error) => {
                let mut errors = run.errors;
                let ghost before = error_views(errors@);
                let note = ItemError::for_food(
                    run.entries[run.cursor].food.name.as_str(),
                    "Failed to update pantry",
                    error.message,
                );
                errors.push(note);
                assert(error_views(errors@) =~= before.push(note@));
                ClearRun::proceed(
                    run.entries,
                    run.cursor + 1,
                    run.removed,
                    run.pantry_updates,
                    errors,
                )
            },
        }
    }
}

} // verus!
