//! The pantry tools: looking foods up, marking what is on hand, and
//! suggesting recipes that use it.

use vstd::prelude::*;
use crate::client::client::ClientError;
use crate::client::types::{Food, PaginatedResponse, Recipe, Step, StepIngredient};
use crate::server::failure::{fails_plainly, ToolFailure};
use crate::server::recipes::{total_minutes, total_time};
use crate::server::SuggestFromInventoryParams;
use crate::text::{
    concat3,
    decimal_nat,
    decimal_u64,
    eq_ignoring_case,
    same_ignoring_case,
    text_eq,
    texts,
};

verus! {

/// The names of the foods that are on hand, in the order of the list.
pub open spec fn on_hand_names(foods: Seq<Food>) -> Seq<Seq<char>> {
    foods.filter(|f: Food| f.food_onhand).map_values(|f: Food| f.name@)
}

/// The names of the foods that are on hand, in the order of the list.
pub fn on_hand(foods: &Vec<Food>) -> (r: Vec<String>)
    ensures
        texts(r@) == on_hand_names(foods@),
{
    let mut names: Vec<String> = Vec::new();
    let mut i: usize = 0;
    proof {
        reveal(Seq::filter);
        assert(texts(names@) =~= on_hand_names(foods@.take(0)));
    }
    while i < foods.len()
        invariant
            i <= foods.len(),
            texts(names@) == on_hand_names(foods@.take(i as int)),
        decreases foods.len() - i,
    {
        proof {
            assert(foods@.take(i + 1) =~= foods@.take(i as int).push(foods@[i as int]));
            foods@.take(i as int).lemma_filter_push(foods@[i as int], |f: Food| f.food_onhand);
        }
        if foods[i].food_onhand {
            let ghost before = names@;
            names.push(foods[i].name.clone());
            assert(texts(names@) =~= texts(before).push(foods@[i as int].name@));
            assert(texts(names@) =~= on_hand_names(foods@.take(i + 1)));
        }
        i = i + 1;
    }
    assert(foods@.take(foods.len() as int) =~= foods@);
    names
}

/// Every ingredient of a recipe's steps, step after step.
pub open spec fn all_ingredients(steps: Seq<Step>) -> Seq<StepIngredient> {
    steps.map_values(|s: Step| s.ingredients@).flatten()
}

/// An ingredient that has to be bought or found: no heading, and one that
/// comes in an amount.
pub open spec fn counts(ingredient: StepIngredient) -> bool {
    !ingredient.is_header && !ingredient.no_amount
}

/// The food names of the ingredients that count, in the order of the recipe.
pub open spec fn counted_names(steps: Seq<Step>) -> Seq<Seq<char>> {
    all_ingredients(steps).filter(|i: StepIngredient| counts(i)).map_values(
        |i: StepIngredient| i.food.name@,
    )
}

/// The pantry holds a food of this name, the case of letters set aside.
pub open spec fn stocked(pantry: Seq<Seq<char>>, name: Seq<char>) -> bool {
    exists|k: int| 0 <= k < pantry.len() && same_ignoring_case(#[trigger] pantry[k], name)
}

/// The names, among `names`, of what the pantry lacks, in their order.
pub open spec fn missing_from(pantry: Seq<Seq<char>>, names: Seq<Seq<char>>) -> Seq<Seq<char>> {
    names.filter(|name: Seq<char>| !stocked(pantry, name))
}

proof fn lemma_all_ingredients_push(steps: Seq<Step>, step: Step)
    ensures
        all_ingredients(steps.push(step)) == all_ingredients(steps) + step.ingredients@,
{
    let f = |s: Step| s.ingredients@;
    assert(steps.push(step).map_values(f) =~= steps.map_values(f).push(step.ingredients@));
    steps.map_values(f).lemma_flatten_push(step.ingredients@);
}

/// The food names of the ingredients of `steps` that count, in the order of
/// the recipe.
pub fn names_that_count(steps: &Vec<Step>) -> (r: Vec<String>)
    ensures
        texts(r@) == counted_names(steps@),
{
    let mut names: Vec<String> = Vec::new();
    let ghost keep = |i: StepIngredient| counts(i);
    let ghost name = |i: StepIngredient| i.food.name@;
    let mut s: usize = 0;
    proof {
        reveal(Seq::filter);
        assert(steps@.take(0).map_values(|s: Step| s.ingredients@) =~= Seq::<
            Seq<StepIngredient>,
        >::empty());
        assert(all_ingredients(steps@.take(0)) =~= Seq::<StepIngredient>::empty());
        assert(texts(names@) =~= counted_names(steps@.take(0)));
    }
    while s < steps.len()
        invariant
            s <= steps.len(),
            keep == |i: StepIngredient| counts(i),
            name == |i: StepIngredient| i.food.name@,
            texts(names@) == all_ingredients(steps@.take(s as int)).filter(keep).map_values(name),
        decreases steps.len() - s,
    {
        let ghost done = all_ingredients(steps@.take(s as int));
        let ingredients = &steps[s].ingredients;
        let mut j: usize = 0;
        proof {
            assert(done + ingredients@.take(0) =~= done);
        }
        while j < ingredients.len()
            invariant
                j <= ingredients.len(),
                keep == |i: StepIngredient| counts(i),
                name == |i: StepIngredient| i.food.name@,
                texts(names@) == (done + ingredients@.take(j as int)).filter(keep).map_values(
                    name,
                ),
            decreases ingredients.len() - j,
        {
            let ghost seen = done + ingredients@.take(j as int);
            proof {
                assert(done + ingredients@.take(j + 1) =~= seen.push(ingredients@[j as int]));
                seen.lemma_filter_push(ingredients@[j as int], keep);
            }
            let ingredient = &ingredients[j];
            if !ingredient.is_header && !ingredient.no_amount {
                let ghost before = names@;
                names.push(ingredient.food.name.clone());
                assert(texts(names@) =~= texts(before).push(ingredient.food.name@));
                assert(texts(names@) =~= seen.push(ingredients@[j as int]).filter(
                    keep,
                ).map_values(name));
            }
            j = j + 1;
        }
        proof {
            assert(ingredients@.take(ingredients.len() as int) =~= ingredients@);
            assert(steps@.take(s + 1) =~= steps@.take(s as int).push(steps@[s as int]));
            lemma_all_ingredients_push(steps@.take(s as int), steps@[s as int]);
        }
        s = s + 1;
    }
    assert(steps@.take(steps.len() as int) =~= steps@);
    names
}

/// Whether the pantry holds a food of this name, the case of letters set
/// aside.
pub fn in_pantry(pantry: &Vec<String>, name: &str) -> (r: bool)
    ensures
        r == stocked(texts(pantry@), name@),
{
    let mut k: usize = 0;
    while k < pantry.len()
        invariant
            k <= pantry.len(),
            forall|m: int| 0 <= m < k ==> !same_ignoring_case(#[trigger] texts(pantry@)[m], name@),
        decreases pantry.len() - k,
    {
        if eq_ignoring_case(pantry[k].as_str(), name) {
            assert(same_ignoring_case(texts(pantry@)[k as int], name@));
            return true;
        }
        k = k + 1;
    }
    false
}

/// The names, among `names`, of what the pantry lacks, in their order.
pub fn missing(pantry: &Vec<String>, names: Vec<String>) -> (r: Vec<String>)
    ensures
        texts(r@) == missing_from(texts(pantry@), texts(names@)),
        r@.len() <= names@.len(),
{
    let ghost lacks = |name: Seq<char>| !stocked(texts(pantry@), name);
    let mut out: Vec<String> = Vec::new();
    let mut i: usize = 0;
    proof {
        reveal(Seq::filter);
        assert(texts(out@) =~= texts(names@).take(0).filter(lacks));
    }
    while i < names.len()
        invariant
            i <= names.len(),
            out@.len() <= i,
            lacks == |name: Seq<char>| !stocked(texts(pantry@), name),
            texts(out@) == texts(names@).take(i as int).filter(lacks),
        decreases names.len() - i,
    {
        proof {
            assert(texts(names@).take(i + 1) =~= texts(names@).take(i as int).push(
                names@[i as int]@,
            ));
            texts(names@).take(i as int).lemma_filter_push(names@[i as int]@, lacks);
        }
        if !in_pantry(pantry, names[i].as_str()) {
            let ghost before = out@;
            out.push(names[i].clone());
            assert(texts(out@) =~= texts(before).push(names@[i as int]@));
        }
        i = i + 1;
    }
    assert(texts(names@).take(names.len() as int) =~= texts(names@));
    out
}

/// How much of a recipe the pantry must cover for the recipe to be suggested.
/// The figures are a matter of taste, so they are data.
#[derive(Debug, Clone, Copy, PartialEq, Eq)]
pub struct MatchPolicy {
    /// The least share, in percent, under the mode `maximum-use`.
    pub maximum_use_percent: u32,
    /// The least share, in percent, under the mode `expiring`.
    pub expiring_percent: u32,
    /// The most ingredients that may be missing under the mode `expiring`.
    pub expiring_max_missing: usize,
    /// The least share, in percent, under any other mode.
    pub other_percent: u32,
}

/// `matching` of `total` is at least `percent` in a hundred.
pub open spec fn reaches(matching: nat, total: nat, percent: nat) -> bool {
    100 * matching >= percent * total
}

/// Whether a recipe with these figures is suggested under `mode`. A recipe
/// without ingredients that count never is.
pub open spec fn admits(
    policy: MatchPolicy,
    mode: Seq<char>,
    matching: nat,
    total: nat,
    missing: nat,
) -> bool {
    &&& total > 0
    &&& if mode == "maximum-use"@ {
        reaches(matching, total, policy.maximum_use_percent as nat)
    } else if mode == "expiring"@ {
        reaches(matching, total, policy.expiring_percent as nat) && missing
            <= policy.expiring_max_missing
    } else {
        reaches(matching, total, policy.other_percent as nat)
    }
}

impl MatchPolicy {
    /// Half under `maximum-use`; three in ten and at most three missing under
    /// `expiring`; six in ten otherwise.
    pub fn standard() -> (r: Self)
        ensures
            r.maximum_use_percent == 50,
            r.expiring_percent == 30,
            r.expiring_max_missing == 3,
            r.other_percent == 60,
    {
        MatchPolicy {
            maximum_use_percent: 50,
            expiring_percent: 30,
            expiring_max_missing: 3,
            other_percent: 60,
        }
    }

    /// Whether a recipe with these figures is suggested under `mode`.
    pub fn admits(&self, mode: &str, matching: usize, total: usize, missing: usize) -> (r: bool)
        ensures
            r == admits(*self, mode@, matching as nat, total as nat, missing as nat),
    {
        if total == 0 {
            return false;
        }
        if text_eq(mode, "maximum-use") {
            reaches_share(matching, total, self.maximum_use_percent)
        } else if text_eq(mode, "expiring") {
            reaches_share(matching, total, self.expiring_percent) && missing
                <= self.expiring_max_missing
        } else {
            reaches_share(matching, total, self.other_percent)
        }
    }
}

fn reaches_share(matching: usize, total: usize, percent: u32) -> (r: bool)
    ensures
        r == reaches(matching as nat, total as nat, percent as nat),
{
    let have: u128 = 100u128 * (matching as u128);
    assert((percent as u128) * (total as u128) <= 0xffff_ffff * 0xffff_ffff_ffff_ffff)
        by (nonlinear_arith)
        requires
            (percent as u128) <= 0xffff_ffff,
            (total as u128) <= 0xffff_ffff_ffff_ffff,
    ;
    let need: u128 = (percent as u128) * (total as u128);
    have >= need
}

/// One suggested recipe.
#[derive(Debug, Clone, PartialEq, Eq)]
pub struct Suggestion {
    pub recipe_id: i32,
    pub recipe_name: String,
    /// How many of the ingredients that count the pantry holds.
    pub matching_ingredients: usize,
    /// How many ingredients count.
    pub total_ingredients: usize,
    /// The names of the ingredients that the pantry lacks.
    pub missing_ingredients: Vec<String>,
    /// Working and waiting time together, in minutes.
    pub total_time: i64,
}

/// A suggestion as the contracts see it.
pub struct SuggestionView {
    pub recipe_id: i32,
    pub recipe_name: Seq<char>,
    pub matching_ingredients: nat,
    pub total_ingredients: nat,
    pub missing_ingredients: Seq<Seq<char>>,
    pub total_time: i64,
}

impl View for Suggestion {
    type V = SuggestionView;

    open spec fn view(&self) -> SuggestionView {
        SuggestionView {
            recipe_id: self.recipe_id,
            recipe_name: self.recipe_name@,
            matching_ingredients: self.matching_ingredients as nat,
            total_ingredients: self.total_ingredients as nat,
            missing_ingredients: texts(self.missing_ingredients@),
            total_time: self.total_time,
        }
    }
}

impl SuggestionView {
    /// The upper figure of the share covered: how many ingredients match,
    /// and none where nothing counts.
    pub open spec fn part(self) -> nat {
        if self.total_ingredients == 0 {
            0
        } else {
            self.matching_ingredients
        }
    }

    /// The lower figure of the share covered: how many ingredients count,
    /// and one where nothing counts.
    pub open spec fn whole(self) -> nat {
        if self.total_ingredients == 0 {
            1
        } else {
            self.total_ingredients
        }
    }
}

/// The views of a list of suggestions.
pub open spec fn views(s: Seq<Suggestion>) -> Seq<SuggestionView> {
    s.map_values(|x: Suggestion| x@)
}

/// `a` covers a strictly larger share of its recipe than `b` of its own.
pub open spec fn outranks(a: SuggestionView, b: SuggestionView) -> bool {
    a.part() * b.whole() > b.part() * a.whole()
}

/// The suggestion at `i` comes first: none covers a larger share, and all
/// that stand before it cover a smaller one.
pub open spec fn is_top(s: Seq<SuggestionView>, i: int) -> bool {
    &&& 0 <= i < s.len()
    &&& forall|j: int| 0 <= j < s.len() ==> !outranks(#[trigger] s[j], s[i])
    &&& forall|j: int| 0 <= j < i ==> outranks(s[i], #[trigger] s[j])
}

/// The place of the suggestion that comes first.
pub open spec fn top(s: Seq<SuggestionView>) -> int {
    choose|i: int| is_top(s, i)
}

/// The first `limit` suggestions by the share they cover, largest first,
/// those of equal share in the order in which they stood.
pub open spec fn ranked(s: Seq<SuggestionView>, limit: nat) -> Seq<SuggestionView>
    decreases limit,
{
    if limit == 0 || s.len() == 0 || !is_top(s, top(s)) {
        Seq::empty()
    } else {
        seq![s[top(s)]] + ranked(s.remove(top(s)), (limit - 1) as nat)
    }
}

proof fn lemma_ranked_comes_from(s: Seq<SuggestionView>, limit: nat, k: int)
    requires
        0 <= k < ranked(s, limit).len(),
    ensures
        exists|i: int| 0 <= i < s.len() && s[i] == ranked(s, limit)[k],
    decreases limit,
{
    if !(limit == 0 || s.len() == 0 || !is_top(s, top(s))) {
        let t = top(s);
        let rest = s.remove(t);
        if k == 0 {
            assert(s[t] == ranked(s, limit)[k]);
        } else {
            assert(ranked(s, limit)[k] == ranked(rest, (limit - 1) as nat)[k - 1]);
            lemma_ranked_comes_from(rest, (limit - 1) as nat, k - 1);
            let i = choose|i: int|
                0 <= i < rest.len() && rest[i] == ranked(rest, (limit - 1) as nat)[k - 1];
            if i < t {
                assert(s[i] == rest[i]);
            } else {
                assert(s[i + 1] == rest[i]);
            }
        }
    }
}

/// A ranking is in order: no suggestion covers a larger share of its recipe
/// than one that stands before it.
pub proof fn law_ranking_is_ordered(s: Seq<SuggestionView>, limit: nat, i: int, j: int)
    requires
        0 <= i < j < ranked(s, limit).len(),
    ensures
        !outranks(ranked(s, limit)[j], ranked(s, limit)[i]),
    decreases limit,
{
    if !(limit == 0 || s.len() == 0 || !is_top(s, top(s))) {
        let t = top(s);
        let rest = s.remove(t);
        assert(ranked(s, limit)[j] == ranked(rest, (limit - 1) as nat)[j - 1]);
        if i == 0 {
            lemma_ranked_comes_from(s, limit, j);
            let m = choose|m: int| 0 <= m < s.len() && s[m] == ranked(s, limit)[j];
            assert(!outranks(s[m], s[t]));
        } else {
            assert(ranked(s, limit)[i] == ranked(rest, (limit - 1) as nat)[i - 1]);
            law_ranking_is_ordered(rest, (limit - 1) as nat, i - 1, j - 1);
        }
    }
}

proof fn lemma_outranks_chain(a: SuggestionView, b: SuggestionView, c: SuggestionView)
    requires
        !outranks(a, b),
        outranks(c, b),
    ensures
        outranks(c, a),
        !outranks(a, c),
{
    let am = a.part() as int;
    let at = a.whole() as int;
    let bm = b.part() as int;
    let bt = b.whole() as int;
    let cm = c.part() as int;
    let ct = c.whole() as int;
    assert(cm * at > am * ct) by (nonlinear_arith)
        requires
            am * bt <= bm * at,
            cm * bt > bm * ct,
            at > 0,
            bt > 0,
            ct > 0,
            am >= 0,
            bm >= 0,
            cm >= 0,
    {
        assert((cm * bt) * at > (bm * ct) * at);
        assert((am * bt) * ct <= (bm * at) * ct);
        assert((cm * at) * bt > (am * ct) * bt);
    }
}

proof fn lemma_top_is_unique(s: Seq<SuggestionView>, i: int, j: int)
    requires
        is_top(s, i),
        is_top(s, j),
    ensures
        i == j,
{
    if i < j {
        assert(outranks(s[j], s[i]));
        assert(!outranks(s[j], s[i]));
    } else if j < i {
        assert(outranks(s[i], s[j]));
        assert(!outranks(s[i], s[j]));
    }
}

fn exec_outranks(a: &Suggestion, b: &Suggestion) -> (r: bool)
    ensures
        r == outranks(a@, b@),
{
    let a_part: u128 = if a.total_ingredients == 0 {
        0
    } else {
        a.matching_ingredients as u128
    };
    let a_whole: u128 = if a.total_ingredients == 0 {
        1
    } else {
        a.total_ingredients as u128
    };
    let b_part: u128 = if b.total_ingredients == 0 {
        0
    } else {
        b.matching_ingredients as u128
    };
    let b_whole: u128 = if b.total_ingredients == 0 {
        1
    } else {
        b.total_ingredients as u128
    };
    assert(a_part * b_whole <= 0xffff_ffff_ffff_ffff * 0xffff_ffff_ffff_ffff)
        by (nonlinear_arith)
        requires
            a_part <= 0xffff_ffff_ffff_ffff,
            b_whole <= 0xffff_ffff_ffff_ffff,
    ;
    assert(b_part * a_whole <= 0xffff_ffff_ffff_ffff * 0xffff_ffff_ffff_ffff)
        by (nonlinear_arith)
        requires
            b_part <= 0xffff_ffff_ffff_ffff,
            a_whole <= 0xffff_ffff_ffff_ffff,
    ;
    let left: u128 = a_part * b_whole;
    let right: u128 = b_part * a_whole;
    left > right
}

fn find_top(s: &Vec<Suggestion>) -> (r: usize)
    requires
        s@.len() > 0,
    ensures
        is_top(views(s@), r as int),
{
    let mut best: usize = 0;
    let mut j: usize = 1;
    let ghost v = views(s@);
    while j < s.len()
        invariant
            v == views(s@),
            best < j <= s.len(),
            forall|k: int| 0 <= k < j ==> !outranks(#[trigger] v[k], v[best as int]),
            forall|k: int| 0 <= k < best ==> outranks(v[best as int], #[trigger] v[k]),
        decreases s.len() - j,
    {
        if exec_outranks(&s[j], &s[best]) {
            proof {
                assert forall|k: int| 0 <= k < j implies outranks(v[j as int], #[trigger] v[k])
                    && !outranks(v[k], v[j as int]) by {
                    lemma_outranks_chain(v[k], v[best as int], v[j as int]);
                }
            }
            best = j;
        }
        j = j + 1;
    }
    best
}

/// The first `limit` suggestions by the share they cover, largest first,
/// those of equal share in the order in which they stood.
pub fn rank(suggestions: Vec<Suggestion>, limit: usize) -> (r: Vec<Suggestion>)
    ensures
        views(r@) == ranked(views(suggestions@), limit as nat),
        r@.len() == if suggestions@.len() <= limit {
            suggestions@.len()
        } else {
            limit as nat
        },
{
    let mut rest = suggestions;
    let mut out: Vec<Suggestion> = Vec::new();
    proof {
        assert(views(out@) + ranked(views(rest@), limit as nat) =~= ranked(
            views(suggestions@),
            limit as nat,
        ));
    }
    while out.len() < limit && rest.len() > 0
        invariant
            out@.len() <= limit,
            out@.len() + rest@.len() == suggestions@.len(),
            views(out@) + ranked(views(rest@), (limit - out@.len()) as nat) == ranked(
                views(suggestions@),
                limit as nat,
            ),
        decreases rest@.len(),
    {
        let at = find_top(&rest);
        let ghost before = views(rest@);
        let ghost done = views(out@);
        proof {
            if top(before) != at as int {
                lemma_top_is_unique(before, top(before), at as int);
            }
        }
        let best = rest.remove(at);
        out.push(best);
        proof {
            assert(views(rest@) =~= before.remove(at as int));
            assert(views(out@) =~= done + seq![before[at as int]]);
            assert(ranked(before, (limit - done.len()) as nat) == seq![before[at as int]]
                + ranked(before.remove(at as int), (limit - done.len() - 1) as nat));
            assert(views(out@) + ranked(views(rest@), (limit - out@.len()) as nat) =~= done
                + ranked(before, (limit - done.len()) as nat));
        }
    }
    proof {
        let left = ranked(views(rest@), (limit - out@.len()) as nat);
        if out@.len() < limit {
            assert(rest@.len() == 0);
            assert(views(rest@).len() == 0);
        }
        assert(left =~= Seq::<SuggestionView>::empty());
        assert(views(out@) =~= views(out@) + left);
    }
    out
}

/// How many suggestions a report holds at most.
pub const SUGGESTION_LIMIT: usize = 10;

/// How many foods the pantry reading asks for.
pub const INVENTORY_PAGE: i32 = 100;

/// How many recipes are looked at.
pub const CANDIDATE_PAGE: i32 = 20;

/// A recipe that is looked at: what the search told of it.
#[derive(Debug, Clone, PartialEq, Eq)]
pub struct Candidate {
    pub recipe_id: i32,
    pub recipe_name: String,
    pub total_time: i64,
}

/// `c` is what the search told of `recipe`.
pub open spec fn is_candidate(c: Candidate, recipe: Recipe) -> bool {
    &&& c.recipe_id == recipe.id
    &&& c.recipe_name@ == recipe.name@
    &&& c.total_time == total_minutes(recipe.working_time, recipe.waiting_time)
}

/// `cs` is what the search told of `recipes`, one for one.
pub open spec fn are_candidates(cs: Seq<Candidate>, recipes: Seq<Recipe>) -> bool {
    &&& cs.len() == recipes.len()
    &&& forall|i: int| 0 <= i < cs.len() ==> is_candidate(#[trigger] cs[i], recipes[i])
}

/// How a recipe stands against the pantry: how many of its ingredients that
/// count the pantry holds, and which it lacks.
pub open spec fn assessment(candidate: Candidate, detail: Recipe, pantry: Seq<Seq<char>>) -> SuggestionView {
    let names = counted_names(detail.steps@);
    let lacking = missing_from(pantry, names);
    SuggestionView {
        recipe_id: candidate.recipe_id,
        recipe_name: candidate.recipe_name@,
        matching_ingredients: (names.len() - lacking.len()) as nat,
        total_ingredients: names.len(),
        missing_ingredients: lacking,
        total_time: candidate.total_time,
    }
}

/// The suggestions found once the reading of one more recipe came back: one
/// more where the recipe could be read and the policy admits it, else the
/// same.
pub open spec fn found_after(
    found: Seq<SuggestionView>,
    candidate: Candidate,
    reply: Result<Recipe, ClientError>,
    pantry: Seq<Seq<char>>,
    mode: Seq<char>,
    policy: MatchPolicy,
) -> Seq<SuggestionView> {
    match reply {
        Ok(detail) => {
            let s = assessment(candidate, detail, pantry);
            if admits(
                policy,
                mode,
                s.matching_ingredients,
                s.total_ingredients,
                s.missing_ingredients.len(),
            ) {
                found.push(s)
            } else {
                found
            }
        },
        Err(_) => found,
    }
}

/// How a recipe stands against the pantry.
pub fn assess(candidate: &Candidate, detail: &Recipe, pantry: &Vec<String>) -> (r: Suggestion)
    ensures
        r@ == assessment(*candidate, *detail, texts(pantry@)),
{
    let names = names_that_count(&detail.steps);
    let total = names.len();
    let lacking = missing(pantry, names);
    Suggestion {
        recipe_id: candidate.recipe_id,
        recipe_name: candidate.recipe_name.clone(),
        matching_ingredients: total - lacking.len(),
        total_ingredients: total,
        missing_ingredients: lacking,
        total_time: candidate.total_time,
    }
}

/// What the suggestion tool hands back.
#[derive(Debug, Clone, PartialEq, Eq)]
pub struct SuggestionReport {
    pub suggestions: Vec<Suggestion>,
    /// The names of what is on hand; absent where nothing is.
    pub available_ingredients: Option<Vec<String>>,
    pub mode: String,
    /// How many foods are on hand; absent where none is.
    pub total_available: Option<usize>,
    pub message: String,
}

/// The report for a pantry with nothing on hand.
pub open spec fn is_empty_pantry_report(r: SuggestionReport, mode: Seq<char>) -> bool {
    &&& r.suggestions@.len() == 0
    &&& r.available_ingredients is None
    &&& r.mode@ == mode
    &&& r.total_available is None
    &&& r.message@ == "No ingredients found in pantry. Update your inventory first."@
}

/// The report that ranks what was found.
pub open spec fn is_ranked_report(
    r: SuggestionReport,
    found: Seq<SuggestionView>,
    pantry: Seq<Seq<char>>,
    mode: Seq<char>,
) -> bool {
    &&& views(r.suggestions@) == ranked(found, SUGGESTION_LIMIT as nat)
    &&& r.available_ingredients is Some
    &&& texts(r.available_ingredients->0@) == pantry
    &&& r.mode@ == mode
    &&& r.total_available == Some(pantry.len() as usize)
    &&& r.message@ == "Found "@ + decimal_nat(r.suggestions@.len()) + " recipe suggestions using your "@
        + decimal_nat(pantry.len()) + " available ingredients"@
}

fn ranked_report(found: Vec<Suggestion>, pantry: Vec<String>, mode: String) -> (r: SuggestionReport)
    ensures
        is_ranked_report(r, views(found@), texts(pantry@), mode@),
{
    let suggestions = rank(found, SUGGESTION_LIMIT);
    let count = decimal_u64(suggestions.len() as u64);
    let stock = decimal_u64(pantry.len() as u64);
    let mut message = concat3("Found ", count.as_str(), " recipe suggestions using your ");
    message.append(stock.as_str());
    message.append(" available ingredients");
    let total = pantry.len();
    SuggestionReport {
        suggestions,
        available_ingredients: Some(pantry),
        mode,
        total_available: Some(total),
        message,
    }
}

/// The first step of the suggestion tool: read the pantry.
#[derive(Debug, Clone, PartialEq, Eq)]
pub struct InventoryQuery {
    /// The text to search foods by.
    pub query: String,
    /// How many foods to ask for.
    pub limit: i32,
    pub mode: String,
    pub policy: MatchPolicy,
}

/// The second step: read the recipes to look at.
#[derive(Debug, Clone, PartialEq, Eq)]
pub struct RecipeQuery {
    /// The text to search recipes by: none, so that all are looked at.
    pub query: Option<String>,
    /// How many recipes to ask for.
    pub limit: i32,
    pub mode: String,
    pub policy: MatchPolicy,
    /// The names of what is on hand.
    pub pantry: Vec<String>,
}

/// The steps after that: read one of the recipes in full.
#[derive(Debug, Clone, PartialEq, Eq)]
pub struct RecipeLookup {
    /// The number of the recipe to read.
    pub recipe_id: i32,
    pub mode: String,
    pub policy: MatchPolicy,
    pub pantry: Vec<String>,
    pub candidates: Vec<Candidate>,
    /// The place, among the candidates, of the recipe to read.
    pub cursor: usize,
    /// What was found so far.
    pub found: Vec<Suggestion>,
}

/// What the suggestion tool does next.
#[derive(Debug, PartialEq, Eq)]
pub enum AdvisorStep {
    SearchRecipes(RecipeQuery),
    GetRecipe(RecipeLookup),
    Done(Result<SuggestionReport, ToolFailure>),
}

/// Starts the suggestion tool: the pantry is read first, a hundred foods of
/// it, under the standard policy.
pub fn suggest_from_inventory(params: SuggestFromInventoryParams) -> (r: InventoryQuery)
    ensures
        r.query@ == ""@,
        r.limit == INVENTORY_PAGE,
        r.mode == params.mode,
        r.policy == MatchPolicy::standard_policy(),
{
    InventoryQuery {
        query: String::from_str(""),
        limit: INVENTORY_PAGE,
        mode: params.mode,
        policy: MatchPolicy::standard(),
    }
}

impl MatchPolicy {
    /// The standard policy, for the contracts.
    pub open spec fn standard_policy() -> MatchPolicy {
        MatchPolicy {
            maximum_use_percent: 50,
            expiring_percent: 30,
            expiring_max_missing: 3,
            other_percent: 60,
        }
    }
}

impl InventoryQuery {
    /// Takes in the pantry. A reading that failed ends the tool, and so does
    /// a pantry with nothing on hand; else the recipes are searched, twenty
    /// of them, with nothing to search by.
    pub fn resume(self, reply: Result<PaginatedResponse<Food>, ClientError>) -> (r: AdvisorStep)
        ensures
            match reply {
                Err(error) => r is Done && fails_plainly(
                    r->Done_0,
                    "Failed to get inventory"@,
                    error.message@,
                ),
                Ok(page) => if on_hand_names(page.results@).len() == 0 {
                    &&& r is Done
                    &&& r->Done_0 is Ok
                    &&& is_empty_pantry_report(r->Done_0->Ok_0, self.mode@)
                } else {
                    &&& r is SearchRecipes
                    &&& r->SearchRecipes_0.query is None
                    &&& r->SearchRecipes_0.limit == CANDIDATE_PAGE
                    &&& r->SearchRecipes_0.mode == self.mode
                    &&& r->SearchRecipes_0.policy == self.policy
                    &&& texts(r->SearchRecipes_0.pantry@) == on_hand_names(page.results@)
                },
            },
    {
        match reply {
            Err(error) => AdvisorStep::Done(
                Err(ToolFailure::plain("Failed to get inventory", error.message)),
            ),
            Ok(page) => {
                let pantry = on_hand(&page.results);
                if pantry.len() == 0 {
                    AdvisorStep::Done(
                        Ok(
                            SuggestionReport {
                                suggestions: Vec::new(),
                                available_ingredients: None,
                                mode: self.mode,
                                total_available: None,
                                message: String::from_str(
                                    "No ingredients found in pantry. Update your inventory first.",
                                ),
                            },
                        ),
                    )
                } else {
                    AdvisorStep::SearchRecipes(
                        RecipeQuery {
                            query: None,
                            limit: CANDIDATE_PAGE,
                            mode: self.mode,
                            policy: self.policy,
                            pantry,
                        },
                    )
                }
            },
        }
    }
}

/// What the search told of each recipe.
pub fn candidates(recipes: &Vec<Recipe>) -> (r: Vec<Candidate>)
    ensures
        are_candidates(r@, recipes@),
{
    let mut out: Vec<Candidate> = Vec::new();
    let mut i: usize = 0;
    while i < recipes.len()
        invariant
            i <= recipes.len(),
            are_candidates(out@, recipes@.take(i as int)),
        decreases recipes.len() - i,
    {
        let recipe = &recipes[i];
        out.push(
            Candidate {
                recipe_id: recipe.id,
                recipe_name: recipe.name.clone(),
                total_time: total_time(recipe.working_time, recipe.waiting_time),
            },
        );
        i = i + 1;
    }
    assert(recipes@.take(recipes.len() as int) =~= recipes@);
    out
}

impl RecipeQuery {
    /// Takes in the recipes to look at. A search that failed ends the tool;
    /// a search that found nothing ends it with an empty ranking; else the
    /// first recipe is read in full.
    pub fn resume(self, reply: Result<PaginatedResponse<Recipe>, ClientError>) -> (r: AdvisorStep)
        ensures
            match reply {
                Err(error) => r is Done && fails_plainly(
                    r->Done_0,
                    "Failed to search recipes"@,
                    error.message@,
                ),
                Ok(page) => if page.results@.len() == 0 {
                    &&& r is Done
                    &&& r->Done_0 is Ok
                    &&& is_ranked_report(
                        r->Done_0->Ok_0,
                        Seq::empty(),
                        texts(self.pantry@),
                        self.mode@,
                    )
                } else {
                    &&& r is GetRecipe
                    &&& r->GetRecipe_0.wf()
                    &&& r->GetRecipe_0.cursor == 0
                    &&& r->GetRecipe_0.recipe_id == page.results@[0].id
                    &&& are_candidates(r->GetRecipe_0.candidates@, page.results@)
                    &&& r->GetRecipe_0.found@.len() == 0
                    &&& r->GetRecipe_0.mode == self.mode
                    &&& r->GetRecipe_0.policy == self.policy
                    &&& r->GetRecipe_0.pantry == self.pantry
                },
            },
    {
        match reply {
            Err(error) => AdvisorStep::Done(
                Err(ToolFailure::plain("Failed to search recipes", error.message)),
            ),
            Ok(page) => {
                let candidates = candidates(&page.results);
                if candidates.len() == 0 {
                    let found: Vec<Suggestion> = Vec::new();
                    assert(views(found@) =~= Seq::<SuggestionView>::empty());
                    AdvisorStep::Done(Ok(ranked_report(found, self.pantry, self.mode)))
                } else {
                    let recipe_id = candidates[0].recipe_id;
                    AdvisorStep::GetRecipe(
                        RecipeLookup {
                            recipe_id,
                            mode: self.mode,
                            policy: self.policy,
                            pantry: self.pantry,
                            candidates,
                            cursor: 0,
                            found: Vec::new(),
                        },
                    )
                }
            },
        }
    }
}

impl RecipeLookup {
    /// The step stands in the middle of its list of recipes.
    pub open spec fn wf(&self) -> bool {
        self.cursor < self.candidates@.len()
    }

    /// What is found once `reply` is taken in.
    pub open spec fn grown(&self, reply: Result<Recipe, ClientError>) -> Seq<SuggestionView> {
        found_after(
            views(self.found@),
            self.candidates@[self.cursor as int],
            reply,
            texts(self.pantry@),
            self.mode@,
            self.policy,
        )
    }

    /// Takes in one recipe read in full. Where it could be read and the
    /// policy admits it, it joins what was found; a recipe that could not be
    /// read is passed over. Then the next recipe is read, or, after the last,
    /// what was found is ranked. A step that stands past its list takes
    /// nothing in and ranks what was found.
    pub fn resume(self, reply: Result<Recipe, ClientError>) -> (r: AdvisorStep)
        ensures
            !self.wf() ==> {
                &&& r is Done
                &&& r->Done_0 is Ok
                &&& is_ranked_report(
                    r->Done_0->Ok_0,
                    views(self.found@),
                    texts(self.pantry@),
                    self.mode@,
                )
            },
            self.cursor + 1 < self.candidates@.len() ==> {
                &&& r is GetRecipe
                &&& r->GetRecipe_0.wf()
                &&& r->GetRecipe_0.cursor == self.cursor + 1
                &&& r->GetRecipe_0.recipe_id == self.candidates@[self.cursor + 1].recipe_id
                &&& r->GetRecipe_0.candidates == self.candidates
                &&& r->GetRecipe_0.mode == self.mode
                &&& r->GetRecipe_0.policy == self.policy
                &&& r->GetRecipe_0.pantry == self.pantry
                &&& views(r->GetRecipe_0.found@) == self.grown(reply)
            },
            self.wf() && self.cursor + 1 >= self.candidates@.len() ==> {
                &&& r is Done
                &&& r->Done_0 is Ok
                &&& is_ranked_report(
                    r->Done_0->Ok_0,
                    self.grown(reply),
                    texts(self.pantry@),
                    self.mode@,
                )
            },
    {
        let count = self.candidates.len();
        if self.cursor >= count {
            return AdvisorStep::Done(Ok(ranked_report(self.found, self.pantry, self.mode)));
        }
        let mut found = self.found;
        match reply {
            Ok(detail) => {
                let suggestion = assess(&self.candidates[self.cursor], &detail, &self.pantry);
                if self.policy.admits(
                    self.mode.as_str(),
                    suggestion.matching_ingredients,
                    suggestion.total_ingredients,
                    suggestion.missing_ingredients.len(),
                ) {
                    let ghost before = views(found@);
                    found.push(suggestion);
                    assert(views(found@) =~= before.push(suggestion@));
                }
            },
            Err(_) => {},
        }
        let next = self.cursor + 1;
        if next < count {
            let recipe_id = self.candidates[next].recipe_id;
            AdvisorStep::GetRecipe(
                RecipeLookup {
                    recipe_id,
                    mode: self.mode,
                    policy: self.policy,
                    pantry: self.pantry,
                    candidates: self.candidates,
                    cursor: next,
                    found,
                },
            )
        } else {
            AdvisorStep::Done(Ok(ranked_report(found, self.pantry, self.mode)))
        }
    }
}

} // verus!
