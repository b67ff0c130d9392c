//! The meal-plan builder: user resolution, the start-date rule, meal-slot
//! bucketing, and date-sequenced plan construction from a client day-grid.

use vstd::prelude::*;
use crate::date::{
    Date, date_le, date_lt, date_plus, dates_ok, is_max_date, lemma_date_lt_trans,
    lemma_date_plus_ascending, lemma_next_date_increases, next_date_spec, plan_name,
    plan_name_spec,
};
use crate::tables::{MealPlanRecipe, User, UserView};
use crate::text::str_eq;

verus! {

/// One cell of a client-submitted day-grid: a recipe choice, possibly empty.
#[derive(Clone, Copy, Debug, PartialEq, Eq, Structural)]
pub struct Recipe {
    pub recipe_id: Option<i32>,
}

impl DeepView for Recipe {
    type V = Recipe;

    open spec fn deep_view(&self) -> Recipe {
        *self
    }
}

/// Body of the plan-creation request: the user's line-id and a 2-D grid,
/// outer index a day offset, inner index a meal slot.
pub struct CreateMealPlanPayload {
    pub user_line_id: String,
    pub mealplans: Vec<Vec<Recipe>>,
}

/// Body of the plan-fetch request; the date, when given, narrows the result
/// to one day.
pub struct GetMealPlanRequest {
    pub user_line_id: String,
    pub date: Option<String>,
}

/// Body of the consumption-toggle request.
pub struct UserAlreadyEatPayload {
    pub meal_plan_recipe_id: i32,
    pub ischecked: bool,
}

/// Body of the plan-edit request: wholesale replacement of one day's recipes.
pub struct EditMealPlanPayload {
    pub user_line_id: String,
    pub date: String,
    pub recipes: Vec<Recipe>,
}

/// A meal-plan row ready to be persisted, with its recipe rows.
pub struct NewMealPlan {
    pub name: String,
    pub date: Date,
    pub recipes: Vec<NewPlanRecipe>,
}

/// Mathematical view of a `NewMealPlan`.
pub struct NewMealPlanView {
    pub name: Seq<char>,
    pub date: Date,
    pub recipes: Seq<NewPlanRecipe>,
}

impl DeepView for NewMealPlan {
    type V = NewMealPlanView;

    open spec fn deep_view(&self) -> NewMealPlanView {
        NewMealPlanView {
            name: self.name.deep_view(),
            date: self.date,
            recipes: self.recipes.deep_view(),
        }
    }
}

/// A meal-plan-recipe row ready to be persisted.
#[derive(Clone, Copy, Debug, PartialEq, Eq, Structural)]
pub struct NewPlanRecipe {
    pub recipe_id: i32,
    pub ischecked: bool,
    pub meal_time: i32,
}

impl DeepView for NewPlanRecipe {
    type V = NewPlanRecipe;

    open spec fn deep_view(&self) -> NewPlanRecipe {
        *self
    }
}

/// How plan creation fails: the line-id resolves to no user, or the grid
/// would run past the last representable date.
#[derive(Clone, Copy, Debug, PartialEq, Eq, Structural)]
pub enum CreateError {
    UserNotFound,
    CalendarOverflow,
}

impl CreateError {
    /// The error text the response carries.
    pub fn message(&self) -> (r: String)
        ensures
            *self == CreateError::UserNotFound ==> r@ == "User not found"@,
            *self == CreateError::CalendarOverflow ==> r@ == "Failed to create meal plan"@,
    {
        match self {
            CreateError::UserNotFound => String::from_str("User not found"),
            CreateError::CalendarOverflow => String::from_str("Failed to create meal plan"),
        }
    }
}

/// The internal id of the first user row carrying the given line-id.
pub open spec fn find_user(us: Seq<UserView>, line: Seq<char>) -> Option<i32>
    decreases us.len(),
{
    if us.len() == 0 {
        None
    } else if us[0].user_line_id == Some(line) {
        Some(us[0].user_id)
    } else {
        find_user(us.drop_first(), line)
    }
}

/// Resolves an external line-id to the internal user id, as the store's
/// first-match lookup does.
pub fn resolve_user_id(users: &Vec<User>, line_id: &str) -> (r: Option<i32>)
    ensures
        r == find_user(users.deep_view(), line_id@),
{
    let ghost us = users.deep_view();
    proof {
        assert(us.skip(0) =~= us);
    }
    let mut i: usize = 0;
    while i < users.len()
        invariant
            i <= users@.len(),
            us == users.deep_view(),
            us.len() == users@.len(),
            find_user(us, line_id@) == find_user(us.skip(i as int), line_id@),
        decreases users@.len() - i,
    {
        proof {
            assert(us.skip(i as int).len() == us.len() - i);
            assert(us.skip(i as int)[0] == us[i as int]);
            assert(us.skip(i as int).drop_first() =~= us.skip(i + 1));
        }
        let matched = match &users[i].user_line_id {
            Some(l) => str_eq(l.as_str(), line_id),
            None => false,
        };
        if matched {
            proof {
                assert(us[i as int].user_line_id == Some(line_id@));
            }
            return Some(users[i].user_id);
        }
        proof {
            assert(us[i as int].user_line_id != Some(line_id@));
        }
        i = i + 1;
    }
    proof {
        assert(us.skip(us.len() as int).len() == 0);
    }
    None
}

/// Where a new run of plans starts: the day after the latest existing plan
/// when that plan is today or later, otherwise today. This is
/// `max(today, latest + 1 day)` for plans that never start in the past.
pub open spec fn start_date_spec(today: Date, latest: Option<Date>) -> Date {
    match latest {
        Some(d) => if date_le(today, d) {
            next_date_spec(d)
        } else {
            today
        },
        None => today,
    }
}

/// Computes the start date for newly created plans; `None` only when the
/// latest plan already sits on the last representable date.
pub fn start_date(today: Date, latest: Option<Date>) -> (r: Option<Date>)
    requires
        today.valid(),
        latest is Some ==> latest.unwrap().valid(),
    ensures
        match r {
            Some(s) => s == start_date_spec(today, latest) && s.valid(),
            None => latest is Some && is_max_date(latest.unwrap()) && date_le(
                today,
                latest.unwrap(),
            ),
        },
{
    match latest {
        Some(d) => {
            if today.le(&d) {
                d.next_day()
            } else {
                Some(today)
            }
        },
        None => Some(today),
    }
}

/// The meal slot for grid position `i`: slots one to four in order, every
/// later position collapsing into slot four. This is `min(i + 1, 4)`.
pub open spec fn meal_time_spec(i: int) -> int {
    if i + 1 <= 4 {
        i + 1
    } else {
        4
    }
}

/// Assigns the meal slot for a grid position.
pub fn meal_time_for_slot(i: usize) -> (t: i32)
    ensures
        t == meal_time_spec(i as int),
{
    if i < 4 {
        (i as i32) + 1
    } else {
        4
    }
}

/// The recipe rows one day's cells produce, over the first `k` cells: empty
/// cells are skipped, filled ones keep their position's meal slot.
pub open spec fn day_rows(day: Seq<Recipe>, k: nat) -> Seq<NewPlanRecipe>
    decreases k,
{
    if k == 0 {
        Seq::empty()
    } else {
        let rest = day_rows(day, (k - 1) as nat);
        match day[k - 1].recipe_id {
            Some(id) => rest.push(
                NewPlanRecipe {
                    recipe_id: id,
                    ischecked: false,
                    meal_time: meal_time_spec(k - 1) as i32,
                },
            ),
            None => rest,
        }
    }
}

/// Builds the recipe rows for one day of the grid.
pub fn build_day(day: &Vec<Recipe>) -> (r: Vec<NewPlanRecipe>)
    ensures
        r@ == day_rows(day@, day@.len()),
{
    let mut r: Vec<NewPlanRecipe> = Vec::new();
    let mut i: usize = 0;
    while i < day.len()
        invariant
            i <= day@.len(),
            r@ == day_rows(day@, i as nat),
        decreases day@.len() - i,
    {
        match day[i].recipe_id {
            Some(id) => {
                let t = meal_time_for_slot(i);
                r.push(NewPlanRecipe { recipe_id: id, ischecked: false, meal_time: t });
            },
            None => (),
        }
        i = i + 1;
    }
    r
}

/// Builds one dated, named plan per day of the grid, starting at `start`:
/// day `d` is dated `start + d` and named after its date.
pub fn build_meal_plans(grid: &Vec<Vec<Recipe>>, start: Date) -> (r: Result<
    Vec<NewMealPlan>,
    CreateError,
>)
    requires
        start.valid(),
    ensures
        match r {
            Ok(plans) => {
                &&& grid@.len() > 0 ==> dates_ok(start, (grid@.len() - 1) as nat)
                &&& plans.deep_view().len() == grid@.len()
                &&& forall|d: int|
                    0 <= d < grid@.len() ==> (#[trigger] plans.deep_view()[d]).date == date_plus(
                        start,
                        d as nat,
                    )
                &&& forall|d: int|
                    0 <= d < grid@.len() ==> (#[trigger] plans.deep_view()[d]).name
                        == plan_name_spec(date_plus(start, d as nat))
                &&& forall|d: int|
                    0 <= d < grid@.len() ==> (#[trigger] plans.deep_view()[d]).recipes == day_rows(
                        grid.deep_view()[d],
                        grid.deep_view()[d].len(),
                    )
            },
            Err(e) => e == CreateError::CalendarOverflow && grid@.len() > 0 && !dates_ok(
                start,
                (grid@.len() - 1) as nat,
            ),
        },
{
    let n = grid.len();
    let mut plans: Vec<NewMealPlan> = Vec::new();
    let mut cur = start;
    let mut d: usize = 0;
    while d < n
        invariant
            d <= n,
            n == grid@.len(),
            start.valid(),
            grid.deep_view().len() == grid@.len(),
            plans.deep_view().len() == d,
            d < n ==> cur == date_plus(start, d as nat) && cur.valid() && dates_ok(
                start,
                d as nat,
            ),
            d > 0 ==> dates_ok(start, (d - 1) as nat),
            forall|k: int|
                0 <= k < d ==> (#[trigger] plans.deep_view()[k]).date == date_plus(start, k as nat),
            forall|k: int|
                0 <= k < d ==> (#[trigger] plans.deep_view()[k]).name == plan_name_spec(
                    date_plus(start, k as nat),
                ),
            forall|k: int|
                0 <= k < d ==> (#[trigger] plans.deep_view()[k]).recipes == day_rows(
                    grid.deep_view()[k],
                    grid.deep_view()[k].len(),
                ),
        decreases n - d,
    {
        let name = plan_name(cur);
        let recipes = build_day(&grid[d]);
        proof {
            assert(grid.deep_view()[d as int] == grid@[d as int].deep_view());
            assert(grid@[d as int].deep_view() =~= grid@[d as int]@);
            assert(recipes.deep_view() =~= recipes@);
        }
        let ghost old_plans = plans@;
        let ghost old_dv = plans.deep_view();
        plans.push(NewMealPlan { name, date: cur, recipes });
        proof {
            assert(plans.deep_view().len() == d + 1);
            assert forall|k: int| 0 <= k < d + 1 implies {
                &&& (#[trigger] plans.deep_view()[k]).date == date_plus(start, k as nat)
                &&& plans.deep_view()[k].name == plan_name_spec(date_plus(start, k as nat))
                &&& plans.deep_view()[k].recipes == day_rows(
                    grid.deep_view()[k],
                    grid.deep_view()[k].len(),
                )
            } by {
                if k < d {
                    assert(plans@[k] == old_plans[k]);
                    assert(plans.deep_view()[k] == old_dv[k]);
                    assert(old_dv[k].date == date_plus(start, k as nat));
                    assert(old_dv[k].name == plan_name_spec(date_plus(start, k as nat)));
                    assert(old_dv[k].recipes == day_rows(
                        grid.deep_view()[k],
                        grid.deep_view()[k].len(),
                    ));
                } else {
                    assert(plans.deep_view()[d as int] == plans@[d as int].deep_view());
                }
            }
        }
        d = d + 1;
        if d < n {
            match cur.next_day() {
                Some(next) => {
                    proof {
                        crate::date::lemma_dates_ok_extend(start, (d - 1) as nat);
                    }
                    cur = next;
                },
                None => {
                    proof {
                        if dates_ok(start, (n - 1) as nat) {
                            crate::date::lemma_date_plus_valid(
                                start,
                                (n - 1) as nat,
                                (d - 1) as nat,
                            );
                        }
                    }
                    return Err(CreateError::CalendarOverflow);
                },
            }
        }
    }
    Ok(plans)
}

/// The latest plan date a user has: the maximum over the user's rows, `None`
/// when the user has no plan.
pub open spec fn latest_date(plans: Seq<crate::tables::MealPlanView>, user_id: i32) -> Option<
    Date,
>
    decreases plans.len(),
{
    if plans.len() == 0 {
        None
    } else {
        let rest = latest_date(plans.drop_last(), user_id);
        if plans.last().user_id == user_id {
            match rest {
                None => Some(plans.last().date),
                Some(d) => if date_le(d, plans.last().date) {
                    Some(plans.last().date)
                } else {
                    rest
                },
            }
        } else {
            rest
        }
    }
}

/// Finds the latest plan date of one user, as the store's descending-order
/// lookup does.
pub fn latest_plan_date(plans: &Vec<crate::tables::MealPlan>, user_id: i32) -> (r: Option<Date>)
    ensures
        r == latest_date(plans.deep_view(), user_id),
{
    let ghost pvs = plans.deep_view();
    let mut best: Option<Date> = None;
    let mut i: usize = 0;
    while i < plans.len()
        invariant
            i <= plans@.len(),
            pvs == plans.deep_view(),
            pvs.len() == plans@.len(),
            best == latest_date(pvs.take(i as int), user_id),
        decreases plans@.len() - i,
    {
        proof {
            assert(pvs.take(i + 1).drop_last() =~= pvs.take(i as int));
            assert(pvs.take(i + 1).last() == pvs[i as int]);
            assert(pvs[i as int] == plans@[i as int].deep_view());
        }
        let p = &plans[i];
        if p.user_id == user_id {
            let take_it = match &best {
                None => true,
                Some(d) => d.le(&p.date),
            };
            if take_it {
                best = Some(p.date);
            }
        }
        i = i + 1;
    }
    proof {
        assert(pvs.take(pvs.len() as int) =~= pvs);
    }
    best
}

/// The latest plan date is the maximum: it is a date of one of the user's
/// own rows, no row of the user is dated after it, and it is absent exactly
/// when the user has no plan.
pub proof fn lemma_latest_date_is_max(plans: Seq<crate::tables::MealPlanView>, user_id: i32)
    ensures
        match latest_date(plans, user_id) {
            None => forall|k: int|
                0 <= k < plans.len() ==> (#[trigger] plans[k]).user_id != user_id,
            Some(d) => (exists|k: int|
                0 <= k < plans.len() && (#[trigger] plans[k]).user_id == user_id && plans[k].date
                    == d) && forall|k: int|
                0 <= k < plans.len() && (#[trigger] plans[k]).user_id == user_id ==> date_le(
                    plans[k].date,
                    d,
                ),
        },
    decreases plans.len(),
{
    if plans.len() > 0 {
        lemma_latest_date_is_max(plans.drop_last(), user_id);
        assert(forall|k: int|
            0 <= k < plans.len() - 1 ==> plans.drop_last()[k] == #[trigger] plans[k]);
        let rest = latest_date(plans.drop_last(), user_id);
        let whole = latest_date(plans, user_id);
        if plans.last().user_id == user_id {
            match rest {
                None => {
                    assert(plans[plans.len() - 1].user_id == user_id);
                },
                Some(d) => {
                    crate::date::lemma_date_le_total(d, plans.last().date);
                    if date_le(d, plans.last().date) {
                        assert(plans[plans.len() - 1].user_id == user_id);
                        assert forall|k: int|
                            0 <= k < plans.len() && (#[trigger] plans[k]).user_id
                                == user_id implies date_le(plans[k].date, whole.unwrap()) by {
                            if k < plans.len() - 1 {
                                lemma_date_le_le_trans(plans[k].date, d, plans.last().date);
                            }
                        }
                    } else {
                        let i = choose|i: int|
                            0 <= i < plans.drop_last().len() && (#[trigger] plans.drop_last()[
                                i
                            ]).user_id == user_id && plans.drop_last()[i].date == d;
                        assert(plans[i].user_id == user_id && plans[i].date == d);
                    }
                },
            }
        } else {
            match rest {
                None => {},
                Some(d) => {
                    let i = choose|i: int|
                        0 <= i < plans.drop_last().len() && (#[trigger] plans.drop_last()[
                            i
                        ]).user_id == user_id && plans.drop_last()[i].date == d;
                    assert(plans[i].user_id == user_id && plans[i].date == d);
                },
            }
        }
    }
}

/// Non-strict calendar order is transitive.
proof fn lemma_date_le_le_trans(a: Date, b: Date, c: Date)
    requires
        date_le(a, b),
        date_le(b, c),
    ensures
        date_le(a, c),
{
    if a != b && b != c {
        lemma_date_lt_trans(a, b, c);
    }
}

/// Every date stored in the plans table denotes a real calendar day.
pub open spec fn plan_dates_valid(plans: Seq<crate::tables::MealPlanView>) -> bool {
    forall|k: int| 0 <= k < plans.len() ==> (#[trigger] plans[k]).date.valid()
}

/// Creates the user's new run of plans from the submitted day-grid: the run
/// starts at `max(today, latest existing plan date + 1 day)`, day `d` of the
/// grid becomes one plan dated `start + d` and named after its date, and each
/// filled cell becomes one unchecked recipe row with its position's meal
/// slot. The rows are returned as one unit so the caller persists all of
/// them or none.
pub fn create_meal_plan(
    users: &Vec<User>,
    plans: &Vec<crate::tables::MealPlan>,
    today: Date,
    payload: &CreateMealPlanPayload,
) -> (r: Result<Vec<NewMealPlan>, CreateError>)
    requires
        today.valid(),
        plan_dates_valid(plans.deep_view()),
    ensures
        match r {
            Ok(out) => {
                &&& find_user(users.deep_view(), payload.user_line_id@) is Some
                &&& {
                    let user_id = find_user(users.deep_view(), payload.user_line_id@).unwrap();
                    let start = start_date_spec(
                        today,
                        latest_date(plans.deep_view(), user_id),
                    );
                    &&& out.deep_view().len() == payload.mealplans@.len()
                    &&& forall|d: int|
                        0 <= d < payload.mealplans@.len() ==> (
                        #[trigger] out.deep_view()[d]).date == date_plus(start, d as nat)
                    &&& forall|d: int|
                        0 <= d < payload.mealplans@.len() ==> (
                        #[trigger] out.deep_view()[d]).name == plan_name_spec(
                            date_plus(start, d as nat),
                        )
                    &&& forall|d: int|
                        0 <= d < payload.mealplans@.len() ==> (
                        #[trigger] out.deep_view()[d]).recipes == day_rows(
                            payload.mealplans.deep_view()[d],
                            payload.mealplans.deep_view()[d].len(),
                        )
                }
            },
            Err(CreateError::UserNotFound) => find_user(
                users.deep_view(),
                payload.user_line_id@,
            ) is None,
            Err(CreateError::CalendarOverflow) => find_user(
                users.deep_view(),
                payload.user_line_id@,
            ) is Some && {
                let user_id = find_user(users.deep_view(), payload.user_line_id@).unwrap();
                let latest = latest_date(plans.deep_view(), user_id);
                ||| (latest is Some && is_max_date(latest.unwrap()) && date_le(
                    today,
                    latest.unwrap(),
                ))
                ||| (payload.mealplans@.len() > 0 && !dates_ok(
                    start_date_spec(today, latest),
                    (payload.mealplans@.len() - 1) as nat,
                ))
            },
        },
{
    let user_id = match resolve_user_id(users, payload.user_line_id.as_str()) {
        Some(uid) => uid,
        None => {
            return Err(CreateError::UserNotFound);
        },
    };
    let latest = latest_plan_date(plans, user_id);
    proof {
        lemma_latest_date_valid(plans.deep_view(), user_id);
    }
    let start = match start_date(today, latest) {
        Some(s) => s,
        None => {
            return Err(CreateError::CalendarOverflow);
        },
    };
    build_meal_plans(&payload.mealplans, start)
}

/// A latest date found among valid stored dates is itself valid.
proof fn lemma_latest_date_valid(plans: Seq<crate::tables::MealPlanView>, user_id: i32)
    requires
        plan_dates_valid(plans),
    ensures
        latest_date(plans, user_id) is Some ==> latest_date(plans, user_id).unwrap().valid(),
    decreases plans.len(),
{
    if plans.len() > 0 {
        assert(plan_dates_valid(plans.drop_last())) by {
            assert(forall|k: int|
                0 <= k < plans.len() - 1 ==> plans.drop_last()[k] == #[trigger] plans[k]);
        }
        lemma_latest_date_valid(plans.drop_last(), user_id);
    }
}

/// The dates of a created run of `n` plans form a contiguous, strictly
/// ascending sequence of days starting at `max(today, latest + 1 day)`:
/// the start is never before today, never at or before the latest existing
/// plan, and is either today itself or the day right after the latest plan;
/// every later plan sits exactly one day after its predecessor.
pub proof fn lemma_created_dates_contiguous(today: Date, latest: Option<Date>, n: nat)
    requires
        today.valid(),
        latest is Some ==> latest.unwrap().valid(),
        n > 0,
        dates_ok(start_date_spec(today, latest), (n - 1) as nat),
    ensures
        date_le(today, start_date_spec(today, latest)),
        latest is Some ==> date_lt(latest.unwrap(), start_date_spec(today, latest)),
        start_date_spec(today, latest) == today || (latest is Some && start_date_spec(
            today,
            latest,
        ) == next_date_spec(latest.unwrap())),
        forall|d: int|
            1 <= d < n ==> #[trigger] date_plus(start_date_spec(today, latest), d as nat)
                == next_date_spec(date_plus(start_date_spec(today, latest), (d - 1) as nat)),
        forall|i: int, j: int|
            0 <= i < j < n ==> date_lt(
                #[trigger] date_plus(start_date_spec(today, latest), i as nat),
                #[trigger] date_plus(start_date_spec(today, latest), j as nat),
            ),
{
    let start = start_date_spec(today, latest);
    match latest {
        Some(l) => {
            if date_le(today, l) {
                lemma_next_date_increases(l);
                if today == l {
                } else {
                    lemma_date_lt_trans(today, l, next_date_spec(l));
                }
            }
        },
        None => {},
    }
    assert forall|d: int| 1 <= d < n implies #[trigger] date_plus(start, d as nat)
        == next_date_spec(date_plus(start, (d - 1) as nat)) by {
        assert(date_plus(start, d as nat) == next_date_spec(date_plus(start, (d - 1) as nat)));
    }
    assert forall|i: int, j: int| 0 <= i < j < n implies date_lt(
        #[trigger] date_plus(start, i as nat),
        #[trigger] date_plus(start, j as nat),
    ) by {
        lemma_date_plus_ascending(start, (n - 1) as nat, i as nat, j as nat);
    }
}

/// How a plan edit fails: the line-id resolves to no user, the date is not a
/// real `YYYY-MM-DD` day, no plan sits on that date, or a submitted cell has
/// no recipe id. A null cell aborts the whole insert, it is not skipped.
#[derive(Clone, Copy, Debug, PartialEq, Eq, Structural)]
pub enum EditError {
    UserNotFound,
    BadDate,
    PlanNotFound,
    NullRecipe,
}

impl EditError {
    /// The error text the response carries.
    pub fn message(&self) -> (r: String)
        ensures
            *self == EditError::UserNotFound ==> r@ == "User not found"@,
            *self == EditError::BadDate ==> r@ == "Invalid date format. Use YYYY-MM-DD"@,
            *self == EditError::PlanNotFound ==> r@ == "Meal plan not found for the given date"@,
            *self == EditError::NullRecipe ==> r@ == "Failed to insert new recipes"@,
    {
        match self {
            EditError::UserNotFound => String::from_str("User not found"),
            EditError::BadDate => String::from_str("Invalid date format. Use YYYY-MM-DD"),
            EditError::PlanNotFound => String::from_str("Meal plan not found for the given date"),
            EditError::NullRecipe => String::from_str("Failed to insert new recipes"),
        }
    }
}

/// The rows that remain once one plan's recipe rows are deleted.
pub open spec fn without_plan(rows: Seq<MealPlanRecipe>, plan_id: i32) -> Seq<MealPlanRecipe>
    decreases rows.len(),
{
    if rows.len() == 0 {
        Seq::empty()
    } else {
        let rest = without_plan(rows.drop_last(), plan_id);
        if rows.last().meal_plan_id == plan_id {
            rest
        } else {
            rest.push(rows.last())
        }
    }
}

/// Every submitted cell names a recipe.
pub open spec fn all_cells_filled(cells: Seq<Recipe>) -> bool {
    forall|k: int| 0 <= k < cells.len() ==> (#[trigger] cells[k].recipe_id) is Some
}

/// The fresh rows an edit inserts: one per cell, in order, unchecked, with
/// the position's meal slot and ids handed out sequentially from `next_id`.
pub open spec fn edit_rows(plan_id: i32, cells: Seq<Recipe>, next_id: i32) -> Seq<MealPlanRecipe> {
    Seq::new(
        cells.len(),
        |k: int|
            MealPlanRecipe {
                meal_plan_recipe_id: (next_id + k) as i32,
                meal_plan_id: plan_id,
                recipe_id: cells[k].recipe_id.unwrap(),
                ischecked: Some(false),
                meal_time: Some(meal_time_spec(k) as i32),
            },
    )
}

/// Deletes one plan's recipe rows, keeping every other row in order.
fn delete_plan_rows(rows: &Vec<MealPlanRecipe>, plan_id: i32) -> (r: Vec<MealPlanRecipe>)
    ensures
        r@ == without_plan(rows@, plan_id),
{
    let mut kept: Vec<MealPlanRecipe> = Vec::new();
    let mut i: usize = 0;
    while i < rows.len()
        invariant
            i <= rows@.len(),
            kept@ == without_plan(rows@.take(i as int), plan_id),
        decreases rows@.len() - i,
    {
        proof {
            assert(rows@.take(i + 1).drop_last() =~= rows@.take(i as int));
            assert(rows@.take(i + 1).last() == rows@[i as int]);
        }
        let row = rows[i];
        if row.meal_plan_id != plan_id {
            kept.push(row);
        }
        i = i + 1;
    }
    proof {
        assert(rows@.take(rows@.len() as int) =~= rows@);
    }
    kept
}

/// Whether every submitted cell names a recipe.
fn all_filled(cells: &Vec<Recipe>) -> (b: bool)
    ensures
        b == all_cells_filled(cells@),
{
    let mut j: usize = 0;
    while j < cells.len()
        invariant
            j <= cells@.len(),
            forall|k: int| 0 <= k < j ==> (#[trigger] cells@[k].recipe_id) is Some,
        decreases cells@.len() - j,
    {
        if cells[j].recipe_id.is_none() {
            return false;
        }
        j = j + 1;
    }
    true
}

/// Replaces one plan's recipe rows: the old rows are deleted first, and the
/// new list is inserted as one unit. A cell without a recipe id aborts the
/// insert after the delete, so on failure the old rows are gone and none of
/// the new rows are visible.
pub fn replace_plan_recipes(
    rows: &mut Vec<MealPlanRecipe>,
    plan_id: i32,
    cells: &Vec<Recipe>,
    next_id: i32,
) -> (r: Result<(), EditError>)
    requires
        cells@.len() <= i32::MAX,
        next_id + cells@.len() <= i32::MAX,
    ensures
        r is Ok <==> all_cells_filled(cells@),
        r is Ok ==> final(rows)@ == without_plan(old(rows)@, plan_id) + edit_rows(
            plan_id,
            cells@,
            next_id,
        ),
        r is Err ==> final(rows)@ == without_plan(old(rows)@, plan_id) && r == Err::<
            (),
            EditError,
        >(EditError::NullRecipe),
{
    let mut kept = delete_plan_rows(rows, plan_id);
    if !all_filled(cells) {
        *rows = kept;
        return Err(EditError::NullRecipe);
    }
    let ghost base = kept@;
    let mut k: usize = 0;
    while k < cells.len()
        invariant
            k <= cells@.len(),
            cells@.len() <= i32::MAX,
            next_id + cells@.len() <= i32::MAX,
            all_cells_filled(cells@),
            kept@ == base + edit_rows(plan_id, cells@, next_id).take(k as int),
        decreases cells@.len() - k,
    {
        let id = match cells[k].recipe_id {
            Some(id) => id,
            None => {
                proof {
                    assert(false);
                }
                return Err(EditError::NullRecipe);
            },
        };
        let t = meal_time_for_slot(k);
        kept.push(
            MealPlanRecipe {
                meal_plan_recipe_id: next_id + (k as i32),
                meal_plan_id: plan_id,
                recipe_id: id,
                ischecked: Some(false),
                meal_time: Some(t),
            },
        );
        proof {
            assert(kept@ =~= base + edit_rows(plan_id, cells@, next_id).take(k + 1));
        }
        k = k + 1;
    }
    proof {
        assert(edit_rows(plan_id, cells@, next_id).take(cells@.len() as int) =~= edit_rows(
            plan_id,
            cells@,
            next_id,
        ));
    }
    *rows = kept;
    Ok(())
}

/// The id of the first plan of the user on the given date.
pub open spec fn find_plan(
    plans: Seq<crate::tables::MealPlanView>,
    user_id: i32,
    date: Date,
) -> Option<i32>
    decreases plans.len(),
{
    if plans.len() == 0 {
        None
    } else if plans[0].user_id == user_id && plans[0].date == date {
        Some(plans[0].meal_plan_id)
    } else {
        find_plan(plans.drop_first(), user_id, date)
    }
}

/// Resolves a (user, date) pair to its plan id, as the store's first-match
/// lookup does.
pub fn resolve_plan_id(
    plans: &Vec<crate::tables::MealPlan>,
    user_id: i32,
    date: Date,
) -> (r: Option<i32>)
    ensures
        r == find_plan(plans.deep_view(), user_id, date),
{
    let ghost pvs = plans.deep_view();
    proof {
        assert(pvs.skip(0) =~= pvs);
    }
    let mut i: usize = 0;
    while i < plans.len()
        invariant
            i <= plans@.len(),
            pvs == plans.deep_view(),
            pvs.len() == plans@.len(),
            find_plan(pvs, user_id, date) == find_plan(pvs.skip(i as int), user_id, date),
        decreases plans@.len() - i,
    {
        proof {
            assert(pvs.skip(i as int).len() == pvs.len() - i);
            assert(pvs.skip(i as int)[0] == pvs[i as int]);
            assert(pvs.skip(i as int).drop_first() =~= pvs.skip(i + 1));
            assert(pvs[i as int] == plans@[i as int].deep_view());
        }
        let p = &plans[i];
        if p.user_id == user_id && p.date == date {
            return Some(p.meal_plan_id);
        }
        i = i + 1;
    }
    proof {
        assert(pvs.skip(pvs.len() as int).len() == 0);
    }
    None
}

/// Replaces one day's plan wholesale: the user and the plan on the given
/// date are resolved, the plan's old recipe rows are deleted, and the new
/// list is inserted as one unit. A cell without a recipe id aborts the
/// insert after the delete, so on that failure the old rows are gone and
/// none of the new rows are visible; on every other failure the rows are
/// untouched. No plan is created when none sits on the date.
pub fn edit_meal_plan(
    users: &Vec<User>,
    plans: &Vec<crate::tables::MealPlan>,
    rows: &mut Vec<MealPlanRecipe>,
    payload: &EditMealPlanPayload,
    next_id: i32,
) -> (r: Result<(), EditError>)
    requires
        payload.recipes@.len() <= i32::MAX,
        next_id + payload.recipes@.len() <= i32::MAX,
    ensures
        ({
            let user = find_user(users.deep_view(), payload.user_line_id@);
            let parsed = crate::date::parse_date_spec(payload.date@);
            match r {
                Ok(()) => {
                    &&& user is Some
                    &&& parsed is Some
                    &&& find_plan(plans.deep_view(), user.unwrap(), parsed.unwrap()) is Some
                    &&& all_cells_filled(payload.recipes@)
                    &&& final(rows)@ == without_plan(
                        old(rows)@,
                        find_plan(plans.deep_view(), user.unwrap(), parsed.unwrap()).unwrap(),
                    ) + edit_rows(
                        find_plan(plans.deep_view(), user.unwrap(), parsed.unwrap()).unwrap(),
                        payload.recipes@,
                        next_id,
                    )
                },
                Err(EditError::UserNotFound) => user is None && final(rows)@ == old(rows)@,
                Err(EditError::BadDate) => user is Some && parsed is None && final(rows)@ == old(
                    rows,
                )@,
                Err(EditError::PlanNotFound) => user is Some && parsed is Some && find_plan(
                    plans.deep_view(),
                    user.unwrap(),
                    parsed.unwrap(),
                ) is None && final(rows)@ == old(rows)@,
                Err(EditError::NullRecipe) => {
                    &&& user is Some
                    &&& parsed is Some
                    &&& find_plan(plans.deep_view(), user.unwrap(), parsed.unwrap()) is Some
                    &&& !all_cells_filled(payload.recipes@)
                    &&& final(rows)@ == without_plan(
                        old(rows)@,
                        find_plan(plans.deep_view(), user.unwrap(), parsed.unwrap()).unwrap(),
                    )
                },
            }
        }),
{
    let user_id = match resolve_user_id(users, payload.user_line_id.as_str()) {
        Some(uid) => uid,
        None => {
            return Err(EditError::UserNotFound);
        },
    };
    let date = match crate::date::parse_date(payload.date.as_str()) {
        Some(d) => d,
        None => {
            return Err(EditError::BadDate);
        },
    };
    let plan_id = match resolve_plan_id(plans, user_id, date) {
        Some(id) => id,
        None => {
            return Err(EditError::PlanNotFound);
        },
    };
    replace_plan_recipes(rows, plan_id, &payload.recipes, next_id)
}

/// What a consumption toggle leaves of one stored row.
pub open spec fn toggled(row: MealPlanRecipe, id: i32, checked: bool) -> MealPlanRecipe {
    if row.meal_plan_recipe_id == id {
        MealPlanRecipe {
            meal_plan_recipe_id: row.meal_plan_recipe_id,
            meal_plan_id: row.meal_plan_id,
            recipe_id: row.recipe_id,
            ischecked: Some(checked),
            meal_time: row.meal_time,
        }
    } else {
        row
    }
}

/// Marks a meal-plan recipe as eaten or not: every row with the given id is
/// updated and no other row changes. The call succeeds whether or not any row
/// matched, as the store's unconditional update does.
pub fn user_already_eat(rows: &mut Vec<MealPlanRecipe>, payload: &UserAlreadyEatPayload)
    ensures
        final(rows)@.len() == old(rows)@.len(),
        forall|k: int|
            0 <= k < old(rows)@.len() ==> #[trigger] final(rows)@[k] == toggled(
                old(rows)@[k],
                payload.meal_plan_recipe_id,
                payload.ischecked,
            ),
{
    let meal_plan_recipe_id = payload.meal_plan_recipe_id;
    let ischecked = payload.ischecked;
    let ghost original = rows@;
    let mut i: usize = 0;
    while i < rows.len()
        invariant
            i <= rows@.len(),
            rows@.len() == original.len(),
            forall|k: int|
                0 <= k < i ==> #[trigger] rows@[k] == toggled(
                    original[k],
                    meal_plan_recipe_id,
                    ischecked,
                ),
            forall|k: int| i <= k < original.len() ==> #[trigger] rows@[k] == original[k],
        decreases rows@.len() - i,
    {
        let row = rows[i];
        if row.meal_plan_recipe_id == meal_plan_recipe_id {
            rows[i] = MealPlanRecipe {
                meal_plan_recipe_id: row.meal_plan_recipe_id,
                meal_plan_id: row.meal_plan_id,
                recipe_id: row.recipe_id,
                ischecked: Some(ischecked),
                meal_time: row.meal_time,
            };
        }
        i = i + 1;
    }
}

} // verus!
