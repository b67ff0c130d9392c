//! Reading meal plans back: the join of plans, their recipe rows and the
//! recipe catalog, grouped per plan.

use vstd::prelude::*;
use crate::date::{Date, parse_date, parse_date_spec};
use crate::plans::{GetMealPlanRequest, find_user, resolve_user_id};
use crate::tables::{MealPlan, MealPlanRecipe, MealPlanView, Recipe, RecipeView, User};
use crate::text::clone_strings;

verus! {

/// One recipe of a fetched plan, joined with its catalog row.
pub struct RecipeInfo {
    pub recipe_id: i32,
    pub recipe_name: String,
    pub recipe_img_link: Vec<String>,
    pub ischecked: Option<bool>,
    pub meal_plan_recipe_id: i32,
    pub meal_time: Option<i32>,
    pub calories: i64,
}

/// Mathematical view of a `RecipeInfo`.
pub struct RecipeInfoView {
    pub recipe_id: i32,
    pub recipe_name: Seq<char>,
    pub recipe_img_link: Seq<Seq<char>>,
    pub ischecked: Option<bool>,
    pub meal_plan_recipe_id: i32,
    pub meal_time: Option<i32>,
    pub calories: i64,
}

impl DeepView for RecipeInfo {
    type V = RecipeInfoView;

    open spec fn deep_view(&self) -> RecipeInfoView {
        RecipeInfoView {
            recipe_id: self.recipe_id,
            recipe_name: self.recipe_name.deep_view(),
            recipe_img_link: self.recipe_img_link.deep_view(),
            ischecked: self.ischecked,
            meal_plan_recipe_id: self.meal_plan_recipe_id,
            meal_time: self.meal_time,
            calories: self.calories,
        }
    }
}

/// One fetched plan with its recipes.
pub struct MealPlanEntry {
    pub meal_plan_id: i32,
    pub user_id: i32,
    pub name: String,
    pub date: Date,
    pub recipes: Vec<RecipeInfo>,
}

/// Mathematical view of a `MealPlanEntry`.
pub struct MealPlanEntryView {
    pub meal_plan_id: i32,
    pub user_id: i32,
    pub name: Seq<char>,
    pub date: Date,
    pub recipes: Seq<RecipeInfoView>,
}

impl DeepView for MealPlanEntry {
    type V = MealPlanEntryView;

    open spec fn deep_view(&self) -> MealPlanEntryView {
        MealPlanEntryView {
            meal_plan_id: self.meal_plan_id,
            user_id: self.user_id,
            name: self.name.deep_view(),
            date: self.date,
            recipes: self.recipes.deep_view(),
        }
    }
}

/// Body of the plan-fetch response.
pub struct GetMealPlanResponse {
    pub meal_plans: Vec<MealPlanEntry>,
}

/// Body of an error response.
pub struct ErrorResponse {
    pub error: String,
}

/// How a plan fetch fails: the line-id resolves to no user, or the date
/// filter is not a real `YYYY-MM-DD` day.
#[derive(Clone, Copy, Debug, PartialEq, Eq, Structural)]
pub enum GetError {
    UserNotFound,
    BadDate,
}

impl GetError {
    /// The error text the response body carries.
    pub fn message(&self) -> (r: String)
        ensures
            *self == GetError::UserNotFound ==> r@ == "User not found"@,
            *self == GetError::BadDate ==> r@ == "Invalid date format. Use YYYY-MM-DD"@,
    {
        match self {
            GetError::UserNotFound => String::from_str("User not found"),
            GetError::BadDate => String::from_str("Invalid date format. Use YYYY-MM-DD"),
        }
    }
}

/// The first catalog row carrying the given recipe id.
pub open spec fn find_recipe(rs: Seq<RecipeView>, id: i32) -> Option<RecipeView>
    decreases rs.len(),
{
    if rs.len() == 0 {
        None
    } else if rs[0].recipe_id == id {
        Some(rs[0])
    } else {
        find_recipe(rs.drop_first(), id)
    }
}

/// The joined row one plan recipe contributes.
pub open spec fn info_of(pr: MealPlanRecipe, rv: RecipeView) -> RecipeInfoView {
    RecipeInfoView {
        recipe_id: pr.recipe_id,
        recipe_name: rv.recipe_name,
        recipe_img_link: rv.recipe_img_link,
        ischecked: pr.ischecked,
        meal_plan_recipe_id: pr.meal_plan_recipe_id,
        meal_time: pr.meal_time,
        calories: rv.calories,
    }
}

/// The joined recipes of one plan, in row order; rows whose recipe is absent
/// from the catalog drop out of the join.
pub open spec fn infos_for_plan(
    plan_id: i32,
    prs: Seq<MealPlanRecipe>,
    rs: Seq<RecipeView>,
) -> Seq<RecipeInfoView>
    decreases prs.len(),
{
    if prs.len() == 0 {
        Seq::empty()
    } else {
        let rest = infos_for_plan(plan_id, prs.drop_last(), rs);
        if prs.last().meal_plan_id == plan_id {
            match find_recipe(rs, prs.last().recipe_id) {
                Some(rv) => rest.push(info_of(prs.last(), rv)),
                None => rest,
            }
        } else {
            rest
        }
    }
}

/// Whether a plan's date passes the optional filter.
pub open spec fn date_matches(flt: Option<Date>, d: Date) -> bool {
    match flt {
        Some(f) => d == f,
        None => true,
    }
}

/// The fetched entries: one per plan of the user that passes the date filter
/// and joins with at least one recipe, in stored plan order.
pub open spec fn entries_spec(
    plans: Seq<MealPlanView>,
    prs: Seq<MealPlanRecipe>,
    rs: Seq<RecipeView>,
    user_id: i32,
    flt: Option<Date>,
) -> Seq<MealPlanEntryView>
    decreases plans.len(),
{
    if plans.len() == 0 {
        Seq::empty()
    } else {
        let rest = entries_spec(plans.drop_last(), prs, rs, user_id, flt);
        let p = plans.last();
        if p.user_id == user_id && date_matches(flt, p.date) && infos_for_plan(
            p.meal_plan_id,
            prs,
            rs,
        ).len() > 0 {
            rest.push(
                MealPlanEntryView {
                    meal_plan_id: p.meal_plan_id,
                    user_id: p.user_id,
                    name: p.name,
                    date: p.date,
                    recipes: infos_for_plan(p.meal_plan_id, prs, rs),
                },
            )
        } else {
            rest
        }
    }
}

/// The date filter a request asks for, once parsed.
pub open spec fn wanted_filter(date: Option<Seq<char>>) -> Option<Date> {
    match date {
        Some(s) => parse_date_spec(s),
        None => None,
    }
}

/// Whether the request's date filter, if any, is a real `YYYY-MM-DD` day.
pub open spec fn date_filter_ok(date: Option<Seq<char>>) -> bool {
    match date {
        Some(s) => parse_date_spec(s) is Some,
        None => true,
    }
}

/// Finds the first catalog row with the given recipe id.
fn find_recipe_idx(recipes: &Vec<Recipe>, id: i32) -> (r: Option<usize>)
    ensures
        match r {
            Some(ix) => ix < recipes@.len() && find_recipe(recipes.deep_view(), id) == Some(
                recipes.deep_view()[ix as int],
            ),
            None => find_recipe(recipes.deep_view(), id) is None,
        },
{
    let ghost rs = recipes.deep_view();
    proof {
        assert(rs.skip(0) =~= rs);
    }
    let mut i: usize = 0;
    while i < recipes.len()
        invariant
            i <= recipes@.len(),
            rs == recipes.deep_view(),
            rs.len() == recipes@.len(),
            find_recipe(rs, id) == find_recipe(rs.skip(i as int), id),
        decreases recipes@.len() - i,
    {
        proof {
            assert(rs.skip(i as int).len() == rs.len() - i);
            assert(rs.skip(i as int)[0] == rs[i as int]);
            assert(rs.skip(i as int).drop_first() =~= rs.skip(i + 1));
        }
        if recipes[i].recipe_id == id {
            return Some(i);
        }
        i = i + 1;
    }
    proof {
        assert(rs.skip(rs.len() as int).len() == 0);
    }
    None
}

/// Joins one plan's recipe rows with the catalog.
fn recipes_for_plan(
    plan_id: i32,
    plan_recipes: &Vec<MealPlanRecipe>,
    recipes: &Vec<Recipe>,
) -> (r: Vec<RecipeInfo>)
    ensures
        r.deep_view() == infos_for_plan(plan_id, plan_recipes@, recipes.deep_view()),
{
    let mut out: Vec<RecipeInfo> = Vec::new();
    let mut i: usize = 0;
    while i < plan_recipes.len()
        invariant
            i <= plan_recipes@.len(),
            out.deep_view() == infos_for_plan(
                plan_id,
                plan_recipes@.take(i as int),
                recipes.deep_view(),
            ),
        decreases plan_recipes@.len() - i,
    {
        proof {
            assert(plan_recipes@.take(i + 1).drop_last() =~= plan_recipes@.take(i as int));
            assert(plan_recipes@.take(i + 1).last() == plan_recipes@[i as int]);
        }
        let pr = plan_recipes[i];
        if pr.meal_plan_id == plan_id {
            match find_recipe_idx(recipes, pr.recipe_id) {
                Some(ix) => {
                    let cat = &recipes[ix];
                    let info = RecipeInfo {
                        recipe_id: pr.recipe_id,
                        recipe_name: cat.recipe_name.clone(),
                        recipe_img_link: clone_strings(&cat.recipe_img_link),
                        ischecked: pr.ischecked,
                        meal_plan_recipe_id: pr.meal_plan_recipe_id,
                        meal_time: pr.meal_time,
                        calories: cat.calories,
                    };
                    let ghost old_dv = out.deep_view();
                    proof {
                        assert(recipes.deep_view()[ix as int] == recipes@[ix as int].deep_view());
                        assert(info.deep_view() == info_of(
                            plan_recipes@[i as int],
                            recipes.deep_view()[ix as int],
                        ));
                    }
                    out.push(info);
                    proof {
                        assert(out.deep_view() =~= old_dv.push(
                            info_of(plan_recipes@[i as int], recipes.deep_view()[ix as int]),
                        )) by {
                            assert(forall|k: int|
                                0 <= k < old_dv.len() ==> out.deep_view()[k] == old_dv[k]);
                        }
                    }
                },
                None => (),
            }
        }
        i = i + 1;
    }
    proof {
        assert(plan_recipes@.take(plan_recipes@.len() as int) =~= plan_recipes@);
    }
    out
}

/// Fetches the user's meal plans, optionally narrowed to one date, each plan
/// grouped with its recipes joined against the catalog.
pub fn get_meal_plan(
    users: &Vec<User>,
    meal_plans: &Vec<MealPlan>,
    plan_recipes: &Vec<MealPlanRecipe>,
    recipes: &Vec<Recipe>,
    payload: &GetMealPlanRequest,
) -> (r: Result<GetMealPlanResponse, GetError>)
    ensures
        match r {
            Ok(resp) => {
                &&& find_user(users.deep_view(), payload.user_line_id@) is Some
                &&& date_filter_ok(payload.date.deep_view())
                &&& resp.meal_plans.deep_view() == entries_spec(
                    meal_plans.deep_view(),
                    plan_recipes@,
                    recipes.deep_view(),
                    find_user(users.deep_view(), payload.user_line_id@).unwrap(),
                    wanted_filter(payload.date.deep_view()),
                )
            },
            Err(GetError::UserNotFound) => find_user(users.deep_view(), payload.user_line_id@)
                is None,
            Err(GetError::BadDate) => find_user(users.deep_view(), payload.user_line_id@) is Some
                && !date_filter_ok(payload.date.deep_view()),
        },
{
    let user_id = match resolve_user_id(users, payload.user_line_id.as_str()) {
        Some(uid) => uid,
        None => {
            return Err(GetError::UserNotFound);
        },
    };
    let flt: Option<Date> = match &payload.date {
        Some(s) => {
            match parse_date(s.as_str()) {
                Some(d) => Some(d),
                None => {
                    return Err(GetError::BadDate);
                },
            }
        },
        None => None,
    };
    let ghost pvs = meal_plans.deep_view();
    let mut entries: Vec<MealPlanEntry> = Vec::new();
    let mut i: usize = 0;
    while i < meal_plans.len()
        invariant
            i <= meal_plans@.len(),
            pvs == meal_plans.deep_view(),
            pvs.len() == meal_plans@.len(),
            entries.deep_view() == entries_spec(
                pvs.take(i as int),
                plan_recipes@,
                recipes.deep_view(),
                user_id,
                flt,
            ),
        decreases meal_plans@.len() - i,
    {
        proof {
            assert(pvs.take(i + 1).drop_last() =~= pvs.take(i as int));
            assert(pvs.take(i + 1).last() == pvs[i as int]);
            assert(pvs[i as int] == meal_plans@[i as int].deep_view());
        }
        let p = &meal_plans[i];
        let wanted = match flt {
            Some(f) => p.date == f,
            None => true,
        };
        if p.user_id == user_id && wanted {
            let infos = recipes_for_plan(p.meal_plan_id, plan_recipes, recipes);
            if infos.len() > 0 {
                let entry = MealPlanEntry {
                    meal_plan_id: p.meal_plan_id,
                    user_id: p.user_id,
                    name: p.name.clone(),
                    date: p.date,
                    recipes: infos,
                };
                let ghost old_dv = entries.deep_view();
                proof {
                    assert(entry.deep_view() == MealPlanEntryView {
                        meal_plan_id: pvs[i as int].meal_plan_id,
                        user_id: pvs[i as int].user_id,
                        name: pvs[i as int].name,
                        date: pvs[i as int].date,
                        recipes: infos_for_plan(
                            pvs[i as int].meal_plan_id,
                            plan_recipes@,
                            recipes.deep_view(),
                        ),
                    });
                }
                entries.push(entry);
                proof {
                    assert(entries.deep_view() =~= entries_spec(
                        pvs.take(i + 1),
                        plan_recipes@,
                        recipes.deep_view(),
                        user_id,
                        flt,
                    )) by {
                        assert(forall|k: int|
                            0 <= k < old_dv.len() ==> entries.deep_view()[k] == old_dv[k]);
                    }
                }
            }
        }
        i = i + 1;
    }
    proof {
        assert(pvs.take(pvs.len() as int) =~= pvs);
    }
    Ok(GetMealPlanResponse { meal_plans: entries })
}

} // verus!
