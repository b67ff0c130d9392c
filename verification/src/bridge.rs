//! The recommendation bridge: assembles the nutrition context sent to the
//! external planner and reshapes what comes back.

use vstd::prelude::*;
use crate::allergy::excluded;
use crate::allergy::is_excluded;
use crate::nutrition::{
    MAX_NUTRIENT_ROWS, Nutrition, limits_spec, nutrition_spec, quantities_bounded,
    recipe_nutrition, user_limits,
};
use crate::plans::{Recipe, find_user, resolve_user_id};
use crate::tables::{
    RecipeIngredientAllergy, RecipeNutrient, RecipeView, User, UserIngredientAllergy,
    UserNutrientLimit,
};
use crate::text::{clone_strings, dec_int, i32_to_string};

verus! {

/// Body of the initial-plan request to this service.
pub struct MealPlanRequest {
    pub data: MealPlanRequestData,
}

/// The requesting user's line-id and how many days to plan.
pub struct MealPlanRequestData {
    pub u_id: String,
    pub days: i32,
}

/// One eligible recipe with its aggregated nutrition, as the external
/// planner expects it.
pub struct FoodMenu {
    pub name: String,
    pub nutrition: Nutrition,
    pub recipe_id: i32,
    pub recipe_img_link: Vec<String>,
}

/// Mathematical view of a `FoodMenu`.
pub struct FoodMenuView {
    pub name: Seq<char>,
    pub nutrition: Nutrition,
    pub recipe_id: i32,
    pub recipe_img_link: Seq<Seq<char>>,
}

impl DeepView for FoodMenu {
    type V = FoodMenuView;

    open spec fn deep_view(&self) -> FoodMenuView {
        FoodMenuView {
            name: self.name.deep_view(),
            nutrition: self.nutrition,
            recipe_id: self.recipe_id,
            recipe_img_link: self.recipe_img_link.deep_view(),
        }
    }
}

impl Clone for FoodMenu {
    /// A copy with the same contents.
    fn clone(&self) -> (res: FoodMenu)
        ensures
            res.deep_view() == self.deep_view(),
    {
        let res = FoodMenu {
            name: self.name.clone(),
            nutrition: self.nutrition,
            recipe_id: self.recipe_id,
            recipe_img_link: clone_strings(&self.recipe_img_link),
        };
        proof {
            assert(res.recipe_img_link.deep_view() =~= self.recipe_img_link.deep_view());
        }
        res
    }
}

/// Body of the request this service sends to the external planner's initial
/// endpoint. The `user_line_id` field carries the internal user id rendered
/// as text, as the original wire format does.
pub struct ResponseData {
    pub user_line_id: String,
    pub days: i32,
    pub food_menus: Vec<FoodMenu>,
    pub nutrition_limit_per_day: Nutrition,
}

/// The bridge fails only when the line-id resolves to no user.
#[derive(Clone, Copy, Debug, PartialEq, Eq, Structural)]
pub enum BridgeError {
    UserNotFound,
}

impl BridgeError {
    /// The error text the response carries.
    pub fn message(&self) -> (r: String)
        ensures
            r@ == "User not found"@,
    {
        String::from_str("User not found")
    }
}

/// The menu entry one catalog recipe contributes.
pub open spec fn menu_of(rv: RecipeView, nutrients: Seq<RecipeNutrient>) -> FoodMenuView {
    FoodMenuView {
        name: rv.recipe_name,
        nutrition: nutrition_spec(nutrients, rv.recipe_id),
        recipe_id: rv.recipe_id,
        recipe_img_link: rv.recipe_img_link,
    }
}

/// The food menus offered to the user: every non-excluded recipe, in catalog
/// order, with its own aggregated nutrition.
pub open spec fn food_menus_spec(
    rs: Seq<RecipeView>,
    nutrients: Seq<RecipeNutrient>,
    links: Seq<RecipeIngredientAllergy>,
    declared: Seq<UserIngredientAllergy>,
    user_id: i32,
) -> Seq<FoodMenuView>
    decreases rs.len(),
{
    if rs.len() == 0 {
        Seq::empty()
    } else {
        let rest = food_menus_spec(rs.drop_last(), nutrients, links, declared, user_id);
        if excluded(rs.last().recipe_id, user_id, links, declared) {
            rest
        } else {
            rest.push(menu_of(rs.last(), nutrients))
        }
    }
}

/// Builds the food menus the user may be offered: the allergy filter joined
/// with per-recipe nutrient totals.
pub fn build_food_menus(
    recipes: &Vec<crate::tables::Recipe>,
    nutrients: &Vec<RecipeNutrient>,
    links: &Vec<RecipeIngredientAllergy>,
    declared: &Vec<UserIngredientAllergy>,
    user_id: i32,
) -> (r: Vec<FoodMenu>)
    requires
        quantities_bounded(nutrients@),
        nutrients@.len() <= MAX_NUTRIENT_ROWS,
    ensures
        r.deep_view() == food_menus_spec(
            recipes.deep_view(),
            nutrients@,
            links@,
            declared@,
            user_id,
        ),
{
    let ghost rs = recipes.deep_view();
    let mut out: Vec<FoodMenu> = Vec::new();
    let mut i: usize = 0;
    while i < recipes.len()
        invariant
            i <= recipes@.len(),
            rs == recipes.deep_view(),
            rs.len() == recipes@.len(),
            quantities_bounded(nutrients@),
            nutrients@.len() <= MAX_NUTRIENT_ROWS,
            out.deep_view() == food_menus_spec(
                rs.take(i as int),
                nutrients@,
                links@,
                declared@,
                user_id,
            ),
        decreases recipes@.len() - i,
    {
        proof {
            assert(rs.take(i + 1).drop_last() =~= rs.take(i as int));
            assert(rs.take(i + 1).last() == rs[i as int]);
            assert(rs[i as int] == recipes@[i as int].deep_view());
        }
        let rec = &recipes[i];
        if !is_excluded(rec.recipe_id, user_id, links, declared) {
            let nutrition = recipe_nutrition(nutrients, rec.recipe_id);
            let menu = FoodMenu {
                name: rec.recipe_name.clone(),
                nutrition,
                recipe_id: rec.recipe_id,
                recipe_img_link: clone_strings(&rec.recipe_img_link),
            };
            let ghost old_dv = out.deep_view();
            proof {
                assert(menu.deep_view().recipe_img_link =~= rs[i as int].recipe_img_link);
                assert(menu.deep_view() == menu_of(rs[i as int], nutrients@));
            }
            out.push(menu);
            proof {
                assert(out.deep_view() =~= old_dv.push(menu_of(rs[i as int], nutrients@))) by {
                    assert(forall|k: int|
                        0 <= k < old_dv.len() ==> out.deep_view()[k] == old_dv[k]);
                }
            }
        }
        i = i + 1;
    }
    proof {
        assert(rs.take(rs.len() as int) =~= rs);
    }
    out
}

/// Assembles the initial-plan request for the external planner: the user's
/// eligible food menus, their daily limits, and the requested day count,
/// with the internal user id rendered as the `user_line_id` text field.
pub fn ai_meal_plan_request(
    users: &Vec<User>,
    recipes: &Vec<crate::tables::Recipe>,
    nutrients: &Vec<RecipeNutrient>,
    links: &Vec<RecipeIngredientAllergy>,
    declared: &Vec<UserIngredientAllergy>,
    limits: &Vec<UserNutrientLimit>,
    payload: &MealPlanRequest,
) -> (r: Result<ResponseData, BridgeError>)
    requires
        quantities_bounded(nutrients@),
        nutrients@.len() <= MAX_NUTRIENT_ROWS,
    ensures
        match r {
            Ok(rd) => {
                &&& find_user(users.deep_view(), payload.data.u_id@) is Some
                &&& rd.user_line_id@ == dec_int(
                    find_user(users.deep_view(), payload.data.u_id@).unwrap() as int,
                )
                &&& rd.days == payload.data.days
                &&& rd.food_menus.deep_view() == food_menus_spec(
                    recipes.deep_view(),
                    nutrients@,
                    links@,
                    declared@,
                    find_user(users.deep_view(), payload.data.u_id@).unwrap(),
                )
                &&& rd.nutrition_limit_per_day == limits_spec(
                    limits@,
                    find_user(users.deep_view(), payload.data.u_id@).unwrap(),
                )
            },
            Err(e) => e == BridgeError::UserNotFound && find_user(
                users.deep_view(),
                payload.data.u_id@,
            ) is None,
        },
{
    let user_id = match resolve_user_id(users, payload.data.u_id.as_str()) {
        Some(uid) => uid,
        None => {
            return Err(BridgeError::UserNotFound);
        },
    };
    let food_menus = build_food_menus(recipes, nutrients, links, declared, user_id);
    let nutrition_limit_per_day = user_limits(limits, user_id);
    Ok(
        ResponseData {
            user_line_id: i32_to_string(user_id),
            days: payload.data.days,
            food_menus,
            nutrition_limit_per_day,
        },
    )
}

/// Body of the plan-update request to this service: the user's line-id (the
/// wire calls it `user_id`), the day count, and the client's current grid.
pub struct UpdateMealPlanRequest {
    pub user_id: String,
    pub days: i32,
    pub mealplans: Vec<Vec<Recipe>>,
}

/// Body of the request this service sends to the external planner's update
/// endpoint.
pub struct UpdateMealPlanResponse {
    pub user_line_id: String,
    pub days: i32,
    pub nutrition_limit_per_day: Nutrition,
    pub food_menus: Vec<FoodMenu>,
    pub mealplan: UpdateMealPlanRequestWithoutDays,
}

/// The submitted grid materialized with full menu entries, wrapped with the
/// user's line-id as the planner expects it.
pub struct UpdateMealPlanRequestWithoutDays {
    pub user_id: String,
    pub mealplans: Vec<Vec<FoodMenu>>,
}

/// The first menu carrying the given recipe id.
pub open spec fn find_menu(menus: Seq<FoodMenuView>, id: i32) -> Option<FoodMenuView>
    decreases menus.len(),
{
    if menus.len() == 0 {
        None
    } else if menus[0].recipe_id == id {
        Some(menus[0])
    } else {
        find_menu(menus.drop_first(), id)
    }
}

/// One day of the grid materialized against the menus: empty cells and cells
/// whose recipe is not among the eligible menus drop out silently.
pub open spec fn detailed_day(day: Seq<Recipe>, menus: Seq<FoodMenuView>) -> Seq<FoodMenuView>
    decreases day.len(),
{
    if day.len() == 0 {
        Seq::empty()
    } else {
        let rest = detailed_day(day.drop_last(), menus);
        match day.last().recipe_id {
            Some(id) => match find_menu(menus, id) {
                Some(m) => rest.push(m),
                None => rest,
            },
            None => rest,
        }
    }
}

/// The whole grid materialized day by day.
pub open spec fn detailed_grid(grid: Seq<Seq<Recipe>>, menus: Seq<FoodMenuView>) -> Seq<
    Seq<FoodMenuView>,
>
    decreases grid.len(),
{
    if grid.len() == 0 {
        Seq::empty()
    } else {
        detailed_grid(grid.drop_last(), menus).push(detailed_day(grid.last(), menus))
    }
}

/// Finds the first menu with the given recipe id.
fn find_menu_idx(menus: &Vec<FoodMenu>, id: i32) -> (r: Option<usize>)
    ensures
        match r {
            Some(ix) => ix < menus@.len() && find_menu(menus.deep_view(), id) == Some(
                menus.deep_view()[ix as int],
            ),
            None => find_menu(menus.deep_view(), id) is None,
        },
{
    let ghost ms = menus.deep_view();
    proof {
        assert(ms.skip(0) =~= ms);
    }
    let mut i: usize = 0;
    while i < menus.len()
        invariant
            i <= menus@.len(),
            ms == menus.deep_view(),
            ms.len() == menus@.len(),
            find_menu(ms, id) == find_menu(ms.skip(i as int), id),
        decreases menus@.len() - i,
    {
        proof {
            assert(ms.skip(i as int).len() == ms.len() - i);
            assert(ms.skip(i as int)[0] == ms[i as int]);
            assert(ms.skip(i as int).drop_first() =~= ms.skip(i + 1));
        }
        if menus[i].recipe_id == id {
            return Some(i);
        }
        i = i + 1;
    }
    proof {
        assert(ms.skip(ms.len() as int).len() == 0);
    }
    None
}

/// Materializes one day of the grid against the menus.
fn detailed_day_menus(day: &Vec<Recipe>, menus: &Vec<FoodMenu>) -> (r: Vec<FoodMenu>)
    ensures
        r.deep_view() == detailed_day(day@, menus.deep_view()),
{
    let mut out: Vec<FoodMenu> = Vec::new();
    let mut i: usize = 0;
    while i < day.len()
        invariant
            i <= day@.len(),
            out.deep_view() == detailed_day(day@.take(i as int), menus.deep_view()),
        decreases day@.len() - i,
    {
        proof {
            assert(day@.take(i + 1).drop_last() =~= day@.take(i as int));
            assert(day@.take(i + 1).last() == day@[i as int]);
        }
        match day[i].recipe_id {
            Some(id) => {
                match find_menu_idx(menus, id) {
                    Some(ix) => {
                        let menu = menus[ix].clone();
                        let ghost old_dv = out.deep_view();
                        out.push(menu);
                        proof {
                            assert(out.deep_view() =~= old_dv.push(
                                menus.deep_view()[ix as int],
                            )) by {
                                assert(forall|k: int|
                                    0 <= k < old_dv.len() ==> out.deep_view()[k] == old_dv[k]);
                            }
                        }
                    },
                    None => (),
                }
            },
            None => (),
        }
        i = i + 1;
    }
    proof {
        assert(day@.take(day@.len() as int) =~= day@);
    }
    out
}

/// Materializes the whole grid against the menus.
fn detailed_grid_menus(grid: &Vec<Vec<Recipe>>, menus: &Vec<FoodMenu>) -> (r: Vec<Vec<FoodMenu>>)
    ensures
        r.deep_view() == detailed_grid(grid.deep_view(), menus.deep_view()),
{
    let ghost gs = grid.deep_view();
    let mut out: Vec<Vec<FoodMenu>> = Vec::new();
    let mut d: usize = 0;
    while d < grid.len()
        invariant
            d <= grid@.len(),
            gs == grid.deep_view(),
            gs.len() == grid@.len(),
            out.deep_view() == detailed_grid(gs.take(d as int), menus.deep_view()),
        decreases grid@.len() - d,
    {
        proof {
            assert(gs.take(d + 1).drop_last() =~= gs.take(d as int));
            assert(gs.take(d + 1).last() == gs[d as int]);
            assert(gs[d as int] == grid@[d as int].deep_view());
            assert(grid@[d as int].deep_view() =~= grid@[d as int]@);
        }
        let day = detailed_day_menus(&grid[d], menus);
        let ghost old_dv = out.deep_view();
        proof {
            assert(day.deep_view() == detailed_day(gs[d as int], menus.deep_view()));
        }
        out.push(day);
        proof {
            assert(out.deep_view() =~= old_dv.push(
                detailed_day(gs[d as int], menus.deep_view()),
            )) by {
                assert(forall|k: int| 0 <= k < old_dv.len() ==> out.deep_view()[k] == old_dv[k]);
            }
        }
        d = d + 1;
    }
    proof {
        assert(gs.take(gs.len() as int) =~= gs);
    }
    out
}

/// Assembles the plan-update request for the external planner: the same
/// nutrition context as the initial request, plus the submitted grid
/// materialized with full menu entries. Cells without a recipe id and cells
/// naming a recipe outside the eligible set drop out silently.
pub fn update_meal_plan_request(
    users: &Vec<User>,
    recipes: &Vec<crate::tables::Recipe>,
    nutrients: &Vec<RecipeNutrient>,
    links: &Vec<RecipeIngredientAllergy>,
    declared: &Vec<UserIngredientAllergy>,
    limits: &Vec<UserNutrientLimit>,
    payload: &UpdateMealPlanRequest,
) -> (r: Result<UpdateMealPlanResponse, BridgeError>)
    requires
        quantities_bounded(nutrients@),
        nutrients@.len() <= MAX_NUTRIENT_ROWS,
    ensures
        match r {
            Ok(resp) => {
                &&& find_user(users.deep_view(), payload.user_id@) is Some
                &&& resp.user_line_id@ == payload.user_id@
                &&& resp.days == payload.days
                &&& resp.nutrition_limit_per_day == limits_spec(
                    limits@,
                    find_user(users.deep_view(), payload.user_id@).unwrap(),
                )
                &&& resp.food_menus.deep_view() == food_menus_spec(
                    recipes.deep_view(),
                    nutrients@,
                    links@,
                    declared@,
                    find_user(users.deep_view(), payload.user_id@).unwrap(),
                )
                &&& resp.mealplan.user_id@ == payload.user_id@
                &&& resp.mealplan.mealplans.deep_view() == detailed_grid(
                    payload.mealplans.deep_view(),
                    resp.food_menus.deep_view(),
                )
            },
            Err(e) => e == BridgeError::UserNotFound && find_user(
                users.deep_view(),
                payload.user_id@,
            ) is None,
        },
{
    let user_id = match resolve_user_id(users, payload.user_id.as_str()) {
        Some(uid) => uid,
        None => {
            return Err(BridgeError::UserNotFound);
        },
    };
    let food_menus = build_food_menus(recipes, nutrients, links, declared, user_id);
    let nutrition_limit_per_day = user_limits(limits, user_id);
    let detailed = detailed_grid_menus(&payload.mealplans, &food_menus);
    Ok(
        UpdateMealPlanResponse {
            user_line_id: payload.user_id.clone(),
            days: payload.days,
            nutrition_limit_per_day,
            food_menus,
            mealplan: UpdateMealPlanRequestWithoutDays {
                user_id: payload.user_id.clone(),
                mealplans: detailed,
            },
        },
    )
}

} // verus!
