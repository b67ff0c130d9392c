use mealplan::date::Date;
use mealplan::fetch::{get_meal_plan, GetError};
use mealplan::plans::GetMealPlanRequest;
use mealplan::tables::{MealPlan, MealPlanRecipe, Recipe, User};

fn users() -> Vec<User> {
    vec![User { user_id: 7, user_line_id: Some("line7".to_string()) }]
}

fn plan(id: i32, user: i32, name: &str, y: i32, m: i32, d: i32) -> MealPlan {
    MealPlan {
        meal_plan_id: id,
        user_id: user,
        name: name.to_string(),
        date: Date { year: y, month: m, day: d },
    }
}

fn pr(row: i32, plan: i32, recipe: i32, slot: i32) -> MealPlanRecipe {
    MealPlanRecipe {
        meal_plan_recipe_id: row,
        meal_plan_id: plan,
        recipe_id: recipe,
        ischecked: Some(false),
        meal_time: Some(slot),
    }
}

fn recipe(id: i32, name: &str, calories: i64) -> Recipe {
    Recipe {
        recipe_id: id,
        recipe_name: name.to_string(),
        recipe_img_link: vec!["img".to_string()],
        calories,
    }
}

#[test]
fn unknown_user_is_a_not_found_error() {
    let req = GetMealPlanRequest { user_line_id: "nobody".to_string(), date: None };
    let r = get_meal_plan(&users(), &vec![], &vec![], &vec![], &req);
    let e = r.err().unwrap();
    assert_eq!(e, GetError::UserNotFound);
    assert_eq!(e.message(), "User not found");
}

#[test]
fn malformed_date_is_a_bad_date_error() {
    let req = GetMealPlanRequest {
        user_line_id: "line7".to_string(),
        date: Some("17/05/2024".to_string()),
    };
    let r = get_meal_plan(&users(), &vec![], &vec![], &vec![], &req);
    let e = r.err().unwrap();
    assert_eq!(e, GetError::BadDate);
    assert_eq!(e.message(), "Invalid date format. Use YYYY-MM-DD");
}

#[test]
fn plans_group_their_recipes() {
    let plans = vec![
        plan(10, 7, "Meal Plan 17/05/2024", 2024, 5, 17),
        plan(11, 7, "Meal Plan 18/05/2024", 2024, 5, 18),
        plan(12, 99, "someone else's", 2024, 5, 17),
    ];
    let rows = vec![
        pr(1, 10, 100, 1),
        pr(2, 11, 101, 1),
        pr(3, 10, 101, 2),
        pr(4, 12, 100, 1),
    ];
    let catalog = vec![recipe(100, "soup", 250), recipe(101, "salad", 120)];
    let req = GetMealPlanRequest { user_line_id: "line7".to_string(), date: None };
    let resp = get_meal_plan(&users(), &plans, &rows, &catalog, &req).ok().unwrap();
    assert_eq!(resp.meal_plans.len(), 2);

    let first = &resp.meal_plans[0];
    assert_eq!(first.meal_plan_id, 10);
    assert_eq!(first.user_id, 7);
    assert_eq!(first.name, "Meal Plan 17/05/2024");
    assert_eq!(first.recipes.len(), 2);
    assert_eq!(first.recipes[0].recipe_id, 100);
    assert_eq!(first.recipes[0].recipe_name, "soup");
    assert_eq!(first.recipes[0].calories, 250);
    assert_eq!(first.recipes[0].meal_plan_recipe_id, 1);
    assert_eq!(first.recipes[1].recipe_id, 101);
    assert_eq!(first.recipes[1].meal_time, Some(2));

    let second = &resp.meal_plans[1];
    assert_eq!(second.meal_plan_id, 11);
    assert_eq!(second.recipes.len(), 1);
    assert_eq!(second.recipes[0].recipe_name, "salad");
}

#[test]
fn the_date_filter_narrows_to_one_day() {
    let plans = vec![
        plan(10, 7, "a", 2024, 5, 17),
        plan(11, 7, "b", 2024, 5, 18),
    ];
    let rows = vec![pr(1, 10, 100, 1), pr(2, 11, 100, 1)];
    let catalog = vec![recipe(100, "soup", 250)];
    let req = GetMealPlanRequest {
        user_line_id: "line7".to_string(),
        date: Some("2024-05-18".to_string()),
    };
    let resp = get_meal_plan(&users(), &plans, &rows, &catalog, &req).ok().unwrap();
    assert_eq!(resp.meal_plans.len(), 1);
    assert_eq!(resp.meal_plans[0].meal_plan_id, 11);
}

#[test]
fn a_plan_with_no_joined_recipes_is_dropped() {
    // Plan 11's only recipe is missing from the catalog, so the inner join
    // leaves the plan without rows and it does not appear at all.
    let plans = vec![
        plan(10, 7, "a", 2024, 5, 17),
        plan(11, 7, "b", 2024, 5, 18),
    ];
    let rows = vec![pr(1, 10, 100, 1), pr(2, 11, 999, 1)];
    let catalog = vec![recipe(100, "soup", 250)];
    let req = GetMealPlanRequest { user_line_id: "line7".to_string(), date: None };
    let resp = get_meal_plan(&users(), &plans, &rows, &catalog, &req).ok().unwrap();
    assert_eq!(resp.meal_plans.len(), 1);
    assert_eq!(resp.meal_plans[0].meal_plan_id, 10);
}

#[test]
fn an_empty_store_yields_an_empty_response() {
    let req = GetMealPlanRequest { user_line_id: "line7".to_string(), date: None };
    let resp = get_meal_plan(&users(), &vec![], &vec![], &vec![], &req).ok().unwrap();
    assert_eq!(resp.meal_plans.len(), 0);
}
