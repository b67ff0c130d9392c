use mealplan::date::Date;
use mealplan::plans::{
    build_day, build_meal_plans, create_meal_plan, edit_meal_plan, latest_plan_date,
    meal_time_for_slot, replace_plan_recipes, resolve_plan_id, resolve_user_id, start_date,
    user_already_eat, CreateError, CreateMealPlanPayload, EditError, EditMealPlanPayload, Recipe,
    UserAlreadyEatPayload,
};
use mealplan::tables::MealPlan;
use mealplan::tables::{MealPlanRecipe, User};

fn cell(id: i32) -> Recipe {
    Recipe { recipe_id: Some(id) }
}

fn empty_cell() -> Recipe {
    Recipe { recipe_id: None }
}

fn pr(row_id: i32, plan_id: i32, recipe_id: i32) -> MealPlanRecipe {
    MealPlanRecipe {
        meal_plan_recipe_id: row_id,
        meal_plan_id: plan_id,
        recipe_id,
        ischecked: Some(false),
        meal_time: Some(1),
    }
}

#[test]
fn resolve_finds_the_matching_user() {
    let users = vec![
        User { user_id: 3, user_line_id: Some("lineA".to_string()) },
        User { user_id: 9, user_line_id: None },
        User { user_id: 5, user_line_id: Some("lineB".to_string()) },
    ];
    assert_eq!(resolve_user_id(&users, "lineA"), Some(3));
    assert_eq!(resolve_user_id(&users, "lineB"), Some(5));
    assert_eq!(resolve_user_id(&users, "lineC"), None);
}

#[test]
fn meal_slots_are_one_to_four_then_four() {
    assert_eq!(meal_time_for_slot(0), 1);
    assert_eq!(meal_time_for_slot(1), 2);
    assert_eq!(meal_time_for_slot(2), 3);
    assert_eq!(meal_time_for_slot(3), 4);
    assert_eq!(meal_time_for_slot(4), 4);
    assert_eq!(meal_time_for_slot(17), 4);
}

#[test]
fn start_is_today_when_no_plans_exist() {
    let today = Date { year: 2024, month: 5, day: 17 };
    assert_eq!(start_date(today, None), Some(today));
}

#[test]
fn start_is_today_when_latest_plan_is_past() {
    let today = Date { year: 2024, month: 5, day: 17 };
    let latest = Date { year: 2024, month: 5, day: 10 };
    assert_eq!(start_date(today, Some(latest)), Some(today));
}

#[test]
fn start_follows_the_latest_future_plan() {
    let today = Date { year: 2024, month: 5, day: 17 };
    let latest = Date { year: 2024, month: 5, day: 20 };
    let s = start_date(today, Some(latest)).unwrap();
    assert_eq!((s.year, s.month, s.day), (2024, 5, 21));
}

#[test]
fn start_follows_a_plan_dated_today() {
    let today = Date { year: 2024, month: 5, day: 17 };
    let s = start_date(today, Some(today)).unwrap();
    assert_eq!((s.year, s.month, s.day), (2024, 5, 18));
}

#[test]
fn one_day_grid_with_one_null_slot_gives_one_plan_one_recipe() {
    // One day, recipe 5 in the first slot, the second slot empty: exactly one
    // plan dated at the start day holding one unchecked recipe in slot one.
    let today = Date { year: 2024, month: 5, day: 17 };
    let start = start_date(today, None).unwrap();
    assert_eq!(start, today);
    let grid = vec![vec![cell(5), empty_cell()]];
    let plans = build_meal_plans(&grid, start).unwrap();
    assert_eq!(plans.len(), 1);
    assert_eq!(plans[0].date, today);
    assert_eq!(plans[0].name, "Meal Plan 17/05/2024");
    assert_eq!(plans[0].recipes.len(), 1);
    assert_eq!(plans[0].recipes[0].recipe_id, 5);
    assert_eq!(plans[0].recipes[0].meal_time, 1);
    assert!(!plans[0].recipes[0].ischecked);
}

#[test]
fn created_dates_are_consecutive_ascending() {
    let start = Date { year: 2024, month: 2, day: 27 };
    let grid = vec![vec![cell(1)], vec![cell(2)], vec![cell(3)], vec![cell(4)]];
    let plans = build_meal_plans(&grid, start).unwrap();
    let dates: Vec<(i32, i32, i32)> =
        plans.iter().map(|p| (p.date.year, p.date.month, p.date.day)).collect();
    assert_eq!(dates, vec![(2024, 2, 27), (2024, 2, 28), (2024, 2, 29), (2024, 3, 1)]);
}

#[test]
fn overflow_past_calendar_end_is_an_error() {
    let start = Date { year: 9999, month: 12, day: 31 };
    let grid = vec![vec![cell(1)], vec![cell(2)]];
    assert!(build_meal_plans(&grid, start).is_err());
}

#[test]
fn slot_overflow_collapses_into_slot_four() {
    let day = vec![cell(1), cell(2), cell(3), cell(4), cell(5), cell(6)];
    let rows = build_day(&day);
    let slots: Vec<i32> = rows.iter().map(|r| r.meal_time).collect();
    assert_eq!(slots, vec![1, 2, 3, 4, 4, 4]);
}

#[test]
fn null_cells_keep_their_position_slot() {
    let day = vec![empty_cell(), cell(7), empty_cell(), cell(9)];
    let rows = build_day(&day);
    assert_eq!(rows.len(), 2);
    assert_eq!((rows[0].recipe_id, rows[0].meal_time), (7, 2));
    assert_eq!((rows[1].recipe_id, rows[1].meal_time), (9, 4));
}

#[test]
fn edit_replaces_a_plan_wholesale() {
    let mut rows = vec![pr(1, 10, 100), pr(2, 10, 101), pr(3, 11, 102)];
    let cells = vec![cell(200), cell(201)];
    let r = replace_plan_recipes(&mut rows, 10, &cells, 50);
    assert!(r.is_ok());
    assert_eq!(rows.len(), 3);
    // The other plan's row survives; the edited plan holds only fresh rows.
    assert_eq!(rows[0].meal_plan_id, 11);
    assert_eq!((rows[1].meal_plan_recipe_id, rows[1].recipe_id, rows[1].meal_time), (50, 200, Some(1)));
    assert_eq!((rows[2].meal_plan_recipe_id, rows[2].recipe_id, rows[2].meal_time), (51, 201, Some(2)));
    assert_eq!(rows[1].ischecked, Some(false));
}

#[test]
fn edit_with_a_null_cell_deletes_but_inserts_nothing() {
    // The delete is visible even though the insert aborted: this documents
    // the partial atomicity of the edit (delete first, then one insert unit).
    let mut rows = vec![pr(1, 10, 100), pr(2, 10, 101), pr(3, 11, 102)];
    let cells = vec![cell(200), empty_cell(), cell(201)];
    let r = replace_plan_recipes(&mut rows, 10, &cells, 50);
    assert_eq!(r, Err(EditError::NullRecipe));
    assert_eq!(rows.len(), 1);
    assert_eq!(rows[0].meal_plan_id, 11);
}

#[test]
fn toggle_updates_only_the_named_row() {
    let mut rows = vec![pr(1, 10, 100), pr(2, 10, 101)];
    user_already_eat(&mut rows, &UserAlreadyEatPayload { meal_plan_recipe_id: 2, ischecked: true });
    assert_eq!(rows[0].ischecked, Some(false));
    assert_eq!(rows[1].ischecked, Some(true));
}

#[test]
fn toggle_without_a_match_changes_nothing_and_succeeds() {
    let mut rows = vec![pr(1, 10, 100)];
    user_already_eat(&mut rows, &UserAlreadyEatPayload { meal_plan_recipe_id: 99, ischecked: true });
    assert_eq!(rows.len(), 1);
    assert_eq!(rows[0].ischecked, Some(false));
}

fn stored_plan(id: i32, user: i32, y: i32, m: i32, d: i32) -> MealPlan {
    MealPlan {
        meal_plan_id: id,
        user_id: user,
        name: format!("plan {}", id),
        date: Date { year: y, month: m, day: d },
    }
}

fn line_users() -> Vec<User> {
    vec![User { user_id: 7, user_line_id: Some("line7".to_string()) }]
}

#[test]
fn latest_plan_date_is_the_maximum() {
    let plans = vec![
        stored_plan(1, 7, 2024, 5, 10),
        stored_plan(2, 7, 2024, 5, 20),
        stored_plan(3, 7, 2024, 5, 15),
        stored_plan(4, 9, 2024, 6, 1),
    ];
    let latest = latest_plan_date(&plans, 7).unwrap();
    assert_eq!((latest.year, latest.month, latest.day), (2024, 5, 20));
    assert!(latest_plan_date(&plans, 5).is_none());
}

#[test]
fn plan_lookup_matches_user_and_date() {
    let plans = vec![
        stored_plan(1, 7, 2024, 5, 10),
        stored_plan(2, 9, 2024, 5, 11),
    ];
    assert_eq!(resolve_plan_id(&plans, 7, Date { year: 2024, month: 5, day: 10 }), Some(1));
    assert_eq!(resolve_plan_id(&plans, 7, Date { year: 2024, month: 5, day: 11 }), None);
    assert_eq!(resolve_plan_id(&plans, 9, Date { year: 2024, month: 5, day: 11 }), Some(2));
}

#[test]
fn create_appends_after_the_latest_plan() {
    let plans = vec![stored_plan(1, 7, 2024, 5, 20)];
    let today = Date { year: 2024, month: 5, day: 17 };
    let payload = CreateMealPlanPayload {
        user_line_id: "line7".to_string(),
        mealplans: vec![vec![cell(5)], vec![cell(6)]],
    };
    let out = create_meal_plan(&line_users(), &plans, today, &payload).unwrap();
    assert_eq!(out.len(), 2);
    assert_eq!((out[0].date.year, out[0].date.month, out[0].date.day), (2024, 5, 21));
    assert_eq!((out[1].date.year, out[1].date.month, out[1].date.day), (2024, 5, 22));
    assert_eq!(out[0].name, "Meal Plan 21/05/2024");
}

#[test]
fn create_for_an_unknown_user_fails() {
    let today = Date { year: 2024, month: 5, day: 17 };
    let payload = CreateMealPlanPayload {
        user_line_id: "nobody".to_string(),
        mealplans: vec![vec![cell(5)]],
    };
    let e = create_meal_plan(&line_users(), &vec![], today, &payload).err().unwrap();
    assert_eq!(e, CreateError::UserNotFound);
    assert_eq!(e.message(), "User not found");
}

#[test]
fn full_edit_resolves_user_date_and_plan() {
    let plans = vec![stored_plan(10, 7, 2024, 5, 17)];
    let mut rows = vec![pr(1, 10, 100), pr(2, 11, 101)];
    let payload = EditMealPlanPayload {
        user_line_id: "line7".to_string(),
        date: "2024-05-17".to_string(),
        recipes: vec![cell(200)],
    };
    let r = edit_meal_plan(&line_users(), &plans, &mut rows, &payload, 40);
    assert!(r.is_ok());
    assert_eq!(rows.len(), 2);
    assert_eq!(rows[0].meal_plan_id, 11);
    assert_eq!((rows[1].meal_plan_recipe_id, rows[1].meal_plan_id, rows[1].recipe_id), (40, 10, 200));
}

#[test]
fn full_edit_error_taxonomy() {
    let plans = vec![stored_plan(10, 7, 2024, 5, 17)];
    let mut rows = vec![pr(1, 10, 100)];

    let bad_user = EditMealPlanPayload {
        user_line_id: "nobody".to_string(),
        date: "2024-05-17".to_string(),
        recipes: vec![cell(200)],
    };
    let e = edit_meal_plan(&line_users(), &plans, &mut rows, &bad_user, 40).err().unwrap();
    assert_eq!(e, EditError::UserNotFound);
    assert_eq!(e.message(), "User not found");
    assert_eq!(rows.len(), 1);

    let bad_date = EditMealPlanPayload {
        user_line_id: "line7".to_string(),
        date: "17/05/2024".to_string(),
        recipes: vec![cell(200)],
    };
    let e = edit_meal_plan(&line_users(), &plans, &mut rows, &bad_date, 40).err().unwrap();
    assert_eq!(e, EditError::BadDate);
    assert_eq!(e.message(), "Invalid date format. Use YYYY-MM-DD");
    assert_eq!(rows.len(), 1);

    let no_plan = EditMealPlanPayload {
        user_line_id: "line7".to_string(),
        date: "2024-05-18".to_string(),
        recipes: vec![cell(200)],
    };
    let e = edit_meal_plan(&line_users(), &plans, &mut rows, &no_plan, 40).err().unwrap();
    assert_eq!(e, EditError::PlanNotFound);
    assert_eq!(e.message(), "Meal plan not found for the given date");
    assert_eq!(rows.len(), 1);

    let null_cell = EditMealPlanPayload {
        user_line_id: "line7".to_string(),
        date: "2024-05-17".to_string(),
        recipes: vec![cell(200), empty_cell()],
    };
    let e = edit_meal_plan(&line_users(), &plans, &mut rows, &null_cell, 40).err().unwrap();
    assert_eq!(e, EditError::NullRecipe);
    assert_eq!(e.message(), "Failed to insert new recipes");
    // The delete went through, the insert did not.
    assert_eq!(rows.len(), 0);
}

#[test]
fn create_past_the_calendar_end_fails() {
    // The user's latest plan sits on the last representable date, so there is
    // no day left to append to.
    let plans = vec![stored_plan(1, 7, 9999, 12, 31)];
    let today = Date { year: 2024, month: 5, day: 17 };
    let payload = CreateMealPlanPayload {
        user_line_id: "line7".to_string(),
        mealplans: vec![vec![cell(5)]],
    };
    let e = create_meal_plan(&line_users(), &plans, today, &payload).err().unwrap();
    assert_eq!(e, CreateError::CalendarOverflow);
    assert_eq!(e.message(), "Failed to create meal plan");
}
