use mealplan::bridge::{
    ai_meal_plan_request, update_meal_plan_request, BridgeError, MealPlanRequest,
    MealPlanRequestData, UpdateMealPlanRequest,
};
use mealplan::plans::Recipe;
use mealplan::reshape::rename_user_id;
use mealplan::tables::{
    RecipeIngredientAllergy, RecipeNutrient, User, UserIngredientAllergy, UserNutrientLimit,
};
use serde_json::Value;

fn users() -> Vec<User> {
    vec![User { user_id: 7, user_line_id: Some("line7".to_string()) }]
}

fn catalog() -> Vec<mealplan::tables::Recipe> {
    vec![
        mealplan::tables::Recipe {
            recipe_id: 1,
            recipe_name: "soup".to_string(),
            recipe_img_link: vec!["a.png".to_string()],
            calories: 0,
        },
        mealplan::tables::Recipe {
            recipe_id: 2,
            recipe_name: "salad".to_string(),
            recipe_img_link: vec![],
            calories: 0,
        },
    ]
}

fn nutrients() -> Vec<RecipeNutrient> {
    vec![
        RecipeNutrient { recipe_id: 1, nutrient_id: 1, quantity: 300 },
        RecipeNutrient { recipe_id: 1, nutrient_id: 6, quantity: 20 },
        RecipeNutrient { recipe_id: 2, nutrient_id: 1, quantity: 150 },
    ]
}

fn limits() -> Vec<UserNutrientLimit> {
    vec![UserNutrientLimit { user_id: 7, nutrient_id: Some(1), nutrient_limit: Some(1800) }]
}

#[test]
fn initial_request_carries_menus_and_limits() {
    let links: Vec<RecipeIngredientAllergy> = vec![];
    let declared: Vec<UserIngredientAllergy> = vec![];
    let payload = MealPlanRequest {
        data: MealPlanRequestData { u_id: "line7".to_string(), days: 3 },
    };
    let rd = ai_meal_plan_request(
        &users(),
        &catalog(),
        &nutrients(),
        &links,
        &declared,
        &limits(),
        &payload,
    )
    .ok()
    .unwrap();
    assert_eq!(rd.user_line_id, "7");
    assert_eq!(rd.days, 3);
    assert_eq!(rd.nutrition_limit_per_day.calories, 1800);
    assert_eq!(rd.food_menus.len(), 2);
    assert_eq!(rd.food_menus[0].name, "soup");
    assert_eq!(rd.food_menus[0].nutrition.calories, 300);
    assert_eq!(rd.food_menus[0].nutrition.protein, 20);
    assert_eq!(rd.food_menus[0].recipe_img_link, vec!["a.png".to_string()]);
    assert_eq!(rd.food_menus[1].nutrition.calories, 150);
}

#[test]
fn allergic_recipes_stay_out_of_the_menus() {
    let links = vec![RecipeIngredientAllergy { recipe_id: 1, ingredient_allergy_id: 11 }];
    let declared = vec![UserIngredientAllergy { user_id: 7, ingredient_allergy_id: 11 }];
    let payload = MealPlanRequest {
        data: MealPlanRequestData { u_id: "line7".to_string(), days: 1 },
    };
    let rd = ai_meal_plan_request(
        &users(),
        &catalog(),
        &nutrients(),
        &links,
        &declared,
        &limits(),
        &payload,
    )
    .ok()
    .unwrap();
    assert_eq!(rd.food_menus.len(), 1);
    assert_eq!(rd.food_menus[0].recipe_id, 2);
}

#[test]
fn unknown_user_fails_the_bridge() {
    let links: Vec<RecipeIngredientAllergy> = vec![];
    let declared: Vec<UserIngredientAllergy> = vec![];
    let payload = MealPlanRequest {
        data: MealPlanRequestData { u_id: "nobody".to_string(), days: 1 },
    };
    let r = ai_meal_plan_request(
        &users(),
        &catalog(),
        &nutrients(),
        &links,
        &declared,
        &limits(),
        &payload,
    );
    let e = r.err().unwrap();
    assert_eq!(e, BridgeError::UserNotFound);
    assert_eq!(e.message(), "User not found");
}

#[test]
fn update_request_materializes_the_grid() {
    let links: Vec<RecipeIngredientAllergy> = vec![];
    let declared: Vec<UserIngredientAllergy> = vec![];
    let payload = UpdateMealPlanRequest {
        user_id: "line7".to_string(),
        days: 2,
        mealplans: vec![
            vec![Recipe { recipe_id: Some(1) }, Recipe { recipe_id: None }],
            vec![Recipe { recipe_id: Some(999) }, Recipe { recipe_id: Some(2) }],
        ],
    };
    let resp = update_meal_plan_request(
        &users(),
        &catalog(),
        &nutrients(),
        &links,
        &declared,
        &limits(),
        &payload,
    )
    .ok()
    .unwrap();
    assert_eq!(resp.user_line_id, "line7");
    assert_eq!(resp.days, 2);
    assert_eq!(resp.mealplan.user_id, "line7");
    // Null cells and cells naming no eligible recipe drop out silently.
    assert_eq!(resp.mealplan.mealplans.len(), 2);
    assert_eq!(resp.mealplan.mealplans[0].len(), 1);
    assert_eq!(resp.mealplan.mealplans[0][0].name, "soup");
    assert_eq!(resp.mealplan.mealplans[0][0].nutrition.calories, 300);
    assert_eq!(resp.mealplan.mealplans[1].len(), 1);
    assert_eq!(resp.mealplan.mealplans[1][0].recipe_id, 2);
}

#[test]
fn rename_moves_user_id_and_keeps_the_value() {
    let fields = vec![
        ("status".to_string(), Value::String("ok".to_string())),
        ("user_id".to_string(), Value::String("U123".to_string())),
        ("days".to_string(), Value::from(4)),
    ];
    let out = rename_user_id(fields);
    assert_eq!(out.len(), 3);
    assert_eq!(out[0].0, "status");
    assert_eq!(out[0].1, Value::String("ok".to_string()));
    assert_eq!(out[1].0, "days");
    assert_eq!(out[1].1, Value::from(4));
    assert_eq!(out[2].0, "user_line_id");
    assert_eq!(out[2].1, Value::String("U123".to_string()));
}

#[test]
fn rename_without_user_id_changes_nothing() {
    let fields = vec![
        ("status".to_string(), Value::String("ok".to_string())),
        ("days".to_string(), Value::from(4)),
    ];
    let out = rename_user_id(fields);
    assert_eq!(out.len(), 2);
    assert_eq!(out[0].0, "status");
    assert_eq!(out[1].0, "days");
    assert_eq!(out[1].1, Value::from(4));
}

#[test]
fn rename_overwrites_an_existing_user_line_id() {
    let fields = vec![
        ("user_line_id".to_string(), Value::String("old".to_string())),
        ("user_id".to_string(), Value::String("new".to_string())),
    ];
    let out = rename_user_id(fields);
    assert_eq!(out.len(), 1);
    assert_eq!(out[0].0, "user_line_id");
    assert_eq!(out[0].1, Value::String("new".to_string()));
}
