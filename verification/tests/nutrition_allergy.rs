use mealplan::allergy::{eligible_recipes, is_excluded};
use mealplan::nutrition::{quantities_in_range, recipe_nutrition, user_limits, MAX_QUANTITY};
use mealplan::tables::{
    Recipe, RecipeIngredientAllergy, RecipeNutrient, UserIngredientAllergy, UserNutrientLimit,
};

fn catalog_recipe(id: i32, name: &str) -> Recipe {
    Recipe {
        recipe_id: id,
        recipe_name: name.to_string(),
        recipe_img_link: vec![],
        calories: 0,
    }
}

#[test]
fn nutrients_stay_with_their_own_recipe() {
    // Two recipes with one calories row each: each total is its own row's
    // quantity, never a cross-recipe sum.
    let rows = vec![
        RecipeNutrient { recipe_id: 1, nutrient_id: 1, quantity: 100 },
        RecipeNutrient { recipe_id: 2, nutrient_id: 1, quantity: 200 },
    ];
    let a = recipe_nutrition(&rows, 1);
    let b = recipe_nutrition(&rows, 2);
    assert_eq!(a.calories, 100);
    assert_eq!(b.calories, 200);
}

#[test]
fn each_nutrient_sums_by_its_own_id() {
    let rows = vec![
        RecipeNutrient { recipe_id: 1, nutrient_id: 1, quantity: 250 },
        RecipeNutrient { recipe_id: 1, nutrient_id: 2, quantity: 30 },
        RecipeNutrient { recipe_id: 1, nutrient_id: 2, quantity: 12 },
        RecipeNutrient { recipe_id: 1, nutrient_id: 6, quantity: 19 },
        RecipeNutrient { recipe_id: 2, nutrient_id: 6, quantity: 500 },
    ];
    let n = recipe_nutrition(&rows, 1);
    assert_eq!(n.calories, 250);
    assert_eq!(n.carbs, 42);
    assert_eq!(n.fat, 0);
    assert_eq!(n.protein, 19);
    assert_eq!(n.sodium, 0);
}

#[test]
fn limits_map_known_ids_and_ignore_the_rest() {
    let rows = vec![
        UserNutrientLimit { user_id: 7, nutrient_id: Some(1), nutrient_limit: Some(1800) },
        UserNutrientLimit { user_id: 7, nutrient_id: Some(7), nutrient_limit: Some(2000) },
        UserNutrientLimit { user_id: 7, nutrient_id: Some(42), nutrient_limit: Some(9) },
        UserNutrientLimit { user_id: 7, nutrient_id: None, nutrient_limit: Some(5) },
        UserNutrientLimit { user_id: 8, nutrient_id: Some(2), nutrient_limit: Some(300) },
    ];
    let n = user_limits(&rows, 7);
    assert_eq!(n.calories, 1800);
    assert_eq!(n.sodium, 2000);
    assert_eq!(n.carbs, 0);
    assert_eq!(n.protein, 0);
}

#[test]
fn a_null_limit_counts_as_zero() {
    let rows = vec![
        UserNutrientLimit { user_id: 7, nutrient_id: Some(3), nutrient_limit: None },
    ];
    let n = user_limits(&rows, 7);
    assert_eq!(n.fat, 0);
}

#[test]
fn one_shared_allergen_disqualifies_the_recipe() {
    let links = vec![
        RecipeIngredientAllergy { recipe_id: 1, ingredient_allergy_id: 11 },
        RecipeIngredientAllergy { recipe_id: 1, ingredient_allergy_id: 12 },
        RecipeIngredientAllergy { recipe_id: 2, ingredient_allergy_id: 13 },
    ];
    let declared = vec![
        UserIngredientAllergy { user_id: 7, ingredient_allergy_id: 12 },
    ];
    assert!(is_excluded(1, 7, &links, &declared));
    assert!(!is_excluded(2, 7, &links, &declared));
    assert!(!is_excluded(1, 8, &links, &declared));
}

#[test]
fn eligible_keeps_exactly_the_unlinked_recipes() {
    let recipes = vec![
        catalog_recipe(1, "soup"),
        catalog_recipe(2, "salad"),
        catalog_recipe(3, "stew"),
    ];
    let links = vec![
        RecipeIngredientAllergy { recipe_id: 2, ingredient_allergy_id: 12 },
    ];
    let declared = vec![
        UserIngredientAllergy { user_id: 7, ingredient_allergy_id: 12 },
    ];
    assert_eq!(eligible_recipes(&recipes, &links, &declared, 7), vec![1, 3]);
}

#[test]
fn no_declared_allergies_keeps_every_recipe() {
    let recipes = vec![catalog_recipe(1, "soup"), catalog_recipe(2, "salad")];
    let links = vec![
        RecipeIngredientAllergy { recipe_id: 1, ingredient_allergy_id: 11 },
    ];
    let declared: Vec<UserIngredientAllergy> = vec![];
    assert_eq!(eligible_recipes(&recipes, &links, &declared, 7), vec![1, 2]);
}

#[test]
fn a_recipe_without_links_is_always_eligible() {
    let recipes = vec![catalog_recipe(5, "rice")];
    let links: Vec<RecipeIngredientAllergy> = vec![];
    let declared = vec![
        UserIngredientAllergy { user_id: 7, ingredient_allergy_id: 1 },
    ];
    assert_eq!(eligible_recipes(&recipes, &links, &declared, 7), vec![5]);
}

#[test]
fn the_aggregation_bound_is_enforced() {
    let fine = vec![RecipeNutrient { recipe_id: 1, nutrient_id: 1, quantity: MAX_QUANTITY }];
    assert!(quantities_in_range(&fine));
    let too_big = vec![RecipeNutrient { recipe_id: 1, nutrient_id: 1, quantity: MAX_QUANTITY + 1 }];
    assert!(!quantities_in_range(&too_big));
}
