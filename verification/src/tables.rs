//! Plain-value rows for the tables the meal-plan workflow touches, and the
//! mathematical views contracts are stated over.
//!
//! Nutrient quantities and limits are integer amounts in the nutrient's base
//! unit; the bounds on them keep every aggregation free of overflow.

use vstd::prelude::*;
use crate::date::Date;

verus! {

/// A row of the users table: the internal id and the external line-id.
pub struct User {
    pub user_id: i32,
    pub user_line_id: Option<String>,
}

/// Mathematical view of a `User`.
pub struct UserView {
    pub user_id: i32,
    pub user_line_id: Option<Seq<char>>,
}

impl DeepView for User {
    type V = UserView;

    open spec fn deep_view(&self) -> UserView {
        UserView { user_id: self.user_id, user_line_id: self.user_line_id.deep_view() }
    }
}

/// A row of the meal_plans table.
pub struct MealPlan {
    pub meal_plan_id: i32,
    pub user_id: i32,
    pub name: String,
    pub date: Date,
}

/// Mathematical view of a `MealPlan`.
pub struct MealPlanView {
    pub meal_plan_id: i32,
    pub user_id: i32,
    pub name: Seq<char>,
    pub date: Date,
}

impl DeepView for MealPlan {
    type V = MealPlanView;

    open spec fn deep_view(&self) -> MealPlanView {
        MealPlanView {
            meal_plan_id: self.meal_plan_id,
            user_id: self.user_id,
            name: self.name.deep_view(),
            date: self.date,
        }
    }
}

/// A row of the meal_plan_recipes table.
#[derive(Clone, Copy, Debug, PartialEq, Eq, Structural)]
pub struct MealPlanRecipe {
    pub meal_plan_recipe_id: i32,
    pub meal_plan_id: i32,
    pub recipe_id: i32,
    pub ischecked: Option<bool>,
    pub meal_time: Option<i32>,
}

impl DeepView for MealPlanRecipe {
    type V = MealPlanRecipe;

    open spec fn deep_view(&self) -> MealPlanRecipe {
        *self
    }
}

/// A row of the recipes table, reduced to the columns this workflow reads.
pub struct Recipe {
    pub recipe_id: i32,
    pub recipe_name: String,
    pub recipe_img_link: Vec<String>,
    pub calories: i64,
}

/// Mathematical view of a `Recipe`.
pub struct RecipeView {
    pub recipe_id: i32,
    pub recipe_name: Seq<char>,
    pub recipe_img_link: Seq<Seq<char>>,
    pub calories: i64,
}

impl DeepView for Recipe {
    type V = RecipeView;

    open spec fn deep_view(&self) -> RecipeView {
        RecipeView {
            recipe_id: self.recipe_id,
            recipe_name: self.recipe_name.deep_view(),
            recipe_img_link: self.recipe_img_link.deep_view(),
            calories: self.calories,
        }
    }
}

/// A row of the recipes_nutrients table: one nutrient quantity of one recipe.
#[derive(Clone, Copy, Debug, PartialEq, Eq, Structural)]
pub struct RecipeNutrient {
    pub recipe_id: i32,
    pub nutrient_id: i32,
    pub quantity: i64,
}

impl DeepView for RecipeNutrient {
    type V = RecipeNutrient;

    open spec fn deep_view(&self) -> RecipeNutrient {
        *self
    }
}

/// A row of the recipes_ingredient_allergies table: one allergy tag on one
/// recipe.
#[derive(Clone, Copy, Debug, PartialEq, Eq, Structural)]
pub struct RecipeIngredientAllergy {
    pub recipe_id: i32,
    pub ingredient_allergy_id: i32,
}

impl DeepView for RecipeIngredientAllergy {
    type V = RecipeIngredientAllergy;

    open spec fn deep_view(&self) -> RecipeIngredientAllergy {
        *self
    }
}

/// A row of the users_ingredient_allergies table: one allergy a user declared.
#[derive(Clone, Copy, Debug, PartialEq, Eq, Structural)]
pub struct UserIngredientAllergy {
    pub user_id: i32,
    pub ingredient_allergy_id: i32,
}

impl DeepView for UserIngredientAllergy {
    type V = UserIngredientAllergy;

    open spec fn deep_view(&self) -> UserIngredientAllergy {
        *self
    }
}

/// A row of the users_nutrients_limit_per_day table. Both columns are nullable
/// in the store, and the workflow preserves that.
#[derive(Clone, Copy, Debug, PartialEq, Eq, Structural)]
pub struct UserNutrientLimit {
    pub user_id: i32,
    pub nutrient_id: Option<i32>,
    pub nutrient_limit: Option<i64>,
}

impl DeepView for UserNutrientLimit {
    type V = UserNutrientLimit;

    open spec fn deep_view(&self) -> UserNutrientLimit {
        *self
    }
}

} // verus!
