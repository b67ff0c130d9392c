//! The allergy filter: a recipe is eligible for a user exactly when no allergy
//! link of the recipe matches an allergy the user declared.

use vstd::prelude::*;
use crate::tables::{Recipe, RecipeIngredientAllergy, RecipeView, UserIngredientAllergy};

verus! {

/// One shared allergen between the recipe's links and the user's declarations
/// disqualifies the recipe.
pub open spec fn excluded(
    recipe_id: i32,
    user_id: i32,
    links: Seq<RecipeIngredientAllergy>,
    declared: Seq<UserIngredientAllergy>,
) -> bool {
    exists|i: int, j: int|
        #![trigger links[i], declared[j]]
        0 <= i < links.len() && 0 <= j < declared.len() && links[i].recipe_id == recipe_id
            && declared[j].user_id == user_id && links[i].ingredient_allergy_id
            == declared[j].ingredient_allergy_id
}

/// The ids of the recipes that are eligible for the user, in catalog order.
pub open spec fn eligible_ids(
    rs: Seq<RecipeView>,
    links: Seq<RecipeIngredientAllergy>,
    declared: Seq<UserIngredientAllergy>,
    user_id: i32,
) -> Seq<i32>
    decreases rs.len(),
{
    if rs.len() == 0 {
        Seq::empty()
    } else {
        let rest = eligible_ids(rs.drop_last(), links, declared, user_id);
        if excluded(rs.last().recipe_id, user_id, links, declared) {
            rest
        } else {
            rest.push(rs.last().recipe_id)
        }
    }
}

/// Whether the user declared an allergy linked to this recipe.
pub fn is_excluded(
    recipe_id: i32,
    user_id: i32,
    links: &Vec<RecipeIngredientAllergy>,
    declared: &Vec<UserIngredientAllergy>,
) -> (r: bool)
    ensures
        r == excluded(recipe_id, user_id, links@, declared@),
{
    let mut i: usize = 0;
    while i < links.len()
        invariant
            i <= links@.len(),
            forall|a: int, b: int|
                #![trigger links@[a], declared@[b]]
                0 <= a < i && 0 <= b < declared@.len() ==> !(links@[a].recipe_id == recipe_id
                    && declared@[b].user_id == user_id && links@[a].ingredient_allergy_id
                    == declared@[b].ingredient_allergy_id),
        decreases links@.len() - i,
    {
        let link = links[i];
        if link.recipe_id == recipe_id {
            let mut j: usize = 0;
            while j < declared.len()
                invariant
                    j <= declared@.len(),
                    i < links@.len(),
                    link == links@[i as int],
                    link.recipe_id == recipe_id,
                    forall|b: int|
                        #![trigger declared@[b]]
                        0 <= b < j ==> !(declared@[b].user_id == user_id
                            && link.ingredient_allergy_id == declared@[b].ingredient_allergy_id),
                decreases declared@.len() - j,
            {
                let d = declared[j];
                if d.user_id == user_id && d.ingredient_allergy_id == link.ingredient_allergy_id {
                    proof {
                        assert(links@[i as int].recipe_id == recipe_id);
                        assert(declared@[j as int].user_id == user_id);
                        assert(links@[i as int].ingredient_allergy_id == declared@[
                            j as int
                        ].ingredient_allergy_id);
                    }
                    return true;
                }
                j = j + 1;
            }
        }
        i = i + 1;
    }
    false
}

/// All recipes eligible for the user: those with no allergen overlap against
/// the user's declared allergies. A user with no declarations keeps every
/// recipe; a recipe with no links is always kept.
pub fn eligible_recipes(
    recipes: &Vec<Recipe>,
    links: &Vec<RecipeIngredientAllergy>,
    declared: &Vec<UserIngredientAllergy>,
    user_id: i32,
) -> (r: Vec<i32>)
    ensures
        r@ == eligible_ids(recipes.deep_view(), links@, declared@, user_id),
{
    let mut r: Vec<i32> = Vec::new();
    let mut i: usize = 0;
    while i < recipes.len()
        invariant
            i <= recipes@.len(),
            recipes.deep_view().len() == recipes@.len(),
            r@ == eligible_ids(recipes.deep_view().take(i as int), links@, declared@, user_id),
        decreases recipes@.len() - i,
    {
        proof {
            assert(recipes.deep_view().take(i + 1).drop_last() =~= recipes.deep_view().take(
                i as int,
            ));
            assert(recipes.deep_view().take(i + 1).last() == recipes.deep_view()[i as int]);
            assert(recipes.deep_view()[i as int].recipe_id == recipes@[i as int].recipe_id);
        }
        if !is_excluded(recipes[i].recipe_id, user_id, links, declared) {
            let id = recipes[i].recipe_id;
            r.push(id);
        }
        i = i + 1;
    }
    proof {
        assert(recipes.deep_view().take(recipes@.len() as int) =~= recipes.deep_view());
    }
    r
}

/// The filter keeps exactly the non-excluded recipes: an id is in the eligible
/// list if and only if some recipe in the catalog carries it and is not
/// excluded for the user.
pub proof fn lemma_eligible_iff(
    rs: Seq<RecipeView>,
    links: Seq<RecipeIngredientAllergy>,
    declared: Seq<UserIngredientAllergy>,
    user_id: i32,
    recipe_id: i32,
)
    ensures
        eligible_ids(rs, links, declared, user_id).contains(recipe_id) <==> exists|k: int|
            0 <= k < rs.len() && (#[trigger] rs[k]).recipe_id == recipe_id && !excluded(
                recipe_id,
                user_id,
                links,
                declared,
            ),
    decreases rs.len(),
{
    if rs.len() > 0 {
        lemma_eligible_iff(rs.drop_last(), links, declared, user_id, recipe_id);
        let rest = eligible_ids(rs.drop_last(), links, declared, user_id);
        let all = eligible_ids(rs, links, declared, user_id);
        if excluded(rs.last().recipe_id, user_id, links, declared) {
            assert(forall|k: int|
                0 <= k < rs.len() - 1 ==> rs.drop_last()[k] == #[trigger] rs[k]);
            assert((exists|k: int|
                0 <= k < rs.len() && (#[trigger] rs[k]).recipe_id == recipe_id && !excluded(
                    recipe_id,
                    user_id,
                    links,
                    declared,
                )) ==> exists|k: int|
                0 <= k < rs.len() - 1 && (#[trigger] rs.drop_last()[k]).recipe_id == recipe_id
                    && !excluded(recipe_id, user_id, links, declared)) by {
                if exists|k: int|
                    0 <= k < rs.len() && (#[trigger] rs[k]).recipe_id == recipe_id && !excluded(
                        recipe_id,
                        user_id,
                        links,
                        declared,
                    ) {
                    let k = choose|k: int|
                        0 <= k < rs.len() && (#[trigger] rs[k]).recipe_id == recipe_id && !excluded(
                            recipe_id,
                            user_id,
                            links,
                            declared,
                        );
                    if k < rs.len() - 1 {
                        assert(rs.drop_last()[k].recipe_id == recipe_id);
                    }
                }
            }
        } else {
            assert(forall|k: int|
                0 <= k < rs.len() - 1 ==> rs.drop_last()[k] == #[trigger] rs[k]);
            if all.contains(recipe_id) {
                let n = choose|n: int| 0 <= n < all.len() && all[n] == recipe_id;
                if n < rest.len() {
                    assert(rest.contains(recipe_id));
                } else {
                    assert(rs.last().recipe_id == recipe_id);
                    assert(rs[rs.len() - 1].recipe_id == recipe_id);
                }
            }
            if exists|k: int|
                0 <= k < rs.len() && (#[trigger] rs[k]).recipe_id == recipe_id && !excluded(
                    recipe_id,
                    user_id,
                    links,
                    declared,
                ) {
                let k = choose|k: int|
                    0 <= k < rs.len() && (#[trigger] rs[k]).recipe_id == recipe_id && !excluded(
                        recipe_id,
                        user_id,
                        links,
                        declared,
                    );
                if k < rs.len() - 1 {
                    assert(rs.drop_last()[k].recipe_id == recipe_id);
                    assert(rest.contains(recipe_id));
                    let n = choose|n: int| 0 <= n < rest.len() && rest[n] == recipe_id;
                    assert(all[n] == recipe_id);
                } else {
                    assert(all.last() == recipe_id);
                }
            }
        }
    }
}

} // verus!
