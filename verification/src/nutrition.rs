//! Nutrient aggregation: per-recipe nutrient totals and a user's daily limits,
//! each nutrient summed independently by its own nutrient id.

use vstd::prelude::*;
use crate::tables::{RecipeNutrient, UserNutrientLimit};

verus! {

/// Nutrient ids as stored in the nutrients table.
pub const CALORIES_ID: i32 = 1;

pub const CARBS_ID: i32 = 2;

pub const FAT_ID: i32 = 3;

pub const PHOSPHORUS_ID: i32 = 4;

pub const POTASSIUM_ID: i32 = 5;

pub const PROTEIN_ID: i32 = 6;

pub const SODIUM_ID: i32 = 7;

/// Largest magnitude a single stored quantity or limit may have.
pub const MAX_QUANTITY: i64 = 0x4000_0000;

/// Largest number of nutrient rows an aggregation accepts. Together with
/// `MAX_QUANTITY` this keeps every sum within `i64`.
pub const MAX_NUTRIENT_ROWS: usize = 0x4000_0000;

/// A fixed-shape nutrition profile: one amount per known nutrient.
#[derive(Clone, Copy, Debug, PartialEq, Eq, Structural)]
pub struct Nutrition {
    pub calories: i64,
    pub carbs: i64,
    pub fat: i64,
    pub phosphorus: i64,
    pub potassium: i64,
    pub protein: i64,
    pub sodium: i64,
}

impl DeepView for Nutrition {
    type V = Nutrition;

    open spec fn deep_view(&self) -> Nutrition {
        *self
    }
}

pub open spec fn quantities_bounded(s: Seq<RecipeNutrient>) -> bool {
    forall|i: int| 0 <= i < s.len() ==> -MAX_QUANTITY <= #[trigger] s[i].quantity <= MAX_QUANTITY
}

/// Total quantity of nutrient `nid` recorded for recipe `rid`.
pub open spec fn sum_quantity(s: Seq<RecipeNutrient>, rid: i32, nid: i32) -> int
    decreases s.len(),
{
    if s.len() == 0 {
        0
    } else {
        sum_quantity(s.drop_last(), rid, nid) + if s.last().recipe_id == rid
            && s.last().nutrient_id == nid {
            s.last().quantity as int
        } else {
            0
        }
    }
}

/// The daily limit of nutrient `nid` for user `uid`: the last matching row
/// wins, a missing row or a null limit means zero.
pub open spec fn limit_for(s: Seq<UserNutrientLimit>, uid: i32, nid: i32) -> int
    decreases s.len(),
{
    if s.len() == 0 {
        0
    } else if s.last().user_id == uid && s.last().nutrient_id == Some(nid) {
        match s.last().nutrient_limit {
            Some(v) => v as int,
            None => 0,
        }
    } else {
        limit_for(s.drop_last(), uid, nid)
    }
}

/// Whether a fetched nutrient table is within the bounds the aggregation is
/// stated for: callers test this once and refuse the rest.
pub fn quantities_in_range(rows: &Vec<RecipeNutrient>) -> (r: bool)
    ensures
        r == (quantities_bounded(rows@) && rows@.len() <= MAX_NUTRIENT_ROWS),
{
    if rows.len() > MAX_NUTRIENT_ROWS {
        return false;
    }
    let mut i: usize = 0;
    while i < rows.len()
        invariant
            i <= rows@.len(),
            forall|k: int|
                0 <= k < i ==> -MAX_QUANTITY <= #[trigger] rows@[k].quantity <= MAX_QUANTITY,
        decreases rows@.len() - i,
    {
        let q = rows[i].quantity;
        if q < -MAX_QUANTITY || q > MAX_QUANTITY {
            return false;
        }
        i = i + 1;
    }
    true
}

/// The whole nutrition profile of one recipe, as `recipe_nutrition` computes
/// it.
pub open spec fn nutrition_spec(s: Seq<RecipeNutrient>, rid: i32) -> Nutrition {
    Nutrition {
        calories: sum_quantity(s, rid, CALORIES_ID) as i64,
        carbs: sum_quantity(s, rid, CARBS_ID) as i64,
        fat: sum_quantity(s, rid, FAT_ID) as i64,
        phosphorus: sum_quantity(s, rid, PHOSPHORUS_ID) as i64,
        potassium: sum_quantity(s, rid, POTASSIUM_ID) as i64,
        protein: sum_quantity(s, rid, PROTEIN_ID) as i64,
        sodium: sum_quantity(s, rid, SODIUM_ID) as i64,
    }
}

/// The whole limit profile of one user, as `user_limits` computes it.
pub open spec fn limits_spec(s: Seq<UserNutrientLimit>, uid: i32) -> Nutrition {
    Nutrition {
        calories: limit_for(s, uid, CALORIES_ID) as i64,
        carbs: limit_for(s, uid, CARBS_ID) as i64,
        fat: limit_for(s, uid, FAT_ID) as i64,
        phosphorus: limit_for(s, uid, PHOSPHORUS_ID) as i64,
        potassium: limit_for(s, uid, POTASSIUM_ID) as i64,
        protein: limit_for(s, uid, PROTEIN_ID) as i64,
        sodium: limit_for(s, uid, SODIUM_ID) as i64,
    }
}

/// A stored limit is an `i64` value or zero, so it always fits.
proof fn lemma_limit_for_fits(s: Seq<UserNutrientLimit>, uid: i32, nid: i32)
    ensures
        i64::MIN <= limit_for(s, uid, nid) <= i64::MAX,
    decreases s.len(),
{
    if s.len() > 0 {
        lemma_limit_for_fits(s.drop_last(), uid, nid);
    }
}

proof fn lemma_sum_quantity_bound(s: Seq<RecipeNutrient>, rid: i32, nid: i32)
    requires
        quantities_bounded(s),
    ensures
        -(s.len() as int) * MAX_QUANTITY <= sum_quantity(s, rid, nid) <= (s.len() as int)
            * MAX_QUANTITY,
    decreases s.len(),
{
    if s.len() > 0 {
        assert(quantities_bounded(s.drop_last())) by {
            assert(forall|i: int|
                0 <= i < s.len() - 1 ==> #[trigger] s.drop_last()[i].quantity == s[i].quantity);
        }
        lemma_sum_quantity_bound(s.drop_last(), rid, nid);
    }
}

/// The nutrition profile of one recipe: each nutrient summed independently over
/// the rows that carry its own nutrient id.
pub fn recipe_nutrition(rows: &Vec<RecipeNutrient>, recipe_id: i32) -> (r: Nutrition)
    requires
        quantities_bounded(rows@),
        rows@.len() <= MAX_NUTRIENT_ROWS,
    ensures
        r.calories == sum_quantity(rows@, recipe_id, CALORIES_ID),
        r.carbs == sum_quantity(rows@, recipe_id, CARBS_ID),
        r.fat == sum_quantity(rows@, recipe_id, FAT_ID),
        r.phosphorus == sum_quantity(rows@, recipe_id, PHOSPHORUS_ID),
        r.potassium == sum_quantity(rows@, recipe_id, POTASSIUM_ID),
        r.protein == sum_quantity(rows@, recipe_id, PROTEIN_ID),
        r.sodium == sum_quantity(rows@, recipe_id, SODIUM_ID),
        r == nutrition_spec(rows@, recipe_id),
{
    let mut r = Nutrition {
        calories: 0,
        carbs: 0,
        fat: 0,
        phosphorus: 0,
        potassium: 0,
        protein: 0,
        sodium: 0,
    };
    let mut i: usize = 0;
    while i < rows.len()
        invariant
            i <= rows@.len(),
            rows@.len() <= MAX_NUTRIENT_ROWS,
            quantities_bounded(rows@),
            r.calories == sum_quantity(rows@.take(i as int), recipe_id, CALORIES_ID),
            r.carbs == sum_quantity(rows@.take(i as int), recipe_id, CARBS_ID),
            r.fat == sum_quantity(rows@.take(i as int), recipe_id, FAT_ID),
            r.phosphorus == sum_quantity(rows@.take(i as int), recipe_id, PHOSPHORUS_ID),
            r.potassium == sum_quantity(rows@.take(i as int), recipe_id, POTASSIUM_ID),
            r.protein == sum_quantity(rows@.take(i as int), recipe_id, PROTEIN_ID),
            r.sodium == sum_quantity(rows@.take(i as int), recipe_id, SODIUM_ID),
        decreases rows@.len() - i,
    {
        let row = rows[i];
        proof {
            assert(quantities_bounded(rows@.take(i as int))) by {
                assert(forall|k: int|
                    0 <= k < i ==> #[trigger] rows@.take(i as int)[k].quantity
                        == rows@[k].quantity);
            }
            lemma_sum_quantity_bound(rows@.take(i as int), recipe_id, CALORIES_ID);
            lemma_sum_quantity_bound(rows@.take(i as int), recipe_id, CARBS_ID);
            lemma_sum_quantity_bound(rows@.take(i as int), recipe_id, FAT_ID);
            lemma_sum_quantity_bound(rows@.take(i as int), recipe_id, PHOSPHORUS_ID);
            lemma_sum_quantity_bound(rows@.take(i as int), recipe_id, POTASSIUM_ID);
            lemma_sum_quantity_bound(rows@.take(i as int), recipe_id, PROTEIN_ID);
            lemma_sum_quantity_bound(rows@.take(i as int), recipe_id, SODIUM_ID);
            assert(rows@.take(i + 1).drop_last() =~= rows@.take(i as int));
            assert(rows@.take(i + 1).last() == rows@[i as int]);
        }
        if row.nutrient_id == CALORIES_ID && row.recipe_id == recipe_id {
            r.calories = r.calories + row.quantity;
        } else if row.nutrient_id == CARBS_ID && row.recipe_id == recipe_id {
            r.carbs = r.carbs + row.quantity;
        } else if row.nutrient_id == FAT_ID && row.recipe_id == recipe_id {
            r.fat = r.fat + row.quantity;
        } else if row.nutrient_id == PHOSPHORUS_ID && row.recipe_id == recipe_id {
            r.phosphorus = r.phosphorus + row.quantity;
        } else if row.nutrient_id == POTASSIUM_ID && row.recipe_id == recipe_id {
            r.potassium = r.potassium + row.quantity;
        } else if row.nutrient_id == PROTEIN_ID && row.recipe_id == recipe_id {
            r.protein = r.protein + row.quantity;
        } else if row.nutrient_id == SODIUM_ID && row.recipe_id == recipe_id {
            r.sodium = r.sodium + row.quantity;
        }
        i = i + 1;
    }
    proof {
        assert(rows@.take(rows@.len() as int) =~= rows@);
        lemma_sum_quantity_bound(rows@, recipe_id, CALORIES_ID);
        lemma_sum_quantity_bound(rows@, recipe_id, CARBS_ID);
        lemma_sum_quantity_bound(rows@, recipe_id, FAT_ID);
        lemma_sum_quantity_bound(rows@, recipe_id, PHOSPHORUS_ID);
        lemma_sum_quantity_bound(rows@, recipe_id, POTASSIUM_ID);
        lemma_sum_quantity_bound(rows@, recipe_id, PROTEIN_ID);
        lemma_sum_quantity_bound(rows@, recipe_id, SODIUM_ID);
    }
    r
}

/// The daily nutrient limits of one user, one field per known nutrient id;
/// rows with an unknown or null nutrient id are ignored.
pub fn user_limits(rows: &Vec<UserNutrientLimit>, user_id: i32) -> (r: Nutrition)
    ensures
        r.calories == limit_for(rows@, user_id, CALORIES_ID),
        r.carbs == limit_for(rows@, user_id, CARBS_ID),
        r.fat == limit_for(rows@, user_id, FAT_ID),
        r.phosphorus == limit_for(rows@, user_id, PHOSPHORUS_ID),
        r.potassium == limit_for(rows@, user_id, POTASSIUM_ID),
        r.protein == limit_for(rows@, user_id, PROTEIN_ID),
        r.sodium == limit_for(rows@, user_id, SODIUM_ID),
        r == limits_spec(rows@, user_id),
{
    let mut r = Nutrition {
        calories: 0,
        carbs: 0,
        fat: 0,
        phosphorus: 0,
        potassium: 0,
        protein: 0,
        sodium: 0,
    };
    let mut i: usize = 0;
    while i < rows.len()
        invariant
            i <= rows@.len(),
            r.calories == limit_for(rows@.take(i as int), user_id, CALORIES_ID),
            r.carbs == limit_for(rows@.take(i as int), user_id, CARBS_ID),
            r.fat == limit_for(rows@.take(i as int), user_id, FAT_ID),
            r.phosphorus == limit_for(rows@.take(i as int), user_id, PHOSPHORUS_ID),
            r.potassium == limit_for(rows@.take(i as int), user_id, POTASSIUM_ID),
            r.protein == limit_for(rows@.take(i as int), user_id, PROTEIN_ID),
            r.sodium == limit_for(rows@.take(i as int), user_id, SODIUM_ID),
        decreases rows@.len() - i,
    {
        let row = rows[i];
        proof {
            assert(rows@.take(i + 1).drop_last() =~= rows@.take(i as int));
            assert(rows@.take(i + 1).last() == rows@[i as int]);
        }
        if row.user_id == user_id {
            let value = match row.nutrient_limit {
                Some(v) => v,
                None => 0,
            };
            match row.nutrient_id {
                Some(1) => r.calories = value,
                Some(2) => r.carbs = value,
                Some(3) => r.fat = value,
                Some(4) => r.phosphorus = value,
                Some(5) => r.potassium = value,
                Some(6) => r.protein = value,
                Some(7) => r.sodium = value,
                _ => (),
            }
        }
        i = i + 1;
    }
    proof {
        assert(rows@.take(rows@.len() as int) =~= rows@);
        lemma_limit_for_fits(rows@, user_id, CALORIES_ID);
        lemma_limit_for_fits(rows@, user_id, CARBS_ID);
        lemma_limit_for_fits(rows@, user_id, FAT_ID);
        lemma_limit_for_fits(rows@, user_id, PHOSPHORUS_ID);
        lemma_limit_for_fits(rows@, user_id, POTASSIUM_ID);
        lemma_limit_for_fits(rows@, user_id, PROTEIN_ID);
        lemma_limit_for_fits(rows@, user_id, SODIUM_ID);
    }
    r
}

} // verus!
