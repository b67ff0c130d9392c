//! Reshaping the external planner's reply: its top-level `user_id` field is
//! renamed to `user_line_id`, everything else passes through untouched.
//!
//! A reply is handled as its sequence of top-level fields; the field values
//! themselves are opaque JSON carried through unchanged.

use vstd::prelude::*;
use serde_json::Value;
use crate::text::str_eq;

verus! {

#[verifier::external_type_specification]
#[verifier::external_body]
pub struct ExValue(Value);

/// Relies on serde_json::Value::clone, which the crate derives: a deep copy
/// equal to the original value.
pub assume_specification[ <Value as Clone>::clone ](v: &Value) -> (r: Value)
    ensures
        r == *v,
;

/// JSON object fields: each key appears once.
pub open spec fn keys_unique(s: Seq<(String, Value)>) -> bool {
    forall|i: int, j: int|
        0 <= i < j < s.len() ==> (#[trigger] s[i]).0@ != (#[trigger] s[j]).0@
}

/// Whether some field carries the given key.
pub open spec fn has_key(s: Seq<(String, Value)>, k: Seq<char>) -> bool {
    exists|i: int| 0 <= i < s.len() && (#[trigger] s[i]).0@ == k
}

/// The fields that survive the rename untouched: everything not keyed
/// `user_id` (which moves) or `user_line_id` (which the move overwrites).
pub open spec fn strip_renamed(s: Seq<(String, Value)>) -> Seq<(String, Value)>
    decreases s.len(),
{
    if s.len() == 0 {
        Seq::empty()
    } else {
        let rest = strip_renamed(s.drop_last());
        if s.last().0@ == "user_id"@ || s.last().0@ == "user_line_id"@ {
            rest
        } else {
            rest.push(s.last())
        }
    }
}

/// Finds the first field keyed `user_id`.
fn find_user_id_field(fields: &Vec<(String, Value)>) -> (r: Option<usize>)
    ensures
        match r {
            Some(j) => j < fields@.len() && fields@[j as int].0@ == "user_id"@,
            None => !has_key(fields@, "user_id"@),
        },
{
    let mut i: usize = 0;
    while i < fields.len()
        invariant
            i <= fields@.len(),
            forall|k: int| 0 <= k < i ==> (#[trigger] fields@[k]).0@ != "user_id"@,
        decreases fields@.len() - i,
    {
        if str_eq(fields[i].0.as_str(), "user_id") {
            return Some(i);
        }
        i = i + 1;
    }
    None
}

/// Renames the reply's top-level `user_id` field to `user_line_id`.
///
/// When no `user_id` field exists the fields come back unchanged. Otherwise
/// the `user_id` field is removed, any existing `user_line_id` field gives
/// way, every other field keeps its key and value and order, and one
/// `user_line_id` field carrying exactly the original `user_id` value stands
/// at the end.
pub fn rename_user_id(fields: Vec<(String, Value)>) -> (r: Vec<(String, Value)>)
    requires
        keys_unique(fields@),
    ensures
        !has_key(fields@, "user_id"@) ==> r@ == fields@,
        has_key(fields@, "user_id"@) ==> {
            &&& r@.len() == strip_renamed(fields@).len() + 1
            &&& r@.drop_last() == strip_renamed(fields@)
            &&& r@.last().0@ == "user_line_id"@
            &&& exists|i: int|
                0 <= i < fields@.len() && (#[trigger] fields@[i]).0@ == "user_id"@
                    && r@.last().1 == fields@[i].1
        },
{
    let j = match find_user_id_field(&fields) {
        Some(j) => j,
        None => {
            return fields;
        },
    };
    let captured = fields[j].1.clone();
    let mut out: Vec<(String, Value)> = Vec::new();
    let mut i: usize = 0;
    while i < fields.len()
        invariant
            i <= fields@.len(),
            out@ == strip_renamed(fields@.take(i as int)),
        decreases fields@.len() - i,
    {
        proof {
            assert(fields@.take(i + 1).drop_last() =~= fields@.take(i as int));
            assert(fields@.take(i + 1).last() == fields@[i as int]);
        }
        let keep = !str_eq(fields[i].0.as_str(), "user_id") && !str_eq(
            fields[i].0.as_str(),
            "user_line_id",
        );
        if keep {
            let pair = (fields[i].0.clone(), fields[i].1.clone());
            proof {
                assert(pair == fields@[i as int]);
            }
            out.push(pair);
            proof {
                assert(out@ =~= strip_renamed(fields@.take(i + 1)));
            }
        }
        i = i + 1;
    }
    proof {
        assert(fields@.take(fields@.len() as int) =~= fields@);
    }
    out.push((String::from_str("user_line_id"), captured));
    proof {
        assert(out@.drop_last() =~= strip_renamed(fields@));
        assert(fields@[j as int].0@ == "user_id"@);
        assert(out@.last().1 == fields@[j as int].1);
    }
    out
}

/// Renaming alters no other field: any field keyed neither `user_id` nor
/// `user_line_id` survives the strip with its key and value intact.
pub proof fn lemma_strip_keeps_others(s: Seq<(String, Value)>, i: int)
    requires
        0 <= i < s.len(),
        s[i].0@ != "user_id"@,
        s[i].0@ != "user_line_id"@,
    ensures
        strip_renamed(s).contains(s[i]),
    decreases s.len(),
{
    if i == s.len() - 1 {
        let stripped = strip_renamed(s);
        assert(stripped == strip_renamed(s.drop_last()).push(s.last()));
        assert(stripped[stripped.len() - 1] == s[i]);
    } else {
        assert(s.drop_last()[i] == s[i]);
        lemma_strip_keeps_others(s.drop_last(), i);
        let rest = strip_renamed(s.drop_last());
        let n = choose|n: int| 0 <= n < rest.len() && rest[n] == s[i];
        if s.last().0@ == "user_id"@ || s.last().0@ == "user_line_id"@ {
            assert(strip_renamed(s)[n] == s[i]);
        } else {
            assert(strip_renamed(s)[n] == s[i]);
        }
    }
}

/// Renaming invents no field: every field that survives the strip stood in
/// the input, under a key that is neither `user_id` nor `user_line_id`.
pub proof fn lemma_strip_from_input(s: Seq<(String, Value)>, j: int)
    requires
        0 <= j < strip_renamed(s).len(),
    ensures
        exists|i: int|
            0 <= i < s.len() && #[trigger] s[i] == strip_renamed(s)[j] && s[i].0@ != "user_id"@
                && s[i].0@ != "user_line_id"@,
    decreases s.len(),
{
    let rest = strip_renamed(s.drop_last());
    if s.last().0@ == "user_id"@ || s.last().0@ == "user_line_id"@ {
        lemma_strip_from_input(s.drop_last(), j);
        let i = choose|i: int|
            0 <= i < s.drop_last().len() && #[trigger] s.drop_last()[i] == strip_renamed(
                s.drop_last(),
            )[j] && s.drop_last()[i].0@ != "user_id"@ && s.drop_last()[i].0@ != "user_line_id"@;
        assert(s[i] == strip_renamed(s)[j]);
    } else {
        if j < rest.len() {
            lemma_strip_from_input(s.drop_last(), j);
            let i = choose|i: int|
                0 <= i < s.drop_last().len() && #[trigger] s.drop_last()[i] == strip_renamed(
                    s.drop_last(),
                )[j] && s.drop_last()[i].0@ != "user_id"@ && s.drop_last()[i].0@
                    != "user_line_id"@;
            assert(s[i] == strip_renamed(s)[j]);
        } else {
            assert(strip_renamed(s)[j] == s.last());
            assert(s[s.len() - 1] == strip_renamed(s)[j]);
        }
    }
}

} // verus!
