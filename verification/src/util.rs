//! Schemas as the child wants them.

use crate::json::{lemma_array_view, lemma_object_view, members_model, Json, JsonModel};
use crate::strings::same;
use crate::views::models;
use vstd::prelude::*;

verus! {

/// Whether a member of this name only describes a schema and is left out of
/// what the child is given.
pub open spec fn is_metadata(key: Seq<char>) -> bool {
    key == "title"@ || key == "description"@ || key == "$schema"@ || key == "format"@
}

/// The first `n` of `members` without those that only describe, each with
/// its value stripped.
pub open spec fn strip_first(members: Seq<(Seq<char>, JsonModel)>, n: nat) -> Seq<
    (Seq<char>, JsonModel),
>
    decreases members, n,
{
    if n == 0 || n > members.len() {
        Seq::empty()
    } else {
        let rest = strip_first(members, (n - 1) as nat);
        let member = members[n - 1];
        if is_metadata(member.0) {
            rest
        } else {
            rest.push((member.0, stripped(member.1)))
        }
    }
}

/// The schema `j` without the members that only describe it, at every
/// depth: in every object, and in every element of every array.
pub open spec fn stripped(j: JsonModel) -> JsonModel
    decreases j, 0nat,
{
    match j {
        JsonModel::Object(members) => JsonModel::Object(strip_first(members, members.len())),
        JsonModel::Array(items) => JsonModel::Array(
            Seq::new(
                items.len(),
                |i: int|
                    if 0 <= i < items.len() {
                        stripped(items[i])
                    } else {
                        JsonModel::Null
                    },
            ),
        ),
        other => other,
    }
}

/// Whether a member of the name `key` only describes a schema.
pub fn is_metadata_key(key: &str) -> (r: bool)
    ensures
        r == is_metadata(key@),
{
    same(key, "title") || same(key, "description") || same(key, "$schema") || same(key, "format")
}

/// The schema `value` without the members that only describe it.
pub fn strip_schema_metadata(value: &Json) -> (r: Json)
    ensures
        r@ == stripped(value@),
    decreases *value,
{
    match value {
        Json::Object(members) => {
            proof {
                lemma_object_view(*members);
            }
            let ghost all = members_model(members@);
            let mut out: Vec<(String, Json)> = Vec::new();
            let mut i: usize = 0;
            proof {
                assert(members_model(out@) =~= strip_first(all, 0));
            }
            while i < members.len()
                invariant
                    i <= members.len(),
                    *value is Object,
                    value->Object_0 == *members,
                    all == members_model(members@),
                    members_model(out@) == strip_first(all, i as nat),
                decreases members.len() - i,
            {
                proof {
                    assert(decreases_to!(*value => value->Object_0));
                    assert(decreases_to!(*members => members[i as int]));
                    assert(decreases_to!(members[i as int] => members[i as int].1));
                    assert(all[i as int] == (members[i as int].0@, members[i as int].1@));
                }
                if !is_metadata_key(members[i].0.as_str()) {
                    let entry = (members[i].0.clone(), strip_schema_metadata(&members[i].1));
                    proof {
                        crate::json::lemma_members_push(out@, entry);
                    }
                    out.push(entry);
                }
                i = i + 1;
            }
            proof {
                lemma_object_view(out);
            }
            Json::Object(out)
        },
        Json::Array(items) => {
            proof {
                lemma_array_view(*items);
            }
            let mut out: Vec<Json> = Vec::new();
            let mut i: usize = 0;
            while i < items.len()
                invariant
                    i <= items.len(),
                    *value is Array,
                    value->Array_0 == *items,
                    out.len() == i,
                    forall|k: int| 0 <= k < i ==> out[k]@ == stripped(items[k]@),
                decreases items.len() - i,
            {
                proof {
                    assert(decreases_to!(*value => value->Array_0));
                    assert(decreases_to!(*items => items[i as int]));
                }
                out.push(strip_schema_metadata(&items[i]));
                i = i + 1;
            }
            proof {
                lemma_array_view(out);
                assert(models(out@) =~= stripped(value@)->Array_0);
            }
            Json::Array(out)
        },
        other => other.clone(),
    }
}

} // verus!
