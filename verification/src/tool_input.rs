//! The arguments of a tool call.

use crate::json::{lemma_object_view, members_model, Json, JsonModel};
use crate::strings::{names_of, position, upsert};
use crate::views::{model_ref, model_str, models};
use vstd::prelude::*;

verus! {

/// The arguments of a tool call: a JSON value, as a rule an object.
#[derive(Debug)]
pub struct ToolInput(pub Json);

impl View for ToolInput {
    type V = JsonModel;

    open spec fn view(&self) -> JsonModel {
        self.0@
    }
}

impl JsonModel {
    /// The names of the members of an object; none for any other value.
    pub open spec fn keys(self) -> Seq<Seq<char>> {
        match self {
            JsonModel::Object(members) => Seq::new(members.len(), |i: int| members[i].0),
            _ => Seq::empty(),
        }
    }

    /// The object with `value` as its member `key`: in place of the first
    /// member of that name, or as a new last member.  Any other value is
    /// left as it is.
    pub open spec fn with_member(self, key: Seq<char>, value: JsonModel) -> JsonModel {
        match self {
            JsonModel::Object(members) => match position(self.keys(), key) {
                Some(i) => JsonModel::Object(members.update(i, (key, value))),
                None => JsonModel::Object(members.push((key, value))),
            },
            other => other,
        }
    }

    /// The strings in the array member `key`.
    pub open spec fn text_list_at(self, key: Seq<char>) -> Option<Seq<Seq<char>>> {
        match self.get(key) {
            Some(JsonModel::Array(items)) => crate::json::read_texts(items),
            _ => None,
        }
    }
}

impl ToolInput {
    pub fn new(value: Json) -> (r: ToolInput)
        ensures
            r@ == value@,
    {
        ToolInput(value)
    }

    pub fn from_value(value: Json) -> (r: ToolInput)
        ensures
            r@ == value@,
    {
        ToolInput(value)
    }

    /// The arguments without any argument: the empty object.
    pub fn empty() -> (r: ToolInput)
        ensures
            r@ == JsonModel::empty_object(),
    {
        ToolInput(Json::empty_object())
    }

    pub fn as_value(&self) -> (r: &Json)
        ensures
            r@ == self@,
    {
        &self.0
    }

    pub fn as_json(&self) -> (r: &Json)
        ensures
            r@ == self@,
    {
        &self.0
    }

    pub fn into_value(self) -> (r: Json)
        ensures
            r@ == self@,
    {
        self.0
    }

    pub fn into_json(self) -> (r: Json)
        ensures
            r@ == self@,
    {
        self.0
    }

    /// The string argument `key`.
    pub fn get_string(&self, key: &str) -> (r: Option<&str>)
        ensures
            model_str(r) == self@.text_at(key@),
    {
        self.0.str_at(key)
    }

    /// The integer argument `key`.
    pub fn get_i64(&self, key: &str) -> (r: Option<i64>)
        ensures
            r == self@.int_at(key@),
    {
        self.0.i64_at(key)
    }

    /// The boolean argument `key`.
    pub fn get_bool(&self, key: &str) -> (r: Option<bool>)
        ensures
            r == self@.bool_at(key@),
    {
        self.0.bool_at(key)
    }

    /// The strings of the array argument `key`; `None` where it is missing
    /// or holds anything but strings.
    pub fn get_string_list(&self, key: &str) -> (r: Option<Vec<String>>)
        ensures
            match r {
                Some(v) => self@.text_list_at(key@) == Some(models(v@)),
                None => self@.text_list_at(key@) is None,
            },
    {
        match self.0.get(key) {
            Some(Json::Array(items)) => {
                proof {
                    crate::json::lemma_array_view(*items);
                }
                Json::strings_of(items)
            },
            _ => None,
        }
    }

    /// The argument `key`.
    pub fn get(&self, key: &str) -> (r: Option<&Json>)
        ensures
            model_ref(r) == self@.get(key@),
    {
        self.0.get(key)
    }

    /// The names of the arguments, in order.
    pub fn keys(&self) -> (r: Vec<&str>)
        ensures
            r@.len() == self@.keys().len(),
            forall|i: int| 0 <= i < r@.len() ==> r@[i]@ == #[trigger] self@.keys()[i],
    {
        let mut out: Vec<&str> = Vec::new();
        match &self.0 {
            Json::Object(members) => {
                proof {
                    lemma_object_view(*members);
                }
                let mut i: usize = 0;
                while i < members.len()
                    invariant
                        i <= members.len(),
                        out.len() == i,
                        self@ == JsonModel::Object(members_model(members@)),
                        forall|k: int| 0 <= k < i ==> out[k]@ == members[k].0@,
                    decreases members.len() - i,
                {
                    out.push(members[i].0.as_str());
                    i = i + 1;
                }
            },
            _ => {},
        }
        out
    }

    /// Whether there is no argument: an object without members, or no
    /// object at all.
    pub fn is_empty(&self) -> (r: bool)
        ensures
            r == (self@.keys().len() == 0),
    {
        match &self.0 {
            Json::Object(members) => {
                proof {
                    lemma_object_view(*members);
                }
                members.len() == 0
            },
            _ => true,
        }
    }

    /// The arguments with `value` as the argument `key`.
    pub fn set(self, key: &str, value: Json) -> (r: ToolInput)
        ensures
            r@ == self@.with_member(key@, value@),
    {
        match self.0 {
            Json::Object(members) => {
                let mut members = members;
                let ghost before = members;
                proof {
                    lemma_object_view(before);
                    assert(names_of(before@) =~= self@.keys());
                }
                let name = key.to_owned();
                upsert(&mut members, name, value);
                proof {
                    lemma_object_view(members);
                    match position(names_of(before@), key@) {
                        Some(i) => {
                            crate::strings::lemma_position(names_of(before@), key@);
                            assert(members_model(members@) =~= members_model(before@).update(
                                i,
                                (key@, value@),
                            ));
                        },
                        None => {
                            assert(members_model(members@) =~= members_model(before@).push(
                                (key@, value@),
                            ));
                        },
                    }
                }
                ToolInput(Json::Object(members))
            },
            other => ToolInput(other),
        }
    }

    /// The arguments with the string `value` as the argument `key`.
    pub fn set_string(self, key: &str, value: &str) -> (r: ToolInput)
        ensures
            r@ == self@.with_member(key@, JsonModel::Text(value@)),
    {
        self.set(key, Json::text(value))
    }

    /// The arguments with the integer `value` as the argument `key`.
    pub fn set_i64(self, key: &str, value: i64) -> (r: ToolInput)
        ensures
            r@ == self@.with_member(key@, JsonModel::Int(value)),
    {
        self.set(key, Json::integer(value))
    }

    /// The arguments with the boolean `value` as the argument `key`.
    pub fn set_bool(self, key: &str, value: bool) -> (r: ToolInput)
        ensures
            r@ == self@.with_member(key@, JsonModel::Bool(value)),
    {
        self.set(key, Json::boolean(value))
    }

    /// The arguments that `pairs` name, each a string, set one after
    /// another.
    pub fn from_pairs(pairs: &Vec<(String, String)>) -> (r: ToolInput)
        ensures
            r@ == pairs_model(pairs@),
    {
        let mut out = ToolInput::empty();
        let mut i: usize = 0;
        proof {
            assert(pairs@.take(0) =~= Seq::empty());
        }
        while i < pairs.len()
            invariant
                i <= pairs.len(),
                out@ == pairs_model(pairs@.take(i as int)),
            decreases pairs.len() - i,
        {
            proof {
                let next = pairs@.take(i + 1);
                assert(next.drop_last() =~= pairs@.take(i as int));
                assert(next.last() == pairs@[i as int]);
            }
            out = out.set_string(pairs[i].0.as_str(), pairs[i].1.as_str());
            i = i + 1;
        }
        proof {
            assert(pairs@.take(pairs.len() as int) =~= pairs@);
        }
        out
    }
}

/// The object that has each pair of `pairs` as a string member, set one
/// after another.
pub open spec fn pairs_model(pairs: Seq<(String, String)>) -> JsonModel
    decreases pairs.len(),
{
    if pairs.len() == 0 {
        JsonModel::empty_object()
    } else {
        pairs_model(pairs.drop_last()).with_member(
            pairs.last().0@,
            JsonModel::Text(pairs.last().1@),
        )
    }
}

impl Clone for ToolInput {
    fn clone(&self) -> (r: ToolInput)
        ensures
            r@ == self@,
    {
        ToolInput(self.0.clone())
    }
}

impl Default for ToolInput {
    fn default() -> (r: ToolInput)
        ensures
            r@ == JsonModel::Null,
    {
        ToolInput(Json::Null)
    }
}

} // verus!
