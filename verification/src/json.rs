//! JSON values and their mathematical model.

use crate::strings::same;
use crate::views::{model_opt, model_ref, model_str, models};
use vstd::prelude::*;

verus! {

/// A JSON value.
///
/// A number that fits `i64` is an `Int`; any other number is a `Real`
/// holding its decimal text.  An object keeps its members in order.
#[derive(Debug, PartialEq, Eq)]
pub enum Json {
    Null,
    Bool(bool),
    Int(i64),
    Real(String),
    Text(String),
    Array(Vec<Json>),
    Object(Vec<(String, Json)>),
}

/// The mathematical value that a [`Json`] stands for.
pub enum JsonModel {
    Null,
    Bool(bool),
    Int(i64),
    Real(Seq<char>),
    Text(Seq<char>),
    Array(Seq<JsonModel>),
    Object(Seq<(Seq<char>, JsonModel)>),
}

/// The mathematical value of `j`.
pub open spec fn model_of(j: Json) -> JsonModel
    decreases j,
{
    match j {
        Json::Null => JsonModel::Null,
        Json::Bool(b) => JsonModel::Bool(b),
        Json::Int(i) => JsonModel::Int(i),
        Json::Real(s) => JsonModel::Real(s@),
        Json::Text(s) => JsonModel::Text(s@),
        Json::Array(a) => JsonModel::Array(
            Seq::new(
                a.len() as nat,
                |i: int|
                    if 0 <= i < a.len() {
                        model_of(a[i])
                    } else {
                        JsonModel::Null
                    },
            ),
        ),
        Json::Object(o) => JsonModel::Object(
            Seq::new(
                o.len() as nat,
                |i: int|
                    if 0 <= i < o.len() {
                        (o[i].0@, model_of(o[i].1))
                    } else {
                        (Seq::empty(), JsonModel::Null)
                    },
            ),
        ),
    }
}

impl View for Json {
    type V = JsonModel;

    open spec fn view(&self) -> JsonModel {
        model_of(*self)
    }
}

/// The models of a sequence of object members.
pub open spec fn members_model(members: Seq<(String, Json)>) -> Seq<(Seq<char>, JsonModel)> {
    Seq::new(members.len(), |i: int| (members[i].0@, members[i].1@))
}

/// The value of the first member named `key`, if there is one.
pub open spec fn lookup(members: Seq<(Seq<char>, JsonModel)>, key: Seq<char>) -> Option<JsonModel>
    decreases members.len(),
{
    if members.len() == 0 {
        None
    } else if members[0].0 == key {
        Some(members[0].1)
    } else {
        lookup(members.skip(1), key)
    }
}

impl JsonModel {
    /// The member `key` of an object; `None` for a missing member and for
    /// a value that is no object.
    pub open spec fn get(self, key: Seq<char>) -> Option<JsonModel> {
        match self {
            JsonModel::Object(members) => lookup(members, key),
            _ => None,
        }
    }

    /// The characters of a string value.
    pub open spec fn text(self) -> Option<Seq<char>> {
        match self {
            JsonModel::Text(s) => Some(s),
            _ => None,
        }
    }

    /// The truth value of a boolean value.
    pub open spec fn boolean(self) -> Option<bool> {
        match self {
            JsonModel::Bool(b) => Some(b),
            _ => None,
        }
    }

    /// The number of an integer value.
    pub open spec fn integer(self) -> Option<i64> {
        match self {
            JsonModel::Int(i) => Some(i),
            _ => None,
        }
    }

    /// The elements of an array value.
    pub open spec fn items(self) -> Option<Seq<JsonModel>> {
        match self {
            JsonModel::Array(a) => Some(a),
            _ => None,
        }
    }

    /// The member `key` where it is present and not `null`.
    pub open spec fn present(self, key: Seq<char>) -> Option<JsonModel> {
        match self.get(key) {
            Some(JsonModel::Null) => None,
            other => other,
        }
    }

    /// The characters of the string member `key`.
    pub open spec fn text_at(self, key: Seq<char>) -> Option<Seq<char>> {
        match self.get(key) {
            Some(JsonModel::Text(s)) => Some(s),
            _ => None,
        }
    }

    /// The truth value of the boolean member `key`.
    pub open spec fn bool_at(self, key: Seq<char>) -> Option<bool> {
        match self.get(key) {
            Some(JsonModel::Bool(b)) => Some(b),
            _ => None,
        }
    }

    /// The number of the integer member `key`.
    pub open spec fn int_at(self, key: Seq<char>) -> Option<i64> {
        match self.get(key) {
            Some(JsonModel::Int(i)) => Some(i),
            _ => None,
        }
    }

    /// The optional string member `key`: `Some(None)` where it is missing
    /// or `null`, and `None` where it holds anything but a string.
    pub open spec fn opt_text_at(self, key: Seq<char>) -> Option<Option<Seq<char>>> {
        match self.get(key) {
            None | Some(JsonModel::Null) => Some(None),
            Some(JsonModel::Text(s)) => Some(Some(s)),
            _ => None,
        }
    }

    /// The optional boolean member `key`, read as `opt_text_at` reads a
    /// string.
    pub open spec fn opt_bool_at(self, key: Seq<char>) -> Option<Option<bool>> {
        match self.get(key) {
            None | Some(JsonModel::Null) => Some(None),
            Some(JsonModel::Bool(b)) => Some(Some(b)),
            _ => None,
        }
    }

    /// The optional integer member `key`, read as `opt_text_at` reads a
    /// string.
    pub open spec fn opt_int_at(self, key: Seq<char>) -> Option<Option<i64>> {
        match self.get(key) {
            None | Some(JsonModel::Null) => Some(None),
            Some(JsonModel::Int(i)) => Some(Some(i)),
            _ => None,
        }
    }

    /// Whether this is a number.
    pub open spec fn is_number(self) -> bool {
        self is Int || self is Real
    }

    /// The object without members.
    pub open spec fn empty_object() -> JsonModel {
        JsonModel::Object(Seq::empty())
    }
}

/// The model of an array is the sequence of its elements' models.
pub proof fn lemma_array_view(items: Vec<Json>)
    ensures
        Json::Array(items)@ == JsonModel::Array(models(items@)),
{
    assert(Json::Array(items)@->Array_0 =~= models(items@));
}

/// The model of an object is the sequence of its members' models.
pub proof fn lemma_object_view(members: Vec<(String, Json)>)
    ensures
        Json::Object(members)@ == JsonModel::Object(members_model(members@)),
{
    let v = Json::Object(members)@;
    match v {
        JsonModel::Object(lhs) => {
            let rhs = members_model(members@);
            assert(rhs.len() == members.len());
            assert(lhs.len() == members.len());
            assert forall|i: int| 0 <= i < lhs.len() implies lhs[i] == rhs[i] by {
                assert(members@[i] == members[i]);
            }
            assert(lhs =~= rhs);
        },
        _ => {
            assert(false);
        },
    }
}

/// Appending a member appends its model.
pub proof fn lemma_members_push(members: Seq<(String, Json)>, member: (String, Json))
    ensures
        members_model(members.push(member)) == members_model(members).push((member.0@, member.1@)),
{
    assert(members_model(members.push(member)) =~= members_model(members).push(
        (member.0@, member.1@),
    ));
}

/// The member `key: v` where `v` is present, and nothing where it is not.
pub open spec fn optional(key: Seq<char>, v: Option<JsonModel>) -> Seq<(Seq<char>, JsonModel)> {
    match v {
        Some(x) => seq![(key, x)],
        None => Seq::empty(),
    }
}

/// Appends the member `key: value` to `members` where `value` is present.
pub fn put_opt(members: &mut Vec<(String, Json)>, key: &str, value: Option<Json>)
    ensures
        members_model(final(members)@) == members_model(old(members)@) + optional(
            key@,
            model_opt(value),
        ),
{
    match value {
        Some(v) => {
            put(members, key, v);
            proof {
                assert(members_model(old(members)@).push((key@, v@)) =~= members_model(
                    old(members)@,
                ) + optional(key@, model_opt(value)));
            }
        },
        None => {
            proof {
                assert(members_model(old(members)@) =~= members_model(old(members)@) + optional(
                    key@,
                    model_opt(value),
                ));
            }
        },
    }
}

/// An empty list of members, to be filled with `put`.
pub fn no_members() -> (r: Vec<(String, Json)>)
    ensures
        members_model(r@) == Seq::<(Seq<char>, JsonModel)>::empty(),
{
    let r: Vec<(String, Json)> = Vec::new();
    proof {
        assert(members_model(r@) =~= Seq::empty());
    }
    r
}

/// The string value of an optional text.
pub open spec fn opt_text(o: Option<Seq<char>>) -> Option<JsonModel> {
    match o {
        Some(s) => Some(JsonModel::Text(s)),
        None => None,
    }
}

/// The string value of an optional string.
pub fn opt_text_json(o: &Option<String>) -> (r: Option<Json>)
    ensures
        model_opt(r) == opt_text(model_opt(*o)),
{
    match o {
        Some(s) => Some(Json::text(s.as_str())),
        None => None,
    }
}

/// The string member `key` of `j`, or the empty string where there is none.
pub open spec fn text_or_empty(j: JsonModel, key: Seq<char>) -> Seq<char> {
    match j.text_at(key) {
        Some(s) => s,
        None => Seq::empty(),
    }
}

/// The member `key` of `j`, or `null` where there is none.
pub open spec fn member_or_null(j: JsonModel, key: Seq<char>) -> JsonModel {
    match j.get(key) {
        Some(v) => v,
        None => JsonModel::Null,
    }
}

/// The string member `key` of `j`, or the empty string where there is none.
pub fn string_or_empty(j: &Json, key: &str) -> (r: String)
    ensures
        r@ == text_or_empty(j@, key@),
{
    match j.str_at(key) {
        Some(s) => s.to_owned(),
        None => String::new(),
    }
}

/// A copy of the member `key` of `j`, or `null` where there is none.
pub fn value_or_null(j: &Json, key: &str) -> (r: Json)
    ensures
        r@ == member_or_null(j@, key@),
{
    match j.get(key) {
        Some(v) => v.clone(),
        None => Json::Null,
    }
}

/// Appends the member `key: value` to `members`.
pub fn put(members: &mut Vec<(String, Json)>, key: &str, value: Json)
    ensures
        members_model(final(members)@) == members_model(old(members)@).push((key@, value@)),
{
    let name = key.to_owned();
    proof {
        lemma_members_push(members@, (name, value));
    }
    members.push((name, value));
}

impl Json {
    /// The string value `s`.
    pub fn text(s: &str) -> (r: Json)
        ensures
            r@ == JsonModel::Text(s@),
    {
        Json::Text(s.to_owned())
    }

    /// The integer value `i`.
    pub fn integer(i: i64) -> (r: Json)
        ensures
            r@ == JsonModel::Int(i),
    {
        Json::Int(i)
    }

    /// The boolean value `b`.
    pub fn boolean(b: bool) -> (r: Json)
        ensures
            r@ == JsonModel::Bool(b),
    {
        Json::Bool(b)
    }

    /// The value `null`.
    pub fn null() -> (r: Json)
        ensures
            r@ == JsonModel::Null,
    {
        Json::Null
    }

    /// The object with the members `members`, in their order.
    pub fn object(members: Vec<(String, Json)>) -> (r: Json)
        ensures
            r@ == JsonModel::Object(members_model(members@)),
    {
        proof {
            lemma_object_view(members);
        }
        Json::Object(members)
    }

    /// The array with the elements `items`.
    pub fn array(items: Vec<Json>) -> (r: Json)
        ensures
            r@ == JsonModel::Array(models(items@)),
    {
        proof {
            lemma_array_view(items);
        }
        Json::Array(items)
    }

    /// The object without members.
    pub fn empty_object() -> (r: Json)
        ensures
            r@ == JsonModel::empty_object(),
    {
        let members: Vec<(String, Json)> = Vec::new();
        proof {
            lemma_object_view(members);
            assert(members_model(members@) =~= Seq::empty());
        }
        Json::Object(members)
    }

    /// The member `key` of an object.
    pub fn get(&self, key: &str) -> (r: Option<&Json>)
        ensures
            match r {
                Some(j) => self@.get(key@) == Some(j@),
                None => self@.get(key@) is None,
            },
    {
        match self {
            Json::Object(members) => {
                proof {
                    lemma_object_view(*members);
                }
                let ghost all = members_model(members@);
                proof {
                    assert(all.skip(0) =~= all);
                }
                let mut i: usize = 0;
                while i < members.len()
                    invariant
                        i <= members.len(),
                        all == members_model(members@),
                        self@ == JsonModel::Object(all),
                        lookup(all, key@) == lookup(all.skip(i as int), key@),
                    decreases members.len() - i,
                {
                    proof {
                        assert(all.skip(i as int).len() > 0);
                        assert(all.skip(i as int)[0] == all[i as int]);
                        assert(all[i as int] == (members[i as int].0@, members[i as int].1@));
                        assert(all.skip(i as int).skip(1) =~= all.skip(i + 1));
                    }
                    if same(members[i].0.as_str(), key) {
                        proof {
                            assert(lookup(all.skip(i as int), key@) == Some(all[i as int].1));
                            assert(self@ == JsonModel::Object(all));
                        }
                        return Some(&members[i].1);
                    }
                    i = i + 1;
                }
                None
            },
            _ => None,
        }
    }

    /// The characters of a string value.
    pub fn as_str(&self) -> (r: Option<&str>)
        ensures
            match r {
                Some(s) => self@.text() == Some(s@),
                None => self@.text() is None,
            },
    {
        match self {
            Json::Text(s) => Some(s.as_str()),
            _ => None,
        }
    }

    /// The truth value of a boolean value.
    pub fn as_bool(&self) -> (r: Option<bool>)
        ensures
            r == self@.boolean(),
    {
        match self {
            Json::Bool(b) => Some(*b),
            _ => None,
        }
    }

    /// The number of an integer value.
    pub fn as_i64(&self) -> (r: Option<i64>)
        ensures
            r == self@.integer(),
    {
        match self {
            Json::Int(i) => Some(*i),
            _ => None,
        }
    }

    /// The elements of an array value.
    pub fn as_array(&self) -> (r: Option<&Vec<Json>>)
        ensures
            match r {
                Some(a) => self@.items() == Some(models(a@)),
                None => self@.items() is None,
            },
    {
        match self {
            Json::Array(a) => {
                proof {
                    lemma_array_view(*a);
                }
                Some(a)
            },
            _ => None,
        }
    }

    /// Whether this is a number.
    pub fn is_number(&self) -> (r: bool)
        ensures
            r == self@.is_number(),
    {
        match self {
            Json::Int(_) => true,
            Json::Real(_) => true,
            _ => false,
        }
    }

    /// Whether this is `null`.
    pub fn is_null(&self) -> (r: bool)
        ensures
            r == (self@ is Null),
    {
        match self {
            Json::Null => true,
            _ => false,
        }
    }

    /// The characters of the string member `key`.
    pub fn str_at(&self, key: &str) -> (r: Option<&str>)
        ensures
            match r {
                Some(s) => self@.text_at(key@) == Some(s@),
                None => self@.text_at(key@) is None,
            },
    {
        match self.get(key) {
            Some(j) => j.as_str(),
            None => None,
        }
    }

    /// The truth value of the boolean member `key`.
    pub fn bool_at(&self, key: &str) -> (r: Option<bool>)
        ensures
            r == self@.bool_at(key@),
    {
        match self.get(key) {
            Some(j) => j.as_bool(),
            None => None,
        }
    }

    /// The number of the integer member `key`.
    pub fn i64_at(&self, key: &str) -> (r: Option<i64>)
        ensures
            r == self@.int_at(key@),
    {
        match self.get(key) {
            Some(j) => j.as_i64(),
            None => None,
        }
    }

    /// The member `key` where it is present and not `null`.
    pub fn present(&self, key: &str) -> (r: Option<&Json>)
        ensures
            match r {
                Some(j) => self@.present(key@) == Some(j@),
                None => self@.present(key@) is None,
            },
    {
        match self.get(key) {
            Some(j) => if j.is_null() {
                None
            } else {
                Some(j)
            },
            None => None,
        }
    }
}

impl Json {
    /// The optional string member `key`.
    pub fn opt_str_at(&self, key: &str) -> (r: Option<Option<&str>>)
        ensures
            match r {
                Some(o) => self@.opt_text_at(key@) == Some(model_str(o)),
                None => self@.opt_text_at(key@) is None,
            },
    {
        match self.get(key) {
            None => Some(None),
            Some(Json::Null) => Some(None),
            Some(Json::Text(s)) => Some(Some(s.as_str())),
            Some(_) => None,
        }
    }

    /// The optional boolean member `key`.
    pub fn opt_bool_at(&self, key: &str) -> (r: Option<Option<bool>>)
        ensures
            r == self@.opt_bool_at(key@),
    {
        match self.get(key) {
            None => Some(None),
            Some(Json::Null) => Some(None),
            Some(Json::Bool(b)) => Some(Some(*b)),
            Some(_) => None,
        }
    }

    /// The optional integer member `key`.
    pub fn opt_i64_at(&self, key: &str) -> (r: Option<Option<i64>>)
        ensures
            r == self@.opt_int_at(key@),
    {
        match self.get(key) {
            None => Some(None),
            Some(Json::Null) => Some(None),
            Some(Json::Int(i)) => Some(Some(*i)),
            Some(_) => None,
        }
    }
}

/// A copy of an optional value.
pub fn clone_opt_json(o: &Option<Json>) -> (r: Option<Json>)
    ensures
        model_opt(r) == model_opt(*o),
{
    match o {
        Some(j) => Some(j.clone()),
        None => None,
    }
}

/// A copy of an optional value behind a reference.
pub fn copy_opt_json(o: Option<&Json>) -> (r: Option<Json>)
    ensures
        model_opt(r) == model_ref(o),
{
    match o {
        Some(j) => Some(j.clone()),
        None => None,
    }
}

/// What `read` makes of each element of `items`, in order; `None` where
/// it makes nothing of one of them.
pub open spec fn read_seq<T>(items: Seq<JsonModel>, read: spec_fn(JsonModel) -> Option<T>) -> Option<
    Seq<T>,
>
    decreases items.len(),
{
    if items.len() == 0 {
        Some(Seq::empty())
    } else {
        match (read_seq(items.drop_last(), read), read(items.last())) {
            (Some(front), Some(t)) => Some(front.push(t)),
            _ => None,
        }
    }
}

/// Where a prefix of `items` cannot be read, the whole cannot.
pub proof fn lemma_read_seq_prefix<T>(
    items: Seq<JsonModel>,
    read: spec_fn(JsonModel) -> Option<T>,
    n: int,
)
    requires
        0 <= n <= items.len(),
        read_seq(items.take(n), read) is None,
    ensures
        read_seq(items, read) is None,
    decreases items.len(),
{
    if n < items.len() {
        assert(items.drop_last().take(n) =~= items.take(n));
        lemma_read_seq_prefix(items.drop_last(), read, n);
    } else {
        assert(items.take(n) =~= items);
    }
}

/// Reading one more element appends what is read from it.
pub proof fn lemma_read_seq_step<T>(
    items: Seq<JsonModel>,
    read: spec_fn(JsonModel) -> Option<T>,
    n: int,
)
    requires
        0 <= n < items.len(),
    ensures
        read_seq(items.take(n + 1), read) == (match (
            read_seq(items.take(n), read),
            read(items[n]),
        ) {
            (Some(front), Some(t)) => Some(front.push(t)),
            _ => None,
        }),
{
    let next = items.take(n + 1);
    assert(next.drop_last() =~= items.take(n));
    assert(next.last() == items[n]);
}

/// A sequence is read element by element: the result has what is read from
/// each element at that element's place, and there is a result exactly where
/// every element can be read.
pub proof fn lemma_read_seq_each<T>(items: Seq<JsonModel>, read: spec_fn(JsonModel) -> Option<T>)
    ensures
        match read_seq(items, read) {
            Some(out) => out.len() == items.len() && forall|i: int|
                0 <= i < items.len() ==> read(items[i]) == Some(#[trigger] out[i]),
            None => exists|i: int| 0 <= i < items.len() && read(items[i]) is None,
        },
    decreases items.len(),
{
    if items.len() > 0 {
        lemma_read_seq_each(items.drop_last(), read);
        match read_seq(items.drop_last(), read) {
            Some(front) => {
                if read(items.last()) is None {
                    assert(read(items[items.len() - 1]) is None);
                }
            },
            None => {
                let i = choose|i: int|
                    0 <= i < items.drop_last().len() && read(items.drop_last()[i]) is None;
                assert(read(items[i]) is None);
            },
        }
    }
}

/// The string values that the elements of `items` are, if each is one.
pub open spec fn read_texts(items: Seq<JsonModel>) -> Option<Seq<Seq<char>>> {
    read_seq(items, |j: JsonModel| j.text())
}

/// The string values of `texts`.
pub open spec fn text_items(texts: Seq<Seq<char>>) -> Seq<JsonModel> {
    Seq::new(texts.len(), |i: int| JsonModel::Text(texts[i]))
}

impl Json {
    /// The strings that the elements of `items` are; `None` where one of
    /// them is no string.
    pub fn strings_of(items: &Vec<Json>) -> (r: Option<Vec<String>>)
        ensures
            match r {
                Some(v) => read_texts(models(items@)) == Some(models(v@)),
                None => read_texts(models(items@)) is None,
            },
    {
        let ghost read = |j: JsonModel| j.text();
        let mut out: Vec<String> = Vec::new();
        let mut i: usize = 0;
        proof {
            assert(models(items@).take(0) =~= Seq::empty());
            assert(models(out@) =~= Seq::empty());
        }
        while i < items.len()
            invariant
                i <= items.len(),
                read == (|j: JsonModel| j.text()),
                read_seq(models(items@).take(i as int), read) == Some(models(out@)),
            decreases items.len() - i,
        {
            proof {
                lemma_read_seq_step(models(items@), read, i as int);
            }
            match items[i].as_str() {
                Some(s) => {
                    let owned = s.to_owned();
                    proof {
                        crate::views::lemma_models_push(out@, owned);
                    }
                    out.push(owned);
                },
                None => {
                    proof {
                        lemma_read_seq_prefix(models(items@), read, i + 1);
                    }
                    return None;
                },
            }
            i = i + 1;
        }
        proof {
            assert(models(items@).take(items.len() as int) =~= models(items@));
        }
        Some(out)
    }

    /// The array of the string values of `texts`.
    pub fn strings(texts: &Vec<String>) -> (r: Json)
        ensures
            r@ == JsonModel::Array(text_items(models(texts@))),
    {
        let mut out: Vec<Json> = Vec::new();
        let mut i: usize = 0;
        while i < texts.len()
            invariant
                i <= texts.len(),
                out.len() == i,
                forall|k: int| 0 <= k < i ==> out[k]@ == JsonModel::Text(texts[k]@),
            decreases texts.len() - i,
        {
            out.push(Json::text(texts[i].as_str()));
            i = i + 1;
        }
        proof {
            assert(models(out@) =~= text_items(models(texts@)));
        }
        Json::array(out)
    }
}

impl JsonModel {
    /// The strings in the array member `key`; none where the member is
    /// missing, and `None` where it is no array of strings.
    pub open spec fn texts_at(self, key: Seq<char>) -> Option<Seq<Seq<char>>> {
        match self.get(key) {
            None => Some(Seq::empty()),
            Some(JsonModel::Array(items)) => read_texts(items),
            _ => None,
        }
    }

    /// The members of the optional object member `key`.
    pub open spec fn opt_members_at(self, key: Seq<char>) -> Option<
        Option<Seq<(Seq<char>, JsonModel)>>,
    > {
        match self.present(key) {
            None => Some(None),
            Some(JsonModel::Object(members)) => Some(Some(members)),
            _ => None,
        }
    }
}

impl Json {
    /// The strings in the array member `key`.
    pub fn strings_at(&self, key: &str) -> (r: Option<Vec<String>>)
        ensures
            match r {
                Some(v) => self@.texts_at(key@) == Some(models(v@)),
                None => self@.texts_at(key@) is None,
            },
    {
        match self.get(key) {
            None => {
                let v: Vec<String> = Vec::new();
                proof {
                    assert(models(v@) =~= Seq::<Seq<char>>::empty());
                }
                Some(v)
            },
            Some(Json::Array(items)) => {
                proof {
                    lemma_array_view(*items);
                }
                Json::strings_of(items)
            },
            Some(_) => None,
        }
    }

    /// The members of the optional object member `key`.
    pub fn opt_members_at(&self, key: &str) -> (r: Option<Option<Vec<(String, Json)>>>)
        ensures
            match r {
                Some(Some(m)) => self@.opt_members_at(key@) == Some(Some(members_model(m@))),
                Some(None) => self@.opt_members_at(key@) == Some(
                    None::<Seq<(Seq<char>, JsonModel)>>,
                ),
                None => self@.opt_members_at(key@) is None,
            },
    {
        match self.present(key) {
            None => Some(None),
            Some(v) => match v.clone() {
                Json::Object(members) => {
                    proof {
                        lemma_object_view(members);
                    }
                    Some(Some(members))
                },
                _ => None,
            },
        }
    }
}

/// The members of `members` whose names are not among `known`, in order.
pub open spec fn rest(members: Seq<(Seq<char>, JsonModel)>, known: Seq<Seq<char>>) -> Seq<
    (Seq<char>, JsonModel),
>
    decreases members.len(),
{
    if members.len() == 0 {
        Seq::empty()
    } else {
        let front = rest(members.drop_last(), known);
        if known.contains(members.last().0) {
            front
        } else {
            front.push(members.last())
        }
    }
}

impl JsonModel {
    /// The members of an object whose names are not among `known`, in
    /// order; none for a value that is no object.
    pub open spec fn unknown(self, known: Seq<Seq<char>>) -> Seq<(Seq<char>, JsonModel)> {
        match self {
            JsonModel::Object(members) => rest(members, known),
            _ => Seq::empty(),
        }
    }
}

/// The characters of each of `names`.
pub open spec fn names(names: Seq<&str>) -> Seq<Seq<char>> {
    Seq::new(names.len(), |i: int| names[i]@)
}

/// Whether `key` is one of `known`.
fn is_known(key: &str, known: &Vec<&str>) -> (r: bool)
    ensures
        r == names(known@).contains(key@),
{
    let mut i: usize = 0;
    while i < known.len()
        invariant
            i <= known.len(),
            forall|k: int| 0 <= k < i ==> names(known@)[k] != key@,
        decreases known.len() - i,
    {
        if same(known[i], key) {
            assert(names(known@)[i as int] == key@);
            return true;
        }
        i = i + 1;
    }
    false
}

impl Json {
    /// A copy of the members of an object whose names are not among
    /// `known`.
    pub fn unknown(&self, known: &Vec<&str>) -> (r: Vec<(String, Json)>)
        ensures
            members_model(r@) == self@.unknown(names(known@)),
    {
        let mut out = no_members();
        match self {
            Json::Object(members) => {
                proof {
                    lemma_object_view(*members);
                }
                let ghost all = members_model(members@);
                let mut i: usize = 0;
                proof {
                    assert(all.take(0) =~= Seq::empty());
                }
                while i < members.len()
                    invariant
                        i <= members.len(),
                        all == members_model(members@),
                        members_model(out@) == rest(all.take(i as int), names(known@)),
                    decreases members.len() - i,
                {
                    proof {
                        let next = all.take(i + 1);
                        assert(next.drop_last() =~= all.take(i as int));
                        assert(next.last() == (members[i as int].0@, members[i as int].1@));
                    }
                    if !is_known(members[i].0.as_str(), known) {
                        put(&mut out, members[i].0.as_str(), members[i].1.clone());
                    }
                    i = i + 1;
                }
                proof {
                    assert(all.take(members.len() as int) =~= all);
                }
            },
            _ => {},
        }
        out
    }
}

/// Appends a copy of each member of `more` to `members`.
pub fn put_all(members: &mut Vec<(String, Json)>, more: &Vec<(String, Json)>)
    ensures
        members_model(final(members)@) == members_model(old(members)@) + members_model(more@),
{
    let mut i: usize = 0;
    proof {
        assert(members_model(more@).take(0) =~= Seq::empty());
        assert(members_model(members@) + Seq::empty() =~= members_model(members@));
    }
    while i < more.len()
        invariant
            i <= more.len(),
            members_model(members@) == members_model(old(members)@) + members_model(more@).take(
                i as int,
            ),
        decreases more.len() - i,
    {
        let ghost before = members_model(members@);
        put(members, more[i].0.as_str(), more[i].1.clone());
        proof {
            assert(members_model(more@).take(i + 1) =~= members_model(more@).take(i as int).push(
                (more[i as int].0@, more[i as int].1@),
            ));
            assert(before.push((more[i as int].0@, more[i as int].1@)) =~= members_model(
                old(members)@,
            ) + members_model(more@).take(i + 1));
        }
        i = i + 1;
    }
    proof {
        assert(members_model(more@).take(more.len() as int) =~= members_model(more@));
    }
}

/// A copy of each member of `members`.
pub fn clone_members(members: &Vec<(String, Json)>) -> (r: Vec<(String, Json)>)
    ensures
        members_model(r@) == members_model(members@),
{
    let mut out: Vec<(String, Json)> = Vec::new();
    let mut i: usize = 0;
    while i < members.len()
        invariant
            i <= members.len(),
            out.len() == i,
            forall|k: int| 0 <= k < i ==> out[k].0@ == members[k].0@ && out[k].1@ == members[k].1@,
        decreases members.len() - i,
    {
        out.push((members[i].0.clone(), members[i].1.clone()));
        i = i + 1;
    }
    proof {
        assert(members_model(out@) =~= members_model(members@));
    }
    out
}

/// A copy of `j`.
fn copy_of(j: &Json) -> (r: Json)
    ensures
        r@ == j@,
    decreases *j,
{
    match j {
        Json::Null => Json::Null,
        Json::Bool(b) => Json::Bool(*b),
        Json::Int(i) => Json::Int(*i),
        Json::Real(s) => Json::Real(s.clone()),
        Json::Text(s) => Json::Text(s.clone()),
        Json::Array(a) => {
            let mut out: Vec<Json> = Vec::new();
            let mut i: usize = 0;
            while i < a.len()
                invariant
                    i <= a.len(),
                    out.len() == i,
                    *j is Array,
                    j->Array_0 == *a,
                    forall|k: int| 0 <= k < i ==> out[k]@ == a[k]@,
                decreases a.len() - i,
            {
                proof {
                    assert(decreases_to!(*j => j->Array_0));
                    assert(decreases_to!(*a => a[i as int]));
                }
                out.push(copy_of(&a[i]));
                i = i + 1;
            }
            proof {
                lemma_array_view(*a);
                lemma_array_view(out);
                assert(models(out@) =~= models(a@));
            }
            Json::Array(out)
        },
        Json::Object(o) => {
            let mut out: Vec<(String, Json)> = Vec::new();
            let mut i: usize = 0;
            while i < o.len()
                invariant
                    i <= o.len(),
                    out.len() == i,
                    *j is Object,
                    j->Object_0 == *o,
                    forall|k: int| 0 <= k < i ==> out[k].0@ == o[k].0@ && out[k].1@ == o[k].1@,
                decreases o.len() - i,
            {
                proof {
                    assert(decreases_to!(*j => j->Object_0));
                    assert(decreases_to!(*o => o[i as int]));
                    assert(decreases_to!(o[i as int] => o[i as int].1));
                }
                out.push((o[i].0.clone(), copy_of(&o[i].1)));
                i = i + 1;
            }
            proof {
                lemma_object_view(*o);
                lemma_object_view(out);
                assert(members_model(out@) =~= members_model(o@));
            }
            Json::Object(out)
        },
    }
}

impl Clone for Json {
    fn clone(&self) -> (r: Json)
        ensures
            r@ == self@,
    {
        copy_of(self)
    }
}


/// A lookup in members put one after the other looks into the first, and
/// into the second where the first has no member of the name.
pub proof fn lemma_lookup_append(
    a: Seq<(Seq<char>, JsonModel)>,
    b: Seq<(Seq<char>, JsonModel)>,
    key: Seq<char>,
)
    ensures
        lookup(a + b, key) == (match lookup(a, key) {
            Some(v) => Some(v),
            None => lookup(b, key),
        }),
    decreases a.len(),
{
    if a.len() == 0 {
        assert(a + b =~= b);
    } else {
        assert((a + b)[0] == a[0]);
        assert((a + b).skip(1) =~= a.skip(1) + b);
        lemma_lookup_append(a.skip(1), b, key);
    }
}

/// A lookup finds nothing where no member has the name.
pub proof fn lemma_lookup_absent(members: Seq<(Seq<char>, JsonModel)>, key: Seq<char>)
    requires
        forall|i: int| 0 <= i < members.len() ==> (#[trigger] members[i]).0 != key,
    ensures
        lookup(members, key) is None,
    decreases members.len(),
{
    if members.len() > 0 {
        assert(members[0].0 != key);
        assert forall|i: int| 0 <= i < members.skip(1).len() implies (#[trigger] members.skip(
            1,
        )[i]).0 != key by {
            assert(members.skip(1)[i] == members[i + 1]);
        }
        lemma_lookup_absent(members.skip(1), key);
    }
}

/// A lookup in one member finds it by its name.
pub proof fn lemma_lookup_one(member: (Seq<char>, JsonModel), key: Seq<char>)
    ensures
        lookup(seq![member], key) == (if member.0 == key {
            Some(member.1)
        } else {
            None
        }),
{
    reveal_with_fuel(lookup, 2);
    assert(seq![member].skip(1).len() == 0);
}

/// A lookup in an optional member finds it by its name where it is there.
pub proof fn lemma_lookup_optional(name: Seq<char>, value: Option<JsonModel>, key: Seq<char>)
    ensures
        lookup(optional(name, value), key) == (if name == key {
            value
        } else {
            None
        }),
{
    match value {
        Some(v) => {
            lemma_lookup_one((name, v), key);
        },
        None => {},
    }
}

/// The unknown members of members put one after the other are those of the
/// first, then those of the second.
pub proof fn lemma_rest_append(
    a: Seq<(Seq<char>, JsonModel)>,
    b: Seq<(Seq<char>, JsonModel)>,
    known: Seq<Seq<char>>,
)
    ensures
        rest(a + b, known) == rest(a, known) + rest(b, known),
    decreases b.len(),
{
    if b.len() == 0 {
        assert(a + b =~= a);
        assert(rest(a, known) + rest(b, known) =~= rest(a, known));
    } else {
        assert((a + b).drop_last() =~= a + b.drop_last());
        assert((a + b).last() == b.last());
        lemma_rest_append(a, b.drop_last(), known);
        if !known.contains(b.last().0) {
            assert((rest(a, known) + rest(b.drop_last(), known)).push(b.last()) =~= rest(a, known)
                + rest(b.drop_last(), known).push(b.last()));
        }
    }
}

/// Members of which none is known are all unknown.
pub proof fn lemma_rest_keeps(members: Seq<(Seq<char>, JsonModel)>, known: Seq<Seq<char>>)
    requires
        forall|i: int| 0 <= i < members.len() ==> !known.contains((#[trigger] members[i]).0),
    ensures
        rest(members, known) == members,
    decreases members.len(),
{
    if members.len() > 0 {
        assert(!known.contains(members[members.len() - 1].0));
        assert forall|i: int| 0 <= i < members.drop_last().len() implies !known.contains(
            (#[trigger] members.drop_last()[i]).0,
        ) by {
            assert(members.drop_last()[i] == members[i]);
        }
        lemma_rest_keeps(members.drop_last(), known);
        assert(members.drop_last().push(members.last()) =~= members);
    }
}

/// Members that are all known leave nothing unknown.
pub proof fn lemma_rest_drops(members: Seq<(Seq<char>, JsonModel)>, known: Seq<Seq<char>>)
    requires
        forall|i: int| 0 <= i < members.len() ==> known.contains((#[trigger] members[i]).0),
    ensures
        rest(members, known) == Seq::<(Seq<char>, JsonModel)>::empty(),
    decreases members.len(),
{
    if members.len() > 0 {
        assert(known.contains(members[members.len() - 1].0));
        assert forall|i: int| 0 <= i < members.drop_last().len() implies known.contains(
            (#[trigger] members.drop_last()[i]).0,
        ) by {
            assert(members.drop_last()[i] == members[i]);
        }
        lemma_rest_drops(members.drop_last(), known);
    }
}

/// A lookup among two members.
pub proof fn lemma_lookup2(members: Seq<(Seq<char>, JsonModel)>, key: Seq<char>)
    requires
        members.len() == 2,
    ensures
        lookup(members, key) == (if members[0].0 == key {
            Some(members[0].1)
        } else if members[1].0 == key {
            Some(members[1].1)
        } else {
            None
        }),
{
    reveal_with_fuel(lookup, 3);
    assert(members.skip(1)[0] == members[1]);
    assert(members.skip(1).skip(1).len() == 0);
}

/// A lookup among three members.
pub proof fn lemma_lookup3(members: Seq<(Seq<char>, JsonModel)>, key: Seq<char>)
    requires
        members.len() == 3,
    ensures
        lookup(members, key) == (if members[0].0 == key {
            Some(members[0].1)
        } else if members[1].0 == key {
            Some(members[1].1)
        } else if members[2].0 == key {
            Some(members[2].1)
        } else {
            None
        }),
{
    reveal_with_fuel(lookup, 4);
    assert(members.skip(1)[0] == members[1]);
    assert(members.skip(1).skip(1)[0] == members[2]);
    assert(members.skip(1).skip(1).skip(1).len() == 0);
}

/// A lookup among four members.
pub proof fn lemma_lookup4(members: Seq<(Seq<char>, JsonModel)>, key: Seq<char>)
    requires
        members.len() == 4,
    ensures
        lookup(members, key) == (if members[0].0 == key {
            Some(members[0].1)
        } else if members[1].0 == key {
            Some(members[1].1)
        } else if members[2].0 == key {
            Some(members[2].1)
        } else if members[3].0 == key {
            Some(members[3].1)
        } else {
            None
        }),
{
    reveal_with_fuel(lookup, 5);
    assert(members.skip(1)[0] == members[1]);
    assert(members.skip(1).skip(1)[0] == members[2]);
    assert(members.skip(1).skip(1).skip(1)[0] == members[3]);
    assert(members.skip(1).skip(1).skip(1).skip(1).len() == 0);
}

} // verus!
