//! Values kept under names, each name once.

use crate::strings::{find, lemma_position, names_of, position, upsert};
use crate::views::model_ref;
use vstd::prelude::*;

verus! {

/// The models of named entries: each name with the model of its value.
pub open spec fn entries_model<T: View>(entries: Seq<(String, T)>) -> Seq<(Seq<char>, T::V)> {
    Seq::new(entries.len(), |i: int| (entries[i].0@, entries[i].1@))
}

/// The names of modelled entries.
pub open spec fn keys_of<V>(entries: Seq<(Seq<char>, V)>) -> Seq<Seq<char>> {
    Seq::new(entries.len(), |i: int| entries[i].0)
}

/// Whether no name occurs twice among `names`.
pub open spec fn distinct(names: Seq<Seq<char>>) -> bool {
    forall|i: int, j: int| 0 <= i < j < names.len() ==> names[i] != names[j]
}

/// The value under the first entry named `name`.
pub open spec fn value_at<V>(entries: Seq<(Seq<char>, V)>, name: Seq<char>) -> Option<V> {
    match position(keys_of(entries), name) {
        Some(i) => Some(entries[i].1),
        None => None,
    }
}

/// `entries` with `value` under `name`: in place of the first entry of that
/// name, or at the end where there is none.
pub open spec fn with_entry<V>(entries: Seq<(Seq<char>, V)>, name: Seq<char>, value: V) -> Seq<
    (Seq<char>, V),
> {
    match position(keys_of(entries), name) {
        Some(i) => entries.update(i, (name, value)),
        None => entries.push((name, value)),
    }
}

/// Putting a value under a name keeps every name once.
pub proof fn lemma_with_entry_distinct<V>(entries: Seq<(Seq<char>, V)>, name: Seq<char>, value: V)
    requires
        distinct(keys_of(entries)),
    ensures
        distinct(keys_of(with_entry(entries, name, value))),
{
    let keys = keys_of(entries);
    let after = keys_of(with_entry(entries, name, value));
    lemma_position(keys, name);
    match position(keys, name) {
        Some(i) => {
            assert(after =~= keys);
        },
        None => {
            assert(after =~= keys.push(name));
        },
    }
}

/// Where every name occurs once, the value under a name is the value of
/// the one entry that has the name.
pub proof fn lemma_value_at_the_one<V>(entries: Seq<(Seq<char>, V)>, i: int)
    requires
        distinct(keys_of(entries)),
        0 <= i < entries.len(),
    ensures
        value_at(entries, entries[i].0) == Some(entries[i].1),
{
    let keys = keys_of(entries);
    lemma_position(keys, entries[i].0);
    assert(keys[i] == entries[i].0);
    let found = position(keys, entries[i].0).unwrap();
    if found != i {
        assert(keys[found] == keys[i]);
    }
}

/// After a value is put under a name, it is the value under that name, and
/// the values under all other names are as they were.
pub proof fn lemma_with_entry_gives<V>(
    entries: Seq<(Seq<char>, V)>,
    name: Seq<char>,
    value: V,
    other: Seq<char>,
)
    ensures
        value_at(with_entry(entries, name, value), other) == (if other == name {
            Some(value)
        } else {
            value_at(entries, other)
        }),
{
    let keys = keys_of(entries);
    let after = with_entry(entries, name, value);
    let keys_after = keys_of(after);
    lemma_position(keys, name);
    lemma_position(keys, other);
    lemma_position(keys_after, other);
    match position(keys, name) {
        Some(i) => {
            assert(keys_after =~= keys);
        },
        None => {
            assert(keys_after =~= keys.push(name));
            match position(keys_after, other) {
                Some(k) => {
                    if k < keys.len() {
                        assert(keys[k] == keys_after[k]);
                        if position(keys, other) is Some {
                            let p = position(keys, other).unwrap();
                            assert(keys_after[p] == keys[p]);
                        }
                    } else {
                        assert(keys_after[k] == name);
                    }
                },
                None => {
                    assert(keys_after[keys.len() as int] == name);
                    if position(keys, other) is Some {
                        let p = position(keys, other).unwrap();
                        assert(keys_after[p] == keys[p]);
                    }
                },
            }
        },
    }
}

/// Values under names.  No name occurs twice: a value that is put under a
/// name takes the place of the value that was under it.  The entries keep
/// the order in which their names were first used.
pub struct Named<T> {
    entries: Vec<(String, T)>,
}

impl<T: View> View for Named<T> {
    type V = Seq<(Seq<char>, T::V)>;

    closed spec fn view(&self) -> Seq<(Seq<char>, T::V)> {
        entries_model(self.entries@)
    }
}

impl<T> Named<T> {
    #[verifier::type_invariant]
    spec fn once(self) -> bool {
        distinct(names_of(self.entries@))
    }
}

impl<T: View> Named<T> {
    /// No value under any name.
    pub fn new() -> (r: Named<T>)
        ensures
            r@ == Seq::<(Seq<char>, T::V)>::empty(),
    {
        let r = Named { entries: Vec::new() };
        proof {
            assert(entries_model(r.entries@) =~= Seq::<(Seq<char>, T::V)>::empty());
        }
        r
    }

    /// These values with `value` under `name`: in place of the value that
    /// was under the name, or as a new last entry.
    pub fn with(self, name: &str, value: T) -> (r: Named<T>)
        ensures
            r@ == with_entry(self@, name@, value@),
            distinct(keys_of(r@)),
    {
        proof {
            use_type_invariant(&self);
        }
        let mut entries = self.entries;
        let ghost before = entries@;
        let owned = name.to_owned();
        proof {
            assert(keys_of(entries_model(before)) =~= names_of(before));
            lemma_position(names_of(before), name@);
            lemma_with_entry_distinct(entries_model(before), name@, value@);
        }
        upsert(&mut entries, owned, value);
        proof {
            assert(entries_model(entries@) =~= with_entry(entries_model(before), name@, value@));
            assert(names_of(entries@) =~= keys_of(entries_model(entries@)));
        }
        Named { entries }
    }

    /// The value under `name`.
    pub fn get(&self, name: &str) -> (r: Option<&T>)
        ensures
            model_ref(r) == value_at(self@, name@),
    {
        proof {
            assert(keys_of(entries_model(self.entries@)) =~= names_of(self.entries@));
        }
        match find(&self.entries, name) {
            Some(i) => Some(&self.entries[i].1),
            None => None,
        }
    }

    /// The entries, in the order in which their names were first used.  No
    /// two of them have one name.
    pub fn entries(&self) -> (r: &Vec<(String, T)>)
        ensures
            entries_model(r@) == self@,
            distinct(keys_of(self@)),
    {
        proof {
            use_type_invariant(self);
            assert(keys_of(entries_model(self.entries@)) =~= names_of(self.entries@));
        }
        &self.entries
    }

    /// The number of names.
    pub fn len(&self) -> (r: usize)
        ensures
            r == self@.len(),
    {
        self.entries.len()
    }

    /// Whether there is no name.
    pub fn is_empty(&self) -> (r: bool)
        ensures
            r == (self@.len() == 0),
    {
        self.entries.len() == 0
    }
}

} // verus!
