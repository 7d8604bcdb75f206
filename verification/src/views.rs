//! Models of sequences and of optional values.

use vstd::prelude::*;

verus! {

/// The models of the elements of `s`, in order.
pub open spec fn models<T: View>(s: Seq<T>) -> Seq<T::V> {
    Seq::new(s.len(), |i: int| s[i]@)
}

/// The model of an optional value.
pub open spec fn model_opt<T: View>(o: Option<T>) -> Option<T::V> {
    match o {
        Some(t) => Some(t@),
        None => None,
    }
}

/// The model of an optional reference.
pub open spec fn model_ref<T: View>(o: Option<&T>) -> Option<T::V> {
    match o {
        Some(t) => Some(t@),
        None => None,
    }
}

/// The model of an optional string slice.
pub open spec fn model_str(o: Option<&str>) -> Option<Seq<char>> {
    match o {
        Some(t) => Some(t@),
        None => None,
    }
}

/// Appending an element appends its model.
pub proof fn lemma_models_push<T: View>(s: Seq<T>, t: T)
    ensures
        models(s.push(t)) == models(s).push(t@),
{
    assert(models(s.push(t)) =~= models(s).push(t@));
}

/// A copy of an optional string.
pub fn clone_opt_string(o: &Option<String>) -> (r: Option<String>)
    ensures
        model_opt(r) == model_opt(*o),
{
    match o {
        Some(s) => Some(s.clone()),
        None => None,
    }
}

/// An owned copy of an optional string slice.
pub fn own(o: Option<&str>) -> (r: Option<String>)
    ensures
        model_opt(r) == model_str(o),
{
    match o {
        Some(s) => Some(s.to_owned()),
        None => None,
    }
}

/// The string slice inside an optional string.
pub fn opt_str(o: &Option<String>) -> (r: Option<&str>)
    ensures
        model_str(r) == model_opt(*o),
{
    match o {
        Some(s) => Some(s.as_str()),
        None => None,
    }
}

} // verus!
