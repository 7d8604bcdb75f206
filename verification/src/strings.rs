//! Small string utilities with exact contracts over `Seq<char>`.

use crate::views::models;
use vstd::prelude::*;

verus! {

/// Whether two string slices consist of the same characters.
pub(crate) fn same(a: &str, b: &str) -> (r: bool)
    ensures
        r == (a@ == b@),
{
    let x = a.to_owned();
    let y = b.to_owned();
    x == y
}

/// The character that writes the digit `d`.
pub open spec fn digit(d: nat) -> char {
    if d == 0 {
        '0'
    } else if d == 1 {
        '1'
    } else if d == 2 {
        '2'
    } else if d == 3 {
        '3'
    } else if d == 4 {
        '4'
    } else if d == 5 {
        '5'
    } else if d == 6 {
        '6'
    } else if d == 7 {
        '7'
    } else if d == 8 {
        '8'
    } else {
        '9'
    }
}

/// The decimal numeral of `n`, without leading zeros.
pub open spec fn decimal(n: nat) -> Seq<char>
    decreases n,
{
    if n < 10 {
        seq![digit(n)]
    } else {
        decimal(n / 10).push(digit(n % 10))
    }
}

/// Formats an index with `usize`'s `to_string`, which writes it in decimal.
#[verifier::external_body]
pub(crate) fn index_numeral(n: usize) -> (r: String)
    ensures
        r@ == decimal(n as nat),
{
    n.to_string()
}

/// A numeral is never empty, and its last character is the digit of the
/// units.
pub proof fn lemma_decimal_last(n: nat)
    ensures
        decimal(n).len() >= 1,
        decimal(n).last() == digit(n % 10),
        n >= 10 ==> decimal(n).drop_last() == decimal(n / 10),
{
    if n >= 10 {
        assert(decimal(n / 10).push(digit(n % 10)).drop_last() =~= decimal(n / 10));
    }
}

/// Distinct digits are written with distinct characters.
pub proof fn lemma_digit_injective(a: nat, b: nat)
    requires
        a < 10,
        b < 10,
        digit(a) == digit(b),
    ensures
        a == b,
{
}

/// Distinct numbers have distinct numerals.
pub proof fn lemma_decimal_injective(a: nat, b: nat)
    requires
        decimal(a) == decimal(b),
    ensures
        a == b,
    decreases a,
{
    lemma_decimal_last(a);
    lemma_decimal_last(b);
    lemma_digit_injective(a % 10, b % 10);
    if a < 10 {
        if b >= 10 {
            lemma_decimal_last(b / 10);
            assert(decimal(b).len() >= 2);
        }
    } else {
        if b < 10 {
            lemma_decimal_last(a / 10);
            assert(decimal(a).len() >= 2);
        } else {
            lemma_decimal_injective(a / 10, b / 10);
        }
    }
}

/// The parts of `parts` written one after another with `sep` between
/// neighbours.
pub open spec fn joined(parts: Seq<Seq<char>>, sep: Seq<char>) -> Seq<char>
    decreases parts.len(),
{
    if parts.len() == 0 {
        Seq::empty()
    } else if parts.len() == 1 {
        parts[0]
    } else {
        joined(parts.drop_last(), sep) + sep + parts.last()
    }
}

/// Joins `parts` with `sep` between neighbours.
pub fn join(parts: &Vec<String>, sep: &str) -> (r: String)
    ensures
        r@ == joined(models(parts@), sep@),
{
    let mut out = String::new();
    let mut i: usize = 0;
    while i < parts.len()
        invariant
            i <= parts.len(),
            out@ == joined(models(parts@).take(i as int), sep@),
        decreases parts.len() - i,
    {
        proof {
            let next = models(parts@).take(i + 1);
            assert(next.drop_last() =~= models(parts@).take(i as int));
            assert(next.last() == parts[i as int]@);
            if i == 0 {
                assert(out@ =~= Seq::<char>::empty());
            } else if i == 1 {
                assert(models(parts@).take(1)[0] == parts[0]@);
            }
        }
        if i > 0 {
            out.append(sep);
        }
        out.append(parts[i].as_str());
        proof {
            if i == 0 {
                assert(out@ =~= parts[0]@);
            }
        }
        i = i + 1;
    }
    proof {
        assert(models(parts@).take(parts.len() as int) =~= models(parts@));
    }
    out
}

/// A copy of each string of `parts`.
pub fn clone_strings(parts: &Vec<String>) -> (r: Vec<String>)
    ensures
        models(r@) == models(parts@),
{
    let mut out: Vec<String> = Vec::new();
    let mut i: usize = 0;
    while i < parts.len()
        invariant
            i <= parts.len(),
            out.len() == i,
            forall|k: int| 0 <= k < i ==> out[k]@ == parts[k]@,
        decreases parts.len() - i,
    {
        out.push(parts[i].clone());
        i = i + 1;
    }
    proof {
        assert(models(out@) =~= models(parts@));
    }
    out
}


/// `a` followed by `b`.
pub fn concat2(a: &str, b: &str) -> (r: String)
    ensures
        r@ == a@ + b@,
{
    let mut out = a.to_owned();
    out.append(b);
    out
}

/// `a`, `b` and `c`, one after another.
pub fn concat3(a: &str, b: &str, c: &str) -> (r: String)
    ensures
        r@ == a@ + b@ + c@,
{
    let mut out = a.to_owned();
    out.append(b);
    out.append(c);
    out
}

/// The index of the first of `names` that is `name`.
pub open spec fn position(names: Seq<Seq<char>>, name: Seq<char>) -> Option<int>
    decreases names.len(),
{
    if names.len() == 0 {
        None
    } else if names[0] == name {
        Some(0)
    } else {
        match position(names.skip(1), name) {
            Some(i) => Some(i + 1),
            None => None,
        }
    }
}

/// The first position of a name is a place that holds it, and no earlier
/// place does; there is none exactly where no place holds it.
pub proof fn lemma_position(names: Seq<Seq<char>>, name: Seq<char>)
    ensures
        match position(names, name) {
            Some(i) => 0 <= i < names.len() && names[i] == name && forall|k: int|
                0 <= k < i ==> names[k] != name,
            None => forall|k: int| 0 <= k < names.len() ==> names[k] != name,
        },
    decreases names.len(),
{
    if names.len() > 0 && names[0] != name {
        lemma_position(names.skip(1), name);
        match position(names.skip(1), name) {
            Some(i) => {
                assert(names.skip(1)[i] == names[i + 1]);
                assert forall|k: int| 0 <= k < i + 1 implies names[k] != name by {
                    if k > 0 {
                        assert(names.skip(1)[k - 1] == names[k]);
                    }
                }
            },
            None => {
                assert forall|k: int| 0 <= k < names.len() implies names[k] != name by {
                    if k > 0 {
                        assert(names.skip(1)[k - 1] == names[k]);
                    }
                }
            },
        }
    }
}

/// The names of named entries.
pub open spec fn names_of<T>(entries: Seq<(String, T)>) -> Seq<Seq<char>> {
    Seq::new(entries.len(), |i: int| entries[i].0@)
}

/// The index of the first entry of `entries` named `name`.
pub fn find<T>(entries: &Vec<(String, T)>, name: &str) -> (r: Option<usize>)
    ensures
        match r {
            Some(i) => position(names_of(entries@), name@) == Some(i as int) && i < entries.len(),
            None => position(names_of(entries@), name@) is None,
        },
{
    let ghost names = names_of(entries@);
    let mut i: usize = 0;
    while i < entries.len()
        invariant
            i <= entries.len(),
            names == names_of(entries@),
            forall|k: int| 0 <= k < i ==> names[k] != name@,
        decreases entries.len() - i,
    {
        if same(entries[i].0.as_str(), name) {
            proof {
                lemma_position(names, name@);
                assert(names[i as int] == name@);
            }
            return Some(i);
        }
        i = i + 1;
    }
    proof {
        lemma_position(names, name@);
    }
    None
}

/// `entries` with `entry` in place of the first entry of its name, or at the
/// end where no entry has its name.
pub open spec fn upserted<T>(entries: Seq<(String, T)>, entry: (String, T)) -> Seq<(String, T)> {
    match position(names_of(entries), entry.0@) {
        Some(i) => entries.update(i, entry),
        None => entries.push(entry),
    }
}

/// Puts `value` under `name`: in place of the first entry of that name, or
/// at the end where there is none.
pub fn upsert<T>(entries: &mut Vec<(String, T)>, name: String, value: T)
    ensures
        final(entries)@ == upserted(old(entries)@, (name, value)),
{
    match find(entries, name.as_str()) {
        Some(i) => {
            entries.set(i, (name, value));
        },
        None => {
            entries.push((name, value));
        },
    }
}


/// Appends a copy of `s` to `out`.
pub fn push_str(out: &mut Vec<String>, s: &str)
    ensures
        models(final(out)@) == models(old(out)@).push(s@),
{
    let owned = s.to_owned();
    proof {
        crate::views::lemma_models_push(out@, owned);
    }
    out.push(owned);
}

/// A sequence of strings without any string.
pub fn no_strings() -> (r: Vec<String>)
    ensures
        models(r@) == Seq::<Seq<char>>::empty(),
{
    let r: Vec<String> = Vec::new();
    proof {
        assert(models(r@) =~= Seq::<Seq<char>>::empty());
    }
    r
}

} // verus!
