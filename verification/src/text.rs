//! Text helpers shared by the reducers: decimal numbers, lower-casing and
//! views of string collections.

use vstd::prelude::*;

verus! {

/// The views of the elements of a list, in order.
pub open spec fn views_of<T: View>(v: Seq<T>) -> Seq<T::V> {
    v.map_values(|t: T| t@)
}

/// The texts held by a list of strings.
pub open spec fn strings_view(v: Seq<String>) -> Seq<Seq<char>> {
    views_of(v)
}

/// Appending an element appends its view.
pub proof fn lemma_views_push<T: View>(v: Seq<T>, x: T)
    ensures
        views_of(v.push(x)) == views_of(v).push(x@),
{
    assert(views_of(v.push(x)) =~= views_of(v).push(x@));
}

/// Removing an element removes its view.
pub proof fn lemma_views_remove<T: View>(v: Seq<T>, i: int)
    requires
        0 <= i < v.len(),
    ensures
        views_of(v.remove(i)) == views_of(v).remove(i),
{
    assert(views_of(v.remove(i)) =~= views_of(v).remove(i));
}

/// Appends `x` to `v`.
pub fn push_viewed<T: View>(v: &mut Vec<T>, x: T)
    ensures
        final(v)@ == old(v)@.push(x),
        views_of(final(v)@) == views_of(old(v)@).push(x@),
{
    proof {
        lemma_views_push(v@, x);
    }
    v.push(x);
}

/// Removes the element at `i` from `v`.
pub fn remove_viewed<T: View>(v: &mut Vec<T>, i: usize)
    requires
        i < old(v)@.len(),
    ensures
        final(v)@ == old(v)@.remove(i as int),
        views_of(final(v)@) == views_of(old(v)@).remove(i as int),
{
    proof {
        lemma_views_remove(v@, i as int);
    }
    let _ = v.remove(i);
}

/// The view of an optional value.
pub open spec fn opt_view<T: View>(o: Option<T>) -> Option<T::V> {
    match o {
        Some(t) => Some(t@),
        None => None,
    }
}

/// The character of a decimal digit.
pub open spec fn digit_char(d: nat) -> char {
    if d == 0 {
        '0'
    } else if d == 1 {
        '1'
    } else if d == 2 {
        '2'
    } else if d == 3 {
        '3'
    } else if d == 4 {
        '4'
    } else if d == 5 {
        '5'
    } else if d == 6 {
        '6'
    } else if d == 7 {
        '7'
    } else if d == 8 {
        '8'
    } else {
        '9'
    }
}

/// Decimal notation of a number, without sign or leading zeros.
pub open spec fn decimal_text(n: nat) -> Seq<char>
    decreases n,
{
    if n < 10 {
        seq![digit_char(n)]
    } else {
        decimal_text(n / 10).push(digit_char(n % 10))
    }
}

/// Whether a character is one of `0` to `9`.
pub open spec fn is_decimal_digit(c: char) -> bool {
    '0' <= c && c <= '9'
}

/// The number written by a sequence of decimal digits.
pub open spec fn digits_value(s: Seq<char>) -> nat
    decreases s.len(),
{
    if s.len() == 0 {
        0
    } else {
        digits_value(s.drop_last()) * 10 + ((s.last() as u32 - '0' as u32) as nat)
    }
}

/// The digits of a decimal number text: the text without one leading `+`.
pub open spec fn unsigned_part(s: Seq<char>) -> Seq<char> {
    if s.len() > 0 && s[0] == '+' {
        s.subrange(1, s.len() as int)
    } else {
        s
    }
}

/// The number that a text denotes: an optional `+`, then at least one
/// decimal digit and nothing else, with a value that fits in 64 bits.
pub open spec fn parsed_decimal(s: Seq<char>) -> Option<u64> {
    let body = unsigned_part(s);
    if body.len() > 0 && (forall|i: int| 0 <= i < body.len() ==> is_decimal_digit(#[trigger] body[i]))
        && digits_value(body) <= u64::MAX {
        Some(digits_value(body) as u64)
    } else {
        None
    }
}

/// The lower-case form that the standard library gives a text.
pub uninterp spec fn lowercase_text(s: Seq<char>) -> Seq<char>;

/// Formats a number with `u128::to_string`, which writes it in decimal
/// notation without sign or leading zeros.
#[verifier::external_body]
pub(crate) fn decimal_string(n: u128) -> (r: String)
    ensures
        r@ == decimal_text(n as nat),
{
    n.to_string()
}

/// Reads a number with `str::parse::<u64>`, which accepts an optional `+`
/// followed by decimal digits only and fails on an empty text, on any other
/// character and on a value above `u64::MAX`.
#[verifier::external_body]
pub(crate) fn parse_decimal(text: &str) -> (r: Option<u64>)
    ensures
        r == parsed_decimal(text@),
{
    text.parse::<u64>().ok()
}

/// Lower-cases a text with `str::to_lowercase`; the result depends on the
/// text alone.
#[verifier::external_body]
pub(crate) fn lowercase_string(text: &str) -> (r: String)
    ensures
        r@ == lowercase_text(text@),
{
    text.to_lowercase()
}

/// Copies a list of strings.
pub fn clone_strings(v: &Vec<String>) -> (r: Vec<String>)
    ensures
        r@ == v@,
{
    let r = v.clone();
    assert(r@ =~= v@);
    r
}

/// Copies an optional string.
pub fn clone_opt_string(o: &Option<String>) -> (r: Option<String>)
    ensures
        r == *o,
{
    match o {
        Some(s) => Some(s.clone()),
        None => None,
    }
}

/// Index of the first element at or after `from` that equals `key`.
pub open spec fn index_from<K>(keys: Seq<K>, key: K, from: int) -> Option<int>
    decreases keys.len() - from,
{
    if from < 0 || from >= keys.len() {
        None
    } else if keys[from] == key {
        Some(from)
    } else {
        index_from(keys, key, from + 1)
    }
}

/// Index of the first element that equals `key`.
pub open spec fn index_of<K>(keys: Seq<K>, key: K) -> Option<int> {
    index_from(keys, key, 0)
}

/// `index_from` returns the least index at or after `from` that holds
/// `key`, and nothing exactly when there is none.
pub proof fn lemma_index_from<K>(keys: Seq<K>, key: K, from: int)
    requires
        0 <= from,
    ensures
        match index_from(keys, key, from) {
            Some(i) => from <= i < keys.len() && keys[i] == key && forall|j: int|
                from <= j < i ==> #[trigger] keys[j] != key,
            None => forall|j: int| from <= j < keys.len() ==> #[trigger] keys[j] != key,
        },
    decreases keys.len() - from,
{
    if from < keys.len() && keys[from] != key {
        lemma_index_from(keys, key, from + 1);
    }
}

/// An index that holds `key`, with no occurrence between `from` and it, is
/// the one that `index_from` returns.
pub proof fn lemma_index_from_found<K>(keys: Seq<K>, key: K, from: int, i: int)
    requires
        0 <= from <= i < keys.len(),
        keys[i] == key,
        forall|j: int| from <= j < i ==> #[trigger] keys[j] != key,
    ensures
        index_from(keys, key, from) == Some(i),
    decreases i - from,
{
    if from < i {
        lemma_index_from_found(keys, key, from + 1, i);
    }
}

/// Without any occurrence from `from` on, `index_from` returns nothing.
pub proof fn lemma_index_from_none<K>(keys: Seq<K>, key: K, from: int)
    requires
        0 <= from,
        forall|j: int| from <= j < keys.len() ==> #[trigger] keys[j] != key,
    ensures
        index_from(keys, key, from) is None,
    decreases keys.len() - from,
{
    if from < keys.len() {
        lemma_index_from_none(keys, key, from + 1);
    }
}

/// `index_of` finds an element exactly when the sequence contains it.
pub proof fn lemma_index_of_contains<K>(keys: Seq<K>, key: K)
    ensures
        index_of(keys, key) is Some <==> keys.contains(key),
{
    lemma_index_from(keys, key, 0);
}

/// Index of the first string of `v` that equals `needle`.
pub fn position_of_string(v: &Vec<String>, needle: &String) -> (r: Option<usize>)
    ensures
        match r {
            Some(i) => i < v@.len() && index_of(strings_view(v@), needle@) == Some(i as int),
            None => index_of(strings_view(v@), needle@) is None,
        },
{
    let mut i: usize = 0;
    while i < v.len()
        invariant
            i <= v.len(),
            forall|j: int| 0 <= j < i ==> #[trigger] strings_view(v@)[j] != needle@,
        decreases v.len() - i,
    {
        assert(strings_view(v@)[i as int] == v@[i as int]@);
        if v[i] == *needle {
            proof {
                lemma_index_from_found(strings_view(v@), needle@, 0, i as int);
            }
            return Some(i);
        }
        i += 1;
    }
    proof {
        lemma_index_from_none(strings_view(v@), needle@, 0);
    }
    None
}

/// Whether some string of `v` equals `needle`.
pub fn contains_string(v: &Vec<String>, needle: &String) -> (r: bool)
    ensures
        r == strings_view(v@).contains(needle@),
{
    let found = position_of_string(v, needle);
    proof {
        lemma_index_of_contains(strings_view(v@), needle@);
    }
    found.is_some()
}

} // verus!
