//! Small helpers over strings and lists of strings.
//!
//! Contracts speak of a string through its view, the sequence of its characters.
use vstd::prelude::*;
use vstd::std_specs::iter::IteratorSpec;
use vstd::string::*;

verus! {

/// A result as plain values: what it holds on success and what on failure.
pub open spec fn result_view<T: DeepView, E: DeepView>(outcome: core::result::Result<T, E>)
    -> core::result::Result<T::V, E::V> {
    match outcome {
        Ok(value) => Ok(value.deep_view()),
        Err(error) => Err(error.deep_view()),
    }
}

/// Whether `needle` occurs in `haystack` as a contiguous run of characters.
pub open spec fn is_substring(needle: Seq<char>, haystack: Seq<char>) -> bool {
    exists|start: int|
        0 <= start && start + needle.len() <= haystack.len() && #[trigger] haystack.subrange(
            start,
            start + needle.len(),
        ) == needle
}

/// The characters of `text`, in order.
pub fn chars_of(text: &str) -> (chars: Vec<char>)
    ensures
        chars@ == text@,
{
    broadcast use {vstd::string::axiom_spec_iter, vstd::string::next_postcondition};

    let mut iter = text.chars();
    let mut chars: Vec<char> = Vec::new();
    assert(chars@ + iter.remaining() =~= text@);
    loop
        invariant_except_break
            iter.obeys_prophetic_iter_laws(),
            iter.decrease() is Some,
            chars@ + iter.remaining() == text@,
        ensures
            chars@ == text@,
        decreases iter.decrease()->0,
    {
        let ghost before = iter.remaining();
        let ghost collected = chars@;
        match iter.next() {
            Some(c) => {
                chars.push(c);
                assert(chars@ + iter.remaining() =~= collected + before);
            },
            None => {
                assert(collected + before =~= collected);
                break ;
            },
        }
    }
    chars
}

/// Whether `needle` stands in `haystack` at the position `at`.
fn matches_at(haystack: &Vec<char>, needle: &Vec<char>, at: usize) -> (matches: bool)
    requires
        at + needle@.len() <= haystack@.len(),
    ensures
        matches == (haystack@.subrange(at as int, at + needle@.len()) == needle@),
{
    let length = haystack.len();
    let mut i: usize = 0;
    while i < needle.len()
        invariant
            i <= needle@.len(),
            at + needle@.len() <= haystack@.len(),
            haystack@.len() == length,
            forall|j: int| 0 <= j < i ==> haystack@[at + j] == needle@[j],
        decreases needle.len() - i,
    {
        if haystack[at + i] != needle[i] {
            assert(haystack@.subrange(at as int, at + needle@.len())[i as int] != needle@[i as int]);
            return false;
        }
        i += 1;
    }
    assert(haystack@.subrange(at as int, at + needle@.len()) =~= needle@);
    true
}

/// Whether `needle` occurs in `haystack` as a contiguous run of characters.
pub fn str_contains(haystack: &str, needle: &str) -> (found: bool)
    ensures
        found == is_substring(needle@, haystack@),
{
    let hay = chars_of(haystack);
    let wanted = chars_of(needle);
    if wanted.len() > hay.len() {
        return false;
    }
    let last = hay.len() - wanted.len();
    let mut at: usize = 0;
    while at < last
        invariant
            hay@ == haystack@,
            wanted@ == needle@,
            last + wanted@.len() == hay@.len(),
            at <= last,
            forall|start: int|
                0 <= start < at ==> #[trigger] hay@.subrange(start, start + wanted@.len())
                    != wanted@,
        decreases last - at,
    {
        if matches_at(&hay, &wanted, at) {
            assert(hay@.subrange(at as int, at as int + wanted@.len()) == wanted@);
            return true;
        }
        at += 1;
    }
    let found = matches_at(&hay, &wanted, last);
    proof {
        if found {
            assert(hay@.subrange(last as int, last as int + wanted@.len()) == wanted@);
        }
    }
    found
}

/// Whether `text` begins with `prefix`.
pub fn str_starts_with(text: &str, prefix: &str) -> (starts: bool)
    ensures
        starts == prefix@.is_prefix_of(text@),
{
    let whole = chars_of(text);
    let start = chars_of(prefix);
    if start.len() > whole.len() {
        return false;
    }
    let starts = matches_at(&whole, &start, 0);
    assert(start@.is_prefix_of(whole@) == (whole@.subrange(0, start@.len() as int) == start@));
    starts
}

/// Whether two string slices hold the same characters.
pub fn str_eq(a: &str, b: &str) -> (same: bool)
    ensures
        same == (a@ == b@),
{
    let left = a.to_owned();
    let right = b.to_owned();
    left == right
}

/// An owned copy of `text`.
pub fn owned(text: &str) -> (out: String)
    ensures
        out@ == text@,
{
    text.to_owned()
}

/// `a` followed by `b`.
pub fn concat2(a: &str, b: &str) -> (out: String)
    ensures
        out@ == a@ + b@,
{
    let mut out = a.to_owned();
    out.append(b);
    out
}

/// `a`, `b` and `c` one after the other.
pub fn concat3(a: &str, b: &str, c: &str) -> (out: String)
    ensures
        out@ == a@ + b@ + c@,
{
    let mut out = a.to_owned();
    out.append(b);
    out.append(c);
    out
}

/// A copy of a list of strings.
pub fn clone_strings(items: &Vec<String>) -> (out: Vec<String>)
    ensures
        out.deep_view() == items.deep_view(),
{
    let mut out: Vec<String> = Vec::new();
    let mut i: usize = 0;
    while i < items.len()
        invariant
            i <= items.len(),
            out.len() == i,
            forall|j: int| 0 <= j < i ==> out[j]@ == items[j]@,
        decreases items.len() - i,
    {
        out.push(items[i].clone());
        i += 1;
    }
    assert(out.deep_view() =~= items.deep_view());
    out
}

/// A copy of an optional string.
pub fn clone_opt_string(item: &Option<String>) -> (out: Option<String>)
    ensures
        out.deep_view() == item.deep_view(),
{
    match item {
        Some(text) => Some(text.clone()),
        None => None,
    }
}

/// Whether two lists of strings hold the same strings in the same order.
pub fn same_strings(a: &Vec<String>, b: &Vec<String>) -> (same: bool)
    ensures
        same == (a.deep_view() == b.deep_view()),
{
    if a.len() != b.len() {
        assert(a.deep_view().len() != b.deep_view().len());
        return false;
    }
    let mut i: usize = 0;
    while i < a.len()
        invariant
            i <= a.len(),
            a.len() == b.len(),
            forall|j: int| 0 <= j < i ==> a[j]@ == b[j]@,
        decreases a.len() - i,
    {
        if a[i] != b[i] {
            assert(a.deep_view()[i as int] != b.deep_view()[i as int]);
            return false;
        }
        i += 1;
    }
    assert(a.deep_view() =~= b.deep_view());
    true
}

/// Whether two optional strings are both absent or hold the same string.
pub fn same_opt_string(a: &Option<String>, b: &Option<String>) -> (same: bool)
    ensures
        same == (a.deep_view() == b.deep_view()),
{
    match (a, b) {
        (Some(x), Some(y)) => *x == *y,
        (None, None) => true,
        _ => false,
    }
}

/// Whether `items` holds `wanted`.
pub fn contains_string(items: &Vec<String>, wanted: &str) -> (found: bool)
    ensures
        found == items.deep_view().contains(wanted@),
{
    let mut i: usize = 0;
    while i < items.len()
        invariant
            i <= items.len(),
            forall|j: int| 0 <= j < i ==> items[j]@ != wanted@,
        decreases items.len() - i,
    {
        if str_eq(items[i].as_str(), wanted) {
            assert(items.deep_view()[i as int] == wanted@);
            return true;
        }
        i += 1;
    }
    false
}

/// The items of `items` without repetition: each item stands where it first occurs.
pub open spec fn first_occurrences<A>(items: Seq<A>) -> Seq<A>
    decreases items.len(),
{
    if items.len() == 0 {
        Seq::empty()
    } else {
        let rest = first_occurrences(items.drop_last());
        if rest.contains(items.last()) {
            rest
        } else {
            rest.push(items.last())
        }
    }
}

/// `first_occurrences` lists every item exactly once: it has no duplicates,
/// holds the same items as its argument, and so is as long as the number of
/// distinct items.
pub proof fn lemma_first_occurrences<A>(items: Seq<A>)
    ensures
        first_occurrences(items).no_duplicates(),
        first_occurrences(items).to_set() == items.to_set(),
        first_occurrences(items).len() == items.to_set().len(),
    decreases items.len(),
{
    if items.len() == 0 {
        assert(first_occurrences(items).to_set() =~= items.to_set());
    } else {
        let shorter = items.drop_last();
        let rest = first_occurrences(shorter);
        lemma_first_occurrences(shorter);
        assert(items =~= shorter.push(items.last()));
        shorter.lemma_push_to_set_commute(items.last());
        if rest.contains(items.last()) {
            assert(rest.to_set().contains(items.last()));
            assert(shorter.to_set().insert(items.last()) =~= shorter.to_set());
        } else {
            rest.lemma_push_to_set_commute(items.last());
            assert forall|i: int, j: int|
                0 <= i < rest.push(items.last()).len() && 0 <= j < rest.push(items.last()).len()
                    && i != j implies rest.push(items.last())[i] != rest.push(items.last())[j] by {
                if i < rest.len() {
                    assert(rest.contains(rest[i]));
                }
                if j < rest.len() {
                    assert(rest.contains(rest[j]));
                }
            }
        }
    }
    first_occurrences(items).unique_seq_to_set();
}

/// The strings of `items` without repetition, each where it first occurs.
pub fn distinct(items: &Vec<String>) -> (out: Vec<String>)
    ensures
        out.deep_view() == first_occurrences(items.deep_view()),
{
    let mut out: Vec<String> = Vec::new();
    let mut i: usize = 0;
    let ghost all = items.deep_view();
    assert(all.take(0) =~= Seq::<Seq<char>>::empty());
    assert(out.deep_view() =~= Seq::<Seq<char>>::empty());
    while i < items.len()
        invariant
            i <= items.len(),
            all == items.deep_view(),
            out.deep_view() == first_occurrences(all.take(i as int)),
        decreases items.len() - i,
    {
        proof {
            assert(all.take(i + 1).drop_last() =~= all.take(i as int));
            assert(all.take(i + 1).last() == items[i as int]@);
        }
        if !contains_string(&out, items[i].as_str()) {
            let ghost before = out.deep_view();
            out.push(items[i].clone());
            assert(out.deep_view() =~= before.push(items[i as int]@));
        }
        i += 1;
    }
    assert(all.take(items.len() as int) =~= all);
    out
}

} // verus!
