//! Character-level text utilities shared by both engines.
//!
//! All matching in this crate is stated over sequences of Unicode code
//! points (`Seq<char>`), the view of `str` and `String`. The executable
//! helpers work on `Vec<char>` so that indexing is constant time.

use vstd::prelude::*;

verus! {

/// `String::push` appends one character to the end of the string.
pub assume_specification[ std::string::String::push ](s: &mut std::string::String, c: char)
    ensures
        final(s)@ == old(s)@.push(c),
;

/// The lowercase form of a text, as `str::to_lowercase` of the standard
/// library gives it: lowercase in the sense of Unicode, which may change
/// the number of characters.
pub uninterp spec fn lowercased(s: Seq<char>) -> Seq<char>;

/// `needle` occurs in `text` starting at index `i`.
pub open spec fn occurs_at(text: Seq<char>, needle: Seq<char>, i: int) -> bool {
    &&& 0 <= i
    &&& i + needle.len() <= text.len()
    &&& text.subrange(i, i + needle.len()) == needle
}

/// The first index at or after `from` where `needle` occurs in `text`.
pub open spec fn find_from(text: Seq<char>, needle: Seq<char>, from: int) -> Option<int>
    decreases text.len() + 1 - from,
{
    if from < 0 || from + needle.len() > text.len() {
        None
    } else if occurs_at(text, needle, from) {
        Some(from)
    } else {
        find_from(text, needle, from + 1)
    }
}

/// The strings of `parts` joined in order, with `sep` between neighbours.
pub open spec fn join(parts: Seq<Seq<char>>, sep: Seq<char>) -> Seq<char>
    decreases parts.len(),
{
    if parts.len() == 0 {
        Seq::empty()
    } else if parts.len() == 1 {
        parts[0]
    } else {
        join(parts.drop_last(), sep) + sep + parts.last()
    }
}

/// The decimal digit for a value below ten.
pub open spec fn digit_char(d: nat) -> char
    recommends
        d < 10,
{
    ((d + 48) as u8) as char
}

/// The decimal representation of `n`, without leading zeros.
pub open spec fn decimal(n: nat) -> Seq<char>
    decreases n,
{
    if n < 10 {
        seq![digit_char(n)]
    } else {
        decimal(n / 10).push(digit_char(n % 10))
    }
}

/// The index of the first of `keys`, from index `k` on, that equals `key`.
pub open spec fn first_index(keys: Seq<Seq<char>>, key: Seq<char>, k: int) -> Option<int>
    decreases keys.len() - k,
{
    if k < 0 || k >= keys.len() {
        None
    } else if keys[k] == key {
        Some(k)
    } else {
        first_index(keys, key, k + 1)
    }
}

/// The keys of a sequence of entries, in order.
pub open spec fn entry_keys<T>(entries: Seq<(Seq<char>, T)>) -> Seq<Seq<char>> {
    Seq::new(entries.len(), |i: int| entries[i].0)
}

/// No two entries have the same key.
pub open spec fn keys_distinct<T>(entries: Seq<(Seq<char>, T)>) -> bool {
    forall|i: int, j: int|
        0 <= i < j < entries.len() ==> (#[trigger] entries[i]).0 != (#[trigger] entries[j]).0
}

/// The value of the first entry with the given key.
pub open spec fn lookup<T>(entries: Seq<(Seq<char>, T)>, key: Seq<char>) -> Option<T> {
    match first_index(entry_keys(entries), key, 0) {
        Some(i) => Some(entries[i].1),
        None => None,
    }
}

/// What `first_index` finds is an index at or after `k` that holds the key,
/// and no index between `k` and it does; it finds nothing only when no
/// index from `k` on holds the key.
pub proof fn lemma_first_index(keys: Seq<Seq<char>>, key: Seq<char>, k: int)
    requires
        0 <= k,
    ensures
        match first_index(keys, key, k) {
            Some(i) => {
                &&& k <= i < keys.len()
                &&& keys[i] == key
                &&& forall|j: int| k <= j < i ==> keys[j] != key
            },
            None => forall|j: int| k <= j < keys.len() ==> keys[j] != key,
        },
    decreases keys.len() - k,
{
    if k < keys.len() && keys[k] != key {
        lemma_first_index(keys, key, k + 1);
    }
}

/// A key occurs among the keys exactly when `first_index` finds it.
pub proof fn lemma_first_index_finds(keys: Seq<Seq<char>>, key: Seq<char>)
    ensures
        first_index(keys, key, 0) is Some <==> exists|j: int| 0 <= j < keys.len() && keys[j] == key,
{
    lemma_first_index(keys, key, 0);
}

/// Entries after storing `value` under `key`: the first entry with that key
/// replaced, or a new entry added at the end.
pub open spec fn inserted<T>(entries: Seq<(Seq<char>, T)>, key: Seq<char>, value: T) -> Seq<
    (Seq<char>, T),
> {
    match first_index(entry_keys(entries), key, 0) {
        Some(i) => entries.update(i, (key, value)),
        None => entries.push((key, value)),
    }
}

/// After storing a value under a key, some entry holds exactly that key
/// and value.
pub proof fn lemma_inserted_holds<T>(entries: Seq<(Seq<char>, T)>, key: Seq<char>, value: T)
    ensures
        exists|p: int|
            0 <= p < inserted(entries, key, value).len() && #[trigger] inserted(
                entries,
                key,
                value,
            )[p] == (key, value),
{
    let after = inserted(entries, key, value);
    lemma_first_index(entry_keys(entries), key, 0);
    match first_index(entry_keys(entries), key, 0) {
        Some(i) => {
            assert(after[i] == (key, value));
        },
        None => {
            assert(after[entries.len() as int] == (key, value));
        },
    }
}

/// Storing a value under a key removes no key.
pub proof fn lemma_inserted_keeps_keys<T>(
    entries: Seq<(Seq<char>, T)>,
    key: Seq<char>,
    value: T,
    other: Seq<char>,
)
    requires
        first_index(entry_keys(entries), other, 0) is Some,
    ensures
        first_index(entry_keys(inserted(entries, key, value)), other, 0) is Some,
{
    let after = inserted(entries, key, value);
    lemma_first_index_finds(entry_keys(entries), other);
    lemma_first_index(entry_keys(entries), key, 0);
    let j = choose|j: int| 0 <= j < entry_keys(entries).len() && entry_keys(entries)[j] == other;
    assert(entry_keys(after)[j] == other);
    lemma_first_index_finds(entry_keys(after), other);
}

/// `find_from` returns the least index at or after `from` where the needle
/// occurs, and `None` exactly when there is no such index.
pub proof fn lemma_find_from_is_first(text: Seq<char>, needle: Seq<char>, from: int)
    requires
        0 <= from,
    ensures
        match find_from(text, needle, from) {
            Some(i) => {
                &&& from <= i
                &&& occurs_at(text, needle, i)
                &&& forall|j: int| from <= j < i ==> !occurs_at(text, needle, j)
            },
            None => forall|j: int| from <= j ==> !occurs_at(text, needle, j),
        },
    decreases text.len() + 1 - from,
{
    if from + needle.len() > text.len() {
    } else if occurs_at(text, needle, from) {
    } else {
        lemma_find_from_is_first(text, needle, from + 1);
    }
}

/// The characters of `s`, in order.
pub fn to_chars(s: &str) -> (v: Vec<char>)
    ensures
        v@ == s@,
{
    broadcast use vstd::string::axiom_spec_iter;

    let mut v: Vec<char> = Vec::new();
    let chars = s.chars();
    for c in it: chars
        invariant
            it.seq() == s@,
            v@ == s@.take(it.index()),
    {
        v.push(c);
    }
    v
}

/// The string made of the characters of `v`, in order.
pub fn from_chars(v: &Vec<char>) -> (s: String)
    ensures
        s@ == v@,
{
    let mut s = String::new();
    let mut i: usize = 0;
    while i < v.len()
        invariant
            i <= v.len(),
            s@ == v@.take(i as int),
        decreases v.len() - i,
    {
        s.push(v[i]);
        i += 1;
    }
    s
}

/// Lowercases a string with `str::to_lowercase`. The result depends on
/// the string alone; nothing else is claimed of it.
#[verifier::external_body]
pub(crate) fn lowercase_str(s: &str) -> (r: String)
    ensures
        r@ == lowercased(s@),
{
    s.to_lowercase()
}

/// The characters of the lowercase form of a string.
pub fn lowercase_chars(s: &str) -> (r: Vec<char>)
    ensures
        r@ == lowercased(s@),
{
    let lower = lowercase_str(s);
    to_chars(lower.as_str())
}

/// The lowercase form of a text given as characters.
pub fn to_lowercase(v: &Vec<char>) -> (r: Vec<char>)
    ensures
        r@ == lowercased(v@),
{
    let text = from_chars(v);
    lowercase_chars(text.as_str())
}

/// Whether two texts hold the same characters.
pub fn chars_eq(a: &Vec<char>, b: &Vec<char>) -> (r: bool)
    ensures
        r == (a@ == b@),
{
    if a.len() != b.len() {
        return false;
    }
    let mut i: usize = 0;
    while i < a.len()
        invariant
            i <= a.len(),
            a.len() == b.len(),
            a@.take(i as int) == b@.take(i as int),
        decreases a.len() - i,
    {
        if a[i] != b[i] {
            return false;
        }
        i += 1;
        assert(a@.take(i as int) =~= a@.take(i - 1).push(a@[i - 1]));
        assert(b@.take(i as int) =~= b@.take(i - 1).push(b@[i - 1]));
    }
    assert(a@.take(a.len() as int) == a@);
    assert(b@.take(b.len() as int) == b@);
    true
}

/// Whether `needle` occurs in `text` at index `at`.
pub fn matches_at(text: &Vec<char>, needle: &Vec<char>, at: usize) -> (r: bool)
    ensures
        r == occurs_at(text@, needle@, at as int),
{
    if needle.len() > text.len() || at > text.len() - needle.len() {
        return false;
    }
    let mut k: usize = 0;
    while k < needle.len()
        invariant
            k <= needle.len(),
            at + needle.len() <= text.len(),
            text@.subrange(at as int, at + k) == needle@.take(k as int),
        decreases needle.len() - k,
    {
        if text[at + k] != needle[k] {
            assert(text@.subrange(at as int, at + needle.len())[k as int] != needle@[k as int]);
            return false;
        }
        k += 1;
        assert(text@.subrange(at as int, at + k) =~= text@.subrange(at as int, at + k - 1).push(
            text@[at + k - 1],
        ));
        assert(needle@.take(k as int) =~= needle@.take(k - 1).push(needle@[k - 1]));
    }
    assert(needle@.take(needle.len() as int) == needle@);
    true
}

/// The first index at or after `from` where `needle` occurs in `text`.
pub fn find(text: &Vec<char>, needle: &Vec<char>, from: usize) -> (r: Option<usize>)
    ensures
        match r {
            Some(i) => {
                &&& find_from(text@, needle@, from as int) == Some(i as int)
                &&& from <= i
                &&& i + needle.len() <= text.len()
            },
            None => find_from(text@, needle@, from as int) is None,
        },
{
    if needle.len() > text.len() || from > text.len() - needle.len() {
        return None;
    }
    let last: usize = text.len() - needle.len();
    let mut i: usize = from;
    loop
        invariant
            from <= i <= last,
            last + needle.len() == text.len(),
            find_from(text@, needle@, from as int) == find_from(text@, needle@, i as int),
        decreases last - i,
    {
        if matches_at(text, needle, i) {
            return Some(i);
        }
        if i == last {
            assert(find_from(text@, needle@, i + 1) is None);
            return None;
        }
        i += 1;
    }
}

/// A copy of the characters of `v` from `start` up to `end`.
pub fn slice(v: &Vec<char>, start: usize, end: usize) -> (r: Vec<char>)
    requires
        start <= end <= v.len(),
    ensures
        r@ == v@.subrange(start as int, end as int),
{
    let mut r: Vec<char> = Vec::new();
    let mut i: usize = start;
    while i < end
        invariant
            start <= i <= end <= v.len(),
            r@ == v@.subrange(start as int, i as int),
        decreases end - i,
    {
        r.push(v[i]);
        i += 1;
        assert(r@ =~= v@.subrange(start as int, i as int));
    }
    r
}

/// Appends the characters of `tail` to `v`.
pub fn append(v: &mut Vec<char>, tail: &Vec<char>)
    ensures
        final(v)@ == old(v)@ + tail@,
{
    let mut i: usize = 0;
    while i < tail.len()
        invariant
            i <= tail.len(),
            v@ == old(v)@ + tail@.take(i as int),
        decreases tail.len() - i,
    {
        v.push(tail[i]);
        i += 1;
        assert(v@ =~= old(v)@ + tail@.take(i as int));
    }
    assert(tail@.take(tail.len() as int) == tail@);
}

/// Appends the characters of the string `tail` to `v`.
pub fn append_str(v: &mut Vec<char>, tail: &str)
    ensures
        final(v)@ == old(v)@ + tail@,
{
    let t = to_chars(tail);
    append(v, &t);
}

/// Appends the decimal representation of `n` to `v`.
pub fn append_decimal(v: &mut Vec<char>, n: u32)
    ensures
        final(v)@ == old(v)@ + decimal(n as nat),
    decreases n,
{
    if n >= 10 {
        append_decimal(v, n / 10);
    }
    let d: u8 = (n % 10) as u8;
    v.push((d + 48u8) as char);
    assert(v@ =~= old(v)@ + decimal(n as nat));
}

} // verus!
