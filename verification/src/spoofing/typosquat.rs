//! Detection of server names that imitate a whitelisted name.
//!
//! A candidate is reported when it is similar enough to a whitelisted name
//! and either differs from it in exactly one character or turns into it
//! when look-alike characters are replaced.

use crate::spoofing::config::{GuardConfig, WhitelistEntryView};
use crate::spoofing::levenshtein::{similarity, similarity_of, Fraction, Ratio};
use crate::text::{chars_eq, from_chars, lowercase_chars, lowercased, to_chars};
use vstd::prelude::*;

verus! {

/// A text with every occurrence of `from` replaced by `to`.
pub open spec fn replace_char(s: Seq<char>, from: char, to: char) -> Seq<char> {
    Seq::new(
        s.len(),
        |i: int|
            if s[i] == from {
                to
            } else {
                s[i]
            },
    )
}

/// The homoglyph cascade: nine replacements over the whole text, each
/// applied to the result of the one before, in this order:
/// `0→o`, `1→l`, `I→l`, `|→l`, `1→i`, `l→i`, `|→i`, `@→a`, `3→e`.
///
/// Because `l→i` comes after the replacements that produce `l`, every `l`
/// ends up as `i`, those of the text as given included. Names with a
/// genuine `l` are therefore changed by the cascade; this is kept as it is
/// for compatibility.
pub open spec fn normalize_homoglyphs_spec(s: Seq<char>) -> Seq<char> {
    let s = replace_char(s, '0', 'o');
    let s = replace_char(s, '1', 'l');
    let s = replace_char(s, 'I', 'l');
    let s = replace_char(s, '|', 'l');
    let s = replace_char(s, '1', 'i');
    let s = replace_char(s, 'l', 'i');
    let s = replace_char(s, '|', 'i');
    let s = replace_char(s, '@', 'a');
    replace_char(s, '3', 'e')
}

/// What the cascade does to a single character.
pub open spec fn homoglyph_of(c: char) -> char {
    if c == '0' {
        'o'
    } else if c == '1' || c == 'I' || c == '|' || c == 'l' {
        'i'
    } else if c == '@' {
        'a'
    } else if c == '3' {
        'e'
    } else {
        c
    }
}

/// The cascade is the same as mapping every character on its own: `0` to
/// `o`; `1`, `I`, `|` and `l` to `i`; `@` to `a`; `3` to `e`.
pub proof fn lemma_cascade_is_char_map(s: Seq<char>)
    ensures
        normalize_homoglyphs_spec(s) == Seq::new(s.len(), |i: int| homoglyph_of(s[i])),
{
    assert(normalize_homoglyphs_spec(s) =~= Seq::new(s.len(), |i: int| homoglyph_of(s[i])));
}

/// The number of positions below `n` at which `a` and `b` differ.
pub open spec fn differences(a: Seq<char>, b: Seq<char>, n: int) -> nat
    decreases n,
{
    if n <= 0 {
        0
    } else {
        differences(a, b, n - 1) + if a[n - 1] != b[n - 1] {
            1nat
        } else {
            0nat
        }
    }
}

/// The two texts have the same length and differ in exactly one position.
pub open spec fn single_substitution(a: Seq<char>, b: Seq<char>) -> bool {
    a.len() == b.len() && differences(a, b, a.len() as int) == 1
}

/// The secondary heuristic: `suspect` differs from `approved` in exactly
/// one character, or is a different text that the homoglyph cascade turns
/// into `approved`.
pub open spec fn typosquat_pattern(approved: Seq<char>, suspect: Seq<char>) -> bool {
    single_substitution(approved, suspect) || (normalize_homoglyphs_spec(suspect) == approved
        && approved != suspect)
}

/// Whether the name `test` counts as a typosquat of the name `approved`,
/// both in lowercase: they differ, are similar to at least the threshold,
/// and show one of the typosquat patterns.
pub open spec fn typosquat_between(
    approved: Seq<char>,
    test: Seq<char>,
    threshold: Fraction,
) -> bool {
    &&& approved != test
    &&& similarity(approved, test).at_least(threshold)
    &&& typosquat_pattern(approved, test)
}

/// Whether `candidate` counts as a typosquat of the whitelisted `name`,
/// letter case aside.
pub open spec fn is_typosquat_of(
    name: Seq<char>,
    candidate: Seq<char>,
    threshold: Fraction,
) -> bool {
    typosquat_between(lowercased(name), lowercased(candidate), threshold)
}

/// The index of the first whitelist entry, from index `k` on, that
/// `candidate` is a typosquat of.
pub open spec fn typosquat_index(
    whitelist: Seq<WhitelistEntryView>,
    candidate: Seq<char>,
    threshold: Fraction,
    k: int,
) -> Option<int>
    decreases whitelist.len() - k,
{
    if k < 0 || k >= whitelist.len() {
        None
    } else if is_typosquat_of(whitelist[k].name, candidate, threshold) {
        Some(k)
    } else {
        typosquat_index(whitelist, candidate, threshold, k + 1)
    }
}

/// The name of the first whitelist entry that `candidate` is a typosquat
/// of.
pub open spec fn typosquat_target(
    whitelist: Seq<WhitelistEntryView>,
    candidate: Seq<char>,
    threshold: Fraction,
) -> Option<Seq<char>> {
    match typosquat_index(whitelist, candidate, threshold, 0) {
        Some(k) => Some(whitelist[k].name),
        None => None,
    }
}

/// A whitelist entry that has the candidate's own name, letter case aside,
/// is never reported as the target of a typosquat.
pub proof fn lemma_own_entry_is_not_reported(
    whitelist: Seq<WhitelistEntryView>,
    candidate: Seq<char>,
    threshold: Fraction,
    from: int,
    k: int,
)
    requires
        0 <= from,
        0 <= k < whitelist.len(),
        lowercased(whitelist[k].name) == lowercased(candidate),
    ensures
        typosquat_index(whitelist, candidate, threshold, from) != Some(k),
    decreases whitelist.len() - from,
{
    if from < whitelist.len() && !is_typosquat_of(whitelist[from].name, candidate, threshold) {
        lemma_own_entry_is_not_reported(whitelist, candidate, threshold, from + 1, k);
    }
}

/// Against a whitelist of one entry, a name equal to that entry's name,
/// letter case aside, is no typosquat.
pub proof fn lemma_exact_match_is_not_detected(
    entry: WhitelistEntryView,
    candidate: Seq<char>,
    threshold: Fraction,
)
    requires
        lowercased(entry.name) == lowercased(candidate),
    ensures
        typosquat_target(seq![entry], candidate, threshold) is None,
{
    let whitelist = seq![entry];
    assert(typosquat_index(whitelist, candidate, threshold, 1) is None);
}

/// Replaces every occurrence of `from` by `to`.
fn replace_all(s: &mut Vec<char>, from: char, to: char)
    ensures
        final(s)@ == replace_char(old(s)@, from, to),
{
    let mut i: usize = 0;
    while i < s.len()
        invariant
            i <= s.len(),
            s.len() == old(s).len(),
            forall|j: int| 0 <= j < i ==> s@[j] == replace_char(old(s)@, from, to)[j],
            forall|j: int| i <= j < s.len() ==> s@[j] == old(s)@[j],
        decreases s.len() - i,
    {
        if s[i] == from {
            s.set(i, to);
        }
        i += 1;
    }
    assert(s@ =~= replace_char(old(s)@, from, to));
}

/// Applies the homoglyph cascade to the characters of a text.
pub fn normalize_homoglyph_chars(s: &Vec<char>) -> (r: Vec<char>)
    ensures
        r@ == normalize_homoglyphs_spec(s@),
{
    let mut result = crate::text::slice(s, 0, s.len());
    assert(result@ =~= s@);
    replace_all(&mut result, '0', 'o');
    replace_all(&mut result, '1', 'l');
    replace_all(&mut result, 'I', 'l');
    replace_all(&mut result, '|', 'l');
    replace_all(&mut result, '1', 'i');
    replace_all(&mut result, 'l', 'i');
    replace_all(&mut result, '|', 'i');
    replace_all(&mut result, '@', 'a');
    replace_all(&mut result, '3', 'e');
    result
}

/// Normalises homoglyphs by replacing look-alike characters, in the fixed
/// order of the cascade.
pub fn normalize_homoglyphs(s: &str) -> (r: String)
    ensures
        r@ == normalize_homoglyphs_spec(s@),
{
    let chars = to_chars(s);
    let normalized = normalize_homoglyph_chars(&chars);
    from_chars(&normalized)
}

/// Whether two texts of characters show a typosquat pattern.
pub fn is_typosquat_pattern_chars(approved: &Vec<char>, suspect: &Vec<char>) -> (r: bool)
    ensures
        r == typosquat_pattern(approved@, suspect@),
{
    if approved.len() == suspect.len() {
        let mut diffs: usize = 0;
        let mut i: usize = 0;
        while i < approved.len()
            invariant
                i <= approved.len(),
                approved.len() == suspect.len(),
                diffs == differences(approved@, suspect@, i as int),
                diffs <= i,
            decreases approved.len() - i,
        {
            if approved[i] != suspect[i] {
                diffs += 1;
            }
            i += 1;
        }
        if diffs == 1 {
            return true;
        }
    }
    let normalized = normalize_homoglyph_chars(suspect);
    chars_eq(approved, &normalized) && !chars_eq(approved, suspect)
}

/// Checks for the common typosquat patterns: a single substituted
/// character, or look-alike characters.
pub fn is_typosquat_pattern(approved: &str, suspect: &str) -> (r: bool)
    ensures
        r == typosquat_pattern(approved@, suspect@),
{
    let a = to_chars(approved);
    let s = to_chars(suspect);
    is_typosquat_pattern_chars(&a, &s)
}

/// Whether the name `test` counts as a typosquat of the name `approved`,
/// both given in lowercase.
pub fn is_typosquat_between(approved: &Vec<char>, test: &Vec<char>, threshold: &Ratio) -> (r: bool)
    ensures
        r == typosquat_between(approved@, test@, threshold@),
{
    if chars_eq(approved, test) {
        return false;
    }
    let ratio = similarity_of(approved, test);
    ratio.ge(threshold) && is_typosquat_pattern_chars(approved, test)
}

/// Detects whether `server_name` is a typosquat of a whitelisted server and
/// returns the name of the first such server.
pub fn detect_typosquat(config: &GuardConfig, server_name: &str) -> (r: Option<String>)
    ensures
        r.deep_view() == typosquat_target(
            config@.whitelist,
            server_name@,
            config@.typosquat_similarity_threshold,
        ),
{
    let ghost whitelist = config@.whitelist;
    let ghost threshold = config@.typosquat_similarity_threshold;
    let test_name = lowercase_chars(server_name);
    let mut i: usize = 0;
    while i < config.whitelist.len()
        invariant
            i <= config.whitelist.len(),
            whitelist == config.whitelist.deep_view(),
            threshold == config.typosquat_similarity_threshold@,
            test_name@ == lowercased(server_name@),
            typosquat_index(whitelist, server_name@, threshold, 0) == typosquat_index(
                whitelist,
                server_name@,
                threshold,
                i as int,
            ),
        decreases config.whitelist.len() - i,
    {
        assert(whitelist[i as int] == config.whitelist@[i as int]@);
        let entry = &config.whitelist[i];
        let approved_name = lowercase_chars(entry.name.as_str());
        if is_typosquat_between(
            &approved_name,
            &test_name,
            &config.typosquat_similarity_threshold,
        ) {
            return Some(entry.name.clone());
        }
        i += 1;
    }
    None
}

} // verus!
