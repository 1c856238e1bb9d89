//! The risk-scoring engine.
//!
//! A scan truncates the text, normalises it once, lets every enabled
//! category contribute at most one match, adds one match for every custom
//! pattern that occurs, and sums the weights with saturation.

use crate::injection::categories::{
    builtin_categories, categories, category_from, category_index, custom_category_name,
    hidden_category_name, lemma_category_named,
};
use crate::injection::patterns::{
    custom_match, find_custom, find_pattern, has_zero_width_run, has_zero_width_run_chars,
    normalize, normalize_chars, pattern_match, PatternCategory, PatternCategoryView, PatternMatch,
    PatternMatchView, Terms,
};
use crate::text::{append_str, chars_eq, from_chars, slice, to_chars};
use vstd::prelude::*;
use vstd::string::StringExecFns;

verus! {

/// The longest evidence text that is reported unshortened.
pub const MAX_EVIDENCE_CHARS: usize = 100;

/// The mathematical content of a [`ScanResult`].
pub struct ScanResultView {
    pub total_score: u32,
    pub matches: Seq<PatternMatchView>,
}

/// The outcome of one scan.
#[derive(Debug, Clone)]
pub struct ScanResult {
    /// Saturating sum of the weights of all matches.
    pub total_score: u32,
    /// The matches, in the order in which they were found.
    pub matches: Vec<PatternMatch>,
}

impl View for ScanResult {
    type V = ScanResultView;

    open spec fn view(&self) -> ScanResultView {
        ScanResultView { total_score: self.total_score, matches: self.matches.deep_view() }
    }
}

impl DeepView for ScanResult {
    type V = ScanResultView;

    open spec fn deep_view(&self) -> ScanResultView {
        self.view()
    }
}

/// The number of bytes that a character takes in UTF-8.
pub open spec fn utf8_len(c: char) -> nat {
    if (c as u32) < 0x80 {
        1
    } else if (c as u32) < 0x800 {
        2
    } else if (c as u32) < 0x10000 {
        3
    } else {
        4
    }
}

/// The number of bytes that a text takes in UTF-8.
pub open spec fn byte_len(s: Seq<char>) -> nat
    decreases s.len(),
{
    if s.len() == 0 {
        0
    } else {
        byte_len(s.drop_last()) + utf8_len(s.last())
    }
}

/// The longest prefix of `s` that takes at most `max` bytes in UTF-8.
pub open spec fn truncate_bytes(s: Seq<char>, max: nat) -> Seq<char>
    decreases s.len(),
{
    if byte_len(s) <= max || s.len() == 0 {
        s
    } else {
        truncate_bytes(s.drop_last(), max)
    }
}

/// Evidence text as it is reported: at most `max_len` characters, with
/// `...` appended when something was cut off.
pub open spec fn cap_evidence(s: Seq<char>, max_len: nat) -> Seq<char> {
    if s.len() > max_len {
        s.take(max_len as int) + "..."@
    } else {
        s
    }
}

/// The text matched by the first pattern, from index `k` on, that matches.
pub open spec fn first_pattern_match(text: Seq<char>, patterns: Seq<Terms>, k: int) -> Option<
    Seq<char>,
>
    decreases patterns.len() - k,
{
    if k < 0 || k >= patterns.len() {
        None
    } else {
        match pattern_match(text, patterns[k]) {
            Some(matched) => Some(matched),
            None => first_pattern_match(text, patterns, k + 1),
        }
    }
}

/// Some match in `matches` is reported under `name`.
pub open spec fn has_category(matches: Seq<PatternMatchView>, name: Seq<char>) -> bool {
    exists|i: int| 0 <= i < matches.len() && (#[trigger] matches[i]).category == name
}

/// What the keyword patterns of a category contribute: one match for the
/// first pattern that matches the normalised text, nothing otherwise.
pub open spec fn keyword_matches(norm: Seq<char>, cat: PatternCategoryView) -> Seq<
    PatternMatchView,
> {
    match first_pattern_match(norm, cat.patterns, 0) {
        Some(matched) => seq![
            PatternMatchView {
                category: cat.name,
                matched_text: cap_evidence(matched, MAX_EVIDENCE_CHARS as nat),
                weight: cat.weight,
            },
        ],
        None => Seq::empty(),
    }
}

/// What the zero-width rule contributes: one match for the category of
/// hidden instructions when the raw text holds a run of zero-width
/// characters and no match of that category has been seen yet.
pub open spec fn zero_width_matches(
    raw: Seq<char>,
    cat: PatternCategoryView,
    seen: Seq<PatternMatchView>,
) -> Seq<PatternMatchView> {
    if cat.name == hidden_category_name() && has_zero_width_run(raw) && !has_category(
        seen,
        hidden_category_name(),
    ) {
        seq![
            PatternMatchView {
                category: hidden_category_name(),
                matched_text: "(zero-width characters detected)"@,
                weight: cat.weight,
            },
        ]
    } else {
        Seq::empty()
    }
}

/// What one entry of the list of enabled categories contributes, given the
/// matches found before it. A name that no built-in category has
/// contributes nothing.
pub open spec fn category_matches(
    raw: Seq<char>,
    norm: Seq<char>,
    name: Seq<char>,
    prior: Seq<PatternMatchView>,
) -> Seq<PatternMatchView> {
    match category_from(builtin_categories(), name, 0) {
        Some(cat) => {
            let keyword = keyword_matches(norm, cat);
            keyword + zero_width_matches(raw, cat, prior + keyword)
        },
        None => Seq::empty(),
    }
}

/// The matches of all enabled categories, in the order of the list.
pub open spec fn scan_categories(raw: Seq<char>, norm: Seq<char>, enabled: Seq<Seq<char>>) -> Seq<
    PatternMatchView,
>
    decreases enabled.len(),
{
    if enabled.len() == 0 {
        Seq::empty()
    } else {
        let prior = scan_categories(raw, norm, enabled.drop_last());
        prior + category_matches(raw, norm, enabled.last(), prior)
    }
}

/// What one custom pattern contributes: a match of category `custom` with
/// the pattern's own weight when its lowercase form occurs in the
/// normalised text.
pub open spec fn custom_pattern_matches(norm: Seq<char>, pattern: Seq<char>, weight: u32) -> Seq<
    PatternMatchView,
> {
    match custom_match(norm, pattern) {
        Some(matched) => seq![
            PatternMatchView {
                category: custom_category_name(),
                matched_text: cap_evidence(matched, MAX_EVIDENCE_CHARS as nat),
                weight,
            },
        ],
        None => Seq::empty(),
    }
}

/// The matches of all custom patterns, in the order of the list.
pub open spec fn scan_custom(norm: Seq<char>, custom: Seq<(Seq<char>, u32)>) -> Seq<
    PatternMatchView,
>
    decreases custom.len(),
{
    if custom.len() == 0 {
        Seq::empty()
    } else {
        scan_custom(norm, custom.drop_last()) + custom_pattern_matches(
            norm,
            custom.last().0,
            custom.last().1,
        )
    }
}

/// The exact sum of the weights of a list of matches.
pub open spec fn weight_sum(matches: Seq<PatternMatchView>) -> nat
    decreases matches.len(),
{
    if matches.len() == 0 {
        0
    } else {
        weight_sum(matches.drop_last()) + matches.last().weight as nat
    }
}

/// A sum as a score: capped at the largest `u32`.
pub open spec fn saturate(n: nat) -> u32 {
    if n > u32::MAX {
        u32::MAX
    } else {
        n as u32
    }
}

/// All matches of a scan: those of the enabled categories, then those of
/// the custom patterns.
pub open spec fn scan_matches(
    text: Seq<char>,
    enabled: Seq<Seq<char>>,
    custom: Seq<(Seq<char>, u32)>,
    max_scan_length: nat,
) -> Seq<PatternMatchView> {
    let raw = truncate_bytes(text, max_scan_length);
    let norm = normalize(raw);
    scan_categories(raw, norm, enabled) + scan_custom(norm, custom)
}

/// The result of a scan.
pub open spec fn scan(
    text: Seq<char>,
    enabled: Seq<Seq<char>>,
    custom: Seq<(Seq<char>, u32)>,
    max_scan_length: nat,
) -> ScanResultView {
    let matches = scan_matches(text, enabled, custom, max_scan_length);
    ScanResultView { total_score: saturate(weight_sum(matches)), matches }
}

proof fn lemma_encoded_len_push(s: Seq<char>, c: char)
    ensures
        vstd::utf8::encode_utf8(s.push(c)).len() == vstd::utf8::encode_utf8(s).len() + utf8_len(c),
    decreases s.len(),
{
    vstd::utf8::char_is_scalar(c);
    if s.len() == 0 {
        assert(s.push(c).drop_first() =~= s);
    } else {
        assert(s.push(c).drop_first() =~= s.drop_first().push(c));
        lemma_encoded_len_push(s.drop_first(), c);
    }
}

/// The byte length of a text is the length of its encoding in UTF-8.
pub proof fn lemma_byte_len_is_encoded_len(s: Seq<char>)
    ensures
        byte_len(s) == vstd::utf8::encode_utf8(s).len(),
    decreases s.len(),
{
    if s.len() > 0 {
        lemma_byte_len_is_encoded_len(s.drop_last());
        lemma_encoded_len_push(s.drop_last(), s.last());
        assert(s.drop_last().push(s.last()) =~= s);
    }
}

proof fn lemma_byte_len_prefix(s: Seq<char>, j: int)
    requires
        0 <= j <= s.len(),
    ensures
        byte_len(s.take(j)) <= byte_len(s),
    decreases s.len() - j,
{
    if j == s.len() {
        assert(s.take(j) == s);
    } else {
        lemma_byte_len_prefix(s.drop_last(), j);
        assert(s.drop_last().take(j) == s.take(j));
    }
}

proof fn lemma_truncate_at(s: Seq<char>, max: nat, i: int)
    requires
        0 <= i <= s.len(),
        byte_len(s.take(i)) <= max,
        i < s.len() ==> byte_len(s.take(i + 1)) > max,
    ensures
        truncate_bytes(s, max) == s.take(i),
    decreases s.len(),
{
    if i == s.len() {
        assert(s.take(i) == s);
    } else {
        lemma_byte_len_prefix(s, i + 1);
        assert(s.drop_last().take(i) == s.take(i));
        if i + 1 < s.len() {
            assert(s.drop_last().take(i + 1) == s.take(i + 1));
        }
        lemma_truncate_at(s.drop_last(), max, i);
    }
}

/// The truncated text is the longest prefix within the byte limit.
pub proof fn lemma_truncate_bytes(s: Seq<char>, max: nat)
    ensures
        truncate_bytes(s, max).is_prefix_of(s),
        byte_len(truncate_bytes(s, max)) <= max,
        forall|j: int|
            truncate_bytes(s, max).len() < j <= s.len() ==> byte_len(#[trigger] s.take(j)) > max,
    decreases s.len(),
{
    let t = truncate_bytes(s, max);
    if byte_len(s) <= max || s.len() == 0 {
    } else {
        lemma_truncate_bytes(s.drop_last(), max);
        assert forall|j: int| t.len() < j <= s.len() implies byte_len(#[trigger] s.take(j))
            > max by {
            if j == s.len() {
                assert(s.take(j) == s);
            } else {
                assert(s.drop_last().take(j) == s.take(j));
            }
        }
    }
}

proof fn lemma_weight_sum_push(matches: Seq<PatternMatchView>, m: PatternMatchView)
    ensures
        weight_sum(matches.push(m)) == weight_sum(matches) + m.weight as nat,
{
    assert(matches.push(m).drop_last() == matches);
}

/// The weight of a concatenation is the sum of the weights of its parts.
pub proof fn lemma_weight_sum_add(a: Seq<PatternMatchView>, b: Seq<PatternMatchView>)
    ensures
        weight_sum(a + b) == weight_sum(a) + weight_sum(b),
    decreases b.len(),
{
    if b.len() == 0 {
        assert(a + b == a);
    } else {
        lemma_weight_sum_add(a, b.drop_last());
        assert((a + b).drop_last() == a + b.drop_last());
    }
}

/// A category contributes at most one match, and so its weight at most
/// once, however many of its patterns match the text and whether or not the
/// zero-width rule applies as well.
pub proof fn lemma_category_contributes_at_most_once(
    raw: Seq<char>,
    norm: Seq<char>,
    name: Seq<char>,
    prior: Seq<PatternMatchView>,
)
    ensures
        category_matches(raw, norm, name, prior).len() <= 1,
        category_from(builtin_categories(), name, 0) is None ==> category_matches(
            raw,
            norm,
            name,
            prior,
        ).len() == 0,
        category_from(builtin_categories(), name, 0) matches Some(cat) ==> {
            &&& weight_sum(category_matches(raw, norm, name, prior)) <= cat.weight
            &&& forall|i: int|
                0 <= i < category_matches(raw, norm, name, prior).len() ==> {
                    &&& (#[trigger] category_matches(raw, norm, name, prior)[i]).category
                        == cat.name
                    &&& category_matches(raw, norm, name, prior)[i].weight == cat.weight
                }
        },
{
    match category_from(builtin_categories(), name, 0) {
        Some(cat) => {
            let keyword = keyword_matches(norm, cat);
            let extra = zero_width_matches(raw, cat, prior + keyword);
            if keyword.len() > 0 {
                assert((prior + keyword)[prior.len() as int] == keyword[0]);
                assert(extra.len() == 0);
                assert(keyword + extra == keyword);
            } else {
                assert(keyword + extra == extra);
            }
            let all = keyword + extra;
            if all.len() == 1 {
                assert(all.drop_last().len() == 0);
                assert(weight_sum(all) == all[0].weight) by {
                    assert(weight_sum(all.drop_last()) == 0);
                }
            }
        },
        None => {},
    }
}

/// Every match of the enabled categories is reported under the name of one
/// of the entries of the list.
pub proof fn lemma_matches_carry_enabled_names(
    raw: Seq<char>,
    norm: Seq<char>,
    enabled: Seq<Seq<char>>,
)
    ensures
        forall|i: int|
            0 <= i < scan_categories(raw, norm, enabled).len() ==> exists|e: int|
                0 <= e < enabled.len() && enabled[e] == (#[trigger] scan_categories(
                    raw,
                    norm,
                    enabled,
                )[i]).category,
    decreases enabled.len(),
{
    if enabled.len() > 0 {
        let earlier = enabled.drop_last();
        let prior = scan_categories(raw, norm, earlier);
        let step = category_matches(raw, norm, enabled.last(), prior);
        let all = scan_categories(raw, norm, enabled);
        lemma_matches_carry_enabled_names(raw, norm, earlier);
        lemma_category_contributes_at_most_once(raw, norm, enabled.last(), prior);
        lemma_category_named(enabled.last());
        assert forall|i: int| 0 <= i < all.len() implies exists|e: int|
            0 <= e < enabled.len() && enabled[e] == (#[trigger] all[i]).category by {
            if i < prior.len() {
                assert(all[i] == prior[i]);
                let e = choose|e: int| 0 <= e < earlier.len() && earlier[e] == prior[i].category;
                assert(enabled[e] == earlier[e]);
            } else {
                assert(all[i] == step[i - prior.len()]);
                assert(enabled[enabled.len() - 1] == all[i].category);
            }
        }
    }
}

/// Where no category is enabled twice, no two matches of the enabled
/// categories are reported under the same name: every category counts at
/// most once in a scan.
pub proof fn lemma_one_match_per_category(raw: Seq<char>, norm: Seq<char>, enabled: Seq<Seq<char>>)
    requires
        enabled.no_duplicates(),
    ensures
        forall|i: int, j: int|
            0 <= i < j < scan_categories(raw, norm, enabled).len() ==> (#[trigger] scan_categories(
                raw,
                norm,
                enabled,
            )[i]).category != (#[trigger] scan_categories(raw, norm, enabled)[j]).category,
    decreases enabled.len(),
{
    if enabled.len() > 0 {
        let earlier = enabled.drop_last();
        let prior = scan_categories(raw, norm, earlier);
        let step = category_matches(raw, norm, enabled.last(), prior);
        let all = scan_categories(raw, norm, enabled);
        assert(earlier.no_duplicates()) by {
            assert forall|a: int, b: int| 0 <= a < earlier.len() && 0 <= b < earlier.len() && a
                != b implies earlier[a] != earlier[b] by {
                assert(earlier[a] == enabled[a] && earlier[b] == enabled[b]);
            }
        }
        lemma_one_match_per_category(raw, norm, earlier);
        lemma_matches_carry_enabled_names(raw, norm, earlier);
        lemma_category_contributes_at_most_once(raw, norm, enabled.last(), prior);
        lemma_category_named(enabled.last());
        assert forall|i: int, j: int| 0 <= i < j < all.len() implies (#[trigger] all[i]).category
            != (#[trigger] all[j]).category by {
            if j < prior.len() {
                assert(all[i] == prior[i] && all[j] == prior[j]);
            } else {
                assert(all[j] == step[j - prior.len()]);
                assert(all[i] == prior[i]);
                let e = choose|e: int| 0 <= e < earlier.len() && earlier[e] == prior[i].category;
                assert(enabled[e] == earlier[e]);
                assert(enabled[e] != enabled[enabled.len() - 1]);
            }
        }
    }
}

/// Custom patterns are not capped: each one that occurs in the text adds
/// its own match and its own weight, whatever the others do.
pub proof fn lemma_custom_pattern_contributes_independently(
    norm: Seq<char>,
    custom: Seq<(Seq<char>, u32)>,
    pattern: Seq<char>,
    weight: u32,
)
    ensures
        scan_custom(norm, custom.push((pattern, weight))) == scan_custom(norm, custom)
            + custom_pattern_matches(norm, pattern, weight),
        weight_sum(scan_custom(norm, custom.push((pattern, weight)))) == weight_sum(
            scan_custom(norm, custom),
        ) + (if custom_match(norm, pattern) is Some {
            weight as nat
        } else {
            0
        }),
{
    let extended = custom.push((pattern, weight));
    assert(extended.drop_last() == custom);
    let step = custom_pattern_matches(norm, pattern, weight);
    lemma_weight_sum_add(scan_custom(norm, custom), step);
    if step.len() == 1 {
        assert(step.drop_last().len() == 0);
        assert(weight_sum(step.drop_last()) == 0);
    }
}

/// The total score is the saturated sum of what the categories and the
/// custom patterns contribute.
pub proof fn lemma_scan_score(
    text: Seq<char>,
    enabled: Seq<Seq<char>>,
    custom: Seq<(Seq<char>, u32)>,
    max_scan_length: nat,
)
    ensures
        scan(text, enabled, custom, max_scan_length).total_score == saturate(
            weight_sum(
                scan_categories(
                    truncate_bytes(text, max_scan_length),
                    normalize(truncate_bytes(text, max_scan_length)),
                    enabled,
                ),
            ) + weight_sum(scan_custom(normalize(truncate_bytes(text, max_scan_length)), custom)),
        ),
{
    let raw = truncate_bytes(text, max_scan_length);
    let norm = normalize(raw);
    lemma_weight_sum_add(scan_categories(raw, norm, enabled), scan_custom(norm, custom));
}

/// The number of UTF-8 bytes of a character.
pub fn char_utf8_len(c: char) -> (n: usize)
    ensures
        n == utf8_len(c),
        1 <= n <= 4,
{
    let code = c as u32;
    if code < 0x80 {
        1
    } else if code < 0x800 {
        2
    } else if code < 0x10000 {
        3
    } else {
        4
    }
}

/// Cuts a text down to the longest prefix of at most `max` UTF-8 bytes.
pub fn truncate_chars(text: &Vec<char>, max: usize) -> (r: Vec<char>)
    ensures
        r@ == truncate_bytes(text@, max as nat),
{
    let mut bytes: usize = 0;
    let mut i: usize = 0;
    while i < text.len()
        invariant
            i <= text.len(),
            bytes == byte_len(text@.take(i as int)),
            bytes <= max,
        ensures
            i <= text.len(),
            bytes == byte_len(text@.take(i as int)),
            bytes <= max,
            i < text.len() ==> byte_len(text@.take(i + 1)) > max,
        decreases text.len() - i,
    {
        let width = char_utf8_len(text[i]);
        proof {
            assert(text@.take(i + 1).drop_last() == text@.take(i as int));
        }
        if width > max - bytes {
            break ;
        }
        bytes += width;
        i += 1;
    }
    proof {
        lemma_truncate_at(text@, max as nat, i as int);
    }
    slice(text, 0, i)
}

/// Shortens evidence text for reporting: texts of more than `max_len`
/// characters are cut to `max_len` characters and get `...` appended.
pub fn truncate_match_chars(text: &Vec<char>, max_len: usize) -> (r: Vec<char>)
    ensures
        r@ == cap_evidence(text@, max_len as nat),
{
    if text.len() > max_len {
        let mut r = slice(text, 0, max_len);
        append_str(&mut r, "...");
        r
    } else {
        slice(text, 0, text.len())
    }
}

/// Shortens evidence text for reporting: texts of more than `max_len`
/// characters are cut to `max_len` characters and get `...` appended.
pub fn truncate_match(text: &str, max_len: usize) -> (r: String)
    ensures
        r@ == cap_evidence(text@, max_len as nat),
{
    let chars = to_chars(text);
    let capped = truncate_match_chars(&chars, max_len);
    from_chars(&capped)
}

/// Whether some match in the list is reported under `name`.
pub fn contains_category(matches: &Vec<PatternMatch>, name: &Vec<char>) -> (r: bool)
    ensures
        r == has_category(matches.deep_view(), name@),
{
    let ghost view = matches.deep_view();
    let mut i: usize = 0;
    while i < matches.len()
        invariant
            i <= matches.len(),
            view == matches.deep_view(),
            forall|j: int| 0 <= j < i ==> (#[trigger] view[j]).category != name@,
        decreases matches.len() - i,
    {
        let category = to_chars(matches[i].category.as_str());
        assert(view[i as int] == matches@[i as int]@);
        if chars_eq(&category, name) {
            return true;
        }
        i += 1;
    }
    false
}

/// Finds the first pattern of `cat` that matches and reports it.
fn scan_keywords(norm: &Vec<char>, cat: &PatternCategory) -> (r: Option<PatternMatch>)
    ensures
        match r {
            Some(m) => keyword_matches(norm@, cat@) == seq![m@],
            None => keyword_matches(norm@, cat@) == Seq::<PatternMatchView>::empty(),
        },
{
    let ghost patterns = cat@.patterns;
    let mut k: usize = 0;
    while k < cat.patterns.len()
        invariant
            k <= cat.patterns.len(),
            patterns == cat.patterns.deep_view(),
            first_pattern_match(norm@, patterns, 0) == first_pattern_match(
                norm@,
                patterns,
                k as int,
            ),
        decreases cat.patterns.len() - k,
    {
        assert(patterns[k as int] == cat.patterns@[k as int]@);
        match find_pattern(norm, &cat.patterns[k]) {
            Some((start, end)) => {
                let matched = slice(norm, start, end);
                let evidence = truncate_match_chars(&matched, MAX_EVIDENCE_CHARS);
                return Some(
                    PatternMatch {
                        category: cat.name.clone(),
                        matched_text: from_chars(&evidence),
                        weight: cat.weight,
                    },
                );
            },
            None => {},
        }
        k += 1;
    }
    None
}

/// Scans a text against the enabled pattern categories and the custom
/// patterns.
///
/// The text is cut to at most `max_scan_length` bytes and normalised once.
/// Every entry of `enabled_categories` that names a built-in category
/// contributes the category's weight at most once: for the first of its
/// patterns that matches, or, for the category of hidden instructions,
/// for a run of zero-width characters in the text as it was before
/// normalisation. Every custom pattern that occurs contributes its own
/// weight. The total is the saturating sum of all weights.
pub fn scan_text(
    text: &str,
    enabled_categories: &[String],
    custom_patterns: &[(String, u32)],
    max_scan_length: usize,
) -> (r: ScanResult)
    ensures
        r@ == scan(
            text@,
            enabled_categories.deep_view(),
            custom_patterns.deep_view(),
            max_scan_length as nat,
        ),
{
    let chars = to_chars(text);
    let raw = truncate_chars(&chars, max_scan_length);
    let norm = normalize_chars(&raw);
    let table = categories();
    let hidden = to_chars("hidden_instructions");
    let has_zero_width = has_zero_width_run_chars(&raw);

    let ghost enabled = enabled_categories.deep_view();
    let ghost custom = custom_patterns.deep_view();
    let mut matches: Vec<PatternMatch> = Vec::new();
    let mut total_score: u32 = 0;

    let mut i: usize = 0;
    while i < enabled_categories.len()
        invariant
            i <= enabled_categories.len(),
            enabled == enabled_categories.deep_view(),
            table.deep_view() == builtin_categories(),
            hidden@ == hidden_category_name(),
            has_zero_width == has_zero_width_run(raw@),
            matches.deep_view() == scan_categories(raw@, norm@, enabled.take(i as int)),
            total_score == saturate(weight_sum(matches.deep_view())),
        decreases enabled_categories.len() - i,
    {
        let ghost prior = matches.deep_view();
        let ghost name = enabled[i as int];
        proof {
            assert(enabled.take(i + 1).drop_last() == enabled.take(i as int));
            assert(enabled.take(i + 1).last() == name);
            assert(name == enabled_categories@[i as int]@);
        }
        let name_chars = to_chars(enabled_categories[i].as_str());
        match category_index(&table, &name_chars) {
            Some(k) => {
                let cat = &table[k];
                assert(cat@ == builtin_categories()[k as int]);
                match scan_keywords(&norm, cat) {
                    Some(m) => {
                        total_score = total_score.saturating_add(m.weight);
                        proof {
                            lemma_weight_sum_push(prior, m@);
                        }
                        matches.push(m);
                        assert(matches.deep_view() =~= prior.push(m@));
                        assert(matches.deep_view() =~= prior + keyword_matches(norm@, cat@));
                    },
                    None => {
                        assert(matches.deep_view() =~= prior + keyword_matches(norm@, cat@));
                    },
                }
                let ghost seen = matches.deep_view();
                let is_hidden = chars_eq(&to_chars(cat.name.as_str()), &hidden);
                if is_hidden && has_zero_width && !contains_category(&matches, &hidden) {
                    let m = PatternMatch {
                        category: String::from_str("hidden_instructions"),
                        matched_text: String::from_str("(zero-width characters detected)"),
                        weight: cat.weight,
                    };
                    total_score = total_score.saturating_add(m.weight);
                    proof {
                        lemma_weight_sum_push(seen, m@);
                    }
                    matches.push(m);
                    assert(matches.deep_view() =~= seen.push(m@));
                    assert(matches.deep_view() =~= seen + zero_width_matches(raw@, cat@, seen));
                } else {
                    assert(matches.deep_view() =~= seen + zero_width_matches(raw@, cat@, seen));
                }
                assert(matches.deep_view() =~= prior + category_matches(raw@, norm@, name, prior));
            },
            None => {
                assert(matches.deep_view() =~= prior + category_matches(raw@, norm@, name, prior));
            },
        }
        i += 1;
    }
    assert(enabled.take(enabled.len() as int) == enabled);

    let ghost from_categories = matches.deep_view();
    let mut j: usize = 0;
    while j < custom_patterns.len()
        invariant
            j <= custom_patterns.len(),
            custom == custom_patterns.deep_view(),
            matches.deep_view() == from_categories + scan_custom(norm@, custom.take(j as int)),
            total_score == saturate(weight_sum(matches.deep_view())),
        decreases custom_patterns.len() - j,
    {
        let ghost prior = matches.deep_view();
        proof {
            assert(custom.take(j + 1).drop_last() == custom.take(j as int));
            assert(custom.take(j + 1).last() == custom[j as int]);
            assert(custom[j as int] == custom_patterns@[j as int].deep_view());
        }
        let weight = custom_patterns[j].1;
        let ghost step = custom_pattern_matches(norm@, custom[j as int].0, custom[j as int].1);
        assert(scan_custom(norm@, custom.take(j + 1)) == scan_custom(norm@, custom.take(j as int))
            + step);
        match find_custom(&norm, custom_patterns[j].0.as_str()) {
            Some((start, end)) => {
                let matched = slice(&norm, start, end);
                let evidence = truncate_match_chars(&matched, MAX_EVIDENCE_CHARS);
                let m = PatternMatch {
                    category: String::from_str("custom"),
                    matched_text: from_chars(&evidence),
                    weight,
                };
                total_score = total_score.saturating_add(weight);
                proof {
                    lemma_weight_sum_push(prior, m@);
                }
                matches.push(m);
                assert(matches.deep_view() =~= prior.push(m@));
                assert(step =~= seq![m@]);
                assert(matches.deep_view() =~= from_categories + scan_custom(
                    norm@,
                    custom.take(j + 1),
                ));
            },
            None => {
                assert(step =~= Seq::<PatternMatchView>::empty());
                assert(matches.deep_view() =~= from_categories + scan_custom(
                    norm@,
                    custom.take(j + 1),
                ));
            },
        }
        j += 1;
    }
    assert(custom.take(custom.len() as int) == custom);

    ScanResult { total_score, matches }
}

} // verus!
