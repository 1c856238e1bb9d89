//! Detection patterns and the primitives that match them.
//!
//! A pattern is a sequence of term groups. Every group must be found, in
//! order and without overlap, in the normalised text; within a group any
//! one of the alternative keywords may match.

use crate::text::{
    find, find_from, from_chars, lowercase_chars, lowercased, slice, to_chars, to_lowercase,
};
use vstd::prelude::*;

verus! {

/// The term groups of a pattern: alternatives inside groups inside the
/// sequence.
pub type Terms = Seq<Seq<Seq<char>>>;

/// A keyword-sequence detection pattern.
#[derive(Debug, Clone)]
pub struct DetectionPattern {
    /// Term groups, each a list of alternative keywords.
    pub terms: Vec<Vec<String>>,
}

impl View for DetectionPattern {
    type V = Terms;

    open spec fn view(&self) -> Terms {
        self.terms.deep_view()
    }
}

impl DeepView for DetectionPattern {
    type V = Terms;

    open spec fn deep_view(&self) -> Terms {
        self.view()
    }
}

/// The mathematical content of a [`PatternCategory`].
pub struct PatternCategoryView {
    pub name: Seq<char>,
    pub weight: u32,
    pub patterns: Seq<Terms>,
}

/// A named group of patterns that share one risk weight.
#[derive(Debug, Clone)]
pub struct PatternCategory {
    pub name: String,
    pub weight: u32,
    pub patterns: Vec<DetectionPattern>,
}

impl View for PatternCategory {
    type V = PatternCategoryView;

    open spec fn view(&self) -> PatternCategoryView {
        PatternCategoryView {
            name: self.name@,
            weight: self.weight,
            patterns: self.patterns.deep_view(),
        }
    }
}

impl DeepView for PatternCategory {
    type V = PatternCategoryView;

    open spec fn deep_view(&self) -> PatternCategoryView {
        self.view()
    }
}

/// The mathematical content of a [`PatternMatch`].
pub struct PatternMatchView {
    pub category: Seq<char>,
    pub matched_text: Seq<char>,
    pub weight: u32,
}

/// One observation made while scanning a text.
#[derive(Debug, Clone)]
pub struct PatternMatch {
    pub category: String,
    pub matched_text: String,
    pub weight: u32,
}

impl View for PatternMatch {
    type V = PatternMatchView;

    open spec fn view(&self) -> PatternMatchView {
        PatternMatchView {
            category: self.category@,
            matched_text: self.matched_text@,
            weight: self.weight,
        }
    }
}

impl DeepView for PatternMatch {
    type V = PatternMatchView;

    open spec fn deep_view(&self) -> PatternMatchView {
        self.view()
    }
}

/// Characters that normalisation turns into a single space.
pub open spec fn is_separator(c: char) -> bool {
    c == '_' || c == '-' || c == '\t' || c == '\n' || c == '\r' || c == ' '
}

/// The effect of one character on the collapsed text built so far.
///
/// A separator adds one space unless the text is empty or already ends in
/// a space; a colon replaces a space it directly follows; any other
/// character is appended.
pub open spec fn normalize_step(acc: Seq<char>, c: char) -> Seq<char> {
    if is_separator(c) {
        if acc.len() > 0 && acc.last() != ' ' {
            acc.push(' ')
        } else {
            acc
        }
    } else if c == ':' && acc.len() > 0 && acc.last() == ' ' {
        acc.drop_last().push(':')
    } else {
        acc.push(c)
    }
}

/// A text with its separators collapsed: one left-to-right pass of
/// [`normalize_step`] over its characters.
pub open spec fn collapse(text: Seq<char>) -> Seq<char>
    decreases text.len(),
{
    if text.len() == 0 {
        Seq::empty()
    } else {
        normalize_step(collapse(text.drop_last()), text.last())
    }
}

/// The normalised form of a text: its lowercase form with the separators
/// collapsed.
pub open spec fn normalize(text: Seq<char>) -> Seq<char> {
    collapse(lowercased(text))
}

/// The characters of a text that are no separators, in order.
pub open spec fn letters(text: Seq<char>) -> Seq<char>
    decreases text.len(),
{
    if text.len() == 0 {
        Seq::empty()
    } else if is_separator(text.last()) {
        letters(text.drop_last())
    } else {
        letters(text.drop_last()).push(text.last())
    }
}

/// What holds of every collapsed text: the only separator left is a single
/// space that never leads, never repeats and never stands before a colon.
pub open spec fn is_collapsed(s: Seq<char>) -> bool {
    &&& forall|i: int|
        0 <= i < s.len() && is_separator(#[trigger] s[i]) ==> s[i] == ' ' && i > 0 && s[i - 1]
            != ' '
    &&& forall|i: int| 0 < i < s.len() && #[trigger] s[i] == ':' ==> s[i - 1] != ' '
}

/// The first alternative of `group`, from index `k` on, that occurs in
/// `text` at or after `pos`: the start and the end of that occurrence.
pub open spec fn group_hit(text: Seq<char>, group: Seq<Seq<char>>, pos: int, k: int) -> Option<
    (int, int),
>
    decreases group.len() - k,
{
    if k < 0 || k >= group.len() {
        None
    } else {
        match find_from(text, group[k], pos) {
            Some(i) => Some((i, i + group[k].len())),
            None => group_hit(text, group, pos, k + 1),
        }
    }
}

/// Where the match ends when the groups from index `g` on are matched in
/// order, starting the search at `pos`.
pub open spec fn match_end(text: Seq<char>, terms: Terms, g: int, pos: int) -> Option<int>
    decreases terms.len() - g,
{
    if g < 0 || g >= terms.len() {
        Some(pos)
    } else {
        match group_hit(text, terms[g], pos, 0) {
            Some((_, end)) => match_end(text, terms, g + 1, end),
            None => None,
        }
    }
}

/// The span `[start, end)` that a pattern matches in `text`: from the start
/// of the first group's occurrence to the end of the last group's.
pub open spec fn pattern_span(text: Seq<char>, terms: Terms) -> Option<(int, int)> {
    if terms.len() == 0 {
        None
    } else {
        match group_hit(text, terms[0], 0, 0) {
            Some((start, end)) => match match_end(text, terms, 1, end) {
                Some(last) => Some((start, last)),
                None => None,
            },
            None => None,
        }
    }
}

/// The text that a pattern matches, if it matches.
pub open spec fn pattern_match(text: Seq<char>, terms: Terms) -> Option<Seq<char>> {
    match pattern_span(text, terms) {
        Some((start, end)) => Some(text.subrange(start, end)),
        None => None,
    }
}

/// The four zero-width characters used to hide text.
pub open spec fn is_zero_width(c: char) -> bool {
    c == '\u{200B}' || c == '\u{200C}' || c == '\u{200D}' || c == '\u{FEFF}'
}

/// The text holds three or more zero-width characters in a row.
pub open spec fn has_zero_width_run(text: Seq<char>) -> bool {
    exists|i: int|
        0 <= i && i + 3 <= text.len() && is_zero_width(#[trigger] text[i]) && is_zero_width(
            text[i + 1],
        ) && is_zero_width(text[i + 2])
}

/// The first occurrence of `needle` in `text`, as a part of the text.
pub open spec fn needle_match(text: Seq<char>, needle: Seq<char>) -> Option<Seq<char>> {
    match find_from(text, needle, 0) {
        Some(i) => Some(text.subrange(i, i + needle.len())),
        None => None,
    }
}

/// The evidence for a custom pattern: its lowercase form, where that occurs
/// in the normalised text.
pub open spec fn custom_match(text: Seq<char>, pattern: Seq<char>) -> Option<Seq<char>> {
    needle_match(text, lowercased(pattern))
}

/// A group is hit at or after the position where the search starts, and
/// inside the text.
pub proof fn lemma_group_hit_in_text(text: Seq<char>, group: Seq<Seq<char>>, pos: int, k: int)
    requires
        0 <= pos,
        0 <= k,
    ensures
        group_hit(text, group, pos, k) matches Some((start, end)) ==> pos <= start <= end
            <= text.len(),
    decreases group.len() - k,
{
    if k < group.len() {
        crate::text::lemma_find_from_is_first(text, group[k], pos);
        if find_from(text, group[k], pos) is None {
            lemma_group_hit_in_text(text, group, pos, k + 1);
        }
    }
}

/// Matching the remaining groups never moves the end of the match back,
/// nor beyond the text.
pub proof fn lemma_match_end_in_text(text: Seq<char>, terms: Terms, g: int, pos: int)
    requires
        0 <= g,
        0 <= pos <= text.len(),
    ensures
        match_end(text, terms, g, pos) matches Some(end) ==> pos <= end <= text.len(),
    decreases terms.len() - g,
{
    if g < terms.len() {
        lemma_group_hit_in_text(text, terms[g], pos, 0);
        match group_hit(text, terms[g], pos, 0) {
            Some((_, end)) => {
                lemma_match_end_in_text(text, terms, g + 1, end);
            },
            None => {},
        }
    }
}

/// The span of a match lies inside the text.
pub proof fn lemma_pattern_span_in_text(text: Seq<char>, terms: Terms)
    ensures
        pattern_span(text, terms) matches Some((start, end)) ==> 0 <= start <= end <= text.len(),
{
    if terms.len() > 0 {
        lemma_group_hit_in_text(text, terms[0], 0, 0);
        match group_hit(text, terms[0], 0, 0) {
            Some((_, end)) => {
                lemma_match_end_in_text(text, terms, 1, end);
            },
            None => {},
        }
    }
}

proof fn lemma_step_keeps_collapsed(acc: Seq<char>, c: char)
    requires
        is_collapsed(acc),
    ensures
        is_collapsed(normalize_step(acc, c)),
{
    let next = normalize_step(acc, c);
    if is_separator(c) {
    } else if c == ':' && acc.len() > 0 && acc.last() == ' ' {
        let n = acc.len() - 1;
        assert(is_separator(acc[n]));
        assert forall|i: int|
            0 <= i < next.len() && is_separator(#[trigger] next[i]) implies next[i] == ' ' && i > 0
            && next[i - 1] != ' ' by {
            assert(next[i] == acc[i]);
        }
    } else {
        assert forall|i: int|
            0 <= i < next.len() && is_separator(#[trigger] next[i]) implies next[i] == ' ' && i > 0
            && next[i - 1] != ' ' by {
            assert(next[i] == acc[i]);
        }
    }
}

/// Every collapsed text satisfies [`is_collapsed`].
pub proof fn lemma_collapse_is_collapsed(text: Seq<char>)
    ensures
        is_collapsed(collapse(text)),
    decreases text.len(),
{
    if text.len() > 0 {
        lemma_collapse_is_collapsed(text.drop_last());
        lemma_step_keeps_collapsed(collapse(text.drop_last()), text.last());
    }
}

/// Collapsing leaves a text that satisfies [`is_collapsed`] unchanged.
pub proof fn lemma_collapse_fixes_collapsed(s: Seq<char>)
    requires
        is_collapsed(s),
    ensures
        collapse(s) == s,
    decreases s.len(),
{
    if s.len() > 0 {
        let init = s.drop_last();
        assert forall|i: int|
            0 <= i < init.len() && is_separator(#[trigger] init[i]) implies init[i] == ' ' && i > 0
            && init[i - 1] != ' ' by {
            assert(init[i] == s[i]);
        }
        assert forall|i: int| 0 < i < init.len() && #[trigger] init[i] == ':' implies init[i - 1]
            != ' ' by {
            assert(init[i] == s[i]);
        }
        lemma_collapse_fixes_collapsed(init);
        let c = s.last();
        assert(c == s[s.len() - 1]);
        assert(normalize_step(init, c) =~= s);
    } else {
        assert(collapse(s) =~= s);
    }
}

/// Collapsing never makes a text longer.
pub proof fn lemma_collapse_len(text: Seq<char>)
    ensures
        collapse(text).len() <= text.len(),
    decreases text.len(),
{
    if text.len() > 0 {
        lemma_collapse_len(text.drop_last());
    }
}

/// Collapsing changes separators only: the other characters stay, all of
/// them and in their order.
pub proof fn lemma_collapse_keeps_letters(text: Seq<char>)
    ensures
        letters(collapse(text)) == letters(text),
    decreases text.len(),
{
    if text.len() > 0 {
        let init = text.drop_last();
        let c = text.last();
        let acc = collapse(init);
        lemma_collapse_keeps_letters(init);
        if is_separator(c) {
            if acc.len() > 0 && acc.last() != ' ' {
                assert(acc.push(' ').drop_last() == acc);
            }
        } else if c == ':' && acc.len() > 0 && acc.last() == ' ' {
            assert(acc.drop_last().push(':').drop_last() == acc.drop_last());
        } else {
            assert(acc.push(c).drop_last() == acc);
        }
    }
}

/// A normalised text is no longer than the lowercase form of the text, and
/// has the same characters apart from separators.
pub proof fn lemma_normalize_keeps_letters(text: Seq<char>)
    ensures
        normalize(text).len() <= lowercased(text).len(),
        letters(normalize(text)) == letters(lowercased(text)),
{
    lemma_collapse_len(lowercased(text));
    lemma_collapse_keeps_letters(lowercased(text));
}

/// Collapsing twice gives the same text as collapsing once.
pub proof fn lemma_collapse_idempotent(text: Seq<char>)
    ensures
        collapse(collapse(text)) == collapse(text),
{
    lemma_collapse_is_collapsed(text);
    lemma_collapse_fixes_collapsed(collapse(text));
}

/// In every normalised text the only separator left is a single space that
/// never leads, never repeats and never stands before a colon.
pub proof fn lemma_normalize_is_collapsed(text: Seq<char>)
    ensures
        is_collapsed(normalize(text)),
{
    lemma_collapse_is_collapsed(lowercased(text));
}

/// Normalising a normalised text again changes nothing, wherever
/// lowercasing leaves the normalised text as it is.
pub proof fn lemma_normalize_again_where_lowercase_is_stable(text: Seq<char>)
    requires
        lowercased(normalize(text)) == normalize(text),
    ensures
        normalize(normalize(text)) == normalize(text),
{
    lemma_collapse_idempotent(lowercased(text));
}

/// Collapses the separators of a text given as characters.
pub fn collapse_chars(text: &Vec<char>) -> (r: Vec<char>)
    ensures
        r@ == collapse(text@),
{
    let mut result: Vec<char> = Vec::new();
    let mut last_was_space = false;
    let mut i: usize = 0;
    while i < text.len()
        invariant
            i <= text.len(),
            result@ == collapse(text@.take(i as int)),
            last_was_space == (result@.len() > 0 && result@.last() == ' '),
        decreases text.len() - i,
    {
        let ch = text[i];
        proof {
            assert(text@.take(i + 1).drop_last() =~= text@.take(i as int));
        }
        if ch == '_' || ch == '-' || ch == '\t' || ch == '\n' || ch == '\r' || ch == ' ' {
            if !last_was_space && result.len() > 0 {
                result.push(' ');
                last_was_space = true;
            }
        } else if ch == ':' {
            if last_was_space {
                result.pop();
            }
            result.push(':');
            last_was_space = false;
        } else {
            result.push(ch);
            last_was_space = false;
        }
        i += 1;
    }
    assert(text@.take(text.len() as int) == text@);
    result
}

/// Normalises the characters of a text.
pub fn normalize_chars(text: &Vec<char>) -> (r: Vec<char>)
    ensures
        r@ == normalize(text@),
{
    let lower = to_lowercase(text);
    collapse_chars(&lower)
}

/// Normalises a text for matching: lowercases it, turns every run of
/// `_`, `-`, tab, newline, carriage return and space into one space (none
/// at the start), and removes a space that stands before a colon.
pub fn normalize_text(text: &str) -> (r: String)
    ensures
        r@ == normalize(text@),
{
    let lower = lowercase_chars(text);
    let normalized = collapse_chars(&lower);
    from_chars(&normalized)
}

/// Finds the first alternative of `group` that occurs in `text` at or
/// after `pos`, and returns where that occurrence starts and ends.
pub fn find_group(text: &Vec<char>, group: &Vec<String>, pos: usize) -> (r: Option<(usize, usize)>)
    ensures
        match r {
            Some((start, end)) => {
                &&& group_hit(text@, group.deep_view(), pos as int, 0) == Some(
                    (start as int, end as int),
                )
                &&& pos <= start <= end <= text.len()
            },
            None => group_hit(text@, group.deep_view(), pos as int, 0) is None,
        },
{
    let ghost alternatives = group.deep_view();
    let mut k: usize = 0;
    while k < group.len()
        invariant
            k <= group.len(),
            alternatives == group.deep_view(),
            group_hit(text@, alternatives, pos as int, 0) == group_hit(
                text@,
                alternatives,
                pos as int,
                k as int,
            ),
        decreases group.len() - k,
    {
        let term = to_chars(group[k].as_str());
        assert(term@ == alternatives[k as int]);
        match find(text, &term, pos) {
            Some(i) => {
                return Some((i, i + term.len()));
            },
            None => {},
        }
        k += 1;
    }
    None
}

/// Matches the term groups of `pattern` in order against `text` and
/// returns the span from the first group's start to the last group's end.
pub fn find_pattern(text: &Vec<char>, pattern: &DetectionPattern) -> (r: Option<(usize, usize)>)
    ensures
        match r {
            Some((start, end)) => {
                &&& pattern_span(text@, pattern@) == Some((start as int, end as int))
                &&& start <= end <= text.len()
            },
            None => pattern_span(text@, pattern@) is None,
        },
{
    let ghost terms = pattern@;
    if pattern.terms.len() == 0 {
        return None;
    }
    assert(terms[0] == pattern.terms@[0].deep_view());
    let (first_start, first_end) = match find_group(text, &pattern.terms[0], 0) {
        Some(hit) => hit,
        None => {
            return None;
        },
    };
    let mut pos: usize = first_end;
    let mut g: usize = 1;
    while g < pattern.terms.len()
        invariant
            1 <= g <= pattern.terms.len(),
            terms == pattern@,
            first_start <= pos <= text.len(),
            group_hit(text@, terms[0], 0, 0) == Some((first_start as int, first_end as int)),
            match_end(text@, terms, 1, first_end as int) == match_end(
                text@,
                terms,
                g as int,
                pos as int,
            ),
        decreases pattern.terms.len() - g,
    {
        assert(terms[g as int] == pattern.terms@[g as int].deep_view());
        match find_group(text, &pattern.terms[g], pos) {
            Some((_, end)) => {
                pos = end;
            },
            None => {
                return None;
            },
        }
        g += 1;
    }
    Some((first_start, pos))
}

/// Tries to match a detection pattern against normalised text.
///
/// Each group is searched from the end of the previous group's match; the
/// first alternative (in declaration order) that occurs wins. The result
/// is the text from the start of the first group's match to the end of the
/// last group's, or `None` when some group is not found or the pattern has
/// no groups.
pub fn match_pattern(text: &str, pattern: &DetectionPattern) -> (r: Option<String>)
    ensures
        r.deep_view() == pattern_match(text@, pattern@),
{
    let chars = to_chars(text);
    match find_pattern(&chars, pattern) {
        Some((start, end)) => {
            let matched = slice(&chars, start, end);
            Some(from_chars(&matched))
        },
        None => None,
    }
}

/// Whether `c` is one of the zero-width characters U+200B, U+200C, U+200D
/// and U+FEFF.
pub fn is_zero_width_char(c: char) -> (r: bool)
    ensures
        r == is_zero_width(c),
{
    c == '\u{200B}' || c == '\u{200C}' || c == '\u{200D}' || c == '\u{FEFF}'
}

/// Whether the characters hold three or more zero-width characters in a
/// row.
pub fn has_zero_width_run_chars(text: &Vec<char>) -> (r: bool)
    ensures
        r == has_zero_width_run(text@),
{
    let mut consecutive: usize = 0;
    let mut i: usize = 0;
    while i < text.len()
        invariant
            i <= text.len(),
            consecutive <= 2,
            consecutive <= i,
            forall|k: int| i - consecutive <= k < i ==> is_zero_width(#[trigger] text@[k]),
            consecutive < i ==> !is_zero_width(text@[i - consecutive - 1]),
            forall|j: int|
                0 <= j && j + 3 <= i ==> !(is_zero_width(#[trigger] text@[j]) && is_zero_width(
                    text@[j + 1],
                ) && is_zero_width(text@[j + 2])),
        decreases text.len() - i,
    {
        if is_zero_width_char(text[i]) {
            consecutive += 1;
            if consecutive >= 3 {
                assert(is_zero_width(text@[i - 2]) && is_zero_width(text@[i - 2 + 1])
                    && is_zero_width(text@[i - 2 + 2]));
                return true;
            }
        } else {
            consecutive = 0;
        }
        i += 1;
    }
    false
}

/// Checks for zero-width characters used to hide instructions: three or
/// more of them in a row.
pub fn has_zero_width_chars(text: &str) -> (r: bool)
    ensures
        r == has_zero_width_run(text@),
{
    let chars = to_chars(text);
    has_zero_width_run_chars(&chars)
}

/// Searches a text for a needle and returns the span of its first
/// occurrence.
pub fn find_needle(text: &Vec<char>, needle: &Vec<char>) -> (r: Option<(usize, usize)>)
    ensures
        match r {
            Some((start, end)) => {
                &&& needle_match(text@, needle@) == Some(text@.subrange(start as int, end as int))
                &&& start <= end <= text.len()
            },
            None => needle_match(text@, needle@) is None,
        },
{
    match find(text, needle, 0) {
        Some(i) => Some((i, i + needle.len())),
        None => None,
    }
}

/// Searches the normalised text for the lowercase form of a custom
/// pattern and returns the span of its first occurrence.
pub fn find_custom(text: &Vec<char>, pattern: &str) -> (r: Option<(usize, usize)>)
    ensures
        match r {
            Some((start, end)) => {
                &&& custom_match(text@, pattern@) == Some(text@.subrange(start as int, end as int))
                &&& start <= end <= text.len()
            },
            None => custom_match(text@, pattern@) is None,
        },
{
    let lower = lowercase_chars(pattern);
    find_needle(text, &lower)
}

/// Matches a custom pattern as a case-insensitive substring search: the
/// pattern is lowercased and looked up in the (already normalised) text.
pub fn match_custom_pattern(normalized_text: &str, pattern: &str) -> (r: Option<String>)
    ensures
        r.deep_view() == custom_match(normalized_text@, pattern@),
{
    let chars = to_chars(normalized_text);
    match find_custom(&chars, pattern) {
        Some((start, end)) => {
            let matched = slice(&chars, start, end);
            Some(from_chars(&matched))
        },
        None => None,
    }
}

} // verus!
