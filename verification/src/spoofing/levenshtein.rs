//! Edit distance between two texts and the similarity ratio derived from
//! it.
//!
//! The ratio `1 - distance / max(len(a), len(b))` is kept as an exact
//! fraction of two integers, so that comparing it with a threshold involves
//! no rounding.

use crate::text::to_chars;
use vstd::prelude::*;

verus! {

/// A fraction `numerator / denominator` of two natural numbers.
pub struct Fraction {
    pub numerator: nat,
    pub denominator: nat,
}

impl Fraction {
    /// The fraction lies between zero and one.
    pub open spec fn is_proper(self) -> bool {
        0 < self.denominator && self.numerator <= self.denominator
    }

    /// `self >= other` as fractions, by cross-multiplication.
    pub open spec fn at_least(self, other: Fraction) -> bool {
        self.numerator * other.denominator >= other.numerator * self.denominator
    }
}

/// A fraction `numerator / denominator` of two machine integers.
#[derive(Clone, Copy, Debug, PartialEq, Eq, Structural)]
pub struct Ratio {
    pub numerator: usize,
    pub denominator: usize,
}

impl View for Ratio {
    type V = Fraction;

    open spec fn view(&self) -> Fraction {
        Fraction { numerator: self.numerator as nat, denominator: self.denominator as nat }
    }
}

impl DeepView for Ratio {
    type V = Fraction;

    open spec fn deep_view(&self) -> Fraction {
        self.view()
    }
}

impl Ratio {
    /// Whether this fraction is at least `other`.
    pub fn ge(&self, other: &Ratio) -> (r: bool)
        ensures
            r == self@.at_least(other@),
    {
        let lhs: u128 = widening_product(self.numerator, other.denominator);
        let rhs: u128 = widening_product(other.numerator, self.denominator);
        lhs >= rhs
    }
}

/// The product of two `usize` values, which always fits in 128 bits.
fn widening_product(a: usize, b: usize) -> (p: u128)
    ensures
        p == a * b,
{
    assert(a * b <= 0xffff_ffff_ffff_ffff * 0xffff_ffff_ffff_ffff) by (nonlinear_arith)
        requires
            0 <= a <= 0xffff_ffff_ffff_ffff,
            0 <= b <= 0xffff_ffff_ffff_ffff,
    ;
    (a as u128) * (b as u128)
}

/// The least of three numbers.
pub open spec fn min3(a: nat, b: nat, c: nat) -> nat {
    if a <= b && a <= c {
        a
    } else if b <= c {
        b
    } else {
        c
    }
}

/// The Levenshtein distance: the least number of insertions, deletions and
/// substitutions of single characters that turns `a` into `b`.
pub open spec fn edit_distance(a: Seq<char>, b: Seq<char>) -> nat
    decreases a.len() + b.len(),
{
    if a.len() == 0 {
        b.len()
    } else if b.len() == 0 {
        a.len()
    } else {
        min3(
            edit_distance(a.drop_last(), b) + 1,
            edit_distance(a, b.drop_last()) + 1,
            edit_distance(a.drop_last(), b.drop_last()) + if a.last() == b.last() {
                0nat
            } else {
                1nat
            },
        )
    }
}

/// The larger of the two lengths.
pub open spec fn longer_len(a: Seq<char>, b: Seq<char>) -> nat {
    if a.len() >= b.len() {
        a.len()
    } else {
        b.len()
    }
}

/// The similarity of two texts as a fraction: zero if either is empty,
/// else `1 - distance / longer length`.
pub open spec fn similarity(a: Seq<char>, b: Seq<char>) -> Fraction {
    if a.len() == 0 || b.len() == 0 {
        Fraction { numerator: 0, denominator: 1 }
    } else {
        Fraction {
            numerator: (longer_len(a, b) - edit_distance(a, b)) as nat,
            denominator: longer_len(a, b),
        }
    }
}

/// The distance does not depend on the order of the two texts.
pub proof fn lemma_edit_distance_symmetric(a: Seq<char>, b: Seq<char>)
    ensures
        edit_distance(a, b) == edit_distance(b, a),
    decreases a.len() + b.len(),
{
    if a.len() > 0 && b.len() > 0 {
        lemma_edit_distance_symmetric(a.drop_last(), b);
        lemma_edit_distance_symmetric(a, b.drop_last());
        lemma_edit_distance_symmetric(a.drop_last(), b.drop_last());
    }
}

/// A text has distance zero to itself.
pub proof fn lemma_edit_distance_self(a: Seq<char>)
    ensures
        edit_distance(a, a) == 0,
    decreases a.len(),
{
    if a.len() > 0 {
        lemma_edit_distance_self(a.drop_last());
    }
}

/// The distance is at most the length of the longer text.
pub proof fn lemma_edit_distance_bound(a: Seq<char>, b: Seq<char>)
    ensures
        edit_distance(a, b) <= longer_len(a, b),
    decreases a.len() + b.len(),
{
    if a.len() > 0 && b.len() > 0 {
        lemma_edit_distance_bound(a.drop_last(), b.drop_last());
    }
}

/// Dropping the last character of the second text changes the distance
/// by at most one.
proof fn lemma_edit_distance_shorter(a: Seq<char>, b: Seq<char>)
    requires
        b.len() > 0,
    ensures
        edit_distance(a, b.drop_last()) <= edit_distance(a, b) + 1,
    decreases a.len(),
{
    if a.len() > 0 {
        let a1 = a.drop_last();
        let b1 = b.drop_last();
        lemma_edit_distance_shorter(a1, b);
        // Deleting the last character of `a` costs at most one.
        if b1.len() > 0 {
            assert(edit_distance(a, b1) <= edit_distance(a1, b1) + 1);
        } else {
            assert(edit_distance(a, b1) == edit_distance(a1, b1) + 1);
        }
    }
}

/// Where both texts end in the same character, that character can be left
/// alone: the distance is that of the texts without it.
pub proof fn lemma_edit_distance_equal_last(a: Seq<char>, b: Seq<char>)
    requires
        a.len() > 0,
        b.len() > 0,
        a.last() == b.last(),
    ensures
        edit_distance(a, b) == edit_distance(a.drop_last(), b.drop_last()),
{
    lemma_edit_distance_shorter(a.drop_last(), b);
    lemma_edit_distance_symmetric(a.drop_last(), b.drop_last());
    lemma_edit_distance_symmetric(a, b.drop_last());
    lemma_edit_distance_shorter(b.drop_last(), a);
}

/// Similarity does not depend on the order of the two texts.
pub proof fn lemma_similarity_symmetric(a: Seq<char>, b: Seq<char>)
    ensures
        similarity(a, b) == similarity(b, a),
{
    lemma_edit_distance_symmetric(a, b);
}

/// A non-empty text has similarity one to itself.
pub proof fn lemma_similarity_identical(a: Seq<char>)
    requires
        a.len() > 0,
    ensures
        similarity(a, a).numerator == similarity(a, a).denominator,
        similarity(a, a).denominator > 0,
{
    lemma_edit_distance_self(a);
}

/// The empty text has similarity zero to every text.
pub proof fn lemma_similarity_empty(x: Seq<char>)
    ensures
        similarity(Seq::empty(), x).numerator == 0,
        similarity(x, Seq::empty()).numerator == 0,
        similarity(Seq::empty(), x).denominator > 0,
        similarity(x, Seq::empty()).denominator > 0,
{
}

/// Every similarity is a fraction between zero and one.
pub proof fn lemma_similarity_proper(a: Seq<char>, b: Seq<char>)
    ensures
        similarity(a, b).is_proper(),
        a.len() > 0 && b.len() > 0 ==> similarity(a, b).numerator == longer_len(a, b)
            - edit_distance(a, b),
{
    lemma_edit_distance_bound(a, b);
}

/// One row of the distance table for the prefix of `long` of length `i`.
spec fn is_row(row: Seq<usize>, long: Seq<char>, short: Seq<char>, i: int, upto: int) -> bool {
    forall|j: int| 0 <= j < upto ==> #[trigger] row[j] == edit_distance(long.take(i), short.take(j))
}

/// The edit distance of two texts, by dynamic programming over a single
/// row of the distance table.
pub fn levenshtein_distance(a: &Vec<char>, b: &Vec<char>) -> (d: usize)
    ensures
        d == edit_distance(a@, b@),
{
    let (long, short) = if a.len() < b.len() {
        (b, a)
    } else {
        (a, b)
    };
    proof {
        lemma_edit_distance_symmetric(a@, b@);
    }
    let len1 = long.len();
    let len2 = short.len();

    let mut distances: Vec<usize> = Vec::new();
    distances.push(0);
    let mut j: usize = 0;
    while j < len2
        invariant
            j <= len2,
            len2 == short.len(),
            distances.len() == j + 1,
            is_row(distances@, long@, short@, 0, j + 1),
        decreases len2 - j,
    {
        j += 1;
        distances.push(j);
    }

    let mut i: usize = 0;
    while i < len1
        invariant
            i <= len1,
            len1 == long.len(),
            len2 == short.len(),
            len2 <= len1,
            distances.len() == len2 + 1,
            is_row(distances@, long@, short@, i as int, len2 + 1),
        decreases len1 - i,
    {
        let c1 = long[i];
        let ghost prefix = long@.take(i + 1);
        proof {
            assert(prefix.drop_last() == long@.take(i as int));
            assert(prefix.last() == c1);
        }
        let mut new_distances: Vec<usize> = Vec::new();
        new_distances.push(i + 1);
        let mut k: usize = 0;
        while k < len2
            invariant
                k <= len2,
                i < len1,
                len1 == long.len(),
                len2 == short.len(),
                len2 <= len1,
                c1 == long@[i as int],
                prefix == long@.take(i + 1),
                prefix.drop_last() == long@.take(i as int),
                prefix.last() == c1,
                distances.len() == len2 + 1,
                is_row(distances@, long@, short@, i as int, len2 + 1),
                new_distances.len() == k + 1,
                is_row(new_distances@, long@, short@, i + 1, k + 1),
            decreases len2 - k,
        {
            let ghost target = short@.take(k + 1);
            proof {
                assert(target.drop_last() == short@.take(k as int));
                assert(target.last() == short@[k as int]);
                lemma_edit_distance_bound(prefix, target);
                assert(distances@[k as int] == edit_distance(
                    prefix.drop_last(),
                    target.drop_last(),
                ));
                assert(distances@[k + 1] == edit_distance(prefix.drop_last(), target));
                assert(new_distances@[k as int] == edit_distance(prefix, target.drop_last()));
                if c1 == short@[k as int] {
                    lemma_edit_distance_equal_last(prefix, target);
                }
            }
            let cost = if c1 == short[k] {
                distances[k]
            } else {
                let mut least = distances[k];
                if distances[k + 1] < least {
                    least = distances[k + 1];
                }
                if new_distances[k] < least {
                    least = new_distances[k];
                }
                1 + least
            };
            new_distances.push(cost);
            k += 1;
        }
        distances = new_distances;
        i += 1;
    }
    proof {
        assert(long@.take(len1 as int) == long@);
        assert(short@.take(len2 as int) == short@);
    }
    distances[len2]
}

/// The Levenshtein similarity of two strings, over Unicode code points:
/// zero if either is empty, one if they are equal, else one minus the edit
/// distance divided by the length of the longer string.
pub fn levenshtein_ratio(s1: &str, s2: &str) -> (r: Ratio)
    ensures
        r@ == similarity(s1@, s2@),
        r@.is_proper(),
{
    let chars1 = to_chars(s1);
    let chars2 = to_chars(s2);
    similarity_of(&chars1, &chars2)
}

/// The similarity of two texts given as characters.
pub fn similarity_of(a: &Vec<char>, b: &Vec<char>) -> (r: Ratio)
    ensures
        r@ == similarity(a@, b@),
        r@.is_proper(),
{
    if a.len() == 0 || b.len() == 0 {
        return Ratio { numerator: 0, denominator: 1 };
    }
    let distance = levenshtein_distance(a, b);
    let longer = if a.len() >= b.len() {
        a.len()
    } else {
        b.len()
    };
    proof {
        lemma_edit_distance_bound(a@, b@);
    }
    Ratio { numerator: longer - distance, denominator: longer }
}

} // verus!
