//! Small operations on text, each stated over the characters of its arguments.
//!
//! Texts are compared as `str` compares them: character by character, by
//! code point, a proper prefix coming first.

use vstd::prelude::*;
use vstd::relations::{sorted_by, total_ordering};
use vstd::seq_lib::lemma_sorted_unique;
use vstd::std_specs::iter::IteratorSpec;

verus! {

/// An ASCII letter or an ASCII digit.
pub open spec fn is_ascii_alphanumeric(c: char) -> bool {
    ||| '0' <= c <= '9'
    ||| 'A' <= c <= 'Z'
    ||| 'a' <= c <= 'z'
}

/// `pattern` stands somewhere in `text`, unbroken.
pub open spec fn occurs_in(pattern: Seq<char>, text: Seq<char>) -> bool {
    exists|at: int| #[trigger] occurs_at(pattern, text, at)
}

/// `pattern` stands in `text` from position `at` on.
pub open spec fn occurs_at(pattern: Seq<char>, text: Seq<char>, at: int) -> bool {
    0 <= at && at + pattern.len() <= text.len() && text.subrange(at, at + pattern.len())
        == pattern
}

/// The decimal digit for `d`, where `d < 10`.
pub open spec fn digit(d: nat) -> char {
    if d == 0 {
        '0'
    } else if d == 1 {
        '1'
    } else if d == 2 {
        '2'
    } else if d == 3 {
        '3'
    } else if d == 4 {
        '4'
    } else if d == 5 {
        '5'
    } else if d == 6 {
        '6'
    } else if d == 7 {
        '7'
    } else if d == 8 {
        '8'
    } else {
        '9'
    }
}

/// `n` written in decimal, without sign or leading zeros.
pub open spec fn decimal(n: nat) -> Seq<char>
    decreases n,
{
    if n < 10 {
        seq![digit(n)]
    } else {
        decimal(n / 10).push(digit(n % 10))
    }
}

/// `a` and `b` agree on their first `k` characters and differ in the next.
pub open spec fn first_difference(a: Seq<char>, b: Seq<char>, k: int) -> bool {
    &&& 0 <= k < a.len()
    &&& k < b.len()
    &&& a.take(k) == b.take(k)
    &&& a[k] != b[k]
}

/// `a` equals `b` or comes before it: `a` is a prefix of `b`, or at the
/// first place where the two differ `a` has the smaller code point.
pub open spec fn text_le(a: Seq<char>, b: Seq<char>) -> bool {
    ||| a.is_prefix_of(b)
    ||| exists|k: int| #[trigger] first_difference(a, b, k) && a[k] < b[k]
}

/// Each text equals or comes before every later one.
pub open spec fn ascending(texts: Seq<Seq<char>>) -> bool {
    forall|i: int, j: int|
        0 <= i < j < texts.len() ==> text_le(#[trigger] texts[i], #[trigger] texts[j])
}

/// `text_le` as a relation.
pub open spec fn text_order() -> spec_fn(Seq<char>, Seq<char>) -> bool {
    |a: Seq<char>, b: Seq<char>| text_le(a, b)
}

/// Two texts differ in at most one first place.
pub proof fn lemma_first_difference_unique(a: Seq<char>, b: Seq<char>, j: int, k: int)
    requires
        first_difference(a, b, j),
        first_difference(a, b, k),
    ensures
        j == k,
{
    if j < k {
        assert(a.take(k)[j] == b.take(k)[j]);
    } else if k < j {
        assert(a.take(j)[k] == b.take(j)[k]);
    }
}

/// Two texts either agree on their first `n` characters or differ somewhere
/// before `n` for the first time.
proof fn lemma_agree_or_differ(a: Seq<char>, b: Seq<char>, n: int)
    requires
        0 <= n <= a.len(),
        n <= b.len(),
    ensures
        a.take(n) == b.take(n) || exists|k: int| k < n && #[trigger] first_difference(a, b, k),
    decreases n,
{
    if n == 0 {
        assert(a.take(0) =~= b.take(0));
    } else {
        lemma_agree_or_differ(a, b, n - 1);
        if a.take(n - 1) == b.take(n - 1) {
            if a[n - 1] == b[n - 1] {
                assert(a.take(n) =~= a.take(n - 1).push(a[n - 1]));
                assert(b.take(n) =~= b.take(n - 1).push(b[n - 1]));
            } else {
                assert(first_difference(a, b, n - 1));
            }
        }
    }
}

/// Every text equals or comes before itself.
pub proof fn lemma_text_le_reflexive(a: Seq<char>)
    ensures
        text_le(a, a),
{
    assert(a =~= a.subrange(0, a.len() as int));
}

/// Of two texts, one equals or comes before the other.
pub proof fn lemma_text_le_total(a: Seq<char>, b: Seq<char>)
    ensures
        text_le(a, b) || text_le(b, a),
{
    let n: int = if a.len() <= b.len() {
        a.len() as int
    } else {
        b.len() as int
    };
    lemma_agree_or_differ(a, b, n);
    if a.take(n) == b.take(n) {
        if a.len() <= b.len() {
            assert(a.take(n) =~= a);
            assert(b.take(n) =~= b.subrange(0, a.len() as int));
        } else {
            assert(b.take(n) =~= b);
            assert(a.take(n) =~= a.subrange(0, b.len() as int));
        }
    } else {
        let k = choose|k: int| k < n && #[trigger] first_difference(a, b, k);
        assert(b.take(k) == a.take(k));
        assert(first_difference(b, a, k));
    }
}

/// Two texts of which each equals or comes before the other are the same text.
pub proof fn lemma_text_le_antisymmetric(a: Seq<char>, b: Seq<char>)
    requires
        text_le(a, b),
        text_le(b, a),
    ensures
        a == b,
{
    if a.is_prefix_of(b) {
        if b.is_prefix_of(a) {
            assert(a =~= b);
        } else {
            let k = choose|k: int| #[trigger] first_difference(b, a, k) && b[k] < a[k];
            assert(a[k] == b.subrange(0, a.len() as int)[k]);
        }
    } else {
        let j = choose|j: int| #[trigger] first_difference(a, b, j) && a[j] < b[j];
        if b.is_prefix_of(a) {
            assert(b[j] == a.subrange(0, b.len() as int)[j]);
        } else {
            let k = choose|k: int| #[trigger] first_difference(b, a, k) && b[k] < a[k];
            assert(first_difference(a, b, k));
            lemma_first_difference_unique(a, b, j, k);
        }
    }
}

/// What comes before a text that comes before a third comes before the third.
pub proof fn lemma_text_le_transitive(a: Seq<char>, b: Seq<char>, c: Seq<char>)
    requires
        text_le(a, b),
        text_le(b, c),
    ensures
        text_le(a, c),
{
    if a.is_prefix_of(b) {
        if b.is_prefix_of(c) {
            assert(a =~= c.subrange(0, a.len() as int)) by {
                assert forall|i: int| 0 <= i < a.len() implies a[i] == c[i] by {
                    assert(a[i] == b.subrange(0, a.len() as int)[i]);
                    assert(b[i] == c.subrange(0, b.len() as int)[i]);
                }
            }
        } else {
            let k = choose|k: int| #[trigger] first_difference(b, c, k) && b[k] < c[k];
            if k < a.len() {
                assert(a.take(k) =~= b.take(k)) by {
                    assert forall|i: int| 0 <= i < k implies a[i] == b[i] by {
                        assert(a[i] == b.subrange(0, a.len() as int)[i]);
                    }
                }
                assert(a[k] == b.subrange(0, a.len() as int)[k]);
                assert(first_difference(a, c, k));
            } else {
                assert(a =~= c.subrange(0, a.len() as int)) by {
                    assert forall|i: int| 0 <= i < a.len() implies a[i] == c[i] by {
                        assert(a[i] == b.subrange(0, a.len() as int)[i]);
                        assert(b.take(k)[i] == c.take(k)[i]);
                    }
                }
            }
        }
    } else {
        let j = choose|j: int| #[trigger] first_difference(a, b, j) && a[j] < b[j];
        if b.is_prefix_of(c) {
            assert(b[j] == c.subrange(0, b.len() as int)[j]);
            assert(a.take(j) =~= c.take(j)) by {
                assert forall|i: int| 0 <= i < j implies a[i] == c[i] by {
                    assert(a.take(j)[i] == b.take(j)[i]);
                    assert(b[i] == c.subrange(0, b.len() as int)[i]);
                }
            }
            assert(first_difference(a, c, j));
        } else {
            let k = choose|k: int| #[trigger] first_difference(b, c, k) && b[k] < c[k];
            let m: int = if j <= k {
                j
            } else {
                k
            };
            assert(a.take(m) =~= c.take(m)) by {
                assert forall|i: int| 0 <= i < m implies a[i] == c[i] by {
                    assert(a.take(j)[i] == b.take(j)[i]);
                    assert(b.take(k)[i] == c.take(k)[i]);
                }
            }
            if j < k {
                assert(b.take(k)[j] == c.take(k)[j]);
            } else if k < j {
                assert(a.take(j)[k] == b.take(j)[k]);
            }
            assert(first_difference(a, c, m));
        }
    }
}

/// `text_le` orders all texts in one line.
pub proof fn lemma_text_order_is_total()
    ensures
        total_ordering(text_order()),
{
    assert forall|a: Seq<char>| #[trigger] text_order()(a, a) by {
        lemma_text_le_reflexive(a);
    }
    assert forall|a: Seq<char>, b: Seq<char>|
        #[trigger] text_order()(a, b) && #[trigger] text_order()(b, a) implies a == b by {
        lemma_text_le_antisymmetric(a, b);
    }
    assert forall|a: Seq<char>, b: Seq<char>, c: Seq<char>|
        #[trigger] text_order()(a, b) && #[trigger] text_order()(b, c) implies text_order()(
        a,
        c,
    ) by {
        lemma_text_le_transitive(a, b, c);
    }
    assert forall|a: Seq<char>, b: Seq<char>|
        #[trigger] text_order()(a, b) || #[trigger] text_order()(b, a) by {
        lemma_text_le_total(a, b);
    }
}

/// An ascending arrangement of given texts is the only one: two ascending
/// sequences that hold the same texts, each as often as the other, are equal.
pub proof fn lemma_ascending_unique(x: Seq<Seq<char>>, y: Seq<Seq<char>>)
    requires
        ascending(x),
        ascending(y),
        x.to_multiset() == y.to_multiset(),
    ensures
        x == y,
{
    lemma_text_order_is_total();
    assert(sorted_by(x, text_order()));
    assert(sorted_by(y, text_order()));
    lemma_sorted_unique(x, y, text_order());
}

/// `left` followed by `right`.
pub fn join(left: &str, right: &str) -> (joined: String)
    ensures
        joined@ == left@ + right@,
{
    let mut joined = String::from_str(left);
    joined.append(right);
    joined
}

/// The characters of `text`, in order.
pub fn chars_of(text: &str) -> (chars: Vec<char>)
    ensures
        chars@ == text@,
{
    let mut chars: Vec<char> = Vec::new();
    for c in it: text.chars()
        invariant
            it.seq() == text@,
            chars@ == text@.take(it.index() as int),
    {
        chars.push(c);
    }
    chars
}

/// Whether `c` is an ASCII letter or an ASCII digit.
pub fn char_is_ascii_alphanumeric(c: char) -> (yes: bool)
    ensures
        yes == is_ascii_alphanumeric(c),
{
    ('0' <= c && c <= '9') || ('A' <= c && c <= 'Z') || ('a' <= c && c <= 'z')
}

/// Whether `text` ends with `suffix`.
pub fn ends_with(text: &str, suffix: &str) -> (yes: bool)
    ensures
        yes == suffix@.is_suffix_of(text@),
{
    let whole = chars_of(text);
    let end = chars_of(suffix);
    if end.len() > whole.len() {
        return false;
    }
    let start: usize = whole.len() - end.len();
    let mut i: usize = 0;
    while i < end.len()
        invariant
            i <= end.len(),
            start + end.len() == whole.len(),
            whole@ == text@,
            end@ == suffix@,
            forall|j: int| 0 <= j < i ==> end@[j] == whole@[start + j],
        decreases end.len() - i,
    {
        if end[i] != whole[start + i] {
            assert(text@.subrange(text@.len() - suffix@.len(), text@.len() as int)[i as int]
                != suffix@[i as int]);
            return false;
        }
        i += 1;
    }
    assert(suffix@ =~= text@.subrange(text@.len() - suffix@.len(), text@.len() as int));
    true
}

/// Whether `a` equals `b` or comes before it.
pub fn precedes_or_equals(a: &str, b: &str) -> (yes: bool)
    ensures
        yes == text_le(a@, b@),
{
    let left = chars_of(a);
    let right = chars_of(b);
    let mut i: usize = 0;
    while i < left.len() && i < right.len()
        invariant
            i <= left.len(),
            i <= right.len(),
            left@ == a@,
            right@ == b@,
            a@.take(i as int) == b@.take(i as int),
        decreases left.len() - i,
    {
        if left[i] != right[i] {
            let before = left[i] < right[i];
            proof {
                assert(first_difference(a@, b@, i as int));
                if !before {
                    assert(first_difference(b@, a@, i as int));
                    if text_le(a@, b@) {
                        lemma_text_le_antisymmetric(a@, b@);
                    }
                }
            }
            return before;
        }
        assert(a@.take(i + 1) =~= a@.take(i as int).push(a@[i as int]));
        assert(b@.take(i + 1) =~= b@.take(i as int).push(b@[i as int]));
        i += 1;
    }
    proof {
        if i == left.len() {
            assert(a@.take(i as int) =~= a@);
            assert(b@.take(i as int) =~= b@.subrange(0, a@.len() as int));
        } else {
            assert(b@.take(i as int) =~= b@);
            assert(a@.take(i as int) =~= a@.subrange(0, b@.len() as int));
            assert(b@.is_prefix_of(a@));
            if text_le(a@, b@) {
                lemma_text_le_antisymmetric(a@, b@);
            }
        }
    }
    i == left.len()
}

} // verus!
