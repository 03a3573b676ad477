//! Character-level helpers on string slices: comparison, prefix tests and
//! textual replacement.

use vstd::prelude::*;

verus! {

/// `pat` stands in `text` at offset `at`.
pub open spec fn occurs_at(text: Seq<char>, pat: Seq<char>, at: int) -> bool {
    &&& 0 <= at
    &&& at + pat.len() <= text.len()
    &&& text.subrange(at, at + pat.len()) == pat
}

/// `pat` stands somewhere in `text`.
pub open spec fn occurs(text: Seq<char>, pat: Seq<char>) -> bool {
    exists|at: int| occurs_at(text, pat, at)
}

/// `text` with every occurrence of `pat` replaced by `value`, scanning from
/// the left and never looking again at characters already consumed.
///
/// An empty `pat` matches before every character and once more at the end.
pub open spec fn replaced(text: Seq<char>, pat: Seq<char>, value: Seq<char>) -> Seq<char>
    decreases text.len(),
{
    if pat.len() == 0 {
        if text.len() == 0 {
            value
        } else {
            value + seq![text[0]] + replaced(text.subrange(1, text.len() as int), pat, value)
        }
    } else if text.len() < pat.len() {
        text
    } else if text.subrange(0, pat.len() as int) == pat {
        value + replaced(text.subrange(pat.len() as int, text.len() as int), pat, value)
    } else {
        seq![text[0]] + replaced(text.subrange(1, text.len() as int), pat, value)
    }
}

/// Where `pat` stands nowhere among the first `k` offsets of `text`, the
/// replacement copies the first `k` characters and goes on behind them.
pub proof fn lemma_replaced_skips(text: Seq<char>, pat: Seq<char>, value: Seq<char>, k: int)
    requires
        pat.len() > 0,
        0 <= k <= text.len(),
        forall|j: int| 0 <= j < k ==> !occurs_at(text, pat, j),
    ensures
        replaced(text, pat, value) == text.subrange(0, k) + replaced(
            text.subrange(k, text.len() as int),
            pat,
            value,
        ),
    decreases k,
{
    let n = text.len() as int;
    if k == 0 {
        assert(text.subrange(0, n) =~= text);
        assert(text.subrange(0, 0) + replaced(text, pat, value) =~= replaced(text, pat, value));
    } else if n < pat.len() {
        let tail = text.subrange(k, n);
        assert(replaced(tail, pat, value) == tail);
        assert(text.subrange(0, k) + tail =~= text);
    } else {
        assert(!occurs_at(text, pat, 0));
        let rest = text.subrange(1, n);
        assert forall|j: int| 0 <= j < k - 1 implies !occurs_at(rest, pat, j) by {
            if occurs_at(rest, pat, j) {
                assert(rest.subrange(j, j + pat.len()) =~= text.subrange(j + 1, j + 1 + pat.len()));
                assert(occurs_at(text, pat, j + 1));
            }
        }
        lemma_replaced_skips(rest, pat, value, k - 1);
        assert(rest.subrange(k - 1, rest.len() as int) =~= text.subrange(k, n));
        assert(seq![text[0]] + rest.subrange(0, k - 1) =~= text.subrange(0, k));
        assert(seq![text[0]] + (rest.subrange(0, k - 1) + replaced(
            text.subrange(k, n),
            pat,
            value,
        )) =~= (seq![text[0]] + rest.subrange(0, k - 1)) + replaced(
            text.subrange(k, n),
            pat,
            value,
        ));
    }
}

/// A text in which `pat` stands nowhere is left as it is.
pub proof fn lemma_replaced_without_occurrence(text: Seq<char>, pat: Seq<char>, value: Seq<char>)
    requires
        pat.len() > 0,
        !occurs(text, pat),
    ensures
        replaced(text, pat, value) == text,
{
    let n = text.len() as int;
    lemma_replaced_skips(text, pat, value, n);
    assert(text.subrange(n, n) =~= Seq::<char>::empty());
    assert(text.subrange(0, n) + Seq::<char>::empty() =~= text);
}

/// Where `pat` stands first at offset `at`, the replacement copies what is
/// before it, puts `value` in its place and goes on behind it.
pub proof fn lemma_replaced_at_first_occurrence(
    text: Seq<char>,
    pat: Seq<char>,
    value: Seq<char>,
    at: int,
)
    requires
        pat.len() > 0,
        occurs_at(text, pat, at),
        forall|j: int| 0 <= j < at ==> !occurs_at(text, pat, j),
    ensures
        replaced(text, pat, value) == text.subrange(0, at) + value + replaced(
            text.subrange(at + pat.len(), text.len() as int),
            pat,
            value,
        ),
{
    let n = text.len() as int;
    let m = pat.len() as int;
    lemma_replaced_skips(text, pat, value, at);
    let tail = text.subrange(at, n);
    assert(tail.subrange(0, m) =~= text.subrange(at, at + m));
    assert(tail.subrange(m, tail.len() as int) =~= text.subrange(at + m, n));
    assert(text.subrange(0, at) + (value + replaced(text.subrange(at + m, n), pat, value))
        =~= text.subrange(0, at) + value + replaced(text.subrange(at + m, n), pat, value));
}

/// A replacement brings in no character: one that stands neither in `text`
/// nor in `value` does not stand in the result.
pub proof fn lemma_replaced_brings_nothing_in(
    text: Seq<char>,
    pat: Seq<char>,
    value: Seq<char>,
    c: char,
)
    requires
        !text.contains(c),
        !value.contains(c),
    ensures
        !replaced(text, pat, value).contains(c),
    decreases text.len(),
{
    let n = text.len() as int;
    let m = pat.len() as int;
    let out = replaced(text, pat, value);
    if m == 0 && n == 0 {
    } else if m > 0 && n < m {
    } else {
        let hit = m > 0 && text.subrange(0, m) == pat;
        let step = if hit {
            m
        } else {
            1
        };
        let rest = text.subrange(step, n);
        assert forall|i: int| 0 <= i < rest.len() implies rest[i] != c by {
            assert(text.contains(text[i + step]));
        }
        lemma_replaced_brings_nothing_in(rest, pat, value, c);
        assert(text.contains(text[0]));
        let tail = replaced(rest, pat, value);
        assert forall|i: int| 0 <= i < out.len() implies out[i] != c by {
            if m == 0 {
                assert(out == value + seq![text[0]] + tail);
                if i < value.len() {
                    assert(value.contains(value[i]));
                } else if i > value.len() {
                    assert(tail.contains(tail[i - value.len() - 1]));
                }
            } else if hit {
                assert(out == value + tail);
                if i < value.len() {
                    assert(value.contains(value[i]));
                } else {
                    assert(tail.contains(tail[i - value.len()]));
                }
            } else {
                assert(out == seq![text[0]] + tail);
                if i > 0 {
                    assert(tail.contains(tail[i - 1]));
                }
            }
        }
    }
}

/// Whether two string slices hold the same characters.
pub fn str_eq(a: &str, b: &str) -> (same: bool)
    ensures
        same == (a@ == b@),
{
    let x = String::from_str(a);
    let y = String::from_str(b);
    x == y
}

/// Whether `text` begins with the character `first`.
pub fn starts_with_char(text: &str, first: char) -> (hit: bool)
    ensures
        hit == (text@.len() > 0 && text@[0] == first),
{
    text.unicode_len() > 0 && text.get_char(0) == first
}

/// Whether `pat` stands in `text` at character offset `at`.
pub fn matches_at(text: &str, pat: &str, at: usize) -> (hit: bool)
    ensures
        hit == occurs_at(text@, pat@, at as int),
{
    let n: usize = text.unicode_len();
    let m: usize = pat.unicode_len();
    if at > n || m > n - at {
        return false;
    }
    let mut k: usize = 0;
    while k < m
        invariant
            k <= m,
            m == pat@.len(),
            n == text@.len(),
            at + m <= n,
            forall|j: int| 0 <= j < k ==> text@[at + j] == pat@[j],
        decreases m - k,
    {
        if text.get_char(at + k) != pat.get_char(k) {
            assert(text@.subrange(at as int, at + m)[k as int] != pat@[k as int]);
            return false;
        }
        k = k + 1;
    }
    assert(text@.subrange(at as int, at + m) =~= pat@);
    true
}

/// Copies `text` with every occurrence of `pat` replaced by `value`.
pub fn replace_all(text: &str, pat: &str, value: &str) -> (out: String)
    ensures
        out@ == replaced(text@, pat@, value@),
{
    let n: usize = text.unicode_len();
    let m: usize = pat.unicode_len();
    let mut out = String::new();
    let mut i: usize = 0;
    proof {
        assert(text@.subrange(0, n as int) =~= text@);
    }
    while i < n
        invariant
            i <= n,
            n == text@.len(),
            m == pat@.len(),
            out@ + replaced(text@.subrange(i as int, n as int), pat@, value@) == replaced(
                text@,
                pat@,
                value@,
            ),
        decreases n - i,
    {
        let ghost rest = text@.subrange(i as int, n as int);
        if m == 0 {
            out.append(value);
            out.append(text.substring_char(i, i + 1));
            proof {
                assert(rest.subrange(1, rest.len() as int) =~= text@.subrange(i + 1, n as int));
                assert(text@.subrange(i as int, i + 1) =~= seq![rest[0]]);
            }
            i = i + 1;
        } else if m > n - i {
            out.append(text.substring_char(i, n));
            proof {
                assert(text@.subrange(n as int, n as int) =~= Seq::<char>::empty());
            }
            i = n;
        } else if matches_at(text, pat, i) {
            out.append(value);
            proof {
                assert(rest.subrange(0, m as int) =~= text@.subrange(i as int, i + m));
                assert(rest.subrange(m as int, rest.len() as int) =~= text@.subrange(
                    i + m,
                    n as int,
                ));
            }
            i = i + m;
        } else {
            out.append(text.substring_char(i, i + 1));
            proof {
                assert(rest.subrange(0, m as int) =~= text@.subrange(i as int, i + m));
                assert(rest.subrange(1, rest.len() as int) =~= text@.subrange(i + 1, n as int));
                assert(text@.subrange(i as int, i + 1) =~= seq![rest[0]]);
            }
            i = i + 1;
        }
    }
    proof {
        assert(text@.subrange(n as int, n as int) =~= Seq::<char>::empty());
    }
    if m == 0 {
        out.append(value);
    }
    out
}

} // verus!
