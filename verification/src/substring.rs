//! Substring containment: the mathematical definition and a verified search.

use vstd::prelude::*;

verus! {

/// `pattern` occurs in `line` starting at character position `i`.
pub open spec fn contains_at(line: Seq<char>, pattern: Seq<char>, i: int) -> bool {
    0 <= i && i + pattern.len() <= line.len() && line.subrange(i, i + pattern.len()) == pattern
}

/// `line` contains `pattern` as a contiguous substring. The empty pattern is
/// contained in every line, the empty line included.
pub open spec fn contains_seq(line: Seq<char>, pattern: Seq<char>) -> bool {
    exists|i: int| contains_at(line, pattern, i)
}

/// `pattern` occurs in `line` exactly at character position `i`.
fn occurs_at(line: &str, pattern: &str, i: usize) -> (r: bool)
    requires
        i + pattern@.len() <= line@.len(),
        line@.len() <= usize::MAX,
    ensures
        r == contains_at(line@, pattern@, i as int),
{
    let m = pattern.unicode_len();
    let mut j: usize = 0;
    while j < m
        invariant
            m == pattern@.len(),
            i + m <= line@.len(),
            line@.len() <= usize::MAX,
            j <= m,
            forall|k: int| 0 <= k < j ==> line@[i + k] == pattern@[k],
        decreases m - j,
    {
        if line.get_char(i + j) != pattern.get_char(j) {
            assert(!contains_at(line@, pattern@, i as int)) by {
                if contains_at(line@, pattern@, i as int) {
                    assert(line@.subrange(i as int, i + m)[j as int] == line@[i + j]);
                }
            }
            return false;
        }
        j = j + 1;
    }
    assert(line@.subrange(i as int, i + m) =~= pattern@);
    true
}

/// Whether `line` contains `pattern` as a contiguous substring, by a scan over
/// every start position.
pub fn contains_substring(line: &str, pattern: &str) -> (r: bool)
    ensures
        r == contains_seq(line@, pattern@),
{
    let n = line.unicode_len();
    let m = pattern.unicode_len();
    if m > n {
        assert(forall|i: int| !contains_at(line@, pattern@, i));
        return false;
    }
    let mut i: usize = 0;
    loop
        invariant
            n == line@.len(),
            m == pattern@.len(),
            m <= n,
            i <= n - m,
            forall|k: int| 0 <= k < i ==> !contains_at(line@, pattern@, k),
        decreases n - m - i,
    {
        if occurs_at(line, pattern, i) {
            return true;
        }
        if i == n - m {
            assert(forall|k: int| contains_at(line@, pattern@, k) ==> 0 <= k <= n - m);
            return false;
        }
        i = i + 1;
    }
}

} // verus!
