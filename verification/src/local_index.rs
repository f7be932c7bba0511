//! A lookup in the cached package index: a linear scan of its lines for an
//! exact match.  Superseded by the server-side search, but still offered.
//!
//! The surrounding binary reads the cached index file and hands its text
//! in; the scan itself is verified against a line-by-line model of the
//! text.

use vstd::prelude::*;
use crate::aur::Aur;

verus! {

/// `s[i..j)` is one line of `s`: it reaches from the text's start or from
/// just behind a newline to the text's end or the next newline, and holds
/// no newline itself.  A trailing newline ends the last line, it does not
/// open an empty one.
pub open spec fn is_line_at(s: Seq<char>, i: int, j: int) -> bool {
    &&& 0 <= i <= j <= s.len()
    &&& i < s.len()
    &&& i == 0 || s[i - 1] == '\n'
    &&& j == s.len() || s[j] == '\n'
    &&& forall|k: int| i <= k < j ==> s[k] != '\n'
}

/// Whether some line of `s` is exactly `name`.
pub open spec fn has_line(s: Seq<char>, name: Seq<char>) -> bool {
    exists|i: int, j: int| #[trigger] is_line_at(s, i, j) && s.subrange(i, j) == name
}

/// A line's end determines its start: within a stretch of text that holds
/// no newline and begins at a line boundary, no other line can end at the
/// same place.
proof fn lemma_line_start_unique(s: Seq<char>, start: int, j: int, a: int)
    requires
        0 <= start <= j <= s.len(),
        start == 0 || s[start - 1] == '\n',
        forall|k: int| start <= k < j ==> s[k] != '\n',
        is_line_at(s, a, j),
    ensures
        a == start,
{
    if a < start {
        assert(s[start - 1] == '\n');
        assert(a <= start - 1 < j);
    } else if a > start {
        assert(s[a - 1] == '\n');
        assert(start <= a - 1 < j);
    }
}

impl Aur {
    /// Whether the cached index, handed in as text, lists the package:
    /// true exactly when one of its lines is the name, whole.
    pub fn find_in_local_index(&self, contents: &str, package_name: &str) -> (r: bool)
        ensures
            r == has_line(contents@, package_name@),
    {
        let ghost s = contents@;
        let ghost name = package_name@;
        let n = contents.unicode_len();
        let target = String::from_str(package_name);
        let mut line = String::new();
        let mut start: usize = 0;
        let mut i: usize = 0;
        let mut found = false;
        while i < n
            invariant
                i <= n,
                n == s.len(),
                s == contents@,
                name == package_name@,
                target@ == name,
                start <= i,
                line@ == s.subrange(start as int, i as int),
                start == 0 || s[start as int - 1] == '\n',
                forall|k: int| start <= k < i ==> s[k] != '\n',
                found ==> has_line(s, name),
                !found ==> (forall|a: int, b: int|
                    is_line_at(s, a, b) && b < i ==> s.subrange(a, b) != name),
            decreases n - i,
        {
            let c = contents.get_char(i);
            if c == '\n' {
                if line.eq(&target) {
                    found = true;
                    proof {
                        assert(is_line_at(s, start as int, i as int));
                        assert(s.subrange(start as int, i as int) == name);
                    }
                } else {
                    proof {
                        if !found {
                            assert forall|a: int, b: int|
                                is_line_at(s, a, b) && b < i + 1 implies s.subrange(a, b)
                                != name by {
                                if b == i {
                                    lemma_line_start_unique(s, start as int, i as int, a);
                                }
                            }
                        }
                    }
                }
                line = String::new();
                start = i + 1;
            } else {
                line.push(c);
                proof {
                    assert(line@ =~= s.subrange(start as int, i + 1 as int));
                    assert forall|a: int, b: int|
                        is_line_at(s, a, b) && b < i + 1 implies b < i by {
                        if b == i {
                            assert(s[b] != '\n');
                        }
                    }
                }
            }
            i += 1;
        }
        if found {
            true
        } else if start < n {
            proof {
                assert(is_line_at(s, start as int, n as int));
            }
            let r = line.eq(&target);
            proof {
                if !r {
                    assert forall|a: int, b: int|
                        is_line_at(s, a, b) implies s.subrange(a, b) != name by {
                        if b == n {
                            lemma_line_start_unique(s, start as int, n as int, a);
                        }
                    }
                }
            }
            r
        } else {
            proof {
                assert forall|a: int, b: int| is_line_at(s, a, b) implies s.subrange(a, b)
                    != name by {
                    if b == n {
                        lemma_line_start_unique(s, start as int, n as int, a);
                        assert(a == n);
                        assert(a < s.len());
                    }
                }
            }
            false
        }
    }
}

} // verus!
