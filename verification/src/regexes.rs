use vstd::prelude::*;
use vstd::string::StrSliceExecFns;
use vstd::string::View as StrView;

verus! {

/// Whether a character is a decimal digit.
pub open spec fn is_digit(c: char) -> bool {
    '0' <= c && c <= '9'
}

/// Whether text has the exact date shape YYYY-MM-DD: digits with
/// dashes after the year and the month.
pub open spec fn spec_is_date(s: Seq<char>) -> bool {
    &&& s.len() == 10
    &&& forall|i: int| 0 <= i < 10 && i != 4 && i != 7 ==> is_digit(#[trigger] s[i])
    &&& s[4] == '-'
    &&& s[7] == '-'
}

/// Whether text has the exact datetime shape YYYY-MM-DD HH:MM.
pub open spec fn spec_is_datetime(s: Seq<char>) -> bool {
    &&& s.len() == 16
    &&& forall|i: int|
        0 <= i < 16 && i != 4 && i != 7 && i != 10 && i != 13 ==> is_digit(#[trigger] s[i])
    &&& s[4] == '-'
    &&& s[7] == '-'
    &&& s[10] == ' '
    &&& s[13] == ':'
}

/// Whether a character is a decimal digit.
fn digit(c: char) -> (r: bool)
    ensures
        r == is_digit(c),
{
    '0' <= c && c <= '9'
}

/// Confirms the date shape YYYY-MM-DD.
pub fn is_date(s: &str) -> (r: bool)
    ensures
        r == spec_is_date(s@),
{
    if s.unicode_len() != 10 {
        return false;
    }
    if s.get_char(4) != '-' || s.get_char(7) != '-' {
        return false;
    }
    let mut i: usize = 0;
    while i < 10
        invariant
            i <= 10,
            s@.len() == 10,
            forall|j: int| 0 <= j < i && j != 4 && j != 7 ==> is_digit(#[trigger] s@[j]),
        decreases 10 - i,
    {
        if i != 4 && i != 7 && !digit(s.get_char(i)) {
            return false;
        }
        i = i + 1;
    }
    true
}

/// Whether a markdown link `[text](url)` stands at `i`, with its
/// bracket closing at `j` and its parenthesis at `k`: the text holds
/// at least one character and no closing bracket, the url at least
/// one character and no closing parenthesis.
pub open spec fn link_at(s: Seq<char>, i: int, j: int, k: int) -> bool {
    &&& 0 <= i
    &&& i + 1 < j
    &&& j + 2 < k
    &&& k < s.len()
    &&& s[i] == '['
    &&& s[j] == ']'
    &&& s[j + 1] == '('
    &&& s[k] == ')'
    &&& forall|m: int| i < m < j ==> s[m] != ']'
    &&& forall|m: int| j + 2 <= m < k ==> s[m] != ')'
}

/// Whether a markdown link starts at `i`.
pub open spec fn link_starts_at(s: Seq<char>, i: int) -> bool {
    exists|j: int, k: int| link_at(s, i, j, k)
}

/// Finds where a link opened at `i` closes, if it does.
fn link_close(s: &str, i: usize) -> (r: Option<(usize, usize)>)
    requires
        i < s@.len(),
        s@[i as int] == '[',
    ensures
        (r matches Some(p) ==> link_at(s@, i as int, p.0 as int, p.1 as int)),
        r is None ==> !link_starts_at(s@, i as int),
{
    let n = s.unicode_len();
    let mut j: usize = i + 1;
    while j < n && s.get_char(j) != ']'
        invariant
            i + 1 <= j <= n,
            n == s@.len(),
            forall|m: int| i < m < j ==> s@[m] != ']',
        decreases n - j,
    {
        j = j + 1;
    }
    if j >= n || j == i + 1 {
        proof {
            assert forall|j2: int, k2: int| !link_at(s@, i as int, j2, k2) by {
                if link_at(s@, i as int, j2, k2) {
                    if j >= n {
                        assert(s@[j2] != ']');
                    } else {
                        assert(s@[i + 1] != ']');
                    }
                }
            }
        }
        return None;
    }
    if j + 1 >= n || s.get_char(j + 1) != '(' {
        proof {
            assert forall|j2: int, k2: int| !link_at(s@, i as int, j2, k2) by {
                if link_at(s@, i as int, j2, k2) {
                    if j2 < j {
                        assert(s@[j2] != ']');
                    } else if j2 > j {
                        assert(s@[j as int] != ']');
                    } else {
                        assert(s@[j2 + 1] == '(');
                    }
                }
            }
        }
        return None;
    }
    let mut k: usize = j + 2;
    while k < n && s.get_char(k) != ')'
        invariant
            j + 2 <= k <= n,
            n == s@.len(),
            forall|m: int| j + 2 <= m < k ==> s@[m] != ')',
        decreases n - k,
    {
        k = k + 1;
    }
    if k >= n || k == j + 2 {
        proof {
            assert forall|j2: int, k2: int| !link_at(s@, i as int, j2, k2) by {
                if link_at(s@, i as int, j2, k2) {
                    if j2 < j {
                        assert(s@[j2] != ']');
                    } else if j2 > j {
                        assert(s@[j as int] != ']');
                    } else {
                        if k >= n {
                            assert(s@[k2] != ')');
                        } else {
                            assert(s@[j + 2] != ')');
                        }
                    }
                }
            }
        }
        return None;
    }
    Some((j, k))
}

/// The first markdown link in the text: the link text between the
/// brackets and the url between the parentheses.
pub fn find_markdown_link(s: &str) -> (r: Option<(String, String)>)
    ensures
        match r {
            Some(tu) => exists|i: int, j: int, k: int|
                {
                    &&& #[trigger] link_at(s@, i, j, k)
                    &&& forall|i2: int| 0 <= i2 < i ==> !link_starts_at(s@, i2)
                    &&& tu.0@ == s@.subrange(i + 1, j)
                    &&& tu.1@ == s@.subrange(j + 2, k)
                },
            None => forall|i2: int| 0 <= i2 < s@.len() ==> !link_starts_at(s@, i2),
        },
{
    let n = s.unicode_len();
    let mut i: usize = 0;
    while i < n
        invariant
            i <= n,
            n == s@.len(),
            forall|i2: int| 0 <= i2 < i ==> !link_starts_at(s@, i2),
        decreases n - i,
    {
        if s.get_char(i) == '[' {
            if let Some((j, k)) = link_close(s, i) {
                let text = s.substring_char(i + 1, j).to_owned();
                let url = s.substring_char(j + 2, k).to_owned();
                proof {
                    let gi: int = i as int;
                    let gj: int = j as int;
                    let gk: int = k as int;
                    assert({
                        &&& link_at(s@, gi, gj, gk)
                        &&& forall|i2: int| 0 <= i2 < gi ==> !link_starts_at(s@, i2)
                        &&& text@ == s@.subrange(gi + 1, gj)
                        &&& url@ == s@.subrange(gj + 2, gk)
                    });
                }
                return Some((text, url));
            }
        } else {
            proof {
                assert forall|j2: int, k2: int| !link_at(s@, i as int, j2, k2) by {
                    if link_at(s@, i as int, j2, k2) {
                        assert(s@[i as int] == '[');
                    }
                }
            }
        }
        i = i + 1;
    }
    None
}

/// Confirms the datetime shape YYYY-MM-DD HH:MM.
pub fn is_datetime(s: &str) -> (r: bool)
    ensures
        r == spec_is_datetime(s@),
{
    if s.unicode_len() != 16 {
        return false;
    }
    if s.get_char(4) != '-' || s.get_char(7) != '-' || s.get_char(10) != ' ' || s.get_char(13)
        != ':' {
        return false;
    }
    let mut i: usize = 0;
    while i < 16
        invariant
            i <= 16,
            s@.len() == 16,
            forall|j: int|
                0 <= j < i && j != 4 && j != 7 && j != 10 && j != 13 ==> is_digit(#[trigger] s@[j]),
        decreases 16 - i,
    {
        if i != 4 && i != 7 && i != 10 && i != 13 && !digit(s.get_char(i)) {
            return false;
        }
        i = i + 1;
    }
    true
}

} // verus!
