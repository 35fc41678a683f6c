use vstd::prelude::*;
use vstd::string::*;

verus! {

/// `s[a..b]` is the short name of the repository URL `s`: `a` follows the last
/// `/` (or is 0 when there is none), and `b` is the first `.` at or after `a`
/// (or the end).
pub open spec fn is_name_span(s: Seq<char>, a: int, b: int) -> bool {
    &&& 0 <= a <= b <= s.len()
    &&& a == 0 || s[a - 1] == '/'
    &&& forall|k: int| a <= k < s.len() ==> #[trigger] s[k] != '/'
    &&& forall|k: int| a <= k < b ==> #[trigger] s[k] != '.'
    &&& b == s.len() || s[b] == '.'
}

pub open spec fn is_repo_name(s: Seq<char>, r: Seq<char>) -> bool {
    exists|a: int, b: int| is_name_span(s, a, b) && r == s.subrange(a, b)
}

/// Derives a short name from a repository URL: the text after the last `/`,
/// cut at its first `.`. A URL that ends in `/` gives the empty name.
pub fn get_repo_name(repo: &str) -> (r: String)
    ensures
        is_repo_name(repo@, r@),
{
    let length = repo.unicode_len();
    let mut i: usize = length;
    let mut dot: usize = length;
    let mut at_slash = false;
    while i > 0 && !at_slash
        invariant
            at_slash ==> i > 0 && repo@[i - 1] == '/',
            length == repo@.len(),
            i <= dot <= length,
            forall|k: int| i <= k < length ==> #[trigger] repo@[k] != '/',
            forall|k: int| i <= k < dot ==> #[trigger] repo@[k] != '.',
            dot == length || repo@[dot as int] == '.',
        decreases i + if at_slash { 0int } else { 1int },
    {
        let c = repo.get_char(i - 1);
        if c == '/' {
            at_slash = true;
        } else {
            if c == '.' {
                dot = i - 1;
            }
            i = i - 1;
        }
    }
    let name = repo.substring_char(i, dot);
    assert(is_name_span(repo@, i as int, dot as int));
    String::from_str(name)
}

} // verus!
