//! Recognition of source repository URLs.
//!
//! The single-repository flow accepts exactly two shapes, an SSH address
//! `git@github.com:` or a web address `https://github.com/`, and reads the
//! owner as the first `/`-separated segment after the prefix and the
//! repository name as the second.

use vstd::prelude::*;
use vstd::string::*;

verus! {

/// Whether `p` is a prefix of `s`.
pub open spec fn spec_has_prefix(s: Seq<char>, p: Seq<char>) -> bool {
    p.len() <= s.len() && s.subrange(0, p.len() as int) == p
}

/// The index of the first `/` in `s`, or `s.len()` when there is none.
pub open spec fn spec_first_slash(s: Seq<char>) -> int
    decreases s.len(),
{
    if s.len() == 0 {
        0
    } else if s[0] == '/' {
        0
    } else {
        1 + spec_first_slash(s.drop_first())
    }
}

/// [`spec_first_slash`] names the position of the first `/`: everything
/// before a position with no earlier `/` pins it down.
proof fn lemma_first_slash_at(s: Seq<char>, i: int)
    requires
        0 <= i <= s.len(),
        forall|k: int| 0 <= k < i ==> s[k] != '/',
        i < s.len() ==> s[i] == '/',
        i == s.len() ==> forall|k: int| 0 <= k < s.len() ==> s[k] != '/',
    ensures
        spec_first_slash(s) == i,
    decreases i,
{
    if i == 0 {
        if s.len() > 0 && s[0] != '/' {
            assert(s[0] == '/');
        }
    } else {
        assert(s[0] != '/');
        let t = s.drop_first();
        assert forall|k: int| 0 <= k < i - 1 implies t[k] != '/' by {
            assert(t[k] == s[k + 1]);
        }
        if i - 1 < t.len() {
            assert(t[i - 1] == s[i]);
        } else {
            assert forall|k: int| 0 <= k < t.len() implies t[k] != '/' by {
                assert(t[k] == s[k + 1]);
            }
        }
        lemma_first_slash_at(t, i - 1);
    }
}

/// The owner and name segments of the remainder after a recognized prefix:
/// the text before the first `/`, and the text from there to the next `/`
/// or the end. Nothing when the remainder has no `/` at all.
pub open spec fn spec_split_owner_name(r: Seq<char>) -> Option<(Seq<char>, Seq<char>)> {
    let i = spec_first_slash(r);
    if i == r.len() {
        None
    } else {
        let rest = r.skip(i + 1);
        Some((r.take(i), rest.take(spec_first_slash(rest))))
    }
}

/// The owner and repository name a source URL designates, when the URL
/// carries one of the two recognized prefixes and an owner/name pair
/// follows; nothing otherwise.
pub open spec fn spec_parse_repository_url(s: Seq<char>) -> Option<(Seq<char>, Seq<char>)> {
    if spec_has_prefix(s, "git@github.com:"@) {
        spec_split_owner_name(s.skip("git@github.com:"@.len() as int))
    } else if spec_has_prefix(s, "https://github.com/"@) {
        spec_split_owner_name(s.skip("https://github.com/"@.len() as int))
    } else {
        None
    }
}

/// Exec mirror of [`spec_has_prefix`].
fn has_prefix(s: &str, p: &str) -> (r: bool)
    ensures
        r == spec_has_prefix(s@, p@),
{
    let n = s.unicode_len();
    let m = p.unicode_len();
    if m > n {
        return false;
    }
    let mut i: usize = 0;
    while i < m
        invariant
            0 <= i <= m <= n,
            n == s@.len(),
            m == p@.len(),
            forall|k: int| 0 <= k < i ==> s@[k] == p@[k],
        decreases m - i,
    {
        if s.get_char(i) != p.get_char(i) {
            assert(s@.subrange(0, m as int)[i as int] != p@[i as int]);
            return false;
        }
        i += 1;
    }
    proof {
        assert(s@.subrange(0, m as int) =~= p@);
    }
    true
}

/// Exec mirror of [`spec_first_slash`].
fn first_slash(s: &str) -> (i: usize)
    ensures
        i as int == spec_first_slash(s@),
        i <= s@.len(),
{
    let n = s.unicode_len();
    let mut i: usize = 0;
    while i < n
        invariant
            0 <= i <= n,
            n == s@.len(),
            forall|k: int| 0 <= k < i ==> s@[k] != '/',
        decreases n - i,
    {
        if s.get_char(i) == '/' {
            proof {
                lemma_first_slash_at(s@, i as int);
            }
            return i;
        }
        i += 1;
    }
    proof {
        lemma_first_slash_at(s@, n as int);
    }
    n
}

/// Exec mirror of [`spec_split_owner_name`].
fn split_owner_name(r: &str) -> (res: Option<(String, String)>)
    ensures
        res.deep_view() == spec_split_owner_name(r@),
{
    let n = r.unicode_len();
    let i = first_slash(r);
    if i == n {
        return None;
    }
    let owner = r.substring_char(0, i).to_owned();
    let rest = r.substring_char(i + 1, n);
    proof {
        assert(rest@ =~= r@.skip(i + 1));
        assert(owner@ =~= r@.take(i as int));
    }
    let j = first_slash(rest);
    let name = rest.substring_char(0, j).to_owned();
    proof {
        assert(name@ =~= rest@.take(j as int));
    }
    Some((owner, name))
}

/// Exec mirror of [`spec_parse_repository_url`]: the owner/name pair a
/// source repository URL designates, or nothing when the URL does not
/// match the recognized shapes.
pub fn parse_repository_url(url: &str) -> (res: Option<(String, String)>)
    ensures
        res.deep_view() == spec_parse_repository_url(url@),
{
    let ssh = "git@github.com:";
    let https = "https://github.com/";
    if has_prefix(url, ssh) {
        let rest = url.substring_char(ssh.unicode_len(), url.unicode_len());
        proof {
            assert(rest@ =~= url@.skip(ssh@.len() as int));
        }
        split_owner_name(rest)
    } else if has_prefix(url, https) {
        let rest = url.substring_char(https.unicode_len(), url.unicode_len());
        proof {
            assert(rest@ =~= url@.skip(https@.len() as int));
        }
        split_owner_name(rest)
    } else {
        None
    }
}

} // verus!
