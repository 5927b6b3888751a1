//! Text operations on a repository URL's path: trimming separators, splitting
//! off the owner, and dropping the version-control suffix.
use vstd::prelude::*;

verus! {

/// `s` without its leading `/` characters.
pub open spec fn trim_leading_slashes(s: Seq<char>) -> Seq<char>
    decreases s.len(),
{
    if s.len() > 0 && s[0] == '/' {
        trim_leading_slashes(s.drop_first())
    } else {
        s
    }
}

/// `s` without its trailing `/` characters.
pub open spec fn trim_trailing_slashes(s: Seq<char>) -> Seq<char>
    decreases s.len(),
{
    if s.len() > 0 && s.last() == '/' {
        trim_trailing_slashes(s.drop_last())
    } else {
        s
    }
}

/// `s` without leading or trailing `/` characters.
pub open spec fn trim_slashes_spec(s: Seq<char>) -> Seq<char> {
    trim_trailing_slashes(trim_leading_slashes(s))
}

/// Removes every leading and trailing `/` from `s`.
pub fn trim_slashes(s: &str) -> (r: &str)
    ensures
        r@ == trim_slashes_spec(s@),
{
    let n: usize = s.unicode_len();
    let mut a: usize = 0;
    assert(s@.skip(0) =~= s@);
    while a < n && s.get_char(a) == '/'
        invariant
            a <= n,
            n == s@.len(),
            trim_leading_slashes(s@) == trim_leading_slashes(s@.skip(a as int)),
        decreases n - a,
    {
        assert(s@.skip(a as int).drop_first() =~= s@.skip(a + 1));
        a += 1;
    }
    assert(trim_leading_slashes(s@) == s@.subrange(a as int, n as int)) by {
        assert(s@.skip(a as int) =~= s@.subrange(a as int, n as int));
    }
    let mut b: usize = n;
    while b > a && s.get_char(b - 1) == '/'
        invariant
            a <= b <= n,
            n == s@.len(),
            trim_slashes_spec(s@) == trim_trailing_slashes(s@.subrange(a as int, b as int)),
        decreases b,
    {
        assert(s@.subrange(a as int, b as int).drop_last() =~= s@.subrange(a as int, b - 1));
        b -= 1;
    }
    assert(trim_trailing_slashes(s@.subrange(a as int, b as int)) == s@.subrange(a as int, b as int));
    s.substring_char(a, b)
}


/// `k` is the position of the first `/` in `s`.
pub open spec fn is_first_slash(s: Seq<char>, k: int) -> bool {
    &&& 0 <= k < s.len()
    &&& s[k] == '/'
    &&& forall|i: int| 0 <= i < k ==> s[i] != '/'
}

/// `s` holds at least one `/`.
pub open spec fn has_slash(s: Seq<char>) -> bool {
    exists|i: int| 0 <= i < s.len() && s[i] == '/'
}

/// The position of the first `/` in `s`; meaningful only where `has_slash(s)`.
pub open spec fn first_slash_spec(s: Seq<char>) -> int {
    choose|k: int| is_first_slash(s, k)
}

/// The version-control suffix of a repository path.
pub open spec fn git_suffix() -> Seq<char> {
    seq!['.', 'g', 'i', 't']
}

/// `s` with one trailing `.git` removed, if it ends with one.
pub open spec fn strip_git_suffix_spec(s: Seq<char>) -> Seq<char> {
    if s.len() >= 4 && s.subrange(s.len() - 4, s.len() as int) == git_suffix() {
        s.subrange(0, s.len() - 4)
    } else {
        s
    }
}

/// `owner/rest` split at the first `/` into `owner` and `rest` without its `.git`.
pub open spec fn repo_uri_spec(s: Seq<char>) -> (Seq<char>, Seq<char>) {
    let k = first_slash_spec(s);
    (s.subrange(0, k), strip_git_suffix_spec(s.subrange(k + 1, s.len() as int)))
}

/// The owner and repository named by a URL path, when both are non-empty.
pub open spec fn owner_and_repo(path: Seq<char>) -> Option<(Seq<char>, Seq<char>)> {
    let t = trim_slashes_spec(path);
    if has_slash(t) && repo_uri_spec(t).0.len() > 0 && repo_uri_spec(t).1.len() > 0 {
        Some(repo_uri_spec(t))
    } else {
        None
    }
}

/// The first `/` of a sequence is the one `first_slash_spec` names.
pub proof fn lemma_first_slash_unique(s: Seq<char>, k: int)
    requires
        is_first_slash(s, k),
    ensures
        has_slash(s),
        first_slash_spec(s) == k,
{
    let j = first_slash_spec(s);
    assert(is_first_slash(s, j));
    if j < k {
        assert(s[j] != '/');
    } else if k < j {
        assert(s[k] != '/');
    }
}

/// The position of the first `/` in `s`, if there is one.
pub fn find_first_slash(s: &str) -> (r: Option<usize>)
    ensures
        r matches Some(k) ==> is_first_slash(s@, k as int) && first_slash_spec(s@) == k,
        r is None <==> !has_slash(s@),
{
    let n: usize = s.unicode_len();
    let mut i: usize = 0;
    while i < n
        invariant
            i <= n,
            n == s@.len(),
            forall|j: int| 0 <= j < i ==> s@[j] != '/',
        decreases n - i,
    {
        if s.get_char(i) == '/' {
            proof {
                lemma_first_slash_unique(s@, i as int);
            }
            return Some(i);
        }
        i += 1;
    }
    None
}

/// Removes one trailing `.git` from `s`, if it ends with one.
pub fn strip_git_suffix(s: &str) -> (r: &str)
    ensures
        r@ == strip_git_suffix_spec(s@),
{
    let n: usize = s.unicode_len();
    if n >= 4 && s.get_char(n - 4) == '.' && s.get_char(n - 3) == 'g' && s.get_char(n - 2) == 'i'
        && s.get_char(n - 1) == 't' {
        assert(s@.subrange(n - 4, n as int) =~= git_suffix());
        s.substring_char(0, n - 4)
    } else {
        assert(n >= 4 ==> s@.subrange(n - 4, n as int)[0] == s@[n - 4]);
        assert(n >= 4 ==> s@.subrange(n - 4, n as int)[1] == s@[n - 3]);
        assert(n >= 4 ==> s@.subrange(n - 4, n as int)[2] == s@[n - 2]);
        assert(n >= 4 ==> s@.subrange(n - 4, n as int)[3] == s@[n - 1]);
        s
    }
}

/// Splits `owner/rest` at its first `/` into the owner and the repository name,
/// dropping a trailing `.git` from the latter.
pub fn repo_uri(path: &str) -> (r: (String, String))
    requires
        has_slash(path@),
    ensures
        (r.0@, r.1@) == repo_uri_spec(path@),
{
    let k: usize = find_first_slash(path).unwrap();
    let n: usize = path.unicode_len();
    let owner = path.substring_char(0, k);
    let rest = path.substring_char(k + 1, n);
    let repo = strip_git_suffix(rest);
    (owner.to_owned(), repo.to_owned())
}

/// The owner and repository named by a URL path such as `/owner/repo.git`, or
/// `None` where the path does not name both.
pub fn split_repo_path(path: &str) -> (r: Option<(String, String)>)
    ensures
        r matches Some(p) ==> owner_and_repo(path@) == Some((p.0@, p.1@)),
        r is None <==> owner_and_repo(path@) is None,
{
    let t = trim_slashes(path);
    if find_first_slash(t).is_none() {
        return None;
    }
    let (owner, repo) = repo_uri(t);
    if owner.unicode_len() == 0 || repo.unicode_len() == 0 {
        None
    } else {
        Some((owner, repo))
    }
}

} // verus!
