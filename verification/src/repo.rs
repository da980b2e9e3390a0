//! Parsing and validation of repository paths of the form `"user/repository"`.

use vstd::prelude::*;

verus! {

/// The characters allowed in the two segments of a repository path: ASCII
/// letters, `'-'` and `'_'`.
pub open spec fn is_repo_char(c: char) -> bool {
    ||| 'A' as u32 <= c as u32 && c as u32 <= 'Z' as u32
    ||| 'a' as u32 <= c as u32 && c as u32 <= 'z' as u32
    ||| c == '-'
    ||| c == '_'
}

/// A non-empty run of allowed characters.
pub open spec fn is_segment(s: Seq<char>) -> bool {
    s.len() > 0 && (forall|i: int| 0 <= i < s.len() ==> is_repo_char(#[trigger] s[i]))
}

/// `s` reads exactly `user`, then a slash, then `repo`, where both segments
/// are valid. The whole string must match: trailing text is not accepted.
pub open spec fn parses_to(s: Seq<char>, user: Seq<char>, repo: Seq<char>) -> bool {
    is_segment(user) && is_segment(repo) && s == user + seq!['/'] + repo
}

/// `s` is a well-formed repository path.
pub open spec fn is_repo_path(s: Seq<char>) -> bool {
    exists|user: Seq<char>, repo: Seq<char>| #[trigger] parses_to(s, user, repo)
}

/// The path to a repository on the hosting service, in the form
/// `"user/repository"`.
pub struct Repo {
    /// The username of the repository owner.
    pub user: String,
    /// The name of the repository.
    pub repo: String,
}

/// An allowed segment character is never the separator.
proof fn lemma_repo_char_not_slash(c: char)
    ensures
        is_repo_char(c) ==> c != '/',
{
}

/// In a well-formed path, the segments are exactly the text on either side of
/// the first slash.
proof fn lemma_parse_split(s: Seq<char>, user: Seq<char>, repo: Seq<char>, slash: int)
    requires
        parses_to(s, user, repo),
        0 <= slash < s.len(),
        s[slash] == '/',
        forall|j: int| 0 <= j < slash ==> s[j] != '/',
    ensures
        user.len() == slash,
        user == s.subrange(0, slash),
        repo == s.subrange(slash + 1, s.len() as int),
{
    if user.len() < slash {
        assert(s[user.len() as int] == '/');
        assert(false);
    }
    if user.len() > slash {
        assert(s[slash] == user[slash]);
        lemma_repo_char_not_slash(user[slash]);
        assert(false);
    }
    assert(user =~= s.subrange(0, slash));
    assert(repo =~= s.subrange(slash + 1, s.len() as int));
}

/// A repository path determines its owner and name: parsing is lossless, in
/// that the segments of a well-formed path are unique.
pub proof fn lemma_repo_path_unique(
    s: Seq<char>,
    u1: Seq<char>,
    p1: Seq<char>,
    u2: Seq<char>,
    p2: Seq<char>,
)
    requires
        parses_to(s, u1, p1),
        parses_to(s, u2, p2),
    ensures
        u1 == u2,
        p1 == p2,
{
    let slash = u1.len() as int;
    assert forall|j: int| 0 <= j < slash implies s[j] != '/' by {
        assert(s[j] == u1[j]);
        lemma_repo_char_not_slash(u1[j]);
    }
    assert(s[slash] == '/');
    lemma_parse_split(s, u1, p1, slash);
    lemma_parse_split(s, u2, p2, slash);
}

/// Whether `c` is allowed in a repository-path segment.
fn repo_char(c: char) -> (r: bool)
    ensures
        r == is_repo_char(c),
{
    let u = c as u32;
    ('A' as u32 <= u && u <= 'Z' as u32) || ('a' as u32 <= u && u <= 'z' as u32) || c == '-'
        || c == '_'
}

/// Whether `s` is a non-empty run of allowed segment characters.
fn check_segment(s: &str) -> (r: bool)
    ensures
        r == is_segment(s@),
{
    let n = s.unicode_len();
    if n == 0 {
        return false;
    }
    let mut i: usize = 0;
    while i < n
        invariant
            n == s@.len(),
            i <= n,
            forall|j: int| 0 <= j < i ==> is_repo_char(#[trigger] s@[j]),
        decreases n - i,
    {
        if !repo_char(s.get_char(i)) {
            return false;
        }
        i += 1;
    }
    true
}

/// The position of the first slash in `s`, if any.
fn find_slash(s: &str) -> (r: Option<usize>)
    ensures
        match r {
            Some(i) => {
                &&& i < s@.len()
                &&& s@[i as int] == '/'
                &&& forall|j: int| 0 <= j < i ==> s@[j] != '/'
            },
            None => forall|j: int| 0 <= j < s@.len() ==> s@[j] != '/',
        },
{
    let n = s.unicode_len();
    let mut i: usize = 0;
    while i < n
        invariant
            n == s@.len(),
            i <= n,
            forall|j: int| 0 <= j < i ==> s@[j] != '/',
        decreases n - i,
    {
        if s.get_char(i) == '/' {
            return Some(i);
        }
        i += 1;
    }
    None
}

impl Repo {
    /// Attempts to parse a `String` to create a `Repo`.
    ///
    /// The string must consist of exactly one allowed segment, a slash, and a
    /// second allowed segment; any other character, a missing slash, or
    /// trailing text yields `None`.
    pub fn from_string(string: &str) -> (r: Option<Repo>)
        ensures
            match r {
                Some(rep) => parses_to(string@, rep.user@, rep.repo@),
                None => !is_repo_path(string@),
            },
    {
        let n = string.unicode_len();
        match find_slash(string) {
            None => {
                proof {
                    if is_repo_path(string@) {
                        let (u, p) = choose|u: Seq<char>, p: Seq<char>|
                            #[trigger] parses_to(string@, u, p);
                        assert(string@[u.len() as int] == '/');
                    }
                }
                None
            },
            Some(slash) => {
                let user_s = string.substring_char(0, slash);
                let repo_s = string.substring_char(slash + 1, n);
                let ok_user = check_segment(user_s);
                let ok_repo = check_segment(repo_s);
                if ok_user && ok_repo {
                    proof {
                        assert(string@ =~= user_s@ + seq!['/'] + repo_s@);
                    }
                    Some(Repo { user: user_s.to_owned(), repo: repo_s.to_owned() })
                } else {
                    proof {
                        if is_repo_path(string@) {
                            let (u, p) = choose|u: Seq<char>, p: Seq<char>|
                                #[trigger] parses_to(string@, u, p);
                            lemma_parse_split(string@, u, p, slash as int);
                        }
                    }
                    None
                }
            },
        }
    }
}

} // verus!
