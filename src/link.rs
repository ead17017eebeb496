//! Share links: a token `<scheme>://<owner_id>/<repo_id>` that names a repo
//! and the user who owns it.

use vstd::prelude::*;

use crate::error::{fails_with, ErrorKind, ServiceError, ServiceResult};

verus! {

/// The scheme of the links this library writes.
pub open spec fn link_scheme() -> Seq<char> {
    seq!['x', 'b', 'b']
}

/// The separator between the scheme and the rest.
pub open spec fn sep() -> Seq<char> {
    seq![':', '/', '/']
}

/// `s` holds the separator at `i`.
pub open spec fn sep_at(s: Seq<char>, i: int) -> bool {
    0 <= i && i + 3 <= s.len() && s[i] == ':' && s[i + 1] == '/' && s[i + 2] == '/'
}

pub open spec fn no_sep(s: Seq<char>) -> bool {
    forall|i: int| !#[trigger] sep_at(s, i)
}

pub open spec fn no_slash(s: Seq<char>) -> bool {
    forall|i: int| 0 <= i < s.len() ==> #[trigger] s[i] != '/'
}

/// An id that a link can carry: not empty, and without `/`.
pub open spec fn valid_id(s: Seq<char>) -> bool {
    s.len() > 0 && no_slash(s)
}

pub open spec fn link_with(scheme: Seq<char>, owner: Seq<char>, repo: Seq<char>) -> Seq<char> {
    scheme + sep() + owner + seq!['/'] + repo
}

/// `s` is a link to `repo` of `owner`: it splits on the separator into exactly
/// two parts, and the second splits on `/` into exactly two non-empty parts.
pub open spec fn is_link_of(s: Seq<char>, owner: Seq<char>, repo: Seq<char>) -> bool {
    exists|scheme: Seq<char>|
        no_sep(scheme) && valid_id(owner) && valid_id(repo) && s == #[trigger] link_with(
            scheme,
            owner,
            repo,
        )
}

/// What a link decodes to, if it is well formed.
pub open spec fn decode(s: Seq<char>) -> Option<(Seq<char>, Seq<char>)> {
    if exists|p: (Seq<char>, Seq<char>)| is_link_of(s, p.0, p.1) {
        Some(choose|p: (Seq<char>, Seq<char>)| is_link_of(s, p.0, p.1))
    } else {
        None
    }
}

/// In a link, the first separator ends the scheme.
proof fn lemma_first_sep(scheme: Seq<char>, owner: Seq<char>, repo: Seq<char>)
    requires
        no_sep(scheme),
        valid_id(owner),
        valid_id(repo),
    ensures
        sep_at(link_with(scheme, owner, repo), scheme.len() as int),
        forall|j: int| 0 <= j < scheme.len() ==> !sep_at(link_with(scheme, owner, repo), j),
        no_slash(owner),
        link_with(scheme, owner, repo).subrange(scheme.len() + 3int, link_with(
            scheme,
            owner,
            repo,
        ).len() as int) == owner + seq!['/'] + repo,
{
    let s = link_with(scheme, owner, repo);
    let n = scheme.len() as int;
    assert(s[n] == ':' && s[n + 1] == '/' && s[n + 2] == '/');
    assert forall|j: int| 0 <= j < n implies !sep_at(s, j) by {
        if sep_at(s, j) {
            if j + 3 <= n {
                assert(s[j] == scheme[j] && s[j + 1] == scheme[j + 1] && s[j + 2] == scheme[j + 2]);
                assert(sep_at(scheme, j));
            } else {
                assert(s[n] == ':');
            }
        }
    }
    assert(s.subrange(n + 3, s.len() as int) =~= owner + seq!['/'] + repo);
}

/// A link names one owner and one repo.
proof fn lemma_link_unique(
    s: Seq<char>,
    o1: Seq<char>,
    r1: Seq<char>,
    o2: Seq<char>,
    r2: Seq<char>,
)
    requires
        is_link_of(s, o1, r1),
        is_link_of(s, o2, r2),
    ensures
        o1 == o2,
        r1 == r2,
{
    let scheme1 = choose|scheme: Seq<char>|
        no_sep(scheme) && valid_id(o1) && valid_id(r1) && s == #[trigger] link_with(scheme, o1, r1);
    let scheme2 = choose|scheme: Seq<char>|
        no_sep(scheme) && valid_id(o2) && valid_id(r2) && s == #[trigger] link_with(scheme, o2, r2);
    lemma_first_sep(scheme1, o1, r1);
    lemma_first_sep(scheme2, o2, r2);
    assert(scheme1.len() == scheme2.len()) by {
        if scheme1.len() < scheme2.len() {
            assert(sep_at(s, scheme1.len() as int));
        } else if scheme2.len() < scheme1.len() {
            assert(sep_at(s, scheme2.len() as int));
        }
    }
    let rest = s.subrange(scheme1.len() + 3int, s.len() as int);
    assert(rest == o1 + seq!['/'] + r1);
    assert(rest == o2 + seq!['/'] + r2);
    assert(o1.len() == o2.len()) by {
        if o1.len() < o2.len() {
            assert(rest[o1.len() as int] == '/');
            assert(rest[o1.len() as int] == o2[o1.len() as int]);
        } else if o2.len() < o1.len() {
            assert(rest[o2.len() as int] == '/');
            assert(rest[o2.len() as int] == o1[o2.len() as int]);
        }
    }
    assert(o1 =~= rest.subrange(0, o1.len() as int));
    assert(o2 =~= rest.subrange(0, o2.len() as int));
    assert(r1 =~= rest.subrange(o1.len() + 1int, rest.len() as int));
    assert(r2 =~= rest.subrange(o2.len() + 1int, rest.len() as int));
}

/// A well-formed link decodes to exactly what it names.
pub proof fn lemma_decode_of(s: Seq<char>, owner: Seq<char>, repo: Seq<char>)
    requires
        is_link_of(s, owner, repo),
    ensures
        decode(s) == Some((owner, repo)),
{
    let p = (owner, repo);
    assert(is_link_of(s, p.0, p.1));
    let q = choose|q: (Seq<char>, Seq<char>)| is_link_of(s, q.0, q.1);
    lemma_link_unique(s, owner, repo, q.0, q.1);
}

/// Decoding a link written for two valid ids gives those ids back.
pub proof fn lemma_link_round_trip(owner: Seq<char>, repo: Seq<char>)
    requires
        valid_id(owner),
        valid_id(repo),
    ensures
        decode(link_with(link_scheme(), owner, repo)) == Some((owner, repo)),
{
    let scheme = link_scheme();
    assert(no_sep(scheme)) by {
        assert forall|i: int| !#[trigger] sep_at(scheme, i) by {
            if sep_at(scheme, i) {
                assert(i == 0);
            }
        }
    }
    assert(is_link_of(link_with(scheme, owner, repo), owner, repo));
    lemma_decode_of(link_with(scheme, owner, repo), owner, repo);
}

/// The share link of a repo.
pub fn encode_link(owner_id: &String, repo_id: &String) -> (r: String)
    ensures
        r@ == link_with(link_scheme(), owner_id@, repo_id@),
{
    let mut s = String::new();
    s.append("xbb://");
    s.append(owner_id.as_str());
    s.append("/");
    s.append(repo_id.as_str());
    proof {
        reveal_strlit("xbb://");
        reveal_strlit("/");
        assert(s@ =~= link_with(link_scheme(), owner_id@, repo_id@));
    }
    s
}

/// The characters of a string.
fn chars_of(s: &String) -> (r: Vec<char>)
    ensures
        r@ == s@,
{
    let t = s.as_str();
    let n = t.unicode_len();
    let mut out: Vec<char> = Vec::new();
    let mut i: usize = 0;
    while i < n
        invariant
            n == t@.len(),
            t@ == s@,
            i <= n,
            out@ == t@.subrange(0, i as int),
        decreases n - i,
    {
        out.push(t.get_char(i));
        proof {
            assert(out@ =~= t@.subrange(0, i + 1));
        }
        i += 1;
    }
    proof {
        assert(out@ =~= t@);
    }
    out
}

/// Where the first separator stands.
fn first_sep(c: &Vec<char>) -> (r: Option<usize>)
    ensures
        match r {
            Some(i) => sep_at(c@, i as int) && forall|j: int| 0 <= j < i ==> !sep_at(c@, j),
            None => no_sep(c@),
        },
{
    let n = c.len();
    let mut i: usize = 0;
    while n >= 3 && i <= n - 3
        invariant
            n == c@.len(),
            i <= n,
            forall|j: int| 0 <= j < i ==> !sep_at(c@, j),
        decreases n - i,
    {
        if c[i] == ':' && c[i + 1] == '/' && c[i + 2] == '/' {
            return Some(i);
        }
        i += 1;
    }
    None
}

/// Where a link splits, once its first separator is known.
proof fn lemma_link_shape(s: Seq<char>, i: int, owner: Seq<char>, repo: Seq<char>)
    requires
        is_link_of(s, owner, repo),
        sep_at(s, i),
        forall|j: int| 0 <= j < i ==> !sep_at(s, j),
    ensures
        valid_id(owner),
        valid_id(repo),
        s.len() == i + 3 + owner.len() + 1 + repo.len(),
        s[i + 3 + owner.len()] == '/',
        forall|j: int|
            i + 3 <= j < s.len() && j != i + 3 + owner.len() ==> #[trigger] s[j] != '/',
{
    let p = choose|scheme: Seq<char>|
        no_sep(scheme) && valid_id(owner) && valid_id(repo) && s == #[trigger] link_with(
            scheme,
            owner,
            repo,
        );
    lemma_first_sep(p, owner, repo);
    assert(p.len() == i) by {
        if p.len() < i {
            assert(sep_at(s, p.len() as int));
        } else if p.len() > i {
            assert(!sep_at(s, i));
        }
    }
    let rest = s.subrange(i + 3, s.len() as int);
    assert(rest == owner + seq!['/'] + repo);
    assert(rest[owner.len() as int] == '/');
    assert forall|j: int| i + 3 <= j < s.len() && j != i + 3 + owner.len() implies #[trigger] s[j]
        != '/' by {
        let a = j - i - 3;
        assert(s[j] == rest[a]);
        if a < owner.len() {
            assert(rest[a] == owner[a]);
        } else {
            assert(rest[a] == repo[a - owner.len() - 1]);
        }
    }
}

/// Decodes a share link into the owner's id and the repo's id.
pub fn parse_link(link: &String) -> (r: ServiceResult<(String, String)>)
    ensures
        r is Ok <==> decode(link@) is Some,
        r is Ok ==> decode(link@) == Some((r->Ok_0.0@, r->Ok_0.1@)),
        r is Err ==> fails_with(r, ErrorKind::BadRequest),
{
    let c = chars_of(link);
    let n = c.len();
    let i = match first_sep(&c) {
        Some(i) => i,
        None => {
            proof {
                assert forall|o: Seq<char>, g: Seq<char>| !is_link_of(link@, o, g) by {
                    if is_link_of(link@, o, g) {
                        let p = choose|scheme: Seq<char>|
                            no_sep(scheme) && valid_id(o) && valid_id(g) && link@
                                == #[trigger] link_with(scheme, o, g);
                        lemma_first_sep(p, o, g);
                    }
                }
            }
            return Err(ServiceError::BadRequest("link format error".to_owned()));
        },
    };
    let start = i + 3;
    let mut slash: Option<usize> = None;
    let mut k: usize = start;
    while k < n
        invariant
            n == c@.len(),
            c@ == link@,
            sep_at(c@, i as int),
            forall|j: int| 0 <= j < i ==> !sep_at(c@, j),
            start == i + 3,
            start <= k <= n,
            match slash {
                Some(f) => start <= f < k && c@[f as int] == '/' && forall|j: int|
                    start <= j < k && j != f ==> c@[j] != '/',
                None => forall|j: int| start <= j < k ==> c@[j] != '/',
            },
        decreases n - k,
    {
        if c[k] == '/' {
            if slash.is_some() {
                proof {
                    assert forall|o: Seq<char>, g: Seq<char>| !is_link_of(link@, o, g) by {
                        if is_link_of(link@, o, g) {
                            lemma_link_shape(link@, i as int, o, g);
                        }
                    }
                }
                return Err(ServiceError::BadRequest("link format error".to_owned()));
            }
            slash = Some(k);
        }
        k += 1;
    }
    let f = match slash {
        Some(f) => f,
        None => {
            proof {
                assert forall|o: Seq<char>, g: Seq<char>| !is_link_of(link@, o, g) by {
                    if is_link_of(link@, o, g) {
                        lemma_link_shape(link@, i as int, o, g);
                    }
                }
            }
            return Err(ServiceError::BadRequest("link format error".to_owned()));
        },
    };
    if f == start || f + 1 == n {
        proof {
            assert forall|o: Seq<char>, g: Seq<char>| !is_link_of(link@, o, g) by {
                if is_link_of(link@, o, g) {
                    lemma_link_shape(link@, i as int, o, g);
                    assert(link@[start + o.len()] == '/');
                }
            }
        }
        return Err(ServiceError::BadRequest("link format error".to_owned()));
    }
    let t = link.as_str();
    let owner = t.substring_char(start, f).to_owned();
    let repo = t.substring_char(f + 1, n).to_owned();
    proof {
        let scheme = link@.subrange(0, i as int);
        assert forall|j: int| !#[trigger] sep_at(scheme, j) by {
            if sep_at(scheme, j) {
                assert(sep_at(link@, j));
            }
        }
        assert forall|j: int| 0 <= j < owner@.len() implies #[trigger] owner@[j] != '/' by {
            assert(owner@[j] == link@[start + j]);
        }
        assert forall|j: int| 0 <= j < repo@.len() implies #[trigger] repo@[j] != '/' by {
            assert(repo@[j] == link@[f + 1 + j]);
        }
        assert(link@ =~= link_with(scheme, owner@, repo@));
        assert(is_link_of(link@, owner@, repo@));
        lemma_decode_of(link@, owner@, repo@);
    }
    Ok((owner, repo))
}

} // verus!
