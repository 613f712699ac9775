//! The delivery policy: which paths may be committed, which remotes and
//! branches may be pushed to, and the checks that stand between a proposal,
//! its approval and the push.
use vstd::prelude::*;

use vstd::utf8::encode_utf8;

use super::crypto::{hex_seq, sha256_hex, sha256_spec};
use super::git::GitRepository;
use crate::text::{
    ascii_alnum, chars_of, is_ascii_alnum, push_str, seq_starts_with, str_eq, str_starts_with,
    string_of,
};

verus! {

broadcast use vstd::string::group_string_axioms;

/// A delivery failure, by kind, with its detail text.
pub ghost enum DeliveryFailure {
    Git(Seq<char>),
    Policy(Seq<char>),
    Approval(Seq<char>),
    State(Seq<char>),
    Io(Seq<char>),
    Utf8(Seq<char>),
    Json(Seq<char>),
}

/// Why a delivery operation failed. The last three kinds carry the text of
/// an I/O, UTF-8 or JSON error met on the way.
#[derive(Debug)]
pub enum DeliveryError {
    Git(String),
    Policy(String),
    Approval(String),
    State(String),
    Io(String),
    Utf8(String),
    Json(String),
}

impl View for DeliveryError {
    type V = DeliveryFailure;

    open spec fn view(&self) -> DeliveryFailure {
        match self {
            DeliveryError::Git(m) => DeliveryFailure::Git(m@),
            DeliveryError::Policy(m) => DeliveryFailure::Policy(m@),
            DeliveryError::Approval(m) => DeliveryFailure::Approval(m@),
            DeliveryError::State(m) => DeliveryFailure::State(m@),
            DeliveryError::Io(m) => DeliveryFailure::Io(m@),
            DeliveryError::Utf8(m) => DeliveryFailure::Utf8(m@),
            DeliveryError::Json(m) => DeliveryFailure::Json(m@),
        }
    }
}

/// The text of an error, as its `Display` reads.
pub open spec fn failure_text(f: DeliveryFailure) -> Seq<char> {
    match f {
        DeliveryFailure::Git(m) => "git operation failed: "@ + m,
        DeliveryFailure::Policy(m) => "policy denied operation: "@ + m,
        DeliveryFailure::Approval(m) => "approval denied operation: "@ + m,
        DeliveryFailure::State(m) => "invalid workflow state: "@ + m,
        DeliveryFailure::Io(m) => "I/O failure: "@ + m,
        DeliveryFailure::Utf8(m) => "invalid UTF-8 output: "@ + m,
        DeliveryFailure::Json(m) => "state serialization failed: "@ + m,
    }
}

impl DeliveryError {
    pub fn git(m: &str) -> (e: Self)
        ensures
            e@ == DeliveryFailure::Git(m@),
    {
        DeliveryError::Git(string_of(m))
    }

    pub fn policy(m: &str) -> (e: Self)
        ensures
            e@ == DeliveryFailure::Policy(m@),
    {
        DeliveryError::Policy(string_of(m))
    }

    pub fn approval(m: &str) -> (e: Self)
        ensures
            e@ == DeliveryFailure::Approval(m@),
    {
        DeliveryError::Approval(string_of(m))
    }

    pub fn state(m: &str) -> (e: Self)
        ensures
            e@ == DeliveryFailure::State(m@),
    {
        DeliveryError::State(string_of(m))
    }

    /// The error's text (what `to_string` gives).
    pub fn message(&self) -> (r: String)
        ensures
            r@ == failure_text(self@),
    {
        let (prefix, detail) = match self {
            DeliveryError::Git(m) => ("git operation failed: ", m),
            DeliveryError::Policy(m) => ("policy denied operation: ", m),
            DeliveryError::Approval(m) => ("approval denied operation: ", m),
            DeliveryError::State(m) => ("invalid workflow state: ", m),
            DeliveryError::Io(m) => ("I/O failure: ", m),
            DeliveryError::Utf8(m) => ("invalid UTF-8 output: ", m),
            DeliveryError::Json(m) => ("state serialization failed: ", m),
        };
        let mut r = string_of(prefix);
        push_str(&mut r, detail.as_str());
        r
    }

    pub fn duplicate(&self) -> (r: Self)
        ensures
            r@ == self@,
    {
        match self {
            DeliveryError::Git(m) => DeliveryError::Git(m.clone()),
            DeliveryError::Policy(m) => DeliveryError::Policy(m.clone()),
            DeliveryError::Approval(m) => DeliveryError::Approval(m.clone()),
            DeliveryError::State(m) => DeliveryError::State(m.clone()),
            DeliveryError::Io(m) => DeliveryError::Io(m.clone()),
            DeliveryError::Utf8(m) => DeliveryError::Utf8(m.clone()),
            DeliveryError::Json(m) => DeliveryError::Json(m.clone()),
        }
    }
}

/// The segments of a '/'-separated path, empty ones included.
pub open spec fn has_segment(s: Seq<char>, seg: Seq<char>) -> bool {
    exists|i: int|
        0 <= i && i + seg.len() <= s.len() && #[trigger] s.subrange(i, i + seg.len()) == seg && (i
            == 0 || s[i - 1] == '/') && (i + seg.len() == s.len() || s[i + seg.len()] == '/')
}

/// `Path::components` of a relative path yields only normal components:
/// no leading `.` component and no `..` anywhere.
pub open spec fn repository_relative(s: Seq<char>) -> bool {
    &&& s.len() > 0
    &&& s[0] != '/'
    &&& !(s == "."@ || seq_starts_with(s, "./"@))
    &&& !has_segment(s, ".."@)
}

/// A `..` segment at position `k`.
pub open spec fn dotdot_at(s: Seq<char>, k: int) -> bool {
    0 <= k && k + 2 <= s.len() && s[k] == '.' && s[k + 1] == '.' && (k == 0 || s[k - 1] == '/') && (
    k + 2 == s.len() || s[k + 2] == '/')
}

proof fn lemma_dotdot_segment(s: Seq<char>)
    ensures
        has_segment(s, ".."@) <==> exists|k: int| dotdot_at(s, k),
{
    reveal_strlit("..");
    if has_segment(s, ".."@) {
        let i = choose|i: int|
            0 <= i && i + 2 <= s.len() && #[trigger] s.subrange(i, i + 2) == ".."@ && (i == 0
                || s[i - 1] == '/') && (i + 2 == s.len() || s[i + 2] == '/');
        assert(s.subrange(i, i + 2)[0] == s[i]);
        assert(s.subrange(i, i + 2)[1] == s[i + 1]);
        assert(dotdot_at(s, i));
    }
    if exists|k: int| dotdot_at(s, k) {
        let k = choose|k: int| dotdot_at(s, k);
        assert(s.subrange(k, k + 2) =~= ".."@);
    }
}

fn find_dotdot(v: &[char]) -> (r: bool)
    ensures
        r == exists|k: int| dotdot_at(v@, k),
{
    let n = v.len();
    let mut i: usize = 0;
    while i < n
        invariant
            n == v@.len(),
            i <= n,
            forall|k: int| 0 <= k < i ==> !dotdot_at(v@, k),
        decreases n - i,
    {
        if i + 1 < n && v[i] == '.' && v[i + 1] == '.' && (i == 0 || v[i - 1] == '/') && (i + 2
            == n || v[i + 2] == '/') {
            assert(dotdot_at(v@, i as int));
            return true;
        }
        i = i + 1;
    }
    false
}

/// Accepts only non-empty repository-relative paths without traversal.
pub fn validate_relative_path(value: &str) -> (r: Result<(), DeliveryError>)
    ensures
        r is Ok <==> repository_relative(value@),
        r matches Err(e) ==> e@ == DeliveryFailure::Policy(
            "file path must be repository-relative without traversal: "@ + value@,
        ),
{
    let v = chars_of(value);
    let n = v.len();
    let bad = n == 0 || v[0] == '/' || (v[0] == '.' && (n == 1 || v[1] == '/'));
    proof {
        reveal_strlit(".");
        reveal_strlit("./");
        lemma_dotdot_segment(v@);
        if n > 0 {
            if seq_starts_with(v@, "./"@) {
                assert(v@[0] == v@.take(2)[0]);
                assert(v@[1] == v@.take(2)[1]);
            }
            if v@ == "."@ {
                assert(v@[0] == "."@[0]);
            }
            if v@[0] == '.' && (n == 1 || v@[1] == '/') {
                if n == 1 {
                    assert(v@ =~= "."@);
                } else {
                    assert(v@.take(2) =~= "./"@);
                }
            }
        }
    }
    if bad || find_dotdot(v.as_slice()) {
        let mut m = string_of("file path must be repository-relative without traversal: ");
        push_str(&mut m, value);
        return Err(DeliveryError::Policy(m));
    }
    Ok(())
}

/// A file path is accepted exactly when it names something inside the
/// repository: it is not empty, does not start with `/`, is neither `.` nor
/// starts with `./`, and no `/`-separated part of it is `..`.
pub proof fn law_relative_paths(p: Seq<char>)
    ensures
        repository_relative(p) <==> {
            &&& p.len() > 0
            &&& p[0] != '/'
            &&& !(p.len() == 1 && p[0] == '.')
            &&& !(p.len() >= 2 && p[0] == '.' && p[1] == '/')
            &&& forall|k: int|
                0 <= k && k + 2 <= p.len() && #[trigger] p[k] == '.' && p[k + 1] == '.' ==> !((k == 0 || p[k - 1]
                    == '/') && (k + 2 == p.len() || p[k + 2] == '/'))
        },
{
    reveal_strlit(".");
    reveal_strlit("./");
    lemma_dotdot_segment(p);
    if p.len() >= 2 && p[0] == '.' && p[1] == '/' {
        assert(p.take(2) =~= "./"@);
    }
    if seq_starts_with(p, "./"@) {
        assert(p[0] == p.take(2)[0] && p[1] == p.take(2)[1]);
    }
    if p.len() == 1 && p[0] == '.' {
        assert(p =~= "."@);
    }
    if exists|k: int| dotdot_at(p, k) {
        let k = choose|k: int| dotdot_at(p, k);
        assert(p[k] == '.' && p[k + 1] == '.');
    } else {
        assert forall|k: int|
            0 <= k && k + 2 <= p.len() && #[trigger] p[k] == '.' && p[k + 1] == '.' implies !((k == 0 || p[k - 1]
                == '/') && (k + 2 == p.len() || p[k + 2] == '/')) by {
            assert(!dotdot_at(p, k));
        }
    }
}

/// Remote names: non-empty, ASCII letters, digits, '-', '_' and '.'.
pub open spec fn valid_remote_name(s: Seq<char>) -> bool {
    s.len() > 0 && forall|i: int|
        0 <= i < s.len() ==> is_ascii_alnum(#[trigger] s[i]) || s[i] == '-' || s[i] == '_' || s[i]
            == '.'
}

pub fn validate_remote(remote: &str) -> (r: Result<(), DeliveryError>)
    ensures
        r is Ok <==> valid_remote_name(remote@),
        r matches Err(e) ==> e@ == DeliveryFailure::Policy("invalid remote name"@),
{
    let v = chars_of(remote);
    if v.len() == 0 {
        return Err(DeliveryError::policy("invalid remote name"));
    }
    let mut i: usize = 0;
    while i < v.len()
        invariant
            i <= v@.len(),
            v@ == remote@,
            forall|j: int|
                0 <= j < i ==> is_ascii_alnum(#[trigger] v@[j]) || v@[j] == '-' || v@[j] == '_'
                    || v@[j] == '.',
        decreases v.len() - i,
    {
        let c = v[i];
        if !(ascii_alnum(c) || c == '-' || c == '_' || c == '.') {
            return Err(DeliveryError::policy("invalid remote name"));
        }
        i = i + 1;
    }
    Ok(())
}

/// `main`, `master` and `release/...` only change through review.
pub open spec fn protected_branch(b: Seq<char>) -> bool {
    b == "main"@ || b == "master"@ || seq_starts_with(b, "release/"@)
}

/// The protected branches are exactly `main`, `master` and every branch
/// under `release/`; a push proposal to any of them is refused with the
/// policy error, and one to any other branch passes this check.
pub proof fn law_protected_branches(b: Seq<char>)
    ensures
        protected_branch(b) <==> (b == "main"@ || b == "master"@ || (b.len() >= 8 && b.take(8) == "release/"@)),
{
    reveal_strlit("release/");
}

pub fn deny_protected_branch(branch: &str) -> (r: Result<(), DeliveryError>)
    ensures
        r is Ok <==> !protected_branch(branch@),
        r matches Err(e) ==> e@ == DeliveryFailure::Policy(
            "direct push to protected branch '"@ + branch@ + "' is forbidden"@,
        ),
{
    if str_eq(branch, "main") || str_eq(branch, "master") || str_starts_with(branch, "release/") {
        let mut m = string_of("direct push to protected branch '");
        push_str(&mut m, branch);
        push_str(&mut m, "' is forbidden");
        return Err(DeliveryError::Policy(m));
    }
    Ok(())
}

/// The identity of a repository: the hex SHA-256 of its root path.
pub open spec fn fingerprint_of(root: Seq<char>) -> Seq<char> {
    hex_seq(sha256_spec(encode_utf8(root)))
}

pub fn repository_fingerprint(repository: &GitRepository) -> (r: String)
    ensures
        r@ == fingerprint_of(repository.root@),
{
    sha256_hex(repository.root.as_str().as_bytes())
}

} // verus!
