//! The repository a delivery works on, and what the library makes of git's
//! output: branch names, NUL-separated path lists, `ls-remote` heads, exit
//! codes, and the argument lists of the commands that change the repository.
use vstd::prelude::*;
use vstd::utf8::{decode_utf8, is_char_boundary, valid_utf8};

use super::service::{DeliveryError, DeliveryFailure};
use crate::text::{
    chars_of, push_str, seq_starts_with, split_whitespace, string_from_chars, string_of,
    trim_chars, trim_seq, words,
};

verus! {

broadcast use vstd::string::group_string_axioms;

/// `String::from_utf8`: the decoded text when the bytes are valid UTF-8,
/// else the error's text.
#[verifier::external_body]
pub(crate) fn utf8_decode(bytes: Vec<u8>) -> (r: Result<String, String>)
    ensures
        r is Ok <==> valid_utf8(bytes@),
        r matches Ok(s) ==> s@ == decode_utf8(bytes@),
{
    String::from_utf8(bytes).map_err(|e| e.to_string())
}

/// `Path::join` on Unix: an absolute `path` replaces `base`, otherwise one
/// separator stands between them.
pub open spec fn path_join(base: Seq<char>, path: Seq<char>) -> Seq<char> {
    if seq_starts_with(path, "/"@) || base.len() == 0 {
        path
    } else if base.last() == '/' {
        base + path
    } else {
        base + "/"@ + path
    }
}

pub fn join_path(base: &str, path: &str) -> (r: String)
    ensures
        r@ == path_join(base@, path@),
{
    let b = chars_of(base);
    let p = chars_of(path);
    if (p.len() > 0 && p[0] == '/') || b.len() == 0 {
        proof {
            reveal_strlit("/");
            if p@.len() > 0 && p@[0] == '/' {
                assert(p@.take(1) =~= "/"@);
            }
        }
        return string_of(path);
    }
    proof {
        reveal_strlit("/");
        if seq_starts_with(p@, "/"@) {
            assert(p@[0] == p@.take(1)[0]);
        }
    }
    let mut r = string_of(base);
    if b[b.len() - 1] != '/' {
        push_str(&mut r, "/");
    }
    push_str(&mut r, path);
    r
}

/// A working tree: its root directory and its git directory, both resolved.
#[derive(Debug, Clone)]
pub struct GitRepository {
    pub root: String,
    pub git_dir: String,
}

/// `git rev-parse --git-dir` may answer relative to the root.
pub fn resolve_git_dir(root: &str, raw_git_dir: &str) -> (r: String)
    ensures
        r@ == path_join(root@, raw_git_dir@),
{
    join_path(root, raw_git_dir)
}

impl GitRepository {
    /// A repository with a resolved root and git directory.
    pub fn open(root: &str, git_dir: &str) -> (r: Self)
        ensures
            r.root@ == root@,
            r.git_dir@ == git_dir@,
    {
        GitRepository { root: string_of(root), git_dir: string_of(git_dir) }
    }

    pub fn root(&self) -> (r: &str)
        ensures
            r@ == self.root@,
    {
        self.root.as_str()
    }

    pub fn git_dir(&self) -> (r: &str)
        ensures
            r@ == self.git_dir@,
    {
        self.git_dir.as_str()
    }
}

/// The trimmed text of a command's standard output.
pub fn output_text(stdout: Vec<u8>) -> (r: Result<String, DeliveryError>)
    ensures
        r is Ok <==> valid_utf8(stdout@),
        r matches Ok(s) ==> s@ == trim_seq(decode_utf8(stdout@)),
        r matches Err(e) ==> e@ is Utf8,
{
    match utf8_decode(stdout) {
        Ok(s) => {
            let v = chars_of(s.as_str());
            let t = trim_chars(v.as_slice());
            Ok(string_from_chars(t.as_slice()))
        },
        Err(m) => Err(DeliveryError::Utf8(m)),
    }
}

/// A failed git command: its trimmed standard error.
pub fn command_error(stderr: &str) -> (e: DeliveryError)
    ensures
        e@ == DeliveryFailure::Git(trim_seq(stderr@)),
{
    let v = chars_of(stderr);
    let t = trim_chars(v.as_slice());
    DeliveryError::Git(string_from_chars(t.as_slice()))
}

/// `git branch --show-current` prints nothing on a detached HEAD.
pub fn branch_from_output(text: String) -> (r: Option<String>)
    ensures
        r is None <==> text@.len() == 0,
        r matches Some(b) ==> b@ == text@,
{
    if text.as_str().is_empty() {
        None
    } else {
        Some(text)
    }
}

/// The non-empty runs of non-NUL bytes, in order.
pub open spec fn nul_split(b: Seq<u8>) -> Seq<Seq<u8>>
    decreases b.len(),
{
    if b.len() == 0 {
        Seq::empty()
    } else {
        let w = nul_split(b.drop_last());
        let c = b.last();
        if c == 0 {
            w
        } else if b.len() == 1 || b[b.len() - 2] == 0 {
            w.push(seq![c])
        } else {
            w.update(w.len() - 1, w.last().push(c))
        }
    }
}

proof fn lemma_nul_split_nonempty(b: Seq<u8>)
    requires
        b.len() > 0,
        b.last() != 0,
    ensures
        nul_split(b).len() > 0,
    decreases b.len(),
{
    if b.len() > 1 && b[b.len() - 2] != 0 {
        assert(b.drop_last().last() == b[b.len() - 2]);
        lemma_nul_split_nonempty(b.drop_last());
    }
}

/// Splits NUL-terminated output into byte fields.
pub fn split_nul(b: &[u8]) -> (r: Vec<Vec<u8>>)
    ensures
        r@.len() == nul_split(b@).len(),
        forall|k: int| 0 <= k < r@.len() ==> #[trigger] r@[k]@ == nul_split(b@)[k],
{
    let mut r: Vec<Vec<u8>> = Vec::new();
    let mut cur: Vec<u8> = Vec::new();
    let mut in_field = false;
    let mut i: usize = 0;
    while i < b.len()
        invariant
            i <= b@.len(),
            in_field == (i > 0 && b@[i - 1] != 0),
            in_field ==> nul_split(b@.take(i as int)).len() == r@.len() + 1 && nul_split(
                b@.take(i as int),
            ).last() == cur@,
            !in_field ==> nul_split(b@.take(i as int)).len() == r@.len(),
            forall|k: int|
                0 <= k < r@.len() ==> #[trigger] r@[k]@ == nul_split(b@.take(i as int))[k],
        decreases b.len() - i,
    {
        let c = b[i];
        let ghost prev = b@.take(i as int);
        let ghost next = b@.take(i + 1);
        assert(next.drop_last() =~= prev);
        assert(next.last() == c);
        if c == 0 {
            if in_field {
                r.push(cur);
                cur = Vec::new();
            }
            in_field = false;
        } else {
            if in_field {
                assert(next[next.len() - 2] == b@[i - 1]);
                cur.push(c);
            } else {
                if i > 0 {
                    assert(next[next.len() - 2] == b@[i - 1]);
                }
                cur = Vec::new();
                cur.push(c);
                assert(cur@ =~= seq![c]);
            }
            in_field = true;
        }
        i = i + 1;
    }
    if in_field {
        r.push(cur);
    }
    assert(b@.take(b@.len() as int) =~= b@);
    r
}

/// The NUL-separated fields of `git ... -z` output, decoded as UTF-8.
pub fn nul_fields(output: Vec<u8>) -> (r: Result<Vec<String>, DeliveryError>)
    ensures
        r is Ok <==> forall|k: int|
            0 <= k < nul_split(output@).len() ==> valid_utf8(#[trigger] nul_split(output@)[k]),
        r matches Ok(v) ==> v@.len() == nul_split(output@).len() && forall|k: int|
            0 <= k < v@.len() ==> #[trigger] v@[k]@ == decode_utf8(nul_split(output@)[k]),
        r matches Err(e) ==> e@ is Utf8,
{
    let fields = split_nul(output.as_slice());
    let mut out: Vec<String> = Vec::new();
    let mut k: usize = 0;
    while k < fields.len()
        invariant
            k <= fields@.len(),
            fields@.len() == nul_split(output@).len(),
            forall|j: int| 0 <= j < fields@.len() ==> #[trigger] fields@[j]@ == nul_split(output@)[j],
            out@.len() == k,
            forall|j: int| 0 <= j < k ==> valid_utf8(#[trigger] nul_split(output@)[j]),
            forall|j: int| 0 <= j < k ==> #[trigger] out@[j]@ == decode_utf8(nul_split(output@)[j]),
        decreases fields.len() - k,
    {
        let field = fields[k].clone();
        assert(field@ == nul_split(output@)[k as int]);
        match utf8_decode(field) {
            Ok(s) => {
                out.push(s);
            },
            Err(m) => {
                return Err(DeliveryError::Utf8(m));
            },
        }
        k = k + 1;
    }
    Ok(out)
}

/// `field.get(3..)`: the text after the first three bytes, when byte 3
/// starts a character.
pub open spec fn after_status_columns(field: Seq<u8>) -> Option<Seq<char>> {
    if field.len() >= 3 && is_char_boundary(field, 3) {
        Some(decode_utf8(field.subrange(3, field.len() as int)))
    } else {
        None
    }
}

/// The paths reported by `git status --short --no-renames -z`: each entry
/// past its two status columns and the space.
pub open spec fn changed_paths_of(fields: Seq<Seq<u8>>) -> Seq<Seq<char>>
    decreases fields.len(),
{
    if fields.len() == 0 {
        Seq::empty()
    } else {
        let rest = changed_paths_of(fields.drop_last());
        match after_status_columns(fields.last()) {
            Some(p) => rest.push(p),
            None => rest,
        }
    }
}

/// Paths of `git status --short --no-renames --untracked-files=all -z`.
pub fn changed_paths_from(stdout: Vec<u8>) -> (r: Result<Vec<String>, DeliveryError>)
    ensures
        r is Ok <==> forall|k: int|
            0 <= k < nul_split(stdout@).len() ==> valid_utf8(#[trigger] nul_split(stdout@)[k]),
        r matches Ok(v) ==> v@.map_values(|s: String| s@) == changed_paths_of(nul_split(stdout@)),
        r matches Err(e) ==> e@ is Utf8,
{
    let fields = split_nul(stdout.as_slice());
    let ghost all = nul_split(stdout@);
    let mut k: usize = 0;
    while k < fields.len()
        invariant
            k <= fields@.len(),
            fields@.len() == all.len(),
            all == nul_split(stdout@),
            forall|j: int| 0 <= j < fields@.len() ==> #[trigger] fields@[j]@ == all[j],
            forall|j: int| 0 <= j < k ==> valid_utf8(#[trigger] all[j]),
        decreases fields.len() - k,
    {
        let field = fields[k].clone();
        assert(field@ == all[k as int]);
        match utf8_decode(field) {
            Ok(_) => {},
            Err(m) => {
                return Err(DeliveryError::Utf8(m));
            },
        }
        k = k + 1;
    }
    let mut out: Vec<String> = Vec::new();
    let mut k: usize = 0;
    while k < fields.len()
        invariant
            k <= fields@.len(),
            fields@.len() == all.len(),
            all == nul_split(stdout@),
            forall|j: int| 0 <= j < fields@.len() ==> #[trigger] fields@[j]@ == all[j],
            forall|j: int| 0 <= j < all.len() ==> valid_utf8(#[trigger] all[j]),
            out@.map_values(|s: String| s@) == changed_paths_of(all.take(k as int)),
        decreases fields.len() - k,
    {
        let f = &fields[k];
        let ghost fb = all[k as int];
        assert(f@ == fb);
        assert(all.take(k + 1).drop_last() =~= all.take(k as int));
        assert(all.take(k + 1).last() == fb);
        let boundary = f.len() >= 3 && (f.len() == 3 || !(0x80 <= f[3] && f[3] < 0xc0));
        proof {
            assert(valid_utf8(fb));
            if fb.len() == 3 {
                vstd::utf8::is_char_boundary_start_end_of_seq(fb);
            } else if fb.len() > 3 {
                vstd::utf8::is_char_boundary_iff_not_is_continuation_byte(fb, 3);
            }
        }
        if boundary {
            let mut rest: Vec<u8> = Vec::new();
            let mut m: usize = 3;
            while m < f.len()
                invariant
                    3 <= m <= f@.len(),
                    rest@ == f@.subrange(3, m as int),
                decreases f.len() - m,
            {
                rest.push(f[m]);
                m = m + 1;
                assert(rest@ =~= f@.subrange(3, m as int));
            }
            proof {
                vstd::utf8::valid_utf8_split(fb, 3);
            }
            match utf8_decode(rest) {
                Ok(s) => {
                    out.push(s);
                    assert(out@.map_values(|s: String| s@) =~= changed_paths_of(
                        all.take(k + 1),
                    ));
                },
                Err(m) => {
                    assert(false);
                    return Err(DeliveryError::Utf8(m));
                },
            }
        } else {
            assert(out@.map_values(|s: String| s@) =~= changed_paths_of(all.take(k + 1)));
        }
        k = k + 1;
    }
    assert(all.take(all.len() as int) =~= all);
    Ok(out)
}

/// The commit of `git ls-remote --heads <remote> <ref>`: its first word.
pub fn remote_head_from(output: &str) -> (r: Option<String>)
    ensures
        r is Some <==> words(output@).len() > 0,
        r matches Some(h) ==> h@ == words(output@)[0],
{
    let v = chars_of(output);
    let ws = split_whitespace(v.as_slice());
    if ws.len() == 0 {
        None
    } else {
        Some(string_from_chars(ws[0].as_slice()))
    }
}

/// The full ref name of a branch.
pub fn branch_ref(branch: &str) -> (r: String)
    ensures
        r@ == "refs/heads/"@ + branch@,
{
    let mut r = string_of("refs/heads/");
    push_str(&mut r, branch);
    r
}

/// Arguments of `git push` that moves `branch` on `remote` to exactly
/// `source_commit`, and only if the remote branch is still at `expected_remote`
/// (absent when the branch must not exist).
pub fn push_exact_args(
    remote: &str,
    branch: &str,
    source_commit: &str,
    expected_remote: Option<&str>,
) -> (r: Vec<String>)
    ensures
        r@.len() == 5,
        r@[0]@ == "push"@,
        r@[1]@ == "--porcelain"@,
        r@[2]@ == "--force-with-lease="@ + "refs/heads/"@ + branch@ + ":"@ + (match expected_remote {
            Some(e) => e@,
            None => Seq::<char>::empty(),
        }),
        r@[3]@ == remote@,
        r@[4]@ == source_commit@ + ":"@ + "refs/heads/"@ + branch@,
{
    let target = branch_ref(branch);
    let mut lease = string_of("--force-with-lease=");
    push_str(&mut lease, target.as_str());
    push_str(&mut lease, ":");
    match expected_remote {
        Some(e) => push_str(&mut lease, e),
        None => {},
    }
    let mut refspec = string_of(source_commit);
    push_str(&mut refspec, ":");
    push_str(&mut refspec, target.as_str());
    let mut r: Vec<String> = Vec::new();
    r.push(string_of("push"));
    r.push(string_of("--porcelain"));
    r.push(lease);
    r.push(string_of(remote));
    r.push(refspec);
    proof {
        assert(r@[2]@ =~= "--force-with-lease="@ + "refs/heads/"@ + branch@ + ":"@ + (
        match expected_remote {
            Some(e) => e@,
            None => Seq::<char>::empty(),
        }));
        assert(r@[4]@ =~= source_commit@ + ":"@ + "refs/heads/"@ + branch@);
    }
    r
}

/// Arguments of `git add -- <paths...>`.
pub fn stage_paths_args(paths: &Vec<String>) -> (r: Vec<String>)
    ensures
        r@.len() == paths@.len() + 2,
        r@[0]@ == "add"@,
        r@[1]@ == "--"@,
        forall|k: int| 0 <= k < paths@.len() ==> #[trigger] r@[k + 2]@ == paths@[k]@,
{
    let mut r: Vec<String> = Vec::new();
    r.push(string_of("add"));
    r.push(string_of("--"));
    let mut k: usize = 0;
    while k < paths.len()
        invariant
            k <= paths@.len(),
            r@.len() == k + 2,
            r@[0]@ == "add"@,
            r@[1]@ == "--"@,
            forall|j: int| 0 <= j < k ==> #[trigger] r@[j + 2]@ == paths@[j]@,
        decreases paths.len() - k,
    {
        r.push(paths[k].clone());
        k = k + 1;
    }
    r
}

/// The exit code of `git diff --cached --quiet --exit-code`: 1 when something
/// is staged, 0 when nothing is, anything else a failure.
pub fn staged_changes_from_exit(code: Option<i32>) -> (r: Result<bool, DeliveryError>)
    ensures
        code == Some(0i32) ==> (r matches Ok(b) && !b),
        code == Some(1i32) ==> (r matches Ok(b) && b),
        code != Some(0i32) && code != Some(1i32) ==> (r matches Err(e) && e@
            == DeliveryFailure::Git("staged diff 검사에 실패했습니다"@)),
{
    match code {
        Some(0) => Ok(false),
        Some(1) => Ok(true),
        _ => Err(DeliveryError::git("staged diff 검사에 실패했습니다")),
    }
}

/// The exit code of `git merge-base --is-ancestor`: 0 when it is an
/// ancestor, 1 when not, anything else a failure.
pub fn ancestry_from_exit(code: Option<i32>) -> (r: Result<bool, DeliveryError>)
    ensures
        code == Some(0i32) ==> (r matches Ok(b) && b),
        code == Some(1i32) ==> (r matches Ok(b) && !b),
        code != Some(0i32) && code != Some(1i32) ==> (r matches Err(e) && e@
            == DeliveryFailure::Git("commit ancestry 검사에 실패했습니다"@)),
{
    match code {
        Some(0) => Ok(true),
        Some(1) => Ok(false),
        _ => Err(DeliveryError::git("commit ancestry 검사에 실패했습니다")),
    }
}

} // verus!
