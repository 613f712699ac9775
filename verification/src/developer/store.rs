//! Where delivery records live under the git directory, which identifiers
//! may name them, and the approval signing key.
use vstd::prelude::*;

use super::crypto::{sha256_bytes, sha256_spec};
use super::git::{join_path, path_join};
use super::service::{DeliveryError, DeliveryFailure};
use crate::ambient::new_uuid_text;
use crate::text::{ascii_alnum, chars_of, is_ascii_alnum, push_str, string_of};

verus! {

broadcast use vstd::string::group_string_axioms;

/// Identifiers of stored records: non-empty, ASCII letters, digits and '-'.
pub open spec fn valid_id_spec(s: Seq<char>) -> bool {
    s.len() > 0 && forall|i: int| 0 <= i < s.len() ==> is_ascii_alnum(#[trigger] s[i]) || s[i] == '-'
}

pub fn validate_id(value: &str) -> (r: Result<(), DeliveryError>)
    ensures
        r is Ok <==> valid_id_spec(value@),
        r matches Err(e) ==> e@ == DeliveryFailure::State("invalid state identifier"@),
{
    let v = chars_of(value);
    if v.len() == 0 {
        return Err(DeliveryError::state("invalid state identifier"));
    }
    let mut i: usize = 0;
    while i < v.len()
        invariant
            i <= v@.len(),
            v@ == value@,
            forall|j: int| 0 <= j < i ==> is_ascii_alnum(#[trigger] v@[j]) || v@[j] == '-',
        decreases v.len() - i,
    {
        if !(ascii_alnum(v[i]) || v[i] == '-') {
            return Err(DeliveryError::state("invalid state identifier"));
        }
        i = i + 1;
    }
    Ok(())
}

/// The directory of the store under a git directory.
pub open spec fn store_root(git_dir: Seq<char>) -> Seq<char> {
    path_join(path_join(git_dir, "govail"@), "developer-delivery"@)
}

/// The file of record `id` in `collection`.
pub open spec fn record_path_spec(root: Seq<char>, collection: Seq<char>, id: Seq<char>) -> Seq<char> {
    path_join(path_join(root, collection), id + ".json"@)
}

/// The records of one delivery workflow: attestations, proposals, approvals,
/// the approval key and the approval locks.
pub struct DeliveryStore {
    pub root: String,
}

/// A claim on an approval while it is being executed: the lock file's path.
pub struct ApprovalLock {
    pub path: String,
}

impl DeliveryStore {
    pub fn new(git_dir: &str) -> (r: Self)
        ensures
            r.root@ == store_root(git_dir@),
    {
        let a = join_path(git_dir, "govail");
        DeliveryStore { root: join_path(a.as_str(), "developer-delivery") }
    }

    /// The file that holds record `id` of `collection`, for an acceptable identifier.
    pub fn record_path(&self, collection: &str, id: &str) -> (r: Result<String, DeliveryError>)
        ensures
            r is Ok <==> valid_id_spec(id@),
            r matches Ok(p) ==> p@ == record_path_spec(self.root@, collection@, id@),
            r matches Err(e) ==> e@ == DeliveryFailure::State("invalid state identifier"@),
    {
        validate_id(id)?;
        let dir = join_path(self.root.as_str(), collection);
        let mut file = string_of(id);
        push_str(&mut file, ".json");
        Ok(join_path(dir.as_str(), file.as_str()))
    }

    pub fn attestation_path(&self, id: &str) -> (r: Result<String, DeliveryError>)
        ensures
            r is Ok <==> valid_id_spec(id@),
            r matches Ok(p) ==> p@ == record_path_spec(self.root@, "attestations"@, id@),
            r matches Err(e) ==> e@ == DeliveryFailure::State("invalid state identifier"@),
    {
        self.record_path("attestations", id)
    }

    pub fn proposal_path(&self, id: &str) -> (r: Result<String, DeliveryError>)
        ensures
            r is Ok <==> valid_id_spec(id@),
            r matches Ok(p) ==> p@ == record_path_spec(self.root@, "proposals"@, id@),
            r matches Err(e) ==> e@ == DeliveryFailure::State("invalid state identifier"@),
    {
        self.record_path("proposals", id)
    }

    pub fn approval_path(&self, id: &str) -> (r: Result<String, DeliveryError>)
        ensures
            r is Ok <==> valid_id_spec(id@),
            r matches Ok(p) ==> p@ == record_path_spec(self.root@, "approvals"@, id@),
            r matches Err(e) ==> e@ == DeliveryFailure::State("invalid state identifier"@),
    {
        self.record_path("approvals", id)
    }

    /// The file of the approval signing key.
    pub fn approval_key_path(&self) -> (r: String)
        ensures
            r@ == path_join(self.root@, "approval.key"@),
    {
        join_path(self.root.as_str(), "approval.key")
    }

    /// The lock of an approval: `locks/<id>` under the store, for an acceptable identifier.
    pub fn acquire_approval_lock(&self, approval_id: &str) -> (r: Result<ApprovalLock, DeliveryError>)
        ensures
            r is Ok <==> valid_id_spec(approval_id@),
            r matches Ok(l) ==> l.path@ == path_join(
                path_join(self.root@, "locks"@),
                approval_id@,
            ),
            r matches Err(e) ==> e@ == DeliveryFailure::State("invalid state identifier"@),
    {
        validate_id(approval_id)?;
        let dir = join_path(self.root.as_str(), "locks");
        Ok(ApprovalLock { path: join_path(dir.as_str(), approval_id) })
    }

    /// A signing key read back from its file must be 32 bytes.
    pub fn check_approval_key(key: Vec<u8>) -> (r: Result<Vec<u8>, DeliveryError>)
        ensures
            r is Ok <==> key@.len() == 32,
            r matches Ok(k) ==> k@ == key@,
            r matches Err(e) ==> e@ == DeliveryFailure::State("invalid approval signing key"@),
    {
        if key.len() != 32 {
            return Err(DeliveryError::state("invalid approval signing key"));
        }
        Ok(key)
    }

    /// A fresh signing key: the SHA-256 of two random UUIDs.
    pub fn generate_approval_key() -> (r: Vec<u8>)
        ensures
            r@.len() == 32,
            exists|seed: Seq<u8>| r@ == sha256_spec(seed),
    {
        let mut seed = new_uuid_text();
        let second = new_uuid_text();
        push_str(&mut seed, second.as_str());
        sha256_bytes(seed.as_str().as_bytes())
    }
}

/// State identifiers are non-empty and made only of ASCII letters, digits
/// and `-`: they hold no `/` and no `.`, so a record path built from one
/// never leaves its directory.
pub proof fn law_ids_stay_in_their_directory(s: Seq<char>)
    ensures
        valid_id_spec(s) <==> (s.len() > 0 && forall|i: int| 0 <= i < s.len() ==> (('a' <= #[trigger] s[i] && s[i] <= 'z')
            || ('A' <= s[i] && s[i] <= 'Z') || ('0' <= s[i] && s[i] <= '9') || s[i] == '-')),
        valid_id_spec(s) ==> !s.contains('/') && !s.contains('.'),
{
    if valid_id_spec(s) {
        if s.contains('/') {
            let i = choose|i: int| 0 <= i < s.len() && s[i] == '/';
            assert(is_ascii_alnum(s[i]) || s[i] == '-');
        }
        if s.contains('.') {
            let i = choose|i: int| 0 <= i < s.len() && s[i] == '.';
            assert(is_ascii_alnum(s[i]) || s[i] == '-');
        }
    }
}

} // verus!
