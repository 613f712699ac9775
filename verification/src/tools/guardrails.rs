//! Guardrails applied around tool execution: redaction of personal data in
//! free text, and a sandbox check on permission level, target path and shell
//! command.
use vstd::prelude::*;
use crate::text::{
    chars_of, has_char, is_ascii_digit, join_space, push_char, push_str, seq_contains,
    seq_has_char, seq_starts_with, split_whitespace, str_contains, str_starts_with,
    string_from_chars, string_of, words, plain_words, lemma_words_join_space, lemma_words_shape, is_ws,
};

verus! {

broadcast use vstd::string::group_string_axioms;

/// Permission levels, ordered from the least to the most privileged.
#[derive(Debug, Clone, Copy, PartialEq, Eq, Structural, PartialOrd, Ord)]
pub enum PermissionLevel {
    ReadOnly,
    ContainedWrite,
    IsolatedExec,
    SystemAdmin,
}

impl PermissionLevel {
    /// The numeric level: 1 for `ReadOnly` up to 4 for `SystemAdmin`.
    pub open spec fn level(self) -> int {
        match self {
            PermissionLevel::ReadOnly => 1,
            PermissionLevel::ContainedWrite => 2,
            PermissionLevel::IsolatedExec => 3,
            PermissionLevel::SystemAdmin => 4,
        }
    }

    pub open spec fn name_of(self) -> Seq<char> {
        match self {
            PermissionLevel::ReadOnly => "ReadOnly"@,
            PermissionLevel::ContainedWrite => "ContainedWrite"@,
            PermissionLevel::IsolatedExec => "IsolatedExec"@,
            PermissionLevel::SystemAdmin => "SystemAdmin"@,
        }
    }

    pub fn rank(&self) -> (r: u8)
        ensures
            r as int == self.level(),
    {
        match self {
            PermissionLevel::ReadOnly => 1,
            PermissionLevel::ContainedWrite => 2,
            PermissionLevel::IsolatedExec => 3,
            PermissionLevel::SystemAdmin => 4,
        }
    }

    /// The variant's name, as `{:?}` prints it.
    pub fn debug_name(&self) -> (r: &'static str)
        ensures
            r@ == self.name_of(),
    {
        match self {
            PermissionLevel::ReadOnly => "ReadOnly",
            PermissionLevel::ContainedWrite => "ContainedWrite",
            PermissionLevel::IsolatedExec => "IsolatedExec",
            PermissionLevel::SystemAdmin => "SystemAdmin",
        }
    }
}

/// A word that looks like an e-mail address: it holds both '@' and '.'.
pub open spec fn is_email_like(w: Seq<char>) -> bool {
    seq_has_char(w, '@') && seq_has_char(w, '.')
}

/// A word that looks like a phone number: at least ten characters, all ASCII
/// digits or '-'.
pub open spec fn is_phone_like(w: Seq<char>) -> bool {
    w.len() >= 10 && forall|i: int| 0 <= i < w.len() ==> is_ascii_digit(#[trigger] w[i]) || w[i]
        == '-'
}

pub open spec fn redact_word(w: Seq<char>) -> Seq<char> {
    if is_email_like(w) {
        "[REDACTED_EMAIL]"@
    } else if is_phone_like(w) {
        "[REDACTED_PHONE]"@
    } else {
        w
    }
}

/// The sanitized text: the words of `text`, each redacted, joined by single spaces.
pub open spec fn sanitized(text: Seq<char>) -> Seq<char> {
    join_space(words(text).map_values(|w: Seq<char>| redact_word(w)))
}

fn phone_like(w: &[char]) -> (r: bool)
    ensures
        r == is_phone_like(w@),
{
    if w.len() < 10 {
        return false;
    }
    let mut i: usize = 0;
    while i < w.len()
        invariant
            i <= w@.len(),
            forall|j: int| 0 <= j < i ==> is_ascii_digit(#[trigger] w@[j]) || w@[j] == '-',
        decreases w.len() - i,
    {
        let c = w[i];
        if !(('0' <= c && c <= '9') || c == '-') {
            return false;
        }
        i = i + 1;
    }
    true
}

/// Personal-data redaction over free text.
pub struct PiiGuardrail;

impl PiiGuardrail {
    pub fn new() -> Self {
        PiiGuardrail
    }

    /// Replaces e-mail-like words by `[REDACTED_EMAIL]` and phone-like words
    /// by `[REDACTED_PHONE]`; whitespace between words collapses to one space.
    pub fn sanitize(&self, text: &str) -> (r: String)
        ensures
            r@ == sanitized(text@),
    {
        let chars = chars_of(text);
        let ws = split_whitespace(chars.as_slice());
        let ghost all = words(text@).map_values(|w: Seq<char>| redact_word(w));
        let mut result = String::new();
        let mut i: usize = 0;
        while i < ws.len()
            invariant
                i <= ws@.len(),
                ws@.len() == words(text@).len(),
                forall|k: int| 0 <= k < ws@.len() ==> #[trigger] ws@[k]@ == words(text@)[k],
                all == words(text@).map_values(|w: Seq<char>| redact_word(w)),
                result@ == join_space(all.take(i as int)),
            decreases ws.len() - i,
        {
            let w = &ws[i];
            assert(w@ == words(text@)[i as int]);
            assert(all[i as int] == redact_word(w@));
            assert(all.take(i + 1).drop_last() =~= all.take(i as int));
            if i > 0 {
                push_char(&mut result, ' ');
            }
            if has_char(w.as_slice(), '@') && has_char(w.as_slice(), '.') {
                push_str(&mut result, "[REDACTED_EMAIL]");
            } else if phone_like(w.as_slice()) {
                push_str(&mut result, "[REDACTED_PHONE]");
            } else {
                let s = string_from_chars(w.as_slice());
                push_str(&mut result, s.as_str());
            }
            i = i + 1;
            proof {
                let t = all.take(i as int);
                assert(t.last() == all[i - 1]);
                if i == 1 {
                    assert(t[0] == all[0]);
                    assert(result@ =~= join_space(t));
                } else {
                    assert(result@ =~= join_space(t));
                }
            }
        }
        assert(all.take(ws@.len() as int) =~= all);
        result
    }
}

/// The shell fragments that are never allowed in a command, in the order
/// they are checked.
pub open spec fn dangerous_keywords() -> Seq<Seq<char>> {
    seq!["rm -rf /"@, "chmod 777"@, "curl | bash"@, "wget | sh"@, "> /dev/sda"@]
}

fn dangerous_keyword(k: usize) -> (r: &'static str)
    requires
        k < 5,
    ensures
        r@ == dangerous_keywords()[k as int],
{
    if k == 0 {
        "rm -rf /"
    } else if k == 1 {
        "chmod 777"
    } else if k == 2 {
        "curl | bash"
    } else if k == 3 {
        "wget | sh"
    } else {
        "> /dev/sda"
    }
}

/// The index of the first dangerous keyword that `cmd` contains, scanning from `from`.
pub open spec fn first_dangerous_from(cmd: Seq<char>, from: nat) -> Option<nat>
    decreases 5 - from,
{
    if from >= 5 {
        None
    } else if seq_contains(cmd, dangerous_keywords()[from as int]) {
        Some(from)
    } else {
        first_dangerous_from(cmd, from + 1)
    }
}

pub open spec fn first_dangerous(cmd: Seq<char>) -> Option<nat> {
    first_dangerous_from(cmd, 0)
}

pub open spec fn opt_view(o: Option<&str>) -> Option<Seq<char>> {
    match o {
        Some(s) => Some(s@),
        None => None,
    }
}

/// Sandbox policy: a maximal permission level and the workspace root that
/// absolute target paths must lie under.
pub struct SandboxGuardrail {
    pub max_allowed_level: PermissionLevel,
    pub workspace_root: String,
}

impl SandboxGuardrail {
    pub fn new(max_allowed_level: PermissionLevel, workspace_root: &str) -> (r: Self)
        ensures
            r.max_allowed_level == max_allowed_level,
            r.workspace_root@ == workspace_root@,
    {
        SandboxGuardrail { max_allowed_level, workspace_root: string_of(workspace_root) }
    }

    /// The verdict on one execution request: the first violated rule, with its message.
    pub open spec fn verdict(
        self,
        required: PermissionLevel,
        target_path: Option<Seq<char>>,
        command: Option<Seq<char>>,
    ) -> Result<(), Seq<char>> {
        if required.level() > self.max_allowed_level.level() {
            Err("Permission Denied: Required level "@ + required.name_of()
                + " exceeds max allowed level "@ + self.max_allowed_level.name_of())
        } else if target_path is Some && seq_contains(target_path->0, ".."@) {
            Err("Security Violation: Path traversal detected in '"@ + target_path->0 + "'"@)
        } else if target_path is Some && seq_starts_with(target_path->0, "/"@)
            && !seq_starts_with(target_path->0, self.workspace_root@) {
            Err("Security Violation: Target path '"@ + target_path->0
                + "' outside workspace root '"@ + self.workspace_root@ + "'"@)
        } else if command is Some && first_dangerous(command->0) is Some {
            Err("Security Violation: Dangerous command pattern detected: '"@
                + dangerous_keywords()[first_dangerous(command->0)->0 as int] + "'"@)
        } else {
            Ok(())
        }
    }

    /// Checks a tool execution against the sandbox policy, in order: permission
    /// level, path traversal, workspace containment, dangerous commands.
    #[verifier::loop_isolation(false)]
    pub fn validate_execution(
        &self,
        _tool_name: &str,
        required_level: PermissionLevel,
        target_path: Option<&str>,
        command: Option<&str>,
    ) -> (r: Result<(), String>)
        ensures
            match r {
                Ok(()) => self.verdict(required_level, opt_view(target_path), opt_view(command))
                    is Ok,
                Err(m) => self.verdict(required_level, opt_view(target_path), opt_view(command))
                    == Err::<(), Seq<char>>(m@),
            },
    {
        if required_level.rank() > self.max_allowed_level.rank() {
            let mut m = string_of("Permission Denied: Required level ");
            push_str(&mut m, required_level.debug_name());
            push_str(&mut m, " exceeds max allowed level ");
            push_str(&mut m, self.max_allowed_level.debug_name());
            return Err(m);
        }
        if let Some(path) = target_path {
            if str_contains(path, "..") {
                let mut m = string_of("Security Violation: Path traversal detected in '");
                push_str(&mut m, path);
                push_str(&mut m, "'");
                return Err(m);
            }
            if str_starts_with(path, "/") && !str_starts_with(path, self.workspace_root.as_str()) {
                let mut m = string_of("Security Violation: Target path '");
                push_str(&mut m, path);
                push_str(&mut m, "' outside workspace root '");
                push_str(&mut m, self.workspace_root.as_str());
                push_str(&mut m, "'");
                return Err(m);
            }
        }
        if let Some(cmd) = command {
            let mut k: usize = 0;
            while k < 5
                invariant
                    k <= 5,
                    first_dangerous(cmd@) == first_dangerous_from(cmd@, k as nat),
                decreases 5 - k,
            {
                let keyword = dangerous_keyword(k);
                if str_contains(cmd, keyword) {
                    let mut m = string_of(
                        "Security Violation: Dangerous command pattern detected: '",
                    );
                    push_str(&mut m, keyword);
                    push_str(&mut m, "'");
                    assert(first_dangerous_from(cmd@, k as nat) == Some(k as nat));
                    return Err(m);
                }
                k = k + 1;
            }
        }
        Ok(())
    }
}

/// Raising the sandbox's maximal level never refuses a request that the
/// lower level allowed.
pub proof fn law_sandbox_monotone(
    low: SandboxGuardrail,
    high: SandboxGuardrail,
    required: PermissionLevel,
    target_path: Option<Seq<char>>,
    command: Option<Seq<char>>,
)
    requires
        low.max_allowed_level.level() <= high.max_allowed_level.level(),
        low.workspace_root@ == high.workspace_root@,
        low.verdict(required, target_path, command) is Ok,
    ensures
        high.verdict(required, target_path, command) is Ok,
{
}

/// A command that holds a dangerous fragment is refused at every level.
pub proof fn law_dangerous_command_refused(
    sandbox: SandboxGuardrail,
    required: PermissionLevel,
    target_path: Option<Seq<char>>,
    cmd: Seq<char>,
    k: int,
)
    requires
        0 <= k < 5,
        seq_contains(cmd, dangerous_keywords()[k]),
    ensures
        sandbox.verdict(required, target_path, Some(cmd)) is Err,
{
    lemma_first_dangerous_found(cmd, 0, k);
}

proof fn lemma_first_dangerous_found(cmd: Seq<char>, from: nat, k: int)
    requires
        from <= k < 5,
        seq_contains(cmd, dangerous_keywords()[k]),
    ensures
        first_dangerous_from(cmd, from) is Some,
    decreases 5 - from,
{
    if from < k && !seq_contains(cmd, dangerous_keywords()[from as int]) {
        lemma_first_dangerous_found(cmd, from + 1, k);
    }
}

proof fn lemma_redact_plain(w: Seq<char>)
    requires
        w.len() > 0,
        forall|m: int| 0 <= m < w.len() ==> !is_ws(w[m]),
    ensures
        redact_word(w).len() > 0,
        forall|m: int| 0 <= m < redact_word(w).len() ==> !is_ws(#[trigger] redact_word(w)[m]),
        redact_word(redact_word(w)) == redact_word(w),
{
    reveal_strlit("[REDACTED_EMAIL]");
    reveal_strlit("[REDACTED_PHONE]");
    let e = "[REDACTED_EMAIL]"@;
    let p = "[REDACTED_PHONE]"@;
    assert(!seq_has_char(e, '@'));
    assert(!is_phone_like(e)) by {
        assert(!(is_ascii_digit(e[0]) || e[0] == '-'));
    }
    assert(!seq_has_char(p, '@'));
    assert(!is_phone_like(p)) by {
        assert(!(is_ascii_digit(p[0]) || p[0] == '-'));
    }
}

/// Sanitizing twice gives what sanitizing once gives: a redacted text has
/// nothing left to redact and its spacing is already single.
pub proof fn law_sanitize_idempotent(text: Seq<char>)
    ensures
        sanitized(sanitized(text)) == sanitized(text),
{
    let ws = words(text);
    lemma_words_shape(text);
    let rs = ws.map_values(|w: Seq<char>| redact_word(w));
    assert forall|k: int| 0 <= k < rs.len() implies #[trigger] rs[k].len() > 0 && forall|m: int|
        0 <= m < rs[k].len() ==> !is_ws(rs[k][m]) by {
        lemma_redact_plain(ws[k]);
    }
    assert(plain_words(rs));
    lemma_words_join_space(rs);
    assert forall|k: int| 0 <= k < rs.len() implies #[trigger] redact_word(rs[k]) == rs[k] by {
        lemma_redact_plain(ws[k]);
    }
    assert(rs.map_values(|w: Seq<char>| redact_word(w)) =~= rs);
}

/// Redaction works word by word and keeps every word in its place: the
/// sanitized text has as many words as the text, and its `k`-th word is
/// `[REDACTED_EMAIL]` when the text's `k`-th word holds both `@` and `.`;
/// otherwise `[REDACTED_PHONE]` when that word is a phone number, that is
/// at least ten characters all of which are ASCII digits or `-` (dashes
/// are allowed, not needed); otherwise the word itself.
pub proof fn law_personal_data_redacted(text: Seq<char>, k: int)
    requires
        0 <= k < words(text).len(),
    ensures
        words(sanitized(text)).len() == words(text).len(),
        ({
            let w = words(text)[k];
            w.contains('@') && w.contains('.')
        }) ==> words(sanitized(text))[k] == "[REDACTED_EMAIL]"@,
        ({
            let w = words(text)[k];
            w.len() >= 10 && forall|i: int| 0 <= i < w.len() ==> ('0' <= #[trigger] w[i] && w[i] <= '9') || w[i] == '-'
        }) ==> words(sanitized(text))[k] == "[REDACTED_PHONE]"@,
        ({
            let w = words(text)[k];
            &&& !(w.contains('@') && w.contains('.'))
            &&& !(w.len() >= 10 && forall|i: int| 0 <= i < w.len() ==> ('0' <= #[trigger] w[i] && w[i] <= '9') || w[i] == '-')
        }) ==> words(sanitized(text))[k] == words(text)[k],
{
    let ws = words(text);
    lemma_words_shape(text);
    let rs = ws.map_values(|w: Seq<char>| redact_word(w));
    assert forall|j: int| 0 <= j < rs.len() implies #[trigger] rs[j].len() > 0 && forall|m: int|
        0 <= m < rs[j].len() ==> !is_ws(rs[j][m]) by {
        lemma_redact_plain(ws[j]);
    }
    assert(plain_words(rs));
    lemma_words_join_space(rs);
    assert(words(sanitized(text)) == rs);
    let w = ws[k];
    assert(rs[k] == redact_word(w));
    if w.contains('@') && w.contains('.') {
        assert(seq_has_char(w, '@'));
        assert(seq_has_char(w, '.'));
    }
    if seq_has_char(w, '@') {
        let i = choose|i: int| 0 <= i < w.len() && w[i] == '@';
        assert(w.contains('@'));
    }
    if seq_has_char(w, '.') {
        let i = choose|i: int| 0 <= i < w.len() && w[i] == '.';
        assert(w.contains('.'));
    }
}

/// The permission levels rank `ReadOnly` below `ContainedWrite` below
/// `IsolatedExec` below `SystemAdmin`.
pub proof fn law_permission_order()
    ensures
        PermissionLevel::ReadOnly.level() < PermissionLevel::ContainedWrite.level(),
        PermissionLevel::ContainedWrite.level() < PermissionLevel::IsolatedExec.level(),
        PermissionLevel::IsolatedExec.level() < PermissionLevel::SystemAdmin.level(),
{
}

/// What the sandbox refuses, rule by rule: a request above the sandbox's
/// level; a target path with `..` in it; an absolute target path outside
/// the workspace root; a command holding `rm -rf /`, `chmod 777`,
/// `curl | bash`, `wget | sh` or `> /dev/sda`. A request that breaks none
/// of these is allowed.
pub proof fn law_sandbox_rules(
    sandbox: SandboxGuardrail,
    required: PermissionLevel,
    target_path: Option<Seq<char>>,
    command: Option<Seq<char>>,
)
    ensures
        required.level() > sandbox.max_allowed_level.level() ==> sandbox.verdict(required, target_path, command) is Err,
        (target_path matches Some(p) && seq_contains(p, ".."@)) ==> sandbox.verdict(required, target_path, command) is Err,
        (target_path matches Some(p) && p.len() > 0 && p[0] == '/' && !seq_starts_with(p, sandbox.workspace_root@))
            ==> sandbox.verdict(required, target_path, command) is Err,
        (command matches Some(c) && (seq_contains(c, "rm -rf /"@) || seq_contains(c, "chmod 777"@) || seq_contains(
            c,
            "curl | bash"@,
        ) || seq_contains(c, "wget | sh"@) || seq_contains(c, "> /dev/sda"@))) ==> sandbox.verdict(
            required,
            target_path,
            command,
        ) is Err,
        ({
            &&& required.level() <= sandbox.max_allowed_level.level()
            &&& !(target_path matches Some(p) && seq_contains(p, ".."@))
            &&& !(target_path matches Some(p) && p.len() > 0 && p[0] == '/' && !seq_starts_with(p, sandbox.workspace_root@))
            &&& !(command matches Some(c) && (seq_contains(c, "rm -rf /"@) || seq_contains(c, "chmod 777"@)
                || seq_contains(c, "curl | bash"@) || seq_contains(c, "wget | sh"@) || seq_contains(c, "> /dev/sda"@)))
        }) ==> sandbox.verdict(required, target_path, command) is Ok,
{
    reveal_strlit("/");
    if let Some(p) = target_path {
        if p.len() > 0 && p[0] == '/' {
            assert(p.take(1) =~= "/"@);
        }
        if seq_starts_with(p, "/"@) {
            assert(p[0] == p.take(1)[0]);
        }
    }
    if let Some(c) = command {
        let ks = dangerous_keywords();
        assert(ks[0] == "rm -rf /"@ && ks[1] == "chmod 777"@ && ks[2] == "curl | bash"@ && ks[3] == "wget | sh"@
            && ks[4] == "> /dev/sda"@);
        if seq_contains(c, ks[0]) {
            lemma_first_dangerous_found(c, 0, 0);
        } else if seq_contains(c, ks[1]) {
            lemma_first_dangerous_found(c, 0, 1);
        } else if seq_contains(c, ks[2]) {
            lemma_first_dangerous_found(c, 0, 2);
        } else if seq_contains(c, ks[3]) {
            lemma_first_dangerous_found(c, 0, 3);
        } else if seq_contains(c, ks[4]) {
            lemma_first_dangerous_found(c, 0, 4);
        } else {
            reveal_with_fuel(first_dangerous_from, 6);
            assert(first_dangerous(c) is None);
        }
    }
}

} // verus!
