//! The `govail developer` command line: option lookup and what each
//! subcommand is asked to do.
use vstd::prelude::*;
use crate::sorting::views_of;
use crate::text::{chars_of, decimal, digit_char, is_ascii_digit, push_str, str_eq, string_of};

verus! {

broadcast use vstd::string::group_string_axioms;

// ---------------------------------------------------------------------------
// Options
// ---------------------------------------------------------------------------

/// The first position of `x` in `s`.
#[verifier::opaque]
pub open spec fn first_index(s: Seq<Seq<char>>, x: Seq<char>) -> Option<int> {
    if exists|i: int| 0 <= i < s.len() && s[i] == x {
        Some(choose|i: int| 0 <= i < s.len() && s[i] == x && forall|j: int| 0 <= j < i ==> s[j] != x)
    } else {
        None
    }
}

/// The value after the first occurrence of the option `name`, when there
/// is one.
pub open spec fn option_value(args: Seq<Seq<char>>, name: Seq<char>) -> Option<Seq<char>> {
    match first_index(args, name) {
        Some(i) => if i + 1 < args.len() {
            Some(args[i + 1])
        } else {
            None
        },
        None => None,
    }
}

/// The values after every occurrence of `name` among the first `n`
/// arguments, in order (an occurrence at the end has none).
pub open spec fn repeated_values(args: Seq<Seq<char>>, name: Seq<char>, n: int) -> Seq<Seq<char>>
    decreases n,
{
    if n <= 0 || n > args.len() {
        Seq::empty()
    } else {
        repeated_values(args, name, n - 1) + if args[n - 1] == name && n < args.len() {
            seq![args[n]]
        } else {
            Seq::empty()
        }
    }
}

fn position(args: &[String], name: &str) -> (r: Option<usize>)
    ensures
        match r {
            Some(i) => first_index(views_of(args@), name@) == Some(i as int) && i < args@.len()
                && views_of(args@)[i as int] == name@,
            None => first_index(views_of(args@), name@) is None,
        },
{
    let ghost s = views_of(args@);
    let mut i: usize = 0;
    while i < args.len()
        invariant
            i <= args@.len(),
            s == views_of(args@),
            forall|j: int| 0 <= j < i ==> s[j] != name@,
        decreases args.len() - i,
    {
        assert(s[i as int] == args@[i as int]@);
        if str_eq(args[i].as_str(), name) {
            assert(first_index(s, name@) == Some(i as int)) by {
                reveal(first_index);
                assert(s[i as int] == name@);
                let k = choose|k: int| 0 <= k < s.len() && s[k] == name@ && forall|j: int| 0 <= j < k ==> s[j] != name@;
                if k < i {
                } else if k > i {
                    assert(s[i as int] != name@);
                }
            }
            return Some(i);
        }
        i = i + 1;
    }
    proof {
        reveal(first_index);
    }
    None
}

/// The value of the option `name`: the argument after its first
/// occurrence.
pub fn option(args: &[String], name: &str) -> (r: Option<String>)
    ensures
        match r {
            Some(v) => option_value(views_of(args@), name@) == Some(v@),
            None => option_value(views_of(args@), name@) is None,
        },
{
    match position(args, name) {
        Some(i) => {
            if i < args.len() - 1 {
                assert(views_of(args@)[i + 1] == args@[i + 1]@);
                Some(string_of(args[i + 1].as_str()))
            } else {
                None
            }
        },
        None => None,
    }
}

/// The value of a required option; its absence is an error naming it.
pub fn required_option(args: &[String], name: &str) -> (r: Result<String, String>)
    ensures
        match option_value(views_of(args@), name@) {
            Some(v) => r matches Ok(s) && s@ == v,
            None => r matches Err(m) && m@ == "missing required option "@ + name@,
        },
{
    match option(args, name) {
        Some(v) => Ok(v),
        None => {
            let mut m = string_of("missing required option ");
            push_str(&mut m, name);
            Err(m)
        },
    }
}

/// The values of an option that may be given several times.
pub fn repeated_option(args: &[String], name: &str) -> (r: Vec<String>)
    ensures
        views_of(r@) == repeated_values(views_of(args@), name@, args@.len() as int),
{
    let ghost s = views_of(args@);
    let mut out: Vec<String> = Vec::new();
    let mut i: usize = 0;
    while i < args.len()
        invariant
            i <= args@.len(),
            s == views_of(args@),
            views_of(out@) == repeated_values(s, name@, i as int),
        decreases args.len() - i,
    {
        assert(s[i as int] == args@[i as int]@);
        if str_eq(args[i].as_str(), name) && i + 1 < args.len() {
            assert(s[i + 1] == args@[i + 1]@);
            out.push(string_of(args[i + 1].as_str()));
        }
        i = i + 1;
        assert(views_of(out@) =~= repeated_values(s, name@, i as int));
    }
    out
}

pub open spec fn usage_text() -> Seq<char> {
    "usage: govail developer <inspect|commit|verify|propose-push|approve|push> [options]"@
}

/// The usage line.
pub fn usage() -> (r: String)
    ensures
        r@ == usage_text(),
{
    string_of("usage: govail developer <inspect|commit|verify|propose-push|approve|push> [options]")
}

// ---------------------------------------------------------------------------
// Integers
// ---------------------------------------------------------------------------

/// Why a text is not an `i64` (`std::num::IntErrorKind`).
#[derive(Debug, Clone, Copy, PartialEq, Eq, Structural)]
pub enum IntError {
    Empty,
    InvalidDigit,
    PosOverflow,
    NegOverflow,
}

pub open spec fn digit_value(c: char) -> int {
    c as int - '0' as int
}

/// Reading the first `n` digits of `ds` left to right, accumulating away
/// from zero in the direction of the sign.
pub open spec fn scan_digits(ds: Seq<char>, negative: bool, n: int) -> Result<int, IntError>
    decreases n,
{
    if n <= 0 || n > ds.len() {
        Ok(0)
    } else {
        match scan_digits(ds, negative, n - 1) {
            Err(e) => Err(e),
            Ok(v) => if !is_ascii_digit(ds[n - 1]) {
                Err(IntError::InvalidDigit)
            } else if !negative {
                if v * 10 + digit_value(ds[n - 1]) > i64::MAX {
                    Err(IntError::PosOverflow)
                } else {
                    Ok(v * 10 + digit_value(ds[n - 1]))
                }
            } else {
                if v * 10 - digit_value(ds[n - 1]) < i64::MIN {
                    Err(IntError::NegOverflow)
                } else {
                    Ok(v * 10 - digit_value(ds[n - 1]))
                }
            },
        }
    }
}

/// `str::parse::<i64>`: an optional sign, then decimal digits only.
pub open spec fn parse_i64_spec(s: Seq<char>) -> Result<int, IntError> {
    if s.len() == 0 {
        Err(IntError::Empty)
    } else if (s[0] == '+' || s[0] == '-') && s.len() == 1 {
        Err(IntError::InvalidDigit)
    } else if s[0] == '+' {
        scan_digits(s.drop_first(), false, s.len() - 1)
    } else if s[0] == '-' {
        scan_digits(s.drop_first(), true, s.len() - 1)
    } else {
        scan_digits(s, false, s.len() as int)
    }
}

pub open spec fn int_error_text(e: IntError) -> Seq<char> {
    match e {
        IntError::Empty => "cannot parse integer from empty string"@,
        IntError::InvalidDigit => "invalid digit found in string"@,
        IntError::PosOverflow => "number too large to fit in target type"@,
        IntError::NegOverflow => "number too small to fit in target type"@,
    }
}

impl IntError {
    /// The error's message, as `ParseIntError` prints it.
    pub fn message(&self) -> (r: &'static str)
        ensures
            r@ == int_error_text(*self),
    {
        match self {
            IntError::Empty => "cannot parse integer from empty string",
            IntError::InvalidDigit => "invalid digit found in string",
            IntError::PosOverflow => "number too large to fit in target type",
            IntError::NegOverflow => "number too small to fit in target type",
        }
    }
}

fn digit_of(c: char) -> (r: i64)
    requires
        is_ascii_digit(c),
    ensures
        r == digit_value(c),
{
    (c as u32 - '0' as u32) as i64
}

fn scan(ds: &[char], start: usize, negative: bool) -> (r: Result<i64, IntError>)
    requires
        start <= ds@.len(),
    ensures
        match scan_digits(ds@.skip(start as int), negative, ds@.len() - start) {
            Ok(v) => r == Ok::<i64, IntError>(v as i64) && i64::MIN <= v <= i64::MAX,
            Err(e) => r == Err::<i64, IntError>(e),
        },
{
    let ghost t = ds@.skip(start as int);
    let mut v: i64 = 0;
    let mut i: usize = start;
    while i < ds.len()
        invariant
            start <= i <= ds@.len(),
            t == ds@.skip(start as int),
            scan_digits(t, negative, i - start) == Ok::<int, IntError>(v as int),
            negative ==> v <= 0,
            !negative ==> v >= 0,
        decreases ds.len() - i,
    {
        let c = ds[i];
        assert(t[i - start] == c);
        if !('0' <= c && c <= '9') {
            assert(scan_digits(t, negative, i - start + 1) == Err::<int, IntError>(IntError::InvalidDigit));
            proof {
                lemma_scan_stops(t, negative, i - start + 1, ds@.len() - start);
            }
            return Err(IntError::InvalidDigit);
        }
        let d = digit_of(c);
        if !negative {
            match v.checked_mul(10) {
                None => {
                    assert(scan_digits(t, negative, i - start + 1) == Err::<int, IntError>(IntError::PosOverflow));
                    proof {
                        lemma_scan_stops(t, negative, i - start + 1, ds@.len() - start);
                    }
                    return Err(IntError::PosOverflow);
                },
                Some(m) => match m.checked_add(d) {
                    None => {
                        assert(scan_digits(t, negative, i - start + 1) == Err::<int, IntError>(IntError::PosOverflow));
                        proof {
                            lemma_scan_stops(t, negative, i - start + 1, ds@.len() - start);
                        }
                        return Err(IntError::PosOverflow);
                    },
                    Some(n) => {
                        v = n;
                    },
                },
            }
        } else {
            match v.checked_mul(10) {
                None => {
                    assert(scan_digits(t, negative, i - start + 1) == Err::<int, IntError>(IntError::NegOverflow));
                    proof {
                        lemma_scan_stops(t, negative, i - start + 1, ds@.len() - start);
                    }
                    return Err(IntError::NegOverflow);
                },
                Some(m) => match m.checked_sub(d) {
                    None => {
                        assert(scan_digits(t, negative, i - start + 1) == Err::<int, IntError>(IntError::NegOverflow));
                        proof {
                            lemma_scan_stops(t, negative, i - start + 1, ds@.len() - start);
                        }
                        return Err(IntError::NegOverflow);
                    },
                    Some(n) => {
                        v = n;
                    },
                },
            }
        }
        i = i + 1;
    }
    Ok(v)
}

/// Once reading fails, it stays failed with the same error.
proof fn lemma_scan_stops(ds: Seq<char>, negative: bool, n: int, m: int)
    requires
        0 < n <= m <= ds.len(),
        scan_digits(ds, negative, n) is Err,
    ensures
        scan_digits(ds, negative, m) == scan_digits(ds, negative, n),
    decreases m - n,
{
    if m > n {
        lemma_scan_stops(ds, negative, n, m - 1);
    }
}

/// Parses a decimal `i64` as `str::parse` does.
pub fn parse_i64(s: &str) -> (r: Result<i64, IntError>)
    ensures
        match parse_i64_spec(s@) {
            Ok(v) => r == Ok::<i64, IntError>(v as i64) && i64::MIN <= v <= i64::MAX,
            Err(e) => r == Err::<i64, IntError>(e),
        },
{
    let cs = chars_of(s);
    if cs.len() == 0 {
        return Err(IntError::Empty);
    }
    if (cs[0] == '+' || cs[0] == '-') && cs.len() == 1 {
        return Err(IntError::InvalidDigit);
    }
    if cs[0] == '+' {
        assert(cs@.skip(1) =~= s@.drop_first());
        scan(cs.as_slice(), 1, false)
    } else if cs[0] == '-' {
        assert(cs@.skip(1) =~= s@.drop_first());
        scan(cs.as_slice(), 1, true)
    } else {
        assert(cs@.skip(0) =~= s@);
        scan(cs.as_slice(), 0, false)
    }
}

// ---------------------------------------------------------------------------
// Subcommands
// ---------------------------------------------------------------------------

/// What a `govail developer` subcommand was asked to do.
#[derive(Debug)]
pub enum CliCommand {
    Inspect,
    Commit { message: String, files: Vec<String> },
    Verify { name: String, program: String, args: Vec<String> },
    ProposePush { remote: String, branch: String, verification: String },
    Approve { proposal: String, ttl_seconds: i64 },
    Push { approval: String },
}

/// A parsed command line: the repository to open, then either the command
/// or the error to report once the repository is open.
#[derive(Debug)]
pub struct Invocation {
    pub repo: String,
    pub command: Result<CliCommand, String>,
}

pub open spec fn verify_separator_text() -> Seq<char> {
    "verify requires '-- <program> [args...]' after its options"@
}

/// Reads the command line (the arguments after the program name).
///
/// Errors before the repository is opened: not a `developer` command, no
/// subcommand, or `verify` without `--`. The repository is `--repo` (among
/// the options before `--` for `verify`), `.` by default.
pub fn parse_invocation(args: &Vec<String>) -> (r: Result<Invocation, String>)
    ensures
        args@.len() == 0 || args@[0]@ != "developer"@ ==> (r matches Err(m) && m@ == usage_text()),
        args@.len() == 1 && args@[0]@ == "developer"@ ==> (r matches Err(m) && m@ == usage_text()),
        args@.len() >= 2 && args@[0]@ == "developer"@ && subcommand_of(args@[1]@) == Subcommand::Verify && first_index(
            views_of(args@).skip(2),
            "--"@,
        ) is None ==> (r matches Err(m) && m@ == verify_separator_text()),
        args@.len() >= 2 && args@[0]@ == "developer"@ && !(subcommand_of(args@[1]@) == Subcommand::Verify
            && first_index(views_of(args@).skip(2), "--"@) is None) ==> r is Ok,
        r matches Ok(inv) ==> {
            let tail = views_of(args@).skip(2);
            let scope = if subcommand_of(args@[1]@) == Subcommand::Verify {
                tail.take(first_index(tail, "--"@)->Some_0)
            } else {
                tail
            };
            &&& args@.len() >= 2
            &&& args@[0]@ == "developer"@
            &&& inv.repo@ == match option_value(scope, "--repo"@) {
                Some(v) => v,
                None => "."@,
            }
            &&& command_matches(args@[1]@, tail, scope, inv.command)
        },
{
    if args.len() == 0 || !str_eq(args[0].as_str(), "developer") {
        return Err(usage());
    }
    if args.len() < 2 {
        return Err(usage());
    }
    let command = args[1].as_str();
    let (_, tail) = args.as_slice().split_at(2);
    assert(views_of(tail@) =~= views_of(args@).skip(2));
    let is_verify = subcommand(command) == Subcommand::Verify;
    let scope: &[String] = if is_verify {
        match position(tail, "--") {
            Some(sep) => {
                let (head, _) = tail.split_at(sep);
                assert(views_of(head@) =~= views_of(tail@).take(sep as int));
                head
            },
            None => {
                return Err(string_of("verify requires '-- <program> [args...]' after its options"));
            },
        }
    } else {
        tail
    };
    let repo = match option(scope, "--repo") {
        Some(r) => r,
        None => string_of("."),
    };
    let parsed = parse_command(command, tail, scope);
    Ok(Invocation { repo, command: parsed })
}

pub open spec fn approve_ttl(tail: Seq<Seq<char>>) -> Result<int, IntError> {
    parse_i64_spec(
        match option_value(tail, "--ttl-seconds"@) {
            Some(v) => v,
            None => "600"@,
        },
    )
}

/// The subcommands.
#[derive(Debug, Clone, Copy, PartialEq, Eq, Structural)]
pub enum Subcommand {
    Inspect,
    Commit,
    Verify,
    ProposePush,
    Approve,
    Push,
    Unknown,
}

pub open spec fn subcommand_of(command: Seq<char>) -> Subcommand {
    if command == "inspect"@ {
        Subcommand::Inspect
    } else if command == "commit"@ {
        Subcommand::Commit
    } else if command == "verify"@ {
        Subcommand::Verify
    } else if command == "propose-push"@ {
        Subcommand::ProposePush
    } else if command == "approve"@ {
        Subcommand::Approve
    } else if command == "push"@ {
        Subcommand::Push
    } else {
        Subcommand::Unknown
    }
}

fn subcommand(command: &str) -> (r: Subcommand)
    ensures
        r == subcommand_of(command@),
{
    if str_eq(command, "inspect") {
        Subcommand::Inspect
    } else if str_eq(command, "commit") {
        Subcommand::Commit
    } else if str_eq(command, "verify") {
        Subcommand::Verify
    } else if str_eq(command, "propose-push") {
        Subcommand::ProposePush
    } else if str_eq(command, "approve") {
        Subcommand::Approve
    } else if str_eq(command, "push") {
        Subcommand::Push
    } else {
        Subcommand::Unknown
    }
}

pub open spec fn missing_text(name: Seq<char>) -> Seq<char> {
    "missing required option "@ + name
}

pub open spec fn commit_matches(tail: Seq<Seq<char>>, r: Result<CliCommand, String>) -> bool {
    match option_value(tail, "--message"@) {
        None => r matches Err(m) && m@ == missing_text("--message"@),
        Some(msg) => r matches Ok(CliCommand::Commit { message, files }) && message@ == msg && views_of(files@)
            == repeated_values(tail, "--file"@, tail.len() as int),
    }
}

pub open spec fn verify_matches(tail: Seq<Seq<char>>, scope: Seq<Seq<char>>, r: Result<CliCommand, String>) -> bool {
    match option_value(scope, "--name"@) {
        None => r matches Err(m) && m@ == missing_text("--name"@),
        Some(n) => {
            let sep = first_index(tail, "--"@)->Some_0;
            if sep + 1 < tail.len() {
                r matches Ok(CliCommand::Verify { name, program, args }) && name@ == n && program@ == tail[sep
                    + 1] && views_of(args@) == tail.skip(sep + 2)
            } else {
                r matches Err(m) && m@ == "verification program is required"@
            }
        },
    }
}

pub open spec fn propose_matches(tail: Seq<Seq<char>>, r: Result<CliCommand, String>) -> bool {
    match option_value(tail, "--branch"@) {
        None => r matches Err(m) && m@ == missing_text("--branch"@),
        Some(b) => match option_value(tail, "--verification"@) {
            None => r matches Err(m) && m@ == missing_text("--verification"@),
            Some(v) => r matches Ok(CliCommand::ProposePush { remote, branch, verification }) && remote@
                == match option_value(tail, "--remote"@) {
                Some(x) => x,
                None => "origin"@,
            } && branch@ == b && verification@ == v,
        },
    }
}

pub open spec fn approve_matches(tail: Seq<Seq<char>>, r: Result<CliCommand, String>) -> bool {
    if !tail.contains("--yes"@) {
        r matches Err(m) && m@ == "approve requires the explicit --yes flag"@
    } else {
        match option_value(tail, "--proposal"@) {
            None => r matches Err(m) && m@ == missing_text("--proposal"@),
            Some(p) => match approve_ttl(tail) {
                Ok(t) => r matches Ok(CliCommand::Approve { proposal, ttl_seconds }) && proposal@ == p
                    && ttl_seconds == t,
                Err(e) => r matches Err(m) && m@ == int_error_text(e),
            },
        }
    }
}

pub open spec fn push_matches(tail: Seq<Seq<char>>, r: Result<CliCommand, String>) -> bool {
    match option_value(tail, "--approval"@) {
        None => r matches Err(m) && m@ == missing_text("--approval"@),
        Some(a) => r matches Ok(CliCommand::Push { approval }) && approval@ == a,
    }
}

/// What each subcommand is asked to do, given its arguments (`tail`) and
/// the options before `--` (`scope`); the first missing piece is the error.
pub open spec fn command_matches(
    command: Seq<char>,
    tail: Seq<Seq<char>>,
    scope: Seq<Seq<char>>,
    r: Result<CliCommand, String>,
) -> bool {
    match subcommand_of(command) {
        Subcommand::Inspect => r matches Ok(CliCommand::Inspect),
        Subcommand::Commit => commit_matches(tail, r),
        Subcommand::Verify => verify_matches(tail, scope, r),
        Subcommand::ProposePush => propose_matches(tail, r),
        Subcommand::Approve => approve_matches(tail, r),
        Subcommand::Push => push_matches(tail, r),
        Subcommand::Unknown => r matches Err(m) && m@ == usage_text(),
    }
}

fn has_flag(args: &[String], flag: &str) -> (r: bool)
    ensures
        r == views_of(args@).contains(flag@),
{
    match position(args, flag) {
        Some(i) => true,
        None => {
            assert(!views_of(args@).contains(flag@)) by {
                reveal(first_index);
                if views_of(args@).contains(flag@) {
                    let k = choose|k: int| 0 <= k < views_of(args@).len() && views_of(args@)[k] == flag@;
                    assert(views_of(args@)[k] == flag@);
                }
            }
            false
        },
    }
}

fn copy_from(args: &[String], start: usize) -> (r: Vec<String>)
    requires
        start <= args@.len(),
    ensures
        views_of(r@) == views_of(args@).skip(start as int),
{
    let mut rest: Vec<String> = Vec::new();
    let mut k: usize = start;
    while k < args.len()
        invariant
            start <= k <= args@.len(),
            rest@.len() == k - start,
            views_of(rest@) == views_of(args@).subrange(start as int, k as int),
        decreases args.len() - k,
    {
        assert(views_of(args@)[k as int] == args@[k as int]@);
        rest.push(string_of(args[k].as_str()));
        k = k + 1;
        assert(views_of(rest@) =~= views_of(args@).subrange(start as int, k as int));
    }
    assert(views_of(args@).subrange(start as int, args@.len() as int) =~= views_of(args@).skip(start as int));
    rest
}

fn parse_commit(tail: &[String]) -> (r: Result<CliCommand, String>)
    ensures
        commit_matches(views_of(tail@), r),
{
    let message = match required_option(tail, "--message") {
        Ok(m) => m,
        Err(e) => {
            return Err(e);
        },
    };
    let files = repeated_option(tail, "--file");
    Ok(CliCommand::Commit { message, files })
}

fn parse_verify(tail: &[String], scope: &[String]) -> (r: Result<CliCommand, String>)
    requires
        first_index(views_of(tail@), "--"@) is Some,
    ensures
        verify_matches(views_of(tail@), views_of(scope@), r),
{
    let name = match required_option(scope, "--name") {
        Ok(n) => n,
        Err(e) => {
            return Err(e);
        },
    };
    let sep = match position(tail, "--") {
        Some(s) => s,
        None => {
            return Err(string_of("verify requires '-- <program> [args...]' after its options"));
        },
    };
    if sep < tail.len() - 1 {
        assert(views_of(tail@)[sep + 1] == tail@[sep + 1]@);
        let program = string_of(tail[sep + 1].as_str());
        let args = copy_from(tail, sep + 2);
        Ok(CliCommand::Verify { name, program, args })
    } else {
        Err(string_of("verification program is required"))
    }
}

fn parse_propose(tail: &[String]) -> (r: Result<CliCommand, String>)
    ensures
        propose_matches(views_of(tail@), r),
{
    let remote = match option(tail, "--remote") {
        Some(r) => r,
        None => string_of("origin"),
    };
    let branch = match required_option(tail, "--branch") {
        Ok(b) => b,
        Err(e) => {
            return Err(e);
        },
    };
    let verification = match required_option(tail, "--verification") {
        Ok(v) => v,
        Err(e) => {
            return Err(e);
        },
    };
    Ok(CliCommand::ProposePush { remote, branch, verification })
}

fn parse_approve(tail: &[String]) -> (r: Result<CliCommand, String>)
    ensures
        approve_matches(views_of(tail@), r),
{
    if !has_flag(tail, "--yes") {
        return Err(string_of("approve requires the explicit --yes flag"));
    }
    let proposal = match required_option(tail, "--proposal") {
        Ok(p) => p,
        Err(e) => {
            return Err(e);
        },
    };
    let ttl_text = match option(tail, "--ttl-seconds") {
        Some(t) => t,
        None => string_of("600"),
    };
    match parse_i64(ttl_text.as_str()) {
        Ok(ttl_seconds) => Ok(CliCommand::Approve { proposal, ttl_seconds }),
        Err(e) => Err(string_of(e.message())),
    }
}

fn parse_push(tail: &[String]) -> (r: Result<CliCommand, String>)
    ensures
        push_matches(views_of(tail@), r),
{
    let approval = match required_option(tail, "--approval") {
        Ok(a) => a,
        Err(e) => {
            return Err(e);
        },
    };
    Ok(CliCommand::Push { approval })
}

fn parse_command(command: &str, tail: &[String], scope: &[String]) -> (r: Result<CliCommand, String>)
    requires
        subcommand_of(command@) == Subcommand::Verify ==> first_index(views_of(tail@), "--"@) is Some,
    ensures
        command_matches(command@, views_of(tail@), views_of(scope@), r),
{
    match subcommand(command) {
        Subcommand::Inspect => Ok(CliCommand::Inspect),
        Subcommand::Commit => parse_commit(tail),
        Subcommand::Verify => parse_verify(tail, scope),
        Subcommand::ProposePush => parse_propose(tail),
        Subcommand::Approve => parse_approve(tail),
        Subcommand::Push => parse_push(tail),
        Subcommand::Unknown => Err(usage()),
    }
}

proof fn lemma_scan_prefix(s: Seq<char>, c: char, negative: bool, n: int)
    requires
        0 <= n <= s.len(),
    ensures
        scan_digits(s.push(c), negative, n) == scan_digits(s, negative, n),
    decreases n,
{
    if n > 0 {
        lemma_scan_prefix(s, c, negative, n - 1);
        assert(s.push(c)[n - 1] == s[n - 1]);
    }
}

proof fn lemma_digit_char(d: nat)
    requires
        d < 10,
    ensures
        is_ascii_digit(digit_char(d)),
        digit_value(digit_char(d)) == d,
{
}

proof fn lemma_decimal_first(n: nat)
    ensures
        decimal(n).len() > 0,
        is_ascii_digit(decimal(n)[0]),
    decreases n,
{
    if n >= 10 {
        lemma_decimal_first(n / 10);
        assert(decimal(n)[0] == decimal(n / 10)[0]);
    } else {
        lemma_digit_char(n);
    }
}

proof fn lemma_scan_decimal(n: nat)
    requires
        n <= i64::MAX,
    ensures
        scan_digits(decimal(n), false, decimal(n).len() as int) == Ok::<int, IntError>(n as int),
    decreases n,
{
    if n < 10 {
        lemma_digit_char(n);
        assert(decimal(n) == seq![digit_char(n)]);
        assert(scan_digits(decimal(n), false, 0) == Ok::<int, IntError>(0));
    } else {
        let m = n / 10;
        let d = (n % 10) as nat;
        lemma_scan_decimal(m);
        lemma_digit_char(d);
        let s = decimal(m);
        assert(decimal(n) == s.push(digit_char(d)));
        lemma_scan_prefix(s, digit_char(d), false, s.len() as int);
        assert(decimal(n)[s.len() as int] == digit_char(d));
        assert(m * 10 + d == n);
    }
}

/// Reading back the decimal text of a non-negative `i64` gives the number.
pub proof fn law_parse_reads_decimal(n: nat)
    requires
        n <= i64::MAX,
    ensures
        parse_i64_spec(decimal(n)) == Ok::<int, IntError>(n as int),
{
    lemma_decimal_first(n);
    lemma_scan_decimal(n);
    assert(decimal(n)[0] != '+' && decimal(n)[0] != '-');
}

} // verus!
