//! Governance, risk and compliance tools: checking an evidence bundle,
//! preparing its submission, mapping findings to control candidates and
//! preparing a risk brief.
use vstd::prelude::*;
use crate::ambient::{now_rfc3339, new_uuid_text};
use crate::json::{
    JsonNumber, JsonValue, JsonView, NumberView, kind_name, lemma_array_view, lemma_object_view,
    members_view, put,
};
use crate::mcp::protocol::{McpError, ParamError};
use crate::mcp::types::{DescriptorView, ToolAnnotations, ToolDescriptor};
use crate::tools::schema::{names1, object_schema, object_schema_json, prop, prop_json, prop_with};
use crate::sorting::views_of;
use crate::text::{
    decimal, join_strings, join_with, lowercase, push_decimal, push_str, seq_contains,
    str_contains, str_eq, string_of, to_lowercase,
};

verus! {

broadcast use vstd::string::group_string_axioms;

// ---------------------------------------------------------------------------
// Parameters
// ---------------------------------------------------------------------------

/// What `required_object` answers for a parameter object and a field name.
pub open spec fn required_object_outcome(params: JsonView, field: Seq<char>) -> Result<JsonView, (Seq<char>, Option<Seq<char>>)> {
    match params.lookup(field) {
        None => Err((field, None)),
        Some(v) => if v is Object {
            Ok(v)
        } else {
            Err((field, Some(kind_name(v))))
        },
    }
}

/// The parameter `field` of `params`, which must be a JSON object.
///
/// Missing: `ParamError::Missing`. Present but not an object:
/// `ParamError::TypeMismatch` naming the expected and the actual type.
pub fn required_object<'a>(params: &'a JsonValue, field: &str) -> (r: Result<&'a JsonValue, McpError>)
    ensures
        match r {
            Ok(v) => required_object_outcome(params@, field@) == Ok::<JsonView, (Seq<char>, Option<Seq<char>>)>(v@),
            Err(McpError::Param(ParamError::Missing { field: f })) =>
                required_object_outcome(params@, field@) == Err::<JsonView, (Seq<char>, Option<Seq<char>>)>((f@, None::<Seq<char>>)),
            Err(McpError::Param(ParamError::TypeMismatch { field: f, expected, actual })) =>
                expected@ == "object"@
                && required_object_outcome(params@, field@) == Err::<JsonView, (Seq<char>, Option<Seq<char>>)>((f@, Some(actual@))),
            _ => false,
        },
{
    match params.get(field) {
        None => Err(McpError::missing(field)),
        Some(v) => {
            if v.is_object() {
                Ok(v)
            } else {
                Err(
                    McpError::Param(
                        ParamError::TypeMismatch {
                            field: string_of(field),
                            expected: string_of("object"),
                            actual: string_of(v.kind_name()),
                        },
                    ),
                )
            }
        },
    }
}

// ---------------------------------------------------------------------------
// Raw source detection
// ---------------------------------------------------------------------------

/// Keys whose values would be raw source code or unmasked secrets.
pub open spec fn is_blocked_key(k: Seq<char>) -> bool {
    ||| k == "source_code"@
    ||| k == "raw_source"@
    ||| k == "raw_code"@
    ||| k == "file_contents"@
    ||| k == "unmasked_secret"@
    ||| k == "secret_value"@
    ||| k == "private_key"@
}

fn blocked_key(k: &str) -> (r: bool)
    ensures
        r == is_blocked_key(k@),
{
    str_eq(k, "source_code") || str_eq(k, "raw_source") || str_eq(k, "raw_code") || str_eq(
        k,
        "file_contents",
    ) || str_eq(k, "unmasked_secret") || str_eq(k, "secret_value") || str_eq(k, "private_key")
}

/// `{path}.{key}`.
pub open spec fn member_path(path: Seq<char>, key: Seq<char>) -> Seq<char> {
    path + "."@ + key
}

/// `{path}[{index}]`.
pub open spec fn element_path(path: Seq<char>, index: nat) -> Seq<char> {
    path + "["@ + decimal(index) + "]"@
}

/// The paths, below `path`, of every member whose key is blocked, in
/// document order: a member's own path comes before those found inside it.
pub open spec fn source_hits(v: JsonView, path: Seq<char>) -> Seq<Seq<char>>
    decreases v, 1int, 0int,
{
    match v {
        JsonView::Object(ms) => member_hits(v, ms.len() as int, path),
        JsonView::Array(xs) => element_hits(v, xs.len() as int, path),
        _ => Seq::empty(),
    }
}

/// The hits among the first `n` members of an object.
pub open spec fn member_hits(v: JsonView, n: int, path: Seq<char>) -> Seq<Seq<char>>
    decreases v, 0int, n,
{
    match v {
        JsonView::Object(ms) => if 0 < n <= ms.len() {
            let cp = member_path(path, ms[n - 1].0);
            proof {
                assert(decreases_to!(v => v->Object_0));
                assert(decreases_to!(ms => ms[n - 1]));
                assert(decreases_to!(ms[n - 1] => ms[n - 1].1));
            }
            member_hits(v, n - 1, path) + (if is_blocked_key(ms[n - 1].0) {
                seq![cp]
            } else {
                Seq::empty()
            }) + source_hits(ms[n - 1].1, cp)
        } else {
            Seq::empty()
        },
        _ => Seq::empty(),
    }
}

/// The hits among the first `n` elements of an array.
pub open spec fn element_hits(v: JsonView, n: int, path: Seq<char>) -> Seq<Seq<char>>
    decreases v, 0int, n,
{
    match v {
        JsonView::Array(xs) => if 0 < n <= xs.len() {
            proof {
                assert(decreases_to!(v => v->Array_0));
                assert(decreases_to!(xs => xs[n - 1]));
            }
            element_hits(v, n - 1, path) + source_hits(xs[n - 1], element_path(path, (n - 1) as nat))
        } else {
            Seq::empty()
        },
        _ => Seq::empty(),
    }
}

fn append_strings(hits: &mut Vec<String>, more: Vec<String>)
    ensures
        views_of(final(hits)@) == views_of(old(hits)@) + views_of(more@),
{
    let ghost added = more@;
    let mut rest = more;
    hits.append(&mut rest);
    assert(views_of(hits@) =~= views_of(old(hits)@) + views_of(added));
}

/// Every path below `path` at which `value` holds a member with a blocked
/// key (see `source_hits`).
pub fn find_raw_source_fields(value: &JsonValue, path: &str) -> (hits: Vec<String>)
    ensures
        views_of(hits@) == source_hits(value@, path@),
    decreases value,
{
    let mut hits: Vec<String> = Vec::new();
    match value {
        JsonValue::Object(members) => {
            let ghost v = value@;
            let ghost ms = v->Object_0;
            let mut i: usize = 0;
            assert(views_of(hits@) =~= member_hits(v, 0, path@));
            while i < members.len()
                invariant
                    i <= members@.len(),
                    v == value@,
                    ms == v->Object_0,
                    *value == JsonValue::Object(*members),
                    ms.len() == members@.len(),
                    forall|j: int| 0 <= j < members@.len() ==> #[trigger] ms[j] == (members@[j].0@, members@[j].1@),
                    views_of(hits@) == member_hits(v, i as int, path@),
                decreases members.len() - i,
            {
                proof {
                    assert(decreases_to!(*value => value->Object_0));
                    assert(decreases_to!(*members => members@));
                    assert(decreases_to!(members@ => members@[i as int]));
                    assert(decreases_to!(members@[i as int] => members@[i as int].1));
                }
                let key = members[i].0.as_str();
                let mut cp = string_of(path);
                push_str(&mut cp, ".");
                push_str(&mut cp, key);
                assert(ms[i as int] == (members@[i as int].0@, members@[i as int].1@));
                let ghost before = hits@;
                if blocked_key(key) {
                    hits.push(string_of(cp.as_str()));
                }
                let sub = find_raw_source_fields(&members[i].1, cp.as_str());
                append_strings(&mut hits, sub);
                i = i + 1;
                assert(views_of(hits@) =~= member_hits(v, i as int, path@));
            }
        },
        JsonValue::Array(items) => {
            let ghost v = value@;
            let ghost xs = v->Array_0;
            let mut i: usize = 0;
            assert(views_of(hits@) =~= element_hits(v, 0, path@));
            while i < items.len()
                invariant
                    i <= items@.len(),
                    v == value@,
                    xs == v->Array_0,
                    *value == JsonValue::Array(*items),
                    xs.len() == items@.len(),
                    forall|j: int| 0 <= j < items@.len() ==> #[trigger] xs[j] == items@[j]@,
                    views_of(hits@) == element_hits(v, i as int, path@),
                decreases items.len() - i,
            {
                proof {
                    assert(decreases_to!(*value => value->Array_0));
                    assert(decreases_to!(*items => items@));
                    assert(decreases_to!(items@ => items@[i as int]));
                }
                let mut cp = string_of(path);
                push_str(&mut cp, "[");
                push_decimal(&mut cp, i as u64);
                push_str(&mut cp, "]");
                assert(xs[i as int] == items@[i as int]@);
                let sub = find_raw_source_fields(&items[i], cp.as_str());
                append_strings(&mut hits, sub);
                i = i + 1;
                assert(views_of(hits@) =~= element_hits(v, i as int, path@));
            }
        },
        _ => {
            assert(views_of(hits@) =~= source_hits(value@, path@));
        },
    }
    hits
}

// ---------------------------------------------------------------------------
// Bundle validation
// ---------------------------------------------------------------------------

/// The outcome of checking an evidence bundle.
#[derive(Debug, Clone)]
pub struct BundleValidation {
    pub valid: bool,
    pub errors: Vec<String>,
    pub warnings: Vec<String>,
    /// When the check ran (RFC 3339).
    pub checked_at: String,
}

pub open spec fn missing_project_warning() -> Seq<char> {
    "project_id가 없어 제출 시 기본 프로젝트로 분류됩니다."@
}

pub open spec fn missing_findings_error() -> Seq<char> {
    "findings 배열이 필요합니다."@
}

pub open spec fn raw_source_error(hits: Seq<Seq<char>>) -> Seq<char> {
    "원본 소스코드로 오해될 수 있는 필드가 포함되어 있습니다: "@ + join_with(hits, ", "@)
}

/// The warnings for a bundle: only a missing string `project_id`.
pub open spec fn bundle_warnings(b: JsonView) -> Seq<Seq<char>> {
    if b.str_at("project_id"@) is None {
        seq![missing_project_warning()]
    } else {
        Seq::empty()
    }
}

/// The errors for a bundle: no `findings` array, then raw source fields
/// anywhere in the document (their paths start at `$`).
pub open spec fn bundle_errors(b: JsonView) -> Seq<Seq<char>> {
    let missing = if b.array_at("findings"@) is None {
        seq![missing_findings_error()]
    } else {
        Seq::<Seq<char>>::empty()
    };
    let hits = source_hits(b, "$"@);
    missing + if hits.len() > 0 {
        seq![raw_source_error(hits)]
    } else {
        Seq::<Seq<char>>::empty()
    }
}

/// Checks an evidence bundle: it is valid exactly when `bundle_errors` is
/// empty; `checked_at` is the current time.
pub fn validate_bundle(bundle: &JsonValue) -> (r: BundleValidation)
    ensures
        views_of(r.errors@) == bundle_errors(bundle@),
        views_of(r.warnings@) == bundle_warnings(bundle@),
        r.valid == (bundle_errors(bundle@).len() == 0),
{
    let mut errors: Vec<String> = Vec::new();
    let mut warnings: Vec<String> = Vec::new();
    if bundle.str_field("project_id").is_none() {
        warnings.push(string_of("project_id가 없어 제출 시 기본 프로젝트로 분류됩니다."));
    }
    if bundle.array_field("findings").is_none() {
        errors.push(string_of("findings 배열이 필요합니다."));
    }
    let risky = find_raw_source_fields(bundle, "$");
    if risky.len() > 0 {
        let mut m = string_of("원본 소스코드로 오해될 수 있는 필드가 포함되어 있습니다: ");
        let joined = join_strings(&risky, ", ");
        assert(risky@.map_values(|x: String| x@) =~= views_of(risky@));
        push_str(&mut m, joined.as_str());
        errors.push(m);
    }
    assert(views_of(errors@) =~= bundle_errors(bundle@));
    assert(views_of(warnings@) =~= bundle_warnings(bundle@));
    BundleValidation { valid: errors.len() == 0, errors, warnings, checked_at: now_rfc3339() }
}

// ---------------------------------------------------------------------------
// Control mapping
// ---------------------------------------------------------------------------

/// The four groups of control candidates.
#[derive(Debug, Clone, Copy, PartialEq, Eq, Structural)]
pub enum ControlFamily {
    Secret,
    Network,
    Vulnerability,
    General,
}

/// The group of a (lowercased) finding category: the first that matches of
/// secrets; networks and IP addresses; dependencies, CVEs and
/// vulnerabilities; anything else.
pub open spec fn control_family(category: Seq<char>) -> ControlFamily {
    if seq_contains(category, "secret"@) {
        ControlFamily::Secret
    } else if seq_contains(category, "network"@) || seq_contains(category, "ip"@) {
        ControlFamily::Network
    } else if seq_contains(category, "dependency"@) || seq_contains(category, "cve"@)
        || seq_contains(category, "vulnerability"@) {
        ControlFamily::Vulnerability
    } else {
        ControlFamily::General
    }
}

pub fn family_of(category: &str) -> (r: ControlFamily)
    ensures
        r == control_family(category@),
{
    if str_contains(category, "secret") {
        ControlFamily::Secret
    } else if str_contains(category, "network") || str_contains(category, "ip") {
        ControlFamily::Network
    } else if str_contains(category, "dependency") || str_contains(category, "cve")
        || str_contains(category, "vulnerability") {
        ControlFamily::Vulnerability
    } else {
        ControlFamily::General
    }
}

/// A candidate control of a framework; `confidence_percent` is the
/// confidence in hundredths (82 stands for 0.82).
#[derive(Debug, Clone)]
pub struct ControlCandidate {
    pub framework: String,
    pub control_id: String,
    pub rationale: String,
    pub confidence_percent: u8,
}

pub open spec fn candidate_view(c: ControlCandidate) -> (Seq<char>, Seq<char>, Seq<char>, u8) {
    (c.framework@, c.control_id@, c.rationale@, c.confidence_percent)
}

pub open spec fn candidates_view(cs: Seq<ControlCandidate>) -> Seq<(Seq<char>, Seq<char>, Seq<char>, u8)> {
    cs.map_values(|c: ControlCandidate| candidate_view(c))
}

/// The three candidates (NIST CSF, ISO 27001, CIS) of each group.
pub open spec fn family_controls(f: ControlFamily) -> Seq<(Seq<char>, Seq<char>, Seq<char>, u8)> {
    match f {
        ControlFamily::Secret => seq![
            ("NIST-CSF"@, "PR.DS-5"@, "시크릿 노출은 데이터 보호 및 유출 방지 통제와 연결됩니다."@, 82u8),
            ("ISO27001"@, "A.8.12"@, "민감정보 유출 방지 및 DLP 통제 후보입니다."@, 78u8),
            ("CIS"@, "CIS-3.3"@, "민감 데이터 접근 및 보관 통제와 관련됩니다."@, 65u8),
        ],
        ControlFamily::Network => seq![
            ("NIST-CSF"@, "ID.AM-3"@, "내부망 주소와 서비스 노출은 자산 식별 통제와 연결됩니다."@, 74u8),
            ("ISO27001"@, "A.8.20"@, "네트워크 보안 및 분리 통제 후보입니다."@, 70u8),
            ("CIS"@, "CIS-12.2"@, "네트워크 인프라 보안 관리와 관련됩니다."@, 62u8),
        ],
        ControlFamily::Vulnerability => seq![
            ("NIST-CSF"@, "ID.RA-1"@, "취약점 식별 및 위험 평가 통제와 연결됩니다."@, 84u8),
            ("ISO27001"@, "A.8.8"@, "기술적 취약점 관리 통제 후보입니다."@, 86u8),
            ("CIS"@, "CIS-7.1"@, "지속적인 취약점 관리와 관련됩니다."@, 82u8),
        ],
        ControlFamily::General => seq![
            ("NIST-CSF"@, "ID.RA-5"@, "일반 보안 finding은 리스크 판단 및 우선순위화 통제와 연결됩니다."@, 55u8),
            ("ISO27001"@, "A.5.7"@, "위협 인텔리전스 및 보안 이벤트 판단 후보입니다."@, 48u8),
            ("CIS"@, "CIS-17.1"@, "보안 사고 대응 준비와 관련될 수 있습니다."@, 42u8),
        ],
    }
}

fn control(framework: &str, control_id: &str, rationale: &str, confidence_percent: u8) -> (r: ControlCandidate)
    ensures
        candidate_view(r) == (framework@, control_id@, rationale@, confidence_percent),
{
    ControlCandidate {
        framework: string_of(framework),
        control_id: string_of(control_id),
        rationale: string_of(rationale),
        confidence_percent,
    }
}

/// The control candidates of a group.
pub fn controls_for(family: ControlFamily) -> (r: Vec<ControlCandidate>)
    ensures
        candidates_view(r@) == family_controls(family),
{
    let r = match family {
        ControlFamily::Secret => vec![
            control("NIST-CSF", "PR.DS-5", "시크릿 노출은 데이터 보호 및 유출 방지 통제와 연결됩니다.", 82),
            control("ISO27001", "A.8.12", "민감정보 유출 방지 및 DLP 통제 후보입니다.", 78),
            control("CIS", "CIS-3.3", "민감 데이터 접근 및 보관 통제와 관련됩니다.", 65),
        ],
        ControlFamily::Network => vec![
            control("NIST-CSF", "ID.AM-3", "내부망 주소와 서비스 노출은 자산 식별 통제와 연결됩니다.", 74),
            control("ISO27001", "A.8.20", "네트워크 보안 및 분리 통제 후보입니다.", 70),
            control("CIS", "CIS-12.2", "네트워크 인프라 보안 관리와 관련됩니다.", 62),
        ],
        ControlFamily::Vulnerability => vec![
            control("NIST-CSF", "ID.RA-1", "취약점 식별 및 위험 평가 통제와 연결됩니다.", 84),
            control("ISO27001", "A.8.8", "기술적 취약점 관리 통제 후보입니다.", 86),
            control("CIS", "CIS-7.1", "지속적인 취약점 관리와 관련됩니다.", 82),
        ],
        ControlFamily::General => vec![
            control("NIST-CSF", "ID.RA-5", "일반 보안 finding은 리스크 판단 및 우선순위화 통제와 연결됩니다.", 55),
            control("ISO27001", "A.5.7", "위협 인텔리전스 및 보안 이벤트 판단 후보입니다.", 48),
            control("CIS", "CIS-17.1", "보안 사고 대응 준비와 관련될 수 있습니다.", 42),
        ],
    };
    assert(candidates_view(r@) =~= family_controls(family));
    r
}

/// One finding with its control candidates.
#[derive(Debug, Clone)]
pub struct FindingMapping {
    pub finding_id: String,
    pub title: String,
    pub severity: String,
    pub category: String,
    pub controls: Vec<ControlCandidate>,
}

/// A finding's lowercased category (`unknown` when it has none).
pub open spec fn finding_category(f: JsonView) -> Seq<char> {
    lowercase(f.str_or("category"@, "unknown"@))
}

/// A finding's lowercased severity (`unknown` when it has none).
pub open spec fn finding_severity(f: JsonView) -> Seq<char> {
    lowercase(f.str_or("severity"@, "unknown"@))
}

/// A finding's id, or `finding-{index}` when it has none.
pub open spec fn finding_id_of(index: nat, f: JsonView) -> Seq<char> {
    match f.str_at("finding_id"@) {
        Some(id) => id,
        None => "finding-"@ + decimal(index),
    }
}

pub open spec fn mapping_matches(m: FindingMapping, index: nat, f: JsonView) -> bool {
    &&& m.finding_id@ == finding_id_of(index, f)
    &&& m.title@ == f.str_or("title"@, "제목 없음"@)
    &&& m.severity@ == finding_severity(f)
    &&& m.category@ == finding_category(f)
    &&& candidates_view(m.controls@) == family_controls(control_family(finding_category(f)))
}

/// Maps the finding at position `index` to its control candidates.
pub fn map_single_finding(index: usize, finding: &JsonValue) -> (r: FindingMapping)
    ensures
        mapping_matches(r, index as nat, finding@),
{
    let category = to_lowercase(finding.str_field_or("category", "unknown").as_str());
    let severity = to_lowercase(finding.str_field_or("severity", "unknown").as_str());
    let title = finding.str_field_or("title", "제목 없음");
    let finding_id = match finding.str_field("finding_id") {
        Some(id) => string_of(id),
        None => {
            let mut s = string_of("finding-");
            push_decimal(&mut s, index as u64);
            s
        },
    };
    let controls = controls_for(family_of(category.as_str()));
    FindingMapping { finding_id, title, severity, category, controls }
}

// ---------------------------------------------------------------------------
// JSON documents
// ---------------------------------------------------------------------------
pub open spec fn strings_json(items: Seq<String>) -> JsonView {
    JsonView::Array(items.map_values(|x: String| JsonView::Str(x@)))
}

impl BundleValidation {
    pub open spec fn json_view(self) -> JsonView {
        JsonView::Object(
            seq![
                ("valid"@, JsonView::Bool(self.valid)),
                ("errors"@, strings_json(self.errors@)),
                ("warnings"@, strings_json(self.warnings@)),
                ("checked_at"@, JsonView::Str(self.checked_at@)),
            ],
        )
    }

    /// The validation report as a JSON object.
    pub fn to_json(&self) -> (r: JsonValue)
        ensures
            r@ == self.json_view(),
    {
        let mut m: Vec<(String, JsonValue)> = Vec::new();
        put(&mut m, "valid", JsonValue::Bool(self.valid));
        put(&mut m, "errors", JsonValue::strings(&self.errors));
        put(&mut m, "warnings", JsonValue::strings(&self.warnings));
        put(&mut m, "checked_at", JsonValue::string(self.checked_at.as_str()));
        proof {
            lemma_object_view(m);
            assert(members_view(m@) =~= self.json_view()->Object_0);
        }
        JsonValue::Object(m)
    }
}

/// The text of a confidence given in hundredths, as JSON writes the number
/// (`0.82`, `0.7`, `1.0`).
pub open spec fn confidence_text(p: u8) -> Seq<char> {
    let whole = decimal((p / 100) as nat);
    let frac = (p % 100) as nat;
    if frac == 0 {
        whole + ".0"@
    } else if frac % 10 == 0 {
        whole + "."@ + decimal(frac / 10)
    } else if frac < 10 {
        whole + ".0"@ + decimal(frac)
    } else {
        whole + "."@ + decimal(frac)
    }
}

fn confidence_string(p: u8) -> (r: String)
    ensures
        r@ == confidence_text(p),
{
    let mut s = String::new();
    push_decimal(&mut s, (p / 100) as u64);
    let frac = p % 100;
    if frac == 0 {
        push_str(&mut s, ".0");
    } else if frac % 10 == 0 {
        push_str(&mut s, ".");
        push_decimal(&mut s, (frac / 10) as u64);
    } else if frac < 10 {
        push_str(&mut s, ".0");
        push_decimal(&mut s, frac as u64);
    } else {
        push_str(&mut s, ".");
        push_decimal(&mut s, frac as u64);
    }
    s
}

pub open spec fn candidate_json(c: (Seq<char>, Seq<char>, Seq<char>, u8)) -> JsonView {
    JsonView::Object(
        seq![
            ("framework"@, JsonView::Str(c.0)),
            ("control_id"@, JsonView::Str(c.1)),
            ("rationale"@, JsonView::Str(c.2)),
            ("confidence"@, JsonView::Number(NumberView::Fraction(confidence_text(c.3)))),
        ],
    )
}

impl ControlCandidate {
    pub fn duplicate(&self) -> (r: ControlCandidate)
        ensures
            candidate_view(r) == candidate_view(*self),
    {
        ControlCandidate {
            framework: string_of(self.framework.as_str()),
            control_id: string_of(self.control_id.as_str()),
            rationale: string_of(self.rationale.as_str()),
            confidence_percent: self.confidence_percent,
        }
    }

    pub fn to_json(&self) -> (r: JsonValue)
        ensures
            r@ == candidate_json(candidate_view(*self)),
    {
        let mut m: Vec<(String, JsonValue)> = Vec::new();
        put(&mut m, "framework", JsonValue::string(self.framework.as_str()));
        put(&mut m, "control_id", JsonValue::string(self.control_id.as_str()));
        put(&mut m, "rationale", JsonValue::string(self.rationale.as_str()));
        put(
            &mut m,
            "confidence",
            JsonValue::Number(JsonNumber::Fraction(confidence_string(self.confidence_percent))),
        );
        proof {
            lemma_object_view(m);
            assert(members_view(m@) =~= candidate_json(candidate_view(*self))->Object_0);
        }
        JsonValue::Object(m)
    }
}

impl FindingMapping {
    pub open spec fn json_view(self) -> JsonView {
        JsonView::Object(
            seq![
                ("finding_id"@, JsonView::Str(self.finding_id@)),
                ("title"@, JsonView::Str(self.title@)),
                ("severity"@, JsonView::Str(self.severity@)),
                ("category"@, JsonView::Str(self.category@)),
                ("controls"@, JsonView::Array(candidates_view(self.controls@).map_values(|c| candidate_json(c)))),
            ],
        )
    }

    pub fn to_json(&self) -> (r: JsonValue)
        ensures
            r@ == self.json_view(),
    {
        let mut controls: Vec<JsonValue> = Vec::new();
        let mut i: usize = 0;
        while i < self.controls.len()
            invariant
                i <= self.controls@.len(),
                controls@.len() == i,
                forall|j: int| 0 <= j < i ==> (#[trigger] controls@[j])@ == candidate_json(candidate_view(self.controls@[j])),
            decreases self.controls.len() - i,
        {
            controls.push(self.controls[i].to_json());
            i = i + 1;
        }
        proof {
            lemma_array_view(controls);
            assert(controls@.map_values(|x: JsonValue| x@) =~= candidates_view(self.controls@).map_values(|c| candidate_json(c)));
        }
        let mut m: Vec<(String, JsonValue)> = Vec::new();
        put(&mut m, "finding_id", JsonValue::string(self.finding_id.as_str()));
        put(&mut m, "title", JsonValue::string(self.title.as_str()));
        put(&mut m, "severity", JsonValue::string(self.severity.as_str()));
        put(&mut m, "category", JsonValue::string(self.category.as_str()));
        put(&mut m, "controls", JsonValue::Array(controls));
        proof {
            lemma_object_view(m);
            assert(members_view(m@) =~= self.json_view()->Object_0);
        }
        JsonValue::Object(m)
    }
}

// ---------------------------------------------------------------------------
// The tools
// ---------------------------------------------------------------------------

/// `validate_evidence_bundle`: checks a bundle's required fields, findings
/// and raw-source risk.
pub struct ValidateEvidenceBundleTool;

/// `submit_evidence_bundle`: stores a valid bundle centrally.
pub struct SubmitEvidenceBundleTool;

/// `map_findings_to_controls`: maps findings to NIST CSF, ISO 27001 and CIS
/// control candidates.
pub struct MapFindingsToControlsTool;

/// `generate_risk_brief`: has a language model write a risk brief from a
/// valid bundle.
pub struct GenerateRiskBriefTool;

impl ValidateEvidenceBundleTool {
    pub fn new() -> (r: Self) {
        ValidateEvidenceBundleTool
    }

    pub fn name(&self) -> (r: &'static str)
        ensures
            r@ == "validate_evidence_bundle"@,
    {
        "validate_evidence_bundle"
    }

    pub fn description(&self) -> (r: &'static str)
        ensures
            r@ == "클라이언트가 생성한 GRC evidence bundle의 필수 필드, finding 구조, 원본 소스코드 포함 위험을 검사합니다."@,
    {
        "클라이언트가 생성한 GRC evidence bundle의 필수 필드, finding 구조, 원본 소스코드 포함 위험을 검사합니다."
    }

    pub fn annotations(&self) -> (r: ToolAnnotations)
        ensures
            r.read_only_hint == Some(true) && r.idempotent_hint == Some(true),
            r.destructive_hint is None && r.open_world_hint is None,
    {
        ToolAnnotations::read_only()
    }

    /// The report for the `bundle` parameter, which must be an object.
    pub fn run(&self, params: &JsonValue) -> (r: Result<JsonValue, McpError>)
        ensures
            required_object_outcome(params@, "bundle"@) is Ok <==> r is Ok,
            r matches Ok(v) ==> exists|b: BundleValidation|
                #![trigger b.json_view()]
                v@ == b.json_view() && views_of(b.errors@) == bundle_errors(
                    required_object_outcome(params@, "bundle"@)->Ok_0,
                ) && views_of(b.warnings@) == bundle_warnings(
                    required_object_outcome(params@, "bundle"@)->Ok_0,
                ) && b.valid == (bundle_errors(required_object_outcome(params@, "bundle"@)->Ok_0).len() == 0),
    {
        match required_object(params, "bundle") {
            Ok(bundle) => {
                let report = validate_bundle(bundle);
                let j = report.to_json();
                assert(j@ == report.json_view());
                Ok(j)
            },
            Err(e) => Err(e),
        }
    }
}

/// The findings of the `findings` parameter, mapped in order; missing or not
/// an array: `ParamError::Missing`.
pub open spec fn mappings_match(ms: Seq<FindingMapping>, findings: Seq<JsonView>) -> bool {
    &&& ms.len() == findings.len()
    &&& forall|i: int| 0 <= i < ms.len() ==> mapping_matches(#[trigger] ms[i], i as nat, findings[i])
}

pub open spec fn mapping_report_json(ms: Seq<FindingMapping>) -> JsonView {
    JsonView::Object(
        seq![
            ("mapping_count"@, JsonView::Number(NumberView::Unsigned(ms.len() as u64))),
            ("mappings"@, JsonView::Array(ms.map_values(|m: FindingMapping| m.json_view()))),
        ],
    )
}

impl MapFindingsToControlsTool {
    pub fn new() -> (r: Self) {
        MapFindingsToControlsTool
    }

    pub fn name(&self) -> (r: &'static str)
        ensures
            r@ == "map_findings_to_controls"@,
    {
        "map_findings_to_controls"
    }

    pub fn description(&self) -> (r: &'static str)
        ensures
            r@ == "GRC evidence finding을 NIST CSF, ISO 27001, CIS 관점의 통제 후보로 매핑합니다."@,
    {
        "GRC evidence finding을 NIST CSF, ISO 27001, CIS 관점의 통제 후보로 매핑합니다."
    }

    pub fn annotations(&self) -> (r: ToolAnnotations)
        ensures
            r.read_only_hint == Some(true) && r.idempotent_hint == Some(true),
            r.destructive_hint is None && r.open_world_hint is None,
    {
        ToolAnnotations::read_only()
    }

    /// Maps every finding of the `findings` parameter.
    pub fn map(&self, params: &JsonValue) -> (r: Result<Vec<FindingMapping>, McpError>)
        ensures
            match r {
                Ok(ms) => params@.array_at("findings"@) is Some && mappings_match(
                    ms@,
                    params@.array_at("findings"@)->Some_0,
                ),
                Err(McpError::Param(ParamError::Missing { field })) => params@.array_at(
                    "findings"@,
                ) is None && field@ == "findings"@,
                _ => false,
            },
    {
        match params.array_field("findings") {
            None => Err(McpError::missing("findings")),
            Some(findings) => {
                let ghost fv = findings@.map_values(|x: JsonValue| x@);
                let mut out: Vec<FindingMapping> = Vec::new();
                let mut i: usize = 0;
                while i < findings.len()
                    invariant
                        i <= findings@.len(),
                        fv == findings@.map_values(|x: JsonValue| x@),
                        out@.len() == i,
                        forall|j: int| 0 <= j < i ==> mapping_matches(#[trigger] out@[j], j as nat, fv[j]),
                    decreases findings.len() - i,
                {
                    out.push(map_single_finding(i, &findings[i]));
                    i = i + 1;
                }
                Ok(out)
            },
        }
    }

    /// The tool's answer: `{"mapping_count": n, "mappings": [...]}`.
    pub fn report(mappings: &Vec<FindingMapping>) -> (r: JsonValue)
        ensures
            r@ == mapping_report_json(mappings@),
    {
        let mut items: Vec<JsonValue> = Vec::new();
        let mut i: usize = 0;
        while i < mappings.len()
            invariant
                i <= mappings@.len(),
                items@.len() == i,
                forall|j: int| 0 <= j < i ==> (#[trigger] items@[j])@ == mappings@[j].json_view(),
            decreases mappings.len() - i,
        {
            items.push(mappings[i].to_json());
            i = i + 1;
        }
        proof {
            lemma_array_view(items);
            assert(items@.map_values(|x: JsonValue| x@) =~= mappings@.map_values(|m: FindingMapping| m.json_view()));
        }
        let mut m: Vec<(String, JsonValue)> = Vec::new();
        put(&mut m, "mapping_count", JsonValue::Number(JsonNumber::Unsigned(mappings.len() as u64)));
        put(&mut m, "mappings", JsonValue::Array(items));
        proof {
            lemma_object_view(m);
            assert(members_view(m@) =~= mapping_report_json(mappings@)->Object_0);
        }
        JsonValue::Object(m)
    }
}

/// What `submit_evidence_bundle` does with its parameters.
#[derive(Debug)]
pub enum Submission {
    /// The bundle is invalid: the report is the answer, nothing is stored.
    Rejected(BundleValidation),
    /// The bundle is valid: store it as planned.
    Store(SubmissionPlan),
}

/// A valid bundle with the names it will be stored under.
#[derive(Debug)]
pub struct SubmissionPlan {
    pub bundle_id: String,
    pub project_id: String,
    pub source: String,
    /// When the bundle was received (RFC 3339).
    pub received_at: String,
    pub validation: BundleValidation,
    pub bundle: JsonValue,
}

/// A name taken from the parameters, else from the bundle, else the default.
pub open spec fn param_or_bundle(params: JsonView, bundle: JsonView, key: Seq<char>, default: Seq<char>) -> Seq<char> {
    match params.str_at(key) {
        Some(s) => s,
        None => bundle.str_or(key, default),
    }
}

fn param_or_bundle_string(params: &JsonValue, bundle: &JsonValue, key: &str, default: &str) -> (r: String)
    ensures
        r@ == param_or_bundle(params@, bundle@, key@, default@),
{
    match params.str_field(key) {
        Some(s) => string_of(s),
        None => bundle.str_field_or(key, default),
    }
}

pub open spec fn stored_document_json(p: SubmissionPlan) -> JsonView {
    JsonView::Object(
        seq![
            ("bundle_id"@, JsonView::Str(p.bundle_id@)),
            ("project_id"@, JsonView::Str(p.project_id@)),
            ("source"@, JsonView::Str(p.source@)),
            ("received_at"@, JsonView::Str(p.received_at@)),
            ("validation"@, p.validation.json_view()),
            ("bundle"@, p.bundle@),
        ],
    )
}

pub open spec fn next_tools_json() -> JsonView {
    JsonView::Array(seq![JsonView::Str("map_findings_to_controls"@), JsonView::Str("generate_risk_brief"@)])
}

pub open spec fn accepted_json(p: SubmissionPlan, stored_path: Seq<char>) -> JsonView {
    JsonView::Object(
        seq![
            ("status"@, JsonView::Str("accepted"@)),
            ("bundle_id"@, JsonView::Str(p.bundle_id@)),
            ("project_id"@, JsonView::Str(p.project_id@)),
            ("source"@, JsonView::Str(p.source@)),
            ("stored_path"@, JsonView::Str(stored_path)),
            ("next_tools"@, next_tools_json()),
        ],
    )
}

impl SubmitEvidenceBundleTool {
    pub fn new() -> (r: Self) {
        SubmitEvidenceBundleTool
    }

    pub fn name(&self) -> (r: &'static str)
        ensures
            r@ == "submit_evidence_bundle"@,
    {
        "submit_evidence_bundle"
    }

    pub fn description(&self) -> (r: &'static str)
        ensures
            r@ == "검증된 GRC evidence bundle을 중앙 저장소에 제출합니다. 원본 소스코드는 저장하지 않고 마스킹된 증거와 finding만 수신합니다."@,
    {
        "검증된 GRC evidence bundle을 중앙 저장소에 제출합니다. 원본 소스코드는 저장하지 않고 마스킹된 증거와 finding만 수신합니다."
    }

    pub fn annotations(&self) -> (r: ToolAnnotations)
        ensures
            r.read_only_hint == Some(false) && r.destructive_hint == Some(false),
            r.idempotent_hint == Some(false) && r.open_world_hint is None,
    {
        ToolAnnotations::state_changing()
    }

    /// Checks the `bundle` parameter and, when it is valid, fixes the names
    /// it is stored under: the project and the source come from the
    /// parameters, else from the bundle, else `govail` and `unknown`; the
    /// bundle id is the bundle's own, else a fresh UUID.
    pub fn prepare(&self, params: &JsonValue) -> (r: Result<Submission, McpError>)
        ensures
            required_object_outcome(params@, "bundle"@) is Ok <==> r is Ok,
            r matches Ok(s) ==> {
                let b = required_object_outcome(params@, "bundle"@)->Ok_0;
                match s {
                    Submission::Rejected(v) => bundle_errors(b).len() > 0 && !v.valid && views_of(v.errors@)
                        == bundle_errors(b) && views_of(v.warnings@) == bundle_warnings(b),
                    Submission::Store(p) => {
                        &&& bundle_errors(b).len() == 0
                        &&& p.validation.valid
                        &&& views_of(p.validation.errors@) == bundle_errors(b)
                        &&& views_of(p.validation.warnings@) == bundle_warnings(b)
                        &&& p.project_id@ == param_or_bundle(params@, b, "project_id"@, "govail"@)
                        &&& p.source@ == param_or_bundle(params@, b, "source"@, "unknown"@)
                        &&& (b.str_at("bundle_id"@) matches Some(id) ==> p.bundle_id@ == id)
                        &&& (b.str_at("bundle_id"@) is None ==> p.bundle_id@.len() == 36)
                        &&& p.bundle@ == b
                    },
                }
            },
            r matches Err(e) ==> match e {
                McpError::Param(ParamError::Missing { field }) => field@ == "bundle"@,
                McpError::Param(ParamError::TypeMismatch { field, expected, actual }) => field@ == "bundle"@
                    && expected@ == "object"@,
                _ => false,
            },
    {
        let bundle = match required_object(params, "bundle") {
            Ok(b) => b,
            Err(e) => {
                return Err(e);
            },
        };
        let validation = validate_bundle(bundle);
        if !validation.valid {
            return Ok(Submission::Rejected(validation));
        }
        let project_id = param_or_bundle_string(params, bundle, "project_id", "govail");
        let source = param_or_bundle_string(params, bundle, "source", "unknown");
        let bundle_id = match bundle.str_field("bundle_id") {
            Some(id) => string_of(id),
            None => new_uuid_text(),
        };
        Ok(
            Submission::Store(
                SubmissionPlan {
                    bundle_id,
                    project_id,
                    source,
                    received_at: now_rfc3339(),
                    validation,
                    bundle: bundle.duplicate(),
                },
            ),
        )
    }

    /// The document that is stored for a planned submission.
    pub fn stored_document(plan: &SubmissionPlan) -> (r: JsonValue)
        ensures
            r@ == stored_document_json(*plan),
    {
        let mut m: Vec<(String, JsonValue)> = Vec::new();
        put(&mut m, "bundle_id", JsonValue::string(plan.bundle_id.as_str()));
        put(&mut m, "project_id", JsonValue::string(plan.project_id.as_str()));
        put(&mut m, "source", JsonValue::string(plan.source.as_str()));
        put(&mut m, "received_at", JsonValue::string(plan.received_at.as_str()));
        put(&mut m, "validation", plan.validation.to_json());
        put(&mut m, "bundle", plan.bundle.duplicate());
        proof {
            lemma_object_view(m);
            assert(members_view(m@) =~= stored_document_json(*plan)->Object_0);
        }
        JsonValue::Object(m)
    }

    /// The answer once the document is stored at `stored_path`.
    pub fn accepted(plan: &SubmissionPlan, stored_path: &str) -> (r: JsonValue)
        ensures
            r@ == accepted_json(*plan, stored_path@),
    {
        let mut tools: Vec<JsonValue> = Vec::new();
        tools.push(JsonValue::string("map_findings_to_controls"));
        tools.push(JsonValue::string("generate_risk_brief"));
        proof {
            lemma_array_view(tools);
            assert(tools@.map_values(|x: JsonValue| x@) =~= next_tools_json()->Array_0);
        }
        let mut m: Vec<(String, JsonValue)> = Vec::new();
        put(&mut m, "status", JsonValue::string("accepted"));
        put(&mut m, "bundle_id", JsonValue::string(plan.bundle_id.as_str()));
        put(&mut m, "project_id", JsonValue::string(plan.project_id.as_str()));
        put(&mut m, "source", JsonValue::string(plan.source.as_str()));
        put(&mut m, "stored_path", JsonValue::string(stored_path));
        put(&mut m, "next_tools", JsonValue::Array(tools));
        proof {
            lemma_object_view(m);
            assert(members_view(m@) =~= accepted_json(*plan, stored_path@)->Object_0);
        }
        JsonValue::Object(m)
    }
}

/// What `generate_risk_brief` does with its parameters.
#[derive(Debug)]
pub enum BriefPlan {
    /// The bundle is invalid: the report is the answer.
    Rejected(BundleValidation),
    /// Ask the language model for a brief of this bundle in this language.
    Generate { bundle: JsonValue, language: String },
}

impl GenerateRiskBriefTool {
    pub fn new() -> (r: Self) {
        GenerateRiskBriefTool
    }

    pub fn name(&self) -> (r: &'static str)
        ensures
            r@ == "generate_risk_brief"@,
    {
        "generate_risk_brief"
    }

    pub fn description(&self) -> (r: &'static str)
        ensures
            r@ == "evidence bundle을 기반으로 로컬 LLM을 호출해 거버넌스, 리스크, 컴플라이언스 관점의 한국어 리스크 브리프를 생성합니다."@,
    {
        "evidence bundle을 기반으로 로컬 LLM을 호출해 거버넌스, 리스크, 컴플라이언스 관점의 한국어 리스크 브리프를 생성합니다."
    }

    pub fn annotations(&self) -> (r: ToolAnnotations)
        ensures
            r.read_only_hint == Some(true) && r.idempotent_hint == Some(false),
            r.destructive_hint is None && r.open_world_hint is None,
    {
        ToolAnnotations {
            read_only_hint: Some(true),
            destructive_hint: None,
            idempotent_hint: Some(false),
            open_world_hint: None,
        }
    }

    /// Checks the `bundle` parameter; a valid bundle goes to the model in the
    /// `language` parameter's language (`ko` by default).
    pub fn prepare(&self, params: &JsonValue) -> (r: Result<BriefPlan, McpError>)
        ensures
            required_object_outcome(params@, "bundle"@) is Ok <==> r is Ok,
            r matches Ok(s) ==> {
                let b = required_object_outcome(params@, "bundle"@)->Ok_0;
                match s {
                    BriefPlan::Rejected(v) => bundle_errors(b).len() > 0 && !v.valid && views_of(v.errors@)
                        == bundle_errors(b) && views_of(v.warnings@) == bundle_warnings(b),
                    BriefPlan::Generate { bundle, language } => bundle_errors(b).len() == 0 && bundle@ == b
                        && language@ == params@.str_or("language"@, "ko"@),
                }
            },
            r matches Err(e) ==> match e {
                McpError::Param(ParamError::Missing { field }) => field@ == "bundle"@,
                McpError::Param(ParamError::TypeMismatch { field, expected, actual }) => field@ == "bundle"@
                    && expected@ == "object"@,
                _ => false,
            },
    {
        let bundle = match required_object(params, "bundle") {
            Ok(b) => b,
            Err(e) => {
                return Err(e);
            },
        };
        let validation = validate_bundle(bundle);
        if !validation.valid {
            return Ok(BriefPlan::Rejected(validation));
        }
        let language = params.str_field_or("language", "ko");
        Ok(BriefPlan::Generate { bundle: bundle.duplicate(), language })
    }
}

proof fn lemma_member_hits_grow(v: JsonView, i: int, n: int, path: Seq<char>, h: Seq<char>)
    requires
        v is Object,
        0 <= i < n <= v->Object_0.len(),
        member_hits(v, i + 1, path).contains(h),
    ensures
        member_hits(v, n, path).contains(h),
    decreases n - i,
{
    if n > i + 1 {
        lemma_member_hits_grow(v, i, n - 1, path, h);
        let prev = member_hits(v, n - 1, path);
        let k = choose|k: int| 0 <= k < prev.len() && prev[k] == h;
        assert(member_hits(v, n, path)[k] == h);
    }
}

/// A member with a blocked key is reported at its path, and whatever is
/// found inside any member is reported for the whole object.
pub proof fn law_raw_source_reported(v: JsonView, i: int, path: Seq<char>, h: Seq<char>)
    requires
        v is Object,
        0 <= i < v->Object_0.len(),
    ensures
        is_blocked_key(v->Object_0[i].0) ==> source_hits(v, path).contains(
            member_path(path, v->Object_0[i].0),
        ),
        source_hits(v->Object_0[i].1, member_path(path, v->Object_0[i].0)).contains(h) ==> source_hits(
            v,
            path,
        ).contains(h),
{
    let ms = v->Object_0;
    let cp = member_path(path, ms[i].0);
    let here = member_hits(v, i + 1, path);
    let before = member_hits(v, i, path);
    let inner = source_hits(ms[i].1, cp);
    if is_blocked_key(ms[i].0) {
        assert(here[before.len() as int] == cp);
        lemma_member_hits_grow(v, i, ms.len() as int, path, cp);
    }
    if inner.contains(h) {
        let k = choose|k: int| 0 <= k < inner.len() && inner[k] == h;
        let own = if is_blocked_key(ms[i].0) {
            1int
        } else {
            0int
        };
        assert(here[before.len() + own + k] == h);
        lemma_member_hits_grow(v, i, ms.len() as int, path, h);
    }
}

/// A bundle in which raw source shows up anywhere is never valid, so it is
/// never submitted nor briefed.
pub proof fn law_raw_source_invalidates(b: JsonView)
    requires
        source_hits(b, "$"@).len() > 0,
    ensures
        bundle_errors(b).len() > 0,
        bundle_errors(b).last() == raw_source_error(source_hits(b, "$"@)),
{
}

pub open spec fn validate_bundle_descriptor() -> DescriptorView {
    DescriptorView {
        name: "validate_evidence_bundle"@,
        description: "클라이언트가 생성한 GRC evidence bundle의 필수 필드, finding 구조, 원본 소스코드 포함 위험을 검사합니다."@,
        input_schema: validate_bundle_schema(),
        annotations: ToolAnnotations { read_only_hint: Some(true), destructive_hint: None, idempotent_hint: Some(true), open_world_hint: None },
    }
}

pub open spec fn validate_bundle_schema() -> JsonView {
    object_schema_json(seq![("bundle"@, prop_json("object"@, "repo-snapshot 또는 repo-guard-sentinel이 생성한 evidence bundle"@, Seq::empty()))], seq!["bundle"@])
}

impl ValidateEvidenceBundleTool {
    /// The JSON Schema of the tool's parameters.
    pub fn input_schema(&self) -> (r: JsonValue)
        ensures
            r@ == validate_bundle_schema(),
    {
        let mut props: Vec<(String, JsonValue)> = Vec::new();
        put(&mut props, "bundle", prop("object", "repo-snapshot 또는 repo-guard-sentinel이 생성한 evidence bundle"));
        let ghost pv = members_view(props@);
        proof { assert(pv =~= seq![("bundle"@, prop_json("object"@, "repo-snapshot 또는 repo-guard-sentinel이 생성한 evidence bundle"@, Seq::empty()))]); }
        let required = names1("bundle");
        object_schema(props, &required)
    }

    /// What the registry lists for this tool.
    pub fn descriptor(&self) -> (r: ToolDescriptor)
        ensures
            r@ == validate_bundle_descriptor(),
    {
        ToolDescriptor {
            name: string_of(self.name()),
            description: string_of(self.description()),
            input_schema: self.input_schema(),
            annotations: self.annotations(),
        }
    }
}

pub open spec fn submit_bundle_descriptor() -> DescriptorView {
    DescriptorView {
        name: "submit_evidence_bundle"@,
        description: "검증된 GRC evidence bundle을 중앙 저장소에 제출합니다. 원본 소스코드는 저장하지 않고 마스킹된 증거와 finding만 수신합니다."@,
        input_schema: submit_bundle_schema(),
        annotations: ToolAnnotations { read_only_hint: Some(false), destructive_hint: Some(false), idempotent_hint: Some(false), open_world_hint: None },
    }
}

pub open spec fn submit_bundle_schema() -> JsonView {
    object_schema_json(seq![("bundle"@, prop_json("object"@, "제출할 evidence bundle"@, Seq::empty())), ("project_id"@, prop_json("string"@, "중앙 저장소에서 사용할 프로젝트 ID. bundle.project_id가 있으면 생략 가능합니다."@, Seq::empty())), ("source"@, prop_json("string"@, "evidence 생성 도구명. 예: repo-snapshot, repo-guard-sentinel"@, Seq::empty()))], seq!["bundle"@])
}

impl SubmitEvidenceBundleTool {
    /// The JSON Schema of the tool's parameters.
    pub fn input_schema(&self) -> (r: JsonValue)
        ensures
            r@ == submit_bundle_schema(),
    {
        let mut props: Vec<(String, JsonValue)> = Vec::new();
        put(&mut props, "bundle", prop("object", "제출할 evidence bundle"));
        put(&mut props, "project_id", prop("string", "중앙 저장소에서 사용할 프로젝트 ID. bundle.project_id가 있으면 생략 가능합니다."));
        put(&mut props, "source", prop("string", "evidence 생성 도구명. 예: repo-snapshot, repo-guard-sentinel"));
        let ghost pv = members_view(props@);
        proof { assert(pv =~= seq![("bundle"@, prop_json("object"@, "제출할 evidence bundle"@, Seq::empty())), ("project_id"@, prop_json("string"@, "중앙 저장소에서 사용할 프로젝트 ID. bundle.project_id가 있으면 생략 가능합니다."@, Seq::empty())), ("source"@, prop_json("string"@, "evidence 생성 도구명. 예: repo-snapshot, repo-guard-sentinel"@, Seq::empty()))]); }
        let required = names1("bundle");
        object_schema(props, &required)
    }

    /// What the registry lists for this tool.
    pub fn descriptor(&self) -> (r: ToolDescriptor)
        ensures
            r@ == submit_bundle_descriptor(),
    {
        ToolDescriptor {
            name: string_of(self.name()),
            description: string_of(self.description()),
            input_schema: self.input_schema(),
            annotations: self.annotations(),
        }
    }
}

pub open spec fn map_findings_descriptor() -> DescriptorView {
    DescriptorView {
        name: "map_findings_to_controls"@,
        description: "GRC evidence finding을 NIST CSF, ISO 27001, CIS 관점의 통제 후보로 매핑합니다."@,
        input_schema: map_findings_schema(),
        annotations: ToolAnnotations { read_only_hint: Some(true), destructive_hint: None, idempotent_hint: Some(true), open_world_hint: None },
    }
}

pub open spec fn map_findings_schema() -> JsonView {
    object_schema_json(seq![("findings"@, prop_json("array"@, "매핑할 finding 배열"@, Seq::empty())), ("frameworks"@, prop_json("array"@, "대상 프레임워크 목록. 기본값: nist_csf, iso27001, cis"@, seq![("items"@, JsonView::Object(seq![("type"@, JsonView::Str("string"@))]))]))], seq!["findings"@])
}

impl MapFindingsToControlsTool {
    /// The JSON Schema of the tool's parameters.
    pub fn input_schema(&self) -> (r: JsonValue)
        ensures
            r@ == map_findings_schema(),
    {
        let mut props: Vec<(String, JsonValue)> = Vec::new();
        put(&mut props, "findings", prop("array", "매핑할 finding 배열"));
        let mut extra1: Vec<(String, JsonValue)> = Vec::new();
        let mut item: Vec<(String, JsonValue)> = Vec::new();
        put(&mut item, "type", JsonValue::string("string"));
        proof { lemma_object_view(item); assert(members_view(item@) =~= seq![("type"@, JsonView::Str("string"@))]); }
        put(&mut extra1, "items", JsonValue::Object(item));
        proof { assert(members_view(extra1@) =~= seq![("items"@, JsonView::Object(seq![("type"@, JsonView::Str("string"@))]))]); }
        put(&mut props, "frameworks", prop_with("array", "대상 프레임워크 목록. 기본값: nist_csf, iso27001, cis", extra1));
        let ghost pv = members_view(props@);
        proof { assert(pv =~= seq![("findings"@, prop_json("array"@, "매핑할 finding 배열"@, Seq::empty())), ("frameworks"@, prop_json("array"@, "대상 프레임워크 목록. 기본값: nist_csf, iso27001, cis"@, seq![("items"@, JsonView::Object(seq![("type"@, JsonView::Str("string"@))]))]))]); }
        let required = names1("findings");
        object_schema(props, &required)
    }

    /// What the registry lists for this tool.
    pub fn descriptor(&self) -> (r: ToolDescriptor)
        ensures
            r@ == map_findings_descriptor(),
    {
        ToolDescriptor {
            name: string_of(self.name()),
            description: string_of(self.description()),
            input_schema: self.input_schema(),
            annotations: self.annotations(),
        }
    }
}

pub open spec fn risk_brief_descriptor() -> DescriptorView {
    DescriptorView {
        name: "generate_risk_brief"@,
        description: "evidence bundle을 기반으로 로컬 LLM을 호출해 거버넌스, 리스크, 컴플라이언스 관점의 한국어 리스크 브리프를 생성합니다."@,
        input_schema: risk_brief_schema(),
        annotations: ToolAnnotations { read_only_hint: Some(true), destructive_hint: None, idempotent_hint: Some(false), open_world_hint: None },
    }
}

pub open spec fn risk_brief_schema() -> JsonView {
    object_schema_json(seq![("bundle"@, prop_json("object"@, "리스크 브리프 생성에 사용할 evidence bundle"@, Seq::empty())), ("language"@, prop_json("string"@, "출력 언어. 기본값: ko"@, Seq::empty()))], seq!["bundle"@])
}

impl GenerateRiskBriefTool {
    /// The JSON Schema of the tool's parameters.
    pub fn input_schema(&self) -> (r: JsonValue)
        ensures
            r@ == risk_brief_schema(),
    {
        let mut props: Vec<(String, JsonValue)> = Vec::new();
        put(&mut props, "bundle", prop("object", "리스크 브리프 생성에 사용할 evidence bundle"));
        put(&mut props, "language", prop("string", "출력 언어. 기본값: ko"));
        let ghost pv = members_view(props@);
        proof { assert(pv =~= seq![("bundle"@, prop_json("object"@, "리스크 브리프 생성에 사용할 evidence bundle"@, Seq::empty())), ("language"@, prop_json("string"@, "출력 언어. 기본값: ko"@, Seq::empty()))]); }
        let required = names1("bundle");
        object_schema(props, &required)
    }

    /// What the registry lists for this tool.
    pub fn descriptor(&self) -> (r: ToolDescriptor)
        ensures
            r@ == risk_brief_descriptor(),
    {
        ToolDescriptor {
            name: string_of(self.name()),
            description: string_of(self.description()),
            input_schema: self.input_schema(),
            annotations: self.annotations(),
        }
    }
}

/// The control family of a finding category, by the words it contains,
/// the first that applies winning: `secret` gives the secret family;
/// `network` or `ip` the network family; `dependency`, `cve` or
/// `vulnerability` the vulnerability-management family; anything else the
/// general family.
pub proof fn law_category_families(c: Seq<char>)
    ensures
        seq_contains(c, "secret"@) ==> control_family(c) == ControlFamily::Secret,
        !seq_contains(c, "secret"@) && (seq_contains(c, "network"@) || seq_contains(c, "ip"@))
            ==> control_family(c) == ControlFamily::Network,
        !seq_contains(c, "secret"@) && !seq_contains(c, "network"@) && !seq_contains(c, "ip"@) && (seq_contains(
            c,
            "dependency"@,
        ) || seq_contains(c, "cve"@) || seq_contains(c, "vulnerability"@)) ==> control_family(c)
            == ControlFamily::Vulnerability,
        !seq_contains(c, "secret"@) && !seq_contains(c, "network"@) && !seq_contains(c, "ip"@) && !seq_contains(
            c,
            "dependency"@,
        ) && !seq_contains(c, "cve"@) && !seq_contains(c, "vulnerability"@) ==> control_family(c)
            == ControlFamily::General,
{
}

/// Exactly seven member keys are refused as raw source or unmasked
/// secrets, wherever they appear: `source_code`, `raw_source`, `raw_code`,
/// `file_contents`, `unmasked_secret`, `secret_value` and `private_key`.
/// A member under one of them is reported at its path, and a bundle with
/// such a member at its top level is invalid.
pub proof fn law_blocked_keys(v: JsonView, i: int, path: Seq<char>)
    requires
        v is Object,
        0 <= i < v->Object_0.len(),
    ensures
        ({
            let k = v->Object_0[i].0;
            ||| k == "source_code"@
            ||| k == "raw_source"@
            ||| k == "raw_code"@
            ||| k == "file_contents"@
            ||| k == "unmasked_secret"@
            ||| k == "secret_value"@
            ||| k == "private_key"@
        }) <==> is_blocked_key(v->Object_0[i].0),
        is_blocked_key(v->Object_0[i].0) ==> source_hits(v, path).contains(member_path(path, v->Object_0[i].0)),
        is_blocked_key(v->Object_0[i].0) ==> bundle_errors(v).len() > 0 && bundle_errors(v).last()
            == raw_source_error(source_hits(v, "$"@)) && source_hits(v, "$"@).contains(
            member_path("$"@, v->Object_0[i].0),
        ),
{
    law_raw_source_reported(v, i, path, path);
    law_raw_source_reported(v, i, "$"@, "$"@);
    if is_blocked_key(v->Object_0[i].0) {
        law_raw_source_invalidates(v);
    }
}

/// A bundle is valid exactly when it has a `findings` array and no member
/// anywhere in it is under a blocked key; it draws the one warning exactly
/// when it has no string `project_id`.
pub proof fn law_bundle_validity(b: JsonView)
    ensures
        bundle_errors(b).len() == 0 <==> (b.array_at("findings"@) is Some && source_hits(b, "$"@).len() == 0),
        bundle_warnings(b).len() > 0 <==> b.str_at("project_id"@) is None,
{
}

/// Every control family offers three candidates: a NIST CSF control, an
/// ISO 27001 control and a CIS control, in that order, each with a
/// confidence below 100; and no two families share a control.
pub proof fn law_control_candidates(f: ControlFamily, g: ControlFamily, i: int, j: int)
    requires
        0 <= i < 3,
        0 <= j < 3,
    ensures
        family_controls(f).len() == 3,
        family_controls(f)[0].0 == "NIST-CSF"@,
        family_controls(f)[1].0 == "ISO27001"@,
        family_controls(f)[2].0 == "CIS"@,
        0 < family_controls(f)[i].3 < 100,
        f != g ==> family_controls(f)[i].1 != family_controls(g)[j].1,
{
    reveal_strlit("PR.DS-5");
    reveal_strlit("A.8.12");
    reveal_strlit("CIS-3.3");
    reveal_strlit("ID.AM-3");
    reveal_strlit("A.8.20");
    reveal_strlit("CIS-12.2");
    reveal_strlit("ID.RA-1");
    reveal_strlit("A.8.8");
    reveal_strlit("CIS-7.1");
    reveal_strlit("ID.RA-5");
    reveal_strlit("A.5.7");
    reveal_strlit("CIS-17.1");
    if f != g {
        let a = family_controls(f)[i].1;
        let b = family_controls(g)[j].1;
        if a == b {
            assert(a.len() == b.len());
            assert(a[0] == b[0]);
            assert(a[a.len() - 1] == b[b.len() - 1]);
            assert(a[a.len() - 2] == b[b.len() - 2]);
            assert(a[3] == b[3]);
        }
    }
}

} // verus!
