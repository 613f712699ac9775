//! What the GoVail HTTP client computes: service endpoints, request bodies,
//! how a response status is judged, where evidence is filed, the rows that
//! record a bundle, and the risk-brief exchange with the language model.
use vstd::prelude::*;
use crate::json::{
    JsonNumber, JsonValue, JsonView, NumberView, lemma_array_view, lemma_object_view, members_view, put,
};
use crate::mcp::protocol::{BusinessError, McpError, SystemError};
use crate::text::{
    ascii_alnum, chars_of, is_ascii_alnum, push_char, push_str, str_eq, string_of,
    to_lowercase,
};
use crate::tools::grc::{
    ControlCandidate, FindingMapping, candidates_view, mapping_matches, control_family, controls_for, family_controls, family_of,
    finding_category, finding_severity,
};

verus! {

broadcast use vstd::string::group_string_axioms;

/// The service addresses and credentials the client uses.
#[derive(Debug, Clone)]
pub struct ClientSettings {
    pub memory_url: String,
    pub runtime_url: String,
    pub sentinel_url: String,
    pub sentinel_api_token: String,
    pub llm_api_url: String,
    pub llm_api_key: String,
    pub llm_model: String,
    pub llm_max_tokens: u64,
    pub llm_enable_thinking: bool,
    pub grc_database_url: String,
    pub grc_evidence_store_dir: String,
}

// ---------------------------------------------------------------------------
// Endpoints
// ---------------------------------------------------------------------------

/// `str::trim_end_matches('/')`: every trailing slash removed.
pub open spec fn trim_slashes(s: Seq<char>) -> Seq<char>
    decreases s.len(),
{
    if s.len() > 0 && s.last() == '/' {
        trim_slashes(s.drop_last())
    } else {
        s
    }
}

pub fn trim_end_slashes(s: &str) -> (r: String)
    ensures
        r@ == trim_slashes(s@),
{
    let cs = chars_of(s);
    let mut j: usize = cs.len();
    assert(cs@.take(j as int) =~= cs@);
    while j > 0 && cs[j - 1] == '/'
        invariant
            j <= cs@.len(),
            trim_slashes(cs@) == trim_slashes(cs@.take(j as int)),
        decreases j,
    {
        assert(cs@.take(j as int).drop_last() =~= cs@.take(j - 1));
        j = j - 1;
    }
    let mut r = String::new();
    let mut k: usize = 0;
    while k < j
        invariant
            k <= j <= cs@.len(),
            r@ == cs@.take(k as int),
        decreases j - k,
    {
        push_char(&mut r, cs[k]);
        k = k + 1;
        assert(r@ =~= cs@.take(k as int));
    }
    r
}

/// `{base without trailing slashes}{tail}`.
pub open spec fn endpoint(base: Seq<char>, tail: Seq<char>) -> Seq<char> {
    trim_slashes(base) + tail
}

fn endpoint_of(base: &str, tail: &str) -> (r: String)
    ensures
        r@ == endpoint(base@, tail@),
{
    let mut s = trim_end_slashes(base);
    push_str(&mut s, tail);
    s
}

impl ClientSettings {
    /// `POST {memory}/internal/projects/{project_id}/search`.
    pub fn search_url(&self, project_id: &str) -> (r: String)
        ensures
            r@ == endpoint(self.memory_url@, "/internal/projects/"@ + project_id@ + "/search"@),
    {
        let mut tail = string_of("/internal/projects/");
        push_str(&mut tail, project_id);
        push_str(&mut tail, "/search");
        endpoint_of(self.memory_url.as_str(), tail.as_str())
    }

    /// `POST {runtime}/api/jobs`.
    pub fn jobs_url(&self) -> (r: String)
        ensures
            r@ == endpoint(self.runtime_url@, "/api/jobs"@),
    {
        endpoint_of(self.runtime_url.as_str(), "/api/jobs")
    }

    /// `GET {runtime}/api/jobs/{job_id}`.
    pub fn job_url(&self, job_id: &str) -> (r: String)
        ensures
            r@ == endpoint(self.runtime_url@, "/api/jobs/"@ + job_id@),
    {
        let mut tail = string_of("/api/jobs/");
        push_str(&mut tail, job_id);
        endpoint_of(self.runtime_url.as_str(), tail.as_str())
    }

    /// `GET {runtime}/api/jobs/{job_id}/report`.
    pub fn job_report_url(&self, job_id: &str) -> (r: String)
        ensures
            r@ == endpoint(self.runtime_url@, "/api/jobs/"@ + job_id@ + "/report"@),
    {
        let mut tail = string_of("/api/jobs/");
        push_str(&mut tail, job_id);
        push_str(&mut tail, "/report");
        endpoint_of(self.runtime_url.as_str(), tail.as_str())
    }

    /// `POST {sentinel}/api/v1/scan`.
    pub fn scan_url(&self) -> (r: String)
        ensures
            r@ == endpoint(self.sentinel_url@, "/api/v1/scan"@),
    {
        endpoint_of(self.sentinel_url.as_str(), "/api/v1/scan")
    }

    /// `POST {llm}/chat/completions`.
    pub fn completions_url(&self) -> (r: String)
        ensures
            r@ == endpoint(self.llm_api_url@, "/chat/completions"@),
    {
        endpoint_of(self.llm_api_url.as_str(), "/chat/completions")
    }

    /// The bearer token for the scanner, when one is configured.
    pub fn scan_token(&self) -> (r: Option<&str>)
        ensures
            match r {
                Some(t) => self.sentinel_api_token@.len() > 0 && t@ == self.sentinel_api_token@,
                None => self.sentinel_api_token@.len() == 0,
            },
    {
        if self.sentinel_api_token.as_str().is_empty() {
            None
        } else {
            Some(self.sentinel_api_token.as_str())
        }
    }

    /// The bearer token for the language model: the key, unless it is empty
    /// or `none`.
    pub fn llm_token(&self) -> (r: Option<&str>)
        ensures
            match r {
                Some(t) => self.llm_api_key@.len() > 0 && self.llm_api_key@ != "none"@ && t@
                    == self.llm_api_key@,
                None => self.llm_api_key@.len() == 0 || self.llm_api_key@ == "none"@,
            },
    {
        if self.llm_api_key.as_str().is_empty() || str_eq(self.llm_api_key.as_str(), "none") {
            None
        } else {
            Some(self.llm_api_key.as_str())
        }
    }

    /// Whether bundles are also recorded in the database.
    pub fn uses_database(&self) -> (r: bool)
        ensures
            r == (self.grc_database_url@.len() > 0),
    {
        !self.grc_database_url.as_str().is_empty()
    }
}

// ---------------------------------------------------------------------------
// Request bodies
// ---------------------------------------------------------------------------

/// `{"query": query, "limit": limit}`.
pub fn search_body(query: &str, limit: u32) -> (r: JsonValue)
    ensures
        r@ == JsonView::Object(
            seq![
                ("query"@, JsonView::Str(query@)),
                ("limit"@, JsonView::Number(NumberView::Unsigned(limit as u64))),
            ],
        ),
{
    let mut m: Vec<(String, JsonValue)> = Vec::new();
    put(&mut m, "query", JsonValue::string(query));
    put(&mut m, "limit", JsonValue::Number(JsonNumber::Unsigned(limit as u64)));
    proof {
        lemma_object_view(m);
        assert(members_view(m@) =~= seq![
            ("query"@, JsonView::Str(query@)),
            ("limit"@, JsonView::Number(NumberView::Unsigned(limit as u64))),
        ]);
    }
    JsonValue::Object(m)
}

/// `{"workflow_type": .., "params": .., "issue_ref": ..}`.
pub fn trigger_body(workflow_type: &str, params: &JsonValue, issue_ref: &str) -> (r: JsonValue)
    ensures
        r@ == JsonView::Object(
            seq![
                ("workflow_type"@, JsonView::Str(workflow_type@)),
                ("params"@, params@),
                ("issue_ref"@, JsonView::Str(issue_ref@)),
            ],
        ),
{
    let mut m: Vec<(String, JsonValue)> = Vec::new();
    put(&mut m, "workflow_type", JsonValue::string(workflow_type));
    put(&mut m, "params", params.duplicate());
    put(&mut m, "issue_ref", JsonValue::string(issue_ref));
    proof {
        lemma_object_view(m);
        assert(members_view(m@) =~= seq![
            ("workflow_type"@, JsonView::Str(workflow_type@)),
            ("params"@, params@),
            ("issue_ref"@, JsonView::Str(issue_ref@)),
        ]);
    }
    JsonValue::Object(m)
}

/// `{"diff": code, "mode": mode, "auto_fix": auto_fix}`.
pub fn scan_body(diff: &str, mode: &str, auto_fix: bool) -> (r: JsonValue)
    ensures
        r@ == JsonView::Object(
            seq![
                ("diff"@, JsonView::Str(diff@)),
                ("mode"@, JsonView::Str(mode@)),
                ("auto_fix"@, JsonView::Bool(auto_fix)),
            ],
        ),
{
    let mut m: Vec<(String, JsonValue)> = Vec::new();
    put(&mut m, "diff", JsonValue::string(diff));
    put(&mut m, "mode", JsonValue::string(mode));
    put(&mut m, "auto_fix", JsonValue::Bool(auto_fix));
    proof {
        lemma_object_view(m);
        assert(members_view(m@) =~= seq![
            ("diff"@, JsonView::Str(diff@)),
            ("mode"@, JsonView::Str(mode@)),
            ("auto_fix"@, JsonView::Bool(auto_fix)),
        ]);
    }
    JsonValue::Object(m)
}

// ---------------------------------------------------------------------------
// Responses
// ---------------------------------------------------------------------------

/// A status in 200..=299 is a success (`StatusCode::is_success`).
pub open spec fn is_success(status: u16) -> bool {
    200 <= status <= 299
}

/// A response is accepted exactly when its status is in the 2xx range,
/// 200 to 299 inclusive (what `StatusCode::is_success` checks); every other
/// status is refused.
pub proof fn law_success_statuses(status: u16)
    ensures
        is_success(status) <==> (200 <= status && status < 300),
{
}

/// The body of a successful response; any other status is a business
/// error that carries the status and the body.
pub fn accept_response(status: u16, body: String) -> (r: Result<String, McpError>)
    ensures
        is_success(status) ==> (r matches Ok(b) && b@ == body@),
        !is_success(status) ==> (r matches Err(McpError::Business(BusinessError::ApiFailure { status: s, body: b }))
            && s == status && b@ == body@),
{
    if 200 <= status && status <= 299 {
        Ok(body)
    } else {
        Err(McpError::Business(BusinessError::ApiFailure { status, body }))
    }
}

/// The error for a response body that is not JSON: `{what} JSON 파싱 실패: {detail}`.
pub fn unreadable_response(what: &str, detail: &str) -> (r: McpError)
    ensures
        r matches McpError::System(SystemError::Internal(m)) && m@ == what@ + " JSON 파싱 실패: "@ + detail@,
{
    let mut m = string_of(what);
    push_str(&mut m, " JSON 파싱 실패: ");
    push_str(&mut m, detail);
    McpError::System(SystemError::Internal(m))
}

// ---------------------------------------------------------------------------
// Evidence files
// ---------------------------------------------------------------------------

/// Characters kept in a path segment; every other one becomes `_`.
pub open spec fn segment_char(c: char) -> char {
    if is_ascii_alnum(c) || c == '-' || c == '_' || c == '.' {
        c
    } else {
        '_'
    }
}

/// Each character of a value kept or replaced by `_`.
pub open spec fn mapped_segment(s: Seq<char>) -> Seq<char> {
    s.map_values(|c: char| segment_char(c))
}

/// A safe file-name segment: each character kept or replaced by `_`;
/// `unknown` for an empty value; and the directory names `.` and `..`,
/// which would not name a file inside the directory, become `_` and `__`.
pub open spec fn safe_segment(s: Seq<char>) -> Seq<char> {
    if s.len() == 0 {
        "unknown"@
    } else if mapped_segment(s) == "."@ {
        "_"@
    } else if mapped_segment(s) == ".."@ {
        "__"@
    } else {
        mapped_segment(s)
    }
}

/// Normalizes a value for use as one path segment (see `safe_segment`).
pub fn sanitize_path_segment(value: &str) -> (r: String)
    ensures
        r@ == safe_segment(value@),
{
    let cs = chars_of(value);
    let mut out = String::new();
    let mut i: usize = 0;
    while i < cs.len()
        invariant
            i <= cs@.len(),
            cs@ == value@,
            out@ == cs@.take(i as int).map_values(|c: char| segment_char(c)),
        decreases cs.len() - i,
    {
        let c = cs[i];
        if ascii_alnum(c) || c == '-' || c == '_' || c == '.' {
            push_char(&mut out, c);
        } else {
            push_char(&mut out, '_');
        }
        i = i + 1;
        assert(out@ =~= cs@.take(i as int).map_values(|c: char| segment_char(c)));
    }
    assert(cs@.take(cs@.len() as int) =~= cs@);
    proof {
        reveal_strlit(".");
        reveal_strlit("..");
        reveal_strlit("_");
        reveal_strlit("__");
    }
    if cs.len() == 0 {
        string_of("unknown")
    } else if cs.len() == 1 && cs[0] == '.' {
        assert(out@ =~= "."@);
        string_of("_")
    } else if cs.len() == 2 && cs[0] == '.' && cs[1] == '.' {
        assert(out@ =~= ".."@);
        string_of("__")
    } else {
        assert(out@ != "."@ && out@ != ".."@) by {
            if out@ == "."@ {
                assert(out@[0] == '.');
                assert(segment_char(cs@[0]) == '.');
            }
            if out@ == ".."@ {
                assert(out@[0] == '.' && out@[1] == '.');
                assert(segment_char(cs@[0]) == '.' && segment_char(cs@[1]) == '.');
            }
        }
        out
    }
}

/// Where a bundle is filed: `{store}/{project}` and `{store}/{project}/{bundle}.json`,
/// with both names made safe.
pub open spec fn evidence_dir(store: Seq<char>, project_id: Seq<char>) -> Seq<char> {
    trim_slashes(store) + "/"@ + safe_segment(project_id)
}

pub open spec fn evidence_file(store: Seq<char>, project_id: Seq<char>, bundle_id: Seq<char>) -> Seq<char> {
    evidence_dir(store, project_id) + "/"@ + safe_segment(bundle_id) + ".json"@
}

impl ClientSettings {
    /// The directory and the file of a bundle's evidence record.
    pub fn evidence_location(&self, project_id: &str, bundle_id: &str) -> (r: (String, String))
        ensures
            r.0@ == evidence_dir(self.grc_evidence_store_dir@, project_id@),
            r.1@ == evidence_file(self.grc_evidence_store_dir@, project_id@, bundle_id@),
    {
        let mut dir = trim_end_slashes(self.grc_evidence_store_dir.as_str());
        push_str(&mut dir, "/");
        push_str(&mut dir, sanitize_path_segment(project_id).as_str());
        let mut path = string_of(dir.as_str());
        push_str(&mut path, "/");
        push_str(&mut path, sanitize_path_segment(bundle_id).as_str());
        push_str(&mut path, ".json");
        (dir, path)
    }
}

// ---------------------------------------------------------------------------
// Database rows
// ---------------------------------------------------------------------------

/// The numeric value of a UUID in any of the textual forms that
/// `uuid::Uuid::parse_str` reads, or `None` when the text is not one.
pub uninterp spec fn uuid_value(s: Seq<char>) -> Option<u128>;

/// `uuid::Uuid::parse_str`, as a 128-bit number.
#[verifier::external_body]
fn parse_uuid(s: &str) -> (r: Option<u128>)
    ensures
        r == uuid_value(s@),
{
    match uuid::Uuid::parse_str(s) {
        Ok(u) => Some(u.as_u128()),
        Err(_) => None,
    }
}

/// A random (version-4, RFC 4122 variant) UUID as a 128-bit number: the
/// version nibble (bits 76 to 79) is 4 and the two variant bits (62, 63)
/// are `10`.
pub open spec fn is_v4_uuid(u: u128) -> bool {
    (u >> 76u128) & 0xfu128 == 4u128 && (u >> 62u128) & 0x3u128 == 2u128
}

/// `uuid::Uuid::new_v4()`, as a 128-bit number (`as_u128`, big-endian):
/// random, except that `new_v4` masks in the version and variant bits.
#[verifier::external_body]
fn fresh_uuid() -> (r: u128)
    ensures
        is_v4_uuid(r),
{
    uuid::Uuid::new_v4().as_u128()
}

/// One finding as it is recorded, with its control candidates.
#[derive(Debug)]
pub struct FindingRow {
    pub id: u128,
    pub severity: String,
    pub category: String,
    pub title: String,
    pub finding: JsonValue,
    pub controls: Vec<ControlRow>,
}

/// One control candidate as it is recorded.
#[derive(Debug)]
pub struct ControlRow {
    pub id: u128,
    pub candidate: ControlCandidate,
}

/// A bundle as it is recorded: the bundle row and its findings.
#[derive(Debug)]
pub struct EvidenceRows {
    pub bundle_id: u128,
    pub project_id: String,
    pub source: String,
    pub asset_type: Option<String>,
    pub asset_name: Option<String>,
    pub bundle: JsonValue,
    pub validation: JsonValue,
    pub findings: Vec<FindingRow>,
}

/// The bundle inside a stored document (its `bundle` member), or the
/// document itself when it has none.
pub open spec fn inner_bundle(doc: JsonView) -> JsonView {
    match doc.lookup("bundle"@) {
        Some(b) => b,
        None => doc,
    }
}

pub open spec fn control_rows_view(rows: Seq<ControlRow>) -> Seq<(Seq<char>, Seq<char>, Seq<char>, u8)> {
    rows.map_values(|c: ControlRow| crate::tools::grc::candidate_view(c.candidate))
}

/// A finding row records the finding with the same lowercased severity and
/// category and the same control candidates that the control mapping gives.
pub open spec fn finding_row_matches(row: FindingRow, f: JsonView) -> bool {
    &&& is_v4_uuid(row.id)
    &&& forall|k: int| 0 <= k < row.controls@.len() ==> is_v4_uuid(#[trigger] row.controls@[k].id)
    &&& row.severity@ == finding_severity(f)
    &&& row.category@ == finding_category(f)
    &&& row.title@ == f.str_or("title"@, "제목 없음"@)
    &&& row.finding@ == f
    &&& control_rows_view(row.controls@) == family_controls(control_family(finding_category(f)))
}
fn opt_string(v: Option<&str>) -> (r: Option<String>)
    ensures
        match v {
            Some(s) => r matches Some(t) && t@ == s@,
            None => r is None,
        },
{
    match v {
        Some(s) => Some(string_of(s)),
        None => None,
    }
}

fn finding_row(finding: &JsonValue) -> (r: FindingRow)
    ensures
        finding_row_matches(r, finding@),
{
    let severity = to_lowercase(finding.str_field_or("severity", "unknown").as_str());
    let category = to_lowercase(finding.str_field_or("category", "unknown").as_str());
    let title = finding.str_field_or("title", "제목 없음");
    let candidates = controls_for(family_of(category.as_str()));
    let mut controls: Vec<ControlRow> = Vec::new();
    let mut i: usize = 0;
    while i < candidates.len()
        invariant
            i <= candidates@.len(),
            controls@.len() == i,
            control_rows_view(controls@) == candidates_view(candidates@).take(i as int),
            forall|k: int| 0 <= k < controls@.len() ==> is_v4_uuid(#[trigger] controls@[k].id),
        decreases candidates.len() - i,
    {
        let d = candidates[i].duplicate();
        assert(crate::tools::grc::candidate_view(d) == candidates_view(candidates@)[i as int]);
        let ghost before = controls@;
        controls.push(ControlRow { id: fresh_uuid(), candidate: d });
        assert(controls@ == before.push(controls@[i as int]));
        assert(control_rows_view(controls@)[i as int] == candidates_view(candidates@)[i as int]);
        i = i + 1;
        assert(control_rows_view(controls@) =~= candidates_view(candidates@).take(i as int));
    }
    assert(candidates_view(candidates@).take(candidates@.len() as int) =~= candidates_view(candidates@));
    FindingRow { id: fresh_uuid(), severity, category, title, finding: finding.duplicate(), controls }
}

pub open spec fn opt_view(v: Option<String>) -> Option<Seq<char>> {
    match v {
        Some(s) => Some(s@),
        None => None,
    }
}

/// The rows that record a stored document (as `submit_evidence_bundle`
/// builds it): the bundle row keyed by the bundle id when it is a UUID, and
/// one row per finding of the inner bundle; a bundle id that is not a UUID,
/// and every finding and control row, get a fresh random UUID.
pub open spec fn rows_match(r: EvidenceRows, project_id: Seq<char>, bundle_id: Seq<char>, doc: JsonView) -> bool {
    let inner = inner_bundle(doc);
    &&& (uuid_value(bundle_id) matches Some(u) ==> r.bundle_id == u)
    &&& (uuid_value(bundle_id) is None ==> is_v4_uuid(r.bundle_id))
    &&& r.project_id@ == project_id
    &&& r.source@ == doc.str_or("source"@, "unknown"@)
    &&& opt_view(r.asset_type) == inner.str_at("asset_type"@)
    &&& opt_view(r.asset_name) == inner.str_at("asset_name"@)
    &&& r.bundle@ == inner
    &&& r.validation@ == match doc.lookup("validation"@) {
        Some(v) => v,
        None => JsonView::Object(Seq::empty()),
    }
    &&& match inner.array_at("findings"@) {
        Some(fs) => r.findings@.len() == fs.len() && forall|i: int|
            0 <= i < fs.len() ==> finding_row_matches(#[trigger] r.findings@[i], fs[i]),
        None => r.findings@.len() == 0,
    }
}

/// The database rows for a stored evidence document.
pub fn evidence_rows(project_id: &str, bundle_id: &str, doc: &JsonValue) -> (r: EvidenceRows)
    ensures
        rows_match(r, project_id@, bundle_id@, doc@),
{
    let bundle_uuid = match parse_uuid(bundle_id) {
        Some(u) => u,
        None => fresh_uuid(),
    };
    let source = doc.str_field_or("source", "unknown");
    let inner = match doc.get("bundle") {
        Some(b) => b,
        None => doc,
    };
    let asset_type = opt_string(inner.str_field("asset_type"));
    let asset_name = opt_string(inner.str_field("asset_name"));
    let validation = match doc.get("validation") {
        Some(v) => v.duplicate(),
        None => {
            let empty: Vec<(String, JsonValue)> = Vec::new();
            let v = JsonValue::Object(empty);
            assert(v@->Object_0 =~= Seq::<(Seq<char>, JsonView)>::empty());
            v
        },
    };
    let mut findings: Vec<FindingRow> = Vec::new();
    match inner.array_field("findings") {
        Some(fs) => {
            let ghost views = fs@.map_values(|x: JsonValue| x@);
            let mut i: usize = 0;
            while i < fs.len()
                invariant
                    i <= fs@.len(),
                    views == fs@.map_values(|x: JsonValue| x@),
                    findings@.len() == i,
                    forall|j: int| 0 <= j < i ==> finding_row_matches(#[trigger] findings@[j], views[j]),
                decreases fs.len() - i,
            {
                findings.push(finding_row(&fs[i]));
                i = i + 1;
            }
        },
        None => {},
    }
    EvidenceRows {
        bundle_id: bundle_uuid,
        project_id: string_of(project_id),
        source,
        asset_type,
        asset_name,
        bundle: inner.duplicate(),
        validation,
        findings,
    }
}

// ---------------------------------------------------------------------------
// Risk brief
// ---------------------------------------------------------------------------

pub open spec fn system_prompt_text() -> Seq<char> {
    "당신은 GRC 보안 리스크 분석가입니다. 원본 소스코드를 요구하거나 추측하지 말고, 제공된 evidence bundle 안의 근거만 사용하세요. 한국어로 8개 bullet 이하의 간결한 executive brief를 작성하고, 이모지와 사고 과정은 출력하지 마세요."@
}

/// The analyst instructions given to the model.
pub fn system_prompt() -> (r: &'static str)
    ensures
        r@ == system_prompt_text(),
{
    "당신은 GRC 보안 리스크 분석가입니다. 원본 소스코드를 요구하거나 추측하지 말고, 제공된 evidence bundle 안의 근거만 사용하세요. 한국어로 8개 bullet 이하의 간결한 executive brief를 작성하고, 이모지와 사고 과정은 출력하지 마세요."
}

pub open spec fn user_prompt_text(language: Seq<char>, bundle_text: Seq<char>) -> Seq<char> {
    "언어: "@ + language + "\n\n다음 evidence bundle을 기반으로 리스크 브리프를 작성하세요.\n\n"@ + bundle_text
}

/// The request to the model: the language, then the bundle's JSON text.
pub fn user_prompt(language: &str, bundle_text: &str) -> (r: String)
    ensures
        r@ == user_prompt_text(language@, bundle_text@),
{
    let mut s = string_of("언어: ");
    push_str(&mut s, language);
    push_str(&mut s, "\n\n다음 evidence bundle을 기반으로 리스크 브리프를 작성하세요.\n\n");
    push_str(&mut s, bundle_text);
    s
}

pub open spec fn thinking_json(enable: bool) -> JsonView {
    JsonView::Object(seq![("enable_thinking"@, JsonView::Bool(enable))])
}

pub open spec fn completion_json(model: Seq<char>, max_tokens: u64, thinking: bool, user: Seq<char>) -> JsonView {
    JsonView::Object(
        seq![
            ("model"@, JsonView::Str(model)),
            (
                "messages"@,
                JsonView::Array(
                    seq![
                        JsonView::Object(
                            seq![("role"@, JsonView::Str("system"@)), ("content"@, JsonView::Str(system_prompt_text()))],
                        ),
                        JsonView::Object(seq![("role"@, JsonView::Str("user"@)), ("content"@, JsonView::Str(user))]),
                    ],
                ),
            ),
            ("temperature"@, JsonView::Number(NumberView::Fraction("0.1"@))),
            ("max_tokens"@, JsonView::Number(NumberView::Unsigned(max_tokens))),
            ("chat_template_kwargs"@, thinking_json(thinking)),
            ("extra_body"@, JsonView::Object(seq![("chat_template_kwargs"@, thinking_json(thinking))])),
        ],
    )
}

fn thinking_value(enable: bool) -> (r: JsonValue)
    ensures
        r@ == thinking_json(enable),
{
    let mut m: Vec<(String, JsonValue)> = Vec::new();
    put(&mut m, "enable_thinking", JsonValue::Bool(enable));
    proof {
        lemma_object_view(m);
        assert(members_view(m@) =~= thinking_json(enable)->Object_0);
    }
    JsonValue::Object(m)
}

fn message_value(role: &str, content: &str) -> (r: JsonValue)
    ensures
        r@ == JsonView::Object(seq![("role"@, JsonView::Str(role@)), ("content"@, JsonView::Str(content@))]),
{
    let mut m: Vec<(String, JsonValue)> = Vec::new();
    put(&mut m, "role", JsonValue::string(role));
    put(&mut m, "content", JsonValue::string(content));
    proof {
        lemma_object_view(m);
        assert(members_view(m@) =~= seq![("role"@, JsonView::Str(role@)), ("content"@, JsonView::Str(content@))]);
    }
    JsonValue::Object(m)
}

impl ClientSettings {
    /// The chat-completion request for a brief (temperature 0.1).
    pub fn completion_body(&self, user: &str) -> (r: JsonValue)
        ensures
            r@ == completion_json(self.llm_model@, self.llm_max_tokens, self.llm_enable_thinking, user@),
    {
        let mut msgs: Vec<JsonValue> = Vec::new();
        msgs.push(message_value("system", system_prompt()));
        msgs.push(message_value("user", user));
        proof {
            lemma_array_view(msgs);
            assert(msgs@.map_values(|x: JsonValue| x@) =~= completion_json(
                self.llm_model@,
                self.llm_max_tokens,
                self.llm_enable_thinking,
                user@,
            )->Object_0[1].1->Array_0);
        }
        let mut extra: Vec<(String, JsonValue)> = Vec::new();
        put(&mut extra, "chat_template_kwargs", thinking_value(self.llm_enable_thinking));
        proof {
            lemma_object_view(extra);
            assert(members_view(extra@) =~= seq![("chat_template_kwargs"@, thinking_json(self.llm_enable_thinking))]);
        }
        let mut m: Vec<(String, JsonValue)> = Vec::new();
        put(&mut m, "model", JsonValue::string(self.llm_model.as_str()));
        put(&mut m, "messages", JsonValue::Array(msgs));
        put(&mut m, "temperature", JsonValue::Number(JsonNumber::Fraction(string_of("0.1"))));
        put(&mut m, "max_tokens", JsonValue::Number(JsonNumber::Unsigned(self.llm_max_tokens)));
        put(&mut m, "chat_template_kwargs", thinking_value(self.llm_enable_thinking));
        put(&mut m, "extra_body", JsonValue::Object(extra));
        proof {
            lemma_object_view(m);
            assert(members_view(m@) =~= completion_json(
                self.llm_model@,
                self.llm_max_tokens,
                self.llm_enable_thinking,
                user@,
            )->Object_0);
        }
        JsonValue::Object(m)
    }
}

/// `choices[0].message.content` of a chat-completion response.
pub open spec fn reply_content(parsed: JsonView) -> Option<Seq<char>> {
    match parsed.array_at("choices"@) {
        Some(cs) => if cs.len() > 0 {
            match cs[0].lookup("message"@) {
                Some(m) => m.str_at("content"@),
                None => None,
            }
        } else {
            None
        },
        None => None,
    }
}

pub open spec fn missing_content_text() -> Seq<char> {
    "LLM 응답에서 message.content를 찾지 못했습니다."@
}

/// The brief in a chat-completion response; a response without it is an
/// internal error.
pub fn brief_content(parsed: &JsonValue) -> (r: Result<String, McpError>)
    ensures
        match reply_content(parsed@) {
            Some(c) => r matches Ok(s) && s@ == c,
            None => r matches Err(McpError::System(SystemError::Internal(m))) && m@ == missing_content_text(),
        },
{
    let missing = McpError::System(SystemError::Internal(string_of("LLM 응답에서 message.content를 찾지 못했습니다.")));
    match parsed.array_field("choices") {
        Some(cs) => {
            if cs.len() > 0 {
                assert(cs@.map_values(|x: JsonValue| x@)[0] == cs@[0]@);
                match cs[0].get("message") {
                    Some(m) => match m.str_field("content") {
                        Some(c) => Ok(string_of(c)),
                        None => Err(missing),
                    },
                    None => Err(missing),
                }
            } else {
                Err(missing)
            }
        },
        None => Err(missing),
    }
}

/// The database records a finding with the same lowercased severity and
/// category, title and control candidates that `map_findings_to_controls`
/// reports for it.
pub proof fn law_recorded_controls_match_mapping(row: FindingRow, m: FindingMapping, index: nat, f: JsonView)
    requires
        finding_row_matches(row, f),
        mapping_matches(m, index, f),
    ensures
        row.severity@ == m.severity@,
        row.category@ == m.category@,
        row.title@ == m.title@,
        control_rows_view(row.controls@) == candidates_view(m.controls@),
{
}

pub open spec fn is_segment_char(c: char) -> bool {
    is_ascii_alnum(c) || c == '-' || c == '_' || c == '.'
}

/// A sanitized value is one non-empty path segment that names an entry
/// inside its directory: only ASCII letters, digits, `-`, `_` and `.`
/// (never a `/`), never `.` or `..`, and sanitizing it again changes nothing.
pub proof fn law_safe_segment(s: Seq<char>)
    ensures
        safe_segment(s).len() > 0,
        forall|i: int| 0 <= i < safe_segment(s).len() ==> is_segment_char(#[trigger] safe_segment(s)[i]),
        !safe_segment(s).contains('/'),
        safe_segment(s) != "."@,
        safe_segment(s) != ".."@,
        safe_segment(safe_segment(s)) == safe_segment(s),
{
    reveal_strlit("unknown");
    reveal_strlit(".");
    reveal_strlit("..");
    reveal_strlit("_");
    reveal_strlit("__");
    let t = safe_segment(s);
    assert forall|i: int| 0 <= i < t.len() implies is_segment_char(#[trigger] t[i]) by {
        if s.len() > 0 && mapped_segment(s) != "."@ && mapped_segment(s) != ".."@ {
            assert(t[i] == segment_char(s[i]));
        }
    }
    assert(mapped_segment(t) =~= t);
    assert("unknown"@.len() == 7 && "."@.len() == 1 && ".."@.len() == 2);
    assert("_"@[0] != "."@[0]);
    assert("__"@[0] != ".."@[0]);
    if t.contains('/') {
        let i = choose|i: int| 0 <= i < t.len() && t[i] == '/';
        assert(is_segment_char(t[i]));
    }
    assert(safe_segment(t) =~= t);
}

/// An endpoint never ends its base with a slash before the path is added.
pub proof fn law_trimmed_base(base: Seq<char>)
    ensures
        trim_slashes(base).len() == 0 || trim_slashes(base).last() != '/',
        trim_slashes(trim_slashes(base)) == trim_slashes(base),
    decreases base.len(),
{
    if base.len() > 0 && base.last() == '/' {
        law_trimmed_base(base.drop_last());
    }
}

} // verus!
