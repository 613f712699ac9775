//! `verify_dlp_policy`: checks source code or a diff against the DLP and
//! secure-design rules of the Sentinel service, and renders its verdict as a
//! Markdown report.
use vstd::prelude::*;
use crate::json::{JsonValue, JsonView, members_view, put};
use crate::mcp::protocol::{McpError, ParamError};
use crate::mcp::types::{DescriptorView, ToolAnnotations, ToolDescriptor};
use crate::tools::schema::{names1, object_schema, object_schema_json, prop, prop_json, prop_with};
use crate::text::{
    decimal, lowercase, push_decimal, push_str, str_eq, string_of, to_lowercase, to_uppercase,
    trim_seq, trim_str, uppercase,
};

verus! {

broadcast use vstd::string::group_string_axioms;

/// `verify_dlp_policy`.
pub struct VerifyDlpPolicyTool;

/// What the tool sends to the scanner.
#[derive(Debug, Clone)]
pub struct ScanRequest {
    pub code: String,
    pub mode: String,
    pub auto_fix: bool,
}

/// The label of a (lowercased) verdict.
pub open spec fn verdict_label(v: Seq<char>) -> Seq<char> {
    if v == "safe"@ {
        "✅ SAFE (보안 통과)"@
    } else if v == "warn"@ {
        "⚠️ WARN (주의/수정 권고)"@
    } else if v == "block"@ {
        "🚫 BLOCK (정책 위반으로 제출 차단)"@
    } else {
        "❓ UNKNOWN (판정 알 수 없음)"@
    }
}

fn verdict_label_of(v: &str) -> (r: &'static str)
    ensures
        r@ == verdict_label(v@),
{
    if str_eq(v, "safe") {
        "✅ SAFE (보안 통과)"
    } else if str_eq(v, "warn") {
        "⚠️ WARN (주의/수정 권고)"
    } else if str_eq(v, "block") {
        "🚫 BLOCK (정책 위반으로 제출 차단)"
    } else {
        "❓ UNKNOWN (판정 알 수 없음)"
    }
}

/// A line number, or `N/A` when the item has none.
pub open spec fn line_text(item: JsonView) -> Seq<char> {
    match item.u64_at("line"@) {
        Some(n) => decimal(n as nat),
        None => "N/A"@,
    }
}

fn push_line(s: &mut String, item: &JsonValue)
    ensures
        final(s)@ == old(s)@ + line_text(item@),
{
    match item.u64_field("line") {
        Some(n) => push_decimal(s, n),
        None => push_str(s, "N/A"),
    }
}

pub open spec fn report_head(response: JsonView) -> Seq<char> {
    "# 🛡️ GoVail Sentinel DLP 검증 결과\n\n- **최종 보안 판정**: `"@ + verdict_label(
        lowercase(response.str_or("verdict"@, "unknown"@)),
    ) + "`\n"@
}

pub open spec fn count_or_zero(stats: JsonView, key: Seq<char>) -> nat {
    match stats.u64_at(key) {
        Some(n) => n as nat,
        None => 0,
    }
}

/// The statistics lines, present when the response has a `stats` member.
pub open spec fn stats_section(response: JsonView, duration_text: Seq<char>) -> Seq<char> {
    match response.lookup("stats"@) {
        Some(stats) => "- **발견된 위반 건수**: `"@ + decimal(count_or_zero(stats, "violations_found"@))
            + "`건 (Critical: `"@ + decimal(count_or_zero(stats, "critical_count"@)) + "`, Warning: `"@
            + decimal(count_or_zero(stats, "warning_count"@)) + "`)\n- **검사 소요 시간**: `"@
            + duration_text + " ms`\n\n"@,
        None => Seq::empty(),
    }
}

/// The block of the violation at position `i` (numbered from 1).
pub open spec fn violation_block(i: nat, v: JsonView) -> Seq<char> {
    "### "@ + decimal(i + 1) + ". `"@ + v.str_or("rule"@, "unknown-rule"@) + "` ["@ + uppercase(
        v.str_or("severity"@, "info"@),
    ) + "]\n"@ + "- **대상**: 파일 `"@ + v.str_or("file"@, "N/A"@) + "` (라인 `"@ + line_text(v)
        + "`)\n"@ + "- **내용**: "@ + v.str_or("description"@, ""@) + "\n"@ + "- **해결 방안 가이드**: "@
        + v.str_or("suggestion"@, "-"@) + "\n\n"@
}

pub open spec fn violation_blocks(vs: Seq<JsonView>, n: int) -> Seq<char>
    decreases n,
{
    if n <= 0 || n > vs.len() {
        Seq::empty()
    } else {
        violation_blocks(vs, n - 1) + violation_block((n - 1) as nat, vs[n - 1])
    }
}

pub open spec fn violations_section(response: JsonView) -> Seq<char> {
    match response.array_at("violations"@) {
        Some(vs) => if vs.len() > 0 {
            "## 🚨 검출된 보안/설계 규칙 위반 목록\n\n"@ + violation_blocks(vs, vs.len() as int)
        } else {
            Seq::empty()
        },
        None => Seq::empty(),
    }
}

/// The block of one suggested fix: a diff when the original text is known,
/// else the replacement as guidance.
pub open spec fn fix_block(f: JsonView) -> Seq<char> {
    let orig = f.str_or("original"@, ""@);
    let repl = f.str_or("replacement"@, ""@);
    "### 📂 파일: `"@ + f.str_or("file"@, "unknown"@) + "` (라인: `"@ + line_text(f) + "`)\n"@
        + "- **원인**: "@ + f.str_or("reason"@, ""@) + "\n"@ + if orig.len() > 0 {
        "```diff\n- "@ + trim_seq(orig) + "\n+ "@ + trim_seq(repl) + "\n```\n\n"@
    } else {
        "```text\n(가이드라인 및 추가 제안):\n"@ + repl + "\n```\n\n"@
    }
}

pub open spec fn fix_blocks(fs: Seq<JsonView>, n: int) -> Seq<char>
    decreases n,
{
    if n <= 0 || n > fs.len() {
        Seq::empty()
    } else {
        fix_blocks(fs, n - 1) + fix_block(fs[n - 1])
    }
}

pub open spec fn fixes_section(response: JsonView) -> Seq<char> {
    match response.array_at("fixes"@) {
        Some(fs) => if fs.len() > 0 {
            "## 💡 권장 수정 제안 (Auto-Fix Suggestions)\n\n"@ + fix_blocks(fs, fs.len() as int)
        } else {
            Seq::empty()
        },
        None => Seq::empty(),
    }
}

/// The whole report for a scanner response.
pub open spec fn dlp_report(response: JsonView, duration_text: Seq<char>) -> Seq<char> {
    report_head(response) + stats_section(response, duration_text) + violations_section(response)
        + fixes_section(response)
}

fn push_violation(s: &mut String, i: usize, v: &JsonValue)
    requires
        i < u64::MAX,
    ensures
        final(s)@ == old(s)@ + violation_block(i as nat, v@),
{
    push_str(s, "### ");
    push_decimal(s, i as u64 + 1);
    push_str(s, ". `");
    push_str(s, v.str_field_or("rule", "unknown-rule").as_str());
    push_str(s, "` [");
    push_str(s, to_uppercase(v.str_field_or("severity", "info").as_str()).as_str());
    push_str(s, "]\n");
    push_str(s, "- **대상**: 파일 `");
    push_str(s, v.str_field_or("file", "N/A").as_str());
    push_str(s, "` (라인 `");
    push_line(s, v);
    push_str(s, "`)\n");
    push_str(s, "- **내용**: ");
    push_str(s, v.str_field_or("description", "").as_str());
    push_str(s, "\n");
    push_str(s, "- **해결 방안 가이드**: ");
    push_str(s, v.str_field_or("suggestion", "-").as_str());
    push_str(s, "\n\n");
    assert(final(s)@ =~= old(s)@ + violation_block(i as nat, v@));
}

fn push_fix(s: &mut String, f: &JsonValue)
    ensures
        final(s)@ == old(s)@ + fix_block(f@),
{
    let orig = f.str_field_or("original", "");
    let repl = f.str_field_or("replacement", "");
    push_str(s, "### 📂 파일: `");
    push_str(s, f.str_field_or("file", "unknown").as_str());
    push_str(s, "` (라인: `");
    push_line(s, f);
    push_str(s, "`)\n");
    push_str(s, "- **원인**: ");
    push_str(s, f.str_field_or("reason", "").as_str());
    push_str(s, "\n");
    if !orig.as_str().is_empty() {
        push_str(s, "```diff\n- ");
        push_str(s, trim_str(orig.as_str()).as_str());
        push_str(s, "\n+ ");
        push_str(s, trim_str(repl.as_str()).as_str());
        push_str(s, "\n```\n\n");
    } else {
        push_str(s, "```text\n(가이드라인 및 추가 제안):\n");
        push_str(s, repl.as_str());
        push_str(s, "\n```\n\n");
    }
    assert(final(s)@ =~= old(s)@ + fix_block(f@));
}

impl VerifyDlpPolicyTool {
    pub fn new() -> (r: Self) {
        VerifyDlpPolicyTool
    }

    pub fn name(&self) -> (r: &'static str)
        ensures
            r@ == "verify_dlp_policy"@,
    {
        "verify_dlp_policy"
    }

    pub fn description(&self) -> (r: &'static str)
        ensures
            r@ == "소스코드 또는 Git Diff 텍스트를 검증하여 GoVail DLP(기밀 문자열 누출 방지) 및 보안 설계 원칙 위반 여부를 검사합니다."@,
    {
        "소스코드 또는 Git Diff 텍스트를 검증하여 GoVail DLP(기밀 문자열 누출 방지) 및 보안 설계 원칙 위반 여부를 검사합니다."
    }

    pub fn annotations(&self) -> (r: ToolAnnotations)
        ensures
            r.read_only_hint == Some(true) && r.idempotent_hint == Some(true),
            r.destructive_hint is None && r.open_world_hint is None,
    {
        ToolAnnotations::read_only()
    }

    /// The scan to request: `code` is required; `mode` defaults to `full`
    /// and `auto_fix` to `true`.
    pub fn scan_request(&self, params: &JsonValue) -> (r: Result<ScanRequest, McpError>)
        ensures
            match r {
                Ok(q) => params@.str_at("code"@) == Some(q.code@) && q.mode@ == params@.str_or(
                    "mode"@,
                    "full"@,
                ) && q.auto_fix == match params@.bool_at("auto_fix"@) {
                    Some(b) => b,
                    None => true,
                },
                Err(McpError::Param(ParamError::Missing { field })) => params@.str_at("code"@) is None
                    && field@ == "code"@,
                _ => false,
            },
    {
        let code = match params.str_field("code") {
            Some(c) => string_of(c),
            None => {
                return Err(McpError::missing("code"));
            },
        };
        let mode = params.str_field_or("mode", "full");
        let auto_fix = match params.bool_field("auto_fix") {
            Some(b) => b,
            None => true,
        };
        Ok(ScanRequest { code, mode, auto_fix })
    }

    /// The Markdown report of a scanner response. `duration_text` is the
    /// scan duration in milliseconds with two decimals, as rendered by the
    /// caller.
    pub fn report(response: &JsonValue, duration_text: &str) -> (r: String)
        ensures
            r@ == dlp_report(response@, duration_text@),
    {
        let verdict = to_lowercase(response.str_field_or("verdict", "unknown").as_str());
        let mut report = string_of("# 🛡️ GoVail Sentinel DLP 검증 결과\n\n- **최종 보안 판정**: `");
        push_str(&mut report, verdict_label_of(verdict.as_str()));
        push_str(&mut report, "`\n");
        assert(report@ =~= report_head(response@));
        match response.get("stats") {
            Some(stats) => {
                push_str(&mut report, "- **발견된 위반 건수**: `");
                push_decimal(&mut report, match stats.u64_field("violations_found") { Some(n) => n, None => 0 });
                push_str(&mut report, "`건 (Critical: `");
                push_decimal(&mut report, match stats.u64_field("critical_count") { Some(n) => n, None => 0 });
                push_str(&mut report, "`, Warning: `");
                push_decimal(&mut report, match stats.u64_field("warning_count") { Some(n) => n, None => 0 });
                push_str(&mut report, "`)\n- **검사 소요 시간**: `");
                push_str(&mut report, duration_text);
                push_str(&mut report, " ms`\n\n");
            },
            None => {},
        }
        assert(report@ =~= report_head(response@) + stats_section(response@, duration_text@));
        let ghost after_stats = report@;
        match response.array_field("violations") {
            Some(vs) => {
                if vs.len() > 0 {
                    push_str(&mut report, "## 🚨 검출된 보안/설계 규칙 위반 목록\n\n");
                    let ghost views = vs@.map_values(|x: JsonValue| x@);
                    let ghost base = report@;
                    let mut i: usize = 0;
                    while i < vs.len()
                        invariant
                            i <= vs@.len(),
                            views == vs@.map_values(|x: JsonValue| x@),
                            report@ == base + violation_blocks(views, i as int),
                        decreases vs.len() - i,
                    {
                        push_violation(&mut report, i, &vs[i]);
                        i = i + 1;
                    }
                }
            },
            None => {},
        }
        assert(report@ =~= after_stats + violations_section(response@));
        let ghost after_violations = report@;
        match response.array_field("fixes") {
            Some(fs) => {
                if fs.len() > 0 {
                    push_str(&mut report, "## 💡 권장 수정 제안 (Auto-Fix Suggestions)\n\n");
                    let ghost views = fs@.map_values(|x: JsonValue| x@);
                    let ghost base = report@;
                    let mut i: usize = 0;
                    while i < fs.len()
                        invariant
                            i <= fs@.len(),
                            views == fs@.map_values(|x: JsonValue| x@),
                            report@ == base + fix_blocks(views, i as int),
                        decreases fs.len() - i,
                    {
                        push_fix(&mut report, &fs[i]);
                        i = i + 1;
                    }
                }
            },
            None => {},
        }
        assert(report@ =~= after_violations + fixes_section(response@));
        report
    }
}

pub open spec fn dlp_policy_descriptor() -> DescriptorView {
    DescriptorView {
        name: "verify_dlp_policy"@,
        description: "소스코드 또는 Git Diff 텍스트를 검증하여 GoVail DLP(기밀 문자열 누출 방지) 및 보안 설계 원칙 위반 여부를 검사합니다."@,
        input_schema: dlp_policy_schema(),
        annotations: ToolAnnotations { read_only_hint: Some(true), destructive_hint: None, idempotent_hint: Some(true), open_world_hint: None },
    }
}

pub open spec fn dlp_policy_schema() -> JsonView {
    object_schema_json(seq![("code"@, prop_json("string"@, "검증할 소스코드 원문 또는 Git Diff 텍스트"@, Seq::empty())), ("mode"@, prop_json("string"@, "스캔 모드: static (정적 검사만), llm (보안 모델 검사만), full (정적+LLM)"@, seq![("enum"@, JsonView::Array(seq![JsonView::Str("static"@), JsonView::Str("llm"@), JsonView::Str("full"@)]))])), ("auto_fix"@, prop_json("boolean"@, "규칙 위반 발견 시 해결하기 위한 AI 자동 수정본 생성 여부 (기본값: true)"@, Seq::empty()))], seq!["code"@])
}

impl VerifyDlpPolicyTool {
    /// The JSON Schema of the tool's parameters.
    pub fn input_schema(&self) -> (r: JsonValue)
        ensures
            r@ == dlp_policy_schema(),
    {
        let mut props: Vec<(String, JsonValue)> = Vec::new();
        put(&mut props, "code", prop("string", "검증할 소스코드 원문 또는 Git Diff 텍스트"));
        let mut extra1: Vec<(String, JsonValue)> = Vec::new();
        let mut names: Vec<String> = Vec::new();
        names.push(string_of("static"));
        names.push(string_of("llm"));
        names.push(string_of("full"));
        let choices = JsonValue::strings(&names);
        proof { assert(choices@->Array_0 =~= seq![JsonView::Str("static"@), JsonView::Str("llm"@), JsonView::Str("full"@)]); }
        put(&mut extra1, "enum", choices);
        proof { assert(members_view(extra1@) =~= seq![("enum"@, JsonView::Array(seq![JsonView::Str("static"@), JsonView::Str("llm"@), JsonView::Str("full"@)]))]); }
        put(&mut props, "mode", prop_with("string", "스캔 모드: static (정적 검사만), llm (보안 모델 검사만), full (정적+LLM)", extra1));
        put(&mut props, "auto_fix", prop("boolean", "규칙 위반 발견 시 해결하기 위한 AI 자동 수정본 생성 여부 (기본값: true)"));
        let ghost pv = members_view(props@);
        proof { assert(pv =~= seq![("code"@, prop_json("string"@, "검증할 소스코드 원문 또는 Git Diff 텍스트"@, Seq::empty())), ("mode"@, prop_json("string"@, "스캔 모드: static (정적 검사만), llm (보안 모델 검사만), full (정적+LLM)"@, seq![("enum"@, JsonView::Array(seq![JsonView::Str("static"@), JsonView::Str("llm"@), JsonView::Str("full"@)]))])), ("auto_fix"@, prop_json("boolean"@, "규칙 위반 발견 시 해결하기 위한 AI 자동 수정본 생성 여부 (기본값: true)"@, Seq::empty()))]); }
        let required = names1("code");
        object_schema(props, &required)
    }

    /// What the registry lists for this tool.
    pub fn descriptor(&self) -> (r: ToolDescriptor)
        ensures
            r@ == dlp_policy_descriptor(),
    {
        ToolDescriptor {
            name: string_of(self.name()),
            description: string_of(self.description()),
            input_schema: self.input_schema(),
            annotations: self.annotations(),
        }
    }
}

} // verus!
