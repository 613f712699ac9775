//! Interoperability contracts shared by MCP tools: resource identities,
//! provenance and freshness of retrieved context, capability metadata for
//! governance, and the standard tool error envelope.
use vstd::prelude::*;
use crate::ambient::now_rfc3339;
use crate::json::{lemma_object_view, members_view, put, JsonValue, JsonView};
use crate::text::string_of;

verus! {

/// Identifies a resource by its source system, type and id.
#[derive(Debug, Clone, PartialEq, Eq)]
pub struct ResourceIdentity {
    pub source: String,
    pub resource_type: String,
    pub id: String,
}

impl ResourceIdentity {
    pub fn new(source: &str, resource_type: &str, id: &str) -> (r: Self)
        ensures
            r.source@ == source@,
            r.resource_type@ == resource_type@,
            r.id@ == id@,
    {
        ResourceIdentity { source: string_of(source), resource_type: string_of(resource_type), id: string_of(id) }
    }

    /// The JSON form: `{"source", "resource_type", "id"}`.
    pub open spec fn json_view(&self) -> JsonView {
        JsonView::Object(
            seq![
                ("source"@, JsonView::Str(self.source@)),
                ("resource_type"@, JsonView::Str(self.resource_type@)),
                ("id"@, JsonView::Str(self.id@)),
            ],
        )
    }

    pub fn to_json(&self) -> (r: JsonValue)
        ensures
            r@ == self.json_view(),
    {
        let mut m: Vec<(String, JsonValue)> = Vec::new();
        put(&mut m, "source", JsonValue::string(self.source.as_str()));
        put(&mut m, "resource_type", JsonValue::string(self.resource_type.as_str()));
        put(&mut m, "id", JsonValue::string(self.id.as_str()));
        proof {
            lemma_object_view(m);
            assert(members_view(m@) =~= self.json_view()->Object_0);
        }
        JsonValue::Object(m)
    }
}

/// Where retrieved context came from and when (RFC 3339).
#[derive(Debug, Clone, PartialEq, Eq)]
pub struct Provenance {
    pub source: String,
    pub resource: String,
    pub retrieved_at: String,
}

impl Provenance {
    /// Provenance retrieved now.
    pub fn new(source: &str, resource: &str) -> (r: Self)
        ensures
            r.source@ == source@,
            r.resource@ == resource@,
    {
        Provenance { source: string_of(source), resource: string_of(resource), retrieved_at: now_rfc3339() }
    }

    /// The JSON form: `{"source", "resource", "retrieved_at"}`.
    pub open spec fn json_view(&self) -> JsonView {
        JsonView::Object(
            seq![
                ("source"@, JsonView::Str(self.source@)),
                ("resource"@, JsonView::Str(self.resource@)),
                ("retrieved_at"@, JsonView::Str(self.retrieved_at@)),
            ],
        )
    }

    pub fn to_json(&self) -> (r: JsonValue)
        ensures
            r@ == self.json_view(),
    {
        let mut m: Vec<(String, JsonValue)> = Vec::new();
        put(&mut m, "source", JsonValue::string(self.source.as_str()));
        put(&mut m, "resource", JsonValue::string(self.resource.as_str()));
        put(&mut m, "retrieved_at", JsonValue::string(self.retrieved_at.as_str()));
        proof {
            lemma_object_view(m);
            assert(members_view(m@) =~= self.json_view()->Object_0);
        }
        JsonValue::Object(m)
    }
}

/// When context was observed (RFC 3339) and whether it is stale.
#[derive(Debug, Clone, PartialEq, Eq)]
pub struct Freshness {
    pub observed_at: String,
    pub stale: bool,
}

impl Freshness {
    /// Observed now, not stale. The observation time is the clock's reading
    /// as RFC 3339 text in UTC (ending in `Z`); which instant it is, is the
    /// clock's to say.
    pub fn fresh() -> (r: Self)
        ensures
            !r.stale,
            r.observed_at@.len() > 0,
            r.observed_at@.last() == 'Z',
    {
        Freshness { observed_at: now_rfc3339(), stale: false }
    }

    /// The JSON form: `{"observed_at", "stale"}`.
    pub open spec fn json_view(&self) -> JsonView {
        JsonView::Object(
            seq![("observed_at"@, JsonView::Str(self.observed_at@)), ("stale"@, JsonView::Bool(self.stale))],
        )
    }

    pub fn to_json(&self) -> (r: JsonValue)
        ensures
            r@ == self.json_view(),
    {
        let mut m: Vec<(String, JsonValue)> = Vec::new();
        put(&mut m, "observed_at", JsonValue::string(self.observed_at.as_str()));
        put(&mut m, "stale", JsonValue::Bool(self.stale));
        proof {
            lemma_object_view(m);
            assert(members_view(m@) =~= self.json_view()->Object_0);
        }
        JsonValue::Object(m)
    }
}

/// Whether a tool only reads or acts.
#[derive(Debug, Clone, Copy, PartialEq, Eq, Structural)]
pub enum CapabilityType {
    Read,
    Action,
}

impl CapabilityType {
    /// The name on the wire, in screaming snake case.
    pub open spec fn wire_text(self) -> Seq<char> {
        match self {
            CapabilityType::Read => "READ"@,
            CapabilityType::Action => "ACTION"@,
        }
    }

    pub fn wire_name(&self) -> (r: &'static str)
        ensures
            r@ == self.wire_text(),
    {
        match self {
            CapabilityType::Read => "READ",
            CapabilityType::Action => "ACTION",
        }
    }
}

/// Risk levels for governance checks, from low to critical.
#[derive(Debug, Clone, Copy, PartialEq, Eq, Structural)]
pub enum RiskLevel {
    Low,
    Medium,
    High,
    Critical,
}

impl RiskLevel {
    /// The name on the wire, in screaming snake case.
    pub open spec fn wire_text(self) -> Seq<char> {
        match self {
            RiskLevel::Low => "LOW"@,
            RiskLevel::Medium => "MEDIUM"@,
            RiskLevel::High => "HIGH"@,
            RiskLevel::Critical => "CRITICAL"@,
        }
    }

    pub fn wire_name(&self) -> (r: &'static str)
        ensures
            r@ == self.wire_text(),
    {
        match self {
            RiskLevel::Low => "LOW",
            RiskLevel::Medium => "MEDIUM",
            RiskLevel::High => "HIGH",
            RiskLevel::Critical => "CRITICAL",
        }
    }
}

/// The safety and governance limits of a tool.
#[derive(Debug, Clone, PartialEq, Eq)]
pub struct CapabilityMetadata {
    pub name: String,
    pub capability_type: CapabilityType,
    pub risk_level: RiskLevel,
    pub requires_approval: bool,
}

impl CapabilityMetadata {
    /// A read capability: low risk, no approval.
    pub fn read(name: &str) -> (r: Self)
        ensures
            r.name@ == name@,
            r.capability_type == CapabilityType::Read,
            r.risk_level == RiskLevel::Low,
            !r.requires_approval,
    {
        CapabilityMetadata {
            name: string_of(name),
            capability_type: CapabilityType::Read,
            risk_level: RiskLevel::Low,
            requires_approval: false,
        }
    }

    /// An action capability with the given risk and approval requirement.
    pub fn action(name: &str, risk: RiskLevel, requires_approval: bool) -> (r: Self)
        ensures
            r.name@ == name@,
            r.capability_type == CapabilityType::Action,
            r.risk_level == risk,
            r.requires_approval == requires_approval,
    {
        CapabilityMetadata {
            name: string_of(name),
            capability_type: CapabilityType::Action,
            risk_level: risk,
            requires_approval,
        }
    }

    /// The JSON form: `{"name", "capability_type", "risk_level",
    /// "requires_approval"}`, the two kinds written as `"READ"`, `"LOW"`
    /// and so on.
    pub open spec fn json_view(&self) -> JsonView {
        JsonView::Object(
            seq![
                ("name"@, JsonView::Str(self.name@)),
                ("capability_type"@, JsonView::Str(self.capability_type.wire_text())),
                ("risk_level"@, JsonView::Str(self.risk_level.wire_text())),
                ("requires_approval"@, JsonView::Bool(self.requires_approval)),
            ],
        )
    }

    pub fn to_json(&self) -> (r: JsonValue)
        ensures
            r@ == self.json_view(),
    {
        let mut m: Vec<(String, JsonValue)> = Vec::new();
        put(&mut m, "name", JsonValue::string(self.name.as_str()));
        put(&mut m, "capability_type", JsonValue::string(self.capability_type.wire_name()));
        put(&mut m, "risk_level", JsonValue::string(self.risk_level.wire_name()));
        put(&mut m, "requires_approval", JsonValue::Bool(self.requires_approval));
        proof {
            lemma_object_view(m);
            assert(members_view(m@) =~= self.json_view()->Object_0);
        }
        JsonValue::Object(m)
    }
}

/// Domain data with its provenance, freshness and capability metadata.
#[derive(Debug, Clone, PartialEq, Eq)]
pub struct ContextEnvelope<T> {
    pub data: T,
    pub provenance: Provenance,
    pub freshness: Freshness,
    pub metadata: CapabilityMetadata,
}

impl<T> ContextEnvelope<T> {
    /// Wraps data retrieved now by a read capability.
    pub fn new(data: T, source: &str, resource: &str, capability_name: &str) -> (r: Self)
        ensures
            r.data == data,
            r.provenance.source@ == source@,
            r.provenance.resource@ == resource@,
            !r.freshness.stale,
            r.metadata.name@ == capability_name@,
            r.metadata.capability_type == CapabilityType::Read,
            r.metadata.risk_level == RiskLevel::Low,
            !r.metadata.requires_approval,
    {
        ContextEnvelope {
            data,
            provenance: Provenance::new(source, resource),
            freshness: Freshness::fresh(),
            metadata: CapabilityMetadata::read(capability_name),
        }
    }
}

impl ContextEnvelope<JsonValue> {
    /// The JSON form: `{"data", "provenance", "freshness", "metadata"}`.
    pub open spec fn json_view(&self) -> JsonView {
        JsonView::Object(
            seq![
                ("data"@, self.data@),
                ("provenance"@, self.provenance.json_view()),
                ("freshness"@, self.freshness.json_view()),
                ("metadata"@, self.metadata.json_view()),
            ],
        )
    }

    pub fn to_json(&self) -> (r: JsonValue)
        ensures
            r@ == self.json_view(),
    {
        let mut m: Vec<(String, JsonValue)> = Vec::new();
        put(&mut m, "data", self.data.duplicate());
        put(&mut m, "provenance", self.provenance.to_json());
        put(&mut m, "freshness", self.freshness.to_json());
        put(&mut m, "metadata", self.metadata.to_json());
        proof {
            lemma_object_view(m);
            assert(members_view(m@) =~= self.json_view()->Object_0);
        }
        JsonValue::Object(m)
    }
}

/// Standard error codes of MCP tools.
#[derive(Debug, Clone, Copy, PartialEq, Eq, Structural)]
pub enum ErrorCode {
    ResourceNotFound,
    InvalidArguments,
    Unauthorized,
    InternalError,
}

impl ErrorCode {
    pub open spec fn text(self) -> Seq<char> {
        match self {
            ErrorCode::ResourceNotFound => "Resource not found"@,
            ErrorCode::InvalidArguments => "Invalid arguments"@,
            ErrorCode::Unauthorized => "Unauthorized"@,
            ErrorCode::InternalError => "Internal application error"@,
        }
    }

    /// The name on the wire, in screaming snake case.
    pub open spec fn wire_text(self) -> Seq<char> {
        match self {
            ErrorCode::ResourceNotFound => "RESOURCE_NOT_FOUND"@,
            ErrorCode::InvalidArguments => "INVALID_ARGUMENTS"@,
            ErrorCode::Unauthorized => "UNAUTHORIZED"@,
            ErrorCode::InternalError => "INTERNAL_ERROR"@,
        }
    }

    pub fn wire_name(&self) -> (r: &'static str)
        ensures
            r@ == self.wire_text(),
    {
        match self {
            ErrorCode::ResourceNotFound => "RESOURCE_NOT_FOUND",
            ErrorCode::InvalidArguments => "INVALID_ARGUMENTS",
            ErrorCode::Unauthorized => "UNAUTHORIZED",
            ErrorCode::InternalError => "INTERNAL_ERROR",
        }
    }

    /// The code's message.
    pub fn message(&self) -> (r: &'static str)
        ensures
            r@ == self.text(),
    {
        match self {
            ErrorCode::ResourceNotFound => "Resource not found",
            ErrorCode::InvalidArguments => "Invalid arguments",
            ErrorCode::Unauthorized => "Unauthorized",
            ErrorCode::InternalError => "Internal application error",
        }
    }
}

/// The error envelope a tool returns when it fails.
#[derive(Debug)]
pub struct ToolError {
    pub code: ErrorCode,
    pub message: String,
    pub details: Option<JsonValue>,
    pub retryable: bool,
}

impl ToolError {
    /// The resource does not exist; not worth retrying.
    pub fn not_found(msg: &str) -> (r: Self)
        ensures
            r.code == ErrorCode::ResourceNotFound,
            r.message@ == msg@,
            r.details is None,
            !r.retryable,
    {
        ToolError { code: ErrorCode::ResourceNotFound, message: string_of(msg), details: None, retryable: false }
    }

    /// The arguments are invalid; not worth retrying.
    pub fn invalid_args(msg: &str) -> (r: Self)
        ensures
            r.code == ErrorCode::InvalidArguments,
            r.message@ == msg@,
            r.details is None,
            !r.retryable,
    {
        ToolError { code: ErrorCode::InvalidArguments, message: string_of(msg), details: None, retryable: false }
    }

    /// An internal failure; worth retrying.
    pub fn internal(msg: &str) -> (r: Self)
        ensures
            r.code == ErrorCode::InternalError,
            r.message@ == msg@,
            r.details is None,
            r.retryable,
    {
        ToolError { code: ErrorCode::InternalError, message: string_of(msg), details: None, retryable: true }
    }

    /// The JSON form: `{"code", "message", "details", "retryable"}`, with
    /// `null` for absent details.
    pub open spec fn json_view(&self) -> JsonView {
        JsonView::Object(
            seq![
                ("code"@, JsonView::Str(self.code.wire_text())),
                ("message"@, JsonView::Str(self.message@)),
                ("details"@, match self.details {
                    Some(d) => d@,
                    None => JsonView::Null,
                }),
                ("retryable"@, JsonView::Bool(self.retryable)),
            ],
        )
    }

    pub fn to_json(&self) -> (r: JsonValue)
        ensures
            r@ == self.json_view(),
    {
        let mut m: Vec<(String, JsonValue)> = Vec::new();
        put(&mut m, "code", JsonValue::string(self.code.wire_name()));
        put(&mut m, "message", JsonValue::string(self.message.as_str()));
        let details = match &self.details {
            Some(d) => d.duplicate(),
            None => JsonValue::Null,
        };
        put(&mut m, "details", details);
        put(&mut m, "retryable", JsonValue::Bool(self.retryable));
        proof {
            lemma_object_view(m);
            assert(members_view(m@) =~= self.json_view()->Object_0);
        }
        JsonValue::Object(m)
    }
}

} // verus!
