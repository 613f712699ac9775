//! The tools that the server exposes, and the guardrails around them.
pub mod grc;
pub mod guardrails;
pub mod memory;
pub mod runtime;
pub mod schema;
pub mod sentinel;

use vstd::prelude::*;
use crate::mcp::registry::{registered_all, ToolRegistry};
use crate::mcp::types::DescriptorView;
use self::grc::{
    map_findings_descriptor, risk_brief_descriptor, submit_bundle_descriptor,
    validate_bundle_descriptor, GenerateRiskBriefTool, MapFindingsToControlsTool,
    SubmitEvidenceBundleTool, ValidateEvidenceBundleTool,
};
use self::memory::{search_context_descriptor, SearchGovailContextTool};
use self::runtime::{
    job_status_descriptor, trigger_job_descriptor, GetGovailJobStatusTool, TriggerGovailJobTool,
};
use self::sentinel::{dlp_policy_descriptor, VerifyDlpPolicyTool};

verus! {

/// The server's tools, in the order they are registered.
pub open spec fn standard_tools() -> Seq<DescriptorView> {
    seq![
        search_context_descriptor(),
        trigger_job_descriptor(),
        job_status_descriptor(),
        dlp_policy_descriptor(),
        validate_bundle_descriptor(),
        submit_bundle_descriptor(),
        map_findings_descriptor(),
        risk_brief_descriptor(),
    ]
}

/// Registers every tool of the server.
pub fn register_all(registry: &mut ToolRegistry)
    requires
        old(registry).well_formed(),
    ensures
        final(registry).well_formed(),
        final(registry)@ == registered_all(old(registry)@, standard_tools()),
{
    let ghost s0 = registry@;
    registry.register(SearchGovailContextTool::new().descriptor());
    let ghost s1 = registry@;
    registry.register(TriggerGovailJobTool::new().descriptor());
    let ghost s2 = registry@;
    registry.register(GetGovailJobStatusTool::new().descriptor());
    let ghost s3 = registry@;
    registry.register(VerifyDlpPolicyTool::new().descriptor());
    let ghost s4 = registry@;
    registry.register(ValidateEvidenceBundleTool::new().descriptor());
    let ghost s5 = registry@;
    registry.register(SubmitEvidenceBundleTool::new().descriptor());
    let ghost s6 = registry@;
    registry.register(MapFindingsToControlsTool::new().descriptor());
    let ghost s7 = registry@;
    registry.register(GenerateRiskBriefTool::new().descriptor());
    proof {
        let ds = standard_tools();
        reveal_with_fuel(registered_all, 9);
        assert(ds.take(0) =~= Seq::<DescriptorView>::empty());
        assert(registered_all(s0, ds.take(1)) == s1) by {
            assert(ds.take(1).drop_last() =~= ds.take(0));
        }
        assert(registered_all(s0, ds.take(2)) == s2) by {
            assert(ds.take(2).drop_last() =~= ds.take(1));
        }
        assert(registered_all(s0, ds.take(3)) == s3) by {
            assert(ds.take(3).drop_last() =~= ds.take(2));
        }
        assert(registered_all(s0, ds.take(4)) == s4) by {
            assert(ds.take(4).drop_last() =~= ds.take(3));
        }
        assert(registered_all(s0, ds.take(5)) == s5) by {
            assert(ds.take(5).drop_last() =~= ds.take(4));
        }
        assert(registered_all(s0, ds.take(6)) == s6) by {
            assert(ds.take(6).drop_last() =~= ds.take(5));
        }
        assert(registered_all(s0, ds.take(7)) == s7) by {
            assert(ds.take(7).drop_last() =~= ds.take(6));
        }
        assert(ds.take(8).drop_last() =~= ds.take(7));
        assert(ds.take(8) =~= ds);
    }
}

} // verus!
