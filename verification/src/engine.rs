//! The per-query orchestration decisions.
//!
//! For each inbound query the orchestrator captures the current instant,
//! resolves the blocked zones for the query's source address, and then acts
//! on the plan computed here: answer with a structurally empty success when
//! a zone covers the name, forward upstream otherwise.  When the policy
//! store cannot be read the query is forwarded — the design fails open, so
//! an outage of the policy store never becomes a resolution outage.  The
//! upstream resolver's outcome maps onto a reply: records are relayed, "no
//! records found" is a valid empty answer, and any other failure surfaces
//! as a server-failure response — no query is left unanswered.

use crate::zone::{decide, spec_decide, Verdict};
use vstd::prelude::*;

verus! {

/// What the orchestrator does with one inbound query.
#[derive(Clone, Copy, Debug, PartialEq, Eq, Structural)]
pub enum QueryPlan {
    /// Answer at once with an empty, non-authoritative success.
    RespondBlocked,
    /// Forward to the upstream resolver and relay what comes back.
    Forward,
}

/// How one forwarded query is answered, from the upstream outcome.
#[derive(Clone, Copy, Debug, PartialEq, Eq, Structural)]
pub enum UpstreamOutcome {
    /// The upstream resolver returned records.
    Answered,
    /// The upstream resolver found no records for the name.
    NoRecords,
    /// The upstream resolution failed in any other way.
    Failed,
}

/// The reply owed to the querying client for one forwarded query.
#[derive(Clone, Copy, Debug, PartialEq, Eq, Structural)]
pub enum DnsReply {
    /// Relay the records the upstream resolver returned.
    Relay,
    /// Answer with an empty, non-authoritative success.
    EmptyAnswer,
    /// Answer with a server-failure response code.
    ServFail,
}

/// The plan for a query name against resolved zones: respond blocked
/// exactly when the decision engine says `Block`.
pub open spec fn spec_plan(q: Seq<char>, zones: Seq<Seq<char>>) -> QueryPlan {
    if spec_decide(q, zones) == Verdict::Block {
        QueryPlan::RespondBlocked
    } else {
        QueryPlan::Forward
    }
}

/// The reply for each upstream outcome: relay records, treat "no records
/// found" as a valid empty answer, surface every other failure as a
/// server failure.
pub open spec fn spec_reply(outcome: UpstreamOutcome) -> DnsReply {
    match outcome {
        UpstreamOutcome::Answered => DnsReply::Relay,
        UpstreamOutcome::NoRecords => DnsReply::EmptyAnswer,
        UpstreamOutcome::Failed => DnsReply::ServFail,
    }
}

/// Plans one inbound query from what the blocklist resolver produced.  A
/// failed resolution plans a forward: when the policy cannot be determined
/// the design fails open rather than blocking.
pub fn plan_query<E>(lookup: &Result<Vec<String>, E>, query: &str) -> (p: QueryPlan)
    ensures
        (match lookup {
            Ok(zones) => p == spec_plan(query@, zones@.map_values(|z: String| z@)),
            Err(_) => p == QueryPlan::Forward,
        }),
{
    match lookup {
        Ok(zones) => match decide(query, zones) {
            Verdict::Block => QueryPlan::RespondBlocked,
            Verdict::Allow => QueryPlan::Forward,
        },
        Err(_) => QueryPlan::Forward,
    }
}

/// Maps the outcome of one forwarded query to the reply owed to the client.
pub fn reply_for_upstream(outcome: UpstreamOutcome) -> (r: DnsReply)
    ensures
        r == spec_reply(outcome),
{
    match outcome {
        UpstreamOutcome::Answered => DnsReply::Relay,
        UpstreamOutcome::NoRecords => DnsReply::EmptyAnswer,
        UpstreamOutcome::Failed => DnsReply::ServFail,
    }
}

} // verus!
