//! The three-tier resolution, as a state machine: each step either asks for
//! one lookup or finishes with an endpoint or a failure.
use vstd::prelude::*;

use crate::names::{service_query, service_query_name, strip_root_label, trim_trailing_dots};

verus! {

/// The port of the secure transport, used when an address lookup decides.
pub const DEFAULT_PORT: u16 = 443;

/// The lookup tiers, tried in this order.
#[derive(Clone, Copy, Debug, PartialEq, Eq, Structural)]
pub enum LookupTier {
    ServiceRecord,
    Ipv4Address,
    Ipv6Address,
}

/// One record of a service-record lookup.
#[derive(Clone, Debug, PartialEq, Eq)]
pub struct SrvRecord {
    pub target: String,
    pub port: u16,
}

/// What a lookup gave: service records, addresses (in textual form), or a
/// failure of the lookup itself.
#[derive(Clone, Debug, PartialEq, Eq)]
pub enum LookupAnswer {
    Records(Vec<SrvRecord>),
    Addresses(Vec<String>),
    Failed,
}

/// The one failure of a resolution: no tier gave a usable record. It carries
/// the domain that was resolved.
#[derive(Clone, Debug, PartialEq, Eq)]
pub enum ResolveError {
    ResolutionFailure(String),
}

/// A lookup to perform: its tier and the name to query.
#[derive(Clone, Debug, PartialEq, Eq)]
pub struct LookupRequest {
    pub tier: LookupTier,
    pub name: String,
}

/// What a resolution does next.
#[derive(Debug, PartialEq, Eq)]
pub enum Step {
    Lookup(LookupRequest),
    Finished(Result<(String, u16), ResolveError>),
}

/// The outcome of a resolution, with strings seen as character sequences: an
/// endpoint, or a failure seen as the domain it carries.
pub type Outcome = Result<(Seq<char>, u16), Seq<char>>;

/// A step, with its strings seen as character sequences.
pub enum StepModel {
    Lookup(LookupTier, Seq<char>),
    Finished(Outcome),
}

/// The outcome of a resolution, with its strings seen as character sequences;
/// a failure is seen as the domain it carries.
pub open spec fn outcome_view(r: Result<(String, u16), ResolveError>) -> Outcome {
    match r {
        Ok((host, port)) => Ok((host@, port)),
        Err(ResolveError::ResolutionFailure(domain)) => Err(domain@),
    }
}

/// An optional endpoint, with its host seen as a character sequence.
pub open spec fn endpoint_view(e: Option<(String, u16)>) -> Option<(Seq<char>, u16)> {
    match e {
        Some((host, port)) => Some((host@, port)),
        None => None,
    }
}

impl View for Step {
    type V = StepModel;

    open spec fn view(&self) -> StepModel {
        match self {
            Step::Lookup(req) => StepModel::Lookup(req.tier, req.name@),
            Step::Finished(r) => StepModel::Finished(outcome_view(*r)),
        }
    }
}

/// The tier tried after `tier`, if any.
pub open spec fn next_tier(tier: LookupTier) -> Option<LookupTier> {
    match tier {
        LookupTier::ServiceRecord => Some(LookupTier::Ipv4Address),
        LookupTier::Ipv4Address => Some(LookupTier::Ipv6Address),
        LookupTier::Ipv6Address => None,
    }
}

/// The name queried at a tier: the service query name for service records,
/// the bare domain for addresses.
pub open spec fn query_name(tier: LookupTier, domain: Seq<char>) -> Seq<char> {
    match tier {
        LookupTier::ServiceRecord => service_query_name(domain),
        _ => domain,
    }
}

/// The endpoint that an answer gives at a tier. Only the first record counts.
/// A service record gives its target, without trailing dots, and its port; an
/// address gives itself and the default port. A failed lookup, an empty one,
/// and an answer of the wrong kind for the tier give none.
pub open spec fn endpoint_of(tier: LookupTier, answer: LookupAnswer) -> Option<(Seq<char>, u16)> {
    match answer {
        LookupAnswer::Records(records) => {
            if tier == LookupTier::ServiceRecord && records@.len() > 0 {
                Some((trim_trailing_dots(records@[0].target@), records@[0].port))
            } else {
                None
            }
        },
        LookupAnswer::Addresses(addresses) => {
            if tier != LookupTier::ServiceRecord && addresses@.len() > 0 {
                Some((addresses@[0]@, DEFAULT_PORT))
            } else {
                None
            }
        },
        LookupAnswer::Failed => None,
    }
}

/// The step taken on the answer of the lookup at `tier`: finish with the
/// endpoint it gives; else look up the next tier; else fail with the domain.
pub open spec fn step_after(domain: Seq<char>, tier: LookupTier, answer: LookupAnswer) -> StepModel {
    match endpoint_of(tier, answer) {
        Some(e) => StepModel::Finished(Ok(e)),
        None => match next_tier(tier) {
            Some(t) => StepModel::Lookup(t, query_name(t, domain)),
            None => StepModel::Finished(Err(domain)),
        },
    }
}

/// The outcome of a resolution of `domain`, given the answers that the three
/// lookups would give: the endpoint of the first tier that gives one, else
/// a failure that carries the domain.
pub open spec fn resolution(
    domain: Seq<char>,
    service: LookupAnswer,
    ipv4: LookupAnswer,
    ipv6: LookupAnswer,
) -> Outcome {
    match endpoint_of(LookupTier::ServiceRecord, service) {
        Some(e) => Ok(e),
        None => match endpoint_of(LookupTier::Ipv4Address, ipv4) {
            Some(e) => Ok(e),
            None => match endpoint_of(LookupTier::Ipv6Address, ipv6) {
                Some(e) => Ok(e),
                None => Err(domain),
            },
        },
    }
}

/// The first step of a resolution of `domain`: the service-record lookup.
pub open spec fn start(domain: Seq<char>) -> StepModel {
    StepModel::Lookup(LookupTier::ServiceRecord, query_name(LookupTier::ServiceRecord, domain))
}

/// The step reached from the start after the given answers; once finished,
/// further answers change nothing.
pub open spec fn run(domain: Seq<char>, answers: Seq<LookupAnswer>) -> StepModel
    decreases answers.len(),
{
    if answers.len() == 0 {
        start(domain)
    } else {
        match run(domain, answers.drop_last()) {
            StepModel::Lookup(tier, _) => step_after(domain, tier, answers.last()),
            StepModel::Finished(r) => StepModel::Finished(r),
        }
    }
}

impl ResolveError {
    /// The domain whose resolution failed.
    pub fn domain(&self) -> (r: &String)
        ensures
            *self == ResolveError::ResolutionFailure(*r),
    {
        match self {
            ResolveError::ResolutionFailure(domain) => domain,
        }
    }

    /// A message for diagnostics: `No host found for <domain>`.
    pub fn message(&self) -> (r: String)
        ensures
            r@ == "No host found for "@ + self.domain_view(),
    {
        let text = String::from_str("No host found for ");
        text.concat(self.domain().as_str())
    }

    /// The domain carried, as a character sequence.
    pub open spec fn domain_view(&self) -> Seq<char> {
        match self {
            ResolveError::ResolutionFailure(domain) => domain@,
        }
    }
}

/// Starts a resolution of `domain`: look up its service record.
pub fn first_step(domain: &str) -> (r: Step)
    ensures
        r@ == start(domain@),
{
    Step::Lookup(LookupRequest { tier: LookupTier::ServiceRecord, name: service_query(domain) })
}

/// The endpoint that an answer gives at a tier (see `endpoint_of`). A failed
/// lookup and an empty one are alike here: neither gives a record.
pub fn answer_endpoint(tier: LookupTier, answer: &LookupAnswer) -> (r: Option<(String, u16)>)
    ensures
        endpoint_view(r) == endpoint_of(tier, *answer),
{
    match answer {
        LookupAnswer::Records(records) => {
            if tier == LookupTier::ServiceRecord && records.len() > 0 {
                let record = &records[0];
                Some((strip_root_label(record.target.as_str()), record.port))
            } else {
                None
            }
        },
        LookupAnswer::Addresses(addresses) => {
            if tier != LookupTier::ServiceRecord && addresses.len() > 0 {
                Some((addresses[0].clone(), DEFAULT_PORT))
            } else {
                None
            }
        },
        LookupAnswer::Failed => None,
    }
}

/// The step that follows the answer of the lookup at `tier` in a resolution
/// of `domain`.
pub fn next_step(domain: &str, tier: LookupTier, answer: &LookupAnswer) -> (r: Step)
    ensures
        r@ == step_after(domain@, tier, *answer),
{
    match answer_endpoint(tier, answer) {
        Some(endpoint) => Step::Finished(Ok(endpoint)),
        None => match tier {
            LookupTier::ServiceRecord => Step::Lookup(
                LookupRequest { tier: LookupTier::Ipv4Address, name: String::from_str(domain) },
            ),
            LookupTier::Ipv4Address => Step::Lookup(
                LookupRequest { tier: LookupTier::Ipv6Address, name: String::from_str(domain) },
            ),
            LookupTier::Ipv6Address => Step::Finished(
                Err(ResolveError::ResolutionFailure(String::from_str(domain))),
            ),
        },
    }
}

} // verus!
