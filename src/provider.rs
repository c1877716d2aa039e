//! Resolution against an injected lookup provider.
use vstd::prelude::*;

use crate::lemmas::{finished_within_three, three_answers_finish};
use crate::resolution::{
    first_step, next_step, outcome_view, resolution, run, LookupAnswer, LookupRequest,
    LookupTier, ResolveError, SrvRecord, Step,
};

verus! {

/// A name service that can perform the three lookups. Each returns `None`
/// when the lookup itself fails (network error, no such name, timeout).
pub trait Resolver {
    /// The service records of `name`, in the order the name service gave them.
    fn srv_lookup(&self, name: &str) -> Option<Vec<SrvRecord>>;

    /// The IPv4 addresses of `name`, in textual form.
    fn ipv4_lookup(&self, name: &str) -> Option<Vec<String>>;

    /// The IPv6 addresses of `name`, in textual form.
    fn ipv6_lookup(&self, name: &str) -> Option<Vec<String>>;
}

/// Performs the lookup that a step asks for.
fn perform<R: Resolver>(resolver: &R, request: &LookupRequest) -> LookupAnswer {
    let name = request.name.as_str();
    match request.tier {
        LookupTier::ServiceRecord => match resolver.srv_lookup(name) {
            Some(records) => LookupAnswer::Records(records),
            None => LookupAnswer::Failed,
        },
        LookupTier::Ipv4Address => match resolver.ipv4_lookup(name) {
            Some(addresses) => LookupAnswer::Addresses(addresses),
            None => LookupAnswer::Failed,
        },
        LookupTier::Ipv6Address => match resolver.ipv6_lookup(name) {
            Some(addresses) => LookupAnswer::Addresses(addresses),
            None => LookupAnswer::Failed,
        },
    }
}

/// Resolves `domain` to a (host, port) endpoint, asking `resolver` for one
/// lookup per tier until a tier decides. Whatever the lookups give, the
/// outcome is the resolution of `domain` on some answers of the three tiers;
/// in particular a failure carries `domain` itself.
pub fn resolve_host<R: Resolver>(resolver: &R, domain: &str) -> (r: Result<(String, u16), ResolveError>)
    ensures
        exists|service: LookupAnswer, ipv4: LookupAnswer, ipv6: LookupAnswer|
            outcome_view(r) == #[trigger] resolution(domain@, service, ipv4, ipv6),
        r is Err ==> r->Err_0.domain_view() == domain@,
{
    let mut step = first_step(domain);
    let ghost mut answers: Seq<LookupAnswer> = Seq::empty();
    loop
        invariant
            step@ == run(domain@, answers),
            answers.len() <= 3,
        decreases 3 - answers.len(),
    {
        match step {
            Step::Finished(outcome) => {
                proof {
                    finished_within_three(domain@, answers);
                }
                return outcome;
            },
            Step::Lookup(request) => {
                proof {
                    if answers.len() == 3 {
                        three_answers_finish(domain@, answers);
                    }
                }
                let answer = perform(resolver, &request);
                step = next_step(domain, request.tier, &answer);
                proof {
                    assert(answers.push(answer).drop_last() =~= answers);
                    answers = answers.push(answer);
                }
            },
        }
    }
}

} // verus!
