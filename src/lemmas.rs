//! Laws of the resolution, stated over the step function and the outcome.
use vstd::prelude::*;

use crate::names::trim_trailing_dots;
use crate::resolution::{
    endpoint_of, resolution, run, start, step_after, LookupAnswer, Outcome, LookupTier, SrvRecord, StepModel,
    DEFAULT_PORT,
};

verus! {

/// A lookup answer that holds no record: a failed lookup or an empty one.
pub open spec fn is_empty_or_failed(answer: LookupAnswer) -> bool {
    match answer {
        LookupAnswer::Records(records) => records@.len() == 0,
        LookupAnswer::Addresses(addresses) => addresses@.len() == 0,
        LookupAnswer::Failed => true,
    }
}

/// When the service-record lookup gives at least one record, the resolution
/// finishes at once with the first record's target, without trailing dots,
/// and that record's port: no address lookup is asked for, and what the
/// address lookups would give does not matter.
pub proof fn service_record_decides(
    domain: Seq<char>,
    records: Vec<SrvRecord>,
    ipv4: LookupAnswer,
    ipv6: LookupAnswer,
)
    requires
        records@.len() >= 1,
    ensures
        step_after(domain, LookupTier::ServiceRecord, LookupAnswer::Records(records))
            == StepModel::Finished(
            Ok((trim_trailing_dots(records@[0].target@), records@[0].port)),
        ),
        resolution(domain, LookupAnswer::Records(records), ipv4, ipv6) == Outcome::Ok(
            (trim_trailing_dots(records@[0].target@), records@[0].port),
        ),
{
}

/// When the service-record lookup fails or is empty and the IPv4 lookup gives
/// at least one address, the resolution goes on to the IPv4 lookup of the
/// bare domain and finishes with its first address and the default port.
pub proof fn ipv4_address_decides(
    domain: Seq<char>,
    service: LookupAnswer,
    addresses: Vec<String>,
    ipv6: LookupAnswer,
)
    requires
        is_empty_or_failed(service),
        addresses@.len() >= 1,
    ensures
        step_after(domain, LookupTier::ServiceRecord, service) == StepModel::Lookup(
            LookupTier::Ipv4Address,
            domain,
        ),
        step_after(domain, LookupTier::Ipv4Address, LookupAnswer::Addresses(addresses))
            == StepModel::Finished(Ok((addresses@[0]@, DEFAULT_PORT))),
        resolution(domain, service, LookupAnswer::Addresses(addresses), ipv6) == Outcome::Ok(
            (addresses@[0]@, DEFAULT_PORT),
        ),
{
}

/// When the service-record and IPv4 lookups fail or are empty and the IPv6
/// lookup gives at least one address, the resolution finishes with that first
/// address and the default port.
pub proof fn ipv6_address_decides(
    domain: Seq<char>,
    service: LookupAnswer,
    ipv4: LookupAnswer,
    addresses: Vec<String>,
)
    requires
        is_empty_or_failed(service),
        is_empty_or_failed(ipv4),
        addresses@.len() >= 1,
    ensures
        step_after(domain, LookupTier::Ipv4Address, ipv4) == StepModel::Lookup(
            LookupTier::Ipv6Address,
            domain,
        ),
        step_after(domain, LookupTier::Ipv6Address, LookupAnswer::Addresses(addresses))
            == StepModel::Finished(Ok((addresses@[0]@, DEFAULT_PORT))),
        resolution(domain, service, ipv4, LookupAnswer::Addresses(addresses)) == Outcome::Ok(
            (addresses@[0]@, DEFAULT_PORT),
        ),
{
}

/// When all three lookups fail or are empty, the resolution fails with an
/// error that carries exactly the domain that was resolved.
pub proof fn nothing_resolves(
    domain: Seq<char>,
    service: LookupAnswer,
    ipv4: LookupAnswer,
    ipv6: LookupAnswer,
)
    requires
        is_empty_or_failed(service),
        is_empty_or_failed(ipv4),
        is_empty_or_failed(ipv6),
    ensures
        step_after(domain, LookupTier::Ipv6Address, ipv6) == StepModel::Finished(Err(domain)),
        resolution(domain, service, ipv4, ipv6) == Outcome::Err(domain),
{
}

/// Run on the answers of the three tiers, the steps finish with the
/// resolution's outcome.
pub proof fn steps_compute_resolution(
    domain: Seq<char>,
    service: LookupAnswer,
    ipv4: LookupAnswer,
    ipv6: LookupAnswer,
)
    ensures
        run(domain, seq![service, ipv4, ipv6]) == StepModel::Finished(
            resolution(domain, service, ipv4, ipv6),
        ),
{
    let one = seq![service];
    let two = seq![service, ipv4];
    let three = seq![service, ipv4, ipv6];
    assert(one.drop_last() =~= Seq::<LookupAnswer>::empty());
    assert(two.drop_last() =~= one);
    assert(three.drop_last() =~= two);
    assert(run(domain, Seq::<LookupAnswer>::empty()) == start(domain));
    assert(run(domain, one) == step_after(domain, LookupTier::ServiceRecord, service));
    assert(two.last() == ipv4);
    assert(three.last() == ipv6);
    if endpoint_of(LookupTier::ServiceRecord, service) is None {
        assert(run(domain, two) == step_after(domain, LookupTier::Ipv4Address, ipv4));
        if endpoint_of(LookupTier::Ipv4Address, ipv4) is None {
            assert(run(domain, three) == step_after(domain, LookupTier::Ipv6Address, ipv6));
        }
    }
}

/// Once finished, a resolution stays finished with the same outcome.
pub proof fn finished_is_final(domain: Seq<char>, answers: Seq<LookupAnswer>, more: LookupAnswer)
    requires
        run(domain, answers) is Finished,
    ensures
        run(domain, answers.push(more)) == run(domain, answers),
{
    assert(answers.push(more).drop_last() =~= answers);
}

/// After at most three answers, a finished resolution has the outcome of the
/// resolution on those answers, with a failed lookup standing for each tier
/// that was not asked for.
pub proof fn finished_within_three(domain: Seq<char>, answers: Seq<LookupAnswer>)
    requires
        answers.len() <= 3,
        run(domain, answers) is Finished,
    ensures
        run(domain, answers) == StepModel::Finished(
            resolution(
                domain,
                answers[0],
                if answers.len() > 1 { answers[1] } else { LookupAnswer::Failed },
                if answers.len() > 2 { answers[2] } else { LookupAnswer::Failed },
            ),
        ),
{
    let failed = LookupAnswer::Failed;
    assert(answers.len() > 0) by {
        if answers.len() == 0 {
            assert(run(domain, answers) == start(domain));
        }
    }
    if answers.len() == 1 {
        finished_is_final(domain, answers, failed);
        finished_is_final(domain, answers.push(failed), failed);
        assert(answers.push(failed).push(failed) =~= seq![answers[0], failed, failed]);
        steps_compute_resolution(domain, answers[0], failed, failed);
    } else if answers.len() == 2 {
        finished_is_final(domain, answers, failed);
        assert(answers.push(failed) =~= seq![answers[0], answers[1], failed]);
        steps_compute_resolution(domain, answers[0], answers[1], failed);
    } else {
        assert(answers =~= seq![answers[0], answers[1], answers[2]]);
        steps_compute_resolution(domain, answers[0], answers[1], answers[2]);
    }
}

/// Three answers always finish a resolution.
pub proof fn three_answers_finish(domain: Seq<char>, answers: Seq<LookupAnswer>)
    requires
        answers.len() == 3,
    ensures
        run(domain, answers) is Finished,
{
    assert(answers =~= seq![answers[0], answers[1], answers[2]]);
    steps_compute_resolution(domain, answers[0], answers[1], answers[2]);
}

} // verus!
