use std::cell::RefCell;

use paymail_dns::names::{service_query, strip_root_label, SERVICE_LABEL};
use paymail_dns::provider::{resolve_host, Resolver};
use paymail_dns::resolution::{
    answer_endpoint, first_step, next_step, LookupAnswer, LookupRequest, LookupTier,
    ResolveError, SrvRecord, Step, DEFAULT_PORT,
};

/// A name service with fixed answers that records every lookup it is asked for.
struct FixedAnswers {
    srv: Option<Vec<SrvRecord>>,
    ipv4: Option<Vec<String>>,
    ipv6: Option<Vec<String>>,
    calls: RefCell<Vec<String>>,
}

impl FixedAnswers {
    fn new(
        srv: Option<Vec<SrvRecord>>,
        ipv4: Option<Vec<String>>,
        ipv6: Option<Vec<String>>,
    ) -> FixedAnswers {
        FixedAnswers { srv, ipv4, ipv6, calls: RefCell::new(Vec::new()) }
    }

    fn calls(&self) -> Vec<String> {
        self.calls.borrow().clone()
    }
}

impl Resolver for FixedAnswers {
    fn srv_lookup(&self, name: &str) -> Option<Vec<SrvRecord>> {
        self.calls.borrow_mut().push(format!("SRV {}", name));
        self.srv.clone()
    }

    fn ipv4_lookup(&self, name: &str) -> Option<Vec<String>> {
        self.calls.borrow_mut().push(format!("A {}", name));
        self.ipv4.clone()
    }

    fn ipv6_lookup(&self, name: &str) -> Option<Vec<String>> {
        self.calls.borrow_mut().push(format!("AAAA {}", name));
        self.ipv6.clone()
    }
}

fn record(target: &str, port: u16) -> SrvRecord {
    SrvRecord { target: target.to_string(), port }
}

fn addresses(list: &[&str]) -> Vec<String> {
    list.iter().map(|a| a.to_string()).collect()
}

fn endpoint(host: &str, port: u16) -> Result<(String, u16), ResolveError> {
    Ok((host.to_string(), port))
}

#[test]
fn service_record_wins_without_address_lookups() {
    let dns = FixedAnswers::new(
        Some(vec![record("pay.example.net.", 8443)]),
        Some(addresses(&["192.0.2.1"])),
        Some(addresses(&["2001:db8::1"])),
    );
    assert_eq!(resolve_host(&dns, "example.com"), endpoint("pay.example.net", 8443));
    assert_eq!(dns.calls(), vec!["SRV _bsvalias._tcp.example.com".to_string()]);
}

#[test]
fn ipv4_used_when_service_lookup_fails() {
    let dns = FixedAnswers::new(None, Some(addresses(&["192.0.2.7", "192.0.2.8"])), None);
    assert_eq!(resolve_host(&dns, "example.com"), endpoint("192.0.2.7", 443));
    assert_eq!(
        dns.calls(),
        vec!["SRV _bsvalias._tcp.example.com".to_string(), "A example.com".to_string()]
    );
}

#[test]
fn ipv4_used_when_service_lookup_is_empty() {
    let dns = FixedAnswers::new(Some(vec![]), Some(addresses(&["198.51.100.3"])), None);
    assert_eq!(resolve_host(&dns, "example.org"), endpoint("198.51.100.3", 443));
    assert_eq!(dns.calls().len(), 2);
}

#[test]
fn ipv6_used_when_service_and_ipv4_give_nothing() {
    let dns = FixedAnswers::new(None, Some(vec![]), Some(addresses(&["2001:db8::5", "2001:db8::6"])));
    assert_eq!(resolve_host(&dns, "example.com"), endpoint("2001:db8::5", 443));
    assert_eq!(
        dns.calls(),
        vec![
            "SRV _bsvalias._tcp.example.com".to_string(),
            "A example.com".to_string(),
            "AAAA example.com".to_string(),
        ]
    );
}

#[test]
fn all_tiers_empty_or_failed_is_resolution_failure() {
    let dns = FixedAnswers::new(Some(vec![]), None, Some(vec![]));
    let result = resolve_host(&dns, "nothing.example");
    assert_eq!(result, Err(ResolveError::ResolutionFailure("nothing.example".to_string())));
    assert_eq!(dns.calls().len(), 3);
    let all_failed = FixedAnswers::new(None, None, None);
    assert_eq!(
        resolve_host(&all_failed, "nothing.example"),
        Err(ResolveError::ResolutionFailure("nothing.example".to_string()))
    );
}

#[test]
fn trailing_dot_is_stripped() {
    let dns = FixedAnswers::new(Some(vec![record("mail.example.com.", 443)]), None, None);
    assert_eq!(resolve_host(&dns, "example.com"), endpoint("mail.example.com", 443));
    assert_eq!(strip_root_label("mail.example.com."), "mail.example.com");
}

#[test]
fn first_service_record_wins() {
    let dns = FixedAnswers::new(
        Some(vec![record("a.example.com", 1000), record("b.example.com", 2000)]),
        None,
        None,
    );
    assert_eq!(resolve_host(&dns, "example.com"), endpoint("a.example.com", 1000));
}

#[test]
fn interleaved_resolutions_do_not_interfere() {
    let first = FixedAnswers::new(Some(vec![record("one.example.", 1111)]), None, None);
    let second = FixedAnswers::new(None, None, Some(addresses(&["2001:db8::2"])));
    let same = FixedAnswers::new(None, Some(addresses(&["192.0.2.9"])), None);

    let mut a = first_step("one.example");
    let mut b = first_step("two.example");
    let mut c = first_step("one.example");
    let mut done = (None, None, None);
    for _ in 0..3 {
        for (step, dns, domain, slot) in [
            (&mut a, &first, "one.example", &mut done.0),
            (&mut b, &second, "two.example", &mut done.1),
            (&mut c, &same, "one.example", &mut done.2),
        ] {
            if let Step::Lookup(request) = &*step {
                let answer = match request.tier {
                    LookupTier::ServiceRecord => match dns.srv_lookup(&request.name) {
                        Some(records) => LookupAnswer::Records(records),
                        None => LookupAnswer::Failed,
                    },
                    LookupTier::Ipv4Address => match dns.ipv4_lookup(&request.name) {
                        Some(list) => LookupAnswer::Addresses(list),
                        None => LookupAnswer::Failed,
                    },
                    LookupTier::Ipv6Address => match dns.ipv6_lookup(&request.name) {
                        Some(list) => LookupAnswer::Addresses(list),
                        None => LookupAnswer::Failed,
                    },
                };
                let tier = request.tier;
                *step = next_step(domain, tier, &answer);
            }
            if let Step::Finished(outcome) = &*step {
                if slot.is_none() {
                    *slot = Some(outcome.clone());
                }
            }
        }
    }
    assert_eq!(done.0, Some(endpoint("one.example", 1111)));
    assert_eq!(done.1, Some(endpoint("2001:db8::2", 443)));
    assert_eq!(done.2, Some(endpoint("192.0.2.9", 443)));
}

#[test]
fn service_query_name_has_label() {
    assert_eq!(SERVICE_LABEL, "_bsvalias._tcp.");
    assert_eq!(service_query("example.com"), "_bsvalias._tcp.example.com");
    assert_eq!(service_query(""), "_bsvalias._tcp.");
}

#[test]
fn strip_root_label_edge_cases() {
    assert_eq!(strip_root_label(""), "");
    assert_eq!(strip_root_label("..."), "");
    assert_eq!(strip_root_label("host.example.."), "host.example");
    assert_eq!(strip_root_label("host.example"), "host.example");
    assert_eq!(strip_root_label(".inner.dots"), ".inner.dots");
    assert_eq!(strip_root_label("ünï.cödé."), "ünï.cödé");
}

#[test]
fn default_port_is_443() {
    assert_eq!(DEFAULT_PORT, 443);
}

#[test]
fn first_step_asks_for_service_record() {
    assert_eq!(
        first_step("example.com"),
        Step::Lookup(LookupRequest {
            tier: LookupTier::ServiceRecord,
            name: "_bsvalias._tcp.example.com".to_string(),
        })
    );
}

#[test]
fn next_step_moves_through_tiers() {
    assert_eq!(
        next_step("example.com", LookupTier::ServiceRecord, &LookupAnswer::Failed),
        Step::Lookup(LookupRequest { tier: LookupTier::Ipv4Address, name: "example.com".to_string() })
    );
    assert_eq!(
        next_step("example.com", LookupTier::Ipv4Address, &LookupAnswer::Addresses(vec![])),
        Step::Lookup(LookupRequest { tier: LookupTier::Ipv6Address, name: "example.com".to_string() })
    );
    assert_eq!(
        next_step("example.com", LookupTier::Ipv6Address, &LookupAnswer::Failed),
        Step::Finished(Err(ResolveError::ResolutionFailure("example.com".to_string())))
    );
}

#[test]
fn answer_of_wrong_kind_gives_no_endpoint() {
    let addrs = LookupAnswer::Addresses(addresses(&["192.0.2.1"]));
    let records = LookupAnswer::Records(vec![record("x.example.", 25)]);
    assert_eq!(answer_endpoint(LookupTier::ServiceRecord, &addrs), None);
    assert_eq!(answer_endpoint(LookupTier::Ipv4Address, &records), None);
    assert_eq!(answer_endpoint(LookupTier::Ipv6Address, &records), None);
    assert_eq!(
        answer_endpoint(LookupTier::Ipv6Address, &addrs),
        Some(("192.0.2.1".to_string(), 443))
    );
    assert_eq!(
        answer_endpoint(LookupTier::ServiceRecord, &records),
        Some(("x.example".to_string(), 25))
    );
}

#[test]
fn resolution_failure_carries_domain() {
    let error = ResolveError::ResolutionFailure("missing.example".to_string());
    assert_eq!(error.domain(), "missing.example");
    assert_eq!(error.message(), "No host found for missing.example");
}
