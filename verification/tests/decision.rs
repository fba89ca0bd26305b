use blockdns::engine::{plan_query, reply_for_upstream, DnsReply, QueryPlan, UpstreamOutcome};
use blockdns::session::SessionError;
use blockdns::zone::{decide, zone_match, Verdict};

fn zones(names: &[&str]) -> Vec<String> {
    names.iter().map(|n| n.to_string()).collect()
}

#[test]
fn subdomain_of_blocked_zone_is_blocked() {
    assert_eq!(decide("ads.example.com", &zones(&["example.com"])), Verdict::Block);
}

#[test]
fn zone_root_itself_is_blocked() {
    assert_eq!(decide("example.com", &zones(&["example.com"])), Verdict::Block);
}

#[test]
fn sharing_a_suffix_without_label_boundary_is_allowed() {
    assert_eq!(decide("notexample.com", &zones(&["example.com"])), Verdict::Allow);
}

#[test]
fn empty_zone_set_allows_everything() {
    assert_eq!(decide("anything.example.org", &zones(&[])), Verdict::Allow);
}

#[test]
fn matching_is_case_insensitive() {
    assert_eq!(decide("ADS.Example.COM", &zones(&["example.com"])), Verdict::Block);
    assert_eq!(decide("ads.example.com", &zones(&["EXAMPLE.COM"])), Verdict::Block);
}

#[test]
fn trailing_dots_are_normalized() {
    assert_eq!(decide("ads.example.com.", &zones(&["example.com"])), Verdict::Block);
    assert_eq!(decide("ads.example.com", &zones(&["example.com."])), Verdict::Block);
    assert_eq!(decide("example.com.", &zones(&["example.com."])), Verdict::Block);
}

#[test]
fn deeper_subdomains_match_and_partial_labels_do_not() {
    assert!(zone_match("a.b.tracker.example", "tracker.example"));
    assert!(!zone_match("er.example", "tracker.example"));
    assert!(!zone_match("tracker.example", "b.tracker.example"));
}

#[test]
fn second_zone_in_the_set_still_blocks() {
    let zs = zones(&["one.test", "two.test"]);
    assert_eq!(decide("sub.two.test", &zs), Verdict::Block);
    assert_eq!(decide("two.test.sub", &zs), Verdict::Allow);
}

#[test]
fn failed_policy_lookup_plans_a_forward() {
    let lookup: Result<Vec<String>, SessionError> = Err(SessionError::NotFound);
    assert_eq!(plan_query(&lookup, "ads.example.com"), QueryPlan::Forward);
}

#[test]
fn successful_lookup_plans_by_verdict() {
    let blocked: Result<Vec<String>, SessionError> = Ok(zones(&["example.com"]));
    assert_eq!(plan_query(&blocked, "ads.example.com"), QueryPlan::RespondBlocked);
    assert_eq!(plan_query(&blocked, "ads.elsewhere.net"), QueryPlan::Forward);
    let empty: Result<Vec<String>, SessionError> = Ok(zones(&[]));
    assert_eq!(plan_query(&empty, "ads.example.com"), QueryPlan::Forward);
}

#[test]
fn upstream_outcomes_map_to_replies() {
    assert_eq!(reply_for_upstream(UpstreamOutcome::Answered), DnsReply::Relay);
    assert_eq!(reply_for_upstream(UpstreamOutcome::NoRecords), DnsReply::EmptyAnswer);
    assert_eq!(reply_for_upstream(UpstreamOutcome::Failed), DnsReply::ServFail);
}
