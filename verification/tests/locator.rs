use brio_lamp::locator::contains_subslice;
use brio_lamp::locator::find_device;
use brio_lamp::locator::name_matches;
use brio_lamp::locator::poll_decision;
use brio_lamp::locator::run_discovery;
use brio_lamp::locator::PollDecision;
use brio_lamp::locator::DISCOVERY_TIMEOUT_MS;
use brio_lamp::locator::POLL_INTERVAL_MS;

#[test]
fn name_matches_target_substring() {
    assert!(name_matches(b"Brio Smart 2.0 Lamp"));
    assert!(name_matches(b"Smart 2.0"));
    assert!(name_matches(b"xxSmart 2.0"));
    assert!(!name_matches(b""));
    assert!(!name_matches(b"Smart 2"));
    assert!(!name_matches(b"smart 2.0"));
    assert!(!name_matches(b"Smart2.0"));
}

#[test]
fn contains_subslice_edges() {
    assert!(contains_subslice(b"abc", b""));
    assert!(contains_subslice(b"", b""));
    assert!(!contains_subslice(b"", b"a"));
    assert!(contains_subslice(b"abc", b"abc"));
    assert!(contains_subslice(b"aab", b"ab"));
    assert!(!contains_subslice(b"ab", b"abc"));
}

#[test]
fn find_device_first_match_wins() {
    let names: Vec<Option<Vec<u8>>> = vec![
        None,
        Some(b"Kitchen Speaker".to_vec()),
        Some(b"Brio Smart 2.0 Lamp".to_vec()),
        Some(b"Other Smart 2.0".to_vec()),
    ];
    assert_eq!(find_device(&names), Some(2));
}

#[test]
fn find_device_none_matches() {
    let names: Vec<Option<Vec<u8>>> = vec![None, Some(b"Kitchen Speaker".to_vec())];
    assert_eq!(find_device(&names), None);
    assert_eq!(find_device(&vec![]), None);
}

#[test]
fn poll_decision_checks_clock_first() {
    assert_eq!(poll_decision(DISCOVERY_TIMEOUT_MS, true), PollDecision::TimedOut);
    assert_eq!(poll_decision(DISCOVERY_TIMEOUT_MS + 1, false), PollDecision::TimedOut);
    assert_eq!(poll_decision(DISCOVERY_TIMEOUT_MS - 1, true), PollDecision::Found);
    assert_eq!(poll_decision(0, true), PollDecision::Found);
    assert_eq!(poll_decision(0, false), PollDecision::RetryAfterWait);
}

#[test]
fn discovery_never_matching_stub_times_out() {
    // A stub that never matches: the loop ends with the timeout instead of
    // hanging; the poll budget is timeout / interval polls.
    assert_eq!(run_discovery(&vec![]), None);
    assert_eq!(run_discovery(&vec![false; 200]), None);
}

#[test]
fn discovery_returns_nth_poll() {
    let mut outcomes = vec![false; 10];
    outcomes[5] = true;
    assert_eq!(run_discovery(&outcomes), Some(5));

    assert_eq!(run_discovery(&vec![true]), Some(0));
}

#[test]
fn discovery_match_at_timeout_is_too_late() {
    // The first `true` answer sits exactly at the timeout boundary: poll k
    // happens k * interval milliseconds in, so a match whose poll would start
    // at the timeout is never seen.
    let budget = (DISCOVERY_TIMEOUT_MS / POLL_INTERVAL_MS) as usize;
    let mut outcomes = vec![false; budget + 1];
    outcomes[budget] = true;
    assert_eq!(run_discovery(&outcomes), None);

    let mut last_good = vec![false; budget];
    last_good[budget - 1] = true;
    assert_eq!(run_discovery(&last_good), Some(budget - 1));
}
