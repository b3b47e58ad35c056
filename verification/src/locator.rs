//! Device locator: matches advertised local names against the target
//! substring and bounds the discovery poll loop by the overall timeout.

use vstd::prelude::*;

verus! {

/// Milliseconds between two polls of the peripheral snapshot.
pub const POLL_INTERVAL_MS: u64 = 500;

/// Overall wall-clock budget for discovery, in milliseconds.
pub const DISCOVERY_TIMEOUT_MS: u64 = 30000;

/// `needle` occurs in `hay` starting at index `i`.
pub open spec fn is_match_at(hay: Seq<u8>, needle: Seq<u8>, i: int) -> bool {
    0 <= i && i + needle.len() <= hay.len() && hay.subrange(i, i + needle.len()) == needle
}

/// `needle` occurs somewhere in `hay`.
pub open spec fn contains_seq(hay: Seq<u8>, needle: Seq<u8>) -> bool {
    exists|i: int| is_match_at(hay, needle, i)
}

/// The bytes of the target device-name substring, `"Smart 2.0"`.
pub open spec fn target_name_spec() -> Seq<u8> {
    seq![0x53u8, 0x6Du8, 0x61u8, 0x72u8, 0x74u8, 0x20u8, 0x32u8, 0x2Eu8, 0x30u8]
}

/// Whether `needle` occurs in `hay` starting exactly at `start`.
fn matches_at(hay: &[u8], needle: &[u8], start: usize) -> (r: bool)
    requires
        start + needle@.len() <= hay@.len(),
    ensures
        r == is_match_at(hay@, needle@, start as int),
{
    // The length call puts the bound `hay@.len() <= usize::MAX` in scope for
    // the overflow check on the index below.
    let _hay_len: usize = hay.len();
    let mut j: usize = 0;
    while j < needle.len()
        invariant
            start + needle@.len() <= hay@.len(),
            hay@.len() <= usize::MAX,
            0 <= j <= needle@.len(),
            forall|k: int| 0 <= k < j ==> hay@[start + k] == needle@[k],
        decreases needle@.len() - j,
    {
        if hay[start + j] != needle[j] {
            proof {
                assert(hay@.subrange(start as int, start + needle@.len())[j as int]
                    != needle@[j as int]);
            }
            return false;
        }
        j = j + 1;
    }
    proof {
        assert(hay@.subrange(start as int, start + needle@.len()) =~= needle@);
    }
    true
}

/// Whether `needle` occurs as a contiguous subsequence of `hay`.
pub fn contains_subslice(hay: &[u8], needle: &[u8]) -> (r: bool)
    ensures
        r == contains_seq(hay@, needle@),
{
    if needle.len() > hay.len() {
        proof {
            assert(forall|i: int| !is_match_at(hay@, needle@, i));
        }
        return false;
    }
    let limit: usize = hay.len() - needle.len();
    let mut i: usize = 0;
    while i < limit
        invariant
            needle@.len() <= hay@.len(),
            limit == hay@.len() - needle@.len(),
            0 <= i <= limit,
            forall|k: int| 0 <= k < i ==> !is_match_at(hay@, needle@, k),
        decreases limit - i,
    {
        if matches_at(hay, needle, i) {
            return true;
        }
        i = i + 1;
    }
    if matches_at(hay, needle, limit) {
        return true;
    }
    proof {
        assert(forall|k: int| is_match_at(hay@, needle@, k) ==> 0 <= k <= hay@.len() - needle@.len());
    }
    false
}

/// An advertised local name matches when it contains `"Smart 2.0"`.
pub open spec fn name_matches_spec(name: Seq<u8>) -> bool {
    contains_seq(name, target_name_spec())
}

/// Whether the advertised local name (as UTF-8 bytes) contains the target
/// substring `"Smart 2.0"`.
pub fn name_matches(name: &[u8]) -> (r: bool)
    ensures
        r == name_matches_spec(name@),
{
    let needle: Vec<u8> = vec![0x53, 0x6D, 0x61, 0x72, 0x74, 0x20, 0x32, 0x2E, 0x30];
    proof {
        assert(needle@ =~= target_name_spec());
    }
    contains_subslice(name, needle.as_slice())
}

/// The advertised name at index `i` of a snapshot is present and matches.
pub open spec fn snapshot_matches_at(names: Seq<Option<Vec<u8>>>, i: int) -> bool {
    0 <= i < names.len() && match names[i] {
        Some(n) => name_matches_spec(n@),
        None => false,
    }
}

/// Scans a snapshot of advertised local names (one entry per currently known
/// peripheral, `None` when the peripheral advertises no name) and returns the
/// index of the first peripheral whose name contains `"Smart 2.0"`.
pub fn find_device(names: &Vec<Option<Vec<u8>>>) -> (r: Option<usize>)
    ensures
        match r {
            Some(i) => snapshot_matches_at(names@, i as int)
                && forall|j: int| 0 <= j < i ==> !snapshot_matches_at(names@, j),
            None => forall|j: int| !snapshot_matches_at(names@, j),
        },
{
    let mut i: usize = 0;
    while i < names.len()
        invariant
            0 <= i <= names@.len(),
            forall|j: int| 0 <= j < i ==> !snapshot_matches_at(names@, j),
        decreases names@.len() - i,
    {
        let hit = match &names[i] {
            Some(n) => name_matches(n.as_slice()),
            None => false,
        };
        if hit {
            return Some(i);
        }
        i = i + 1;
    }
    None
}

/// What the discovery loop does after one look at the clock and, when still
/// within budget, one poll of the snapshot.
#[derive(Clone, Copy, Debug, PartialEq, Eq, Structural)]
pub enum PollDecision {
    /// A matching peripheral was found before the timeout elapsed.
    Found,
    /// Nothing matched yet; wait one poll interval and poll again.
    RetryAfterWait,
    /// The timeout elapsed with no match: discovery has failed for good.
    TimedOut,
}

/// One decision of the discovery loop: a poll taken `elapsed_ms` after the
/// loop began, with result `found`, leads to success, a retry, or the final
/// timeout. The clock is checked first, so a match seen at or after the
/// timeout no longer counts.
pub fn poll_decision(elapsed_ms: u64, found: bool) -> (d: PollDecision)
    ensures
        d == (if elapsed_ms >= DISCOVERY_TIMEOUT_MS {
            PollDecision::TimedOut
        } else if found {
            PollDecision::Found
        } else {
            PollDecision::RetryAfterWait
        }),
{
    if elapsed_ms >= DISCOVERY_TIMEOUT_MS {
        PollDecision::TimedOut
    } else if found {
        PollDecision::Found
    } else {
        PollDecision::RetryAfterWait
    }
}

/// The stubbed locator answers `true` on poll number `k` (counting from 0).
pub open spec fn outcome_at(outcomes: Seq<bool>, k: int) -> bool {
    0 <= k < outcomes.len() && outcomes[k]
}

/// Runs the discovery loop against a stubbed locator: poll `k` happens
/// `k * POLL_INTERVAL_MS` milliseconds after the loop begins and answers
/// `outcomes[k]` (`false` once the stub's answers run out). Returns the
/// number of the first successful poll, or `None` once the timeout elapses.
///
/// The loop always terminates: the poll budget is
/// `DISCOVERY_TIMEOUT_MS / POLL_INTERVAL_MS` polls, and `None` comes at or
/// after the timeout, never before.
pub fn run_discovery(outcomes: &Vec<bool>) -> (r: Option<usize>)
    ensures
        match r {
            Some(k) => k * POLL_INTERVAL_MS < DISCOVERY_TIMEOUT_MS && outcome_at(outcomes@, k as int)
                && forall|j: int| 0 <= j < k ==> !outcome_at(outcomes@, j),
            None => forall|j: int|
                j * POLL_INTERVAL_MS < DISCOVERY_TIMEOUT_MS ==> !outcome_at(outcomes@, j),
        },
{
    let mut k: usize = 0;
    let mut elapsed_ms: u64 = 0;
    while elapsed_ms < DISCOVERY_TIMEOUT_MS
        invariant
            elapsed_ms == k * POLL_INTERVAL_MS,
            k <= DISCOVERY_TIMEOUT_MS / POLL_INTERVAL_MS,
            forall|j: int| 0 <= j < k ==> !outcome_at(outcomes@, j),
        decreases DISCOVERY_TIMEOUT_MS - elapsed_ms,
    {
        let found = k < outcomes.len() && outcomes[k];
        match poll_decision(elapsed_ms, found) {
            PollDecision::Found => {
                return Some(k);
            },
            PollDecision::TimedOut => {
                return None;
            },
            PollDecision::RetryAfterWait => {},
        }
        k = k + 1;
        elapsed_ms = elapsed_ms + POLL_INTERVAL_MS;
    }
    proof {
        assert forall|j: int|
            j * POLL_INTERVAL_MS < DISCOVERY_TIMEOUT_MS implies !outcome_at(outcomes@, j) by {
            if j >= k {
                assert(j * POLL_INTERVAL_MS >= k * POLL_INTERVAL_MS) by (nonlinear_arith)
                    requires
                        j >= k,
                        k >= 0,
                ;
            }
        }
    }
    None
}

} // verus!
