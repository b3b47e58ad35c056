//! Session driver: the end-to-end device interaction as a state machine.
//!
//! The driver owns every decision of the session: adapter selection, scan
//! start, the bounded discovery poll, connection, characteristic resolution,
//! and the color-cycle write sequence. The unverified binary performs each
//! returned action against the radio and reports the outcome back as the
//! next event; every failure is terminal, as is the discovery timeout.

use vstd::prelude::*;

use crate::codec::build_color_frame;
use crate::codec::build_off_frame;
use crate::codec::color_frame_spec;
use crate::codec::off_frame_spec;
use crate::locator::poll_decision;
use crate::locator::PollDecision;
use crate::locator::DISCOVERY_TIMEOUT_MS;
use crate::locator::POLL_INTERVAL_MS;

verus! {

/// Milliseconds to wait after starting the scan, before the first poll, so
/// that advertisements can populate the peripheral snapshot.
pub const SCAN_WARMUP_MS: u64 = 2000;

/// Milliseconds to wait after each color-frame write before the next write.
pub const WRITE_GAP_MS: u64 = 70;

/// Milliseconds to wait after the final off-frame write before finishing.
pub const FINAL_WAIT_MS: u64 = 300;

/// The last payload of the color cycle; payloads run from 1 up to here.
pub const LAST_COLOR: u8 = 254;

/// The service UUID of the lamp, which by construction of its firmware is
/// also the UUID of the command characteristic.
pub const TARGET_UUID: u128 = 0xB11B0002_BF9B_4A20_BA07_9218FEC577D7;

/// The terminal failures of a session, one per fatal condition.
#[derive(Clone, Copy, Debug, PartialEq, Eq, Structural)]
pub enum SessionError {
    /// No Bluetooth adapter is available.
    NoAdapter,
    /// Starting the scan failed.
    ScanFailed,
    /// No matching peripheral advertised itself within the timeout.
    DiscoveryTimeout,
    /// Connecting to the peripheral failed.
    ConnectFailed,
    /// Discovering the peripheral's services failed.
    ServiceDiscoveryFailed,
    /// No characteristic carries the target UUID: firmware mismatch.
    CharacteristicNotFound,
    /// A frame write failed; the rest of the sequence is abandoned.
    WriteFailed,
    /// The collaborator reported an event the session was not waiting for.
    UnexpectedEvent,
}

/// Where the session stands between two events.
#[derive(Clone, Copy, Debug, PartialEq, Eq, Structural)]
pub enum SessionState {
    /// Waiting for the adapter list.
    SelectingAdapter,
    /// Waiting for the scan to start.
    StartingScan,
    /// Waiting for the next poll of the peripheral snapshot.
    Polling,
    /// Waiting for the connection attempt.
    Connecting,
    /// Waiting for service discovery.
    DiscoveringServices,
    /// Waiting for the characteristic list.
    ResolvingCharacteristic,
    /// Waiting for the write of the color frame with the carried payload to
    /// complete; the first field is the resolved characteristic's index.
    WritingColor(usize, u8),
    /// Waiting for the write of the off frame to complete.
    WritingOff(usize),
    /// The whole sequence completed.
    Done,
    /// A fatal condition ended the session.
    Failed(SessionError),
}

/// What the collaborator reports back after performing an action.
#[derive(Debug)]
pub enum SessionEvent {
    /// How many adapters are available.
    AdaptersListed(usize),
    /// Whether the scan started.
    ScanStarted(bool),
    /// A poll of the snapshot: milliseconds elapsed since the discovery loop
    /// began, and whether a matching peripheral was seen.
    PollResult(u64, bool),
    /// Whether the connection attempt succeeded.
    Connected(bool),
    /// Whether service discovery succeeded.
    ServicesDiscovered(bool),
    /// The UUIDs of the peripheral's characteristics, in order.
    CharacteristicsListed(Vec<u128>),
    /// Whether the last frame write succeeded.
    WriteCompleted(bool),
}

/// What the collaborator is asked to do next.
#[derive(Debug)]
pub enum SessionAction {
    /// List the available adapters.
    ListAdapters,
    /// Start an unfiltered scan on the first adapter.
    StartScan,
    /// Wait the given milliseconds, then poll the snapshot for a matching
    /// advertised name.
    WaitThenPoll(u64),
    /// Connect to the matched peripheral.
    Connect,
    /// Discover the peripheral's services and characteristics.
    DiscoverServices,
    /// List the characteristics' UUIDs.
    ListCharacteristics,
    /// Write the frame to the characteristic at the given index, without
    /// requesting a response, then wait the given milliseconds.
    WriteFrame(usize, Vec<u8>, u64),
    /// The sequence is complete; nothing is left to do.
    Finish,
    /// The session failed; report the error carried by the state and stop.
    Abort,
}

/// The characteristic at index `i` carries the target UUID.
pub open spec fn uuid_match_at(uuids: Seq<u128>, i: int) -> bool {
    0 <= i < uuids.len() && uuids[i] == TARGET_UUID
}

/// Some characteristic carries the target UUID.
pub open spec fn has_uuid_match(uuids: Seq<u128>) -> bool {
    exists|i: int| uuid_match_at(uuids, i)
}

/// Returns the index of the first characteristic whose UUID equals `target`.
pub fn find_characteristic(uuids: &Vec<u128>, target: u128) -> (r: Option<usize>)
    ensures
        match r {
            Some(i) => i < uuids@.len() && uuids@[i as int] == target
                && forall|j: int| 0 <= j < i ==> uuids@[j] != target,
            None => forall|j: int| 0 <= j < uuids@.len() ==> uuids@[j] != target,
        },
{
    let mut i: usize = 0;
    while i < uuids.len()
        invariant
            0 <= i <= uuids@.len(),
            forall|j: int| 0 <= j < i ==> uuids@[j] != target,
        decreases uuids@.len() - i,
    {
        if uuids[i] == target {
            return Some(i);
        }
        i = i + 1;
    }
    None
}

/// The action writes the color frame for payload `p` to characteristic
/// `ci` and then waits one inter-write gap.
pub open spec fn write_color_action(a: SessionAction, ci: usize, p: u8) -> bool {
    a matches SessionAction::WriteFrame(i, frame, w) && i == ci && frame@ == color_frame_spec(p)
        && w == WRITE_GAP_MS
}

/// The action writes the off frame to characteristic `ci` and then waits
/// the final delay.
pub open spec fn write_off_action(a: SessionAction, ci: usize) -> bool {
    a matches SessionAction::WriteFrame(i, frame, w) && i == ci && frame@ == off_frame_spec()
        && w == FINAL_WAIT_MS
}

/// The step ended the session with the given fatal error.
pub open spec fn failed_step(err: SessionError, r: (SessionState, SessionAction)) -> bool {
    r == (SessionState::Failed(err), SessionAction::Abort)
}

/// The full transition relation of the session driver: what state and action
/// follow each state and event. Events that the state is not waiting for end
/// the session.
pub open spec fn step_post(s: SessionState, e: SessionEvent, r: (SessionState, SessionAction)) -> bool {
    match (s, e) {
        (SessionState::SelectingAdapter, SessionEvent::AdaptersListed(n)) => if n > 0 {
            r == (SessionState::StartingScan, SessionAction::StartScan)
        } else {
            failed_step(SessionError::NoAdapter, r)
        },
        (SessionState::StartingScan, SessionEvent::ScanStarted(ok)) => if ok {
            r == (SessionState::Polling, SessionAction::WaitThenPoll(SCAN_WARMUP_MS))
        } else {
            failed_step(SessionError::ScanFailed, r)
        },
        (SessionState::Polling, SessionEvent::PollResult(elapsed_ms, found)) => if elapsed_ms
            >= DISCOVERY_TIMEOUT_MS {
            failed_step(SessionError::DiscoveryTimeout, r)
        } else if found {
            r == (SessionState::Connecting, SessionAction::Connect)
        } else {
            r == (SessionState::Polling, SessionAction::WaitThenPoll(POLL_INTERVAL_MS))
        },
        (SessionState::Connecting, SessionEvent::Connected(ok)) => if ok {
            r == (SessionState::DiscoveringServices, SessionAction::DiscoverServices)
        } else {
            failed_step(SessionError::ConnectFailed, r)
        },
        (SessionState::DiscoveringServices, SessionEvent::ServicesDiscovered(ok)) => if ok {
            r == (SessionState::ResolvingCharacteristic, SessionAction::ListCharacteristics)
        } else {
            failed_step(SessionError::ServiceDiscoveryFailed, r)
        },
        (SessionState::ResolvingCharacteristic, SessionEvent::CharacteristicsListed(uuids)) => if has_uuid_match(
            uuids@,
        ) {
            r.0 matches SessionState::WritingColor(ci, p) && p == 1u8 && uuid_match_at(
                uuids@,
                ci as int,
            ) && (forall|j: int| 0 <= j < ci ==> uuids@[j] != TARGET_UUID) && write_color_action(
                r.1,
                ci,
                1u8,
            )
        } else {
            failed_step(SessionError::CharacteristicNotFound, r)
        },
        (SessionState::WritingColor(ci, p), SessionEvent::WriteCompleted(ok)) => if !ok {
            failed_step(SessionError::WriteFailed, r)
        } else if p < LAST_COLOR {
            r.0 == SessionState::WritingColor(ci, (p + 1) as u8) && write_color_action(
                r.1,
                ci,
                (p + 1) as u8,
            )
        } else {
            r.0 == SessionState::WritingOff(ci) && write_off_action(r.1, ci)
        },
        (SessionState::WritingOff(_ci), SessionEvent::WriteCompleted(ok)) => if ok {
            r == (SessionState::Done, SessionAction::Finish)
        } else {
            failed_step(SessionError::WriteFailed, r)
        },
        _ => failed_step(SessionError::UnexpectedEvent, r),
    }
}

/// Begins a session: the first thing to do is list the adapters.
pub fn session_start() -> (r: (SessionState, SessionAction))
    ensures
        r == (SessionState::SelectingAdapter, SessionAction::ListAdapters),
{
    (SessionState::SelectingAdapter, SessionAction::ListAdapters)
}

/// Advances the session by one event, returning the next state and the next
/// action for the collaborator.
pub fn session_step(state: SessionState, event: SessionEvent) -> (r: (SessionState, SessionAction))
    ensures
        step_post(state, event, r),
{
    match (state, event) {
        (SessionState::SelectingAdapter, SessionEvent::AdaptersListed(n)) => {
            if n > 0 {
                (SessionState::StartingScan, SessionAction::StartScan)
            } else {
                (SessionState::Failed(SessionError::NoAdapter), SessionAction::Abort)
            }
        },
        (SessionState::StartingScan, SessionEvent::ScanStarted(ok)) => {
            if ok {
                (SessionState::Polling, SessionAction::WaitThenPoll(SCAN_WARMUP_MS))
            } else {
                (SessionState::Failed(SessionError::ScanFailed), SessionAction::Abort)
            }
        },
        (SessionState::Polling, SessionEvent::PollResult(elapsed_ms, found)) => {
            match poll_decision(elapsed_ms, found) {
                PollDecision::TimedOut => (
                    SessionState::Failed(SessionError::DiscoveryTimeout),
                    SessionAction::Abort,
                ),
                PollDecision::Found => (SessionState::Connecting, SessionAction::Connect),
                PollDecision::RetryAfterWait => (
                    SessionState::Polling,
                    SessionAction::WaitThenPoll(POLL_INTERVAL_MS),
                ),
            }
        },
        (SessionState::Connecting, SessionEvent::Connected(ok)) => {
            if ok {
                (SessionState::DiscoveringServices, SessionAction::DiscoverServices)
            } else {
                (SessionState::Failed(SessionError::ConnectFailed), SessionAction::Abort)
            }
        },
        (SessionState::DiscoveringServices, SessionEvent::ServicesDiscovered(ok)) => {
            if ok {
                (SessionState::ResolvingCharacteristic, SessionAction::ListCharacteristics)
            } else {
                (SessionState::Failed(SessionError::ServiceDiscoveryFailed), SessionAction::Abort)
            }
        },
        (SessionState::ResolvingCharacteristic, SessionEvent::CharacteristicsListed(uuids)) => {
            match find_characteristic(&uuids, TARGET_UUID) {
                Some(ci) => {
                    proof {
                        assert(uuid_match_at(uuids@, ci as int));
                    }
                    (
                        SessionState::WritingColor(ci, 1),
                        SessionAction::WriteFrame(ci, build_color_frame(1), WRITE_GAP_MS),
                    )
                },
                None => {
                    proof {
                        assert(!has_uuid_match(uuids@)) by {
                            if has_uuid_match(uuids@) {
                                let i = choose|i: int| uuid_match_at(uuids@, i);
                                assert(uuids@[i] != TARGET_UUID);
                            }
                        }
                    }
                    (
                        SessionState::Failed(SessionError::CharacteristicNotFound),
                        SessionAction::Abort,
                    )
                },
            }
        },
        (SessionState::WritingColor(ci, p), SessionEvent::WriteCompleted(ok)) => {
            if !ok {
                (SessionState::Failed(SessionError::WriteFailed), SessionAction::Abort)
            } else if p < LAST_COLOR {
                let next = p + 1;
                (
                    SessionState::WritingColor(ci, next),
                    SessionAction::WriteFrame(ci, build_color_frame(next), WRITE_GAP_MS),
                )
            } else {
                (
                    SessionState::WritingOff(ci),
                    SessionAction::WriteFrame(ci, build_off_frame(), FINAL_WAIT_MS),
                )
            }
        },
        (SessionState::WritingOff(ci), SessionEvent::WriteCompleted(ok)) => {
            if ok {
                (SessionState::Done, SessionAction::Finish)
            } else {
                (SessionState::Failed(SessionError::WriteFailed), SessionAction::Abort)
            }
        },
        _ => (SessionState::Failed(SessionError::UnexpectedEvent), SessionAction::Abort),
    }
}

} // verus!
