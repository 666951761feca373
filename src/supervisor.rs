//! The connection supervisor: from setup through connect, read and
//! reconnect cycles to a single teardown.
//!
//! The caller carries out each action and reports its result as the next
//! event, together with the cancellation flag as it reads it then.

use vstd::prelude::*;
use crate::reader::{ReaderExit, ReaderEvent, ReadOutcome, ReaderAction, reader_step};

verus! {

/// Pause before retrying a failed topology setup, in milliseconds.
pub const SETUP_RETRY_MS: u64 = 3000;

/// Pause before looking for the device again after it was not claimed.
pub const LOCATE_RETRY_MS: u64 = 2000;

/// Pause after a session ended before connecting again.
pub const RECONNECT_DELAY_MS: u64 = 3000;

/// Connection state.
#[derive(Clone, Copy, Debug, PartialEq, Eq, Structural)]
pub enum ConnectionState {
    Disconnected,
    Connecting,
    Connected,
    ShuttingDown,
}

/// What happened since the last action.
#[derive(Clone, Copy, Debug, PartialEq, Eq, Structural)]
pub enum SupervisorEvent {
    /// The supervisor is starting.
    Start,
    /// A requested pause is over.
    Woke,
    /// The virtual topology now exists.
    TopologyReady,
    /// Building the virtual topology failed.
    TopologyFailed,
    /// The device was found and its interface claimed.
    Claimed,
    /// The device was not found, or could not be claimed.
    NotClaimed,
    /// A session (relink, stream migration, reading) ended this way.
    SessionEnded(ReaderExit),
}

/// What the supervisor asks the caller to do next.
#[derive(Clone, Copy, Debug, PartialEq, Eq, Structural)]
pub enum SupervisorAction {
    /// Build the virtual topology if it does not exist.
    EnsureTopology,
    /// Find and claim the device.
    Locate,
    /// Relink the topology, move the live streams and run the reader, then
    /// release the interface.
    RunSession,
    /// Sleep this many milliseconds.
    Sleep(u64),
    /// Restore the recorded default output and destroy the topology.
    Teardown,
    /// Nothing is left to do.
    Halt,
}

/// The supervisor's state as a plain value.
#[derive(Clone, Copy, Debug, PartialEq, Eq, Structural)]
pub struct SupervisorState {
    pub connection: ConnectionState,
    pub topology_ready: bool,
}

/// The supervisor's transition.
pub open spec fn supervisor_step(
    s: SupervisorState,
    e: SupervisorEvent,
    cancelled: bool,
) -> (SupervisorState, SupervisorAction) {
    let shut = SupervisorState { connection: ConnectionState::ShuttingDown, topology_ready: false };
    if s.connection == ConnectionState::ShuttingDown {
        (s, SupervisorAction::Halt)
    } else if cancelled || e == SupervisorEvent::SessionEnded(ReaderExit::Cancelled) {
        (shut, SupervisorAction::Teardown)
    } else {
        match s.connection {
            ConnectionState::Disconnected => {
                if s.topology_ready || e == SupervisorEvent::TopologyReady {
                    (
                        SupervisorState { connection: ConnectionState::Connecting, topology_ready: true },
                        SupervisorAction::Locate,
                    )
                } else if e == SupervisorEvent::TopologyFailed {
                    (s, SupervisorAction::Sleep(SETUP_RETRY_MS))
                } else {
                    (s, SupervisorAction::EnsureTopology)
                }
            },
            ConnectionState::Connecting => {
                if e == SupervisorEvent::Claimed {
                    (
                        SupervisorState { connection: ConnectionState::Connected, ..s },
                        SupervisorAction::RunSession,
                    )
                } else if e == SupervisorEvent::NotClaimed {
                    (s, SupervisorAction::Sleep(LOCATE_RETRY_MS))
                } else {
                    (s, SupervisorAction::Locate)
                }
            },
            _ => (
                SupervisorState { connection: ConnectionState::Disconnected, ..s },
                SupervisorAction::Sleep(RECONNECT_DELAY_MS),
            ),
        }
    }
}

/// While connecting or connected, the topology exists.
pub open spec fn topology_consistent(s: SupervisorState) -> bool {
    s.connection == ConnectionState::Connecting || s.connection == ConnectionState::Connected
        ==> s.topology_ready
}

/// Every step keeps the supervisor's state consistent: while connecting or
/// connected, the topology exists.
pub proof fn step_keeps_topology_invariant(s: SupervisorState, e: SupervisorEvent, cancelled: bool)
    requires
        topology_consistent(s),
    ensures
        topology_consistent(supervisor_step(s, e, cancelled).0),
{
}

/// Teardown is asked for exactly once: only on leaving a live state for
/// `ShuttingDown`, which then only ever halts.
pub proof fn teardown_happens_once(s: SupervisorState, e: SupervisorEvent, cancelled: bool)
    ensures
        supervisor_step(s, e, cancelled).1 == SupervisorAction::Teardown ==> s.connection
            != ConnectionState::ShuttingDown && supervisor_step(s, e, cancelled).0.connection
            == ConnectionState::ShuttingDown,
        s.connection == ConnectionState::ShuttingDown ==> supervisor_step(s, e, cancelled) == (
            s,
            SupervisorAction::Halt,
        ),
        s.connection != ConnectionState::ShuttingDown && cancelled ==> supervisor_step(
            s,
            e,
            cancelled,
        ).1 == SupervisorAction::Teardown,
{
}

/// After the device is removed and comes back, the supervisor goes from
/// `Disconnected` through `Connecting` to `Connected` with the topology in
/// place all along, and never asks to build it again.
pub proof fn reconnect_keeps_topology(s: SupervisorState, exit: ReaderExit)
    requires
        s == (SupervisorState { connection: ConnectionState::Connected, topology_ready: true }),
        exit != ReaderExit::Cancelled,
    ensures
        ({
            let (s1, a1) = supervisor_step(s, SupervisorEvent::SessionEnded(exit), false);
            let (s2, a2) = supervisor_step(s1, SupervisorEvent::Woke, false);
            let (s3, a3) = supervisor_step(s2, SupervisorEvent::Claimed, false);
            &&& s1 == SupervisorState { connection: ConnectionState::Disconnected, topology_ready: true }
            &&& a1 == SupervisorAction::Sleep(RECONNECT_DELAY_MS)
            &&& s2 == SupervisorState { connection: ConnectionState::Connecting, topology_ready: true }
            &&& a2 == SupervisorAction::Locate
            &&& s3 == SupervisorState { connection: ConnectionState::Connected, topology_ready: true }
            &&& a3 == SupervisorAction::RunSession
        }),
{
}

/// A device that is absent for a while keeps the supervisor connecting,
/// with the topology kept, until it is claimed.
pub proof fn absent_device_keeps_connecting(s: SupervisorState)
    requires
        s == (SupervisorState { connection: ConnectionState::Connecting, topology_ready: true }),
    ensures
        supervisor_step(s, SupervisorEvent::NotClaimed, false) == (s, SupervisorAction::Sleep(LOCATE_RETRY_MS)),
        supervisor_step(s, SupervisorEvent::Woke, false) == (s, SupervisorAction::Locate),
{
}

/// Five failed reads in a row end the session and bring the supervisor
/// back to `Disconnected`.
pub proof fn error_ceiling_disconnects(s: SupervisorState)
    requires
        s.connection == ConnectionState::Connected,
    ensures
        supervisor_step(s, SupervisorEvent::SessionEnded(ReaderExit::TooManyErrors), false).0.connection
            == ConnectionState::Disconnected,
{
}

/// Cancellation seen while the reader waits out a read timeout: the reader
/// ends gracefully at that timeout and the supervisor goes straight to
/// teardown.
pub proof fn cancellation_during_read_tears_down(s: SupervisorState, errors: u32)
    requires
        s.connection == ConnectionState::Connected,
    ensures
        ({
            let (_, ra) = reader_step(errors, ReaderEvent::Read(ReadOutcome::Timeout), true);
            &&& ra == ReaderAction::Finish(ReaderExit::Cancelled)
            &&& supervisor_step(s, SupervisorEvent::SessionEnded(ReaderExit::Cancelled), true)
                == (SupervisorState { connection: ConnectionState::ShuttingDown, topology_ready: false },
                SupervisorAction::Teardown)
        }),
{
}

/// The supervisor: its state and the default output to restore on exit.
pub struct Supervisor {
    pub state: SupervisorState,
    pub original_default: String,
}

impl Supervisor {
    /// A disconnected supervisor with no topology, that will restore
    /// `original_default` on teardown.
    pub fn new(original_default: String) -> (r: Supervisor)
        ensures
            r.state == (SupervisorState {
                connection: ConnectionState::Disconnected,
                topology_ready: false,
            }),
            r.original_default@ == original_default@,
    {
        Supervisor {
            state: SupervisorState { connection: ConnectionState::Disconnected, topology_ready: false },
            original_default,
        }
    }

    /// Decides the next action after `event`.
    pub fn step(&mut self, event: SupervisorEvent, cancelled: bool) -> (r: SupervisorAction)
        ensures
            (final(self).state, r) == supervisor_step(old(self).state, event, cancelled),
            final(self).original_default@ == old(self).original_default@,
    {
        let s = self.state;
        if s.connection == ConnectionState::ShuttingDown {
            return SupervisorAction::Halt;
        }
        let graceful_end = match event {
            SupervisorEvent::SessionEnded(ReaderExit::Cancelled) => true,
            _ => false,
        };
        if cancelled || graceful_end {
            self.state = SupervisorState { connection: ConnectionState::ShuttingDown, topology_ready: false };
            return SupervisorAction::Teardown;
        }
        match s.connection {
            ConnectionState::Disconnected => {
                let ready_now = match event {
                    SupervisorEvent::TopologyReady => true,
                    _ => false,
                };
                let failed = match event {
                    SupervisorEvent::TopologyFailed => true,
                    _ => false,
                };
                if s.topology_ready || ready_now {
                    self.state = SupervisorState { connection: ConnectionState::Connecting, topology_ready: true };
                    SupervisorAction::Locate
                } else if failed {
                    SupervisorAction::Sleep(SETUP_RETRY_MS)
                } else {
                    SupervisorAction::EnsureTopology
                }
            },
            ConnectionState::Connecting => match event {
                SupervisorEvent::Claimed => {
                    self.state = SupervisorState { connection: ConnectionState::Connected, topology_ready: s.topology_ready };
                    SupervisorAction::RunSession
                },
                SupervisorEvent::NotClaimed => SupervisorAction::Sleep(LOCATE_RETRY_MS),
                _ => SupervisorAction::Locate,
            },
            _ => {
                self.state = SupervisorState { connection: ConnectionState::Disconnected, topology_ready: s.topology_ready };
                SupervisorAction::Sleep(RECONNECT_DELAY_MS)
            },
        }
    }

    /// The default output recorded at start.
    pub fn original_default(&self) -> (r: &String)
        ensures
            r@ == self.original_default@,
    {
        &self.original_default
    }
}

} // verus!
