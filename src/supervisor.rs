use vstd::prelude::*;

verus! {

/// How often, in milliseconds, the background loop wakes to look at the stop
/// signal; this bounds how long a stop takes to be seen.
pub const HEARTBEAT_MS: u64 = 10;

/// Where the connection supervisor of a session stands.
#[derive(Clone, Copy, Debug, PartialEq, Eq, Structural)]
pub enum SupervisorState {
    Idle,
    Connecting,
    Running,
    Stopped,
}

/// What the supervisor learns, from the host or from its background loop.
#[derive(Clone, Copy, Debug, PartialEq, Eq, Structural)]
pub enum SupervisorEvent {
    /// The host started a session.
    Start,
    /// The background loop is up and owns the transport's progress future.
    Spawned,
    /// The loop sampled the stop signal without blocking: `Some` of its value,
    /// or `None` where the signal was busy.
    StopSampled(Option<bool>),
    /// A heartbeat interval passed.
    HeartbeatElapsed,
    /// The transport's progress future completed.
    ProgressCompleted,
}

/// The transition rule. A start always begins a new connection; a running
/// loop ends when it sees the stop signal set or its progress future done;
/// every other event leaves the state as it is.
pub open spec fn next_state(s: SupervisorState, e: SupervisorEvent) -> SupervisorState {
    match (s, e) {
        (_, SupervisorEvent::Start) => SupervisorState::Connecting,
        (SupervisorState::Connecting, SupervisorEvent::Spawned) => SupervisorState::Running,
        (SupervisorState::Running, SupervisorEvent::StopSampled(Some(true))) => SupervisorState::Stopped,
        (SupervisorState::Running, SupervisorEvent::ProgressCompleted) => SupervisorState::Stopped,
        _ => s,
    }
}

/// A running loop that samples the stop signal set ends at once, and a
/// stopped supervisor stays stopped until the next start, whatever its loop
/// observes.
pub proof fn lemma_stop_is_final(e: SupervisorEvent)
    ensures
        next_state(SupervisorState::Running, SupervisorEvent::StopSampled(Some(true)))
            == SupervisorState::Stopped,
        e != SupervisorEvent::Start ==> next_state(SupervisorState::Stopped, e)
            == SupervisorState::Stopped,
{
}

impl SupervisorState {
    pub fn step(self, e: SupervisorEvent) -> (r: SupervisorState)
        ensures
            r == next_state(self, e),
    {
        match (self, e) {
            (_, SupervisorEvent::Start) => SupervisorState::Connecting,
            (SupervisorState::Connecting, SupervisorEvent::Spawned) => SupervisorState::Running,
            (SupervisorState::Running, SupervisorEvent::StopSampled(Some(true))) => {
                SupervisorState::Stopped
            },
            (SupervisorState::Running, SupervisorEvent::ProgressCompleted) => {
                SupervisorState::Stopped
            },
            _ => self,
        }
    }

    /// Whether the background loop must end.
    pub fn loop_done(&self) -> (r: bool)
        ensures
            r == (*self != SupervisorState::Running),
    {
        *self != SupervisorState::Running
    }
}

} // verus!
