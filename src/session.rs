use vstd::prelude::*;

verus! {

/// Where a playback session stands.
#[derive(Debug, Clone, Copy, PartialEq, Eq, Structural)]
pub enum Phase {
    /// Waiting for the audio engine to decode the reference.
    Resolving,
    /// Decoded; waiting for the engine to begin output.
    Starting,
    /// Output running; polled at a fixed interval.
    Playing,
    /// The track ended on its own.
    Completed,
    /// The lock was taken away from the session.
    Cancelled,
    /// Decoding or starting output failed.
    Failed,
}

/// What the audio engine and the lock reported to the session.
#[derive(Debug, Clone, Copy, PartialEq, Eq, Structural)]
pub enum SessionEvent {
    /// Whether the reference decoded.
    Decoded(bool),
    /// Whether output began.
    PlaybackStarted(bool),
    /// One poll: whether the engine still plays, and whether the session
    /// still holds the lock.
    Polled { engine_active: bool, lock_owned: bool },
}

/// What the session asks its runner to do next.
#[derive(Debug, Clone, Copy, PartialEq, Eq, Structural)]
pub enum SessionAction {
    /// Hand the decoded source to the engine.
    Play,
    /// Sleep one polling interval, then poll.
    Wait,
    /// Release the lock if the session still holds it, then exit.
    Release,
    /// Nothing: the event does not apply in this phase.
    Nothing,
}

impl Phase {
    pub open spec fn is_terminal(self) -> bool {
        self is Completed || self is Cancelled || self is Failed
    }
}

/// The transition table of a session: next phase and action for a phase and
/// an event. An event that does not apply leaves the phase as it is.
pub open spec fn transition(phase: Phase, ev: SessionEvent) -> (Phase, SessionAction) {
    match (phase, ev) {
        (Phase::Resolving, SessionEvent::Decoded(true)) => (Phase::Starting, SessionAction::Play),
        (Phase::Resolving, SessionEvent::Decoded(false)) => (Phase::Failed, SessionAction::Release),
        (Phase::Starting, SessionEvent::PlaybackStarted(true)) => (
            Phase::Playing,
            SessionAction::Wait,
        ),
        (Phase::Starting, SessionEvent::PlaybackStarted(false)) => (
            Phase::Failed,
            SessionAction::Release,
        ),
        (Phase::Playing, SessionEvent::Polled { engine_active, lock_owned }) => {
            if !lock_owned {
                (Phase::Cancelled, SessionAction::Release)
            } else if !engine_active {
                (Phase::Completed, SessionAction::Release)
            } else {
                (Phase::Playing, SessionAction::Wait)
            }
        },
        _ => (phase, SessionAction::Nothing),
    }
}

/// One run of playing a single audio reference to its end or cancellation.
pub struct Session {
    token: u64,
    path: String,
    phase: Phase,
}

impl Session {
    pub closed spec fn token_spec(&self) -> u64 {
        self.token
    }

    pub closed spec fn path_spec(&self) -> Seq<char> {
        self.path@
    }

    pub closed spec fn phase_spec(&self) -> Phase {
        self.phase
    }

    /// A session for the holder of `token`, about to resolve `path`.
    pub fn new(token: u64, path: String) -> (r: Self)
        ensures
            r.token_spec() == token,
            r.path_spec() == path@,
            r.phase_spec() == Phase::Resolving,
    {
        Session { token, path, phase: Phase::Resolving }
    }

    pub fn token(&self) -> (r: u64)
        ensures
            r == self.token_spec(),
    {
        self.token
    }

    pub fn path(&self) -> (r: &String)
        ensures
            r@ == self.path_spec(),
    {
        &self.path
    }

    pub fn phase(&self) -> (r: Phase)
        ensures
            r == self.phase_spec(),
    {
        self.phase
    }

    pub fn is_finished(&self) -> (r: bool)
        ensures
            r == self.phase_spec().is_terminal(),
    {
        match self.phase {
            Phase::Completed | Phase::Cancelled | Phase::Failed => true,
            _ => false,
        }
    }

    /// Feeds one event to the session and returns what to do next.
    ///
    /// Playback goes on only while the engine plays and the lock is the
    /// session's own, and every way out of a live phase asks for the lock to
    /// be released.
    pub fn step(&mut self, ev: SessionEvent) -> (r: SessionAction)
        ensures
            (final(self).phase_spec(), r) == transition(old(self).phase_spec(), ev),
            final(self).token_spec() == old(self).token_spec(),
            final(self).path_spec() == old(self).path_spec(),
            (!old(self).phase_spec().is_terminal() && final(self).phase_spec().is_terminal())
                <==> r == SessionAction::Release,
            old(self).phase_spec().is_terminal() ==> r == SessionAction::Nothing
                && final(self).phase_spec() == old(self).phase_spec(),
            old(self).phase_spec() == Phase::Playing ==> (ev matches SessionEvent::Polled {
                engine_active,
                lock_owned,
            } ==> (final(self).phase_spec() == Phase::Playing <==> engine_active && lock_owned)),
    {
        let (next, action) = match (self.phase, ev) {
            (Phase::Resolving, SessionEvent::Decoded(ok)) => {
                if ok {
                    (Phase::Starting, SessionAction::Play)
                } else {
                    (Phase::Failed, SessionAction::Release)
                }
            },
            (Phase::Starting, SessionEvent::PlaybackStarted(ok)) => {
                if ok {
                    (Phase::Playing, SessionAction::Wait)
                } else {
                    (Phase::Failed, SessionAction::Release)
                }
            },
            (Phase::Playing, SessionEvent::Polled { engine_active, lock_owned }) => {
                if !lock_owned {
                    (Phase::Cancelled, SessionAction::Release)
                } else if !engine_active {
                    (Phase::Completed, SessionAction::Release)
                } else {
                    (Phase::Playing, SessionAction::Wait)
                }
            },
            _ => (self.phase, SessionAction::Nothing),
        };
        self.phase = next;
        action
    }
}

} // verus!
