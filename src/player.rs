use vstd::prelude::*;
use crate::lock::SessionLock;
use crate::playlist::{next_cursor, Playlist};

verus! {

/// The name of the designated hotkey: the one key whose press acts.
pub open spec fn hotkey() -> Seq<char> {
    seq!['/']
}

/// What the trigger handler did with one key event.
#[derive(Debug, Clone)]
pub enum Trigger {
    /// Not the designated hotkey: nothing changed.
    Ignored,
    /// A session was active: the lock was cleared, nothing else changed.
    Cancelled,
    /// The playlist is empty: no session can start.
    NothingToPlay,
    /// The lock is clear but the last session has not exited yet: nothing
    /// changed, so that two sessions never run at once.
    Stopping,
    /// Every session token has been handed out: no session can start.
    Exhausted,
    /// The selected entry did not resolve: the cursor moved past it and no
    /// session started.
    Missing { index: usize, path: String },
    /// The lock now belongs to `token`; a session for `path` is to be run.
    Start { token: u64, index: usize, path: String },
}

/// The shared coordination object: the playlist with its cursor, the
/// session lock, and the token of the session that was started and has not
/// exited yet.
pub struct Player {
    playlist: Playlist,
    lock: SessionLock,
    running: Option<u64>,
}

/// Whether a key name is the designated hotkey.
pub fn is_hotkey(name: &str) -> (r: bool)
    ensures
        r == (name@ == hotkey()),
{
    if name.unicode_len() == 1 {
        let c = name.get_char(0);
        if c == '/' {
            assert(name@ =~= hotkey());
            true
        } else {
            false
        }
    } else {
        false
    }
}

/// What one press of the hotkey does to the player, given whether the entry
/// under the cursor resolves, and what it reports.
///
/// A held lock is cleared and nothing else changes. A clear lock while the
/// last session is still exiting changes nothing. Otherwise the entry under
/// the cursor is selected and the cursor moves on; if the entry resolves, the
/// lock goes to a fresh token for the new session, which is then the running
/// one, else the lock is untouched.
pub open spec fn trigger_done(before: Player, after: Player, resolvable: bool, r: Trigger) -> bool {
    &&& after.wf()
    &&& after.playlist_spec().entries() == before.playlist_spec().entries()
    &&& before.lock_spec().successor(&after.lock_spec())
    &&& (before.lock_spec().held() ==> {
            &&& r is Cancelled
            &&& after.lock_spec().holder() is None
            &&& after.lock_spec().issued() == before.lock_spec().issued()
            &&& after.playlist_spec() == before.playlist_spec()
            &&& after.running_spec() == before.running_spec()
        })
    &&& (!before.lock_spec().held() && before.running_spec() is Some ==> {
            &&& r is Stopping
            &&& after == before
        })
    &&& (!before.lock_spec().held() && before.running_spec() is None
            && before.playlist_spec().len() == 0 ==> {
            &&& r is NothingToPlay
            &&& after == before
        })
    &&& (!before.lock_spec().held() && before.running_spec() is None
            && before.playlist_spec().len() > 0 && before.lock_spec().exhausted() ==> {
            &&& r is Exhausted
            &&& after == before
        })
    &&& (!before.lock_spec().held() && before.running_spec() is None
            && before.playlist_spec().len() > 0 && !before.lock_spec().exhausted() ==> {
            &&& after.playlist_spec().cursor() == next_cursor(
                before.playlist_spec().cursor(),
                before.playlist_spec().len(),
            )
            &&& !resolvable ==> {
                &&& r matches Trigger::Missing { index, path } && index
                    == before.playlist_spec().cursor() && path@
                    == before.playlist_spec().entries()[index as int]
                &&& after.lock_spec() == before.lock_spec()
                &&& after.running_spec() is None
            }
            &&& resolvable ==> {
                &&& r matches Trigger::Start { token, index, path } && token
                    == before.lock_spec().issued() && index
                    == before.playlist_spec().cursor() && path@
                    == before.playlist_spec().entries()[index as int]
                &&& after.lock_spec().holder() == Some(
                    before.lock_spec().issued() as u64,
                )
                &&& after.lock_spec().issued() == before.lock_spec().issued() + 1
                &&& after.running_spec() == after.lock_spec().holder()
            }
        })
}

impl Player {
    pub closed spec fn playlist_spec(&self) -> Playlist {
        self.playlist
    }

    pub closed spec fn lock_spec(&self) -> SessionLock {
        self.lock
    }

    /// The token of the session that was started and has not exited yet.
    pub closed spec fn running_spec(&self) -> Option<u64> {
        self.running
    }

    /// A held lock belongs to the running session, and the running session's
    /// token was handed out by the lock.
    pub open spec fn wf(&self) -> bool {
        &&& self.playlist_spec().wf()
        &&& self.lock_spec().wf()
        &&& self.lock_spec().held() ==> self.running_spec() == self.lock_spec().holder()
        &&& self.running_spec() is Some ==> self.running_spec()->0 < self.lock_spec().issued()
    }

    /// Whether the session holding `token` is the active one.
    pub open spec fn session_active(&self, token: u64) -> bool {
        self.lock_spec().owned_by(token)
    }

    /// An idle player over a loaded playlist.
    pub fn new(playlist: Playlist) -> (r: Self)
        requires
            playlist.wf(),
        ensures
            r.wf(),
            r.playlist_spec() == playlist,
            r.lock_spec().holder() is None,
            r.lock_spec().issued() == 0,
            r.running_spec() is None,
    {
        Player { playlist, lock: SessionLock::new(), running: None }
    }

    pub fn cursor(&self) -> (r: usize)
        ensures
            r == self.playlist_spec().cursor(),
    {
        self.playlist.cursor_exec()
    }

    pub fn len(&self) -> (r: usize)
        ensures
            r == self.playlist_spec().len(),
    {
        self.playlist.len_exec()
    }

    /// Whether a session holds the lock.
    pub fn is_playing(&self) -> (r: bool)
        ensures
            r == self.lock_spec().held(),
    {
        self.lock.is_held()
    }

    /// The entry a start would select now; the caller checks whether it
    /// resolves before handing the trigger in.
    pub fn upcoming(&self) -> (r: Option<String>)
        requires
            self.wf(),
        ensures
            self.playlist_spec().len() == 0 ==> r is None,
            self.playlist_spec().len() > 0 ==> r is Some && r->0@
                == self.playlist_spec().entries()[self.playlist_spec().cursor() as int],
    {
        self.playlist.upcoming()
    }

    /// Handles one press of the hotkey. `resolvable` says whether the entry
    /// under the cursor (see `upcoming`) exists.
    ///
    /// A held lock is cleared and nothing else happens; so does nothing at
    /// all while a cancelled session has yet to exit. Otherwise the entry
    /// under the cursor is selected and the cursor moves on; if the entry
    /// resolves, the lock goes to a fresh token for the new session.
    pub fn play_audio(&mut self, resolvable: bool) -> (r: Trigger)
        requires
            old(self).wf(),
        ensures
            trigger_done(*old(self), *final(self), resolvable, r),
    {
        if self.lock.is_held() {
            self.lock.release();
            return Trigger::Cancelled;
        }
        if self.running.is_some() {
            return Trigger::Stopping;
        }
        if self.playlist.len_exec() == 0 {
            return Trigger::NothingToPlay;
        }
        if self.lock.is_exhausted() {
            return Trigger::Exhausted;
        }
        let selected = self.playlist.advance();
        match selected {
            Some((index, path)) => {
                if !resolvable {
                    Trigger::Missing { index, path }
                } else {
                    let acquired = self.lock.try_acquire();
                    match acquired {
                        Some(token) => {
                            self.running = Some(token);
                            Trigger::Start { token, index, path }
                        },
                        None => Trigger::Exhausted,
                    }
                }
            },
            None => Trigger::NothingToPlay,
        }
    }

    /// Handles one key event from the trigger source: the designated hotkey
    /// goes to `play_audio`, any other key, or an event without a name, is
    /// ignored.
    pub fn key_callback(&mut self, name: &Option<String>, resolvable: bool) -> (r: Trigger)
        requires
            old(self).wf(),
        ensures
            final(self).wf(),
            old(self).lock_spec().successor(&final(self).lock_spec()),
            !(name matches Some(n) && n@ == hotkey()) ==> r is Ignored && *final(self)
                == *old(self),
            final(self).playlist_spec().entries() == old(self).playlist_spec().entries(),
            (name matches Some(n) && n@ == hotkey()) ==> trigger_done(
                *old(self),
                *final(self),
                resolvable,
                r,
            ),
    {
        match name {
            Some(n) => {
                if is_hotkey(n.as_str()) {
                    self.play_audio(resolvable)
                } else {
                    Trigger::Ignored
                }
            },
            None => Trigger::Ignored,
        }
    }

    /// Poll: does the session holding `token` still hold the lock?
    pub fn is_active(&self, token: u64) -> (r: bool)
        ensures
            r == self.session_active(token),
    {
        self.lock.is_owned_by(token)
    }

    /// Whether a started session has not exited yet.
    pub fn has_running_session(&self) -> (r: bool)
        ensures
            r == self.running_spec() is Some,
    {
        self.running.is_some()
    }

    /// Exit of the session with `token`: releases the lock if that session
    /// still holds it, and records that it no longer runs. Returns whether
    /// the lock was released; a token that is not the running session's
    /// changes nothing.
    pub fn end_session(&mut self, token: u64) -> (r: bool)
        requires
            old(self).wf(),
        ensures
            final(self).wf(),
            old(self).lock_spec().successor(&final(self).lock_spec()),
            final(self).playlist_spec() == old(self).playlist_spec(),
            r == old(self).session_active(token),
            r ==> final(self).lock_spec().holder() is None,
            !r ==> final(self).lock_spec() == old(self).lock_spec(),
            old(self).running_spec() == Some(token) ==> final(self).running_spec() is None,
            old(self).running_spec() != Some(token) ==> *final(self) == *old(self),
    {
        let released = self.lock.release_owned(token);
        if self.running == Some(token) {
            self.running = None;
        }
        released
    }

    /// Shutdown: clears the lock whoever holds it. On a clear lock this
    /// changes nothing.
    pub fn shutdown(&mut self)
        requires
            old(self).wf(),
        ensures
            final(self).wf(),
            old(self).lock_spec().successor(&final(self).lock_spec()),
            final(self).playlist_spec() == old(self).playlist_spec(),
            final(self).lock_spec().holder() is None,
            final(self).running_spec() == old(self).running_spec(),
            !old(self).lock_spec().held() ==> *final(self) == *old(self),
    {
        self.lock.release();
    }
}

/// While a started session has not exited, no press starts another one, and
/// the running session stays the running one.
pub proof fn lemma_no_start_while_running(before: Player, after: Player, resolvable: bool, r: Trigger)
    requires
        before.wf(),
        before.running_spec() is Some,
        trigger_done(before, after, resolvable, r),
    ensures
        !(r is Start),
        after.running_spec() == before.running_spec(),
{
}

/// A press that starts a session starts it only when no other session runs,
/// and the new session is the one that holds the lock.
pub proof fn lemma_start_only_when_idle(before: Player, after: Player, resolvable: bool, r: Trigger)
    requires
        before.wf(),
        trigger_done(before, after, resolvable, r),
        r is Start,
    ensures
        before.running_spec() is None,
        !before.lock_spec().held(),
        r matches Trigger::Start { token, .. } && after.running_spec() == Some(token)
            && after.session_active(token),
{
}

} // verus!
