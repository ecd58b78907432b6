//! The session table: at most one session per guild, each moving through
//! Connecting and Connected until it is torn down by `leave`.
use vstd::prelude::*;
use std::collections::HashMap;
use crate::queue::{QueueEntry, TrackQueue, is_pending_at};
use crate::track::{ResolveError, TrackMetadata};

verus! {

broadcast use vstd::std_specs::hash::group_hash_axioms;

/// Where a guild's voice connection stands. A guild without a session is
/// `Disconnected`.
#[derive(Debug, Clone, Copy, PartialEq, Eq, Structural)]
pub enum SessionState {
    Disconnected,
    Connecting,
    Connected,
}

/// Why a session operation did nothing.
#[derive(Debug, Clone, Copy, PartialEq, Eq, Structural)]
pub enum SessionError {
    /// The requester is not in a voice channel.
    NotInVoiceChannel,
    /// The guild has no session (or none awaiting a connection).
    NoActiveSession,
    /// The guild's session is not connected.
    NotConnected,
    /// There is nothing in the queue.
    QueueEmpty,
    /// The query did not resolve to a track.
    ResolutionFailed(ResolveError),
    /// The transport could not open a connection.
    TransportFailure,
    /// The session has used up its track handles.
    HandlesExhausted,
    /// No unresolved entry has this handle (it was skipped or torn down).
    UnknownEntry,
}

/// What `begin_join` asks of the caller.
#[derive(Debug, Clone, Copy, PartialEq, Eq, Structural)]
pub enum JoinStep {
    /// A session already exists: nothing to connect.
    Reuse,
    /// A new session is connecting: open a transport connection to the
    /// channel and report the outcome to `finish_join`.
    Connect(u64),
}

/// One guild's session.
pub struct GuildSession {
    /// The voice channel the session is for.
    pub channel: u64,
    pub state: SessionState,
    /// The transport's connection, present exactly when connected.
    pub connection: Option<u64>,
    pub queue: TrackQueue,
}

pub open spec fn session_wf(s: GuildSession) -> bool {
    &&& s.queue.wf()
    &&& (s.state is Connecting || s.state is Connected)
    &&& (s.connection is Some <==> s.state is Connected)
    &&& s.state is Connecting ==> s.queue@.len() == 0
}

pub open spec fn table_wf(m: Map<u64, GuildSession>) -> bool {
    forall|g: u64| #[trigger] m.contains_key(g) ==> session_wf(m[g])
}

/// The state of guild `g`'s session.
pub open spec fn state_of(m: Map<u64, GuildSession>, g: u64) -> SessionState {
    if m.contains_key(g) {
        m[g].state
    } else {
        SessionState::Disconnected
    }
}

/// Only guild `g`'s session differs between the two tables, and only in its queue.
pub open spec fn only_changes(old_m: Map<u64, GuildSession>, new_m: Map<u64, GuildSession>, g: u64) -> bool {
    &&& old_m.contains_key(g)
    &&& new_m.contains_key(g)
    &&& new_m == old_m.insert(g, new_m[g])
    &&& new_m[g].channel == old_m[g].channel
    &&& new_m[g].state == old_m[g].state
    &&& new_m[g].connection == old_m[g].connection
}

/// `leave` on guild `g` takes table `old_m` to `new_m` with result `r`.
pub open spec fn leave_post(
    old_m: Map<u64, GuildSession>,
    new_m: Map<u64, GuildSession>,
    g: u64,
    r: Result<Option<u64>, SessionError>,
) -> bool {
    if old_m.contains_key(g) {
        r == Ok::<Option<u64>, SessionError>(old_m[g].connection) && new_m == old_m.remove(g)
    } else {
        r == Err::<Option<u64>, SessionError>(SessionError::NoActiveSession) && new_m == old_m
    }
}

/// `begin_join` on guild `g` and channel `channel` takes `old_m` to `new_m`
/// with result `r`.
pub open spec fn begin_join_post(
    old_m: Map<u64, GuildSession>,
    new_m: Map<u64, GuildSession>,
    g: u64,
    channel: Option<u64>,
    r: Result<JoinStep, SessionError>,
) -> bool {
    match channel {
        None => r == Err::<JoinStep, SessionError>(SessionError::NotInVoiceChannel) && new_m
            == old_m,
        Some(c) => if old_m.contains_key(g) {
            r == Ok::<JoinStep, SessionError>(JoinStep::Reuse) && new_m == old_m
        } else {
            &&& r == Ok::<JoinStep, SessionError>(JoinStep::Connect(c))
            &&& new_m.contains_key(g)
            &&& new_m == old_m.insert(g, new_m[g])
            &&& new_m[g].channel == c
            &&& new_m[g].state == SessionState::Connecting
            &&& new_m[g].queue@.len() == 0
            &&& !new_m[g].queue.started()
        },
    }
}

/// `begin_enqueue` on guild `g` takes `old_m` to `new_m` with result `r`.
pub open spec fn begin_enqueue_post(
    old_m: Map<u64, GuildSession>,
    new_m: Map<u64, GuildSession>,
    g: u64,
    r: Result<u64, SessionError>,
) -> bool {
    if state_of(old_m, g) != SessionState::Connected {
        r == Err::<u64, SessionError>(SessionError::NotConnected) && new_m == old_m
    } else if old_m[g].queue.next() == u64::MAX {
        r == Err::<u64, SessionError>(SessionError::HandlesExhausted) && new_m == old_m
    } else {
        &&& r == Ok::<u64, SessionError>(old_m[g].queue.next())
        &&& only_changes(old_m, new_m, g)
        &&& new_m[g].queue@ == old_m[g].queue@.push(
            QueueEntry { handle: old_m[g].queue.next(), track: None },
        )
        &&& new_m[g].queue.next() == old_m[g].queue.next() + 1
        &&& new_m[g].queue.started() == old_m[g].queue.started()
    }
}

/// `finish_enqueue` of `ticket` with `resolved` on guild `g` takes `old_m`
/// to `new_m` with result `r`.
pub open spec fn finish_enqueue_post(
    old_m: Map<u64, GuildSession>,
    new_m: Map<u64, GuildSession>,
    g: u64,
    ticket: u64,
    resolved: Result<TrackMetadata, ResolveError>,
    r: Result<(), SessionError>,
) -> bool {
    if state_of(old_m, g) != SessionState::Connected {
        r == Err::<(), SessionError>(SessionError::NotConnected) && new_m == old_m
    } else if !(exists|i: int| is_pending_at(old_m[g].queue@, i, ticket)) {
        r == Err::<(), SessionError>(SessionError::UnknownEntry) && new_m == old_m
    } else {
        &&& only_changes(old_m, new_m, g)
        &&& new_m[g].queue.started() == old_m[g].queue.started()
        &&& match resolved {
            Ok(t) => {
                &&& r == Ok::<(), SessionError>(())
                &&& exists|i: int|
                    is_pending_at(old_m[g].queue@, i, ticket) && new_m[g].queue@ == old_m[g].queue@.update(
                        i,
                        QueueEntry { handle: ticket, track: Some(t) },
                    )
            },
            Err(e) => {
                &&& r == Err::<(), SessionError>(SessionError::ResolutionFailed(e))
                &&& exists|i: int|
                    is_pending_at(old_m[g].queue@, i, ticket) && new_m[g].queue@ == old_m[g].queue@.remove(i)
            },
        }
    }
}

/// The head of guild `g`'s queue is resolved and waiting to be played.
pub open spec fn head_due(m: Map<u64, GuildSession>, g: u64) -> bool {
    &&& m.contains_key(g)
    &&& m[g].state is Connected
    &&& !m[g].queue.started()
    &&& m[g].queue@.len() > 0
    &&& m[g].queue@[0].track is Some
}

/// `skip` on guild `g` takes `old_m` to `new_m` with result `r`.
pub open spec fn skip_post(
    old_m: Map<u64, GuildSession>,
    new_m: Map<u64, GuildSession>,
    g: u64,
    r: Result<Option<u64>, SessionError>,
) -> bool {
    if !old_m.contains_key(g) {
        r == Err::<Option<u64>, SessionError>(SessionError::NoActiveSession) && new_m == old_m
    } else if old_m[g].queue@.len() == 0 {
        r == Err::<Option<u64>, SessionError>(SessionError::QueueEmpty) && new_m == old_m
    } else {
        &&& r == Ok::<Option<u64>, SessionError>(
            if old_m[g].queue.started() {
                Some(old_m[g].queue@[0].handle)
            } else {
                None
            },
        )
        &&& only_changes(old_m, new_m, g)
        &&& new_m[g].queue@ == old_m[g].queue@.drop_first()
        &&& !new_m[g].queue.started()
    }
}

/// The track `handle` that guild `g` is playing has ended.
pub open spec fn ends_head(m: Map<u64, GuildSession>, g: u64, handle: u64) -> bool {
    &&& m.contains_key(g)
    &&& m[g].queue.started()
    &&& m[g].queue@[0].handle == handle
}

/// `track_ended` of `handle` on guild `g` takes `old_m` to `new_m` with result `r`.
pub open spec fn track_ended_post(
    old_m: Map<u64, GuildSession>,
    new_m: Map<u64, GuildSession>,
    g: u64,
    handle: u64,
    r: bool,
) -> bool {
    &&& r == ends_head(old_m, g, handle)
    &&& r ==> {
        &&& only_changes(old_m, new_m, g)
        &&& new_m[g].queue@ == old_m[g].queue@.drop_first()
        &&& !new_m[g].queue.started()
    }
    &&& !r ==> new_m == old_m
}

/// The table's sessions, keyed by guild.
pub struct SessionTable {
    sessions: HashMap<u64, GuildSession>,
}

impl View for SessionTable {
    type V = Map<u64, GuildSession>;

    closed spec fn view(&self) -> Map<u64, GuildSession> {
        self.sessions@
    }
}

impl SessionTable {
    pub closed spec fn wf(&self) -> bool {
        table_wf(self.sessions@)
    }

    /// A table with no sessions.
    pub fn new() -> (r: SessionTable)
        ensures
            r.wf(),
            r@ == Map::<u64, GuildSession>::empty(),
    {
        SessionTable { sessions: HashMap::new() }
    }

    /// The state of guild `g`.
    pub fn state(&self, g: u64) -> (r: SessionState)
        ensures
            r == state_of(self@, g),
    {
        match self.sessions.get(&g) {
            Some(s) => s.state,
            None => SessionState::Disconnected,
        }
    }

    /// Guild `g`'s session, if it has one.
    pub fn session(&self, g: u64) -> (r: Option<&GuildSession>)
        requires
            self.wf(),
        ensures
            self@.contains_key(g) ==> r == Some(&self@[g]) && session_wf(self@[g]),
            !self@.contains_key(g) ==> r is None,
    {
        self.sessions.get(&g)
    }

    /// Starts joining `channel` (the requester's voice channel, `None`
    /// when the requester is in none) for guild `g`. An existing session
    /// is reused as it is; otherwise a session is created in Connecting
    /// and the caller is to open the connection.
    pub fn begin_join(&mut self, g: u64, channel: Option<u64>) -> (r: Result<JoinStep, SessionError>)
        requires
            old(self).wf(),
        ensures
            final(self).wf(),
            begin_join_post(old(self)@, final(self)@, g, channel, r),
    {
        match channel {
            None => Err(SessionError::NotInVoiceChannel),
            Some(c) => {
                if self.sessions.contains_key(&g) {
                    Ok(JoinStep::Reuse)
                } else {
                    let s = GuildSession {
                        channel: c,
                        state: SessionState::Connecting,
                        connection: None,
                        queue: TrackQueue::new(),
                    };
                    self.sessions.insert(g, s);
                    Ok(JoinStep::Connect(c))
                }
            },
        }
    }

    /// Reports the outcome of the connection that `begin_join` asked for:
    /// `Some(connection)` on success, `None` when the transport failed.
    /// Success makes the session Connected. Failure removes it, leaving the
    /// guild Disconnected, and is `TransportFailure`. Without a Connecting
    /// session for `g` (a `leave` came first) the result is
    /// `NoActiveSession` and nothing changes: the caller is to close the
    /// connection it holds.
    pub fn finish_join(&mut self, g: u64, outcome: Option<u64>) -> (r: Result<(), SessionError>)
        requires
            old(self).wf(),
        ensures
            final(self).wf(),
            state_of(old(self)@, g) != SessionState::Connecting ==> r == Err::<(), SessionError>(
                SessionError::NoActiveSession,
            ) && final(self)@ == old(self)@,
            state_of(old(self)@, g) == SessionState::Connecting && outcome is None ==> r == Err::<
                (),
                SessionError,
            >(SessionError::TransportFailure) && final(self)@ == old(self)@.remove(g),
            state_of(old(self)@, g) == SessionState::Connecting && outcome is Some ==> {
                &&& r == Ok::<(), SessionError>(())
                &&& final(self)@.contains_key(g)
                &&& final(self)@ == old(self)@.insert(g, final(self)@[g])
                &&& final(self)@[g].state == SessionState::Connected
                &&& final(self)@[g].connection == outcome
                &&& final(self)@[g].channel == old(self)@[g].channel
                &&& final(self)@[g].queue == old(self)@[g].queue
            },
    {
        let ghost m0 = self.sessions@;
        match self.sessions.remove(&g) {
            None => {
                assert(self.sessions@ =~= m0);
                Err(SessionError::NoActiveSession)
            },
            Some(s) => {
                assert(m0.contains_key(g) && s == m0[g]);
                if s.state != SessionState::Connecting {
                    self.sessions.insert(g, s);
                    assert(self.sessions@ =~= m0);
                    return Err(SessionError::NoActiveSession);
                }
                match outcome {
                    None => Err(SessionError::TransportFailure),
                    Some(conn) => {
                        let GuildSession { channel, state: _, connection: _, queue } = s;
                        self.sessions.insert(
                            g,
                            GuildSession {
                                channel,
                                state: SessionState::Connected,
                                connection: Some(conn),
                                queue,
                            },
                        );
                        assert(self.sessions@ =~= m0.insert(g, self.sessions@[g]));
                        Ok(())
                    },
                }
            },
        }
    }

    /// Tears guild `g`'s session down: its queue goes with it, and the
    /// transport connection to close (if one was open) is returned. With
    /// no session this is `NoActiveSession` and changes nothing, so a
    /// second `leave` racing the first is harmless.
    pub fn leave(&mut self, g: u64) -> (r: Result<Option<u64>, SessionError>)
        requires
            old(self).wf(),
        ensures
            final(self).wf(),
            leave_post(old(self)@, final(self)@, g, r),
    {
        let ghost m0 = self.sessions@;
        match self.sessions.remove(&g) {
            None => {
                assert(self.sessions@ =~= m0);
                Err(SessionError::NoActiveSession)
            },
            Some(s) => {
                assert(m0.contains_key(g) && s == m0[g]);
                Ok(s.connection)
            },
        }
    }
    /// Reserves the next place in guild `g`'s queue for a query about to
    /// be resolved, and returns the new entry's handle. Reserving fixes the
    /// entry's position: entries keep the order of these calls whatever
    /// order their resolutions finish in. Nothing is played.
    pub fn begin_enqueue(&mut self, g: u64) -> (r: Result<u64, SessionError>)
        requires
            old(self).wf(),
        ensures
            final(self).wf(),
            begin_enqueue_post(old(self)@, final(self)@, g, r),
    {
        let ghost m0 = self.sessions@;
        match self.sessions.remove(&g) {
            None => {
                assert(self.sessions@ =~= m0);
                Err(SessionError::NotConnected)
            },
            Some(mut s) => {
                assert(m0.contains_key(g) && s == m0[g]);
                if s.state != SessionState::Connected {
                    self.sessions.insert(g, s);
                    assert(self.sessions@ =~= m0);
                    return Err(SessionError::NotConnected);
                }
                let reserved = s.queue.reserve();
                match reserved {
                    None => {
                        self.sessions.insert(g, s);
                        assert(self.sessions@ =~= m0);
                        Err(SessionError::HandlesExhausted)
                    },
                    Some(h) => {
                        self.sessions.insert(g, s);
                        assert(self.sessions@ =~= m0.insert(g, self.sessions@[g]));
                        Ok(h)
                    },
                }
            },
        }
    }

    /// Settles the entry `ticket` that `begin_enqueue` reserved in guild
    /// `g`'s queue: a resolved track fills it in place, a failed resolution
    /// removes it and is `ResolutionFailed`. `NotConnected` when the
    /// session is gone, `UnknownEntry` when the entry is (it was skipped);
    /// both change nothing. Nothing is played.
    pub fn finish_enqueue(
        &mut self,
        g: u64,
        ticket: u64,
        resolved: Result<TrackMetadata, ResolveError>,
    ) -> (r: Result<(), SessionError>)
        requires
            old(self).wf(),
        ensures
            final(self).wf(),
            finish_enqueue_post(old(self)@, final(self)@, g, ticket, resolved, r),
    {
        let ghost m0 = self.sessions@;
        match self.sessions.remove(&g) {
            None => {
                assert(self.sessions@ =~= m0);
                Err(SessionError::NotConnected)
            },
            Some(mut s) => {
                assert(m0.contains_key(g) && s == m0[g]);
                if s.state != SessionState::Connected {
                    self.sessions.insert(g, s);
                    assert(self.sessions@ =~= m0);
                    return Err(SessionError::NotConnected);
                }
                let r = match resolved {
                    Ok(t) => {
                        if s.queue.fill(ticket, t) {
                            Ok(())
                        } else {
                            Err(SessionError::UnknownEntry)
                        }
                    },
                    Err(e) => {
                        if s.queue.discard(ticket) {
                            Err(SessionError::ResolutionFailed(e))
                        } else {
                            Err(SessionError::UnknownEntry)
                        }
                    },
                };
                self.sessions.insert(g, s);
                proof {
                    if r == Err::<(), SessionError>(SessionError::UnknownEntry) {
                        assert(self.sessions@ =~= m0);
                    } else {
                        assert(self.sessions@ =~= m0.insert(g, self.sessions@[g]));
                    }
                }
                r
            },
        }
    }

    /// Decides playback for guild `g`: when the head of its queue is
    /// resolved and not yet started, marks it started and returns its
    /// handle for the transport to play. This is the only operation that
    /// starts playback.
    pub fn start_due(&mut self, g: u64) -> (r: Option<u64>)
        requires
            old(self).wf(),
        ensures
            final(self).wf(),
            head_due(old(self)@, g) ==> {
                &&& r == Some(old(self)@[g].queue@[0].handle)
                &&& only_changes(old(self)@, final(self)@, g)
                &&& final(self)@[g].queue@ == old(self)@[g].queue@
                &&& final(self)@[g].queue.started()
            },
            !head_due(old(self)@, g) ==> r is None && final(self)@ == old(self)@,
    {
        let ghost m0 = self.sessions@;
        match self.sessions.remove(&g) {
            None => {
                assert(self.sessions@ =~= m0);
                None
            },
            Some(mut s) => {
                assert(m0.contains_key(g) && s == m0[g]);
                if s.state != SessionState::Connected {
                    self.sessions.insert(g, s);
                    assert(self.sessions@ =~= m0);
                    return None;
                }
                let r = s.queue.start_due();
                self.sessions.insert(g, s);
                if r.is_none() {
                    assert(self.sessions@ =~= m0);
                } else {
                    assert(self.sessions@ =~= m0.insert(g, self.sessions@[g]));
                }
                r
            },
        }
    }

    /// Skips the head of guild `g`'s queue: it is removed at once and, if
    /// it had been started, its handle is returned for the transport to
    /// stop (its later completion then no longer matches the head and is
    /// ignored). An empty queue is `QueueEmpty` and a guild without a
    /// session `NoActiveSession`; neither changes anything, so the session
    /// stays connected.
    pub fn skip(&mut self, g: u64) -> (r: Result<Option<u64>, SessionError>)
        requires
            old(self).wf(),
        ensures
            final(self).wf(),
            skip_post(old(self)@, final(self)@, g, r),
            state_of(final(self)@, g) == state_of(old(self)@, g),
    {
        let ghost m0 = self.sessions@;
        match self.sessions.remove(&g) {
            None => {
                assert(self.sessions@ =~= m0);
                Err(SessionError::NoActiveSession)
            },
            Some(mut s) => {
                assert(m0.contains_key(g) && s == m0[g]);
                if s.queue.is_empty() {
                    self.sessions.insert(g, s);
                    assert(self.sessions@ =~= m0);
                    return Err(SessionError::QueueEmpty);
                }
                let was_started = s.queue.head_started();
                let head = s.queue.advance();
                let stop = match head {
                    Some(e) => if was_started {
                        Some(e.handle)
                    } else {
                        None
                    },
                    None => None,
                };
                self.sessions.insert(g, s);
                assert(self.sessions@ =~= m0.insert(g, self.sessions@[g]));
                Ok(stop)
            },
        }
    }

    /// The transport reports that track `handle` of guild `g` has ended.
    /// When it is the started head, the queue advances and the result is
    /// true; any other report (a late one after a skip or a teardown, or a
    /// repeat) is ignored and the result is false.
    pub fn track_ended(&mut self, g: u64, handle: u64) -> (r: bool)
        requires
            old(self).wf(),
        ensures
            final(self).wf(),
            track_ended_post(old(self)@, final(self)@, g, handle, r),
    {
        let ghost m0 = self.sessions@;
        match self.sessions.remove(&g) {
            None => {
                assert(self.sessions@ =~= m0);
                false
            },
            Some(mut s) => {
                assert(m0.contains_key(g) && s == m0[g]);
                if !s.queue.head_started() || s.queue.list()[0].handle != handle {
                    self.sessions.insert(g, s);
                    assert(self.sessions@ =~= m0);
                    return false;
                }
                s.queue.advance();
                self.sessions.insert(g, s);
                assert(self.sessions@ =~= m0.insert(g, self.sessions@[g]));
                true
            },
        }
    }
}

} // verus!
