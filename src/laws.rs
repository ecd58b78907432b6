//! Laws relating several operations on the session table.
use vstd::prelude::*;
use crate::queue::{QueueEntry, handles_increasing, is_pending_at};
use crate::session::{
    GuildSession, JoinStep, SessionError, begin_enqueue_post, begin_join_post, finish_enqueue_post,
    leave_post, table_wf,
};
use crate::track::{ResolveError, TrackMetadata};
use crate::watcher::{VoiceMember, watch_post};

verus! {

/// Two join attempts for one guild create at most one session: once a
/// guild has a session, a further join reuses it and changes nothing.
pub proof fn law_one_session_per_guild(
    m0: Map<u64, GuildSession>,
    m1: Map<u64, GuildSession>,
    m2: Map<u64, GuildSession>,
    g: u64,
    c1: Option<u64>,
    c2: Option<u64>,
    r1: Result<JoinStep, SessionError>,
    r2: Result<JoinStep, SessionError>,
)
    requires
        begin_join_post(m0, m1, g, c1, r1),
        begin_join_post(m1, m2, g, c2, r2),
    ensures
        m1.contains_key(g) ==> m2 == m1,
        !(r1 is Ok && r1->Ok_0 is Connect && r2 is Ok && r2->Ok_0 is Connect),
{
}

/// Leaving twice tears the session down at most once: the second call
/// finds no session, reports `NoActiveSession` and changes nothing.
pub proof fn law_leave_idempotent(
    m0: Map<u64, GuildSession>,
    m1: Map<u64, GuildSession>,
    m2: Map<u64, GuildSession>,
    g: u64,
    r1: Result<Option<u64>, SessionError>,
    r2: Result<Option<u64>, SessionError>,
)
    requires
        leave_post(m0, m1, g, r1),
        leave_post(m1, m2, g, r2),
    ensures
        r1 is Ok <==> m0.contains_key(g),
        r2 == Err::<Option<u64>, SessionError>(SessionError::NoActiveSession),
        m2 == m1,
        !m2.contains_key(g),
{
}

/// When the watcher tears an idle session down, a `leave` right after it
/// (or a second idle report) finds nothing to tear down: the connection
/// is released once.
pub proof fn law_idle_teardown_once(
    m0: Map<u64, GuildSession>,
    m1: Map<u64, GuildSession>,
    m2: Map<u64, GuildSession>,
    m3: Map<u64, GuildSession>,
    g: u64,
    old_channel: Option<u64>,
    members: Seq<VoiceMember>,
    again_channel: Option<u64>,
    again_members: Seq<VoiceMember>,
    r1: Option<Option<u64>>,
    r2: Result<Option<u64>, SessionError>,
    r3: Option<Option<u64>>,
)
    requires
        watch_post(m0, m1, g, old_channel, members, r1),
        leave_post(m1, m2, g, r2),
        watch_post(m1, m3, g, again_channel, again_members, r3),
    ensures
        r1 is Some ==> r2 == Err::<Option<u64>, SessionError>(SessionError::NoActiveSession)
            && m2 == m1,
        r1 is Some ==> r3 is None && m3 == m1,
{
}

/// Reserving and then settling an entry never starts playback: the
/// session's started flag is untouched by resolution.
pub proof fn law_resolution_plays_nothing(
    m0: Map<u64, GuildSession>,
    m1: Map<u64, GuildSession>,
    m2: Map<u64, GuildSession>,
    g: u64,
    r1: Result<u64, SessionError>,
    ticket: u64,
    resolved: Result<TrackMetadata, ResolveError>,
    r2: Result<(), SessionError>,
)
    requires
        begin_enqueue_post(m0, m1, g, r1),
        finish_enqueue_post(m1, m2, g, ticket, resolved, r2),
    ensures
        m2.contains_key(g) == m0.contains_key(g),
        m0.contains_key(g) ==> m2[g].queue.started() == m0[g].queue.started(),
{
}

/// Filling the pending entry `k` of a queue with increasing handles
/// changes that entry alone.
proof fn lemma_fill_one(q0: Seq<QueueEntry>, q1: Seq<QueueEntry>, k: u64, t: TrackMetadata)
    requires
        handles_increasing(q0),
        exists|i: int| is_pending_at(q0, i, k) && q1 == q0.update(i, QueueEntry { handle: k, track: Some(t) }),
    ensures
        q1.len() == q0.len(),
        handles_increasing(q1),
        forall|j: int| 0 <= j < q0.len() ==> #[trigger] q1[j] == if q0[j].handle == k {
            QueueEntry { handle: k, track: Some(t) }
        } else {
            q0[j]
        },
{
    let i = choose|i: int| is_pending_at(q0, i, k) && q1 == q0.update(i, QueueEntry { handle: k, track: Some(t) });
    assert forall|j: int| 0 <= j < q0.len() implies #[trigger] q1[j] == if q0[j].handle == k {
        QueueEntry { handle: k, track: Some(t) }
    } else {
        q0[j]
    } by {
        if j != i && q0[j].handle == k {
            if j < i {
                assert(q0[j].handle < q0[i].handle);
            } else {
                assert(q0[i].handle < q0[j].handle);
            }
        }
    }
}

/// Entries keep the order in which they were reserved, whatever order
/// their resolutions finish in: three entries reserved as `a`, `b`, `c`
/// and settled in any order stand at the tail as `a`, `b`, `c`, each
/// with its own track.
pub proof fn law_enqueue_order_kept(
    m0: Map<u64, GuildSession>,
    m1: Map<u64, GuildSession>,
    m2: Map<u64, GuildSession>,
    m3: Map<u64, GuildSession>,
    m4: Map<u64, GuildSession>,
    m5: Map<u64, GuildSession>,
    m6: Map<u64, GuildSession>,
    g: u64,
    a: u64,
    b: u64,
    c: u64,
    ta: TrackMetadata,
    tb: TrackMetadata,
    tc: TrackMetadata,
    k1: u64,
    k2: u64,
    k3: u64,
)
    requires
        table_wf(m0),
        begin_enqueue_post(m0, m1, g, Ok(a)),
        begin_enqueue_post(m1, m2, g, Ok(b)),
        begin_enqueue_post(m2, m3, g, Ok(c)),
        k1 != k2 && k1 != k3 && k2 != k3,
        k1 == a || k1 == b || k1 == c,
        k2 == a || k2 == b || k2 == c,
        k3 == a || k3 == b || k3 == c,
        finish_enqueue_post(m3, m4, g, k1, Ok(if k1 == a { ta } else if k1 == b { tb } else { tc }), Ok(())),
        finish_enqueue_post(m4, m5, g, k2, Ok(if k2 == a { ta } else if k2 == b { tb } else { tc }), Ok(())),
        finish_enqueue_post(m5, m6, g, k3, Ok(if k3 == a { ta } else if k3 == b { tb } else { tc }), Ok(())),
    ensures
        ({
            let n = m0[g].queue@.len() as int;
            let q = m6[g].queue@;
            &&& q.len() == n + 3
            &&& q.subrange(0, n) == m0[g].queue@
            &&& q[n] == QueueEntry { handle: a, track: Some(ta) }
            &&& q[n + 1] == QueueEntry { handle: b, track: Some(tb) }
            &&& q[n + 2] == QueueEntry { handle: c, track: Some(tc) }
        }),
{
    let n = m0[g].queue@.len() as int;
    m0[g].queue.lemma_handles();
    let q0 = m0[g].queue@;
    let q3 = m3[g].queue@;
    assert(q3 =~= q0.push(QueueEntry { handle: a, track: None }).push(
        QueueEntry { handle: b, track: None },
    ).push(QueueEntry { handle: c, track: None }));
    assert(forall|j: int| 0 <= j < n ==> q0[j].handle < a);
    assert(handles_increasing(q3));
    let t1 = if k1 == a { ta } else if k1 == b { tb } else { tc };
    let t2 = if k2 == a { ta } else if k2 == b { tb } else { tc };
    let t3 = if k3 == a { ta } else if k3 == b { tb } else { tc };
    lemma_fill_one(q3, m4[g].queue@, k1, t1);
    lemma_fill_one(m4[g].queue@, m5[g].queue@, k2, t2);
    lemma_fill_one(m5[g].queue@, m6[g].queue@, k3, t3);
    let q = m6[g].queue@;
    assert(q.subrange(0, n) =~= q0);
}

} // verus!
