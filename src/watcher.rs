//! Reactions to transport and gateway events: tearing down sessions left
//! without listeners, and recovering from a track that failed to play.
use vstd::prelude::*;
use vstd::string::StringExecFns;
use crate::session::{GuildSession, SessionTable, ends_head, leave_post, track_ended_post};

verus! {

/// A member's voice state as the gateway reports it.
pub struct VoiceMember {
    /// The voice channel the member is in, if any.
    pub channel: Option<u64>,
    pub is_bot: bool,
}

/// The number of members of `s` other than bots that are in channel `c`.
pub open spec fn listeners(s: Seq<VoiceMember>, c: u64) -> nat
    decreases s.len(),
{
    if s.len() == 0 {
        0
    } else {
        listeners(s.drop_last(), c) + if !s.last().is_bot && s.last().channel == Some(c) {
            1nat
        } else {
            0nat
        }
    }
}

/// A membership change in guild `g`, where a member left `old_channel`
/// and `members` are the guild's voice states afterwards, leaves the
/// guild's session without listeners.
pub open spec fn idle_after(
    m: Map<u64, GuildSession>,
    g: u64,
    old_channel: Option<u64>,
    members: Seq<VoiceMember>,
) -> bool {
    &&& old_channel is Some
    &&& m.contains_key(g)
    &&& m[g].channel == old_channel->0
    &&& listeners(members, old_channel->0) == 0
}

/// The watcher's reaction to a membership change takes `old_m` to `new_m`
/// with result `r`: a teardown exactly when the session became idle.
pub open spec fn watch_post(
    old_m: Map<u64, GuildSession>,
    new_m: Map<u64, GuildSession>,
    g: u64,
    old_channel: Option<u64>,
    members: Seq<VoiceMember>,
    r: Option<Option<u64>>,
) -> bool {
    if idle_after(old_m, g, old_channel, members) {
        r == Some(old_m[g].connection) && leave_post(old_m, new_m, g, Ok(old_m[g].connection))
    } else {
        r is None && new_m == old_m
    }
}

/// The message logged when track `handle` of guild `g` fails.
pub open spec fn failure_text(m: Map<u64, GuildSession>, g: u64, handle: u64) -> Seq<char> {
    let url = if ends_head(m, g, handle) {
        m[g].queue@[0].track->0.source_url@
    } else {
        "Unknown"@
    };
    "Track \""@ + url + "\" encountered an error."@
}

/// Counts the members of `members` other than bots that are in channel `c`.
pub fn count_listeners(members: &Vec<VoiceMember>, c: u64) -> (r: usize)
    ensures
        r == listeners(members@, c),
{
    let n = members.len();
    let mut count: usize = 0;
    let mut i: usize = 0;
    while i < n
        invariant
            n == members@.len(),
            i <= n,
            count <= i,
            count == listeners(members@.subrange(0, i as int), c),
        decreases n - i,
    {
        assert(members@.subrange(0, (i + 1) as int).drop_last() =~= members@.subrange(0, i as int));
        if !members[i].is_bot && members[i].channel == Some(c) {
            count = count + 1;
        }
        i = i + 1;
    }
    assert(members@.subrange(0, n as int) =~= members@);
    count
}

/// Watches voice membership and reclaims connections nobody listens to.
pub struct Handler;

impl Handler {
    /// Reacts to a member of guild `g` leaving `old_channel` (`None` when
    /// the member was in no channel before), given the guild's voice
    /// states afterwards. When that channel is the session's and no
    /// member other than a bot is left in it, the session is torn down
    /// through `leave` and the connection to close is returned; every
    /// other change is ignored.
    pub fn voice_state_update(
        &self,
        table: &mut SessionTable,
        g: u64,
        old_channel: Option<u64>,
        members: &Vec<VoiceMember>,
    ) -> (r: Option<Option<u64>>)
        requires
            old(table).wf(),
        ensures
            final(table).wf(),
            watch_post(old(table)@, final(table)@, g, old_channel, members@, r),
    {
        let c = match old_channel {
            None => {
                return None;
            },
            Some(c) => c,
        };
        let ours = match table.session(g) {
            None => false,
            Some(s) => s.channel == c,
        };
        if !ours || count_listeners(members, c) != 0 {
            return None;
        }
        match table.leave(g) {
            Ok(conn) => Some(conn),
            Err(_) => None,
        }
    }
}

/// Recovers from a track that failed while playing.
pub struct TrackErrorNotifier;

impl TrackErrorNotifier {
    /// Handles the transport's report that track `handle` of guild `g`
    /// failed: a failed head counts as ended, so the queue advances and
    /// the session lives on. Returns the line to log, naming the track's
    /// source URL (`Unknown` for a track that is not the started head).
    pub fn act(&self, table: &mut SessionTable, g: u64, handle: u64) -> (r: String)
        requires
            old(table).wf(),
        ensures
            final(table).wf(),
            track_ended_post(old(table)@, final(table)@, g, handle, ends_head(old(table)@, g, handle)),
            r@ == failure_text(old(table)@, g, handle),
    {
        let mut url = String::from_str("Unknown");
        match table.session(g) {
            Some(s) => {
                if s.queue.head_started() && s.queue.list()[0].handle == handle {
                    match &s.queue.list()[0].track {
                        Some(t) => {
                            url = t.source_url.clone();
                        },
                        None => {},
                    }
                }
            },
            None => {},
        }
        table.track_ended(g, handle);
        let mut line = String::from_str("Track \"");
        line.append(url.as_str());
        line.append("\" encountered an error.");
        line
    }
}

} // verus!
