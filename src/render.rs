//! Plain-text rendering of a guild's queue.
use vstd::prelude::*;
use vstd::string::StringExecFns;
use crate::queue::QueueEntry;
use crate::session::GuildSession;
use crate::text::{clock_text, decimal, decimal_text, format_clock};

verus! {

/// Reads an entry's title: `Unknown` until it is resolved.
pub struct SongTitleKey;

/// Reads an entry's source URL: `Unknown` until it is resolved.
pub struct SongUrlKey;

/// Reads an entry's length as `MM:SS`: `Unknown` until it is resolved or
/// when the lookup reported none.
pub struct SongLengthKey;

pub open spec fn title_text(e: QueueEntry) -> Seq<char> {
    match e.track {
        Some(t) => t.title@,
        None => "Unknown"@,
    }
}

pub open spec fn url_text(e: QueueEntry) -> Seq<char> {
    match e.track {
        Some(t) => t.source_url@,
        None => "Unknown"@,
    }
}

pub open spec fn length_text(e: QueueEntry) -> Seq<char> {
    match e.track {
        Some(t) => match t.duration_secs {
            Some(d) => clock_text(d as nat),
            None => "Unknown"@,
        },
        None => "Unknown"@,
    }
}

/// An elapsed play time as `MM:SS`, `Unknown` when the transport gave none.
pub open spec fn elapsed_text(elapsed_secs: Option<u64>) -> Seq<char> {
    match elapsed_secs {
        Some(d) => clock_text(d as nat),
        None => "Unknown"@,
    }
}

/// The line for entry `e` at position `i` (counted from 0), shown with its
/// elapsed time when it is the track now playing.
pub open spec fn line_text(i: nat, e: QueueEntry, playing_now: bool, elapsed_secs: Option<u64>) -> Seq<char> {
    let head = decimal_text(i + 1) + ". "@ + title_text(e) + " - "@ + url_text(e);
    if playing_now {
        head + " (currently playing "@ + elapsed_text(elapsed_secs) + "/"@ + length_text(e) + ")"@
    } else {
        head + " - "@ + length_text(e)
    }
}

/// The first `n` lines of queue `s`, joined by newlines. Only the head can
/// be the track now playing, and only when the transport reports its handle.
pub open spec fn lines_text(s: Seq<QueueEntry>, n: nat, playing: Option<u64>, elapsed_secs: Option<u64>) -> Seq<char>
    decreases n,
{
    if n == 0 {
        Seq::empty()
    } else if n == 1 {
        line_text(0, s[0], playing == Some(s[0].handle), elapsed_secs)
    } else {
        lines_text(s, (n - 1) as nat, playing, elapsed_secs) + "\n"@ + line_text(
            (n - 1) as nat,
            s[n - 1],
            false,
            elapsed_secs,
        )
    }
}

/// What `render_queue` shows for a session's queue `s`.
pub open spec fn queue_text(s: Seq<QueueEntry>, playing: Option<u64>, elapsed_secs: Option<u64>) -> Seq<char> {
    if s.len() == 0 {
        "Queue is empty."@
    } else {
        "## Queue:\n```\n"@ + lines_text(s, s.len(), playing, elapsed_secs) + "\n```"@
    }
}

/// What `render_queue` shows for a guild without a session.
pub open spec fn no_session_text() -> Seq<char> {
    "Not in a voice channel, no queue to show."@
}

impl SongTitleKey {
    pub fn get(&self, e: &QueueEntry) -> (r: String)
        ensures
            r@ == title_text(*e),
    {
        match &e.track {
            Some(t) => t.title.clone(),
            None => String::from_str("Unknown"),
        }
    }
}

impl SongUrlKey {
    pub fn get(&self, e: &QueueEntry) -> (r: String)
        ensures
            r@ == url_text(*e),
    {
        match &e.track {
            Some(t) => t.source_url.clone(),
            None => String::from_str("Unknown"),
        }
    }
}

impl SongLengthKey {
    pub fn get(&self, e: &QueueEntry) -> (r: String)
        ensures
            r@ == length_text(*e),
    {
        match &e.track {
            Some(t) => match t.duration_secs {
                Some(d) => format_clock(d),
                None => String::from_str("Unknown"),
            },
            None => String::from_str("Unknown"),
        }
    }
}

fn render_line(i: usize, e: &QueueEntry, playing_now: bool, elapsed_secs: Option<u64>) -> (r: String)
    requires
        i < usize::MAX,
    ensures
        r@ == line_text(i as nat, *e, playing_now, elapsed_secs),
{
    let mut s = decimal((i + 1) as u64);
    s.append(". ");
    let title = SongTitleKey.get(e);
    s.append(title.as_str());
    s.append(" - ");
    let url = SongUrlKey.get(e);
    s.append(url.as_str());
    let length = SongLengthKey.get(e);
    if playing_now {
        s.append(" (currently playing ");
        let elapsed = match elapsed_secs {
            Some(d) => format_clock(d),
            None => String::from_str("Unknown"),
        };
        s.append(elapsed.as_str());
        s.append("/");
        s.append(length.as_str());
        s.append(")");
    } else {
        s.append(" - ");
        s.append(length.as_str());
    }
    s
}

/// Renders a guild's queue as text, one numbered line per entry in queue
/// order. The head is shown as playing, with `elapsed_secs` (the
/// transport's play time for it), when `playing` (the transport's active
/// track) is the head's handle. A guild without a session, and an empty
/// queue, each get a fixed message.
pub fn render_queue(session: Option<&GuildSession>, playing: Option<u64>, elapsed_secs: Option<u64>) -> (r: String)
    ensures
        session is None ==> r@ == no_session_text(),
        session is Some ==> r@ == queue_text(session->0.queue@, playing, elapsed_secs),
{
    let s = match session {
        None => {
            return String::from_str("Not in a voice channel, no queue to show.");
        },
        Some(s) => s,
    };
    let entries = s.queue.list();
    let n = entries.len();
    if n == 0 {
        return String::from_str("Queue is empty.");
    }
    let mut out = String::from_str("## Queue:\n```\n");
    let first = render_line(0, &entries[0], playing == Some(entries[0].handle), elapsed_secs);
    out.append(first.as_str());
    let mut i: usize = 1;
    while i < n
        invariant
            n == entries@.len(),
            1 <= i <= n,
            out@ == "## Queue:\n```\n"@ + lines_text(entries@, i as nat, playing, elapsed_secs),
        decreases n - i,
    {
        let line = render_line(i, &entries[i], false, elapsed_secs);
        out.append("\n");
        out.append(line.as_str());
        assert(out@ =~= "## Queue:\n```\n"@ + lines_text(entries@, (i + 1) as nat, playing, elapsed_secs));
        i = i + 1;
    }
    out.append("\n```");
    out
}

} // verus!
