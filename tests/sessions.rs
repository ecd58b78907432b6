use musicbot::render::render_queue;
use musicbot::session::{JoinStep, SessionError, SessionState, SessionTable};
use musicbot::track::{ResolveError, TrackMetadata};
use musicbot::watcher::{count_listeners, Handler, TrackErrorNotifier, VoiceMember};

const GUILD: u64 = 10;
const CHANNEL: u64 = 20;
const CONN: u64 = 30;

fn track(title: &str, secs: u64) -> TrackMetadata {
    TrackMetadata {
        title: title.to_string(),
        source_url: format!("https://example.com/{}", title),
        duration_secs: Some(secs),
    }
}

fn connected() -> SessionTable {
    let mut t = SessionTable::new();
    assert_eq!(t.begin_join(GUILD, Some(CHANNEL)), Ok(JoinStep::Connect(CHANNEL)));
    assert_eq!(t.state(GUILD), SessionState::Connecting);
    assert_eq!(t.finish_join(GUILD, Some(CONN)), Ok(()));
    assert_eq!(t.state(GUILD), SessionState::Connected);
    t
}

fn enqueue(t: &mut SessionTable, m: TrackMetadata) -> u64 {
    let h = t.begin_enqueue(GUILD).unwrap();
    assert_eq!(t.finish_enqueue(GUILD, h, Ok(m)), Ok(()));
    h
}

fn member(channel: Option<u64>, is_bot: bool) -> VoiceMember {
    VoiceMember { channel, is_bot }
}

#[test]
fn join_needs_a_voice_channel() {
    let mut t = SessionTable::new();
    assert_eq!(t.begin_join(GUILD, None), Err(SessionError::NotInVoiceChannel));
    assert_eq!(t.state(GUILD), SessionState::Disconnected);
}

#[test]
fn second_join_reuses_the_session() {
    let mut t = SessionTable::new();
    assert_eq!(t.begin_join(GUILD, Some(CHANNEL)), Ok(JoinStep::Connect(CHANNEL)));
    assert_eq!(t.begin_join(GUILD, Some(CHANNEL + 1)), Ok(JoinStep::Reuse));
    assert_eq!(t.finish_join(GUILD, Some(CONN)), Ok(()));
    assert_eq!(t.begin_join(GUILD, Some(CHANNEL)), Ok(JoinStep::Reuse));
    assert_eq!(t.session(GUILD).unwrap().channel, CHANNEL);
    assert_eq!(t.finish_join(GUILD, Some(CONN + 1)), Err(SessionError::NoActiveSession));
    assert_eq!(t.session(GUILD).unwrap().connection, Some(CONN));
}

#[test]
fn connect_failure_rolls_back() {
    let mut t = SessionTable::new();
    t.begin_join(GUILD, Some(CHANNEL)).unwrap();
    assert_eq!(t.finish_join(GUILD, None), Err(SessionError::TransportFailure));
    assert_eq!(t.state(GUILD), SessionState::Disconnected);
    assert!(t.session(GUILD).is_none());
}

#[test]
fn leave_during_connect_rejects_the_late_connection() {
    let mut t = SessionTable::new();
    t.begin_join(GUILD, Some(CHANNEL)).unwrap();
    assert_eq!(t.leave(GUILD), Ok(None));
    assert_eq!(t.finish_join(GUILD, Some(CONN)), Err(SessionError::NoActiveSession));
    assert_eq!(t.state(GUILD), SessionState::Disconnected);
}

#[test]
fn leave_twice_tears_down_once() {
    let mut t = connected();
    enqueue(&mut t, track("a", 10));
    assert_eq!(t.leave(GUILD), Ok(Some(CONN)));
    assert_eq!(t.leave(GUILD), Err(SessionError::NoActiveSession));
    assert_eq!(t.state(GUILD), SessionState::Disconnected);
}

#[test]
fn guilds_are_independent() {
    let mut t = connected();
    assert_eq!(t.begin_join(GUILD + 1, Some(CHANNEL)), Ok(JoinStep::Connect(CHANNEL)));
    assert_eq!(t.leave(GUILD + 1), Ok(None));
    assert_eq!(t.state(GUILD), SessionState::Connected);
}

#[test]
fn enqueue_needs_a_connected_session() {
    let mut t = SessionTable::new();
    assert_eq!(t.begin_enqueue(GUILD), Err(SessionError::NotConnected));
    t.begin_join(GUILD, Some(CHANNEL)).unwrap();
    assert_eq!(t.begin_enqueue(GUILD), Err(SessionError::NotConnected));
    assert_eq!(t.finish_enqueue(GUILD, 0, Ok(track("a", 1))), Err(SessionError::NotConnected));
}

#[test]
fn enqueue_order_is_call_order() {
    let mut t = connected();
    let a = t.begin_enqueue(GUILD).unwrap();
    let b = t.begin_enqueue(GUILD).unwrap();
    let c = t.begin_enqueue(GUILD).unwrap();
    assert_eq!(t.finish_enqueue(GUILD, b, Ok(track("B", 2))), Ok(()));
    assert_eq!(t.finish_enqueue(GUILD, c, Ok(track("C", 3))), Ok(()));
    assert_eq!(t.finish_enqueue(GUILD, a, Ok(track("A", 1))), Ok(()));
    let entries = t.session(GUILD).unwrap().queue.list();
    let titles: Vec<&str> =
        entries.iter().map(|e| e.track.as_ref().unwrap().title.as_str()).collect();
    assert_eq!(titles, vec!["A", "B", "C"]);
    assert_eq!(entries.iter().map(|e| e.handle).collect::<Vec<u64>>(), vec![a, b, c]);
}

#[test]
fn resolving_starts_no_playback() {
    let mut t = connected();
    let h = t.begin_enqueue(GUILD).unwrap();
    assert!(!t.session(GUILD).unwrap().queue.head_started());
    assert_eq!(t.start_due(GUILD), None);
    assert_eq!(t.finish_enqueue(GUILD, h, Ok(track("lofi beats", 90))), Ok(()));
    assert!(!t.session(GUILD).unwrap().queue.head_started());
    assert_eq!(t.start_due(GUILD), Some(h));
    assert_eq!(t.start_due(GUILD), None);
}

#[test]
fn pending_head_holds_back_later_tracks() {
    let mut t = connected();
    let a = t.begin_enqueue(GUILD).unwrap();
    let b = t.begin_enqueue(GUILD).unwrap();
    assert_eq!(t.finish_enqueue(GUILD, b, Ok(track("B", 2))), Ok(()));
    assert_eq!(t.start_due(GUILD), None);
    assert_eq!(t.finish_enqueue(GUILD, a, Ok(track("A", 1))), Ok(()));
    assert_eq!(t.start_due(GUILD), Some(a));
}

#[test]
fn failed_resolution_drops_its_entry() {
    let mut t = connected();
    let a = t.begin_enqueue(GUILD).unwrap();
    let b = t.begin_enqueue(GUILD).unwrap();
    assert_eq!(
        t.finish_enqueue(GUILD, a, Err(ResolveError::NoResults)),
        Err(SessionError::ResolutionFailed(ResolveError::NoResults))
    );
    assert_eq!(t.session(GUILD).unwrap().queue.len(), 1);
    assert_eq!(t.finish_enqueue(GUILD, b, Ok(track("B", 2))), Ok(()));
    assert_eq!(t.start_due(GUILD), Some(b));
}

#[test]
fn settling_an_unknown_entry_fails() {
    let mut t = connected();
    let a = t.begin_enqueue(GUILD).unwrap();
    assert_eq!(t.skip(GUILD), Ok(None));
    assert_eq!(t.finish_enqueue(GUILD, a, Ok(track("A", 1))), Err(SessionError::UnknownEntry));
    assert_eq!(
        t.finish_enqueue(GUILD, a, Err(ResolveError::FetchFailed)),
        Err(SessionError::UnknownEntry)
    );
}

#[test]
fn skip_on_empty_queue_keeps_connection() {
    let mut t = connected();
    assert_eq!(t.skip(GUILD), Err(SessionError::QueueEmpty));
    assert_eq!(t.state(GUILD), SessionState::Connected);
}

#[test]
fn skip_without_session() {
    let mut t = SessionTable::new();
    assert_eq!(t.skip(GUILD), Err(SessionError::NoActiveSession));
}

#[test]
fn skip_stops_the_playing_head() {
    let mut t = connected();
    let a = enqueue(&mut t, track("a", 10));
    let b = enqueue(&mut t, track("b", 10));
    assert_eq!(t.start_due(GUILD), Some(a));
    assert_eq!(t.skip(GUILD), Ok(Some(a)));
    assert!(!t.track_ended(GUILD, a));
    assert_eq!(t.start_due(GUILD), Some(b));
}

#[test]
fn skip_until_empty_renders_empty_queue() {
    let mut t = connected();
    enqueue(&mut t, track("a", 10));
    enqueue(&mut t, track("b", 20));
    enqueue(&mut t, track("c", 30));
    t.start_due(GUILD);
    loop {
        match t.skip(GUILD) {
            Ok(_) => {
                t.start_due(GUILD);
            }
            Err(e) => {
                assert_eq!(e, SessionError::QueueEmpty);
                break;
            }
        }
    }
    assert_eq!(render_queue(t.session(GUILD), None, None), "Queue is empty.");
    assert_eq!(t.state(GUILD), SessionState::Connected);
}

#[test]
fn completion_advances_once() {
    let mut t = connected();
    let a = enqueue(&mut t, track("a", 10));
    let b = enqueue(&mut t, track("b", 10));
    assert!(!t.track_ended(GUILD, a));
    assert_eq!(t.start_due(GUILD), Some(a));
    assert!(t.track_ended(GUILD, a));
    assert!(!t.track_ended(GUILD, a));
    assert_eq!(t.start_due(GUILD), Some(b));
    assert!(t.track_ended(GUILD, b));
    assert!(t.session(GUILD).unwrap().queue.is_empty());
}

#[test]
fn late_completion_after_leave_is_ignored() {
    let mut t = connected();
    let a = enqueue(&mut t, track("a", 10));
    t.start_due(GUILD);
    t.leave(GUILD).unwrap();
    assert!(!t.track_ended(GUILD, a));
}

#[test]
fn render_scenario_durations() {
    let mut t = connected();
    let a = enqueue(&mut t, track("a", 65));
    enqueue(&mut t, track("b", 125));
    enqueue(&mut t, track("c", 40));
    assert_eq!(t.start_due(GUILD), Some(a));
    let text = render_queue(t.session(GUILD), Some(a), Some(7));
    assert_eq!(
        text,
        "## Queue:\n```\n\
         1. a - https://example.com/a (currently playing 00:07/01:05)\n\
         2. b - https://example.com/b - 02:05\n\
         3. c - https://example.com/c - 00:40\n```"
    );
}

#[test]
fn render_without_reported_playback() {
    let mut t = connected();
    enqueue(&mut t, track("a", 65));
    t.begin_enqueue(GUILD).unwrap();
    let text = render_queue(t.session(GUILD), None, Some(7));
    assert_eq!(
        text,
        "## Queue:\n```\n1. a - https://example.com/a - 01:05\n2. Unknown - Unknown - Unknown\n```"
    );
}

#[test]
fn render_unknown_elapsed_and_length() {
    let mut t = connected();
    let h = t.begin_enqueue(GUILD).unwrap();
    let m = TrackMetadata {
        title: "x".to_string(),
        source_url: "u".to_string(),
        duration_secs: None,
    };
    t.finish_enqueue(GUILD, h, Ok(m)).unwrap();
    let text = render_queue(t.session(GUILD), Some(h), None);
    assert_eq!(text, "## Queue:\n```\n1. x - u (currently playing Unknown/Unknown)\n```");
}

#[test]
fn render_without_session() {
    let t = SessionTable::new();
    assert_eq!(
        render_queue(t.session(GUILD), None, None),
        "Not in a voice channel, no queue to show."
    );
}

#[test]
fn listeners_exclude_bots_and_other_channels() {
    let members = vec![
        member(Some(CHANNEL), true),
        member(Some(CHANNEL), false),
        member(Some(CHANNEL + 1), false),
        member(None, false),
    ];
    assert_eq!(count_listeners(&members, CHANNEL), 1);
    assert_eq!(count_listeners(&members, CHANNEL + 1), 1);
    assert_eq!(count_listeners(&vec![], CHANNEL), 0);
}

#[test]
fn idle_channel_leaves_once() {
    let mut t = connected();
    let left_alone = vec![member(Some(CHANNEL), true), member(None, false)];
    assert_eq!(Handler.voice_state_update(&mut t, GUILD, Some(CHANNEL), &left_alone), Some(Some(CONN)));
    assert_eq!(t.state(GUILD), SessionState::Disconnected);
    assert_eq!(t.leave(GUILD), Err(SessionError::NoActiveSession));
    assert_eq!(Handler.voice_state_update(&mut t, GUILD, Some(CHANNEL), &left_alone), None);
}

#[test]
fn listener_present_keeps_session() {
    let mut t = connected();
    let members = vec![member(Some(CHANNEL), true), member(Some(CHANNEL), false)];
    assert_eq!(Handler.voice_state_update(&mut t, GUILD, Some(CHANNEL), &members), None);
    assert_eq!(t.state(GUILD), SessionState::Connected);
}

#[test]
fn unrelated_changes_are_ignored() {
    let mut t = connected();
    let nobody = vec![member(Some(CHANNEL), true)];
    assert_eq!(Handler.voice_state_update(&mut t, GUILD, None, &nobody), None);
    assert_eq!(Handler.voice_state_update(&mut t, GUILD, Some(CHANNEL + 1), &nobody), None);
    assert_eq!(Handler.voice_state_update(&mut t, GUILD + 1, Some(CHANNEL), &nobody), None);
    assert_eq!(t.state(GUILD), SessionState::Connected);
}

#[test]
fn failed_track_advances_and_names_its_url() {
    let mut t = connected();
    let a = enqueue(&mut t, track("a", 10));
    let b = enqueue(&mut t, track("b", 10));
    assert_eq!(t.start_due(GUILD), Some(a));
    let line = TrackErrorNotifier.act(&mut t, GUILD, a);
    assert_eq!(line, "Track \"https://example.com/a\" encountered an error.");
    assert_eq!(t.state(GUILD), SessionState::Connected);
    assert_eq!(t.start_due(GUILD), Some(b));
    let other = TrackErrorNotifier.act(&mut t, GUILD, a);
    assert_eq!(other, "Track \"Unknown\" encountered an error.");
    assert_eq!(t.session(GUILD).unwrap().queue.len(), 1);
}

#[test]
fn current_is_the_reported_head() {
    let mut t = connected();
    let a = enqueue(&mut t, track("a", 10));
    let b = enqueue(&mut t, track("b", 10));
    let q = &t.session(GUILD).unwrap().queue;
    assert_eq!(q.current(Some(a)).map(|e| e.handle), Some(a));
    assert!(q.current(Some(b)).is_none());
    assert!(q.current(None).is_none());
}
