use hotkey_player::player::{is_hotkey, Player, Trigger};
use hotkey_player::playlist::{load_playlist, manifest_entries, MissingEntry, Playlist};
use hotkey_player::session::{Phase, Session, SessionAction, SessionEvent};

fn strings(v: &[&str]) -> Vec<String> {
    v.iter().map(|s| s.to_string()).collect()
}

fn player_of(v: &[&str]) -> Player {
    Player::new(Playlist::new(strings(v)))
}

fn hotkey() -> Option<String> {
    Some("/".to_string())
}

fn start_token(t: Trigger) -> (u64, usize, String) {
    match t {
        Trigger::Start { token, index, path } => (token, index, path),
        other => panic!("expected a start, got {:?}", other),
    }
}

#[test]
fn manifest_skips_comment_lines() {
    let lines = strings(&["# header", "/a.mp3", "# note", "/b.mp3"]);
    assert_eq!(manifest_entries(&lines), strings(&["/a.mp3", "/b.mp3"]));
}

#[test]
fn manifest_keeps_blank_and_inner_hash_lines() {
    let lines = strings(&["", "a#b", "#", " #x"]);
    assert_eq!(manifest_entries(&lines), strings(&["", "a#b", " #x"]));
    assert_eq!(manifest_entries(&Vec::new()), Vec::<String>::new());
}

#[test]
fn load_fails_on_first_missing_entry() {
    let entries = strings(&["/a", "/b", "/c"]);
    let r = load_playlist(entries, &vec![true, false, false]);
    assert_eq!(r.err(), Some(MissingEntry { index: 1 }));
}

#[test]
fn load_succeeds_when_all_exist() {
    let entries = strings(&["/a", "/b"]);
    let p = load_playlist(entries, &vec![true, true]).ok().unwrap();
    assert_eq!(p.len_exec(), 2);
    assert_eq!(p.cursor_exec(), 0);
    assert_eq!(p.upcoming(), Some("/a".to_string()));
}

#[test]
fn hotkey_is_slash_only() {
    assert!(is_hotkey("/"));
    assert!(!is_hotkey("a"));
    assert!(!is_hotkey("//"));
    assert!(!is_hotkey(""));
}

#[test]
fn other_keys_are_ignored() {
    let mut p = player_of(&["/x", "/y"]);
    assert!(matches!(p.key_callback(&Some("a".to_string()), true), Trigger::Ignored));
    assert!(matches!(p.key_callback(&None, true), Trigger::Ignored));
    assert_eq!(p.cursor(), 0);
    assert!(!p.is_playing());
}

#[test]
fn empty_playlist_starts_nothing() {
    let mut p = player_of(&[]);
    assert!(matches!(p.key_callback(&hotkey(), true), Trigger::NothingToPlay));
    assert!(!p.is_playing());
    assert_eq!(p.upcoming(), None);
}

#[test]
fn advance_wraps_after_n_starts() {
    let mut p = player_of(&["/0", "/1", "/2"]);
    let mut seen = Vec::new();
    for _ in 0..4 {
        let (token, index, _) = start_token(p.key_callback(&hotkey(), true));
        seen.push(index);
        assert!(p.end_session(token));
    }
    assert_eq!(seen, vec![0, 1, 2, 0]);
    assert_eq!(p.cursor(), 1);
}

#[test]
fn resolution_failure_skips_entry() {
    let mut p = player_of(&["/A", "/B"]);
    match p.key_callback(&hotkey(), false) {
        Trigger::Missing { index, path } => {
            assert_eq!(index, 0);
            assert_eq!(path, "/A");
        }
        other => panic!("expected a missing entry, got {:?}", other),
    }
    assert!(!p.is_playing());
    assert_eq!(p.cursor(), 1);
    assert_eq!(p.upcoming(), Some("/B".to_string()));
    let (_, index, path) = start_token(p.key_callback(&hotkey(), true));
    assert_eq!(index, 1);
    assert_eq!(path, "/B");
}

#[test]
fn trigger_while_playing_cancels() {
    let mut p = player_of(&["/x", "/y"]);
    let (token, _, _) = start_token(p.key_callback(&hotkey(), true));
    assert!(p.is_playing());
    assert!(matches!(p.key_callback(&hotkey(), true), Trigger::Cancelled));
    assert!(!p.is_playing());
    assert!(!p.is_active(token));
    assert_eq!(p.cursor(), 1);
}

#[test]
fn release_of_clear_lock_is_noop() {
    let mut p = player_of(&["/x"]);
    p.shutdown();
    p.shutdown();
    assert!(!p.is_playing());
    assert!(!p.end_session(0));
    assert_eq!(p.cursor(), 0);
    let (token, _, _) = start_token(p.key_callback(&hotkey(), true));
    assert_eq!(token, 0);
    p.shutdown();
    assert!(!p.is_playing());
    assert!(!p.end_session(token));
    assert!(!p.has_running_session());
}

#[test]
fn stale_session_cannot_clear_new_lock() {
    let mut p = player_of(&["/x", "/y"]);
    let (first, _, _) = start_token(p.key_callback(&hotkey(), true));
    assert!(matches!(p.key_callback(&hotkey(), true), Trigger::Cancelled));
    assert!(p.has_running_session());
    assert!(!p.end_session(first));
    assert!(!p.has_running_session());
    let (second, _, _) = start_token(p.key_callback(&hotkey(), true));
    assert_ne!(first, second);
    assert!(!p.is_active(first));
    assert!(p.is_active(second));
    assert!(!p.end_session(first));
    assert!(p.is_active(second));
    assert!(p.has_running_session());
    assert!(p.end_session(second));
    assert!(!p.is_playing());
    assert!(!p.has_running_session());
}

#[test]
fn press_before_cancelled_session_exits_starts_nothing() {
    let mut p = player_of(&["/x", "/y"]);
    let (first, _, _) = start_token(p.key_callback(&hotkey(), true));
    assert!(matches!(p.key_callback(&hotkey(), true), Trigger::Cancelled));
    assert!(matches!(p.key_callback(&hotkey(), true), Trigger::Stopping));
    assert!(!p.is_playing());
    assert_eq!(p.cursor(), 1);
    assert!(!p.end_session(first));
    let (_, index, path) = start_token(p.key_callback(&hotkey(), true));
    assert_eq!(index, 1);
    assert_eq!(path, "/y");
}

#[test]
fn session_failed_decode_releases() {
    let mut s = Session::new(3, "/x".to_string());
    assert_eq!(s.token(), 3);
    assert_eq!(s.path(), "/x");
    assert_eq!(s.step(SessionEvent::Decoded(false)), SessionAction::Release);
    assert_eq!(s.phase(), Phase::Failed);
    assert!(s.is_finished());
    assert_eq!(s.step(SessionEvent::Decoded(true)), SessionAction::Nothing);
    assert_eq!(s.phase(), Phase::Failed);
}

#[test]
fn session_failed_start_releases() {
    let mut s = Session::new(0, "/x".to_string());
    assert_eq!(s.step(SessionEvent::Decoded(true)), SessionAction::Play);
    assert_eq!(s.phase(), Phase::Starting);
    assert_eq!(s.step(SessionEvent::PlaybackStarted(false)), SessionAction::Release);
    assert_eq!(s.phase(), Phase::Failed);
}

#[test]
fn session_ignores_out_of_order_events() {
    let mut s = Session::new(0, "/x".to_string());
    let poll = SessionEvent::Polled { engine_active: false, lock_owned: false };
    assert_eq!(s.step(poll), SessionAction::Nothing);
    assert_eq!(s.phase(), Phase::Resolving);
    assert!(!s.is_finished());
}

#[test]
fn session_cancel_wins_over_completion() {
    let mut s = Session::new(0, "/x".to_string());
    s.step(SessionEvent::Decoded(true));
    s.step(SessionEvent::PlaybackStarted(true));
    let poll = SessionEvent::Polled { engine_active: false, lock_owned: false };
    assert_eq!(s.step(poll), SessionAction::Release);
    assert_eq!(s.phase(), Phase::Cancelled);
}

/// Runs a session against the player with the engine playing for `polls`
/// polls, cancelling after `cancel_after` polls if given.
fn run_session(p: &mut Player, token: u64, path: String, polls: usize, cancel_after: Option<usize>) -> Phase {
    let mut s = Session::new(token, path);
    assert_eq!(s.step(SessionEvent::Decoded(true)), SessionAction::Play);
    assert_eq!(s.step(SessionEvent::PlaybackStarted(true)), SessionAction::Wait);
    let mut n = 0;
    loop {
        if cancel_after == Some(n) {
            assert!(matches!(p.key_callback(&hotkey(), true), Trigger::Cancelled));
            assert!(!p.is_playing());
        }
        let ev = SessionEvent::Polled { engine_active: n < polls, lock_owned: p.is_active(token) };
        match s.step(ev) {
            SessionAction::Wait => n += 1,
            SessionAction::Release => {
                p.end_session(token);
                return s.phase();
            }
            other => panic!("unexpected action {:?}", other),
        }
    }
}

#[test]
fn end_to_end_play_complete_then_cancel() {
    let mut p = player_of(&["X", "Y"]);
    let (t1, _, path) = start_token(p.key_callback(&hotkey(), true));
    assert_eq!(path, "X");
    assert_eq!(run_session(&mut p, t1, path, 3, None), Phase::Completed);
    assert!(!p.is_playing());
    let (t2, _, path) = start_token(p.key_callback(&hotkey(), true));
    assert_eq!(path, "Y");
    assert_eq!(run_session(&mut p, t2, path, 100, Some(2)), Phase::Cancelled);
    assert!(!p.is_playing());
    assert_eq!(p.cursor(), 0);
    assert_eq!(p.upcoming(), Some("X".to_string()));
}
