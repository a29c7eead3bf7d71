use openclips::config::DiscordConfig;
use openclips::discord::{Lines, Next, Presence, PresenceState, RETRY_AFTER};

fn state() -> PresenceState {
    PresenceState {
        config: DiscordConfig {
            client_id: "123".to_owned(),
            ..DiscordConfig::default()
        },
        game: Some("Roblox".to_owned()),
        buffering: true,
        recording: false,
    }
}

#[test]
fn presence_text_follows_settings() {
    let mut state = PresenceState {
        config: DiscordConfig {
            client_id: "123".to_owned(),
            ..DiscordConfig::default()
        },
        game: Some("Roblox".to_owned()),
        buffering: true,
        recording: false,
    };
    assert!(state.wanted());
    assert_eq!(state.details(), "Clipping Roblox");
    assert_eq!(state.status(), "Replay buffer on");
    state.config.show_game = false;
    assert_eq!(state.details(), "Clipping");
    state.recording = true;
    assert_eq!(state.status(), "Recording");
    state.buffering = false;
    assert!(state.wanted());
    state.recording = false;
    assert!(!state.wanted());
    state.buffering = true;
    state.config.enabled = false;
    assert!(!state.wanted());
}

#[test]
fn nothing_is_wanted_at_first() {
    assert!(!PresenceState::default().wanted());
    let mut p = Presence::new(5);
    let r = p.begin(None, 5, 100);
    assert!(matches!(r.next, Next::Wait) && !r.clear && !r.close);
}

#[test]
fn the_worker_connects_shows_and_ignores_repeats() {
    let mut p = Presence::new(0);
    let r = p.begin(Some(state()), 1, 100);
    match r.next {
        Next::Connect { client_id } => assert_eq!(client_id, "123"),
        other => panic!("unexpected {other:?}"),
    }
    match p.connected(true, 1, 100) {
        Next::Show { lines, start } => {
            assert_eq!(lines.details, "Clipping Roblox");
            assert_eq!(lines.status, "Replay buffer on");
            assert_eq!(start, 100);
        }
        other => panic!("unexpected {other:?}"),
    }
    p.shown(true, 1);
    assert!(matches!(p.begin(None, 2, 200).next, Next::Wait));
    let mut recording = state();
    recording.recording = true;
    match p.begin(Some(recording), 3, 300).next {
        Next::Show { lines, start } => {
            assert_eq!(lines.status, "Recording");
            assert_eq!(start, 100);
        }
        other => panic!("unexpected {other:?}"),
    }
}

#[test]
fn a_failure_waits_before_the_next_attempt() {
    let mut p = Presence::new(0);
    let _ = p.begin(Some(state()), 0, 1);
    assert!(matches!(p.connected(false, 10, 1), Next::Wait));
    assert!(p.failed_once);
    assert!(matches!(p.begin(None, 10 + RETRY_AFTER - 1, 1).next, Next::Wait));
    assert!(matches!(
        p.begin(None, 10 + RETRY_AFTER, 1).next,
        Next::Connect { .. }
    ));
    let _ = p.connected(true, 10 + RETRY_AFTER, 1);
    p.shown(false, 50 + RETRY_AFTER);
    assert!(p.connection.is_none() && p.shown.is_none());
    assert!(matches!(p.begin(None, 51 + RETRY_AFTER, 1).next, Next::Wait));
}

#[test]
fn what_is_not_wanted_is_cleared_and_closed() {
    let mut p = Presence::new(0);
    let _ = p.begin(Some(state()), 0, 1);
    let _ = p.connected(true, 0, 1);
    p.shown(true, 0);
    let mut idle = state();
    idle.buffering = false;
    let r = p.begin(Some(idle), 1, 2);
    assert!(r.clear && !r.close);
    assert!(p.since.is_none());
    let mut off = state();
    off.config.enabled = false;
    let r = p.begin(Some(off), 2, 3);
    assert!(!r.clear && r.close);
    assert!(p.connection.is_none());
}

#[test]
fn another_client_id_connects_anew() {
    let mut p = Presence::new(0);
    p.connection = Some("123".to_owned());
    p.shown = Some(Lines {
        details: "Clipping Roblox".to_owned(),
        status: "Replay buffer on".to_owned(),
    });
    let mut other = state();
    other.config.client_id = " 9 ".to_owned();
    let r = p.begin(Some(other), 1, 1);
    assert!(r.close);
    assert!(matches!(r.next, Next::Connect { client_id } if client_id == "9"));
    assert!(p.shown.is_none());
}

#[test]
fn without_an_id_nothing_is_sent() {
    let mut anonymous = state();
    anonymous.config.client_id = "  ".to_owned();
    assert!(!anonymous.wanted());
    let mut p = Presence::new(0);
    let r = p.begin(Some(anonymous), RETRY_AFTER, 100);
    assert!(matches!(r.next, Next::Wait) && !r.clear && !r.close);
}
