use now_playing::PlaybackStatus;
use now_playing::Supervisor;
use now_playing::SupervisorAction;
use now_playing::SupervisorEvent;
use now_playing::SupervisorState;

#[test]
fn unreachable_bus_keeps_retrying_disconnected() {
    let mut sup = Supervisor::new(None);
    assert_eq!(sup.pending_action(), SupervisorAction::Connect);
    for _ in 0..3 {
        let d = sup.step(SupervisorEvent::ConnectFailed);
        assert_eq!(d.action, SupervisorAction::Connect);
        assert_eq!(d.wait_ms, 5000);
        match d.publish {
            Some(None) => {}
            _ => panic!("a failed connection must clear the published state"),
        }
        assert!(matches!(sup.state, SupervisorState::Disconnected));
    }
}

#[test]
fn playing_player_publishes_first_artist() {
    let mut sup = Supervisor::new(None);
    let d = sup.step(SupervisorEvent::Connected);
    assert_eq!(d.action, SupervisorAction::Discover);
    let d = sup.step(SupervisorEvent::Discovered {
        candidate: Some("org.mpris.MediaPlayer2.spotify".to_string()),
    });
    assert_eq!(d.action, SupervisorAction::Bind);
    let d = sup.step(SupervisorEvent::Bound);
    assert_eq!(d.action, SupervisorAction::SampleStatus);
    let d = sup.step(SupervisorEvent::StatusSampled { status: Some(PlaybackStatus::Playing) });
    assert_eq!(d.action, SupervisorAction::SampleMetadata);
    assert!(d.publish.is_none());
    let d = sup.step(SupervisorEvent::MetadataSampled {
        title: Some("Song A".to_string()),
        artists: vec!["Artist A".to_string(), "Artist B".to_string()],
    });
    assert_eq!(d.action, SupervisorAction::SampleStatus);
    assert_eq!(d.wait_ms, 1000);
    let published = d.publish.expect("a metadata sample always publishes");
    let record = published.expect("both fields are non-empty");
    assert_eq!(record.title, "Song A");
    assert_eq!(record.artist, "Artist A");
}

#[test]
fn pause_mid_session_clears_and_rediscovers() {
    let mut sup = Supervisor::new(None);
    sup.step(SupervisorEvent::Connected);
    sup.step(SupervisorEvent::Discovered {
        candidate: Some("org.mpris.MediaPlayer2.vlc".to_string()),
    });
    sup.step(SupervisorEvent::Bound);
    sup.step(SupervisorEvent::StatusSampled { status: Some(PlaybackStatus::Playing) });
    sup.step(SupervisorEvent::MetadataSampled {
        title: Some("Song A".to_string()),
        artists: vec!["Artist A".to_string()],
    });
    let d = sup.step(SupervisorEvent::StatusSampled { status: Some(PlaybackStatus::Paused) });
    assert_eq!(d.action, SupervisorAction::Discover);
    match d.publish {
        Some(None) => {}
        _ => panic!("a paused player must clear the published state"),
    }
    assert!(matches!(sup.state, SupervisorState::Discovering));
}

#[test]
fn empty_discovery_clears_and_backs_off() {
    let mut sup = Supervisor::new(None);
    sup.step(SupervisorEvent::Connected);
    let d = sup.step(SupervisorEvent::Discovered { candidate: None });
    assert_eq!(d.action, SupervisorAction::Discover);
    assert_eq!(d.wait_ms, 2000);
    match d.publish {
        Some(None) => {}
        _ => panic!("an empty discovery cycle must clear the published state"),
    }
}

#[test]
fn metadata_with_empty_artist_publishes_nothing() {
    let mut sup = Supervisor::new(None);
    sup.step(SupervisorEvent::Connected);
    sup.step(SupervisorEvent::Discovered {
        candidate: Some("org.mpris.MediaPlayer2.vlc".to_string()),
    });
    sup.step(SupervisorEvent::Bound);
    sup.step(SupervisorEvent::StatusSampled { status: Some(PlaybackStatus::Playing) });
    let d = sup.step(SupervisorEvent::MetadataSampled {
        title: Some("Song A".to_string()),
        artists: Vec::new(),
    });
    match d.publish {
        Some(None) => {}
        _ => panic!("a partial sample must publish nothing"),
    }
}

#[test]
fn lost_bus_reconnects_from_any_state() {
    let mut sup = Supervisor::new(None);
    sup.step(SupervisorEvent::Connected);
    sup.step(SupervisorEvent::Discovered {
        candidate: Some("org.mpris.MediaPlayer2.vlc".to_string()),
    });
    sup.step(SupervisorEvent::Bound);
    let d = sup.step(SupervisorEvent::BusLost);
    assert_eq!(d.action, SupervisorAction::Connect);
    match d.publish {
        Some(None) => {}
        _ => panic!("a lost bus must clear the published state"),
    }
    assert!(matches!(sup.state, SupervisorState::Disconnected));
}

#[test]
fn pinned_player_skips_discovery() {
    let mut sup = Supervisor::new(Some("org.mpris.MediaPlayer2.vlc".to_string()));
    let d = sup.step(SupervisorEvent::Connected);
    assert_eq!(d.action, SupervisorAction::Bind);
    match &sup.state {
        SupervisorState::Binding { candidate } => {
            assert_eq!(candidate, "org.mpris.MediaPlayer2.vlc");
        }
        _ => panic!("a pinned player goes straight to binding"),
    }
    let d = sup.step(SupervisorEvent::BindFailed);
    assert_eq!(d.action, SupervisorAction::Bind);
    assert_eq!(d.wait_ms, 500);
}

#[test]
fn status_read_error_clears_and_rediscovers() {
    let mut sup = Supervisor::new(None);
    sup.step(SupervisorEvent::Connected);
    sup.step(SupervisorEvent::Discovered {
        candidate: Some("org.mpris.MediaPlayer2.vlc".to_string()),
    });
    sup.step(SupervisorEvent::Bound);
    let d = sup.step(SupervisorEvent::StatusSampled { status: None });
    assert_eq!(d.action, SupervisorAction::Discover);
    match d.publish {
        Some(None) => {}
        _ => panic!("a failed status read must clear the published state"),
    }
}
