use now_playing::CandidateReport;
use now_playing::PlaybackStatus;
use now_playing::filter_player_names;
use now_playing::is_player_name;
use now_playing::select_candidate;

fn report(name: &str, status: Option<PlaybackStatus>) -> CandidateReport {
    CandidateReport { name: name.to_string(), status }
}

#[test]
fn player_prefix_is_recognized() {
    assert!(is_player_name("org.mpris.MediaPlayer2.spotify"));
    assert!(is_player_name("org.mpris.MediaPlayer2."));
    assert!(!is_player_name("org.mpris.MediaPlayer2"));
    assert!(!is_player_name("org.freedesktop.DBus"));
    assert!(!is_player_name(""));
}

#[test]
fn filter_keeps_players_in_order() {
    let names = vec![
        "org.freedesktop.DBus".to_string(),
        "org.mpris.MediaPlayer2.vlc".to_string(),
        "org.gnome.Shell".to_string(),
        "org.mpris.MediaPlayer2.spotify".to_string(),
    ];
    let players = filter_player_names(&names);
    assert_eq!(
        players,
        vec![
            "org.mpris.MediaPlayer2.vlc".to_string(),
            "org.mpris.MediaPlayer2.spotify".to_string(),
        ]
    );
}

#[test]
fn select_empty_is_none() {
    assert!(select_candidate(&Vec::new()).is_none());
}

#[test]
fn select_prefers_playing_over_paused() {
    let reports = vec![
        report("org.mpris.MediaPlayer2.a", Some(PlaybackStatus::Paused)),
        report("org.mpris.MediaPlayer2.b", Some(PlaybackStatus::Playing)),
    ];
    assert_eq!(select_candidate(&reports), Some(1));
}

#[test]
fn select_takes_first_playing() {
    let reports = vec![
        report("org.mpris.MediaPlayer2.a", Some(PlaybackStatus::Playing)),
        report("org.mpris.MediaPlayer2.b", Some(PlaybackStatus::Playing)),
    ];
    assert_eq!(select_candidate(&reports), Some(0));
}

#[test]
fn select_falls_back_to_first_paused() {
    let reports = vec![
        report("org.mpris.MediaPlayer2.a", Some(PlaybackStatus::Stopped)),
        report("org.mpris.MediaPlayer2.b", Some(PlaybackStatus::Paused)),
        report("org.mpris.MediaPlayer2.c", Some(PlaybackStatus::Paused)),
    ];
    assert_eq!(select_candidate(&reports), Some(1));
}

#[test]
fn select_prefers_paused_over_unreadable() {
    let reports = vec![
        report("org.mpris.MediaPlayer2.mute", None),
        report("org.mpris.MediaPlayer2.b", Some(PlaybackStatus::Paused)),
    ];
    assert_eq!(select_candidate(&reports), Some(1));
}

#[test]
fn select_falls_back_to_first_candidate() {
    let reports = vec![
        report("org.mpris.MediaPlayer2.a", Some(PlaybackStatus::Stopped)),
        report("org.mpris.MediaPlayer2.b", Some(PlaybackStatus::Unknown)),
    ];
    assert_eq!(select_candidate(&reports), Some(0));
}

#[test]
fn select_all_unreadable_takes_first() {
    let reports = vec![
        report("org.mpris.MediaPlayer2.a", None),
        report("org.mpris.MediaPlayer2.b", None),
    ];
    assert_eq!(select_candidate(&reports), Some(0));
}

#[test]
fn status_parsing_is_exact() {
    assert_eq!(PlaybackStatus::parse("Playing"), PlaybackStatus::Playing);
    assert_eq!(PlaybackStatus::parse("Paused"), PlaybackStatus::Paused);
    assert_eq!(PlaybackStatus::parse("Stopped"), PlaybackStatus::Stopped);
    assert_eq!(PlaybackStatus::parse("playing"), PlaybackStatus::Unknown);
    assert_eq!(PlaybackStatus::parse(""), PlaybackStatus::Unknown);
}
