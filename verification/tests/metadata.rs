use now_playing::extract_track;

#[test]
fn extract_keeps_title_and_first_artist() {
    let r = extract_track(
        Some("Song A".to_string()),
        vec!["Artist A".to_string(), "Artist B".to_string()],
    )
    .expect("both fields are non-empty");
    assert_eq!(r.title, "Song A");
    assert_eq!(r.artist, "Artist A");
}

#[test]
fn extract_missing_title_is_none() {
    assert!(extract_track(None, vec!["Artist A".to_string()]).is_none());
}

#[test]
fn extract_empty_title_is_none() {
    assert!(extract_track(Some(String::new()), vec!["Artist A".to_string()]).is_none());
}

#[test]
fn extract_no_artists_is_none() {
    assert!(extract_track(Some("Song A".to_string()), Vec::new()).is_none());
}

#[test]
fn extract_empty_first_artist_is_none() {
    let r = extract_track(
        Some("Song A".to_string()),
        vec![String::new(), "Artist B".to_string()],
    );
    assert!(r.is_none());
}

#[test]
fn extract_twice_is_structurally_equal() {
    let sample = || {
        extract_track(
            Some("Song A".to_string()),
            vec!["Artist A".to_string(), "Artist B".to_string()],
        )
    };
    let first = sample().expect("displayable");
    let second = sample().expect("displayable");
    assert_eq!(first.title, second.title);
    assert_eq!(first.artist, second.artist);
}
