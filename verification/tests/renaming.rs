use unumlaut::paths::{is_media_path, plan_rename, str_contains, RenamePlan};
use unumlaut::tags::{FieldId, MediaRecord};

fn record(
    title: Option<&str>,
    artist: Option<&str>,
    album: Option<&str>,
    album_artist: Option<&str>,
    genre: Option<&str>,
) -> MediaRecord {
    MediaRecord {
        track_title: title.map(|s| s.to_string()),
        track_artist: artist.map(|s| s.to_string()),
        album_title: album.map(|s| s.to_string()),
        album_artist: album_artist.map(|s| s.to_string()),
        genre: genre.map(|s| s.to_string()),
    }
}

#[test]
fn plan_keeps_clean_name() {
    let plan = plan_rename(&"some/dir/clean.txt".to_string());
    assert!(matches!(plan, RenamePlan::Keep));
}

#[test]
fn plan_renames_umlaut_name() {
    let plan = plan_rename(&"a/K\u{e4}fer.mp3".to_string());
    match plan {
        RenamePlan::Rename { to } => assert_eq!(to, "a/Kafer.mp3"),
        _ => panic!("expected a rename"),
    }
}

#[test]
fn plan_renames_bare_name_without_parent() {
    let plan = plan_rename(&"M\u{e4}dchen".to_string());
    match plan {
        RenamePlan::Rename { to } => assert_eq!(to, "Madchen"),
        _ => panic!("expected a rename"),
    }
}

#[test]
fn plan_rejects_nameless_paths() {
    assert!(matches!(plan_rename(&"".to_string()), RenamePlan::Invalid));
    assert!(matches!(plan_rename(&"a/".to_string()), RenamePlan::Invalid));
    assert!(matches!(plan_rename(&"a/..".to_string()), RenamePlan::Invalid));
    assert!(matches!(plan_rename(&".".to_string()), RenamePlan::Invalid));
}

#[test]
fn plan_keeps_excluded_umlauts() {
    let plan = plan_rename(&"tree/\u{dc}ber.txt".to_string());
    assert!(matches!(plan, RenamePlan::Keep));
}

#[test]
fn media_markers_match_anywhere_in_the_name() {
    assert!(is_media_path(&"x/song.mp3".to_string()));
    assert!(is_media_path(&"x/piece.flac".to_string()));
    assert!(is_media_path(&"x/my.mp3.txt".to_string()));
    assert!(!is_media_path(&"x/\u{dc}ber.txt".to_string()));
    assert!(!is_media_path(&"x/notes.md".to_string()));
    assert!(!is_media_path(&"dir.mp3/plain.txt".to_string()));
}

#[test]
fn substring_search_agrees_with_std() {
    let pairs = [("abcde", "cd"), ("abcde", "xy"), ("", "a"), ("aaa", ""), ("mp3", ".mp3")];
    for (h, n) in pairs {
        assert_eq!(str_contains(h, n), h.contains(n));
    }
}

#[test]
fn apply_leaves_absent_field_alone() {
    let mut r = record(None, Some("Bjork"), None, None, None);
    assert!(!r.apply(FieldId::TrackTitle));
    assert_eq!(r.track_title, None);
}

#[test]
fn apply_reports_unchanged_field() {
    let mut r = record(Some("Madchen"), None, None, None, None);
    assert!(!r.apply(FieldId::TrackTitle));
    assert_eq!(r.track_title.as_deref(), Some("Madchen"));
}

#[test]
fn apply_rewrites_changed_field() {
    let mut r = record(Some("M\u{e4}dchen"), None, None, None, None);
    assert!(r.apply(FieldId::TrackTitle));
    assert_eq!(r.track_title.as_deref(), Some("Madchen"));
}

#[test]
fn convert_fields_ors_the_five_fields() {
    let mut clean = record(Some("A"), Some("B"), None, Some("C"), None);
    assert!(!clean.convert_fields());

    let mut dirty = record(Some("A"), Some("B"), None, None, Some("M\u{e4}rchen"));
    assert!(dirty.convert_fields());
    assert_eq!(dirty.genre.as_deref(), Some("Marchen"));
    assert_eq!(dirty.track_title.as_deref(), Some("A"));
}
