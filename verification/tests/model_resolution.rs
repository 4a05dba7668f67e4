use freitool::model::{new_version_track, replacement_track, Release, ReleaseNote, ReleaseStatus, Track};

fn release(name: &str, status: ReleaseStatus) -> Release {
    Release { version_codes: None, release_notes: None, status, name: name.to_string() }
}

#[test]
fn find_draft_release_needs_draft_and_name() {
    let t = Track {
        track: "production".to_string(),
        releases: vec![
            release("1.0", ReleaseStatus::Completed),
            release("1.1", ReleaseStatus::Draft),
            release("1.1", ReleaseStatus::Halted),
        ],
    };
    let hit = t.find_draft_release(&"1.1".to_string()).expect("a draft named 1.1 sits there");
    assert_eq!(hit.status, ReleaseStatus::Draft);
    assert_eq!(hit.name, "1.1");
    assert!(t.find_draft_release(&"1.0".to_string()).is_none());
    assert!(t.find_draft_release(&"2.0".to_string()).is_none());
}

#[test]
fn find_draft_release_takes_first_structural_match() {
    let first = Release {
        version_codes: Some(vec!["7".to_string()]),
        release_notes: None,
        status: ReleaseStatus::Draft,
        name: "1.1".to_string(),
    };
    let t = Track {
        track: "beta".to_string(),
        releases: vec![first, release("1.1", ReleaseStatus::Draft)],
    };
    let hit = t.find_draft_release(&"1.1".to_string()).unwrap();
    assert_eq!(hit.version_codes, Some(vec!["7".to_string()]));
}

#[test]
fn has_release_named_ignores_status() {
    let t = Track {
        track: "production".to_string(),
        releases: vec![release("1.0", ReleaseStatus::Completed)],
    };
    assert!(t.has_release_named(&"1.0".to_string()));
    assert!(!t.has_release_named(&"1.1".to_string()));
}

#[test]
fn replacement_track_replaces_notes_wholesale() {
    let selected = Release {
        version_codes: Some(vec!["41".to_string()]),
        release_notes: Some(vec![ReleaseNote {
            language: "en".to_string(),
            text: "old".to_string(),
        }]),
        status: ReleaseStatus::Draft,
        name: "1.2".to_string(),
    };
    let t = replacement_track(
        &"production".to_string(),
        &selected,
        &"pt".to_string(),
        &"novo".to_string(),
    );
    assert_eq!(t.track, "production");
    assert_eq!(t.releases.len(), 1);
    let r = &t.releases[0];
    assert_eq!(r.status, ReleaseStatus::Draft);
    assert_eq!(r.name, "1.2");
    assert_eq!(r.version_codes, Some(vec!["41".to_string()]));
    assert_eq!(
        r.release_notes,
        Some(vec![ReleaseNote { language: "pt".to_string(), text: "novo".to_string() }])
    );
}

#[test]
fn new_version_track_holds_one_bare_draft() {
    let t = new_version_track(&"internal".to_string(), &"2.0".to_string());
    assert_eq!(t.track, "internal");
    assert_eq!(t.releases.len(), 1);
    let r = &t.releases[0];
    assert_eq!(r.status, ReleaseStatus::Draft);
    assert_eq!(r.name, "2.0");
    assert_eq!(r.version_codes, None);
    assert_eq!(r.release_notes, None);
}
