use freitool::codec::encode_track;
use freitool::datasource::HttpEvent;
use freitool::errors::StoreError;
use freitool::google_play_flow::{PlayCall, PlayFlow, PlayOp, PlayPhase};
use freitool::json::Json;
use freitool::model::{Release, ReleaseNote, ReleaseStatus, Track};

fn edit_created(id: &str) -> HttpEvent {
    HttpEvent::Success {
        body: Some(Json::Obj(vec![("id".to_string(), Json::Str(id.to_string()))])),
    }
}

fn track_fetched(t: &Track) -> HttpEvent {
    HttpEvent::Success { body: Some(encode_track(t)) }
}

fn plain_success() -> HttpEvent {
    HttpEvent::Success { body: Some(Json::Obj(vec![])) }
}

fn release(name: &str, status: ReleaseStatus) -> Release {
    Release { version_codes: None, release_notes: None, status, name: name.to_string() }
}

#[test]
fn create_version_runs_to_commit() {
    let (mut flow, first) = PlayFlow::new(
        PlayOp::CreateVersion { version: "2.0".to_string() },
        "production".to_string(),
    );
    assert_eq!(first, PlayCall::CreateEdit);

    let call = flow.step(edit_created("edit-7"));
    assert_eq!(call, Some(PlayCall::GetTrack { edit_id: "edit-7".to_string() }));

    let current = Track {
        track: "production".to_string(),
        releases: vec![release("1.9", ReleaseStatus::Completed)],
    };
    let call = flow.step(track_fetched(&current));
    let expected_track = Track {
        track: "production".to_string(),
        releases: vec![release("2.0", ReleaseStatus::Draft)],
    };
    assert_eq!(
        call,
        Some(PlayCall::PutTrack { edit_id: "edit-7".to_string(), track: expected_track })
    );

    let call = flow.step(plain_success());
    assert_eq!(call, Some(PlayCall::CommitEdit { edit_id: "edit-7".to_string() }));

    let call = flow.step(plain_success());
    assert_eq!(call, None);
    assert!(flow.is_terminal());
    assert_eq!(flow.phase, PlayPhase::Complete);
}

#[test]
fn create_version_collision_aborts_before_any_mutation() {
    let (mut flow, _) = PlayFlow::new(
        PlayOp::CreateVersion { version: "1.9".to_string() },
        "production".to_string(),
    );
    let _ = flow.step(edit_created("e"));
    let current = Track {
        track: "production".to_string(),
        releases: vec![release("1.9", ReleaseStatus::Completed)],
    };
    let call = flow.step(track_fetched(&current));
    assert_eq!(call, None);
    assert_eq!(flow.error(), Some(&StoreError::VersionAlreadyExists));
    assert_eq!(flow.error().unwrap().message(), "Version already exists");

    // Once aborted, later outcomes move nothing and ask for nothing: the
    // replace and commit calls are never issued.
    let call = flow.step(plain_success());
    assert_eq!(call, None);
    assert_eq!(flow.error(), Some(&StoreError::VersionAlreadyExists));
}

#[test]
fn set_notes_replaces_only_the_matched_release() {
    let (mut flow, first) = PlayFlow::new(
        PlayOp::SetNotes {
            locale: "pt".to_string(),
            version: "1.2".to_string(),
            text: "novo".to_string(),
        },
        "production".to_string(),
    );
    assert_eq!(first, PlayCall::CreateEdit);
    let _ = flow.step(edit_created("e1"));

    let matched = Release {
        version_codes: Some(vec!["41".to_string()]),
        release_notes: Some(vec![ReleaseNote {
            language: "en".to_string(),
            text: "old".to_string(),
        }]),
        status: ReleaseStatus::Draft,
        name: "1.2".to_string(),
    };
    let current = Track {
        track: "production".to_string(),
        releases: vec![release("1.1", ReleaseStatus::Completed), matched],
    };
    let call = flow.step(track_fetched(&current));
    let expected = Track {
        track: "production".to_string(),
        releases: vec![Release {
            version_codes: Some(vec!["41".to_string()]),
            release_notes: Some(vec![ReleaseNote {
                language: "pt".to_string(),
                text: "novo".to_string(),
            }]),
            status: ReleaseStatus::Draft,
            name: "1.2".to_string(),
        }],
    };
    assert_eq!(call, Some(PlayCall::PutTrack { edit_id: "e1".to_string(), track: expected }));

    let call = flow.step(plain_success());
    assert_eq!(call, Some(PlayCall::CommitEdit { edit_id: "e1".to_string() }));
    let call = flow.step(plain_success());
    assert_eq!(call, None);
    assert_eq!(flow.phase, PlayPhase::Complete);
}

#[test]
fn set_notes_without_matching_draft_is_not_editable() {
    let (mut flow, _) = PlayFlow::new(
        PlayOp::SetNotes {
            locale: "pt".to_string(),
            version: "1.2".to_string(),
            text: "novo".to_string(),
        },
        "production".to_string(),
    );
    let _ = flow.step(edit_created("e1"));
    let current = Track {
        track: "production".to_string(),
        releases: vec![release("1.2", ReleaseStatus::Completed)],
    };
    let call = flow.step(track_fetched(&current));
    assert_eq!(call, None);
    assert_eq!(flow.error(), Some(&StoreError::ReleaseNotEditable));
    assert_eq!(
        flow.error().unwrap().message(),
        "Release not found or in an uneditable state."
    );
}

#[test]
fn vendor_failure_aborts_with_api_error() {
    let (mut flow, _) = PlayFlow::new(
        PlayOp::CreateVersion { version: "2.0".to_string() },
        "production".to_string(),
    );
    let call = flow.step(HttpEvent::Failure { status: 403, body: "denied".to_string() });
    assert_eq!(call, None);
    assert_eq!(flow.error(), Some(&StoreError::Api { status: 403, body: "denied".to_string() }));
    assert_eq!(flow.error().unwrap().message(), "ERROR: denied");
}

#[test]
fn transport_failure_aborts() {
    let (mut flow, _) = PlayFlow::new(
        PlayOp::CreateVersion { version: "2.0".to_string() },
        "production".to_string(),
    );
    let _ = flow.step(edit_created("e1"));
    let call = flow.step(HttpEvent::Transport { message: "connection reset".to_string() });
    assert_eq!(call, None);
    assert_eq!(
        flow.error(),
        Some(&StoreError::Transport("connection reset".to_string()))
    );
}

#[test]
fn edit_response_without_id_is_malformed() {
    let (mut flow, _) = PlayFlow::new(
        PlayOp::CreateVersion { version: "2.0".to_string() },
        "production".to_string(),
    );
    let call = flow.step(plain_success());
    assert_eq!(call, None);
    assert!(matches!(flow.error(), Some(StoreError::MalformedResponse(_))));
}

#[test]
fn track_response_that_does_not_parse_is_malformed() {
    let (mut flow, _) = PlayFlow::new(
        PlayOp::CreateVersion { version: "2.0".to_string() },
        "production".to_string(),
    );
    let _ = flow.step(edit_created("e1"));
    let call = flow.step(HttpEvent::Success { body: Some(Json::Str("nonsense".to_string())) });
    assert_eq!(call, None);
    assert!(matches!(flow.error(), Some(StoreError::MalformedResponse(_))));
}
