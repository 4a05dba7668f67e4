use freitool::codec::encode_track;
use freitool::datasource::HttpEvent;
use freitool::errors::StoreError;
use freitool::google_play_flow::{PlayCall, PlayFlow, PlayOp, PlayPhase};
use freitool::json::Json;
use freitool::model::{ReleaseStatus, Track};

#[test]
fn every_error_variant_renders_its_message() {
    assert_eq!(
        StoreError::MalformedKeyPath.message(),
        "Invalid key path name. It should be AuthKey_{ID}.p8"
    );
    assert_eq!(
        StoreError::KeyUnreadable("no such file".to_string()).message(),
        "Could not read the key file: no such file"
    );
    assert_eq!(
        StoreError::MalformedKeyFile("bad json".to_string()).message(),
        "Malformed service-account key file: bad json"
    );
    assert_eq!(
        StoreError::SigningFailed("bad key".to_string()).message(),
        "Could not sign the credential: bad key"
    );
    assert_eq!(
        StoreError::ExchangeFailed("status 400".to_string()).message(),
        "Failed to get signed token: status 400"
    );
    assert_eq!(
        StoreError::Api { status: 404, body: "gone".to_string() }.message(),
        "ERROR: gone"
    );
    assert_eq!(
        StoreError::Transport("timed out".to_string()).message(),
        "Transport failure: timed out"
    );
    assert_eq!(
        StoreError::MalformedResponse("no id".to_string()).message(),
        "Failed to deserialize response: no id"
    );
    assert_eq!(
        StoreError::AmbiguousOrMissingVersion.message(),
        "More than one version found matching the version name"
    );
    assert_eq!(StoreError::AmbiguousOrMissingLocalization.message(), "Localization not found");
    assert_eq!(
        StoreError::ReleaseNotEditable.message(),
        "Release not found or in an uneditable state."
    );
    assert_eq!(StoreError::VersionAlreadyExists.message(), "Version already exists");
    assert_eq!(StoreError::NotLoggedIn.message(), "Not logged in");
}

#[test]
fn create_version_on_an_empty_track_puts_the_new_draft() {
    let (mut flow, _) = PlayFlow::new(
        PlayOp::CreateVersion { version: "1.0".to_string() },
        "internal".to_string(),
    );
    let _ = flow.step(HttpEvent::Success {
        body: Some(Json::Obj(vec![("id".to_string(), Json::Str("e1".to_string()))])),
    });
    let empty = Track { track: "internal".to_string(), releases: vec![] };
    let call = flow.step(HttpEvent::Success { body: Some(encode_track(&empty)) });
    match call {
        Some(PlayCall::PutTrack { edit_id, track }) => {
            assert_eq!(edit_id, "e1");
            assert_eq!(track.releases.len(), 1);
            assert_eq!(track.releases[0].name, "1.0");
            assert_eq!(track.releases[0].status, ReleaseStatus::Draft);
        }
        other => panic!("expected a replace call, got {:?}", other),
    }
    assert!(!flow.is_terminal());
    assert_eq!(flow.phase, PlayPhase::AwaitPut { edit_id: "e1".to_string() });
}

#[test]
fn set_notes_on_an_empty_track_is_not_editable() {
    let (mut flow, _) = PlayFlow::new(
        PlayOp::SetNotes {
            locale: "en".to_string(),
            version: "1.0".to_string(),
            text: "hello".to_string(),
        },
        "internal".to_string(),
    );
    let _ = flow.step(HttpEvent::Success {
        body: Some(Json::Obj(vec![("id".to_string(), Json::Str("e1".to_string()))])),
    });
    let empty = Track { track: "internal".to_string(), releases: vec![] };
    let call = flow.step(HttpEvent::Success { body: Some(encode_track(&empty)) });
    assert_eq!(call, None);
    assert_eq!(flow.error(), Some(&StoreError::ReleaseNotEditable));
}
