use freitool::app_store_flow::{IosCall, IosFlow, IosOp, IosPhase};
use freitool::datasource::HttpEvent;
use freitool::errors::StoreError;
use freitool::json::Json;

fn obj(entries: Vec<(&str, Json)>) -> Json {
    Json::Obj(entries.into_iter().map(|(k, v)| (k.to_string(), v)).collect())
}

fn s(x: &str) -> Json {
    Json::Str(x.to_string())
}

fn versions_response(ids: &[&str]) -> HttpEvent {
    let items = ids
        .iter()
        .map(|id| obj(vec![("type", s("appStoreVersions")), ("id", s(id))]))
        .collect();
    HttpEvent::Success { body: Some(obj(vec![("data", Json::Arr(items))])) }
}

fn localization(id: &str, locale: &str) -> Json {
    obj(vec![
        ("type", s("appStoreVersionLocalizations")),
        ("id", s(id)),
        ("attributes", obj(vec![("locale", s(locale)), ("whatsNew", Json::Null)])),
    ])
}

fn locs_response(locs: Vec<Json>) -> HttpEvent {
    HttpEvent::Success { body: Some(obj(vec![("data", Json::Arr(locs))])) }
}

fn set_notes_flow(locale: &str) -> (IosFlow, IosCall) {
    IosFlow::new(IosOp::SetNotes {
        locale: locale.to_string(),
        version: "3.1".to_string(),
        text: "fresh".to_string(),
    })
}

#[test]
fn set_notes_runs_to_patch() {
    let (mut flow, first) = set_notes_flow("en-US");
    assert_eq!(first, IosCall::ListVersions { version: "3.1".to_string() });

    let call = flow.step(versions_response(&["v42"]));
    assert_eq!(call, Some(IosCall::ListLocalizations { version_id: "v42".to_string() }));

    let call = flow.step(locs_response(vec![
        localization("loc-1", "pt-BR"),
        localization("loc-2", "en-US"),
    ]));
    assert_eq!(
        call,
        Some(IosCall::PatchLocalization {
            localization_id: "loc-2".to_string(),
            text: "fresh".to_string(),
        })
    );

    let call = flow.step(HttpEvent::Success { body: None });
    assert_eq!(call, None);
    assert_eq!(flow.phase, IosPhase::Complete);
}

#[test]
fn zero_matching_versions_is_ambiguous_or_missing() {
    let (mut flow, _) = set_notes_flow("en-US");
    let call = flow.step(versions_response(&[]));
    assert_eq!(call, None);
    assert_eq!(flow.error(), Some(&StoreError::AmbiguousOrMissingVersion));
    assert_eq!(
        flow.error().unwrap().message(),
        "More than one version found matching the version name"
    );
}

#[test]
fn several_matching_versions_is_ambiguous_or_missing() {
    let (mut flow, _) = set_notes_flow("en-US");
    let call = flow.step(versions_response(&["v1", "v2"]));
    assert_eq!(call, None);
    assert_eq!(flow.error(), Some(&StoreError::AmbiguousOrMissingVersion));
}

#[test]
fn locale_matches_case_insensitively() {
    let (mut flow, _) = set_notes_flow("EN-us");
    let _ = flow.step(versions_response(&["v42"]));
    let call = flow.step(locs_response(vec![
        localization("loc-1", "pt-BR"),
        localization("loc-2", "en-US"),
    ]));
    assert_eq!(
        call,
        Some(IosCall::PatchLocalization {
            localization_id: "loc-2".to_string(),
            text: "fresh".to_string(),
        })
    );
}

#[test]
fn missing_locale_is_ambiguous_or_missing() {
    let (mut flow, _) = set_notes_flow("de-DE");
    let _ = flow.step(versions_response(&["v42"]));
    let call = flow.step(locs_response(vec![localization("loc-1", "pt-BR")]));
    assert_eq!(call, None);
    assert_eq!(flow.error(), Some(&StoreError::AmbiguousOrMissingLocalization));
    assert_eq!(flow.error().unwrap().message(), "Localization not found");
}

#[test]
fn empty_locale_patches_the_sole_localization() {
    let (mut flow, _) = set_notes_flow("");
    let _ = flow.step(versions_response(&["v42"]));
    let call = flow.step(locs_response(vec![localization("loc-9", "ja")]));
    assert_eq!(
        call,
        Some(IosCall::PatchLocalization {
            localization_id: "loc-9".to_string(),
            text: "fresh".to_string(),
        })
    );
}

#[test]
fn empty_locale_with_several_localizations_is_ambiguous() {
    let (mut flow, _) = set_notes_flow("");
    let _ = flow.step(versions_response(&["v42"]));
    let call = flow.step(locs_response(vec![
        localization("loc-1", "ja"),
        localization("loc-2", "ko"),
    ]));
    assert_eq!(call, None);
    assert_eq!(flow.error(), Some(&StoreError::AmbiguousOrMissingLocalization));
}

#[test]
fn ios_create_version_is_one_call() {
    let (mut flow, first) = IosFlow::new(IosOp::CreateVersion { version: "3.2".to_string() });
    assert_eq!(first, IosCall::CreateVersion { version: "3.2".to_string() });
    let call = flow.step(HttpEvent::Success { body: Some(obj(vec![("data", Json::Null)])) });
    assert_eq!(call, None);
    assert_eq!(flow.phase, IosPhase::Complete);
}

#[test]
fn ios_create_version_failure_carries_the_vendor_body() {
    let (mut flow, _) = IosFlow::new(IosOp::CreateVersion { version: "3.2".to_string() });
    let call = flow.step(HttpEvent::Failure {
        status: 409,
        body: "duplicate version".to_string(),
    });
    assert_eq!(call, None);
    assert_eq!(
        flow.error(),
        Some(&StoreError::Api { status: 409, body: "duplicate version".to_string() })
    );
}

#[test]
fn ios_vendor_failure_during_versions_aborts() {
    let (mut flow, _) = set_notes_flow("en-US");
    let call = flow.step(HttpEvent::Failure { status: 401, body: "expired".to_string() });
    assert_eq!(call, None);
    assert_eq!(flow.error(), Some(&StoreError::Api { status: 401, body: "expired".to_string() }));
    let call = flow.step(versions_response(&["v42"]));
    assert_eq!(call, None, "an aborted run never asks for another call");
}
