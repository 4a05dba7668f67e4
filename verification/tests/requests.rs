use freitool::app_store_datasource::{ep, AppStoreDataSource};
use freitool::codec::encode_track;
use freitool::datasource::{HttpMethod, HttpRequest};
use freitool::google_play_datasource::{parse_access_token, parse_edit_id, GooglePlayDataSource};
use freitool::json::Json;
use freitool::model::{Release, ReleaseStatus, Track};

fn obj(entries: Vec<(&str, Json)>) -> Json {
    Json::Obj(entries.into_iter().map(|(k, v)| (k.to_string(), v)).collect())
}

fn s(x: &str) -> Json {
    Json::Str(x.to_string())
}

#[test]
fn ep_joins_the_base_url() {
    assert_eq!(ep("appStoreVersions"), "https://api.appstoreconnect.apple.com/v1/appStoreVersions");
}

#[test]
fn version_filter_request_is_exact() {
    let ds = AppStoreDataSource::new("tok".to_string());
    let r = ds.get_app_store_version(&"app-1".to_string(), &"3.1".to_string());
    assert_eq!(
        r,
        HttpRequest {
            method: HttpMethod::Get,
            url: "https://api.appstoreconnect.apple.com/v1/apps/app-1/appStoreVersions?filter[versionString]=3.1".to_string(),
            bearer: Some("tok".to_string()),
            body: None,
        }
    );
}

#[test]
fn localizations_request_is_exact() {
    let ds = AppStoreDataSource::new("tok".to_string());
    let r = ds.get_app_version_localizations(&"v42".to_string());
    assert_eq!(r.method, HttpMethod::Get);
    assert_eq!(
        r.url,
        "https://api.appstoreconnect.apple.com/v1/appStoreVersions/v42/appStoreVersionLocalizations"
    );
    assert_eq!(r.body, None);
}

#[test]
fn patch_request_carries_the_patch_body() {
    let ds = AppStoreDataSource::new("tok".to_string());
    let r = ds.patch_whats_new(&"loc-2".to_string(), &"fresh".to_string());
    assert_eq!(r.method, HttpMethod::Patch);
    assert_eq!(
        r.url,
        "https://api.appstoreconnect.apple.com/v1/appStoreVersionLocalizations/loc-2"
    );
    let want = obj(vec![(
        "data",
        obj(vec![
            ("type", s("appStoreVersionLocalizations")),
            ("id", s("loc-2")),
            ("attributes", obj(vec![("whatsNew", s("fresh"))])),
        ]),
    )]);
    assert_eq!(r.body, Some(want));
}

#[test]
fn create_version_request_carries_the_relationship() {
    let ds = AppStoreDataSource::new("tok".to_string());
    let r = ds.create_version(&"app-1".to_string(), &"3.2".to_string());
    assert_eq!(r.method, HttpMethod::Post);
    assert_eq!(r.url, "https://api.appstoreconnect.apple.com/v1/appStoreVersions");
    let want = obj(vec![(
        "data",
        obj(vec![
            ("attributes", obj(vec![("platform", s("IOS")), ("versionString", s("3.2"))])),
            (
                "relationships",
                obj(vec![(
                    "app",
                    obj(vec![("data", obj(vec![("id", s("app-1")), ("type", s("apps"))]))]),
                )]),
            ),
            ("type", s("appStoreVersions")),
        ]),
    )]);
    assert_eq!(r.body, Some(want));
}

#[test]
fn token_exchange_request_is_exact() {
    let r = GooglePlayDataSource::token_exchange_request(&"assertion-jwt".to_string());
    assert_eq!(r.method, HttpMethod::Post);
    assert_eq!(r.url, "https://oauth2.googleapis.com/token");
    assert_eq!(r.bearer, None);
    let want = obj(vec![
        ("grant_type", s("urn:ietf:params:oauth:grant-type:jwt-bearer")),
        ("assertion", s("assertion-jwt")),
    ]);
    assert_eq!(r.body, Some(want));
}

#[test]
fn play_urls_are_exact() {
    let tok = "t".to_string();
    let pkg = "com.example.app".to_string();
    let edit = "edit-7".to_string();
    let track = "internal".to_string();
    let r = GooglePlayDataSource::create_edit_session_request(&tok, &pkg);
    assert_eq!(
        r.url,
        "https://www.googleapis.com/androidpublisher/v3/applications/com.example.app/edits"
    );
    assert_eq!(r.method, HttpMethod::Post);
    let r = GooglePlayDataSource::get_track_request(&tok, &pkg, &edit, &track);
    assert_eq!(
        r.url,
        "https://www.googleapis.com/androidpublisher/v3/applications/com.example.app/edits/edit-7/tracks/internal"
    );
    assert_eq!(r.method, HttpMethod::Get);
    let r = GooglePlayDataSource::commit_edits_request(&tok, &pkg, &edit);
    assert_eq!(
        r.url,
        "https://www.googleapis.com/androidpublisher/v3/applications/com.example.app/edits/edit-7:commit"
    );
    assert_eq!(r.method, HttpMethod::Post);
}

#[test]
fn update_track_request_puts_the_encoded_track() {
    let t = Track {
        track: "internal".to_string(),
        releases: vec![Release {
            version_codes: None,
            release_notes: None,
            status: ReleaseStatus::Draft,
            name: "2.0".to_string(),
        }],
    };
    let r = GooglePlayDataSource::update_track_request(
        &"tok".to_string(),
        &"com.example.app".to_string(),
        &"edit-7".to_string(),
        &t,
    );
    assert_eq!(r.method, HttpMethod::Put);
    assert_eq!(
        r.url,
        "https://www.googleapis.com/androidpublisher/v3/applications/com.example.app/edits/edit-7/tracks/internal"
    );
    assert_eq!(r.bearer, Some("tok".to_string()));
    assert_eq!(r.body, Some(encode_track(&t)));
}

#[test]
fn edit_id_and_access_token_are_read_strictly() {
    assert_eq!(
        parse_edit_id(&obj(vec![("id", s("edit-9"))])),
        Some("edit-9".to_string())
    );
    assert_eq!(parse_edit_id(&obj(vec![("id", Json::Null)])), None);
    assert_eq!(parse_edit_id(&obj(vec![])), None);
    assert_eq!(parse_edit_id(&Json::Arr(vec![])), None);
    assert_eq!(
        parse_access_token(&obj(vec![("access_token", s("bearer-1")), ("expires_in", Json::Null)])),
        Some("bearer-1".to_string())
    );
    assert_eq!(parse_access_token(&obj(vec![("token", s("x"))])), None);
}
