use vstd::prelude::*;

use crate::codec::{encode_track, spec_encode_track};
use crate::datasource::{HttpMethod, HttpRequest};
use crate::json::{as_str, jstr, member, obj2, spec_member, Json, JsonV};
use crate::model::Track;

verus! {

/// The token-exchange endpoint.
pub open spec fn spec_token_url() -> Seq<char> {
    "https://oauth2.googleapis.com/token"@
}

/// The URL that opens an edit session for a package.
pub open spec fn spec_edits_url(package: Seq<char>) -> Seq<char> {
    "https://www.googleapis.com/androidpublisher/v3/applications/"@ + package + "/edits"@
}

/// The URL of a named track within an edit session.
pub open spec fn spec_track_url(package: Seq<char>, edit_id: Seq<char>, track: Seq<char>) -> Seq<
    char,
> {
    "https://www.googleapis.com/androidpublisher/v3/applications/"@ + package + "/edits/"@
        + edit_id + "/tracks/"@ + track
}

/// The URL that commits an edit session.
pub open spec fn spec_commit_url(package: Seq<char>, edit_id: Seq<char>) -> Seq<char> {
    "https://www.googleapis.com/androidpublisher/v3/applications/"@ + package + "/edits/"@
        + edit_id + ":commit"@
}

/// The body of the assertion-for-token exchange.
pub open spec fn spec_token_exchange_body(assertion: Seq<char>) -> JsonV {
    JsonV::Obj(
        seq![
            ("grant_type"@, JsonV::Str("urn:ietf:params:oauth:grant-type:jwt-bearer"@)),
            ("assertion"@, JsonV::Str(assertion)),
        ],
    )
}

/// The edit-session id read from the session-creation response: its `id`
/// member, which must be a string.
pub open spec fn spec_parse_edit_id(j: JsonV) -> Option<Seq<char>> {
    match spec_member(j, "id"@) {
        Some(JsonV::Str(id)) => Some(id),
        _ => None,
    }
}

/// The bearer token read from the exchange response: its `access_token`
/// member, which must be a string.
pub open spec fn spec_parse_access_token(j: JsonV) -> Option<Seq<char>> {
    match spec_member(j, "access_token"@) {
        Some(JsonV::Str(t)) => Some(t),
        _ => None,
    }
}

/// Reads the edit-session id out of the session-creation response.
pub fn parse_edit_id(j: &Json) -> (r: Option<String>)
    ensures
        match r {
            Some(id) => spec_parse_edit_id(j@) == Some(id@),
            None => spec_parse_edit_id(j@) is None,
        },
{
    match member(j, &String::from_str("id")) {
        Some(v) => match as_str(v) {
            Some(s) => Some(s.clone()),
            None => None,
        },
        None => None,
    }
}

/// Reads the bearer token out of the exchange response.
pub fn parse_access_token(j: &Json) -> (r: Option<String>)
    ensures
        match r {
            Some(t) => spec_parse_access_token(j@) == Some(t@),
            None => spec_parse_access_token(j@) is None,
        },
{
    match member(j, &String::from_str("access_token")) {
        Some(v) => match as_str(v) {
            Some(s) => Some(s.clone()),
            None => None,
        },
        None => None,
    }
}

/// A thin, typed builder of the Android-style vendor calls, one
/// fully-described HTTP request per vendor operation.
#[derive(Debug, PartialEq, Eq)]
pub struct GooglePlayDataSource {}

impl GooglePlayDataSource {
    /// The request that exchanges a signed assertion for a bearer token.
    /// It carries no bearer of its own.
    pub fn token_exchange_request(assertion: &String) -> (r: HttpRequest)
        ensures
            r.method == HttpMethod::Post,
            r.url@ == spec_token_url(),
            r.bearer is None,
            r.body matches Some(b) && b@ == spec_token_exchange_body(assertion@),
    {
        let body = obj2(
            "grant_type",
            Json::Str(String::from_str("urn:ietf:params:oauth:grant-type:jwt-bearer")),
            "assertion",
            jstr(assertion),
        );
        HttpRequest {
            method: HttpMethod::Post,
            url: String::from_str("https://oauth2.googleapis.com/token"),
            bearer: None,
            body: Some(body),
        }
    }

    /// The request that opens an edit session for a package.
    pub fn create_edit_session_request(token: &String, package_name: &String) -> (r: HttpRequest)
        ensures
            r.method == HttpMethod::Post,
            r.url@ == spec_edits_url(package_name@),
            r.bearer matches Some(t) && t@ == token@,
            r.body is None,
    {
        let mut url = String::from_str(
            "https://www.googleapis.com/androidpublisher/v3/applications/",
        );
        url.append(package_name.as_str());
        url.append("/edits");
        HttpRequest { method: HttpMethod::Post, url, bearer: Some(token.clone()), body: None }
    }

    /// The request that fetches the releases of a named track within a
    /// session.
    pub fn get_track_request(token: &String, package_name: &String, edit_id: &String, track: &String) -> (r:
        HttpRequest)
        ensures
            r.method == HttpMethod::Get,
            r.url@ == spec_track_url(package_name@, edit_id@, track@),
            r.bearer matches Some(t) && t@ == token@,
            r.body is None,
    {
        let mut url = String::from_str(
            "https://www.googleapis.com/androidpublisher/v3/applications/",
        );
        url.append(package_name.as_str());
        url.append("/edits/");
        url.append(edit_id.as_str());
        url.append("/tracks/");
        url.append(track.as_str());
        HttpRequest { method: HttpMethod::Get, url, bearer: Some(token.clone()), body: None }
    }

    /// The request that replaces the releases of a track within a session;
    /// the track's own name selects the lane.
    pub fn update_track_request(token: &String, package_name: &String, edit_id: &String, track: &Track) -> (r:
        HttpRequest)
        ensures
            r.method == HttpMethod::Put,
            r.url@ == spec_track_url(package_name@, edit_id@, track@.track),
            r.bearer matches Some(t) && t@ == token@,
            r.body matches Some(b) && b@ == spec_encode_track(track@),
    {
        let mut url = String::from_str(
            "https://www.googleapis.com/androidpublisher/v3/applications/",
        );
        url.append(package_name.as_str());
        url.append("/edits/");
        url.append(edit_id.as_str());
        url.append("/tracks/");
        url.append(track.track.as_str());
        let body = encode_track(track);
        HttpRequest {
            method: HttpMethod::Put,
            url,
            bearer: Some(token.clone()),
            body: Some(body),
        }
    }

    /// The request that commits an edit session.
    pub fn commit_edits_request(token: &String, package_name: &String, edit_id: &String) -> (r:
        HttpRequest)
        ensures
            r.method == HttpMethod::Post,
            r.url@ == spec_commit_url(package_name@, edit_id@),
            r.bearer matches Some(t) && t@ == token@,
            r.body is None,
    {
        let mut url = String::from_str(
            "https://www.googleapis.com/androidpublisher/v3/applications/",
        );
        url.append(package_name.as_str());
        url.append("/edits/");
        url.append(edit_id.as_str());
        url.append(":commit");
        HttpRequest { method: HttpMethod::Post, url, bearer: Some(token.clone()), body: None }
    }
}

} // verus!
