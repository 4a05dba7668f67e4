use vstd::prelude::*;

use crate::datasource::{HttpMethod, HttpRequest};
use crate::json::{as_str, jstr, member, obj1, obj2, obj3, spec_member, Json, JsonV};

verus! {

/// What `str::to_lowercase` returns for a given sequence of characters;
/// the result depends on the characters alone.
pub uninterp spec fn lower_of(s: Seq<char>) -> Seq<char>;

/// Relies on `str::to_lowercase`: the lowered form depends on the
/// characters alone, and lowering an empty string yields an empty string.
#[verifier::external_body]
fn lowercase(s: &str) -> (r: String)
    ensures
        r@ == lower_of(s@),
        s@.len() == 0 ==> r@.len() == 0,
{
    s.to_lowercase()
}

/// The base endpoint of the iOS-style vendor API.
pub fn ep(endpoint: &str) -> (r: String)
    ensures
        r@ == "https://api.appstoreconnect.apple.com/v1"@ + "/"@ + endpoint@,
{
    let mut s = String::from_str("https://api.appstoreconnect.apple.com/v1");
    s.append("/");
    s.append(endpoint);
    s
}

/// A list-shaped response envelope: `{"data": [...]}`.
#[derive(Debug, PartialEq, Eq)]
pub struct AppStoreMultiData<T> {
    pub data: Vec<T>,
}

/// A single-item response envelope: `{"data": {...}}`.
#[derive(Debug, PartialEq, Eq)]
pub struct AppStoreSingleData<T> {
    pub data: T,
}

/// One version resource: `{"type": ..., "id": ...}`.
#[derive(Debug, PartialEq, Eq)]
pub struct AppStoreVersionData {
    pub kind: String,
    pub id: String,
}

/// The mathematical shape of an [`AppStoreVersionData`].
pub struct AppStoreVersionDataView {
    pub kind: Seq<char>,
    pub id: Seq<char>,
}

impl View for AppStoreVersionData {
    type V = AppStoreVersionDataView;

    open spec fn view(&self) -> AppStoreVersionDataView {
        AppStoreVersionDataView { kind: self.kind@, id: self.id@ }
    }
}

impl DeepView for AppStoreVersionData {
    type V = AppStoreVersionDataView;

    open spec fn deep_view(&self) -> AppStoreVersionDataView {
        self.view()
    }
}

/// The attributes of a version localization: its locale and, when set, the
/// "what's new" text.
#[derive(Debug, PartialEq, Eq)]
pub struct AppStoreVersionLocalizationAttributes {
    pub locale: String,
    pub whats_new: Option<String>,
}

/// The mathematical shape of localization attributes.
pub struct AppStoreVersionLocalizationAttributesView {
    pub locale: Seq<char>,
    pub whats_new: Option<Seq<char>>,
}

impl View for AppStoreVersionLocalizationAttributes {
    type V = AppStoreVersionLocalizationAttributesView;

    open spec fn view(&self) -> AppStoreVersionLocalizationAttributesView {
        AppStoreVersionLocalizationAttributesView {
            locale: self.locale@,
            whats_new: match self.whats_new {
                Some(s) => Some(s@),
                None => None,
            },
        }
    }
}

impl DeepView for AppStoreVersionLocalizationAttributes {
    type V = AppStoreVersionLocalizationAttributesView;

    open spec fn deep_view(&self) -> AppStoreVersionLocalizationAttributesView {
        self.view()
    }
}

/// The attributes sent when patching a localization's "what's new" text.
#[derive(Debug, PartialEq, Eq)]
pub struct AppStoreVersionLocalizationAttributesPatch {
    pub whats_new: String,
}

/// One localization resource: `{"type": ..., "id": ..., "attributes": ...}`.
#[derive(Debug, PartialEq, Eq)]
pub struct AppStoreVersionLocalizationData<T> {
    pub kind: String,
    pub id: String,
    pub attributes: T,
}

/// The mathematical shape of a localization resource.
pub struct AppStoreVersionLocalizationDataView<A> {
    pub kind: Seq<char>,
    pub id: Seq<char>,
    pub attributes: A,
}

impl<T: DeepView> View for AppStoreVersionLocalizationData<T> {
    type V = AppStoreVersionLocalizationDataView<T::V>;

    open spec fn view(&self) -> AppStoreVersionLocalizationDataView<T::V> {
        AppStoreVersionLocalizationDataView {
            kind: self.kind@,
            id: self.id@,
            attributes: self.attributes.deep_view(),
        }
    }
}

impl<T: DeepView> DeepView for AppStoreVersionLocalizationData<T> {
    type V = AppStoreVersionLocalizationDataView<T::V>;

    open spec fn deep_view(&self) -> AppStoreVersionLocalizationDataView<T::V> {
        self.view()
    }
}

/// The list of versions in a version-filter response.
pub type AppStoreVersionResponse = AppStoreMultiData<AppStoreVersionData>;

/// The list of localizations of one version.
pub type AppStoreVersionLocalizationResponse = AppStoreMultiData<
    AppStoreVersionLocalizationData<AppStoreVersionLocalizationAttributes>,
>;

/// The body sent when patching one localization.
pub type AppStoreVersionLocalizationResponsePatch = AppStoreSingleData<
    AppStoreVersionLocalizationData<AppStoreVersionLocalizationAttributesPatch>,
>;

// ---------------------------------------------------------------------------
// Response parsing
// ---------------------------------------------------------------------------

/// The version resource read from a JSON value: `type` and `id` must be
/// strings.
pub open spec fn spec_parse_version_data(j: JsonV) -> Option<AppStoreVersionDataView> {
    match (spec_member(j, "type"@), spec_member(j, "id"@)) {
        (Some(JsonV::Str(k)), Some(JsonV::Str(id))) => Some(AppStoreVersionDataView { kind: k, id }),
        _ => None,
    }
}

/// The version list read from the items of the `data` array.
pub open spec fn spec_parse_version_list(s: Seq<JsonV>) -> Option<Seq<AppStoreVersionDataView>> {
    if forall|i: int| 0 <= i < s.len() ==> (#[trigger] spec_parse_version_data(s[i])) is Some {
        Some(Seq::new(s.len(), |i: int| spec_parse_version_data(s[i])->0))
    } else {
        None
    }
}

/// The version-filter response read from a JSON value: an object whose
/// `data` member is an array of version resources.
pub open spec fn spec_parse_versions_response(j: JsonV) -> Option<Seq<AppStoreVersionDataView>> {
    match spec_member(j, "data"@) {
        Some(JsonV::Arr(a)) => spec_parse_version_list(a),
        _ => None,
    }
}

/// Reads one version resource out of a JSON value.
fn parse_version_data(j: &Json) -> (r: Option<AppStoreVersionData>)
    ensures
        match r {
            Some(d) => spec_parse_version_data(j@) == Some(d@),
            None => spec_parse_version_data(j@) is None,
        },
{
    let kind = match member(j, &String::from_str("type")) {
        Some(v) => match as_str(v) {
            Some(s) => s.clone(),
            None => {
                return None;
            },
        },
        None => {
            return None;
        },
    };
    let id = match member(j, &String::from_str("id")) {
        Some(v) => match as_str(v) {
            Some(s) => s.clone(),
            None => {
                return None;
            },
        },
        None => {
            return None;
        },
    };
    Some(AppStoreVersionData { kind, id })
}

/// Reads the version-filter response out of a JSON value.
pub fn parse_versions_response(j: &Json) -> (r: Option<AppStoreVersionResponse>)
    ensures
        match r {
            Some(resp) => spec_parse_versions_response(j@) == Some(resp.data.deep_view()),
            None => spec_parse_versions_response(j@) is None,
        },
{
    let items = match member(j, &String::from_str("data")) {
        Some(v) => match v {
            Json::Arr(a) => {
                proof {
                    assert(v@ == JsonV::Arr(crate::json::json_seq_view(a@)));
                }
                a
            },
            _ => {
                return None;
            },
        },
        None => {
            return None;
        },
    };
    let ghost s = crate::json::json_seq_view(items@);
    proof {
        crate::json::lemma_json_seq_view(items@);
        assert(spec_parse_versions_response(j@) == spec_parse_version_list(s));
    }
    let mut data: Vec<AppStoreVersionData> = Vec::new();
    let mut i: usize = 0;
    while i < items.len()
        invariant
            i <= items.len(),
            s == crate::json::json_seq_view(items@),
            s.len() == items@.len(),
            forall|k: int|
                0 <= k < items@.len() ==> s[k] == crate::json::json_view(#[trigger] items@[k]),
            spec_parse_versions_response(j@) == spec_parse_version_list(s),
            data@.len() == i,
            forall|k: int|
                0 <= k < i ==> (#[trigger] spec_parse_version_data(s[k])) is Some && data@[k]@
                    == spec_parse_version_data(s[k])->0,
        decreases items.len() - i,
    {
        match parse_version_data(&items[i]) {
            Some(d) => {
                data.push(d);
            },
            None => {
                proof {
                    assert(spec_parse_version_data(s[i as int]) is None);
                    assert(!(forall|k: int|
                        0 <= k < s.len() ==> (#[trigger] spec_parse_version_data(s[k])) is Some));
                    assert(spec_parse_version_list(s) is None);
                    assert(spec_parse_versions_response(j@) is None);
                }
                return None;
            },
        }
        i += 1;
    }
    proof {
        assert(data.deep_view() =~= Seq::new(s.len(), |k: int| spec_parse_version_data(s[k])->0));
        assert(spec_parse_versions_response(j@) == Some(data.deep_view()));
    }
    Some(AppStoreMultiData { data })
}

/// The localization attributes read from a JSON value: `locale` must be a
/// string; `whatsNew`, when present and not null, must be a string.
pub open spec fn spec_parse_loc_attrs(j: JsonV) -> Option<
    AppStoreVersionLocalizationAttributesView,
> {
    match spec_member(j, "locale"@) {
        Some(JsonV::Str(locale)) => match spec_member(j, "whatsNew"@) {
            None => Some(AppStoreVersionLocalizationAttributesView { locale, whats_new: None }),
            Some(JsonV::Null) => Some(
                AppStoreVersionLocalizationAttributesView { locale, whats_new: None },
            ),
            Some(JsonV::Str(w)) => Some(
                AppStoreVersionLocalizationAttributesView { locale, whats_new: Some(w) },
            ),
            Some(_) => None,
        },
        _ => None,
    }
}

/// The localization resource read from a JSON value.
pub open spec fn spec_parse_loc_data(j: JsonV) -> Option<
    AppStoreVersionLocalizationDataView<AppStoreVersionLocalizationAttributesView>,
> {
    match (spec_member(j, "type"@), spec_member(j, "id"@), spec_member(j, "attributes"@)) {
        (Some(JsonV::Str(k)), Some(JsonV::Str(id)), Some(attrs)) => match spec_parse_loc_attrs(
            attrs,
        ) {
            Some(a) => Some(
                AppStoreVersionLocalizationDataView { kind: k, id, attributes: a },
            ),
            None => None,
        },
        _ => None,
    }
}

/// The localization list read from the items of the `data` array.
pub open spec fn spec_parse_loc_list(s: Seq<JsonV>) -> Option<
    Seq<AppStoreVersionLocalizationDataView<AppStoreVersionLocalizationAttributesView>>,
> {
    if forall|i: int| 0 <= i < s.len() ==> (#[trigger] spec_parse_loc_data(s[i])) is Some {
        Some(Seq::new(s.len(), |i: int| spec_parse_loc_data(s[i])->0))
    } else {
        None
    }
}

/// The localization-list response read from a JSON value.
pub open spec fn spec_parse_locs_response(j: JsonV) -> Option<
    Seq<AppStoreVersionLocalizationDataView<AppStoreVersionLocalizationAttributesView>>,
> {
    match spec_member(j, "data"@) {
        Some(JsonV::Arr(a)) => spec_parse_loc_list(a),
        _ => None,
    }
}

/// Reads the localization attributes out of a JSON value.
fn parse_loc_attrs(j: &Json) -> (r: Option<AppStoreVersionLocalizationAttributes>)
    ensures
        match r {
            Some(a) => spec_parse_loc_attrs(j@) == Some(a@),
            None => spec_parse_loc_attrs(j@) is None,
        },
{
    let locale = match member(j, &String::from_str("locale")) {
        Some(v) => match as_str(v) {
            Some(s) => s.clone(),
            None => {
                return None;
            },
        },
        None => {
            return None;
        },
    };
    let whats_new = match member(j, &String::from_str("whatsNew")) {
        None => None,
        Some(v) => match v {
            Json::Null => None,
            Json::Str(s) => Some(s.clone()),
            _ => {
                return None;
            },
        },
    };
    Some(AppStoreVersionLocalizationAttributes { locale, whats_new })
}

/// Reads one localization resource out of a JSON value.
fn parse_loc_data(j: &Json) -> (r: Option<
    AppStoreVersionLocalizationData<AppStoreVersionLocalizationAttributes>,
>)
    ensures
        match r {
            Some(d) => spec_parse_loc_data(j@) == Some(d@),
            None => spec_parse_loc_data(j@) is None,
        },
{
    let kind = match member(j, &String::from_str("type")) {
        Some(v) => match as_str(v) {
            Some(s) => s.clone(),
            None => {
                return None;
            },
        },
        None => {
            return None;
        },
    };
    let id = match member(j, &String::from_str("id")) {
        Some(v) => match as_str(v) {
            Some(s) => s.clone(),
            None => {
                return None;
            },
        },
        None => {
            return None;
        },
    };
    let attributes = match member(j, &String::from_str("attributes")) {
        Some(v) => match parse_loc_attrs(v) {
            Some(a) => a,
            None => {
                return None;
            },
        },
        None => {
            return None;
        },
    };
    Some(AppStoreVersionLocalizationData { kind, id, attributes })
}

/// Reads the localization-list response out of a JSON value.
pub fn parse_locs_response(j: &Json) -> (r: Option<AppStoreVersionLocalizationResponse>)
    ensures
        match r {
            Some(resp) => spec_parse_locs_response(j@) == Some(resp.data.deep_view()),
            None => spec_parse_locs_response(j@) is None,
        },
{
    let items = match member(j, &String::from_str("data")) {
        Some(v) => match v {
            Json::Arr(a) => {
                proof {
                    assert(v@ == JsonV::Arr(crate::json::json_seq_view(a@)));
                }
                a
            },
            _ => {
                return None;
            },
        },
        None => {
            return None;
        },
    };
    let ghost s = crate::json::json_seq_view(items@);
    proof {
        crate::json::lemma_json_seq_view(items@);
        assert(spec_parse_locs_response(j@) == spec_parse_loc_list(s));
    }
    let mut data: Vec<AppStoreVersionLocalizationData<AppStoreVersionLocalizationAttributes>> =
        Vec::new();
    let mut i: usize = 0;
    while i < items.len()
        invariant
            i <= items.len(),
            s == crate::json::json_seq_view(items@),
            s.len() == items@.len(),
            forall|k: int|
                0 <= k < items@.len() ==> s[k] == crate::json::json_view(#[trigger] items@[k]),
            spec_parse_locs_response(j@) == spec_parse_loc_list(s),
            data@.len() == i,
            forall|k: int|
                0 <= k < i ==> (#[trigger] spec_parse_loc_data(s[k])) is Some && data@[k]@
                    == spec_parse_loc_data(s[k])->0,
        decreases items.len() - i,
    {
        match parse_loc_data(&items[i]) {
            Some(d) => {
                data.push(d);
            },
            None => {
                proof {
                    assert(spec_parse_loc_data(s[i as int]) is None);
                    assert(!(forall|k: int|
                        0 <= k < s.len() ==> (#[trigger] spec_parse_loc_data(s[k])) is Some));
                    assert(spec_parse_loc_list(s) is None);
                    assert(spec_parse_locs_response(j@) is None);
                }
                return None;
            },
        }
        i += 1;
    }
    proof {
        assert(data.deep_view() =~= Seq::new(s.len(), |k: int| spec_parse_loc_data(s[k])->0));
        assert(spec_parse_locs_response(j@) == Some(data.deep_view()));
    }
    Some(AppStoreMultiData { data })
}

// ---------------------------------------------------------------------------
// Resolution
// ---------------------------------------------------------------------------

/// Whether a localization's locale matches a requested locale,
/// case-insensitively.
pub open spec fn spec_loc_matches(loc: Seq<char>, want: Seq<char>) -> bool {
    lower_of(loc) == lower_of(want)
}

/// The first localization whose locale matches `want` case-insensitively,
/// if any.
pub open spec fn spec_first_locale_match(
    locs: Seq<AppStoreVersionLocalizationDataView<AppStoreVersionLocalizationAttributesView>>,
    want: Seq<char>,
) -> Option<AppStoreVersionLocalizationDataView<AppStoreVersionLocalizationAttributesView>>
    decreases locs.len(),
{
    if locs.len() == 0 {
        None
    } else if spec_loc_matches(locs[0].attributes.locale, want) {
        Some(locs[0])
    } else {
        spec_first_locale_match(locs.drop_first(), want)
    }
}

/// The localization a notes patch aims at: with an empty requested locale,
/// the sole localization (none when zero or several exist); otherwise the
/// first whose locale matches case-insensitively.
pub open spec fn spec_select_localization(
    locs: Seq<AppStoreVersionLocalizationDataView<AppStoreVersionLocalizationAttributesView>>,
    want: Seq<char>,
) -> Option<AppStoreVersionLocalizationDataView<AppStoreVersionLocalizationAttributesView>> {
    if want.len() == 0 {
        if locs.len() == 1 {
            Some(locs[0])
        } else {
            None
        }
    } else {
        spec_first_locale_match(locs, want)
    }
}

/// Resolves a version-filter result to its sole element: any other
/// cardinality is ambiguous or missing and yields nothing.
pub fn resolve_version<'a>(versions: &'a Vec<AppStoreVersionData>) -> (r: Option<
    &'a AppStoreVersionData,
>)
    ensures
        r is Some <==> versions@.len() == 1,
        match r {
            Some(v) => *v == versions@[0],
            None => true,
        },
{
    if versions.len() == 1 {
        Some(&versions[0])
    } else {
        None
    }
}

/// Selects the localization a notes patch aims at, as
/// [`spec_select_localization`] describes.
pub fn select_localization<'a>(
    locs: &'a Vec<AppStoreVersionLocalizationData<AppStoreVersionLocalizationAttributes>>,
    locale: &String,
) -> (r: Option<&'a AppStoreVersionLocalizationData<AppStoreVersionLocalizationAttributes>>)
    ensures
        match r {
            Some(l) => spec_select_localization(locs.deep_view(), locale@) == Some(l@),
            None => spec_select_localization(locs.deep_view(), locale@) is None,
        },
{
    if locale.as_str().is_empty() {
        if locs.len() == 1 {
            return Some(&locs[0]);
        } else {
            return None;
        }
    }
    let want = lowercase(locale.as_str());
    let ghost all = locs.deep_view();
    proof {
        assert(all.skip(0) =~= all);
    }
    let mut i: usize = 0;
    while i < locs.len()
        invariant
            i <= locs.len(),
            all == locs.deep_view(),
            all.len() == locs@.len(),
            forall|k: int| 0 <= k < all.len() ==> all[k] == (#[trigger] locs@[k]).deep_view(),
            locale@.len() != 0,
            want@ == lower_of(locale@),
            spec_first_locale_match(all, locale@) == spec_first_locale_match(
                all.skip(i as int),
                locale@,
            ),
        decreases locs.len() - i,
    {
        proof {
            assert(all.skip(i as int).len() == all.len() - i);
            assert(all.skip(i as int)[0] == all[i as int]);
        }
        let candidate = lowercase(locs[i].attributes.locale.as_str());
        if candidate.eq(&want) {
            proof {
                assert(spec_loc_matches(all[i as int].attributes.locale, locale@));
                assert(spec_first_locale_match(all.skip(i as int), locale@) == Some(all[i as int]));
            }
            return Some(&locs[i]);
        }
        proof {
            assert(!spec_loc_matches(all[i as int].attributes.locale, locale@));
            assert(all.skip(i as int).drop_first() =~= all.skip(i + 1));
        }
        i += 1;
    }
    proof {
        assert(all.skip(all.len() as int)
            =~= Seq::<
            AppStoreVersionLocalizationDataView<AppStoreVersionLocalizationAttributesView>,
        >::empty());
    }
    None
}

// ---------------------------------------------------------------------------
// Requests
// ---------------------------------------------------------------------------

/// The URL that lists the versions of an app filtered by version string.
pub open spec fn spec_version_list_url(app_id: Seq<char>, version: Seq<char>) -> Seq<char> {
    "https://api.appstoreconnect.apple.com/v1"@ + "/"@ + "apps/"@ + app_id
        + "/appStoreVersions?filter[versionString]="@ + version
}

/// The URL that lists the localizations of a version.
pub open spec fn spec_localizations_url(version_id: Seq<char>) -> Seq<char> {
    "https://api.appstoreconnect.apple.com/v1"@ + "/"@ + "appStoreVersions/"@ + version_id
        + "/appStoreVersionLocalizations"@
}

/// The URL that patches one localization.
pub open spec fn spec_patch_url(localization_id: Seq<char>) -> Seq<char> {
    "https://api.appstoreconnect.apple.com/v1"@ + "/"@ + "appStoreVersionLocalizations/"@
        + localization_id
}

/// The URL that creates a version.
pub open spec fn spec_create_version_url() -> Seq<char> {
    "https://api.appstoreconnect.apple.com/v1"@ + "/"@ + "appStoreVersions"@
}

/// The body sent when patching a localization's "what's new" text.
pub open spec fn spec_patch_body(localization_id: Seq<char>, text: Seq<char>) -> JsonV {
    JsonV::Obj(
        seq![
            (
                "data"@,
                JsonV::Obj(
                    seq![
                        ("type"@, JsonV::Str("appStoreVersionLocalizations"@)),
                        ("id"@, JsonV::Str(localization_id)),
                        ("attributes"@, JsonV::Obj(seq![("whatsNew"@, JsonV::Str(text))])),
                    ],
                ),
            ),
        ],
    )
}

/// The body sent when creating a version: platform, version string, and the
/// relationship to the target app.
pub open spec fn spec_create_version_body(app_id: Seq<char>, version: Seq<char>) -> JsonV {
    JsonV::Obj(
        seq![
            (
                "data"@,
                JsonV::Obj(
                    seq![
                        (
                            "attributes"@,
                            JsonV::Obj(
                                seq![
                                    ("platform"@, JsonV::Str("IOS"@)),
                                    ("versionString"@, JsonV::Str(version)),
                                ],
                            ),
                        ),
                        (
                            "relationships"@,
                            JsonV::Obj(
                                seq![
                                    (
                                        "app"@,
                                        JsonV::Obj(
                                            seq![
                                                (
                                                    "data"@,
                                                    JsonV::Obj(
                                                        seq![
                                                            ("id"@, JsonV::Str(app_id)),
                                                            ("type"@, JsonV::Str("apps"@)),
                                                        ],
                                                    ),
                                                ),
                                            ],
                                        ),
                                    ),
                                ],
                            ),
                        ),
                        ("type"@, JsonV::Str("appStoreVersions"@)),
                    ],
                ),
            ),
        ],
    )
}

/// Encodes the typed patch envelope into its wire shape:
/// `{"data": {"type": ..., "id": ..., "attributes": {"whatsNew": ...}}}`.
pub fn encode_patch_envelope(p: &AppStoreVersionLocalizationResponsePatch) -> (j: Json)
    ensures
        j@ == JsonV::Obj(
            seq![
                (
                    "data"@,
                    JsonV::Obj(
                        seq![
                            ("type"@, JsonV::Str(p.data.kind@)),
                            ("id"@, JsonV::Str(p.data.id@)),
                            (
                                "attributes"@,
                                JsonV::Obj(
                                    seq![("whatsNew"@, JsonV::Str(p.data.attributes.whats_new@))],
                                ),
                            ),
                        ],
                    ),
                ),
            ],
        ),
{
    let attributes = obj1("whatsNew", jstr(&p.data.attributes.whats_new));
    let data = obj3("type", jstr(&p.data.kind), "id", jstr(&p.data.id), "attributes", attributes);
    obj1("data", data)
}

/// A thin, typed builder of the iOS-style vendor calls: it holds the bearer
/// credential and yields one fully-described HTTP request per vendor
/// operation.
#[derive(Debug, PartialEq, Eq)]
pub struct AppStoreDataSource {
    token: String,
}

impl AppStoreDataSource {
    /// The bearer credential the requests carry.
    pub closed spec fn spec_token(&self) -> Seq<char> {
        self.token@
    }

    /// Wraps a bearer credential.
    pub fn new(token: String) -> (r: Self)
        ensures
            r.spec_token() == token@,
    {
        AppStoreDataSource { token }
    }

    /// The request that lists the versions of an app filtered by exact
    /// version string.
    pub fn get_app_store_version(&self, app_id: &String, version: &String) -> (r: HttpRequest)
        ensures
            r.method == HttpMethod::Get,
            r.url@ == spec_version_list_url(app_id@, version@),
            r.bearer matches Some(t) && t@ == self.spec_token(),
            r.body is None,
    {
        let mut path = String::from_str("apps/");
        path.append(app_id.as_str());
        path.append("/appStoreVersions?filter[versionString]=");
        path.append(version.as_str());
        HttpRequest {
            method: HttpMethod::Get,
            url: ep(path.as_str()),
            bearer: Some(self.token.clone()),
            body: None,
        }
    }

    /// The request that lists the localizations of a version.
    pub fn get_app_version_localizations(&self, version_id: &String) -> (r: HttpRequest)
        ensures
            r.method == HttpMethod::Get,
            r.url@ == spec_localizations_url(version_id@),
            r.bearer matches Some(t) && t@ == self.spec_token(),
            r.body is None,
    {
        let mut path = String::from_str("appStoreVersions/");
        path.append(version_id.as_str());
        path.append("/appStoreVersionLocalizations");
        HttpRequest {
            method: HttpMethod::Get,
            url: ep(path.as_str()),
            bearer: Some(self.token.clone()),
            body: None,
        }
    }

    /// The request that replaces the "what's new" text of one localization;
    /// the body goes out as the typed patch envelope.
    pub fn patch_whats_new(&self, localization_id: &String, whats_new: &String) -> (r: HttpRequest)
        ensures
            r.method == HttpMethod::Patch,
            r.url@ == spec_patch_url(localization_id@),
            r.bearer matches Some(t) && t@ == self.spec_token(),
            r.body matches Some(b) && b@ == spec_patch_body(localization_id@, whats_new@),
    {
        let mut path = String::from_str("appStoreVersionLocalizations/");
        path.append(localization_id.as_str());
        let envelope = AppStoreSingleData {
            data: AppStoreVersionLocalizationData {
                kind: String::from_str("appStoreVersionLocalizations"),
                id: localization_id.clone(),
                attributes: AppStoreVersionLocalizationAttributesPatch {
                    whats_new: whats_new.clone(),
                },
            },
        };
        let body = encode_patch_envelope(&envelope);
        HttpRequest {
            method: HttpMethod::Patch,
            url: ep(path.as_str()),
            bearer: Some(self.token.clone()),
            body: Some(body),
        }
    }

    /// The request that creates a version of the app.
    pub fn create_version(&self, app_id: &String, version: &String) -> (r: HttpRequest)
        ensures
            r.method == HttpMethod::Post,
            r.url@ == spec_create_version_url(),
            r.bearer matches Some(t) && t@ == self.spec_token(),
            r.body matches Some(b) && b@ == spec_create_version_body(app_id@, version@),
    {
        let attributes = obj2(
            "platform",
            Json::Str(String::from_str("IOS")),
            "versionString",
            jstr(version),
        );
        let app_data = obj2("id", jstr(app_id), "type", Json::Str(String::from_str("apps")));
        let relationships = obj1("app", obj1("data", app_data));
        let data = obj3(
            "attributes",
            attributes,
            "relationships",
            relationships,
            "type",
            Json::Str(String::from_str("appStoreVersions")),
        );
        let body = obj1("data", data);
        HttpRequest {
            method: HttpMethod::Post,
            url: ep("appStoreVersions"),
            bearer: Some(self.token.clone()),
            body: Some(body),
        }
    }
}

} // verus!
