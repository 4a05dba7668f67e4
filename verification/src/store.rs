use vstd::prelude::*;

use vstd::string::StrSliceExecFns;

use crate::errors::StoreError;
use crate::json::{as_str, member, spec_member, Json, JsonV};
use crate::jwt::{
    build_es256_jwt, build_rs256_jwt, spec_claims_json, spec_es256_header, spec_jwt_shape,
    spec_rs256_header, Claims, ClaimsView,
};

verus! {

/// A minted access credential: the opaque signed token, and the absolute
/// instant (seconds since the epoch) at which it expires.
#[derive(Debug, PartialEq, Eq)]
pub struct Credential {
    pub token: String,
    pub expires_at: u64,
}

// ---------------------------------------------------------------------------
// Key-path parsing
// ---------------------------------------------------------------------------

/// The file-name component of a path: what follows the last `/`, or the
/// whole path when it has none.
pub open spec fn spec_after_last_slash(s: Seq<char>) -> Seq<char>
    decreases s.len(),
{
    if s.len() == 0 {
        s
    } else if s.last() == '/' {
        Seq::empty()
    } else {
        spec_after_last_slash(s.drop_last()).push(s.last())
    }
}

/// The key identifier a key path encodes, if its file name matches the
/// `AuthKey_{ID}.p8` pattern exactly: the `AuthKey_` prefix, a nonempty
/// identifier free of further underscores and dots, and the `.p8` suffix.
/// A missing or doubled underscore, or a missing suffix, matches nothing.
pub open spec fn spec_key_id(path: Seq<char>) -> Option<Seq<char>> {
    let name = spec_after_last_slash(path);
    if name.len() >= 12 && name.subrange(0, 8) == "AuthKey_"@ && name.subrange(
        name.len() - 3,
        name.len() as int,
    ) == ".p8"@ {
        let id = name.subrange(8, name.len() - 3);
        if forall|i: int| 0 <= i < id.len() ==> id[i] != '_' && id[i] != '.' {
            Some(id)
        } else {
            None
        }
    } else {
        None
    }
}

/// What follows the last slash is the suffix after it.
proof fn lemma_after_last_slash_suffix(s: Seq<char>, k: int)
    requires
        0 <= k < s.len(),
        s[k] == '/',
        forall|j: int| k < j < s.len() ==> s[j] != '/',
    ensures
        spec_after_last_slash(s) == s.skip(k + 1),
    decreases s.len(),
{
    if k == s.len() - 1 {
        assert(s.last() == '/');
        assert(s.skip(k + 1) =~= Seq::<char>::empty());
    } else {
        assert(s.last() != '/');
        assert forall|j: int| k < j < s.drop_last().len() implies s.drop_last()[j] != '/' by {
            assert(s.drop_last()[j] == s[j]);
        }
        lemma_after_last_slash_suffix(s.drop_last(), k);
        assert(s.drop_last().skip(k + 1).push(s.last()) =~= s.skip(k + 1));
    }
}

/// A path without a slash is its own file name.
proof fn lemma_after_last_slash_whole(s: Seq<char>)
    requires
        forall|j: int| 0 <= j < s.len() ==> s[j] != '/',
    ensures
        spec_after_last_slash(s) == s,
    decreases s.len(),
{
    if s.len() > 0 {
        assert forall|j: int|
            0 <= j < s.drop_last().len() implies s.drop_last()[j] != '/' by {
            assert(s.drop_last()[j] == s[j]);
        }
        lemma_after_last_slash_whole(s.drop_last());
        assert(s.drop_last().push(s.last()) =~= s);
    }
}

/// Reads the key identifier out of a key path, as [`spec_key_id`]
/// describes.
pub fn parse_key_id(path: &str) -> (r: Option<String>)
    ensures
        match r {
            Some(id) => spec_key_id(path@) == Some(id@),
            None => spec_key_id(path@) is None,
        },
{
    let n = path.unicode_len();
    let mut start: usize = 0;
    let mut i: usize = 0;
    while i < n
        invariant
            n == path@.len(),
            start <= i <= n,
            forall|j: int| start <= j < i ==> path@[j] != '/',
            start == 0 || (start - 1 < n && path@[start - 1] == '/'),
        decreases n - i,
    {
        if path.get_char(i) == '/' {
            start = i + 1;
        }
        i += 1;
    }
    proof {
        if start == 0 {
            lemma_after_last_slash_whole(path@);
        } else {
            lemma_after_last_slash_suffix(path@, start - 1);
        }
    }
    let ghost name = spec_after_last_slash(path@);
    proof {
        assert(name =~= path@.subrange(start as int, n as int));
    }
    if n - start < 12 {
        return None;
    }
    proof {
        reveal_strlit("AuthKey_");
        reveal_strlit(".p8");
        assert("AuthKey_"@.len() == 8);
        assert(".p8"@.len() == 3);
    }
    let prefix_ok = path.get_char(start) == 'A' && path.get_char(start + 1) == 'u'
        && path.get_char(start + 2) == 't' && path.get_char(start + 3) == 'h'
        && path.get_char(start + 4) == 'K' && path.get_char(start + 5) == 'e'
        && path.get_char(start + 6) == 'y' && path.get_char(start + 7) == '_';
    if !prefix_ok {
        proof {
            let p = name.subrange(0, 8);
            if p == "AuthKey_"@ {
                assert forall|j: int| 0 <= j < 8 implies path@[start + j] == "AuthKey_"@[j] by {
                    assert(p[j] == "AuthKey_"@[j]);
                }
                assert("AuthKey_"@[0] == 'A' && "AuthKey_"@[1] == 'u' && "AuthKey_"@[2] == 't'
                    && "AuthKey_"@[3] == 'h' && "AuthKey_"@[4] == 'K' && "AuthKey_"@[5] == 'e'
                    && "AuthKey_"@[6] == 'y' && "AuthKey_"@[7] == '_');
                assert(path@[start + 0] == 'A');
                assert(path@[start + 1] == 'u');
                assert(path@[start + 2] == 't');
                assert(path@[start + 3] == 'h');
                assert(path@[start + 4] == 'K');
                assert(path@[start + 5] == 'e');
                assert(path@[start + 6] == 'y');
                assert(path@[start + 7] == '_');
                assert(false);
            }
        }
        return None;
    }
    let suffix_ok = path.get_char(n - 3) == '.' && path.get_char(n - 2) == 'p' && path.get_char(
        n - 1,
    ) == '8';
    if !suffix_ok {
        proof {
            let p = name.subrange(name.len() - 3, name.len() as int);
            if p == ".p8"@ {
                assert forall|j: int| 0 <= j < 3 implies path@[n - 3 + j] == ".p8"@[j] by {
                    assert(p[j] == ".p8"@[j]);
                }
                assert(".p8"@[0] == '.' && ".p8"@[1] == 'p' && ".p8"@[2] == '8');
                assert(path@[n - 3 + 0] == '.');
                assert(path@[n - 3 + 1] == 'p');
                assert(path@[n - 3 + 2] == '8');
                assert(false);
            }
        }
        return None;
    }
    proof {
        assert(name.subrange(0, 8) =~= "AuthKey_"@);
        assert(name.subrange(name.len() - 3, name.len() as int) =~= ".p8"@);
    }
    let ghost id = name.subrange(8, name.len() - 3);
    let mut k: usize = start + 8;
    while k < n - 3
        invariant
            n == path@.len(),
            start + 12 <= n,
            start + 8 <= k <= n - 3,
            name == spec_after_last_slash(path@),
            name =~= path@.subrange(start as int, n as int),
            id == name.subrange(8, name.len() - 3),
            forall|j: int| start + 8 <= j < k ==> path@[j] != '_' && path@[j] != '.',
        decreases n - k,
    {
        let c = path.get_char(k);
        if c == '_' || c == '.' {
            proof {
                assert(id[k - start - 8] == path@[k as int]);
            }
            return None;
        }
        k += 1;
    }
    let id_str = path.substring_char(start + 8, n - 3);
    proof {
        assert forall|j: int| 0 <= j < id.len() implies id[j] != '_' && id[j] != '.' by {
            assert(id[j] == path@[start + 8 + j]);
        }
        assert(id_str@ =~= id);
    }
    Some(String::from_str(id_str))
}

// ---------------------------------------------------------------------------
// iOS-style provider
// ---------------------------------------------------------------------------

/// The iOS-side store: configuration, and the owned credential cache of
/// its provider.  The credential is replaced wholesale on refresh, never
/// mutated in place.
#[derive(Debug)]
pub struct AppStore {
    pub key_path: String,
    pub issuer_id: String,
    pub app_id: String,
    pub token: Option<String>,
    pub token_expiration: Option<u64>,
}

/// The audience claim of the iOS-style platform.
pub open spec fn spec_app_store_audience() -> Seq<char> {
    "appstoreconnect-v1"@
}

/// The claims an iOS-side credential minted at `now` signs: the configured
/// issuer, a five-minute validity window, and the platform's audience.
pub open spec fn spec_app_store_claims(issuer: Seq<char>, now: u64) -> ClaimsView {
    ClaimsView {
        iss: issuer,
        iat: now,
        exp: (now + 300) as u64,
        aud: spec_app_store_audience(),
        scope: None,
    }
}

impl AppStore {
    /// Whether a cached credential is present and not yet expired at
    /// `now`; at the expiry instant itself the credential still counts.
    pub open spec fn spec_logged_in(self, now: u64) -> bool {
        &&& self.token is Some
        &&& self.token_expiration matches Some(e) && e >= now
    }

    /// Whether a cached credential is present and strictly in its window,
    /// so that handing it out keeps its expiry in the future.
    pub open spec fn spec_cache_fresh(self, now: u64) -> bool {
        &&& self.token is Some
        &&& self.token_expiration matches Some(e) && e > now
    }

    /// Takes the configuration, each part required.
    pub fn new(key_path: Option<String>, issuer_id: Option<String>, app_id: Option<String>) -> (r:
        Result<Self, String>)
        ensures
            match r {
                Ok(s) => {
                    &&& key_path matches Some(k) && s.key_path == k
                    &&& issuer_id matches Some(i) && s.issuer_id == i
                    &&& app_id matches Some(a) && s.app_id == a
                    &&& s.token is None
                    &&& s.token_expiration is None
                },
                Err(m) => {
                    &&& key_path is None || issuer_id is None || app_id is None
                    &&& key_path is None ==> m@ == "Key path is required"@
                    &&& key_path is Some && issuer_id is None ==> m@ == "Issuer ID is required"@
                    &&& key_path is Some && issuer_id is Some && app_id is None ==> m@
                        == "App ID is required"@
                },
            },
    {
        let key_path = match key_path {
            Some(k) => k,
            None => {
                return Err(String::from_str("Key path is required"));
            },
        };
        let issuer_id = match issuer_id {
            Some(i) => i,
            None => {
                return Err(String::from_str("Issuer ID is required"));
            },
        };
        let app_id = match app_id {
            Some(a) => a,
            None => {
                return Err(String::from_str("App ID is required"));
            },
        };
        Ok(AppStore { key_path, issuer_id, app_id, token: None, token_expiration: None })
    }

    /// Whether the cached credential is present and not expired at `now`.
    pub fn is_logged_in(&self, now: u64) -> (r: bool)
        ensures
            r == self.spec_logged_in(now),
    {
        match (&self.token, &self.token_expiration) {
            (Some(_), Some(e)) => *e >= now,
            _ => false,
        }
    }

    /// The cached credential token, if any.
    pub fn token(&self) -> (r: Option<String>)
        ensures
            r == self.token,
    {
        match &self.token {
            Some(t) => Some(t.clone()),
            None => None,
        }
    }

    /// Mints a fresh credential out of the key material and caches it:
    /// the key identifier is read out of the key path's file name, and the
    /// claims — issuer, a five-minute window from `now`, the platform's
    /// audience — are signed with the elliptic-curve key.  A key path that
    /// does not match `AuthKey_{ID}.p8` fails with `MalformedKeyPath`
    /// before any key material is touched; whether the material itself is
    /// usable is the signing library's decision.
    pub fn login(&mut self, key_pem: &str, now: u64) -> (r: Result<(), StoreError>)
        requires
            now + 300 <= u64::MAX,
        ensures
            final(self).key_path == old(self).key_path,
            final(self).issuer_id == old(self).issuer_id,
            final(self).app_id == old(self).app_id,
            match r {
                Ok(_) => {
                    &&& spec_key_id(old(self).key_path@) matches Some(kid)
                        && final(self).token matches Some(t) && spec_jwt_shape(
                        t@,
                        spec_es256_header(kid),
                        spec_claims_json(spec_app_store_claims(old(self).issuer_id@, now)),
                    )
                    &&& final(self).token_expiration == Some((now + 300) as u64)
                },
                Err(e) => {
                    &&& final(self).token == old(self).token
                    &&& final(self).token_expiration == old(self).token_expiration
                    &&& e == StoreError::MalformedKeyPath <==> spec_key_id(
                        old(self).key_path@,
                    ) is None
                    &&& e is MalformedKeyPath || e is SigningFailed
                },
            },
    {
        let kid = match parse_key_id(self.key_path.as_str()) {
            Some(k) => k,
            None => {
                return Err(StoreError::MalformedKeyPath);
            },
        };
        let claims = Claims {
            iss: self.issuer_id.clone(),
            iat: now,
            exp: now + 300,
            aud: String::from_str("appstoreconnect-v1"),
            scope: None,
        };
        match build_es256_jwt(&kid, &claims, key_pem) {
            Ok(tok) => {
                self.token = Some(tok);
                self.token_expiration = Some(now + 300);
                Ok(())
            },
            Err(e) => Err(e),
        }
    }

    /// Obtains a credential valid at `now`: the cached one while it is
    /// strictly within its window, else a freshly minted one.  A returned
    /// credential's expiry is strictly in the future at the moment of
    /// return.
    pub fn obtain(&mut self, key_pem: &str, now: u64) -> (r: Result<Credential, StoreError>)
        requires
            now + 300 <= u64::MAX,
        ensures
            final(self).key_path == old(self).key_path,
            final(self).issuer_id == old(self).issuer_id,
            final(self).app_id == old(self).app_id,
            match r {
                Ok(c) => {
                    &&& c.expires_at > now
                    &&& final(self).token == Some(c.token)
                    &&& final(self).token_expiration == Some(c.expires_at)
                },
                Err(e) => {
                    &&& final(self).token == old(self).token
                    &&& final(self).token_expiration == old(self).token_expiration
                    &&& e is MalformedKeyPath || e is SigningFailed
                },
            },
            old(self).spec_cache_fresh(now) ==> r is Ok,
            !old(self).spec_cache_fresh(now) ==> (r == Err::<Credential, StoreError>(
                StoreError::MalformedKeyPath,
            ) <==> spec_key_id(old(self).key_path@) is None),
    {
        match (&self.token, &self.token_expiration) {
            (Some(t), Some(e)) => {
                if *e > now {
                    return Ok(Credential { token: t.clone(), expires_at: *e });
                }
            },
            _ => {},
        }
        match self.login(key_pem, now) {
            Ok(_) => {},
            Err(e) => {
                return Err(e);
            },
        }
        match &self.token {
            Some(t) => Ok(Credential { token: t.clone(), expires_at: now + 300 }),
            None => {
                proof {
                    assert(false);
                }
                Err(StoreError::NotLoggedIn)
            },
        }
    }
}

// ---------------------------------------------------------------------------
// Android-style provider
// ---------------------------------------------------------------------------

/// The service-account descriptor read out of the Android key file.
#[derive(Debug, PartialEq, Eq)]
pub struct ServiceAccount {
    pub client_email: String,
    pub private_key: String,
}

/// The mathematical shape of a [`ServiceAccount`].
pub struct ServiceAccountView {
    pub client_email: Seq<char>,
    pub private_key: Seq<char>,
}

impl View for ServiceAccount {
    type V = ServiceAccountView;

    open spec fn view(&self) -> ServiceAccountView {
        ServiceAccountView { client_email: self.client_email@, private_key: self.private_key@ }
    }
}

/// The service account read from a JSON document: `client_email` and
/// `private_key` must be strings.
pub open spec fn spec_parse_service_account(j: JsonV) -> Option<ServiceAccountView> {
    match (spec_member(j, "client_email"@), spec_member(j, "private_key"@)) {
        (Some(JsonV::Str(e)), Some(JsonV::Str(k))) => Some(
            ServiceAccountView { client_email: e, private_key: k },
        ),
        _ => None,
    }
}

/// Reads the service account out of the key file's JSON document.
pub fn parse_service_account(j: &Json) -> (r: Option<ServiceAccount>)
    ensures
        match r {
            Some(sa) => spec_parse_service_account(j@) == Some(sa@),
            None => spec_parse_service_account(j@) is None,
        },
{
    let client_email = match member(j, &String::from_str("client_email")) {
        Some(v) => match as_str(v) {
            Some(s) => s.clone(),
            None => {
                return None;
            },
        },
        None => {
            return None;
        },
    };
    let private_key = match member(j, &String::from_str("private_key")) {
        Some(v) => match as_str(v) {
            Some(s) => s.clone(),
            None => {
                return None;
            },
        },
        None => {
            return None;
        },
    };
    Some(ServiceAccount { client_email, private_key })
}

/// The scope and audience claims of the Android-style platform.
pub open spec fn spec_play_scope() -> Seq<char> {
    "https://www.googleapis.com/auth/androidpublisher"@
}

/// The audience of the Android-style assertion: the token-exchange
/// endpoint.
pub open spec fn spec_play_audience() -> Seq<char> {
    "https://oauth2.googleapis.com/token"@
}

/// The claims an Android-side assertion minted at `now` signs: the
/// service-account email as issuer, a one-hour validity window, the
/// publishing scope, and the token endpoint as audience.
pub open spec fn spec_play_claims(email: Seq<char>, now: u64) -> ClaimsView {
    ClaimsView {
        iss: email,
        iat: now,
        exp: (now + 3600) as u64,
        aud: spec_play_audience(),
        scope: Some(spec_play_scope()),
    }
}

/// The Android-side store: configuration, and the owned bearer-token
/// cache of its provider.  No local expiry is tracked for the bearer; the
/// vendor signals staleness through its error responses.
#[derive(Debug)]
pub struct GooglePlay {
    pub key_path: String,
    pub track: String,
    pub token: Option<String>,
    pub package_name: String,
}

impl GooglePlay {
    /// Takes the configuration, each part required.
    pub fn new(key_path: Option<String>, package_name: Option<String>, track: Option<String>) -> (r:
        Result<Self, String>)
        ensures
            match r {
                Ok(s) => {
                    &&& key_path matches Some(k) && s.key_path == k
                    &&& package_name matches Some(p) && s.package_name == p
                    &&& track matches Some(t) && s.track == t
                    &&& s.token is None
                },
                Err(m) => {
                    &&& key_path is None || package_name is None || track is None
                    &&& key_path is None ==> m@ == "Key path is required"@
                    &&& key_path is Some && package_name is None ==> m@
                        == "Package name is required"@
                    &&& key_path is Some && package_name is Some && track is None ==> m@
                        == "Track is required"@
                },
            },
    {
        let key_path = match key_path {
            Some(k) => k,
            None => {
                return Err(String::from_str("Key path is required"));
            },
        };
        let package_name = match package_name {
            Some(p) => p,
            None => {
                return Err(String::from_str("Package name is required"));
            },
        };
        let track = match track {
            Some(t) => t,
            None => {
                return Err(String::from_str("Track is required"));
            },
        };
        Ok(GooglePlay { key_path, token: None, package_name, track })
    }

    /// Whether a bearer token is cached.
    pub fn is_logged_in(&self) -> (r: bool)
        ensures
            r == (self.token is Some),
    {
        match &self.token {
            Some(_) => true,
            None => false,
        }
    }

    /// The cached bearer token, if any.
    pub fn token(&self) -> (r: Option<String>)
        ensures
            r == self.token,
    {
        match &self.token {
            Some(t) => Some(t.clone()),
            None => None,
        }
    }

    /// Mints the signed assertion that the token endpoint exchanges for a
    /// bearer: reads the service account out of the key file's JSON
    /// document — failing with `MalformedKeyFile` when it does not hold
    /// the two string fields — and signs the claims with the account's
    /// RSA key.  The assertion's expiry claim lies one hour after `now`,
    /// strictly in the future.
    pub fn get_private_token(&self, key_doc: &Json, now: u64) -> (r: Result<String, StoreError>)
        requires
            now + 3600 <= u64::MAX,
        ensures
            match r {
                Ok(tok) => spec_parse_service_account(key_doc@) matches Some(sa) && spec_jwt_shape(
                    tok@,
                    spec_rs256_header(),
                    spec_claims_json(spec_play_claims(sa.client_email, now)),
                ),
                Err(e) => {
                    &&& e is MalformedKeyFile <==> spec_parse_service_account(key_doc@) is None
                    &&& e is MalformedKeyFile || e is SigningFailed
                },
            },
    {
        let account = match parse_service_account(key_doc) {
            Some(sa) => sa,
            None => {
                return Err(
                    StoreError::MalformedKeyFile(
                        String::from_str("expected client_email and private_key string fields"),
                    ),
                );
            },
        };
        let claims = Claims {
            iss: account.client_email,
            iat: now,
            exp: now + 3600,
            aud: String::from_str("https://oauth2.googleapis.com/token"),
            scope: Some(String::from_str("https://www.googleapis.com/auth/androidpublisher")),
        };
        build_rs256_jwt(&claims, account.private_key.as_str())
    }

    /// Caches the bearer token the exchange produced.
    pub fn login(&mut self, signed_token: String) -> (r: Result<(), StoreError>)
        ensures
            final(self).key_path == old(self).key_path,
            final(self).track == old(self).track,
            final(self).package_name == old(self).package_name,
            final(self).token == Some(signed_token),
            r is Ok,
    {
        self.token = Some(signed_token);
        Ok(())
    }
}

} // verus!
