use vstd::prelude::*;

use crate::json::{
    json_obj_view, json_seq_view, json_view, lemma_json_obj_view, lemma_json_seq_view, lookup,
    member, as_str, spec_lookup, spec_member, Json, JsonV,
};
use crate::model::{Release, ReleaseNote, ReleaseNoteView, ReleaseStatus, ReleaseView, Track, TrackView};

verus! {

// ---------------------------------------------------------------------------
// Release status <-> wire string
// ---------------------------------------------------------------------------

/// The wire spelling of a release status.
pub open spec fn spec_status_str(s: ReleaseStatus) -> Seq<char> {
    match s {
        ReleaseStatus::Unspecified => "statusUnspecified"@,
        ReleaseStatus::Draft => "draft"@,
        ReleaseStatus::InProgress => "inProgress"@,
        ReleaseStatus::Halted => "halted"@,
        ReleaseStatus::Completed => "completed"@,
    }
}

/// The release status spelled by a wire string, if any.
pub open spec fn spec_status_of(s: Seq<char>) -> Option<ReleaseStatus> {
    if s == "statusUnspecified"@ {
        Some(ReleaseStatus::Unspecified)
    } else if s == "draft"@ {
        Some(ReleaseStatus::Draft)
    } else if s == "inProgress"@ {
        Some(ReleaseStatus::InProgress)
    } else if s == "halted"@ {
        Some(ReleaseStatus::Halted)
    } else if s == "completed"@ {
        Some(ReleaseStatus::Completed)
    } else {
        None
    }
}

/// Decoding a status's wire spelling yields the status back.
pub proof fn lemma_status_round_trip(s: ReleaseStatus)
    ensures
        spec_status_of(spec_status_str(s)) == Some(s),
{
    reveal_strlit("statusUnspecified");
    reveal_strlit("draft");
    reveal_strlit("inProgress");
    reveal_strlit("halted");
    reveal_strlit("completed");
    assert("statusUnspecified"@.len() == 17);
    assert("draft"@.len() == 5);
    assert("inProgress"@.len() == 10);
    assert("halted"@.len() == 6);
    assert("completed"@.len() == 9);
}

/// The wire spelling of a release status.
pub fn status_str(s: ReleaseStatus) -> (r: String)
    ensures
        r@ == spec_status_str(s),
{
    match s {
        ReleaseStatus::Unspecified => String::from_str("statusUnspecified"),
        ReleaseStatus::Draft => String::from_str("draft"),
        ReleaseStatus::InProgress => String::from_str("inProgress"),
        ReleaseStatus::Halted => String::from_str("halted"),
        ReleaseStatus::Completed => String::from_str("completed"),
    }
}

/// The release status spelled by a wire string, if any.
pub fn status_of(s: &String) -> (r: Option<ReleaseStatus>)
    ensures
        r == spec_status_of(s@),
{
    if s.eq(&String::from_str("statusUnspecified")) {
        Some(ReleaseStatus::Unspecified)
    } else if s.eq(&String::from_str("draft")) {
        Some(ReleaseStatus::Draft)
    } else if s.eq(&String::from_str("inProgress")) {
        Some(ReleaseStatus::InProgress)
    } else if s.eq(&String::from_str("halted")) {
        Some(ReleaseStatus::Halted)
    } else if s.eq(&String::from_str("completed")) {
        Some(ReleaseStatus::Completed)
    } else {
        None
    }
}

// ---------------------------------------------------------------------------
// Release note <-> JSON object
// ---------------------------------------------------------------------------

/// The wire shape of one release note: `{"language": ..., "text": ...}`.
pub open spec fn spec_encode_note(n: ReleaseNoteView) -> JsonV {
    JsonV::Obj(seq![("language"@, JsonV::Str(n.language)), ("text"@, JsonV::Str(n.text))])
}

/// The release note read from a JSON value: an object whose `language` and
/// `text` members are strings.
pub open spec fn spec_parse_note(j: JsonV) -> Option<ReleaseNoteView> {
    match (spec_member(j, "language"@), spec_member(j, "text"@)) {
        (Some(JsonV::Str(l)), Some(JsonV::Str(t))) => Some(
            ReleaseNoteView { language: l, text: t },
        ),
        _ => None,
    }
}

/// Decoding an encoded release note yields the note back.
pub proof fn lemma_note_round_trip(n: ReleaseNoteView)
    ensures
        spec_parse_note(spec_encode_note(n)) == Some(n),
{
    reveal_strlit("language");
    reveal_strlit("text");
    let entries = spec_encode_note(n)->Obj_0;
    assert("language"@.len() == 8);
    assert("text"@.len() == 4);
    assert(entries.drop_first() =~= seq![("text"@, JsonV::Str(n.text))]);
    assert(entries.len() == 2);
    assert(entries[0] == ("language"@, JsonV::Str(n.language)));
    assert(spec_member(spec_encode_note(n), "language"@) == Some(JsonV::Str(n.language)));
    assert(entries[0].0 != "text"@);
    assert(spec_lookup(entries.drop_first(), "text"@) == Some(JsonV::Str(n.text)));
    assert(spec_member(spec_encode_note(n), "text"@) == Some(JsonV::Str(n.text)));
    assert(ReleaseNoteView { language: n.language, text: n.text } =~= n);
}

/// Encodes one release note into its wire shape.
pub fn encode_note(n: &ReleaseNote) -> (j: Json)
    ensures
        j@ == spec_encode_note(n@),
{
    let mut entries: Vec<(String, Json)> = Vec::new();
    entries.push((String::from_str("language"), Json::Str(n.language.clone())));
    entries.push((String::from_str("text"), Json::Str(n.text.clone())));
    let j = Json::Obj(entries);
    proof {
        lemma_json_obj_view(j->Obj_0@);
        let view = j@->Obj_0;
        let want = spec_encode_note(n@)->Obj_0;
        assert(view.len() == 2);
        assert(view[0] == (entries@[0].0@, json_view(entries@[0].1)));
        assert(view[1] == (entries@[1].0@, json_view(entries@[1].1)));
        assert(view[0] == want[0]);
        assert(view[1] == want[1]);
        assert(view =~= want);
    }
    j
}

/// Reads one release note out of a JSON value.
pub fn parse_note(j: &Json) -> (r: Option<ReleaseNote>)
    ensures
        match r {
            Some(n) => spec_parse_note(j@) == Some(n@),
            None => spec_parse_note(j@) is None,
        },
{
    let language = match member(j, &String::from_str("language")) {
        Some(v) => match as_str(v) {
            Some(s) => s.clone(),
            None => {
                return None;
            },
        },
        None => {
            return None;
        },
    };
    let text = match member(j, &String::from_str("text")) {
        Some(v) => match as_str(v) {
            Some(s) => s.clone(),
            None => {
                return None;
            },
        },
        None => {
            return None;
        },
    };
    Some(ReleaseNote { language, text })
}

// ---------------------------------------------------------------------------
// String arrays and note arrays <-> JSON arrays
// ---------------------------------------------------------------------------

/// The wire shape of a list of version-code strings.
pub open spec fn spec_encode_strs(c: Seq<Seq<char>>) -> Seq<JsonV> {
    Seq::new(c.len(), |i: int| JsonV::Str(c[i]))
}

/// The version-code strings read from the items of a JSON array: every item
/// must be a string.
pub open spec fn spec_parse_strs(s: Seq<JsonV>) -> Option<Seq<Seq<char>>> {
    if forall|i: int| 0 <= i < s.len() ==> (#[trigger] s[i]) is Str {
        Some(Seq::new(s.len(), |i: int| s[i]->Str_0))
    } else {
        None
    }
}

/// Decoding an encoded list of strings yields the list back.
pub proof fn lemma_strs_round_trip(c: Seq<Seq<char>>)
    ensures
        spec_parse_strs(spec_encode_strs(c)) == Some(c),
{
    let e = spec_encode_strs(c);
    assert(forall|i: int| 0 <= i < e.len() ==> (#[trigger] e[i]) is Str);
    assert(spec_parse_strs(e)->0 =~= c);
}

/// The wire shape of a list of release notes.
pub open spec fn spec_encode_notes(n: Seq<ReleaseNoteView>) -> Seq<JsonV> {
    Seq::new(n.len(), |i: int| spec_encode_note(n[i]))
}

/// The release notes read from the items of a JSON array: every item must
/// parse as a note.
pub open spec fn spec_parse_notes(s: Seq<JsonV>) -> Option<Seq<ReleaseNoteView>> {
    if forall|i: int| 0 <= i < s.len() ==> (#[trigger] spec_parse_note(s[i])) is Some {
        Some(Seq::new(s.len(), |i: int| spec_parse_note(s[i])->0))
    } else {
        None
    }
}

/// Decoding an encoded list of release notes yields the list back.
pub proof fn lemma_notes_round_trip(n: Seq<ReleaseNoteView>)
    ensures
        spec_parse_notes(spec_encode_notes(n)) == Some(n),
{
    let e = spec_encode_notes(n);
    assert forall|i: int| 0 <= i < e.len() implies (#[trigger] spec_parse_note(e[i])) is Some by {
        lemma_note_round_trip(n[i]);
    }
    assert forall|i: int| 0 <= i < e.len() implies spec_parse_note(e[i])->0 == n[i] by {
        lemma_note_round_trip(n[i]);
    }
    assert(spec_parse_notes(e)->0 =~= n);
}

/// Encodes a list of version-code strings.
pub fn encode_strings(v: &Vec<String>) -> (r: Vec<Json>)
    ensures
        json_seq_view(r@) == spec_encode_strs(v.deep_view()),
{
    let mut r: Vec<Json> = Vec::new();
    let mut i: usize = 0;
    while i < v.len()
        invariant
            i <= v.len(),
            r@.len() == i,
            forall|k: int| 0 <= k < i ==> #[trigger] r@[k] == Json::Str(v@[k]),
        decreases v.len() - i,
    {
        r.push(Json::Str(v[i].clone()));
        i += 1;
    }
    proof {
        lemma_json_seq_view(r@);
        assert forall|k: int|
            0 <= k < r@.len() implies json_seq_view(r@)[k]
            == spec_encode_strs(v.deep_view())[k] by {
            assert(json_seq_view(r@)[k] == json_view(r@[k]));
            assert(r@[k] == Json::Str(v@[k]));
        }
        assert(json_seq_view(r@) =~= spec_encode_strs(v.deep_view()));
    }
    r
}

/// Encodes a list of release notes.
pub fn encode_notes(v: &Vec<ReleaseNote>) -> (r: Vec<Json>)
    ensures
        json_seq_view(r@) == spec_encode_notes(v.deep_view()),
{
    let mut r: Vec<Json> = Vec::new();
    let mut i: usize = 0;
    while i < v.len()
        invariant
            i <= v.len(),
            r@.len() == i,
            forall|k: int|
                0 <= k < i ==> json_view(#[trigger] r@[k]) == spec_encode_note(v@[k]@),
        decreases v.len() - i,
    {
        let j = encode_note(&v[i]);
        r.push(j);
        i += 1;
    }
    proof {
        lemma_json_seq_view(r@);
        assert forall|k: int|
            0 <= k < r@.len() implies json_seq_view(r@)[k]
            == spec_encode_notes(v.deep_view())[k] by {
            assert(json_seq_view(r@)[k] == json_view(r@[k]));
            assert(json_view(r@[k]) == spec_encode_note(v@[k]@));
        }
        assert(json_seq_view(r@) =~= spec_encode_notes(v.deep_view()));
    }
    r
}

/// Reads a list of version-code strings out of the items of a JSON array.
pub fn parse_strings(a: &Vec<Json>) -> (r: Option<Vec<String>>)
    ensures
        match r {
            Some(v) => spec_parse_strs(json_seq_view(a@)) == Some(v.deep_view()),
            None => spec_parse_strs(json_seq_view(a@)) is None,
        },
{
    let ghost s = json_seq_view(a@);
    proof {
        lemma_json_seq_view(a@);
    }
    let mut out: Vec<String> = Vec::new();
    let mut i: usize = 0;
    while i < a.len()
        invariant
            i <= a.len(),
            s == json_seq_view(a@),
            s.len() == a@.len(),
            forall|k: int| 0 <= k < a@.len() ==> s[k] == json_view(#[trigger] a@[k]),
            out@.len() == i,
            forall|k: int| 0 <= k < i ==> (#[trigger] s[k]) is Str && out@[k]@ == s[k]->Str_0,
        decreases a.len() - i,
    {
        match &a[i] {
            Json::Str(x) => {
                out.push(x.clone());
            },
            _ => {
                proof {
                    assert(!(s[i as int] is Str));
                }
                return None;
            },
        }
        i += 1;
    }
    proof {
        assert(out.deep_view() =~= Seq::new(s.len(), |k: int| s[k]->Str_0));
    }
    Some(out)
}

/// Reads a list of release notes out of the items of a JSON array.
pub fn parse_notes(a: &Vec<Json>) -> (r: Option<Vec<ReleaseNote>>)
    ensures
        match r {
            Some(v) => spec_parse_notes(json_seq_view(a@)) == Some(v.deep_view()),
            None => spec_parse_notes(json_seq_view(a@)) is None,
        },
{
    let ghost s = json_seq_view(a@);
    proof {
        lemma_json_seq_view(a@);
    }
    let mut out: Vec<ReleaseNote> = Vec::new();
    let mut i: usize = 0;
    while i < a.len()
        invariant
            i <= a.len(),
            s == json_seq_view(a@),
            s.len() == a@.len(),
            forall|k: int| 0 <= k < a@.len() ==> s[k] == json_view(#[trigger] a@[k]),
            out@.len() == i,
            forall|k: int|
                0 <= k < i ==> (#[trigger] spec_parse_note(s[k])) is Some && out@[k]@
                    == spec_parse_note(s[k])->0,
        decreases a.len() - i,
    {
        match parse_note(&a[i]) {
            Some(n) => {
                out.push(n);
            },
            None => {
                proof {
                    assert(spec_parse_note(s[i as int]) is None);
                }
                return None;
            },
        }
        i += 1;
    }
    proof {
        assert(out.deep_view() =~= Seq::new(s.len(), |k: int| spec_parse_note(s[k])->0));
    }
    Some(out)
}

// ---------------------------------------------------------------------------
// Lookup helper lemmas
// ---------------------------------------------------------------------------

/// A lookup lands on position `i` when the key first occurs there.
pub proof fn lemma_lookup_at(entries: Seq<(Seq<char>, JsonV)>, key: Seq<char>, i: int)
    requires
        0 <= i < entries.len(),
        entries[i].0 == key,
        forall|k: int| 0 <= k < i ==> (#[trigger] entries[k]).0 != key,
    ensures
        spec_lookup(entries, key) == Some(entries[i].1),
    decreases i,
{
    if i == 0 {
    } else {
        assert(entries[0].0 != key);
        lemma_lookup_at(entries.drop_first(), key, i - 1);
        assert(entries.drop_first()[i - 1] == entries[i]);
        assert forall|k: int| 0 <= k < i - 1 implies (#[trigger] entries.drop_first()[k]).0
            != key by {
            assert(entries.drop_first()[k] == entries[k + 1]);
        }
    }
}

/// A lookup misses when the key occurs nowhere.
pub proof fn lemma_lookup_absent(entries: Seq<(Seq<char>, JsonV)>, key: Seq<char>)
    requires
        forall|k: int| 0 <= k < entries.len() ==> (#[trigger] entries[k]).0 != key,
    ensures
        spec_lookup(entries, key) is None,
    decreases entries.len(),
{
    if entries.len() > 0 {
        lemma_lookup_absent(entries.drop_first(), key);
    }
}

// ---------------------------------------------------------------------------
// Release <-> JSON object
// ---------------------------------------------------------------------------

/// The members of a release's wire shape, in the order they are sent:
/// `versionCodes` and `releaseNotes` only when present, then `status` and
/// `name`.
pub open spec fn spec_release_entries(r: ReleaseView) -> Seq<(Seq<char>, JsonV)> {
    (match r.version_codes {
        Some(c) => seq![("versionCodes"@, JsonV::Arr(spec_encode_strs(c)))],
        None => Seq::<(Seq<char>, JsonV)>::empty(),
    }) + (match r.release_notes {
        Some(n) => seq![("releaseNotes"@, JsonV::Arr(spec_encode_notes(n)))],
        None => Seq::<(Seq<char>, JsonV)>::empty(),
    }) + seq![
        ("status"@, JsonV::Str(spec_status_str(r.status))),
        ("name"@, JsonV::Str(r.name)),
    ]
}

/// The wire shape of one release.
pub open spec fn spec_encode_release(r: ReleaseView) -> JsonV {
    JsonV::Obj(spec_release_entries(r))
}

/// The release read from a JSON value.  `status` and `name` must be strings
/// and the status must carry a known spelling; `versionCodes` and
/// `releaseNotes`, when present and not null, must be arrays of the right
/// item shape.  An absent or null optional member reads as absent.
pub open spec fn spec_parse_release(j: JsonV) -> Option<ReleaseView> {
    match (spec_member(j, "status"@), spec_member(j, "name"@)) {
        (Some(JsonV::Str(s)), Some(JsonV::Str(name))) => match spec_status_of(s) {
            Some(status) => {
                let codes = match spec_member(j, "versionCodes"@) {
                    None => Some(None),
                    Some(JsonV::Null) => Some(None),
                    Some(JsonV::Arr(a)) => match spec_parse_strs(a) {
                        Some(c) => Some(Some(c)),
                        None => None,
                    },
                    Some(_) => None,
                };
                let notes = match spec_member(j, "releaseNotes"@) {
                    None => Some(None),
                    Some(JsonV::Null) => Some(None),
                    Some(JsonV::Arr(a)) => match spec_parse_notes(a) {
                        Some(n) => Some(Some(n)),
                        None => None,
                    },
                    Some(_) => None,
                };
                match (codes, notes) {
                    (Some(version_codes), Some(release_notes)) => Some(
                        ReleaseView { version_codes, release_notes, status, name },
                    ),
                    _ => None,
                }
            },
            None => None,
        },
        _ => None,
    }
}

/// Encodes one release into its wire shape.
pub fn encode_release(r: &Release) -> (j: Json)
    ensures
        j@ == spec_encode_release(r@),
{
    let mut entries: Vec<(String, Json)> = Vec::new();
    match &r.version_codes {
        Some(c) => {
            entries.push((String::from_str("versionCodes"), Json::Arr(encode_strings(c))));
        },
        None => {},
    }
    match &r.release_notes {
        Some(n) => {
            entries.push((String::from_str("releaseNotes"), Json::Arr(encode_notes(n))));
        },
        None => {},
    }
    entries.push((String::from_str("status"), Json::Str(status_str(r.status))));
    entries.push((String::from_str("name"), Json::Str(r.name.clone())));
    let j = Json::Obj(entries);
    proof {
        lemma_json_obj_view(entries@);
        let view = j@->Obj_0;
        let want = spec_release_entries(r@);
        assert(view.len() == want.len());
        assert forall|k: int| 0 <= k < view.len() implies view[k] == want[k] by {
            assert(view[k] == ((#[trigger] entries@[k]).0@, json_view(entries@[k].1)));
        }
        assert(view =~= want);
    }
    j
}

/// Reads one release out of a JSON value.
pub fn parse_release(j: &Json) -> (r: Option<Release>)
    ensures
        match r {
            Some(rel) => spec_parse_release(j@) == Some(rel@),
            None => spec_parse_release(j@) is None,
        },
{
    let status = match member(j, &String::from_str("status")) {
        Some(v) => match as_str(v) {
            Some(s) => match status_of(s) {
                Some(st) => st,
                None => {
                    return None;
                },
            },
            None => {
                return None;
            },
        },
        None => {
            return None;
        },
    };
    let name = match member(j, &String::from_str("name")) {
        Some(v) => match as_str(v) {
            Some(s) => s.clone(),
            None => {
                return None;
            },
        },
        None => {
            return None;
        },
    };
    let version_codes: Option<Vec<String>> = match member(j, &String::from_str("versionCodes")) {
        None => None,
        Some(v) => match v {
            Json::Null => None,
            Json::Arr(a) => match parse_strings(a) {
                Some(c) => Some(c),
                None => {
                    return None;
                },
            },
            _ => {
                return None;
            },
        },
    };
    let release_notes: Option<Vec<ReleaseNote>> = match member(j, &String::from_str("releaseNotes")) {
        None => None,
        Some(v) => match v {
            Json::Null => None,
            Json::Arr(a) => match parse_notes(a) {
                Some(n) => Some(n),
                None => {
                    return None;
                },
            },
            _ => {
                return None;
            },
        },
    };
    let rel = Release { version_codes, release_notes, status, name };
    proof {
        assert(rel@ =~= spec_parse_release(j@)->0);
    }
    Some(rel)
}

/// Decoding an encoded release yields the release back, optional fields
/// included, whether populated or omitted.
pub proof fn lemma_release_round_trip(r: ReleaseView)
    ensures
        spec_parse_release(spec_encode_release(r)) == Some(r),
{
    reveal_strlit("versionCodes");
    reveal_strlit("releaseNotes");
    reveal_strlit("status");
    reveal_strlit("name");
    assert("versionCodes"@.len() == 12);
    assert("releaseNotes"@.len() == 12);
    assert("versionCodes"@[0] == 'v');
    assert("releaseNotes"@[0] == 'r');
    assert("status"@.len() == 6);
    assert("name"@.len() == 4);
    let entries = spec_release_entries(r);
    let nc = if r.version_codes is Some {
        1int
    } else {
        0int
    };
    let nn = if r.release_notes is Some {
        1int
    } else {
        0int
    };
    assert(entries.len() == nc + nn + 2);
    if r.version_codes is Some {
        assert(entries[0] == ("versionCodes"@, JsonV::Arr(spec_encode_strs(r.version_codes->0))));
        lemma_strs_round_trip(r.version_codes->0);
    }
    if r.release_notes is Some {
        assert(entries[nc] == ("releaseNotes"@, JsonV::Arr(spec_encode_notes(r.release_notes->0))));
        lemma_notes_round_trip(r.release_notes->0);
    }
    assert(entries[nc + nn] == ("status"@, JsonV::Str(spec_status_str(r.status))));
    assert(entries[nc + nn + 1] == ("name"@, JsonV::Str(r.name)));
    lemma_status_round_trip(r.status);
    lemma_lookup_at(entries, "status"@, nc + nn);
    lemma_lookup_at(entries, "name"@, nc + nn + 1);
    if r.version_codes is Some {
        lemma_lookup_at(entries, "versionCodes"@, 0);
    } else {
        lemma_lookup_absent(entries, "versionCodes"@);
    }
    if r.release_notes is Some {
        lemma_lookup_at(entries, "releaseNotes"@, nc);
    } else {
        lemma_lookup_absent(entries, "releaseNotes"@);
    }
    assert(spec_parse_release(spec_encode_release(r))->0 =~= r);
}

// ---------------------------------------------------------------------------
// Track <-> JSON object
// ---------------------------------------------------------------------------

/// The wire shape of a list of releases.
pub open spec fn spec_encode_release_seq(rs: Seq<ReleaseView>) -> Seq<JsonV> {
    Seq::new(rs.len(), |i: int| spec_encode_release(rs[i]))
}

/// The releases read from the items of a JSON array: every item must parse
/// as a release.
pub open spec fn spec_parse_release_seq(s: Seq<JsonV>) -> Option<Seq<ReleaseView>> {
    if forall|i: int| 0 <= i < s.len() ==> (#[trigger] spec_parse_release(s[i])) is Some {
        Some(Seq::new(s.len(), |i: int| spec_parse_release(s[i])->0))
    } else {
        None
    }
}

/// The wire shape of a track: `{"track": ..., "releases": [...]}`.
pub open spec fn spec_encode_track(t: TrackView) -> JsonV {
    JsonV::Obj(
        seq![
            ("track"@, JsonV::Str(t.track)),
            ("releases"@, JsonV::Arr(spec_encode_release_seq(t.releases))),
        ],
    )
}

/// The track read from a JSON value: an object whose `track` member is a
/// string and whose `releases` member is an array of releases.
pub open spec fn spec_parse_track(j: JsonV) -> Option<TrackView> {
    match (spec_member(j, "track"@), spec_member(j, "releases"@)) {
        (Some(JsonV::Str(t)), Some(JsonV::Arr(rs))) => match spec_parse_release_seq(rs) {
            Some(releases) => Some(TrackView { track: t, releases }),
            None => None,
        },
        _ => None,
    }
}

/// Encodes a track into its wire shape.
pub fn encode_track(t: &Track) -> (j: Json)
    ensures
        j@ == spec_encode_track(t@),
{
    let mut items: Vec<Json> = Vec::new();
    let mut i: usize = 0;
    while i < t.releases.len()
        invariant
            i <= t.releases.len(),
            items@.len() == i,
            forall|k: int|
                0 <= k < i ==> json_view(#[trigger] items@[k]) == spec_encode_release(
                    t.releases@[k]@,
                ),
        decreases t.releases.len() - i,
    {
        let j = encode_release(&t.releases[i]);
        items.push(j);
        i += 1;
    }
    let mut entries: Vec<(String, Json)> = Vec::new();
    entries.push((String::from_str("track"), Json::Str(t.track.clone())));
    entries.push((String::from_str("releases"), Json::Arr(items)));
    let j = Json::Obj(entries);
    proof {
        lemma_json_obj_view(entries@);
        lemma_json_seq_view(entries@[1].1->Arr_0@);
        let view = j@->Obj_0;
        let want = spec_encode_track(t@)->Obj_0;
        assert(view[0] == ((#[trigger] entries@[0]).0@, json_view(entries@[0].1)));
        assert(view[1] == ((#[trigger] entries@[1]).0@, json_view(entries@[1].1)));
        assert(view[0] == want[0]);
        let enc = json_seq_view(entries@[1].1->Arr_0@);
        assert forall|k: int|
            0 <= k < enc.len() implies enc[k] == spec_encode_release_seq(t@.releases)[k] by {
            assert(enc[k] == json_view(entries@[1].1->Arr_0@[k]));
        }
        assert(enc =~= spec_encode_release_seq(t@.releases));
        assert(view[1] == want[1]);
        assert(view =~= want);
    }
    j
}

/// Reads a list of releases out of the items of a JSON array.
pub fn parse_release_seq(a: &Vec<Json>) -> (r: Option<Vec<Release>>)
    ensures
        match r {
            Some(v) => spec_parse_release_seq(json_seq_view(a@)) == Some(v.deep_view()),
            None => spec_parse_release_seq(json_seq_view(a@)) is None,
        },
{
    let ghost s = json_seq_view(a@);
    proof {
        lemma_json_seq_view(a@);
    }
    let mut out: Vec<Release> = Vec::new();
    let mut i: usize = 0;
    while i < a.len()
        invariant
            i <= a.len(),
            s == json_seq_view(a@),
            s.len() == a@.len(),
            forall|k: int| 0 <= k < a@.len() ==> s[k] == json_view(#[trigger] a@[k]),
            out@.len() == i,
            forall|k: int|
                0 <= k < i ==> (#[trigger] spec_parse_release(s[k])) is Some && out@[k]@
                    == spec_parse_release(s[k])->0,
        decreases a.len() - i,
    {
        match parse_release(&a[i]) {
            Some(rel) => {
                out.push(rel);
            },
            None => {
                proof {
                    assert(spec_parse_release(s[i as int]) is None);
                }
                return None;
            },
        }
        i += 1;
    }
    proof {
        assert(out.deep_view() =~= Seq::new(s.len(), |k: int| spec_parse_release(s[k])->0));
    }
    Some(out)
}

/// Reads a track out of a JSON value.
pub fn parse_track(j: &Json) -> (r: Option<Track>)
    ensures
        match r {
            Some(t) => spec_parse_track(j@) == Some(t@),
            None => spec_parse_track(j@) is None,
        },
{
    let track = match member(j, &String::from_str("track")) {
        Some(v) => match as_str(v) {
            Some(s) => s.clone(),
            None => {
                return None;
            },
        },
        None => {
            return None;
        },
    };
    let releases = match member(j, &String::from_str("releases")) {
        Some(v) => match v {
            Json::Arr(a) => match parse_release_seq(a) {
                Some(rs) => rs,
                None => {
                    return None;
                },
            },
            _ => {
                return None;
            },
        },
        None => {
            return None;
        },
    };
    let t = Track { track, releases };
    proof {
        assert(t@ =~= spec_parse_track(j@)->0);
    }
    Some(t)
}

/// Decoding an encoded track yields the track back, field for field, for
/// populated and for all-optional-omitted releases alike.
pub proof fn lemma_track_round_trip(t: TrackView)
    ensures
        spec_parse_track(spec_encode_track(t)) == Some(t),
{
    reveal_strlit("track");
    reveal_strlit("releases");
    assert("track"@.len() == 5);
    assert("releases"@.len() == 8);
    let entries = spec_encode_track(t)->Obj_0;
    assert(entries[0] == ("track"@, JsonV::Str(t.track)));
    assert(entries[1] == ("releases"@, JsonV::Arr(spec_encode_release_seq(t.releases))));
    lemma_lookup_at(entries, "track"@, 0);
    lemma_lookup_at(entries, "releases"@, 1);
    let enc = spec_encode_release_seq(t.releases);
    assert forall|i: int|
        0 <= i < enc.len() implies (#[trigger] spec_parse_release(enc[i])) is Some by {
        lemma_release_round_trip(t.releases[i]);
    }
    assert forall|i: int|
        0 <= i < enc.len() implies spec_parse_release(enc[i])->0 == t.releases[i] by {
        lemma_release_round_trip(t.releases[i]);
    }
    assert(spec_parse_release_seq(enc)->0 =~= t.releases);
    assert(spec_parse_track(spec_encode_track(t))->0 =~= t);
}

} // verus!
