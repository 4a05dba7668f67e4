use freitool::codec::{encode_note, encode_track, parse_note, parse_track, status_of, status_str};
use freitool::json::Json;
use freitool::model::{Release, ReleaseNote, ReleaseStatus, Track};

fn populated_track() -> Track {
    Track {
        track: "production".to_string(),
        releases: vec![
            Release {
                version_codes: Some(vec!["41".to_string(), "42".to_string()]),
                release_notes: Some(vec![
                    ReleaseNote { language: "en-US".to_string(), text: "news".to_string() },
                    ReleaseNote { language: "pt-BR".to_string(), text: "novidades".to_string() },
                ]),
                status: ReleaseStatus::Draft,
                name: "1.2.3".to_string(),
            },
            Release {
                version_codes: None,
                release_notes: None,
                status: ReleaseStatus::Completed,
                name: "1.2.2".to_string(),
            },
        ],
    }
}

fn bare_track() -> Track {
    Track {
        track: "internal".to_string(),
        releases: vec![Release {
            version_codes: None,
            release_notes: None,
            status: ReleaseStatus::Draft,
            name: "0.1.0".to_string(),
        }],
    }
}

fn to_value(j: &Json) -> serde_json::Value {
    match j {
        Json::Null => serde_json::Value::Null,
        Json::Bool(b) => serde_json::Value::Bool(*b),
        Json::Str(s) => serde_json::Value::String(s.clone()),
        Json::Arr(a) => serde_json::Value::Array(a.iter().map(to_value).collect()),
        Json::Obj(o) => serde_json::Value::Object(
            o.iter().map(|(k, v)| (k.clone(), to_value(v))).collect(),
        ),
    }
}

fn from_value(v: &serde_json::Value) -> Json {
    match v {
        serde_json::Value::Null => Json::Null,
        serde_json::Value::Bool(b) => Json::Bool(*b),
        serde_json::Value::Number(_) => Json::Null,
        serde_json::Value::String(s) => Json::Str(s.clone()),
        serde_json::Value::Array(a) => Json::Arr(a.iter().map(from_value).collect()),
        serde_json::Value::Object(o) => Json::Obj(
            o.iter().map(|(k, v)| (k.clone(), from_value(v))).collect(),
        ),
    }
}

#[test]
fn track_round_trip_populated() {
    let t = populated_track();
    let j = encode_track(&t);
    let back = parse_track(&j).expect("an encoded track parses");
    assert_eq!(back, t);
}

#[test]
fn track_round_trip_all_optional_omitted() {
    let t = bare_track();
    let j = encode_track(&t);
    let back = parse_track(&j).expect("an encoded track parses");
    assert_eq!(back, t);
}

#[test]
fn track_round_trip_through_vendor_json_text() {
    let t = populated_track();
    let text = to_value(&encode_track(&t)).to_string();
    let value: serde_json::Value = serde_json::from_str(&text).expect("valid JSON text");
    let back = parse_track(&from_value(&value)).expect("the reread track parses");
    assert_eq!(back, t);
}

#[test]
fn note_encodes_to_expected_text() {
    let n = ReleaseNote { language: "en".to_string(), text: "hi".to_string() };
    let text = to_value(&encode_note(&n)).to_string();
    assert_eq!(text, "{\"language\":\"en\",\"text\":\"hi\"}");
    assert_eq!(parse_note(&encode_note(&n)), Some(n));
}

#[test]
fn status_wire_spellings() {
    assert_eq!(status_str(ReleaseStatus::Unspecified), "statusUnspecified");
    assert_eq!(status_str(ReleaseStatus::Draft), "draft");
    assert_eq!(status_str(ReleaseStatus::InProgress), "inProgress");
    assert_eq!(status_str(ReleaseStatus::Halted), "halted");
    assert_eq!(status_str(ReleaseStatus::Completed), "completed");
    assert_eq!(status_of(&"draft".to_string()), Some(ReleaseStatus::Draft));
    assert_eq!(status_of(&"halted".to_string()), Some(ReleaseStatus::Halted));
    assert_eq!(status_of(&"published".to_string()), None);
}

#[test]
fn parse_track_tolerates_unknown_members_and_order() {
    let text = "{\"unknown\":7,\"releases\":[{\"name\":\"1.0\",\"status\":\"draft\",\"extra\":null}],\"track\":\"beta\"}";
    let value: serde_json::Value = serde_json::from_str(text).unwrap();
    let t = parse_track(&from_value(&value)).expect("reordered members still parse");
    assert_eq!(t.track, "beta");
    assert_eq!(t.releases.len(), 1);
    assert_eq!(t.releases[0].name, "1.0");
    assert_eq!(t.releases[0].status, ReleaseStatus::Draft);
    assert_eq!(t.releases[0].version_codes, None);
    assert_eq!(t.releases[0].release_notes, None);
}

#[test]
fn parse_track_rejects_missing_or_misshapen_members() {
    let cases = [
        "{\"track\":\"beta\"}",
        "{\"releases\":[]}",
        "{\"track\":\"beta\",\"releases\":{}}",
        "{\"track\":\"beta\",\"releases\":[{\"status\":\"draft\"}]}",
        "{\"track\":\"beta\",\"releases\":[{\"name\":\"1.0\",\"status\":\"unheard-of\"}]}",
        "{\"track\":\"beta\",\"releases\":[{\"name\":\"1.0\",\"status\":\"draft\",\"versionCodes\":\"41\"}]}",
    ];
    for text in cases {
        let value: serde_json::Value = serde_json::from_str(text).unwrap();
        assert_eq!(parse_track(&from_value(&value)), None, "accepted: {}", text);
    }
}

#[test]
fn parse_release_reads_null_optionals_as_absent() {
    let text = "{\"track\":\"beta\",\"releases\":[{\"name\":\"1.0\",\"status\":\"draft\",\"versionCodes\":null,\"releaseNotes\":null}]}";
    let value: serde_json::Value = serde_json::from_str(text).unwrap();
    let t = parse_track(&from_value(&value)).expect("null optionals read as absent");
    assert_eq!(t.releases[0].version_codes, None);
    assert_eq!(t.releases[0].release_notes, None);
}
