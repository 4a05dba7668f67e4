use vstd::prelude::*;

verus! {

/// A JSON value, restricted to what the vendor wire shapes need.
///
/// Numbers do not occur in any field the library reads or writes, so they
/// have no arm; a caller that meets one in an ignored field maps it to
/// `Null` before handing the document over.
#[derive(Debug, PartialEq, Eq)]
pub enum Json {
    Null,
    Bool(bool),
    Str(String),
    Arr(Vec<Json>),
    Obj(Vec<(String, Json)>),
}

/// The mathematical shape of a [`Json`] document.
pub enum JsonV {
    Null,
    Bool(bool),
    Str(Seq<char>),
    Arr(Seq<JsonV>),
    Obj(Seq<(Seq<char>, JsonV)>),
}

/// The view of an executable JSON document.
pub open spec fn json_view(j: Json) -> JsonV
    decreases j,
{
    match j {
        Json::Null => JsonV::Null,
        Json::Bool(b) => JsonV::Bool(b),
        Json::Str(s) => JsonV::Str(s@),
        Json::Arr(a) => JsonV::Arr(json_seq_view(a@)),
        Json::Obj(o) => JsonV::Obj(json_obj_view(o@)),
    }
}

/// The element-wise view of the items of a JSON array.
pub open spec fn json_seq_view(s: Seq<Json>) -> Seq<JsonV>
    decreases s,
{
    if s.len() == 0 {
        Seq::empty()
    } else {
        seq![json_view(s[0])] + json_seq_view(s.drop_first())
    }
}

/// The entry-wise view of the members of a JSON object.
pub open spec fn json_obj_view(s: Seq<(String, Json)>) -> Seq<(Seq<char>, JsonV)>
    decreases s,
{
    if s.len() == 0 {
        Seq::empty()
    } else {
        seq![(s[0].0@, json_view(s[0].1))] + json_obj_view(s.drop_first())
    }
}

/// An array's view holds the view of each of its items, in place.
pub proof fn lemma_json_seq_view(s: Seq<Json>)
    ensures
        json_seq_view(s).len() == s.len(),
        forall|i: int| 0 <= i < s.len() ==> json_seq_view(s)[i] == json_view(#[trigger] s[i]),
    decreases s.len(),
{
    if s.len() > 0 {
        lemma_json_seq_view(s.drop_first());
        assert forall|i: int| 0 <= i < s.len() implies json_seq_view(s)[i] == json_view(
            #[trigger] s[i],
        ) by {
            if i > 0 {
                assert(s.drop_first()[i - 1] == s[i]);
                assert(json_seq_view(s)[i] == json_seq_view(s.drop_first())[i - 1]);
            }
        }
    }
}

/// An object's view holds the view of each of its entries, in place.
pub proof fn lemma_json_obj_view(s: Seq<(String, Json)>)
    ensures
        json_obj_view(s).len() == s.len(),
        forall|i: int|
            0 <= i < s.len() ==> json_obj_view(s)[i] == ((#[trigger] s[i]).0@, json_view(s[i].1)),
    decreases s.len(),
{
    if s.len() > 0 {
        lemma_json_obj_view(s.drop_first());
        assert forall|i: int|
            0 <= i < s.len() implies json_obj_view(s)[i] == ((#[trigger] s[i]).0@, json_view(
            s[i].1,
        )) by {
            if i > 0 {
                assert(s.drop_first()[i - 1] == s[i]);
                assert(json_obj_view(s)[i] == json_obj_view(s.drop_first())[i - 1]);
            }
        }
    }
}

impl View for Json {
    type V = JsonV;

    open spec fn view(&self) -> JsonV {
        json_view(*self)
    }
}

/// The value under the first entry of `entries` whose key is `key`, if any.
pub open spec fn spec_lookup(entries: Seq<(Seq<char>, JsonV)>, key: Seq<char>) -> Option<JsonV>
    decreases entries.len(),
{
    if entries.len() == 0 {
        None
    } else if entries[0].0 == key {
        Some(entries[0].1)
    } else {
        spec_lookup(entries.drop_first(), key)
    }
}

/// The member of an object under `key`, if the value is an object holding
/// that key.
pub open spec fn spec_member(j: JsonV, key: Seq<char>) -> Option<JsonV> {
    match j {
        JsonV::Obj(entries) => spec_lookup(entries, key),
        _ => None,
    }
}

/// Looks a key up in the entry list of a JSON object; the first match wins.
pub fn lookup<'a>(entries: &'a Vec<(String, Json)>, key: &String) -> (r: Option<&'a Json>)
    ensures
        match r {
            Some(v) => spec_lookup(json_obj_view(entries@), key@) == Some(v@),
            None => spec_lookup(json_obj_view(entries@), key@) is None,
        },
{
    let ghost all = json_obj_view(entries@);
    proof {
        lemma_json_obj_view(entries@);
        assert(all.skip(0) =~= all);
    }
    let mut i: usize = 0;
    while i < entries.len()
        invariant
            i <= entries.len(),
            all == json_obj_view(entries@),
            all.len() == entries@.len(),
            forall|k: int|
                0 <= k < entries@.len() ==> all[k] == ((#[trigger] entries@[k]).0@, json_view(
                    entries@[k].1,
                )),
            spec_lookup(all, key@) == spec_lookup(all.skip(i as int), key@),
        decreases entries.len() - i,
    {
        proof {
            assert(all.skip(i as int).len() == all.len() - i);
            assert(all.skip(i as int)[0] == all[i as int]);
            assert(all[i as int] == (entries@[i as int].0@, json_view(entries@[i as int].1)));
        }
        if entries[i].0.eq(key) {
            proof {
                assert(all.skip(i as int)[0].0 == key@);
                assert(spec_lookup(all.skip(i as int), key@) == Some(all[i as int].1));
            }
            return Some(&entries[i].1);
        }
        proof {
            assert(all.skip(i as int)[0].0 != key@);
            assert(all.skip(i as int).drop_first() =~= all.skip(i + 1));
            assert(spec_lookup(all.skip(i as int), key@) == spec_lookup(all.skip(i + 1), key@));
        }
        i += 1;
    }
    proof {
        assert(all.skip(entries@.len() as int) =~= Seq::<(Seq<char>, JsonV)>::empty());
    }
    None
}

/// Looks a key up in a JSON value; `None` unless the value is an object
/// holding that key.
pub fn member<'a>(j: &'a Json, key: &String) -> (r: Option<&'a Json>)
    ensures
        match r {
            Some(v) => spec_member(j@, key@) == Some(v@),
            None => spec_member(j@, key@) is None,
        },
{
    match j {
        Json::Obj(entries) => lookup(entries, key),
        _ => None,
    }
}

/// Builds a one-member JSON object.
pub fn obj1(k: &str, v: Json) -> (j: Json)
    ensures
        j@ == JsonV::Obj(seq![(k@, v@)]),
{
    let ghost vv = v@;
    let mut entries: Vec<(String, Json)> = Vec::new();
    entries.push((String::from_str(k), v));
    let j = Json::Obj(entries);
    proof {
        lemma_json_obj_view(entries@);
        let view = j@->Obj_0;
        assert(view[0] == ((#[trigger] entries@[0]).0@, json_view(entries@[0].1)));
        assert(view =~= seq![(k@, vv)]);
    }
    j
}

/// Builds a two-member JSON object.
pub fn obj2(k1: &str, v1: Json, k2: &str, v2: Json) -> (j: Json)
    ensures
        j@ == JsonV::Obj(seq![(k1@, v1@), (k2@, v2@)]),
{
    let ghost w1 = v1@;
    let ghost w2 = v2@;
    let mut entries: Vec<(String, Json)> = Vec::new();
    entries.push((String::from_str(k1), v1));
    entries.push((String::from_str(k2), v2));
    let j = Json::Obj(entries);
    proof {
        lemma_json_obj_view(entries@);
        let view = j@->Obj_0;
        assert(view[0] == ((#[trigger] entries@[0]).0@, json_view(entries@[0].1)));
        assert(view[1] == ((#[trigger] entries@[1]).0@, json_view(entries@[1].1)));
        assert(view =~= seq![(k1@, w1), (k2@, w2)]);
    }
    j
}

/// Builds a three-member JSON object.
pub fn obj3(k1: &str, v1: Json, k2: &str, v2: Json, k3: &str, v3: Json) -> (j: Json)
    ensures
        j@ == JsonV::Obj(seq![(k1@, v1@), (k2@, v2@), (k3@, v3@)]),
{
    let ghost w1 = v1@;
    let ghost w2 = v2@;
    let ghost w3 = v3@;
    let mut entries: Vec<(String, Json)> = Vec::new();
    entries.push((String::from_str(k1), v1));
    entries.push((String::from_str(k2), v2));
    entries.push((String::from_str(k3), v3));
    let j = Json::Obj(entries);
    proof {
        lemma_json_obj_view(entries@);
        let view = j@->Obj_0;
        assert(view[0] == ((#[trigger] entries@[0]).0@, json_view(entries@[0].1)));
        assert(view[1] == ((#[trigger] entries@[1]).0@, json_view(entries@[1].1)));
        assert(view[2] == ((#[trigger] entries@[2]).0@, json_view(entries@[2].1)));
        assert(view =~= seq![(k1@, w1), (k2@, w2), (k3@, w3)]);
    }
    j
}

/// Builds a JSON string value out of a borrowed string.
pub fn jstr(s: &String) -> (j: Json)
    ensures
        j@ == JsonV::Str(s@),
{
    Json::Str(s.clone())
}

/// The string content of a JSON value, if it is a string.
pub fn as_str<'a>(j: &'a Json) -> (r: Option<&'a String>)
    ensures
        match r {
            Some(s) => j@ == JsonV::Str(s@),
            None => !(j@ is Str),
        },
{
    match j {
        Json::Str(s) => Some(s),
        _ => None,
    }
}

} // verus!
