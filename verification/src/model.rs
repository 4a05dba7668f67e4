use vstd::prelude::*;

verus! {

/// A localized release-notes entry attached to a release on the
/// Android-style platform.
#[derive(Debug, PartialEq, Eq)]
pub struct ReleaseNote {
    pub language: String,
    pub text: String,
}

/// The mathematical shape of a [`ReleaseNote`].
#[verifier::ext_equal]
pub struct ReleaseNoteView {
    pub language: Seq<char>,
    pub text: Seq<char>,
}

impl View for ReleaseNote {
    type V = ReleaseNoteView;

    open spec fn view(&self) -> ReleaseNoteView {
        ReleaseNoteView { language: self.language@, text: self.text@ }
    }
}

impl DeepView for ReleaseNote {
    type V = ReleaseNoteView;

    open spec fn deep_view(&self) -> ReleaseNoteView {
        self.view()
    }
}

/// The lifecycle state of a release on a track.  Only draft releases are
/// eligible targets for notes patching, and only drafts are created.
#[derive(Debug, Clone, Copy, PartialEq, Eq, Structural)]
pub enum ReleaseStatus {
    Unspecified,
    Draft,
    InProgress,
    Halted,
    Completed,
}

/// One release on a track of the Android-style platform.
#[derive(Debug, PartialEq, Eq)]
pub struct Release {
    pub version_codes: Option<Vec<String>>,
    pub release_notes: Option<Vec<ReleaseNote>>,
    pub status: ReleaseStatus,
    pub name: String,
}

/// The mathematical shape of a [`Release`].
#[verifier::ext_equal]
pub struct ReleaseView {
    pub version_codes: Option<Seq<Seq<char>>>,
    pub release_notes: Option<Seq<ReleaseNoteView>>,
    pub status: ReleaseStatus,
    pub name: Seq<char>,
}

impl View for Release {
    type V = ReleaseView;

    open spec fn view(&self) -> ReleaseView {
        ReleaseView {
            version_codes: match self.version_codes {
                Some(v) => Some(v.deep_view()),
                None => None,
            },
            release_notes: match self.release_notes {
                Some(v) => Some(v.deep_view()),
                None => None,
            },
            status: self.status,
            name: self.name@,
        }
    }
}

impl DeepView for Release {
    type V = ReleaseView;

    open spec fn deep_view(&self) -> ReleaseView {
        self.view()
    }
}

/// A named release lane holding an ordered collection of releases.
#[derive(Debug, PartialEq, Eq)]
pub struct Track {
    pub track: String,
    pub releases: Vec<Release>,
}

/// The mathematical shape of a [`Track`].
#[verifier::ext_equal]
pub struct TrackView {
    pub track: Seq<char>,
    pub releases: Seq<ReleaseView>,
}

impl View for Track {
    type V = TrackView;

    open spec fn view(&self) -> TrackView {
        TrackView { track: self.track@, releases: self.releases.deep_view() }
    }
}

/// Clones a list of strings, value for value.
fn clone_strings(v: &Vec<String>) -> (r: Vec<String>)
    ensures
        r@ == v@,
{
    let mut r: Vec<String> = Vec::new();
    let mut i: usize = 0;
    while i < v.len()
        invariant
            i <= v.len(),
            r@ =~= v@.subrange(0, i as int),
        decreases v.len() - i,
    {
        r.push(v[i].clone());
        i += 1;
    }
    proof {
        assert(r@ =~= v@);
    }
    r
}

/// Whether a release is an eligible target for a notes patch aimed at
/// `version`: it is a draft and carries that name.
pub open spec fn is_draft_match(r: ReleaseView, version: Seq<char>) -> bool {
    r.status == ReleaseStatus::Draft && r.name == version
}

/// The first release of the list that is a draft named `version`, if any;
/// the first structural match wins.
pub open spec fn spec_find_draft(rs: Seq<ReleaseView>, version: Seq<char>) -> Option<ReleaseView>
    decreases rs.len(),
{
    if rs.len() == 0 {
        None
    } else if is_draft_match(rs[0], version) {
        Some(rs[0])
    } else {
        spec_find_draft(rs.drop_first(), version)
    }
}

/// Whether some release of the list carries `version` as its name,
/// whatever its status.
pub open spec fn spec_has_name(rs: Seq<ReleaseView>, version: Seq<char>) -> bool {
    exists|i: int| 0 <= i < rs.len() && rs[i].name == version
}

impl Track {
    /// The first release on the track that is a draft named `version`.
    pub fn find_draft_release<'a>(&'a self, version: &String) -> (r: Option<&'a Release>)
        ensures
            match r {
                Some(rel) => spec_find_draft(self@.releases, version@) == Some(rel@),
                None => spec_find_draft(self@.releases, version@) is None,
            },
    {
        let ghost all = self@.releases;
        proof {
            assert(all.skip(0) =~= all);
        }
        let mut i: usize = 0;
        while i < self.releases.len()
            invariant
                i <= self.releases.len(),
                all == self@.releases,
                all.len() == self.releases@.len(),
                forall|k: int|
                    0 <= k < all.len() ==> all[k] == (#[trigger] self.releases@[k]).deep_view(),
                spec_find_draft(all, version@) == spec_find_draft(all.skip(i as int), version@),
            decreases self.releases.len() - i,
        {
            proof {
                assert(all.skip(i as int).len() == all.len() - i);
                assert(all.skip(i as int)[0] == all[i as int]);
            }
            let rel = &self.releases[i];
            let matched = match rel.status {
                ReleaseStatus::Draft => rel.name.eq(version),
                _ => false,
            };
            if matched {
                proof {
                    assert(is_draft_match(all[i as int], version@));
                    assert(spec_find_draft(all.skip(i as int), version@) == Some(all[i as int]));
                }
                return Some(rel);
            }
            proof {
                assert(!is_draft_match(all[i as int], version@));
                assert(all.skip(i as int).drop_first() =~= all.skip(i + 1));
            }
            i += 1;
        }
        proof {
            assert(all.skip(all.len() as int) =~= Seq::<ReleaseView>::empty());
        }
        None
    }

    /// Whether some release on the track carries `version` as its name.
    pub fn has_release_named(&self, version: &String) -> (r: bool)
        ensures
            r == spec_has_name(self@.releases, version@),
    {
        let ghost all = self@.releases;
        let mut i: usize = 0;
        while i < self.releases.len()
            invariant
                i <= self.releases.len(),
                all == self@.releases,
                all.len() == self.releases@.len(),
                forall|k: int|
                    0 <= k < all.len() ==> all[k] == (#[trigger] self.releases@[k]).deep_view(),
                forall|k: int| 0 <= k < i ==> all[k].name != version@,
            decreases self.releases.len() - i,
        {
            if self.releases[i].name.eq(version) {
                proof {
                    assert(all[i as int].name == version@);
                }
                return true;
            }
            i += 1;
        }
        false
    }
}

/// The track body sent when patching the notes of one matched release: the
/// matched release alone, its status, name and version codes unchanged, its
/// notes replaced wholesale by the single requested entry.
pub open spec fn spec_replacement_track(
    track_name: Seq<char>,
    selected: ReleaseView,
    locale: Seq<char>,
    text: Seq<char>,
) -> TrackView {
    TrackView {
        track: track_name,
        releases: seq![
            ReleaseView {
                version_codes: selected.version_codes,
                release_notes: Some(seq![ReleaseNoteView { language: locale, text }]),
                status: selected.status,
                name: selected.name,
            },
        ],
    }
}

/// The track body sent when creating a version: a single new draft release
/// named `version`, with no version codes and no notes.
pub open spec fn spec_new_version_track(track_name: Seq<char>, version: Seq<char>) -> TrackView {
    TrackView {
        track: track_name,
        releases: seq![
            ReleaseView {
                version_codes: None,
                release_notes: None,
                status: ReleaseStatus::Draft,
                name: version,
            },
        ],
    }
}

/// Builds the replacement track for a notes patch.  The selected release's
/// status, name and version codes are preserved unchanged; its notes list is
/// replaced wholesale by the one `(locale, text)` entry, so notes previously
/// held in other locales are dropped, not merged.
pub fn replacement_track(
    track_name: &String,
    selected: &Release,
    locale: &String,
    text: &String,
) -> (t: Track)
    ensures
        t@ == spec_replacement_track(track_name@, selected@, locale@, text@),
{
    let version_codes = match &selected.version_codes {
        Some(v) => Some(clone_strings(v)),
        None => None,
    };
    let mut notes: Vec<ReleaseNote> = Vec::new();
    notes.push(ReleaseNote { language: locale.clone(), text: text.clone() });
    let mut releases: Vec<Release> = Vec::new();
    releases.push(
        Release {
            version_codes,
            release_notes: Some(notes),
            status: selected.status,
            name: selected.name.clone(),
        },
    );
    let t = Track { track: track_name.clone(), releases };
    proof {
        let s = spec_replacement_track(track_name@, selected@, locale@, text@);
        assert(t@.releases.len() == 1);
        assert(t@.releases[0] =~~= s.releases[0]);
        assert(t@.releases =~~= s.releases);
    }
    t
}

/// Builds the track holding the single new draft release for a version
/// creation.
pub fn new_version_track(track_name: &String, version: &String) -> (t: Track)
    ensures
        t@ == spec_new_version_track(track_name@, version@),
{
    let mut releases: Vec<Release> = Vec::new();
    releases.push(
        Release {
            version_codes: None,
            release_notes: None,
            status: ReleaseStatus::Draft,
            name: version.clone(),
        },
    );
    let t = Track { track: track_name.clone(), releases };
    proof {
        let s = spec_new_version_track(track_name@, version@);
        assert(t@.releases.len() == 1);
        assert(t@.releases[0] =~~= s.releases[0]);
        assert(t@.releases =~~= s.releases);
    }
    t
}

} // verus!
