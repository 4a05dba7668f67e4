use vstd::prelude::*;

use crate::codec::spec_parse_track;
use crate::datasource::HttpEvent;
use crate::errors::StoreError;
use crate::google_play_datasource::spec_parse_edit_id;
use crate::json::Json;
use crate::model::{
    spec_find_draft, spec_has_name, spec_new_version_track, spec_replacement_track,
    new_version_track, replacement_track, ReleaseNoteView, ReleaseView, Track, TrackView,
};

verus! {

/// The human intent one Android-side run realizes.
#[derive(Debug, PartialEq, Eq)]
pub enum PlayOp {
    /// Patch the localized notes of the draft release named `version`.
    SetNotes { locale: String, version: String, text: String },
    /// Create a new draft release named `version` on the track.
    CreateVersion { version: String },
}

/// The vendor call a run asks its driver to perform next.  The driver
/// performs exactly the call it is handed and reports the outcome back;
/// it decides nothing.
#[derive(Debug, PartialEq, Eq)]
pub enum PlayCall {
    /// Open an edit session.
    CreateEdit,
    /// Fetch the configured track within the session.
    GetTrack { edit_id: String },
    /// Replace the track's releases within the session.
    PutTrack { edit_id: String, track: Track },
    /// Commit the session.
    CommitEdit { edit_id: String },
}

/// Where an Android-side run stands: which response it awaits, or how it
/// ended.  `Complete` and `Aborted` are terminal.
#[derive(Debug, PartialEq, Eq)]
pub enum PlayPhase {
    AwaitEdit,
    AwaitTrack { edit_id: String },
    AwaitPut { edit_id: String },
    AwaitCommit { edit_id: String },
    Complete,
    Aborted { error: StoreError },
}

/// The post-phase and call of a step that aborts the run with `error`.
pub open spec fn spec_play_aborts(post: PlayPhase, call: Option<PlayCall>, error: StoreError) -> bool {
    &&& post == (PlayPhase::Aborted { error })
    &&& call is None
}

/// The post-phase and call of a step that aborts the run because a success
/// response did not have the expected shape.
pub open spec fn spec_play_aborts_malformed(post: PlayPhase, call: Option<PlayCall>) -> bool {
    &&& post matches PlayPhase::Aborted { error } && error is MalformedResponse
    &&& call is None
}

/// The abort taken when the vendor reports an outright failure: a non-2xx
/// status becomes an `Api` error, a transport fault a `Transport` error.
pub open spec fn spec_play_failure_abort(event: HttpEvent, post: PlayPhase, call: Option<PlayCall>) -> bool {
    match event {
        HttpEvent::Failure { status, body } => spec_play_aborts(
            post,
            call,
            StoreError::Api { status, body },
        ),
        HttpEvent::Transport { message } => spec_play_aborts(
            post,
            call,
            StoreError::Transport(message),
        ),
        HttpEvent::Success { .. } => false,
    }
}

/// The transition relation of one Android-side run: from the phase `pre`,
/// on `event`, the run moves to `post` and asks for `call`.  It pins every
/// step down, up to the free text of malformed-response messages:
///
/// - the session id is read from the edit response, and the track is then
///   fetched under it;
/// - a fetched track is resolved against the intent: a name collision
///   aborts a version creation with `VersionAlreadyExists` before any
///   mutation, a missing draft aborts a notes patch with
///   `ReleaseNotEditable`, and otherwise the one replacement track is put;
/// - a put is followed by exactly one commit, and a committed run is
///   complete;
/// - every vendor failure aborts, and terminal phases never move nor ask
///   for another call.
pub open spec fn spec_play_step(
    op: PlayOp,
    track_name: Seq<char>,
    pre: PlayPhase,
    event: HttpEvent,
    post: PlayPhase,
    call: Option<PlayCall>,
) -> bool {
    match pre {
        PlayPhase::AwaitEdit => match event {
            HttpEvent::Success { body: Some(b) } => match spec_parse_edit_id(b@) {
                Some(id) => {
                    &&& post matches PlayPhase::AwaitTrack { edit_id } && edit_id@ == id
                    &&& call matches Some(PlayCall::GetTrack { edit_id }) && edit_id@ == id
                },
                None => spec_play_aborts_malformed(post, call),
            },
            HttpEvent::Success { body: None } => spec_play_aborts_malformed(post, call),
            _ => spec_play_failure_abort(event, post, call),
        },
        PlayPhase::AwaitTrack { edit_id: e } => match event {
            HttpEvent::Success { body: Some(b) } => match spec_parse_track(b@) {
                Some(tv) => match op {
                    PlayOp::SetNotes { locale, version, text } => match spec_find_draft(
                        tv.releases,
                        version@,
                    ) {
                        Some(rel) => {
                            &&& post matches PlayPhase::AwaitPut { edit_id } && edit_id@ == e@
                            &&& call matches Some(PlayCall::PutTrack { edit_id, track })
                                && edit_id@ == e@ && track@ == spec_replacement_track(
                                track_name,
                                rel,
                                locale@,
                                text@,
                            )
                        },
                        None => spec_play_aborts(post, call, StoreError::ReleaseNotEditable),
                    },
                    PlayOp::CreateVersion { version } => {
                        if spec_has_name(tv.releases, version@) {
                            spec_play_aborts(post, call, StoreError::VersionAlreadyExists)
                        } else {
                            &&& post matches PlayPhase::AwaitPut { edit_id } && edit_id@ == e@
                            &&& call matches Some(PlayCall::PutTrack { edit_id, track })
                                && edit_id@ == e@ && track@ == spec_new_version_track(
                                track_name,
                                version@,
                            )
                        }
                    },
                },
                None => spec_play_aborts_malformed(post, call),
            },
            HttpEvent::Success { body: None } => spec_play_aborts_malformed(post, call),
            _ => spec_play_failure_abort(event, post, call),
        },
        PlayPhase::AwaitPut { edit_id: e } => match event {
            HttpEvent::Success { .. } => {
                &&& post matches PlayPhase::AwaitCommit { edit_id } && edit_id@ == e@
                &&& call matches Some(PlayCall::CommitEdit { edit_id }) && edit_id@ == e@
            },
            _ => spec_play_failure_abort(event, post, call),
        },
        PlayPhase::AwaitCommit { .. } => match event {
            HttpEvent::Success { .. } => post == PlayPhase::Complete && call is None,
            _ => spec_play_failure_abort(event, post, call),
        },
        PlayPhase::Complete => post == PlayPhase::Complete && call is None,
        PlayPhase::Aborted { error } => post == (PlayPhase::Aborted { error }) && call is None,
    }
}

/// One Android-side run: the intent, the configured track, and where the
/// run stands.  `step` consumes one vendor outcome and yields the next
/// vendor call, as [`spec_play_step`] describes.
pub struct PlayFlow {
    pub op: PlayOp,
    pub track_name: String,
    pub phase: PlayPhase,
}

impl PlayFlow {
    /// Starts a run: every mutation begins by opening an edit session.
    pub fn new(op: PlayOp, track_name: String) -> (r: (PlayFlow, PlayCall))
        ensures
            r.0.op == op,
            r.0.track_name == track_name,
            r.0.phase == PlayPhase::AwaitEdit,
            r.1 == PlayCall::CreateEdit,
    {
        (PlayFlow { op, track_name, phase: PlayPhase::AwaitEdit }, PlayCall::CreateEdit)
    }

    /// Whether the run has ended, successfully or not.
    pub fn is_terminal(&self) -> (r: bool)
        ensures
            r == (self.phase is Complete || self.phase is Aborted),
    {
        match &self.phase {
            PlayPhase::Complete => true,
            PlayPhase::Aborted { .. } => true,
            _ => false,
        }
    }

    /// The error of an aborted run.
    pub fn error(&self) -> (r: Option<&StoreError>)
        ensures
            match r {
                Some(e) => self.phase matches PlayPhase::Aborted { error } && *e == error,
                None => !(self.phase is Aborted),
            },
    {
        match &self.phase {
            PlayPhase::Aborted { error } => Some(error),
            _ => None,
        }
    }

    /// Consumes the outcome of the last call and yields the next call, as
    /// [`spec_play_step`] describes.
    pub fn step(&mut self, event: HttpEvent) -> (call: Option<PlayCall>)
        ensures
            final(self).op == old(self).op,
            final(self).track_name == old(self).track_name,
            spec_play_step(
                old(self).op,
                old(self).track_name@,
                old(self).phase,
                event,
                final(self).phase,
                call,
            ),
    {
        match &self.phase {
            PlayPhase::AwaitEdit => match event {
                HttpEvent::Success { body: Some(b) } => match crate::google_play_datasource::parse_edit_id(&b) {
                    Some(id) => {
                        let call = PlayCall::GetTrack { edit_id: id.clone() };
                        self.phase = PlayPhase::AwaitTrack { edit_id: id };
                        Some(call)
                    },
                    None => {
                        self.phase = PlayPhase::Aborted {
                            error: StoreError::MalformedResponse(
                                String::from_str("the edit-session response held no id"),
                            ),
                        };
                        None
                    },
                },
                HttpEvent::Success { body: None } => {
                    self.phase = PlayPhase::Aborted {
                        error: StoreError::MalformedResponse(
                            String::from_str("the edit-session response held no JSON body"),
                        ),
                    };
                    None
                },
                HttpEvent::Failure { status, body } => {
                    self.phase = PlayPhase::Aborted { error: StoreError::Api { status, body } };
                    None
                },
                HttpEvent::Transport { message } => {
                    self.phase = PlayPhase::Aborted { error: StoreError::Transport(message) };
                    None
                },
            },
            PlayPhase::AwaitTrack { edit_id } => {
                let e = edit_id.clone();
                match event {
                    HttpEvent::Success { body: Some(b) } => match crate::codec::parse_track(&b) {
                        Some(track) => self.resolve_fetched_track(e, track),
                        None => {
                            self.phase = PlayPhase::Aborted {
                                error: StoreError::MalformedResponse(
                                    String::from_str("the track response did not parse"),
                                ),
                            };
                            None
                        },
                    },
                    HttpEvent::Success { body: None } => {
                        self.phase = PlayPhase::Aborted {
                            error: StoreError::MalformedResponse(
                                String::from_str("the track response held no JSON body"),
                            ),
                        };
                        None
                    },
                    HttpEvent::Failure { status, body } => {
                        self.phase = PlayPhase::Aborted { error: StoreError::Api { status, body } };
                        None
                    },
                    HttpEvent::Transport { message } => {
                        self.phase = PlayPhase::Aborted { error: StoreError::Transport(message) };
                        None
                    },
                }
            },
            PlayPhase::AwaitPut { edit_id } => {
                let e = edit_id.clone();
                match event {
                    HttpEvent::Success { .. } => {
                        let call = PlayCall::CommitEdit { edit_id: e.clone() };
                        self.phase = PlayPhase::AwaitCommit { edit_id: e };
                        Some(call)
                    },
                    HttpEvent::Failure { status, body } => {
                        self.phase = PlayPhase::Aborted { error: StoreError::Api { status, body } };
                        None
                    },
                    HttpEvent::Transport { message } => {
                        self.phase = PlayPhase::Aborted { error: StoreError::Transport(message) };
                        None
                    },
                }
            },
            PlayPhase::AwaitCommit { .. } => match event {
                HttpEvent::Success { .. } => {
                    self.phase = PlayPhase::Complete;
                    None
                },
                HttpEvent::Failure { status, body } => {
                    self.phase = PlayPhase::Aborted { error: StoreError::Api { status, body } };
                    None
                },
                HttpEvent::Transport { message } => {
                    self.phase = PlayPhase::Aborted { error: StoreError::Transport(message) };
                    None
                },
            },
            PlayPhase::Complete => None,
            PlayPhase::Aborted { .. } => None,
        }
    }

    /// Resolves a fetched track against the intent: the one decision point
    /// of a run.  A name collision or a missing draft aborts before any
    /// mutation; otherwise the one replacement track is put.
    fn resolve_fetched_track(&mut self, edit_id: String, fetched: Track) -> (call: Option<PlayCall>)
        requires
            old(self).phase is AwaitTrack,
        ensures
            final(self).op == old(self).op,
            final(self).track_name == old(self).track_name,
            spec_play_resolution(
                old(self).op,
                old(self).track_name@,
                edit_id,
                fetched@,
                final(self).phase,
                call,
            ),
    {
        match &self.op {
            PlayOp::SetNotes { locale, version, text } => {
                match fetched.find_draft_release(version) {
                    Some(rel) => {
                        let track = replacement_track(&self.track_name, rel, locale, text);
                        let call = PlayCall::PutTrack { edit_id: edit_id.clone(), track };
                        self.phase = PlayPhase::AwaitPut { edit_id };
                        Some(call)
                    },
                    None => {
                        self.phase = PlayPhase::Aborted { error: StoreError::ReleaseNotEditable };
                        None
                    },
                }
            },
            PlayOp::CreateVersion { version } => {
                if fetched.has_release_named(version) {
                    self.phase = PlayPhase::Aborted { error: StoreError::VersionAlreadyExists };
                    None
                } else {
                    let track = new_version_track(&self.track_name, version);
                    let call = PlayCall::PutTrack { edit_id: edit_id.clone(), track };
                    self.phase = PlayPhase::AwaitPut { edit_id };
                    Some(call)
                }
            },
        }
    }
}

/// What resolving a fetched track yields, given the intent: the decision
/// core of [`spec_play_step`].
pub open spec fn spec_play_resolution(
    op: PlayOp,
    track_name: Seq<char>,
    e: String,
    tv: TrackView,
    post: PlayPhase,
    call: Option<PlayCall>,
) -> bool {
    match op {
        PlayOp::SetNotes { locale, version, text } => match spec_find_draft(tv.releases, version@) {
            Some(rel) => {
                &&& post matches PlayPhase::AwaitPut { edit_id } && edit_id@ == e@
                &&& call matches Some(PlayCall::PutTrack { edit_id, track }) && edit_id@ == e@
                    && track@ == spec_replacement_track(track_name, rel, locale@, text@)
            },
            None => spec_play_aborts(post, call, StoreError::ReleaseNotEditable),
        },
        PlayOp::CreateVersion { version } => {
            if spec_has_name(tv.releases, version@) {
                spec_play_aborts(post, call, StoreError::VersionAlreadyExists)
            } else {
                &&& post matches PlayPhase::AwaitPut { edit_id } && edit_id@ == e@
                &&& call matches Some(PlayCall::PutTrack { edit_id, track }) && edit_id@ == e@
                    && track@ == spec_new_version_track(track_name, version@)
            }
        },
    }
}

// ---------------------------------------------------------------------------
// Laws of a run
// ---------------------------------------------------------------------------

/// A terminal phase never moves and never asks for another call: once a
/// run has aborted, no later event makes it issue a mutation.
pub proof fn lemma_play_terminal_stays(
    op: PlayOp,
    track_name: Seq<char>,
    pre: PlayPhase,
    event: HttpEvent,
    post: PlayPhase,
    call: Option<PlayCall>,
)
    requires
        spec_play_step(op, track_name, pre, event, post, call),
        pre is Complete || pre is Aborted,
    ensures
        post == pre,
        call is None,
{
}

/// A version creation that finds a release of the requested name already
/// on the track aborts with `VersionAlreadyExists` and asks for no call:
/// with `lemma_play_terminal_stays`, the replace and commit calls are
/// never issued after the collision.
pub proof fn lemma_play_collision_aborts(
    track_name: Seq<char>,
    pre: PlayPhase,
    post: PlayPhase,
    call: Option<PlayCall>,
    version: String,
    b: Json,
    tv: TrackView,
)
    requires
        spec_play_step(
            PlayOp::CreateVersion { version },
            track_name,
            pre,
            HttpEvent::Success { body: Some(b) },
            post,
            call,
        ),
        pre is AwaitTrack,
        spec_parse_track(b@) == Some(tv),
        spec_has_name(tv.releases, version@),
    ensures
        post == (PlayPhase::Aborted { error: StoreError::VersionAlreadyExists }),
        call is None,
{
}

/// The replace call of a notes patch carries the single matched release
/// with its status, name and version codes unchanged, and its notes
/// replaced wholesale by the one requested entry.
pub proof fn lemma_play_patch_preserves_release(
    track_name: Seq<char>,
    pre: PlayPhase,
    post: PlayPhase,
    call: Option<PlayCall>,
    locale: String,
    version: String,
    text: String,
    b: Json,
    tv: TrackView,
    rel: ReleaseView,
)
    requires
        spec_play_step(
            PlayOp::SetNotes { locale, version, text },
            track_name,
            pre,
            HttpEvent::Success { body: Some(b) },
            post,
            call,
        ),
        pre is AwaitTrack,
        spec_parse_track(b@) == Some(tv),
        spec_find_draft(tv.releases, version@) == Some(rel),
    ensures
        call matches Some(PlayCall::PutTrack { edit_id: _, track }) && {
            &&& track@.track == track_name
            &&& track@.releases.len() == 1
            &&& track@.releases[0].status == rel.status
            &&& track@.releases[0].name == rel.name
            &&& track@.releases[0].version_codes == rel.version_codes
            &&& track@.releases[0].release_notes == Some(
                seq![ReleaseNoteView { language: locale@, text: text@ }],
            )
        },
{
}

/// A mutation is only ever requested off a track that was fetched and
/// resolved cleanly: a replace call comes only while a track response is
/// in hand, and, for a version creation, only when no release of the
/// requested name was on it.
pub proof fn lemma_play_put_provenance(
    op: PlayOp,
    track_name: Seq<char>,
    pre: PlayPhase,
    event: HttpEvent,
    post: PlayPhase,
    call: Option<PlayCall>,
)
    requires
        spec_play_step(op, track_name, pre, event, post, call),
        call matches Some(c) && c is PutTrack,
    ensures
        pre is AwaitTrack,
        event matches HttpEvent::Success { body: Some(b) } && spec_parse_track(b@) is Some && (
        op matches PlayOp::CreateVersion { version } ==> !spec_has_name(
            spec_parse_track(b@)->0.releases,
            version@,
        )),
{
}

/// A commit is only ever requested right after the replace succeeded.
pub proof fn lemma_play_commit_provenance(
    op: PlayOp,
    track_name: Seq<char>,
    pre: PlayPhase,
    event: HttpEvent,
    post: PlayPhase,
    call: Option<PlayCall>,
)
    requires
        spec_play_step(op, track_name, pre, event, post, call),
        call matches Some(c) && c is CommitEdit,
    ensures
        pre is AwaitPut,
        event is Success,
{
}

} // verus!
