use vstd::prelude::*;

use crate::app_store_datasource::{
    spec_parse_locs_response, spec_parse_versions_response, spec_select_localization,
    parse_locs_response, parse_versions_response, select_localization,
};
use crate::datasource::HttpEvent;
use crate::errors::StoreError;
use crate::json::{Json, JsonV};

verus! {

/// The human intent one iOS-side run realizes.
#[derive(Debug, PartialEq, Eq)]
pub enum IosOp {
    /// Patch the "what's new" text of the localization of the version
    /// named `version` that matches `locale`.
    SetNotes { locale: String, version: String, text: String },
    /// Create a new version named `version`.
    CreateVersion { version: String },
}

/// The vendor call a run asks its driver to perform next.  The driver
/// performs exactly the call it is handed and reports the outcome back;
/// it decides nothing.
#[derive(Debug, PartialEq, Eq)]
pub enum IosCall {
    /// List the versions matching the exact version string.
    ListVersions { version: String },
    /// List the localizations of the resolved version.
    ListLocalizations { version_id: String },
    /// Patch the "what's new" text of the selected localization.
    PatchLocalization { localization_id: String, text: String },
    /// Create the version.
    CreateVersion { version: String },
}

/// Where an iOS-side run stands: which response it awaits, with what it
/// still has to send, or how it ended.  `Complete` and `Aborted` are
/// terminal.
#[derive(Debug, PartialEq, Eq)]
pub enum IosPhase {
    AwaitVersions { locale: String, text: String },
    AwaitLocalizations { locale: String, text: String },
    AwaitPatch,
    AwaitCreate,
    Complete,
    Aborted { error: StoreError },
}

/// The post-phase and call of a step that aborts the run with `error`.
pub open spec fn spec_ios_aborts(post: IosPhase, call: Option<IosCall>, error: StoreError) -> bool {
    &&& post == (IosPhase::Aborted { error })
    &&& call is None
}

/// The post-phase and call of a step that aborts the run because a success
/// response did not have the expected shape.
pub open spec fn spec_ios_aborts_malformed(post: IosPhase, call: Option<IosCall>) -> bool {
    &&& post matches IosPhase::Aborted { error } && error is MalformedResponse
    &&& call is None
}

/// The abort taken when the vendor reports an outright failure: a non-2xx
/// status becomes an `Api` error, a transport fault a `Transport` error.
pub open spec fn spec_ios_failure_abort(event: HttpEvent, post: IosPhase, call: Option<IosCall>) -> bool {
    match event {
        HttpEvent::Failure { status, body } => spec_ios_aborts(
            post,
            call,
            StoreError::Api { status, body },
        ),
        HttpEvent::Transport { message } => spec_ios_aborts(
            post,
            call,
            StoreError::Transport(message),
        ),
        HttpEvent::Success { .. } => false,
    }
}

/// The transition relation of one iOS-side run: from the phase `pre`, on
/// `event`, the run moves to `post` and asks for `call`.  It pins every
/// step down, up to the free text of malformed-response messages:
///
/// - a version-filter response resolves only when it holds exactly one
///   version; zero or several abort with `AmbiguousOrMissingVersion`;
/// - the localizations of the one version are then fetched, and the
///   requested locale selects exactly one of them — case-insensitively,
///   or, for the empty locale, the sole localization — else the run
///   aborts with `AmbiguousOrMissingLocalization`;
/// - the patch, or the version creation, is one call, and its success
///   completes the run;
/// - every vendor failure aborts, and terminal phases never move nor ask
///   for another call.
pub open spec fn spec_ios_step(
    pre: IosPhase,
    event: HttpEvent,
    post: IosPhase,
    call: Option<IosCall>,
) -> bool {
    match pre {
        IosPhase::AwaitVersions { locale, text } => match event {
            HttpEvent::Success { body: Some(b) } => match spec_parse_versions_response(b@) {
                Some(list) => {
                    if list.len() == 1 {
                        &&& post == (IosPhase::AwaitLocalizations { locale, text })
                        &&& call matches Some(IosCall::ListLocalizations { version_id })
                            && version_id@ == list[0].id
                    } else {
                        spec_ios_aborts(post, call, StoreError::AmbiguousOrMissingVersion)
                    }
                },
                None => spec_ios_aborts_malformed(post, call),
            },
            HttpEvent::Success { body: None } => spec_ios_aborts_malformed(post, call),
            _ => spec_ios_failure_abort(event, post, call),
        },
        IosPhase::AwaitLocalizations { locale, text } => match event {
            HttpEvent::Success { body: Some(b) } => match spec_parse_locs_response(b@) {
                Some(locs) => match spec_select_localization(locs, locale@) {
                    Some(l) => {
                        &&& post == IosPhase::AwaitPatch
                        &&& call matches Some(
                            IosCall::PatchLocalization { localization_id, text: t },
                        ) && localization_id@ == l.id && t@ == text@
                    },
                    None => spec_ios_aborts(post, call, StoreError::AmbiguousOrMissingLocalization),
                },
                None => spec_ios_aborts_malformed(post, call),
            },
            HttpEvent::Success { body: None } => spec_ios_aborts_malformed(post, call),
            _ => spec_ios_failure_abort(event, post, call),
        },
        IosPhase::AwaitPatch => match event {
            HttpEvent::Success { .. } => post == IosPhase::Complete && call is None,
            _ => spec_ios_failure_abort(event, post, call),
        },
        IosPhase::AwaitCreate => match event {
            HttpEvent::Success { body: Some(b) } => {
                if b@ is Obj {
                    post == IosPhase::Complete && call is None
                } else {
                    spec_ios_aborts_malformed(post, call)
                }
            },
            HttpEvent::Success { body: None } => spec_ios_aborts_malformed(post, call),
            _ => spec_ios_failure_abort(event, post, call),
        },
        IosPhase::Complete => post == IosPhase::Complete && call is None,
        IosPhase::Aborted { error } => post == (IosPhase::Aborted { error }) && call is None,
    }
}

/// One iOS-side run.  `step` consumes one vendor outcome and yields the
/// next vendor call, as [`spec_ios_step`] describes.
pub struct IosFlow {
    pub phase: IosPhase,
}

impl IosFlow {
    /// Starts a run: a notes patch begins by resolving the version, a
    /// version creation is a single call.
    pub fn new(op: IosOp) -> (r: (IosFlow, IosCall))
        ensures
            match op {
                IosOp::SetNotes { locale, version, text } => {
                    &&& r.0.phase == (IosPhase::AwaitVersions { locale, text })
                    &&& r.1 matches IosCall::ListVersions { version: v } && v@ == version@
                },
                IosOp::CreateVersion { version } => {
                    &&& r.0.phase == IosPhase::AwaitCreate
                    &&& r.1 matches IosCall::CreateVersion { version: v } && v@ == version@
                },
            },
    {
        match op {
            IosOp::SetNotes { locale, version, text } => (
                IosFlow { phase: IosPhase::AwaitVersions { locale, text } },
                IosCall::ListVersions { version },
            ),
            IosOp::CreateVersion { version } => (
                IosFlow { phase: IosPhase::AwaitCreate },
                IosCall::CreateVersion { version },
            ),
        }
    }

    /// Whether the run has ended, successfully or not.
    pub fn is_terminal(&self) -> (r: bool)
        ensures
            r == (self.phase is Complete || self.phase is Aborted),
    {
        match &self.phase {
            IosPhase::Complete => true,
            IosPhase::Aborted { .. } => true,
            _ => false,
        }
    }

    /// The error of an aborted run.
    pub fn error(&self) -> (r: Option<&StoreError>)
        ensures
            match r {
                Some(e) => self.phase matches IosPhase::Aborted { error } && *e == error,
                None => !(self.phase is Aborted),
            },
    {
        match &self.phase {
            IosPhase::Aborted { error } => Some(error),
            _ => None,
        }
    }

    /// Consumes the outcome of the last call and yields the next call, as
    /// [`spec_ios_step`] describes.
    pub fn step(&mut self, event: HttpEvent) -> (call: Option<IosCall>)
        ensures
            spec_ios_step(old(self).phase, event, final(self).phase, call),
    {
        match &self.phase {
            IosPhase::AwaitVersions { locale, text } => {
                let locale = locale.clone();
                let text = text.clone();
                match event {
                    HttpEvent::Success { body: Some(b) } => match parse_versions_response(&b) {
                        Some(resp) => match crate::app_store_datasource::resolve_version(
                            &resp.data,
                        ) {
                            Some(v) => {
                                let call = IosCall::ListLocalizations {
                                    version_id: v.id.clone(),
                                };
                                self.phase = IosPhase::AwaitLocalizations { locale, text };
                                Some(call)
                            },
                            None => {
                                self.phase = IosPhase::Aborted {
                                    error: StoreError::AmbiguousOrMissingVersion,
                                };
                                None
                            },
                        },
                        None => {
                            self.phase = IosPhase::Aborted {
                                error: StoreError::MalformedResponse(
                                    String::from_str("the version list did not parse"),
                                ),
                            };
                            None
                        },
                    },
                    HttpEvent::Success { body: None } => {
                        self.phase = IosPhase::Aborted {
                            error: StoreError::MalformedResponse(
                                String::from_str("the version list held no JSON body"),
                            ),
                        };
                        None
                    },
                    HttpEvent::Failure { status, body } => {
                        self.phase = IosPhase::Aborted { error: StoreError::Api { status, body } };
                        None
                    },
                    HttpEvent::Transport { message } => {
                        self.phase = IosPhase::Aborted { error: StoreError::Transport(message) };
                        None
                    },
                }
            },
            IosPhase::AwaitLocalizations { locale, text } => {
                let locale = locale.clone();
                let text = text.clone();
                match event {
                    HttpEvent::Success { body: Some(b) } => match parse_locs_response(&b) {
                        Some(resp) => match select_localization(&resp.data, &locale) {
                            Some(l) => {
                                let call = IosCall::PatchLocalization {
                                    localization_id: l.id.clone(),
                                    text,
                                };
                                self.phase = IosPhase::AwaitPatch;
                                Some(call)
                            },
                            None => {
                                self.phase = IosPhase::Aborted {
                                    error: StoreError::AmbiguousOrMissingLocalization,
                                };
                                None
                            },
                        },
                        None => {
                            self.phase = IosPhase::Aborted {
                                error: StoreError::MalformedResponse(
                                    String::from_str("the localization list did not parse"),
                                ),
                            };
                            None
                        },
                    },
                    HttpEvent::Success { body: None } => {
                        self.phase = IosPhase::Aborted {
                            error: StoreError::MalformedResponse(
                                String::from_str("the localization list held no JSON body"),
                            ),
                        };
                        None
                    },
                    HttpEvent::Failure { status, body } => {
                        self.phase = IosPhase::Aborted { error: StoreError::Api { status, body } };
                        None
                    },
                    HttpEvent::Transport { message } => {
                        self.phase = IosPhase::Aborted { error: StoreError::Transport(message) };
                        None
                    },
                }
            },
            IosPhase::AwaitPatch => match event {
                HttpEvent::Success { .. } => {
                    self.phase = IosPhase::Complete;
                    None
                },
                HttpEvent::Failure { status, body } => {
                    self.phase = IosPhase::Aborted { error: StoreError::Api { status, body } };
                    None
                },
                HttpEvent::Transport { message } => {
                    self.phase = IosPhase::Aborted { error: StoreError::Transport(message) };
                    None
                },
            },
            IosPhase::AwaitCreate => match event {
                HttpEvent::Success { body: Some(b) } => match &b {
                    Json::Obj(..) => {
                        self.phase = IosPhase::Complete;
                        None
                    },
                    _ => {
                        self.phase = IosPhase::Aborted {
                            error: StoreError::MalformedResponse(
                                String::from_str("the creation response was no JSON object"),
                            ),
                        };
                        None
                    },
                },
                HttpEvent::Success { body: None } => {
                    self.phase = IosPhase::Aborted {
                        error: StoreError::MalformedResponse(
                            String::from_str("the creation response held no JSON body"),
                        ),
                    };
                    None
                },
                HttpEvent::Failure { status, body } => {
                    self.phase = IosPhase::Aborted { error: StoreError::Api { status, body } };
                    None
                },
                HttpEvent::Transport { message } => {
                    self.phase = IosPhase::Aborted { error: StoreError::Transport(message) };
                    None
                },
            },
            IosPhase::Complete => None,
            IosPhase::Aborted { .. } => None,
        }
    }
}

// ---------------------------------------------------------------------------
// Laws of a run
// ---------------------------------------------------------------------------

/// A terminal phase never moves and never asks for another call.
pub proof fn lemma_ios_terminal_stays(
    pre: IosPhase,
    event: HttpEvent,
    post: IosPhase,
    call: Option<IosCall>,
)
    requires
        spec_ios_step(pre, event, post, call),
        pre is Complete || pre is Aborted,
    ensures
        post == pre,
        call is None,
{
}

/// A notes patch whose version filter matched no version, or more than
/// one, aborts with `AmbiguousOrMissingVersion` and issues nothing more.
pub proof fn lemma_ios_version_ambiguity_aborts(
    pre: IosPhase,
    post: IosPhase,
    call: Option<IosCall>,
    b: Json,
    list: Seq<crate::app_store_datasource::AppStoreVersionDataView>,
)
    requires
        spec_ios_step(pre, HttpEvent::Success { body: Some(b) }, post, call),
        pre is AwaitVersions,
        spec_parse_versions_response(b@) == Some(list),
        list.len() != 1,
    ensures
        post == (IosPhase::Aborted { error: StoreError::AmbiguousOrMissingVersion }),
        call is None,
{
}

/// With an empty requested locale, a sole localization is patched, and
/// several localizations abort with `AmbiguousOrMissingLocalization`.
pub proof fn lemma_ios_empty_locale_wildcard(
    locale: String,
    text: String,
    post: IosPhase,
    call: Option<IosCall>,
    b: Json,
    locs: Seq<
        crate::app_store_datasource::AppStoreVersionLocalizationDataView<
            crate::app_store_datasource::AppStoreVersionLocalizationAttributesView,
        >,
    >,
)
    requires
        spec_ios_step(
            IosPhase::AwaitLocalizations { locale, text },
            HttpEvent::Success { body: Some(b) },
            post,
            call,
        ),
        locale@.len() == 0,
        spec_parse_locs_response(b@) == Some(locs),
    ensures
        locs.len() == 1 ==> post == IosPhase::AwaitPatch && (call matches Some(
            IosCall::PatchLocalization { localization_id, text: t },
        ) && localization_id@ == locs[0].id && t@ == text@),
        locs.len() != 1 ==> post == (
        IosPhase::Aborted { error: StoreError::AmbiguousOrMissingLocalization }) && call is None,
{
}

} // verus!
