//! The session state machine: one `navigate` run against a single browser
//! driver.
//!
//! The orchestrator never talks to the driver itself. It is stepped: the
//! caller hands it the outcome of the last driver operation as an [`Event`]
//! and receives the next [`Command`] to perform. The transition relation
//! [`step_rel`] pins every step down exactly: which state follows, which
//! command is issued, and that a capture record is produced only at the very
//! end of an entirely successful run.

use vstd::prelude::*;
use vstd::pervasive::unreached;
use crate::auth::Credentials;
use crate::auth::FieldFill;
use crate::auth::fill_plan;
use crate::auth::plan_fills;
use crate::page::Page;
use crate::text::contains_seq;
use crate::text::contains_str;

verus! {

/// Why a session run ended in `Failed`.
#[derive(Clone, Copy, Debug, PartialEq, Eq, Structural)]
pub enum FailReason {
    /// An underlying driver operation failed outright.
    DriverError,
    /// The bounded wait for the initial readiness predicate expired.
    ReadinessTimeout,
    /// The login form or its expected controls could not be located or
    /// driven.
    AuthError,
    /// Reading the page source or taking the screenshot failed after an
    /// otherwise successful run.
    CaptureError,
}

/// Outcome of a bounded wait on a DOM predicate.
#[derive(Clone, Copy, Debug, PartialEq, Eq, Structural)]
pub enum WaitOutcome {
    /// The predicate was met within the bound.
    Ready,
    /// The bound expired with the predicate unmet.
    TimedOut,
    /// The driver failed before the bound expired.
    Fault,
}

/// Sub-phase of the authentication branch.
#[derive(Clone, Copy, Debug, PartialEq, Eq, Structural)]
pub enum AuthPhase {
    /// Locating the login form and enumerating its inputs.
    Locate,
    /// Injecting credential text into the classified inputs.
    Fill,
    /// Waiting for the submit control to become enabled.
    AwaitSubmit,
    /// Clicking the submit control.
    Click,
}

/// The orchestrator's state. `Done` and `Failed` are terminal; every other
/// state names the one driver operation whose outcome the session is
/// waiting for.
#[derive(Clone, Copy, Debug, PartialEq, Eq, Structural)]
pub enum SessionState {
    /// Fresh session; navigation has not been issued.
    Init,
    /// Navigation issued (`navigated: false`) or the initial readiness wait
    /// issued (`navigated: true`).
    AwaitingInitialReady { navigated: bool },
    /// Title read issued (`titled: false`) or the diagnostic cookie read
    /// issued (`titled: true`).
    DetectingAuth { titled: bool },
    /// The authentication branch, entered only on a login challenge.
    AuthInProgress { phase: AuthPhase },
    /// Submit clicked; the post-authentication diagnostic cookie read is
    /// pending.
    AwaitingPostAuthReady,
    /// Page-source read issued (`sourced: false`) or screenshot issued
    /// (`sourced: true`).
    Capturing { sourced: bool },
    /// The run succeeded and the capture record was handed out.
    Done,
    /// The run aborted; no capture record was produced.
    Failed { reason: FailReason },
}

/// What the driver reported for the operation the session was waiting for.
/// A `None` payload or a `false` flag reports that the operation failed.
pub enum Event {
    /// The caller starts the run.
    Begin,
    /// Navigation to the target completed or failed.
    Navigated { ok: bool },
    /// The bounded wait for the initial readiness predicate resolved.
    InitialReady { outcome: WaitOutcome },
    /// The page title was read, or the read failed.
    TitleRead { title: Option<String> },
    /// The diagnostic session-cookie read resolved; purely observational,
    /// its value never steers the run.
    CookieChecked { value: Option<String> },
    /// The login form was located and its inputs' `name` attributes were
    /// collected, or the lookup failed.
    FormInputs { names: Option<Vec<Option<String>>> },
    /// The planned credential injections were all sent, or one failed.
    FieldsFilled { ok: bool },
    /// The bounded wait for the submit control's enabled state resolved.
    SubmitReady { outcome: WaitOutcome },
    /// The submit control was clicked, or the click failed.
    SubmitClicked { ok: bool },
    /// The page source was read, or the read failed.
    SourceRead { source: Option<String> },
    /// The screenshot was taken, or the capture failed.
    ScreenshotTaken { image: Option<Vec<u8>> },
}

/// The next driver operation the caller must perform, or the terminal
/// outcome of the run.
pub enum Command {
    /// Navigate to the given target.
    Navigate { url: String },
    /// Wait, bounded, for the readiness attribute on the document body to
    /// reach its expected value.
    AwaitReady,
    /// Read the page title.
    ReadTitle,
    /// Read the session cookie; diagnostic only.
    ReadCookie,
    /// Locate the login form and collect its inputs' `name` attributes.
    LocateForm,
    /// Send the given credential text to the given inputs.
    FillFields { fills: Vec<FieldFill> },
    /// Wait, bounded, for the submit control to become enabled.
    AwaitSubmit,
    /// Click the submit control, exactly once.
    ClickSubmit,
    /// Read the full page source.
    ReadSource,
    /// Take a screenshot of the page.
    TakeScreenshot,
    /// Terminal: the run succeeded and this is its capture record.
    Finish { page: Page },
    /// Terminal: the run failed; no capture record exists.
    Abort { reason: FailReason },
}

/// The substring of a page title that marks a login challenge.
pub open spec fn login_marker() -> Seq<char> {
    "Login"@
}

/// The login marker as the caller sees it.
pub fn login_marker_text() -> (r: &'static str)
    ensures
        r@ == login_marker(),
{
    "Login"
}

/// What a page title says about the session: a login challenge to resolve,
/// or target content that is ready to capture.
#[derive(Clone, Copy, Debug, PartialEq, Eq, Structural)]
pub enum PageMode {
    LoginChallenge,
    Ready,
}

/// The classification of a title: a login challenge exactly when the title
/// contains the login marker.
pub open spec fn page_mode_of(title: Seq<char>) -> PageMode {
    if contains_seq(title, login_marker()) {
        PageMode::LoginChallenge
    } else {
        PageMode::Ready
    }
}

/// Classify a page title.
pub fn page_mode(title: &str) -> (m: PageMode)
    ensures
        m == page_mode_of(title@),
{
    if contains_str(title, "Login") {
        PageMode::LoginChallenge
    } else {
        PageMode::Ready
    }
}

/// States in which the session has read and stored the page title.
pub open spec fn state_has_title(st: SessionState) -> bool {
    match st {
        SessionState::DetectingAuth { titled } => titled,
        SessionState::AuthInProgress { .. } => true,
        SessionState::AwaitingPostAuthReady => true,
        SessionState::Capturing { .. } => true,
        _ => false,
    }
}

/// States in which the session has read and stored the page source.
pub open spec fn state_has_source(st: SessionState) -> bool {
    st matches SessionState::Capturing { sourced: true }
}

/// Which event a state is waiting for. Terminal states accept none: a run
/// that is `Done` or `Failed` is over, and a caller wanting another capture
/// starts a fresh session.
pub open spec fn event_fits(st: SessionState, e: Event) -> bool {
    match st {
        SessionState::Init => e is Begin,
        SessionState::AwaitingInitialReady { navigated: false } => e is Navigated,
        SessionState::AwaitingInitialReady { navigated: true } => e is InitialReady,
        SessionState::DetectingAuth { titled: false } => e is TitleRead,
        SessionState::DetectingAuth { titled: true } => e is CookieChecked,
        SessionState::AuthInProgress { phase: AuthPhase::Locate } => e is FormInputs,
        SessionState::AuthInProgress { phase: AuthPhase::Fill } => e is FieldsFilled,
        SessionState::AuthInProgress { phase: AuthPhase::AwaitSubmit } => e is SubmitReady,
        SessionState::AuthInProgress { phase: AuthPhase::Click } => e is SubmitClicked,
        SessionState::AwaitingPostAuthReady => e is CookieChecked,
        SessionState::Capturing { sourced: false } => e is SourceRead,
        SessionState::Capturing { sourced: true } => e is ScreenshotTaken,
        SessionState::Done => false,
        SessionState::Failed { .. } => false,
    }
}

/// One `navigate` run. Owns its state exclusively; nothing of it is shared
/// across runs, and a terminal state ends the run for good.
pub struct Session {
    pub state: SessionState,
    pub url: String,
    pub credentials: Credentials,
    pub title: Option<String>,
    pub source: Option<String>,
}

impl Session {
    /// The session's invariant: the target is non-empty, and the title and
    /// source are stored exactly from the state in which they were read.
    pub open spec fn wf(self) -> bool {
        &&& self.url@.len() > 0
        &&& (state_has_title(self.state) ==> self.title is Some)
        &&& (state_has_source(self.state) ==> self.source is Some)
    }

    /// Start a fresh run against the given target with the given credential
    /// configuration.
    pub fn new(url: String, credentials: Credentials) -> (s: Session)
        requires
            url@.len() > 0,
        ensures
            s.state == SessionState::Init,
            s.url == url,
            s.credentials == credentials,
            s.title is None,
            s.source is None,
            s.wf(),
    {
        Session { state: SessionState::Init, url, credentials, title: None, source: None }
    }
}

/// `pre` with only the state replaced.
pub open spec fn with_state(pre: Session, st: SessionState) -> Session {
    Session { state: st, ..pre }
}

/// `pre` aborted with the given reason.
pub open spec fn failed(pre: Session, r: FailReason) -> Session {
    Session { state: SessionState::Failed { reason: r }, ..pre }
}

/// The exact transition relation of one step: given the pre-state and the
/// event, which session value and which command must come out.
pub open spec fn step_rel(pre: Session, event: Event, post: Session, cmd: Command) -> bool {
    match pre.state {
        SessionState::Init => {
            &&& post == with_state(
                pre,
                SessionState::AwaitingInitialReady { navigated: false },
            )
            &&& cmd matches Command::Navigate { url } && url == pre.url
        },
        SessionState::AwaitingInitialReady { navigated: false } => match event {
            Event::Navigated { ok: true } => {
                &&& post == with_state(
                    pre,
                    SessionState::AwaitingInitialReady { navigated: true },
                )
                &&& cmd is AwaitReady
            },
            Event::Navigated { ok: false } => {
                &&& post == failed(pre, FailReason::DriverError)
                &&& cmd == (Command::Abort { reason: FailReason::DriverError })
            },
            _ => false,
        },
        SessionState::AwaitingInitialReady { navigated: true } => match event {
            Event::InitialReady { outcome: WaitOutcome::Ready } => {
                &&& post == with_state(pre, SessionState::DetectingAuth { titled: false })
                &&& cmd is ReadTitle
            },
            Event::InitialReady { outcome: WaitOutcome::TimedOut } => {
                &&& post == failed(pre, FailReason::ReadinessTimeout)
                &&& cmd == (Command::Abort { reason: FailReason::ReadinessTimeout })
            },
            Event::InitialReady { outcome: WaitOutcome::Fault } => {
                &&& post == failed(pre, FailReason::DriverError)
                &&& cmd == (Command::Abort { reason: FailReason::DriverError })
            },
            _ => false,
        },
        SessionState::DetectingAuth { titled: false } => match event {
            Event::TitleRead { title: Some(t) } => {
                &&& post == (Session {
                    state: SessionState::DetectingAuth { titled: true },
                    title: Some(t),
                    ..pre
                })
                &&& cmd is ReadCookie
            },
            Event::TitleRead { title: None } => {
                &&& post == failed(pre, FailReason::DriverError)
                &&& cmd == (Command::Abort { reason: FailReason::DriverError })
            },
            _ => false,
        },
        SessionState::DetectingAuth { titled: true } => match (event, pre.title) {
            (Event::CookieChecked { .. }, Some(t)) => {
                if page_mode_of(t@) is LoginChallenge {
                    &&& post == with_state(
                        pre,
                        SessionState::AuthInProgress { phase: AuthPhase::Locate },
                    )
                    &&& cmd is LocateForm
                } else {
                    &&& post == with_state(pre, SessionState::Capturing { sourced: false })
                    &&& cmd is ReadSource
                }
            },
            _ => false,
        },
        SessionState::AuthInProgress { phase: AuthPhase::Locate } => match event {
            Event::FormInputs { names: Some(ns) } => {
                &&& post == with_state(
                    pre,
                    SessionState::AuthInProgress { phase: AuthPhase::Fill },
                )
                &&& cmd matches Command::FillFields { fills } && fills@ == fill_plan(
                    ns@,
                    pre.credentials,
                )
            },
            Event::FormInputs { names: None } => {
                &&& post == failed(pre, FailReason::AuthError)
                &&& cmd == (Command::Abort { reason: FailReason::AuthError })
            },
            _ => false,
        },
        SessionState::AuthInProgress { phase: AuthPhase::Fill } => match event {
            Event::FieldsFilled { ok: true } => {
                &&& post == with_state(
                    pre,
                    SessionState::AuthInProgress { phase: AuthPhase::AwaitSubmit },
                )
                &&& cmd is AwaitSubmit
            },
            Event::FieldsFilled { ok: false } => {
                &&& post == failed(pre, FailReason::AuthError)
                &&& cmd == (Command::Abort { reason: FailReason::AuthError })
            },
            _ => false,
        },
        SessionState::AuthInProgress { phase: AuthPhase::AwaitSubmit } => match event {
            Event::SubmitReady { outcome: WaitOutcome::Ready } => {
                &&& post == with_state(
                    pre,
                    SessionState::AuthInProgress { phase: AuthPhase::Click },
                )
                &&& cmd is ClickSubmit
            },
            Event::SubmitReady { outcome: WaitOutcome::TimedOut } | Event::SubmitReady {
                outcome: WaitOutcome::Fault,
            } => {
                &&& post == failed(pre, FailReason::AuthError)
                &&& cmd == (Command::Abort { reason: FailReason::AuthError })
            },
            _ => false,
        },
        SessionState::AuthInProgress { phase: AuthPhase::Click } => match event {
            Event::SubmitClicked { ok: true } => {
                &&& post == with_state(pre, SessionState::AwaitingPostAuthReady)
                &&& cmd is ReadCookie
            },
            Event::SubmitClicked { ok: false } => {
                &&& post == failed(pre, FailReason::AuthError)
                &&& cmd == (Command::Abort { reason: FailReason::AuthError })
            },
            _ => false,
        },
        // No second bounded readiness wait follows the click before capture
        // begins; the capture may observe the page mid-transition. This is
        // the observed behavior, kept as such rather than silently repaired.
        SessionState::AwaitingPostAuthReady => match event {
            Event::CookieChecked { .. } => {
                &&& post == with_state(pre, SessionState::Capturing { sourced: false })
                &&& cmd is ReadSource
            },
            _ => false,
        },
        SessionState::Capturing { sourced: false } => match event {
            Event::SourceRead { source: Some(src) } => {
                &&& post == (Session {
                    state: SessionState::Capturing { sourced: true },
                    source: Some(src),
                    ..pre
                })
                &&& cmd is TakeScreenshot
            },
            Event::SourceRead { source: None } => {
                &&& post == failed(pre, FailReason::CaptureError)
                &&& cmd == (Command::Abort { reason: FailReason::CaptureError })
            },
            _ => false,
        },
        SessionState::Capturing { sourced: true } => match (event, pre.title, pre.source) {
            (Event::ScreenshotTaken { image: Some(img) }, Some(t), Some(src)) => {
                &&& post == with_state(pre, SessionState::Done)
                &&& cmd matches Command::Finish { page } && page == (Page {
                    url: pre.url,
                    title: t,
                    source: src,
                    screenshot: Some(img),
                })
            },
            (Event::ScreenshotTaken { image: None }, _, _) => {
                &&& post == failed(pre, FailReason::CaptureError)
                &&& cmd == (Command::Abort { reason: FailReason::CaptureError })
            },
            _ => false,
        },
        SessionState::Done => false,
        SessionState::Failed { .. } => false,
    }
}

impl Session {
    /// Perform one step: consume the outcome of the last driver operation
    /// and say what to do next. The caller must feed exactly the event the
    /// current state waits for; the whole run is sequential by design.
    pub fn step(&mut self, event: Event) -> (cmd: Command)
        requires
            old(self).wf(),
            event_fits(old(self).state, event),
        ensures
            final(self).wf(),
            step_rel(*old(self), event, *final(self), cmd),
    {
        let st = self.state;
        match st {
            SessionState::Init => {
                self.state = SessionState::AwaitingInitialReady { navigated: false };
                Command::Navigate { url: self.url.clone() }
            },
            SessionState::AwaitingInitialReady { navigated: false } => match event {
                Event::Navigated { ok } => {
                    if ok {
                        self.state = SessionState::AwaitingInitialReady { navigated: true };
                        Command::AwaitReady
                    } else {
                        self.state = SessionState::Failed { reason: FailReason::DriverError };
                        Command::Abort { reason: FailReason::DriverError }
                    }
                },
                _ => unreached(),
            },
            SessionState::AwaitingInitialReady { navigated: true } => match event {
                Event::InitialReady { outcome } => match outcome {
                    WaitOutcome::Ready => {
                        self.state = SessionState::DetectingAuth { titled: false };
                        Command::ReadTitle
                    },
                    WaitOutcome::TimedOut => {
                        self.state = SessionState::Failed {
                            reason: FailReason::ReadinessTimeout,
                        };
                        Command::Abort { reason: FailReason::ReadinessTimeout }
                    },
                    WaitOutcome::Fault => {
                        self.state = SessionState::Failed { reason: FailReason::DriverError };
                        Command::Abort { reason: FailReason::DriverError }
                    },
                },
                _ => unreached(),
            },
            SessionState::DetectingAuth { titled: false } => match event {
                Event::TitleRead { title } => match title {
                    Some(t) => {
                        self.title = Some(t);
                        self.state = SessionState::DetectingAuth { titled: true };
                        Command::ReadCookie
                    },
                    None => {
                        self.state = SessionState::Failed { reason: FailReason::DriverError };
                        Command::Abort { reason: FailReason::DriverError }
                    },
                },
                _ => unreached(),
            },
            SessionState::DetectingAuth { titled: true } => match event {
                Event::CookieChecked { .. } => {
                    let mode = match &self.title {
                        Some(t) => page_mode(t.as_str()),
                        None => unreached(),
                    };
                    if matches!(mode, PageMode::LoginChallenge) {
                        self.state = SessionState::AuthInProgress { phase: AuthPhase::Locate };
                        Command::LocateForm
                    } else {
                        self.state = SessionState::Capturing { sourced: false };
                        Command::ReadSource
                    }
                },
                _ => unreached(),
            },
            SessionState::AuthInProgress { phase: AuthPhase::Locate } => match event {
                Event::FormInputs { names } => match names {
                    Some(ns) => {
                        let fills = plan_fills(&ns, &self.credentials);
                        self.state = SessionState::AuthInProgress { phase: AuthPhase::Fill };
                        Command::FillFields { fills }
                    },
                    None => {
                        self.state = SessionState::Failed { reason: FailReason::AuthError };
                        Command::Abort { reason: FailReason::AuthError }
                    },
                },
                _ => unreached(),
            },
            SessionState::AuthInProgress { phase: AuthPhase::Fill } => match event {
                Event::FieldsFilled { ok } => {
                    if ok {
                        self.state = SessionState::AuthInProgress {
                            phase: AuthPhase::AwaitSubmit,
                        };
                        Command::AwaitSubmit
                    } else {
                        self.state = SessionState::Failed { reason: FailReason::AuthError };
                        Command::Abort { reason: FailReason::AuthError }
                    }
                },
                _ => unreached(),
            },
            SessionState::AuthInProgress { phase: AuthPhase::AwaitSubmit } => match event {
                Event::SubmitReady { outcome } => match outcome {
                    WaitOutcome::Ready => {
                        self.state = SessionState::AuthInProgress { phase: AuthPhase::Click };
                        Command::ClickSubmit
                    },
                    _ => {
                        self.state = SessionState::Failed { reason: FailReason::AuthError };
                        Command::Abort { reason: FailReason::AuthError }
                    },
                },
                _ => unreached(),
            },
            SessionState::AuthInProgress { phase: AuthPhase::Click } => match event {
                Event::SubmitClicked { ok } => {
                    if ok {
                        self.state = SessionState::AwaitingPostAuthReady;
                        Command::ReadCookie
                    } else {
                        self.state = SessionState::Failed { reason: FailReason::AuthError };
                        Command::Abort { reason: FailReason::AuthError }
                    }
                },
                _ => unreached(),
            },
            SessionState::AwaitingPostAuthReady => match event {
                Event::CookieChecked { .. } => {
                    self.state = SessionState::Capturing { sourced: false };
                    Command::ReadSource
                },
                _ => unreached(),
            },
            SessionState::Capturing { sourced: false } => match event {
                Event::SourceRead { source } => match source {
                    Some(src) => {
                        self.source = Some(src);
                        self.state = SessionState::Capturing { sourced: true };
                        Command::TakeScreenshot
                    },
                    None => {
                        self.state = SessionState::Failed { reason: FailReason::CaptureError };
                        Command::Abort { reason: FailReason::CaptureError }
                    },
                },
                _ => unreached(),
            },
            SessionState::Capturing { sourced: true } => match event {
                Event::ScreenshotTaken { image } => match image {
                    Some(img) => {
                        let t = match &self.title {
                            Some(t) => t.clone(),
                            None => unreached(),
                        };
                        let src = match &self.source {
                            Some(s) => s.clone(),
                            None => unreached(),
                        };
                        let url = self.url.clone();
                        self.state = SessionState::Done;
                        Command::Finish {
                            page: Page { url, title: t, source: src, screenshot: Some(img) },
                        }
                    },
                    None => {
                        self.state = SessionState::Failed { reason: FailReason::CaptureError };
                        Command::Abort { reason: FailReason::CaptureError }
                    },
                },
                _ => unreached(),
            },
            SessionState::Done => unreached(),
            SessionState::Failed { .. } => unreached(),
        }
    }
}

/// Events that report a failed driver operation. The diagnostic cookie
/// reads have no failing shape: their outcome never steers the run.
pub open spec fn is_failure_event(e: Event) -> bool {
    match e {
        Event::Begin => false,
        Event::Navigated { ok } => !ok,
        Event::InitialReady { outcome } => !(outcome is Ready),
        Event::TitleRead { title } => title is None,
        Event::CookieChecked { .. } => false,
        Event::FormInputs { names } => names is None,
        Event::FieldsFilled { ok } => !ok,
        Event::SubmitReady { outcome } => !(outcome is Ready),
        Event::SubmitClicked { ok } => !ok,
        Event::SourceRead { source } => source is None,
        Event::ScreenshotTaken { image } => image is None,
    }
}

/// A step fed a failure outcome always ends the run in `Failed` and never
/// hands out a capture record.
pub proof fn lemma_failure_never_finishes(pre: Session, event: Event, post: Session, cmd: Command)
    requires
        pre.wf(),
        event_fits(pre.state, event),
        step_rel(pre, event, post, cmd),
        is_failure_event(event),
    ensures
        post.state matches SessionState::Failed { .. },
        cmd matches Command::Abort { .. },
        !(cmd matches Command::Finish { .. }),
{
}

/// A capture record comes out only from the last capturing step, only on a
/// successful screenshot, and it is exactly the record of this run: the
/// session's own target, the title and source read earlier in the run, and
/// the screenshot just taken.
pub proof fn lemma_finish_only_on_success(pre: Session, event: Event, post: Session, cmd: Command)
    requires
        pre.wf(),
        event_fits(pre.state, event),
        step_rel(pre, event, post, cmd),
        cmd matches Command::Finish { .. },
    ensures
        pre.state == (SessionState::Capturing { sourced: true }),
        event matches Event::ScreenshotTaken { image } && image is Some,
        post.state == SessionState::Done,
        cmd matches Command::Finish { page } && page.wf() && page.url == pre.url,
{
}

/// Whether the session's stored title contains the login marker.
pub open spec fn title_has_marker(s: Session) -> bool {
    match s.title {
        Some(t) => contains_seq(t@, login_marker()),
        None => false,
    }
}

/// The authentication branch is entered exactly when the stored page title
/// contains the login marker: the form is queried in no other case.
pub proof fn lemma_auth_entered_only_on_marker(
    pre: Session,
    event: Event,
    post: Session,
    cmd: Command,
)
    requires
        pre.wf(),
        event_fits(pre.state, event),
        step_rel(pre, event, post, cmd),
    ensures
        cmd is LocateForm <==> (pre.state == (SessionState::DetectingAuth { titled: true })
            && title_has_marker(pre)),
        post.state == (SessionState::AuthInProgress { phase: AuthPhase::Locate })
            ==> title_has_marker(pre),
{
}

/// Terminal states accept no further event: a run that is `Done` or
/// `Failed` is over, so after a failure no operation — in particular no
/// source read and no screenshot — is ever commanded again.
pub proof fn lemma_terminal_states_absorb(st: SessionState, e: Event)
    requires
        st is Done || st matches SessionState::Failed { .. },
    ensures
        !event_fits(st, e),
{
}

/// A linear order on states, used to show that a run never revisits a
/// state.
pub open spec fn rank(st: SessionState) -> int {
    match st {
        SessionState::Init => 0,
        SessionState::AwaitingInitialReady { navigated: false } => 1,
        SessionState::AwaitingInitialReady { navigated: true } => 2,
        SessionState::DetectingAuth { titled: false } => 3,
        SessionState::DetectingAuth { titled: true } => 4,
        SessionState::AuthInProgress { phase: AuthPhase::Locate } => 5,
        SessionState::AuthInProgress { phase: AuthPhase::Fill } => 6,
        SessionState::AuthInProgress { phase: AuthPhase::AwaitSubmit } => 7,
        SessionState::AuthInProgress { phase: AuthPhase::Click } => 8,
        SessionState::AwaitingPostAuthReady => 9,
        SessionState::Capturing { sourced: false } => 10,
        SessionState::Capturing { sourced: true } => 11,
        SessionState::Done => 12,
        SessionState::Failed { .. } => 13,
    }
}

/// Every step strictly advances the state order, so a run passes each state
/// at most once and issues each driver operation at most once; in
/// particular the submit control, clicked only out of the one state that
/// commands it, is clicked at most once per run.
pub proof fn lemma_step_strictly_advances(pre: Session, event: Event, post: Session, cmd: Command)
    requires
        pre.wf(),
        event_fits(pre.state, event),
        step_rel(pre, event, post, cmd),
    ensures
        rank(post.state) > rank(pre.state),
{
}

/// A timeout of the initial readiness wait aborts the run with
/// `ReadinessTimeout`; and since source and screenshot reads are commanded
/// only out of capturing states, which such a run never reaches, neither is
/// ever requested.
pub proof fn lemma_readiness_timeout_aborts(
    pre: Session,
    event: Event,
    post: Session,
    cmd: Command,
)
    requires
        pre.wf(),
        event_fits(pre.state, event),
        step_rel(pre, event, post, cmd),
        pre.state == (SessionState::AwaitingInitialReady { navigated: true }),
        event == (Event::InitialReady { outcome: WaitOutcome::TimedOut }),
    ensures
        post.state == (SessionState::Failed { reason: FailReason::ReadinessTimeout }),
        cmd == (Command::Abort { reason: FailReason::ReadinessTimeout }),
{
}

/// Capture operations are commanded only on the way into the capturing
/// phase: a run that never reaches it never has its source read or its
/// screenshot taken.
pub proof fn lemma_capture_commands_only_in_capturing(
    pre: Session,
    event: Event,
    post: Session,
    cmd: Command,
)
    requires
        pre.wf(),
        event_fits(pre.state, event),
        step_rel(pre, event, post, cmd),
    ensures
        cmd is ReadSource ==> post.state == (SessionState::Capturing { sourced: false }),
        cmd is TakeScreenshot ==> post.state == (SessionState::Capturing { sourced: true }),
{
}

} // verus!
