use session_capture::auth::Credentials;
use session_capture::page::Page;
use session_capture::session::{
    login_marker_text, page_mode, Command, Event, FailReason, PageMode, Session, SessionState,
    WaitOutcome,
};
use session_capture::text::contains_str;

fn fresh(url: &str) -> Session {
    Session::new(
        url.to_string(),
        Credentials { userid: "rs".to_string(), password: "secret".to_string() },
    )
}

#[test]
fn contains_finds_login_marker() {
    assert!(contains_str("Login - App", login_marker_text()));
    assert!(!contains_str("Dashboard - App", login_marker_text()));
    assert!(contains_str("anything", ""));
}

#[test]
fn page_mode_classification() {
    assert_eq!(page_mode("Login - App"), PageMode::LoginChallenge);
    assert_eq!(page_mode("Home - App"), PageMode::Ready);
    assert_eq!(page_mode(""), PageMode::Ready);
}

#[test]
fn begin_commands_navigation_to_target() {
    let mut s = fresh("https://example.test/district/1");
    match s.step(Event::Begin) {
        Command::Navigate { url } => assert_eq!(url, "https://example.test/district/1"),
        _ => panic!("expected a navigation command"),
    }
}

#[test]
fn end_to_end_login_run_reaches_done() {
    let mut s = fresh("https://example.test/app");
    assert!(matches!(s.step(Event::Begin), Command::Navigate { .. }));
    assert!(matches!(s.step(Event::Navigated { ok: true }), Command::AwaitReady));
    assert!(matches!(
        s.step(Event::InitialReady { outcome: WaitOutcome::Ready }),
        Command::ReadTitle
    ));
    assert!(matches!(
        s.step(Event::TitleRead { title: Some("Login - App".to_string()) }),
        Command::ReadCookie
    ));
    let fills = match s.step(Event::CookieChecked { value: None }) {
        Command::LocateForm => {
            let names = vec![
                Some("login-userid".to_string()),
                Some("login-password".to_string()),
                Some("remember".to_string()),
            ];
            match s.step(Event::FormInputs { names: Some(names) }) {
                Command::FillFields { fills } => fills,
                _ => panic!("expected a fill command"),
            }
        },
        _ => panic!("expected the login form to be queried"),
    };
    assert_eq!(fills.len(), 2);
    assert_eq!(fills[0].text, "rs");
    assert_eq!(fills[1].text, "secret");
    assert!(matches!(s.step(Event::FieldsFilled { ok: true }), Command::AwaitSubmit));
    let mut clicks = 0;
    match s.step(Event::SubmitReady { outcome: WaitOutcome::Ready }) {
        Command::ClickSubmit => clicks += 1,
        _ => panic!("expected the submit click"),
    }
    assert_eq!(clicks, 1);
    assert!(matches!(s.step(Event::SubmitClicked { ok: true }), Command::ReadCookie));
    assert!(matches!(
        s.step(Event::CookieChecked { value: Some("session-set".to_string()) }),
        Command::ReadSource
    ));
    assert!(matches!(
        s.step(Event::SourceRead { source: Some("<html>home</html>".to_string()) }),
        Command::TakeScreenshot
    ));
    let page: Page = match s.step(Event::ScreenshotTaken { image: Some(vec![4, 5, 6]) }) {
        Command::Finish { page } => page,
        _ => panic!("expected the finished capture record"),
    };
    assert_eq!(s.state, SessionState::Done);
    assert_eq!(page.url, "https://example.test/app");
    assert_eq!(page.title, "Login - App");
    assert_eq!(page.source, "<html>home</html>");
    assert!(!page.screenshot.unwrap().is_empty());
}

#[test]
fn title_without_marker_skips_authentication() {
    let mut s = fresh("https://example.test/app");
    s.step(Event::Begin);
    s.step(Event::Navigated { ok: true });
    s.step(Event::InitialReady { outcome: WaitOutcome::Ready });
    s.step(Event::TitleRead { title: Some("Dashboard - App".to_string()) });
    // No form query: the session moves straight to capture.
    assert!(matches!(
        s.step(Event::CookieChecked { value: None }),
        Command::ReadSource
    ));
    assert!(matches!(s.state, SessionState::Capturing { sourced: false }));
}

#[test]
fn readiness_timeout_fails_without_capture() {
    let mut s = fresh("https://example.test/app");
    let c1 = s.step(Event::Begin);
    let c2 = s.step(Event::Navigated { ok: true });
    let c3 = s.step(Event::InitialReady { outcome: WaitOutcome::TimedOut });
    for c in [&c1, &c2, &c3] {
        assert!(!matches!(c, Command::ReadSource));
        assert!(!matches!(c, Command::TakeScreenshot));
        assert!(!matches!(c, Command::Finish { .. }));
    }
    assert!(matches!(c3, Command::Abort { reason: FailReason::ReadinessTimeout }));
    assert_eq!(
        s.state,
        SessionState::Failed { reason: FailReason::ReadinessTimeout }
    );
}

#[test]
fn navigation_failure_aborts_with_driver_error() {
    let mut s = fresh("https://example.test/app");
    s.step(Event::Begin);
    let c = s.step(Event::Navigated { ok: false });
    assert!(matches!(c, Command::Abort { reason: FailReason::DriverError }));
    assert_eq!(s.state, SessionState::Failed { reason: FailReason::DriverError });
}

#[test]
fn missing_login_form_aborts_with_auth_error() {
    let mut s = fresh("https://example.test/app");
    s.step(Event::Begin);
    s.step(Event::Navigated { ok: true });
    s.step(Event::InitialReady { outcome: WaitOutcome::Ready });
    s.step(Event::TitleRead { title: Some("Login - App".to_string()) });
    s.step(Event::CookieChecked { value: None });
    let c = s.step(Event::FormInputs { names: None });
    assert!(matches!(c, Command::Abort { reason: FailReason::AuthError }));
    assert_eq!(s.state, SessionState::Failed { reason: FailReason::AuthError });
}

#[test]
fn submit_wait_timeout_aborts_with_auth_error() {
    let mut s = fresh("https://example.test/app");
    s.step(Event::Begin);
    s.step(Event::Navigated { ok: true });
    s.step(Event::InitialReady { outcome: WaitOutcome::Ready });
    s.step(Event::TitleRead { title: Some("Login".to_string()) });
    s.step(Event::CookieChecked { value: None });
    s.step(Event::FormInputs { names: Some(vec![Some("login-userid".to_string())]) });
    s.step(Event::FieldsFilled { ok: true });
    let c = s.step(Event::SubmitReady { outcome: WaitOutcome::TimedOut });
    assert!(matches!(c, Command::Abort { reason: FailReason::AuthError }));
    assert_eq!(s.state, SessionState::Failed { reason: FailReason::AuthError });
}

#[test]
fn source_read_failure_aborts_with_capture_error() {
    let mut s = fresh("https://example.test/app");
    s.step(Event::Begin);
    s.step(Event::Navigated { ok: true });
    s.step(Event::InitialReady { outcome: WaitOutcome::Ready });
    s.step(Event::TitleRead { title: Some("Plain".to_string()) });
    s.step(Event::CookieChecked { value: None });
    let c = s.step(Event::SourceRead { source: None });
    assert!(matches!(c, Command::Abort { reason: FailReason::CaptureError }));
    assert_eq!(s.state, SessionState::Failed { reason: FailReason::CaptureError });
}

#[test]
fn screenshot_failure_aborts_without_record() {
    let mut s = fresh("https://example.test/app");
    s.step(Event::Begin);
    s.step(Event::Navigated { ok: true });
    s.step(Event::InitialReady { outcome: WaitOutcome::Ready });
    s.step(Event::TitleRead { title: Some("Plain".to_string()) });
    s.step(Event::CookieChecked { value: None });
    s.step(Event::SourceRead { source: Some("<html></html>".to_string()) });
    let c = s.step(Event::ScreenshotTaken { image: None });
    assert!(!matches!(c, Command::Finish { .. }));
    assert!(matches!(c, Command::Abort { reason: FailReason::CaptureError }));
    assert_eq!(s.state, SessionState::Failed { reason: FailReason::CaptureError });
}

#[test]
fn failed_fill_aborts_with_auth_error() {
    let mut s = fresh("https://example.test/app");
    s.step(Event::Begin);
    s.step(Event::Navigated { ok: true });
    s.step(Event::InitialReady { outcome: WaitOutcome::Ready });
    s.step(Event::TitleRead { title: Some("Login".to_string()) });
    s.step(Event::CookieChecked { value: None });
    s.step(Event::FormInputs { names: Some(vec![]) });
    let c = s.step(Event::FieldsFilled { ok: false });
    assert!(matches!(c, Command::Abort { reason: FailReason::AuthError }));
    assert_eq!(s.state, SessionState::Failed { reason: FailReason::AuthError });
}
