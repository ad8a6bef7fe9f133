use giggles::login::{
    login_step, LoginAction, PollEvent,
    browser_warning, confirm_prompt, login_timed_out, normalize_server, poll_decision, LoginFailure,
    PollDecision,
};

#[test]
fn normalize_strips_trailing_slashes() {
    assert_eq!(normalize_server("https://gggl.es///"), "https://gggl.es");
    assert_eq!(normalize_server("https://gggl.es"), "https://gggl.es");
    assert_eq!(normalize_server("///"), "");
    assert_eq!(normalize_server("https://gggl.es/a/"), "https://gggl.es/a");
}

#[test]
fn timeout_after_ten_minutes() {
    assert!(!login_timed_out(0, 0));
    assert!(!login_timed_out(600, 0));
    assert!(login_timed_out(600, 1));
    assert!(login_timed_out(601, 0));
}

#[test]
fn poll_approved_saves_normalized_server() {
    match poll_decision("https://gggl.es/", "approved", Some("key".to_string())) {
        PollDecision::Approved(c) => {
            assert_eq!(c.server, "https://gggl.es");
            assert_eq!(c.api_key, "key");
        }
        _ => panic!("expected approval"),
    }
    assert!(matches!(poll_decision("s", "approved", None), PollDecision::MissingKey));
    assert!(matches!(poll_decision("s", "expired", None), PollDecision::Expired));
    assert!(matches!(poll_decision("s", "pending", None), PollDecision::Pending));
    assert!(matches!(poll_decision("s", "Approved", Some("k".into())), PollDecision::Pending));
}

#[test]
fn login_messages() {
    assert_eq!(LoginFailure::TimedOut.message(), "Timed out waiting for authorization");
    assert_eq!(LoginFailure::Expired.message(), "Code expired. Run `giggles login` again.");
    assert_eq!(LoginFailure::MissingKey.message(), "Server approved but sent no key");
    assert_eq!(LoginFailure::ServerError("500 Internal Server Error".into()).message(), "Server error: 500 Internal Server Error");
    assert_eq!(LoginFailure::ClientUnavailable.message(), "Failed to create HTTP client");
    assert_eq!(LoginFailure::ServerUnreachable.message(), "Failed to reach server");
    assert_eq!(LoginFailure::InvalidResponse.message(), "Invalid response from server");
    assert_eq!(LoginFailure::PollFailed.message(), "Poll request failed");
    assert_eq!(LoginFailure::InvalidPoll.message(), "Invalid poll response");
    assert_eq!(confirm_prompt("ABCD"), "confirm code ABCD in your browser");
    assert_eq!(browser_warning("no display"), "Could not open browser: no display");
}

#[test]
fn normalize_twice_is_normalize_once() {
    for s in ["https://gggl.es//", "a", "/", ""] {
        let once = normalize_server(s);
        assert_eq!(normalize_server(&once), once);
        assert!(!once.ends_with('/'));
    }
}

#[test]
fn login_step_drives_polling() {
    assert!(matches!(login_step("s", PollEvent::Clock(5, 0)), LoginAction::SleepAndPoll));
    assert!(matches!(login_step("s", PollEvent::Clock(600, 1)), LoginAction::Fail(LoginFailure::TimedOut)));
    assert!(matches!(login_step("s", PollEvent::Answered(200)), LoginAction::ReadReply));
    assert!(matches!(login_step("s", PollEvent::Answered(503)), LoginAction::CheckClock));
    assert!(matches!(login_step("s", PollEvent::Reply("pending".into(), None)), LoginAction::CheckClock));
    assert!(matches!(login_step("s", PollEvent::Reply("expired".into(), None)), LoginAction::Fail(LoginFailure::Expired)));
    assert!(matches!(login_step("s", PollEvent::Reply("approved".into(), None)), LoginAction::Fail(LoginFailure::MissingKey)));
    match login_step("https://gggl.es/", PollEvent::Reply("approved".into(), Some("k".into()))) {
        LoginAction::Save(c) => assert_eq!((c.server.as_str(), c.api_key.as_str()), ("https://gggl.es", "k")),
        _ => panic!("expected save"),
    }
}
