//! The decisions of a device login: when to give up, what a poll answer
//! means, and under which server name the key is stored.

use vstd::prelude::*;
use crate::config::Config;
use crate::text::{chars_of, concat, concat3, str_eq};

verus! {

/// `s` without the `/` characters it ends with.
pub open spec fn strip_trailing_slashes(s: Seq<char>) -> Seq<char>
    decreases s.len(),
{
    if s.len() > 0 && s.last() == '/' {
        strip_trailing_slashes(s.drop_last())
    } else {
        s
    }
}

/// The server name a key is stored under: the server as given, without
/// trailing `/` characters.
pub fn normalize_server(server: &str) -> (s: String)
    ensures
        s@ == strip_trailing_slashes(server@),
{
    let v = chars_of(server);
    let mut end: usize = v.len();
    assert(server@.subrange(0, end as int) =~= server@);
    while end > 0 && v[end - 1] == '/'
        invariant
            v@ == server@,
            end <= v@.len(),
            strip_trailing_slashes(server@) == strip_trailing_slashes(server@.subrange(0, end as int)),
        decreases end,
    {
        assert(server@.subrange(0, end as int).drop_last() =~= server@.subrange(0, end - 1));
        end = end - 1;
    }
    String::from_str(server.substring_char(0, end))
}

/// A stripped name ends in no `/`, and the stripped characters were all `/`.
pub proof fn lemma_strip_trailing_slashes(s: Seq<char>)
    ensures
        strip_trailing_slashes(s).len() <= s.len(),
        strip_trailing_slashes(s).len() == 0 || strip_trailing_slashes(s).last() != '/',
        strip_trailing_slashes(s) == s.subrange(0, strip_trailing_slashes(s).len() as int),
        forall|i: int|
            strip_trailing_slashes(s).len() <= i < s.len() ==> #[trigger] s[i] == '/',
    decreases s.len(),
{
    if s.len() > 0 && s.last() == '/' {
        lemma_strip_trailing_slashes(s.drop_last());
        let t = strip_trailing_slashes(s.drop_last());
        assert(s.drop_last().subrange(0, t.len() as int) =~= s.subrange(0, t.len() as int));
        assert forall|i: int| t.len() <= i < s.len() implies #[trigger] s[i] == '/' by {
            if i < s.len() - 1 {
                assert(s.drop_last()[i] == s[i]);
            }
        }
    } else {
        assert(s.subrange(0, s.len() as int) =~= s);
    }
}

/// Normalizing a server name twice gives what normalizing once gives.
pub proof fn lemma_normalize_idempotent(s: Seq<char>)
    ensures
        strip_trailing_slashes(strip_trailing_slashes(s)) == strip_trailing_slashes(s),
{
    lemma_strip_trailing_slashes(s);
}

/// Whether a login that has run for `secs` seconds and `nanos` nanoseconds
/// has waited longer than the ten minutes allowed.
pub open spec fn login_timed_out_spec(secs: u64, nanos: u32) -> bool {
    secs > 600 || (secs == 600 && nanos > 0)
}

/// Whether a login that has run for `secs` seconds and `nanos` nanoseconds
/// (the parts of the elapsed `Duration`) has waited too long.
pub fn login_timed_out(secs: u64, nanos: u32) -> (b: bool)
    ensures
        b == login_timed_out_spec(secs, nanos),
        secs < 600 ==> !b,
        secs > 600 ==> b,
        secs == 600 ==> (b <==> nanos > 0),
{
    secs > 600 || (secs == 600 && nanos > 0)
}

/// A login times out exactly when it has run longer than ten minutes:
/// never before 600 seconds whatever the nanoseconds, always after, and at
/// 600 seconds as soon as any nanosecond more has passed.
pub proof fn lemma_login_timeout_is_ten_minutes(secs: u64, nanos: u32)
    ensures
        secs < 600 ==> !login_timed_out_spec(secs, nanos),
        secs > 600 ==> login_timed_out_spec(secs, nanos),
        secs == 600 ==> (login_timed_out_spec(secs, nanos) <==> nanos > 0),
        nanos < 1_000_000_000 ==> (login_timed_out_spec(secs, nanos) <==> secs * 1_000_000_000 + nanos
            > 600_000_000_000),
{
}

/// What a poll answer decides.
pub enum PollDecision {
    /// The login was approved; these credentials are to be saved.
    Approved(Config),
    /// The login was approved but the answer carried no key.
    MissingKey,
    /// The code expired.
    Expired,
    /// Not decided yet; poll again.
    Pending,
}

/// What a poll answer with `status` and `api_key` decides for a login to
/// `server`.
pub fn poll_decision(server: &str, status: &str, api_key: Option<String>) -> (d: PollDecision)
    ensures
        status@ == "approved"@ ==> match api_key {
            Some(k) => (d matches PollDecision::Approved(c) && c.server@ == strip_trailing_slashes(server@)
                && c.api_key@ == k@),
            None => d is MissingKey,
        },
        status@ == "expired"@ ==> d is Expired,
        status@ != "approved"@ && status@ != "expired"@ ==> d is Pending,
{
    proof {
        reveal_strlit("approved");
        reveal_strlit("expired");
        assert("approved"@[0] != "expired"@[0]);
    }
    if str_eq(status, "approved") {
        match api_key {
            Some(k) => PollDecision::Approved(Config { server: normalize_server(server), api_key: k }),
            None => PollDecision::MissingKey,
        }
    } else if str_eq(status, "expired") {
        PollDecision::Expired
    } else {
        PollDecision::Pending
    }
}

/// Why a login failed.
pub enum LoginFailure {
    /// The HTTP client could not be built.
    ClientUnavailable,
    /// The login could not be started.
    ServerUnreachable,
    /// Starting the login was answered with this failing status.
    ServerError(String),
    /// The answer that started the login could not be read.
    InvalidResponse,
    /// Nobody approved within the time allowed.
    TimedOut,
    /// A poll could not be sent.
    PollFailed,
    /// A poll answer could not be read.
    InvalidPoll,
    /// The login was approved but no key came with it.
    MissingKey,
    /// The code expired.
    Expired,
}

/// The message shown for a failed login.
pub open spec fn login_failure_text(f: LoginFailure) -> Seq<char> {
    match f {
        LoginFailure::ClientUnavailable => "Failed to create HTTP client"@,
        LoginFailure::ServerUnreachable => "Failed to reach server"@,
        LoginFailure::ServerError(s) => "Server error: "@ + s@,
        LoginFailure::InvalidResponse => "Invalid response from server"@,
        LoginFailure::TimedOut => "Timed out waiting for authorization"@,
        LoginFailure::PollFailed => "Poll request failed"@,
        LoginFailure::InvalidPoll => "Invalid poll response"@,
        LoginFailure::MissingKey => "Server approved but sent no key"@,
        LoginFailure::Expired => "Code expired. Run `giggles login` again."@,
    }
}

impl LoginFailure {
    /// The message shown for this failure.
    pub fn message(&self) -> (m: String)
        ensures
            m@ == login_failure_text(*self),
    {
        match self {
            LoginFailure::ClientUnavailable => String::from_str("Failed to create HTTP client"),
            LoginFailure::ServerUnreachable => String::from_str("Failed to reach server"),
            LoginFailure::ServerError(s) => concat("Server error: ", s.as_str()),
            LoginFailure::InvalidResponse => String::from_str("Invalid response from server"),
            LoginFailure::TimedOut => String::from_str("Timed out waiting for authorization"),
            LoginFailure::PollFailed => String::from_str("Poll request failed"),
            LoginFailure::InvalidPoll => String::from_str("Invalid poll response"),
            LoginFailure::MissingKey => String::from_str("Server approved but sent no key"),
            LoginFailure::Expired => String::from_str("Code expired. Run `giggles login` again."),
        }
    }
}

/// What happened while waiting for approval.
pub enum PollEvent {
    /// The clock was read: the login has run this many seconds and nanoseconds.
    Clock(u64, u32),
    /// A poll was answered with this status code.
    Answered(u16),
    /// The answer of a poll was read: its status and key.
    Reply(String, Option<String>),
}

/// What to do next while waiting for approval.
pub enum LoginAction {
    /// Read the clock.
    CheckClock,
    /// Wait the poll interval, then poll.
    SleepAndPoll,
    /// Read the poll's answer.
    ReadReply,
    /// Save these credentials; the login is done.
    Save(Config),
    /// Give up with this failure.
    Fail(LoginFailure),
}

/// The next action of the polling loop of a login to `server` after
/// `event`: give up once ten minutes have passed, else wait and poll; poll
/// again after a failing status; read a successful answer and act on it.
pub fn login_step(server: &str, event: PollEvent) -> (a: LoginAction)
    ensures
        match event {
            PollEvent::Clock(secs, nanos) => if login_timed_out_spec(secs, nanos) {
                (a matches LoginAction::Fail(LoginFailure::TimedOut))
            } else {
                a is SleepAndPoll
            },
            PollEvent::Answered(code) => if crate::http::is_success_spec(code) {
                a is ReadReply
            } else {
                a is CheckClock
            },
            PollEvent::Reply(status, api_key) => {
                &&& status@ == "approved"@ ==> match api_key {
                    Some(k) => (a matches LoginAction::Save(c) && c.server@ == strip_trailing_slashes(
                        server@,
                    ) && c.api_key@ == k@),
                    None => (a matches LoginAction::Fail(LoginFailure::MissingKey)),
                }
                &&& status@ == "expired"@ ==> (a matches LoginAction::Fail(LoginFailure::Expired))
                &&& status@ != "approved"@ && status@ != "expired"@ ==> a is CheckClock
            },
        },
{
    match event {
        PollEvent::Clock(secs, nanos) => {
            if login_timed_out(secs, nanos) {
                LoginAction::Fail(LoginFailure::TimedOut)
            } else {
                LoginAction::SleepAndPoll
            }
        },
        PollEvent::Answered(code) => {
            if crate::http::is_success_status(code) {
                LoginAction::ReadReply
            } else {
                LoginAction::CheckClock
            }
        },
        PollEvent::Reply(status, api_key) => match poll_decision(server, status.as_str(), api_key) {
            PollDecision::Approved(c) => LoginAction::Save(c),
            PollDecision::MissingKey => LoginAction::Fail(LoginFailure::MissingKey),
            PollDecision::Expired => LoginAction::Fail(LoginFailure::Expired),
            PollDecision::Pending => LoginAction::CheckClock,
        },
    }
}

/// The prompt that asks the user to confirm `user_code` in the browser.
pub fn confirm_prompt(user_code: &str) -> (m: String)
    ensures
        m@ == "confirm code "@ + user_code@ + " in your browser"@,
{
    concat3("confirm code ", user_code, " in your browser")
}

/// The warning shown when the browser could not be opened, for `reason`.
pub fn browser_warning(reason: &str) -> (m: String)
    ensures
        m@ == "Could not open browser: "@ + reason@,
{
    concat("Could not open browser: ", reason)
}

} // verus!
