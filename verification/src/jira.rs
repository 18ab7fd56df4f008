//! The issue tracker: finding an issue id in a branch name, and the exchange that
//! fetches an issue's title, with one login and one retry when the tracker asks
//! for authentication.

use vstd::prelude::*;
use vstd::string::*;
use crate::error::{AppError, JiraApiError};
use crate::text::{starts_with, to_uppercase, uppercase_of};

verus! {

/// A letter of an issue id as the pattern reads it: an ASCII letter of either case,
/// or one of the two other characters that Unicode folds onto one, the long s
/// (U+017F) and the Kelvin sign (U+212A).
pub open spec fn is_key_letter(c: char) -> bool {
    ('A' <= c && c <= 'Z') || ('a' <= c && c <= 'z') || c == '\u{17f}' || c == '\u{212a}'
}

/// An ASCII digit.
pub open spec fn is_key_digit(c: char) -> bool {
    '0' <= c && c <= '9'
}

/// `s[start..end]` reads as an issue id: one or more letters, a hyphen at `dash`,
/// one or more digits.
pub open spec fn is_key_span(s: Seq<char>, start: int, dash: int, end: int) -> bool {
    &&& 0 <= start < dash
    &&& dash + 1 < end <= s.len()
    &&& forall|i: int| start <= i < dash ==> is_key_letter(#[trigger] s[i])
    &&& s[dash] == '-'
    &&& forall|i: int| dash < i < end ==> is_key_digit(#[trigger] s[i])
}

/// The whole of `key` reads as an issue id.
pub open spec fn is_key(key: Seq<char>) -> bool {
    exists|dash: int| is_key_span(key, 0, dash, key.len() as int)
}

/// `s[start..end]` is the issue id that a search from the left finds: no id begins
/// before `start`, and no id that begins at `start` ends after `end`.
pub open spec fn is_first_key_span(s: Seq<char>, start: int, end: int) -> bool {
    &&& exists|dash: int| is_key_span(s, start, dash, end)
    &&& forall|a: int, d: int, e: int| #[trigger] is_key_span(s, a, d, e) ==> start <= a
    &&& forall|d: int, e: int| #[trigger] is_key_span(s, start, d, e) ==> e <= end
}

/// The first issue id in `s`, as it is written there, if `s` holds one.
pub open spec fn first_key(s: Seq<char>) -> Option<Seq<char>> {
    if exists|start: int, end: int| is_first_key_span(s, start, end) {
        let (start, end) = choose|start: int, end: int| is_first_key_span(s, start, end);
        Some(s.subrange(start, end))
    } else {
        None
    }
}

/// The issue id that `branch` yields for a project `prefix`: its first id, in upper
/// case, provided that this begins with the prefix.
pub open spec fn extracted_id(branch: Seq<char>, prefix: Seq<char>) -> Option<Seq<char>> {
    match first_key(branch) {
        Some(key) => if prefix.is_prefix_of(uppercase_of(key)) {
            Some(uppercase_of(key))
        } else {
            None
        },
        None => None,
    }
}

/// The pattern of an issue id, for the `regex` crate: letters, a hyphen, digits,
/// read without regard to case.
pub fn issue_key_pattern() -> (pattern: &'static str)
    ensures
        pattern@ == "(?i)[A-Z]+-[0-9]+"@,
{
    "(?i)[A-Z]+-[0-9]+"
}

/// `regex::Regex::new` on the pattern of an issue id, then `regex::Regex::find` on
/// `text` and `regex::Match::as_str`. The pattern compiles; the search gives the
/// leftmost match and, the repetitions being greedy, the longest one that begins
/// there. Case-insensitive `[A-Z]` is what `is_key_letter` says.
#[verifier::external_body]
fn regex_find(pattern: &str, text: &str) -> (found: Option<String>)
    requires
        pattern@ == "(?i)[A-Z]+-[0-9]+"@,
    ensures
        found matches Some(m) ==> exists|start: int, end: int|
            is_first_key_span(text@, start, end) && m@ == #[trigger] text@.subrange(start, end),
        found is None ==> forall|start: int, dash: int, end: int|
            !#[trigger] is_key_span(text@, start, dash, end),
{
    match regex::Regex::new(pattern) {
        Ok(re) => match re.find(text) {
            Some(m) => Some(m.as_str().to_string()),
            None => None,
        },
        Err(_) => None,
    }
}

/// The span that a search from the left finds is the only one of its kind.
pub proof fn lemma_first_key_span_unique(s: Seq<char>, a1: int, e1: int, a2: int, e2: int)
    requires
        is_first_key_span(s, a1, e1),
        is_first_key_span(s, a2, e2),
    ensures
        a1 == a2,
        e1 == e2,
{
    let d1 = choose|d: int| is_key_span(s, a1, d, e1);
    let d2 = choose|d: int| is_key_span(s, a2, d, e2);
    assert(is_key_span(s, a1, d1, e1));
    assert(is_key_span(s, a2, d2, e2));
}

/// Among the issue ids in `s` there is one that begins first.
proof fn lemma_leftmost_start(s: Seq<char>, a: int, d: int, e: int) -> (m: int)
    requires
        is_key_span(s, a, d, e),
    ensures
        exists|d1: int, e1: int| is_key_span(s, m, d1, e1),
        forall|a2: int, d2: int, e2: int| #[trigger] is_key_span(s, a2, d2, e2) ==> m <= a2,
    decreases a,
{
    if exists|a1: int, d1: int, e1: int| #[trigger] is_key_span(s, a1, d1, e1) && a1 < a {
        let (a1, d1, e1) = choose|a1: int, d1: int, e1: int|
            #[trigger] is_key_span(s, a1, d1, e1) && a1 < a;
        lemma_leftmost_start(s, a1, d1, e1)
    } else {
        a
    }
}

/// Among the issue ids in `s` that begin at `a` there is one that ends last.
proof fn lemma_longest_from(s: Seq<char>, a: int, d: int, e: int) -> (m: int)
    requires
        is_key_span(s, a, d, e),
    ensures
        exists|d1: int| is_key_span(s, a, d1, m),
        forall|d2: int, e2: int| #[trigger] is_key_span(s, a, d2, e2) ==> e2 <= m,
    decreases s.len() - e,
{
    if exists|d1: int, e1: int| #[trigger] is_key_span(s, a, d1, e1) && e < e1 {
        let (d1, e1) = choose|d1: int, e1: int| #[trigger] is_key_span(s, a, d1, e1) && e < e1;
        lemma_longest_from(s, a, d1, e1)
    } else {
        e
    }
}

/// A text has a first issue id exactly when it has an issue id at all, and the
/// first id reads as an id by itself.
pub proof fn lemma_first_key_exists(s: Seq<char>)
    ensures
        first_key(s) is Some <==> exists|a: int, d: int, e: int| is_key_span(s, a, d, e),
        first_key(s) matches Some(key) ==> is_key(key),
{
    if exists|a: int, d: int, e: int| is_key_span(s, a, d, e) {
        let (a, d, e) = choose|a: int, d: int, e: int| is_key_span(s, a, d, e);
        let start = lemma_leftmost_start(s, a, d, e);
        let (d1, e1) = choose|d1: int, e1: int| is_key_span(s, start, d1, e1);
        let end = lemma_longest_from(s, start, d1, e1);
        assert(is_first_key_span(s, start, end));
    }
    if first_key(s) is Some {
        let (start, end) = choose|start: int, end: int| is_first_key_span(s, start, end);
        let dash = choose|dash: int| is_key_span(s, start, dash, end);
        let key = s.subrange(start, end);
        assert(is_key_span(key, 0, dash - start, key.len() as int)) by {
            assert forall|i: int| 0 <= i < dash - start implies is_key_letter(#[trigger] key[i]) by {
                assert(key[i] == s[start + i]);
            }
            assert forall|i: int| dash - start < i < key.len() implies is_key_digit(
                #[trigger] key[i],
            ) by {
                assert(key[i] == s[start + i]);
            }
        }
        assert(is_key(key));
    }
}

/// Keeps an issue id that begins with the project prefix, and drops any other.
pub fn keep_with_prefix(id: String, prefix: &str) -> (r: Option<String>)
    ensures
        r == if prefix@.is_prefix_of(id@) {
            Some(id)
        } else {
            None
        },
{
    if starts_with(id.as_str(), prefix) {
        Some(id)
    } else {
        None
    }
}

/// Finds the issue id in a branch name.
///
/// The first run of letters, hyphen and digits in `branch_name` is put in upper
/// case; it is the result if it begins with `jira_id_prefix`, compared as it
/// stands. A branch without such a run, or with another project's id first,
/// yields nothing.
pub fn extract_jira_id(branch_name: &str, jira_id_prefix: &str) -> (r: Option<String>)
    ensures
        r matches Some(id) ==> extracted_id(branch_name@, jira_id_prefix@) == Some(id@),
        r is None ==> extracted_id(branch_name@, jira_id_prefix@) is None,
{
    match regex_find(issue_key_pattern(), branch_name) {
        Some(m) => {
            proof {
                let (start, end) = choose|start: int, end: int|
                    is_first_key_span(branch_name@, start, end) && m@
                        == #[trigger] branch_name@.subrange(start, end);
                let (a, e) = choose|a: int, e: int| is_first_key_span(branch_name@, a, e);
                lemma_first_key_span_unique(branch_name@, start, end, a, e);
                assert(first_key(branch_name@) == Some(m@));
            }
            keep_with_prefix(to_uppercase(m.as_str()), jira_id_prefix)
        },
        None => {
            assert(first_key(branch_name@) is None);
            None
        },
    }
}

/// The credentials for one tracker and, once a login has succeeded, the session
/// cookie to send along.
#[derive(Debug, Clone, PartialEq, Eq)]
pub struct JiraClient {
    pub base_url: String,
    pub username: String,
    pub password: String,
    /// `name=value` of the session; `None` while unauthenticated.
    pub session: Option<String>,
}

/// A `JiraClient` as contracts see it.
pub struct JiraClientView {
    pub base_url: Seq<char>,
    pub username: Seq<char>,
    pub password: Seq<char>,
    pub session: Option<Seq<char>>,
}

impl View for JiraClient {
    type V = JiraClientView;

    open spec fn view(&self) -> JiraClientView {
        JiraClientView {
            base_url: self.base_url@,
            username: self.username@,
            password: self.password@,
            session: self.session.deep_view(),
        }
    }
}

/// What the caller is asked to do next on the wire.
#[derive(Debug, Clone, PartialEq, Eq)]
pub enum Request {
    /// `GET url`, with `cookie` as the `Cookie` header when there is one.
    GetIssue { url: String, cookie: Option<String> },
    /// `POST url` with the JSON document `{username, password}`.
    Login { url: String, username: String, password: String },
    /// Read the body of the response just received as `{session: {name, value}}`.
    ReadSession,
    /// Read the body of the response just received as `{fields: {summary}}`.
    ReadIssue,
}

/// A `Request` as contracts see it.
pub enum RequestView {
    GetIssue { url: Seq<char>, cookie: Option<Seq<char>> },
    Login { url: Seq<char>, username: Seq<char>, password: Seq<char> },
    ReadSession,
    ReadIssue,
}

impl View for Request {
    type V = RequestView;

    open spec fn view(&self) -> RequestView {
        match self {
            Request::GetIssue { url, cookie } => RequestView::GetIssue {
                url: url@,
                cookie: cookie.deep_view(),
            },
            Request::Login { url, username, password } => RequestView::Login {
                url: url@,
                username: username@,
                password: password@,
            },
            Request::ReadSession => RequestView::ReadSession,
            Request::ReadIssue => RequestView::ReadIssue,
        }
    }
}

/// What came of the last request.
#[derive(Debug, Clone, PartialEq, Eq)]
pub enum Reply {
    /// Nothing usable: the request could not be sent, or the body could not be read
    /// as asked. The text says why.
    Failed(String),
    /// A response arrived, with this HTTP status.
    Status(u16),
    /// The body held a session.
    Session { name: String, value: String },
    /// The body held an issue with this summary.
    Summary(String),
}

/// The next move in an exchange: another request, or the end.
#[derive(Debug, PartialEq, Eq)]
pub enum Step {
    Send(Request),
    Done(Result<String, AppError>),
}

/// A `Step` as contracts see it.
pub enum StepView {
    Send(RequestView),
    Done(Result<String, AppError>),
}

impl View for Step {
    type V = StepView;

    open spec fn view(&self) -> StepView {
        match self {
            Step::Send(request) => StepView::Send(request@),
            Step::Done(result) => StepView::Done(*result),
        }
    }
}

/// Where the exchange for one issue stands: which reply it is waiting for.
#[derive(Debug, Clone, Copy, PartialEq, Eq, Structural)]
pub enum FetchPhase {
    /// The status of the first `GET`.
    FirstGet,
    /// The status of the login.
    Login,
    /// The session read from the login's response.
    Session,
    /// The status of the second `GET`.
    RetryGet,
    /// The issue read from a successful response.
    Issue,
    /// Nothing: the exchange is over.
    Done,
}

/// The exchange that fetches one issue's title.
#[derive(Debug, Clone, PartialEq, Eq)]
pub struct IssueFetch {
    pub url: String,
    pub phase: FetchPhase,
}

/// A status in 200..=299.
pub open spec fn is_success(status: u16) -> bool {
    200 <= status <= 299
}

/// The two statuses that ask for a login: 401 and 403.
pub open spec fn wants_login(status: u16) -> bool {
    status == 401 || status == 403
}

/// Where the tracker takes a login.
pub open spec fn login_url(base_url: Seq<char>) -> Seq<char> {
    base_url + "/rest/auth/1/session"@
}

/// Where the tracker shows an issue.
pub open spec fn issue_url(base_url: Seq<char>, jira_id: Seq<char>) -> Seq<char> {
    base_url + "/rest/api/2/issue/"@ + jira_id
}

/// The cookie that carries a session.
pub open spec fn session_cookie(name: Seq<char>, value: Seq<char>) -> Seq<char> {
    name + "="@ + value
}

/// The phase that follows `phase` on `reply`.
///
/// Only the first `GET` leads to a login, and only a session leads to the second
/// `GET`; whatever the second `GET` brings, no login follows it.
pub open spec fn next_phase(phase: FetchPhase, reply: Reply) -> FetchPhase {
    match (phase, reply) {
        (FetchPhase::FirstGet, Reply::Status(s)) => if wants_login(s) {
            FetchPhase::Login
        } else if is_success(s) {
            FetchPhase::Issue
        } else {
            FetchPhase::Done
        },
        (FetchPhase::Login, Reply::Status(s)) => if is_success(s) {
            FetchPhase::Session
        } else {
            FetchPhase::Done
        },
        (FetchPhase::Session, Reply::Session { .. }) => FetchPhase::RetryGet,
        (FetchPhase::RetryGet, Reply::Status(s)) => if is_success(s) {
            FetchPhase::Issue
        } else {
            FetchPhase::Done
        },
        _ => FetchPhase::Done,
    }
}

/// How the exchange ends on `reply` in `phase`, when it ends there.
pub open spec fn outcome(phase: FetchPhase, reply: Reply) -> Result<String, AppError> {
    match (phase, reply) {
        (FetchPhase::Issue, Reply::Summary(title)) => Ok(title),
        (FetchPhase::Login, Reply::Status(s)) => Err(AppError::Auth(s)),
        (FetchPhase::FirstGet, Reply::Status(s)) => Err(AppError::JiraApi(JiraApiError::Status(s))),
        (FetchPhase::RetryGet, Reply::Status(s)) => Err(AppError::JiraApi(JiraApiError::Status(s))),
        (FetchPhase::FirstGet, Reply::Failed(why)) => Err(
            AppError::JiraApi(JiraApiError::Transport(why)),
        ),
        (FetchPhase::Login, Reply::Failed(why)) => Err(
            AppError::JiraApi(JiraApiError::Transport(why)),
        ),
        (FetchPhase::RetryGet, Reply::Failed(why)) => Err(
            AppError::JiraApi(JiraApiError::Transport(why)),
        ),
        (FetchPhase::Session, Reply::Failed(why)) => Err(
            AppError::JiraApi(JiraApiError::BadBody(why)),
        ),
        (FetchPhase::Issue, Reply::Failed(why)) => Err(
            AppError::JiraApi(JiraApiError::BadBody(why)),
        ),
        _ => Err(AppError::Unexpected),
    }
}

/// The session that the client holds after `reply` in `phase`: a session that was
/// read replaces the one before, and nothing else touches it.
pub open spec fn session_after(
    session: Option<Seq<char>>,
    phase: FetchPhase,
    reply: Reply,
) -> Option<Seq<char>> {
    match (phase, reply) {
        (FetchPhase::Session, Reply::Session { name, value }) => Some(
            session_cookie(name@, value@),
        ),
        _ => session,
    }
}

/// The request that logs a client in.
pub open spec fn login_request(client: JiraClientView) -> RequestView {
    RequestView::Login {
        url: login_url(client.base_url),
        username: client.username,
        password: client.password,
    }
}

/// The request that a client sends on entering `phase` for the issue at `url`.
pub open spec fn request_for(client: JiraClientView, url: Seq<char>, phase: FetchPhase) -> RequestView {
    match phase {
        FetchPhase::Login => login_request(client),
        FetchPhase::Session => RequestView::ReadSession,
        FetchPhase::Issue => RequestView::ReadIssue,
        _ => RequestView::GetIssue { url, cookie: client.session },
    }
}

/// The move that follows `reply` in `phase`, for a client as it is after the reply.
pub open spec fn step_after(
    client: JiraClientView,
    url: Seq<char>,
    phase: FetchPhase,
    reply: Reply,
) -> StepView {
    if next_phase(phase, reply) == FetchPhase::Done {
        StepView::Done(outcome(phase, reply))
    } else {
        StepView::Send(request_for(client, url, next_phase(phase, reply)))
    }
}

impl JiraClient {
    /// A client for the tracker at `base_url`, not yet authenticated.
    pub fn new(base_url: String, username: String, password: String) -> (client: JiraClient)
        ensures
            client@ == (JiraClientView {
                base_url: base_url@,
                username: username@,
                password: password@,
                session: None,
            }),
    {
        JiraClient { base_url, username, password, session: None }
    }

    /// Whether a login has succeeded.
    pub fn is_authenticated(&self) -> (b: bool)
        ensures
            b == self@.session is Some,
    {
        self.session.is_some()
    }

    /// The request that logs in: the credentials, posted to the session endpoint.
    pub fn login(&self) -> (request: Request)
        ensures
            request@ == login_request(self@),
    {
        let mut url = self.base_url.clone();
        url.append("/rest/auth/1/session");
        Request::Login { url, username: self.username.clone(), password: self.password.clone() }
    }

    /// Begins the exchange for the title of `jira_id`: the first `GET`, with the
    /// session cookie if the client has one.
    pub fn get_issue_title(&self, jira_id: &str) -> (started: (IssueFetch, Request))
        ensures
            started.0.phase == FetchPhase::FirstGet,
            started.0.url@ == issue_url(self@.base_url, jira_id@),
            started.1@ == request_for(self@, started.0.url@, FetchPhase::FirstGet),
    {
        let mut url = self.base_url.clone();
        url.append("/rest/api/2/issue/");
        url.append(jira_id);
        let request = Request::GetIssue { url: url.clone(), cookie: self.session.clone() };
        (IssueFetch { url, phase: FetchPhase::FirstGet }, request)
    }

    /// Takes the reply to the request in flight and says what comes next.
    ///
    /// A 401 or 403 to the first `GET` is answered with a login; a session read
    /// from the login's response is kept and sent with the second `GET`. Any other
    /// status outside 200..=299 ends the exchange: as a refused login after the
    /// login request, as a tracker error after a `GET`. A reply that does not fit
    /// the request in flight ends it too.
    pub fn advance(&mut self, fetch: &mut IssueFetch, reply: Reply) -> (step: Step)
        ensures
            final(fetch).phase == next_phase(old(fetch).phase, reply),
            final(fetch).url == old(fetch).url,
            final(self)@ == (JiraClientView {
                session: session_after(old(self)@.session, old(fetch).phase, reply),
                ..old(self)@
            }),
            step@ == step_after(final(self)@, old(fetch).url@, old(fetch).phase, reply),
    {
        let phase = fetch.phase;
        fetch.phase = FetchPhase::Done;
        match reply {
            Reply::Status(status) => match phase {
                FetchPhase::FirstGet => if status == 401 || status == 403 {
                    fetch.phase = FetchPhase::Login;
                    Step::Send(self.login())
                } else if 200 <= status && status <= 299 {
                    fetch.phase = FetchPhase::Issue;
                    Step::Send(Request::ReadIssue)
                } else {
                    Step::Done(Err(AppError::JiraApi(JiraApiError::Status(status))))
                },
                FetchPhase::Login => if 200 <= status && status <= 299 {
                    fetch.phase = FetchPhase::Session;
                    Step::Send(Request::ReadSession)
                } else {
                    Step::Done(Err(AppError::Auth(status)))
                },
                FetchPhase::RetryGet => if 200 <= status && status <= 299 {
                    fetch.phase = FetchPhase::Issue;
                    Step::Send(Request::ReadIssue)
                } else {
                    Step::Done(Err(AppError::JiraApi(JiraApiError::Status(status))))
                },
                _ => Step::Done(Err(AppError::Unexpected)),
            },
            Reply::Session { name, value } => match phase {
                FetchPhase::Session => {
                    let mut cookie = name;
                    cookie.append("=");
                    cookie.append(value.as_str());
                    self.session = Some(cookie);
                    fetch.phase = FetchPhase::RetryGet;
                    Step::Send(
                        Request::GetIssue { url: fetch.url.clone(), cookie: self.session.clone() },
                    )
                },
                _ => Step::Done(Err(AppError::Unexpected)),
            },
            Reply::Summary(title) => match phase {
                FetchPhase::Issue => Step::Done(Ok(title)),
                _ => Step::Done(Err(AppError::Unexpected)),
            },
            Reply::Failed(why) => match phase {
                FetchPhase::FirstGet | FetchPhase::Login | FetchPhase::RetryGet => Step::Done(
                    Err(AppError::JiraApi(JiraApiError::Transport(why))),
                ),
                FetchPhase::Session | FetchPhase::Issue => Step::Done(
                    Err(AppError::JiraApi(JiraApiError::BadBody(why))),
                ),
                FetchPhase::Done => Step::Done(Err(AppError::Unexpected)),
            },
        }
    }
}

/// `reply` is a response with status 401 or 403.
pub open spec fn is_unauthorised(reply: Reply) -> bool {
    match reply {
        Reply::Status(s) => wants_login(s),
        _ => false,
    }
}

/// `reply` is a response with a status in 200..=299.
pub open spec fn is_accepted(reply: Reply) -> bool {
    match reply {
        Reply::Status(s) => is_success(s),
        _ => false,
    }
}

/// The phase an exchange is in after `replies`, taken in order from `phase`.
pub open spec fn phase_after(phase: FetchPhase, replies: Seq<Reply>) -> FetchPhase
    decreases replies.len(),
{
    if replies.len() == 0 {
        phase
    } else {
        phase_after(next_phase(phase, replies[0]), replies.drop_first())
    }
}

/// How often an exchange that stands in `phase` asks for a login while it takes
/// `replies`.
pub open spec fn logins_sent(phase: FetchPhase, replies: Seq<Reply>) -> nat
    decreases replies.len(),
{
    if replies.len() == 0 {
        0
    } else {
        let next = next_phase(phase, replies[0]);
        let here: nat = if next == FetchPhase::Login {
            1
        } else {
            0
        };
        here + logins_sent(next, replies.drop_first())
    }
}

/// How often an exchange that stands in `phase` repeats the `GET` while it takes
/// `replies`.
pub open spec fn retries_sent(phase: FetchPhase, replies: Seq<Reply>) -> nat
    decreases replies.len(),
{
    if replies.len() == 0 {
        0
    } else {
        let next = next_phase(phase, replies[0]);
        let here: nat = if next == FetchPhase::RetryGet {
            1
        } else {
            0
        };
        here + retries_sent(next, replies.drop_first())
    }
}

/// From any phase but the first, no login is asked for; from the second `GET` on,
/// no `GET` is repeated either.
pub proof fn lemma_no_second_round(phase: FetchPhase, replies: Seq<Reply>)
    ensures
        phase != FetchPhase::FirstGet ==> logins_sent(phase, replies) == 0,
        phase == FetchPhase::RetryGet || phase == FetchPhase::Issue || phase == FetchPhase::Done
            ==> retries_sent(phase, replies) == 0,
        phase != FetchPhase::RetryGet ==> retries_sent(phase, replies) <= 1,
    decreases replies.len(),
{
    if replies.len() > 0 {
        lemma_no_second_round(next_phase(phase, replies[0]), replies.drop_first());
    }
}

/// Whatever the tracker answers, and however long the caller goes on, one exchange
/// asks for at most one login and repeats the `GET` at most once.
pub proof fn lemma_at_most_one_login_and_retry(replies: Seq<Reply>)
    ensures
        logins_sent(FetchPhase::FirstGet, replies) <= 1,
        retries_sent(FetchPhase::FirstGet, replies) <= 1,
{
    lemma_no_second_round(FetchPhase::FirstGet, replies);
    if replies.len() > 0 {
        lemma_no_second_round(
            next_phase(FetchPhase::FirstGet, replies[0]),
            replies.drop_first(),
        );
    }
}

/// A login is asked for exactly when the first `GET` is answered with 401 or 403.
pub proof fn lemma_login_iff_unauthorised(replies: Seq<Reply>)
    ensures
        logins_sent(FetchPhase::FirstGet, replies) == 1 <==> (replies.len() >= 1
            && is_unauthorised(replies[0])),
{
    if replies.len() > 0 {
        lemma_no_second_round(
            next_phase(FetchPhase::FirstGet, replies[0]),
            replies.drop_first(),
        );
    }
}

/// The `GET` is repeated exactly when the first one is answered with 401 or 403,
/// the login with a status in 200..=299, and a session can be read from it.
pub proof fn lemma_retry_iff_logged_in(replies: Seq<Reply>)
    ensures
        retries_sent(FetchPhase::FirstGet, replies) == 1 <==> (replies.len() >= 3
            && is_unauthorised(replies[0]) && is_accepted(replies[1]) && replies[2] is Session),
{
    if replies.len() > 0 {
        let first = next_phase(FetchPhase::FirstGet, replies[0]);
        let after_first = replies.drop_first();
        lemma_no_second_round(first, after_first);
        if after_first.len() > 0 {
            let second = next_phase(first, after_first[0]);
            let after_second = after_first.drop_first();
            lemma_no_second_round(second, after_second);
            assert(after_first[0] == replies[1]);
            if after_second.len() > 0 {
                let third = next_phase(second, after_second[0]);
                lemma_no_second_round(third, after_second.drop_first());
                assert(after_second[0] == replies[2]);
            }
        }
    }
}

/// When the second `GET` is refused too, be it with 401 again, the exchange ends
/// with the tracker's status and no further login.
pub proof fn lemma_failed_retry_ends(status: u16, later: Seq<Reply>)
    requires
        !is_success(status),
    ensures
        next_phase(FetchPhase::RetryGet, Reply::Status(status)) == FetchPhase::Done,
        outcome(FetchPhase::RetryGet, Reply::Status(status)) == Err::<String, AppError>(
            AppError::JiraApi(JiraApiError::Status(status)),
        ),
        logins_sent(FetchPhase::RetryGet, seq![Reply::Status(status)] + later) == 0,
{
    lemma_no_second_round(FetchPhase::RetryGet, seq![Reply::Status(status)] + later);
}

/// When the first `GET` succeeds, the title is read from it and nobody logs in.
pub proof fn lemma_success_needs_no_login(status: u16, title: String, later: Seq<Reply>)
    requires
        is_success(status),
    ensures
        phase_after(FetchPhase::FirstGet, seq![Reply::Status(status), Reply::Summary(title)])
            == FetchPhase::Done,
        outcome(FetchPhase::Issue, Reply::Summary(title)) == Ok::<String, AppError>(title),
        logins_sent(
            FetchPhase::FirstGet,
            seq![Reply::Status(status), Reply::Summary(title)] + later,
        ) == 0,
{
    let replies = seq![Reply::Status(status), Reply::Summary(title)];
    lemma_login_iff_unauthorised(replies + later);
    lemma_at_most_one_login_and_retry(replies + later);
    assert((replies + later)[0] == Reply::Status(status));
    assert(replies.drop_first() =~= seq![Reply::Summary(title)]);
    assert(replies.drop_first().drop_first() =~= Seq::<Reply>::empty());
    reveal_with_fuel(phase_after, 3);
}

/// An exchange is over once it is `Done`, and it is `Done` after five replies at
/// the latest.
pub proof fn lemma_exchange_ends(phase: FetchPhase, replies: Seq<Reply>)
    ensures
        phase == FetchPhase::Done ==> phase_after(phase, replies) == FetchPhase::Done,
        replies.len() >= 1 && phase == FetchPhase::Issue ==> phase_after(phase, replies)
            == FetchPhase::Done,
        replies.len() >= 2 && phase == FetchPhase::RetryGet ==> phase_after(phase, replies)
            == FetchPhase::Done,
        replies.len() >= 3 && phase == FetchPhase::Session ==> phase_after(phase, replies)
            == FetchPhase::Done,
        replies.len() >= 4 && phase == FetchPhase::Login ==> phase_after(phase, replies)
            == FetchPhase::Done,
        replies.len() >= 5 ==> phase_after(phase, replies) == FetchPhase::Done,
    decreases replies.len(),
{
    if replies.len() > 0 {
        lemma_exchange_ends(next_phase(phase, replies[0]), replies.drop_first());
    }
}

} // verus!
