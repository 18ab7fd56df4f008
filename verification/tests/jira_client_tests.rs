use jira_git_helper::error::{AppError, JiraApiError};
use jira_git_helper::jira::{FetchPhase, IssueFetch, Reply, Request, Step};
use jira_git_helper::JiraClient;

fn client() -> JiraClient {
    JiraClient::new(
        "https://jira.example.com".to_string(),
        "alice".to_string(),
        "s3cret".to_string(),
    )
}

fn status(code: u16) -> Reply {
    Reply::Status(code)
}

fn session(name: &str, value: &str) -> Reply {
    Reply::Session { name: name.to_string(), value: value.to_string() }
}

/// Plays `replies` against a fresh exchange and gives every step it took.
fn play(client: &mut JiraClient, id: &str, replies: Vec<Reply>) -> (IssueFetch, Vec<Step>) {
    let (mut fetch, first) = client.get_issue_title(id);
    let mut steps = vec![Step::Send(first)];
    for reply in replies {
        steps.push(client.advance(&mut fetch, reply));
    }
    (fetch, steps)
}

fn logins(steps: &[Step]) -> usize {
    steps.iter().filter(|s| matches!(s, Step::Send(Request::Login { .. }))).count()
}

fn gets(steps: &[Step]) -> usize {
    steps.iter().filter(|s| matches!(s, Step::Send(Request::GetIssue { .. }))).count()
}

#[test]
fn a_new_client_is_unauthenticated() {
    let c = client();
    assert!(!c.is_authenticated());
    assert_eq!(c.session, None);
    assert_eq!(c.base_url, "https://jira.example.com");
    assert_eq!(c.username, "alice");
    assert_eq!(c.password, "s3cret");
}

#[test]
fn the_first_request_is_a_get_of_the_issue() {
    let c = client();
    let (fetch, request) = c.get_issue_title("JIRA-55");
    assert_eq!(fetch.phase, FetchPhase::FirstGet);
    assert_eq!(fetch.url, "https://jira.example.com/rest/api/2/issue/JIRA-55");
    assert_eq!(
        request,
        Request::GetIssue {
            url: "https://jira.example.com/rest/api/2/issue/JIRA-55".to_string(),
            cookie: None,
        }
    );
}

#[test]
fn the_login_posts_the_credentials_to_the_session_endpoint() {
    assert_eq!(
        client().login(),
        Request::Login {
            url: "https://jira.example.com/rest/auth/1/session".to_string(),
            username: "alice".to_string(),
            password: "s3cret".to_string(),
        }
    );
}

#[test]
fn success_at_once_needs_no_login() {
    let mut c = client();
    let (fetch, steps) = play(
        &mut c,
        "JIRA-55",
        vec![status(200), Reply::Summary("Fix crash".to_string())],
    );
    assert_eq!(steps[1], Step::Send(Request::ReadIssue));
    assert_eq!(steps[2], Step::Done(Ok("Fix crash".to_string())));
    assert_eq!(fetch.phase, FetchPhase::Done);
    assert_eq!(logins(&steps), 0);
    assert_eq!(gets(&steps), 1);
    assert!(!c.is_authenticated());
}

#[test]
fn unauthorised_leads_to_one_login_and_one_retry() {
    for first in [401u16, 403] {
        let mut c = client();
        let (fetch, steps) = play(
            &mut c,
            "JIRA-55",
            vec![
                status(first),
                status(200),
                session("JSESSIONID", "abc123"),
                status(200),
                Reply::Summary("Fix crash".to_string()),
            ],
        );
        assert_eq!(steps[1], Step::Send(c.login()));
        assert_eq!(steps[2], Step::Send(Request::ReadSession));
        assert_eq!(
            steps[3],
            Step::Send(Request::GetIssue {
                url: "https://jira.example.com/rest/api/2/issue/JIRA-55".to_string(),
                cookie: Some("JSESSIONID=abc123".to_string()),
            })
        );
        assert_eq!(steps[4], Step::Send(Request::ReadIssue));
        assert_eq!(steps[5], Step::Done(Ok("Fix crash".to_string())));
        assert_eq!(logins(&steps), 1);
        assert_eq!(gets(&steps), 2);
        assert_eq!(fetch.phase, FetchPhase::Done);
        assert!(c.is_authenticated());
        assert_eq!(c.session, Some("JSESSIONID=abc123".to_string()));
    }
}

#[test]
fn a_retry_that_fails_too_ends_without_a_second_login() {
    for second in [401u16, 403, 404, 500, 199, 300] {
        let mut c = client();
        let (fetch, steps) = play(
            &mut c,
            "JIRA-55",
            vec![status(401), status(200), session("JSESSIONID", "abc123"), status(second)],
        );
        assert_eq!(
            steps[4],
            Step::Done(Err(AppError::JiraApi(JiraApiError::Status(second))))
        );
        assert_eq!(logins(&steps), 1);
        assert_eq!(gets(&steps), 2);
        assert_eq!(fetch.phase, FetchPhase::Done);
    }
}

#[test]
fn a_refused_login_is_an_auth_error_and_leaves_the_client_as_it_was() {
    for refused in [401u16, 403, 500, 302] {
        let mut c = client();
        let (fetch, steps) = play(&mut c, "JIRA-55", vec![status(403), status(refused)]);
        assert_eq!(steps[2], Step::Done(Err(AppError::Auth(refused))));
        assert_eq!(fetch.phase, FetchPhase::Done);
        assert!(!c.is_authenticated());
        assert_eq!(logins(&steps), 1);
        assert_eq!(gets(&steps), 1);
    }
}

#[test]
fn any_other_status_is_a_tracker_error_carrying_it() {
    for code in [100u16, 199, 300, 301, 400, 402, 404, 500, 503, 0, 65535] {
        let mut c = client();
        let (_, steps) = play(&mut c, "JIRA-55", vec![status(code)]);
        assert_eq!(steps[1], Step::Done(Err(AppError::JiraApi(JiraApiError::Status(code)))));
        assert_eq!(logins(&steps), 0);
    }
}

#[test]
fn every_status_from_200_to_299_is_success() {
    for code in [200u16, 201, 204, 250, 299] {
        let mut c = client();
        let (_, steps) = play(&mut c, "JIRA-55", vec![status(code)]);
        assert_eq!(steps[1], Step::Send(Request::ReadIssue));
    }
}

#[test]
fn a_session_already_held_is_sent_with_the_first_get() {
    let mut c = client();
    c.session = Some("JSESSIONID=old".to_string());
    let (_, request) = c.get_issue_title("JIRA-1");
    assert_eq!(
        request,
        Request::GetIssue {
            url: "https://jira.example.com/rest/api/2/issue/JIRA-1".to_string(),
            cookie: Some("JSESSIONID=old".to_string()),
        }
    );
    let (_, steps) = play(
        &mut c,
        "JIRA-1",
        vec![status(401), status(200), session("JSESSIONID", "new")],
    );
    assert_eq!(
        steps[3],
        Step::Send(Request::GetIssue {
            url: "https://jira.example.com/rest/api/2/issue/JIRA-1".to_string(),
            cookie: Some("JSESSIONID=new".to_string()),
        })
    );
    assert_eq!(c.session, Some("JSESSIONID=new".to_string()));
}

#[test]
fn a_request_that_gets_no_response_is_a_transport_error() {
    let why = "connection refused".to_string();
    let mut c = client();
    let (_, steps) = play(&mut c, "JIRA-55", vec![Reply::Failed(why.clone())]);
    assert_eq!(
        steps[1],
        Step::Done(Err(AppError::JiraApi(JiraApiError::Transport(why.clone()))))
    );

    let mut c = client();
    let (_, steps) = play(&mut c, "JIRA-55", vec![status(401), Reply::Failed(why.clone())]);
    assert_eq!(
        steps[2],
        Step::Done(Err(AppError::JiraApi(JiraApiError::Transport(why.clone()))))
    );

    let mut c = client();
    let (_, steps) = play(
        &mut c,
        "JIRA-55",
        vec![status(401), status(200), session("a", "b"), Reply::Failed(why.clone())],
    );
    assert_eq!(steps[4], Step::Done(Err(AppError::JiraApi(JiraApiError::Transport(why)))));
}

#[test]
fn a_body_that_cannot_be_read_is_a_tracker_error() {
    let why = "missing field `summary`".to_string();
    let mut c = client();
    let (_, steps) = play(&mut c, "JIRA-55", vec![status(200), Reply::Failed(why.clone())]);
    assert_eq!(
        steps[2],
        Step::Done(Err(AppError::JiraApi(JiraApiError::BadBody(why.clone()))))
    );

    let mut c = client();
    let (_, steps) = play(
        &mut c,
        "JIRA-55",
        vec![status(401), status(200), Reply::Failed(why.clone())],
    );
    assert_eq!(steps[3], Step::Done(Err(AppError::JiraApi(JiraApiError::BadBody(why)))));
    assert!(!c.is_authenticated());
}

#[test]
fn a_reply_out_of_turn_ends_the_exchange() {
    let out_of_turn: Vec<Vec<Reply>> = vec![
        vec![Reply::Summary("x".to_string())],
        vec![session("a", "b")],
        vec![status(401), Reply::Summary("x".to_string())],
        vec![status(401), session("a", "b")],
        vec![status(401), status(200), status(200)],
        vec![status(401), status(200), Reply::Summary("x".to_string())],
        vec![status(200), status(200)],
        vec![status(200), session("a", "b")],
        vec![status(404), status(200)],
        vec![status(200), Reply::Summary("x".to_string()), Reply::Summary("y".to_string())],
        vec![status(500), Reply::Failed("late".to_string())],
    ];
    for replies in out_of_turn {
        let mut c = client();
        let (fetch, steps) = play(&mut c, "JIRA-55", replies);
        assert_eq!(steps.last(), Some(&Step::Done(Err(AppError::Unexpected))));
        assert_eq!(fetch.phase, FetchPhase::Done);
    }
}

#[test]
fn no_sequence_of_replies_brings_a_second_login_or_a_third_get() {
    let choices = || {
        vec![
            status(200),
            status(401),
            status(403),
            status(500),
            session("n", "v"),
            Reply::Summary("t".to_string()),
            Reply::Failed("f".to_string()),
        ]
    };
    let mut sequences: Vec<Vec<Reply>> = vec![Vec::new()];
    let mut from = 0;
    for _ in 0..5 {
        let until = sequences.len();
        for i in from..until {
            for reply in choices() {
                let mut longer = sequences[i].clone();
                longer.push(reply);
                sequences.push(longer);
            }
        }
        from = until;
    }
    for replies in sequences {
        let long = replies.len() >= 5;
        let unauthorised = matches!(replies.first(), Some(Reply::Status(401 | 403)));
        let mut c = client();
        let (fetch, steps) = play(&mut c, "JIRA-55", replies);
        assert!(logins(&steps) <= 1);
        assert!(gets(&steps) <= 2);
        assert_eq!(logins(&steps) == 1, unauthorised);
        if long {
            assert_eq!(fetch.phase, FetchPhase::Done);
        }
    }
}
