//! Commit messages that begin with the issue the branch is about.
//!
//! The crate finds the issue id in the name of the current branch, fetches the
//! issue's title from the tracker, and puts id, title and a note together into a
//! commit message. Everything is decided here; the caller runs `git`, talks to the
//! tracker and the terminal, and hands back what came of it.

use vstd::prelude::*;
use vstd::string::*;

pub mod app_config;
pub mod error;
pub mod git;
pub mod input;
pub mod jira;
pub mod text;
pub mod vault;

pub use crate::app_config::AppConfig;
pub use crate::error::AppError;
pub use crate::git::GitOperations;
pub use crate::jira::{extract_jira_id, JiraClient};

use crate::app_config::{load_config, EnvOverrides, LoadedConfig, StoredValues};
use crate::git::{branch_args, commit_args, commit_result, current_branch, GitOutput};
use crate::input::{
    commit_notice, confirm_commit, is_confirmed, is_yes, prompt_for_commit_message, prompt_text,
    typed_answer, Prompt,
};
use crate::jira::{
    extracted_id, is_success, issue_url, next_phase, request_for, session_after, step_after,
    FetchPhase, IssueFetch, JiraClientView, Reply, Request, RequestView, Step, StepView,
};

verus! {

/// How far a run has come: what it is waiting for, and what it has gathered.
#[derive(Debug, Clone, PartialEq, Eq)]
pub enum Stage {
    /// Nothing has been asked for yet.
    Start,
    /// `git` has been asked for the current branch.
    Branch,
    /// The tracker has been asked about `jira_id`.
    Title { jira_id: String, fetch: IssueFetch },
    /// The user has been asked for a note.
    Note { jira_id: String, title: String },
    /// The user has been asked whether to commit with `message`.
    Confirm { message: String },
    /// `git` has been asked to commit.
    Commit,
    /// The run is over.
    Finished,
}

/// A `Stage` as contracts see it.
pub enum StageView {
    Start,
    Branch,
    Title { jira_id: Seq<char>, url: Seq<char>, phase: FetchPhase },
    Note { jira_id: Seq<char>, title: Seq<char> },
    Confirm { message: Seq<char> },
    Commit,
    Finished,
}

impl View for Stage {
    type V = StageView;

    open spec fn view(&self) -> StageView {
        match self {
            Stage::Start => StageView::Start,
            Stage::Branch => StageView::Branch,
            Stage::Title { jira_id, fetch } => StageView::Title {
                jira_id: jira_id@,
                url: fetch.url@,
                phase: fetch.phase,
            },
            Stage::Note { jira_id, title } => StageView::Note { jira_id: jira_id@, title: title@ },
            Stage::Confirm { message } => StageView::Confirm { message: message@ },
            Stage::Commit => StageView::Commit,
            Stage::Finished => StageView::Finished,
        }
    }
}

/// What has happened since the last action.
#[derive(Debug, PartialEq, Eq)]
pub enum Event {
    /// Nothing yet: the run begins.
    Start,
    /// `git` has run, or could not be started (`Err` with the reason).
    Git(Result<GitOutput, String>),
    /// The tracker has replied.
    Http(Reply),
    /// The user has typed a line, or the terminal gave none.
    Answer(Option<String>),
}

/// What the caller is to do next.
#[derive(Debug, PartialEq, Eq)]
pub enum Action {
    /// Run `git` with `args`; keep its output when `capture` is set.
    RunGit { args: Vec<String>, capture: bool },
    /// Ask this of the tracker.
    Http(Request),
    /// Print `lines`, show `prompt` and read a line.
    Ask { lines: Vec<String>, prompt: Prompt },
    /// Print `lines` and end with `result`.
    Finish { lines: Vec<String>, result: Result<(), AppError> },
}

/// An `Action` as contracts see it.
pub enum ActionView {
    RunGit { args: Seq<Seq<char>>, capture: bool },
    Http(RequestView),
    Ask { lines: Seq<Seq<char>>, prompt: Seq<char>, default: Option<Seq<char>> },
    Finish { lines: Seq<Seq<char>>, result: Result<(), AppError> },
}

impl View for Action {
    type V = ActionView;

    open spec fn view(&self) -> ActionView {
        match self {
            Action::RunGit { args, capture } => ActionView::RunGit {
                args: args.deep_view(),
                capture: *capture,
            },
            Action::Http(request) => ActionView::Http(request@),
            Action::Ask { lines, prompt } => ActionView::Ask {
                lines: lines.deep_view(),
                prompt: prompt.text@,
                default: prompt.default.deep_view(),
            },
            Action::Finish { lines, result } => ActionView::Finish {
                lines: lines.deep_view(),
                result: *result,
            },
        }
    }
}

/// One run of the tool, from the branch name to the commit.
#[derive(Debug, Clone, PartialEq, Eq)]
pub struct App {
    pub config: LoadedConfig,
    pub jira_client: JiraClient,
    pub git_ops: GitOperations,
    pub stage: Stage,
}

/// An `App` as contracts see it.
pub struct AppView {
    pub prefix: Option<Seq<char>>,
    pub client: JiraClientView,
    pub stage: StageView,
}

impl View for App {
    type V = AppView;

    open spec fn view(&self) -> AppView {
        AppView {
            prefix: self.config.jira_id_prefix.deep_view(),
            client: self.jira_client@,
            stage: self.stage@,
        }
    }
}

/// The commit message: the issue id in square brackets, the title, the note.
pub open spec fn commit_message(jira_id: Seq<char>, title: Seq<char>, note: Seq<char>) -> Seq<char> {
    "["@ + jira_id + "] "@ + title + " "@ + note
}

/// The issue id for a branch, or why there is none: no prefix is configured, or
/// the branch holds no id of that project.
pub open spec fn jira_id_in(prefix: Option<Seq<char>>, branch: Seq<char>) -> Result<Seq<char>, AppError> {
    match prefix {
        None => Err(AppError::ConfigMissing),
        Some(p) => match extracted_id(branch, p) {
            Some(id) => Ok(id),
            None => Err(AppError::JiraIdNotFound),
        },
    }
}

/// The end of a run that failed: nothing to print, and the error.
pub open spec fn failed(e: AppError) -> (StageView, ActionView) {
    (StageView::Finished, ActionView::Finish { lines: Seq::empty(), result: Err(e) })
}

/// What follows the branch name: the first request to the tracker for the issue
/// that the branch names.
pub open spec fn after_branch(app: AppView, ran: Result<GitOutput, String>) -> (StageView, ActionView) {
    match current_branch(ran) {
        Err(e) => failed(e),
        Ok(branch) => match jira_id_in(app.prefix, branch) {
            Err(e) => failed(e),
            Ok(jira_id) => {
                let url = issue_url(app.client.base_url, jira_id);
                (
                    StageView::Title { jira_id, url, phase: FetchPhase::FirstGet },
                    ActionView::Http(request_for(app.client, url, FetchPhase::FirstGet)),
                )
            },
        },
    }
}

/// What follows a reply from the tracker: the next request, or, with the title in
/// hand, id and title on the terminal and the question for a note.
pub open spec fn after_reply(
    client: JiraClientView,
    jira_id: Seq<char>,
    url: Seq<char>,
    phase: FetchPhase,
    reply: Reply,
) -> (StageView, ActionView) {
    match step_after(client, url, phase, reply) {
        StepView::Send(request) => (
            StageView::Title { jira_id, url, phase: next_phase(phase, reply) },
            ActionView::Http(request),
        ),
        StepView::Done(Err(e)) => failed(e),
        StepView::Done(Ok(title)) => (
            StageView::Note { jira_id, title: title@ },
            ActionView::Ask {
                lines: seq!["JIRA ID: "@ + jira_id, "JIRA Title: "@ + title@],
                prompt: prompt_text("Enter additional commit message"@, None),
                default: None,
            },
        ),
    }
}

/// What follows the note: the commit message, shown, and the question whether to
/// go ahead.
pub open spec fn after_note(jira_id: Seq<char>, title: Seq<char>, typed: Option<String>) -> (
    StageView,
    ActionView,
) {
    let message = commit_message(jira_id, title, typed_answer(typed, None));
    (
        StageView::Confirm { message },
        ActionView::Ask {
            lines: seq![commit_notice(message)],
            prompt: prompt_text("Do you want to proceed? (y/n)"@, Some("y"@)),
            default: Some("y"@),
        },
    )
}

/// What follows the answer to that question: the commit, or the end without one.
pub open spec fn after_confirm(message: Seq<char>, typed: Option<String>) -> (StageView, ActionView) {
    if is_yes(typed_answer(typed, Some("y"@))) {
        (StageView::Commit, ActionView::RunGit { args: commit_args(message), capture: false })
    } else {
        (
            StageView::Finished,
            ActionView::Finish { lines: seq!["Commit cancelled."@], result: Ok(()) },
        )
    }
}

/// The exit code in a subprocess's outcome.
pub open spec fn exit_of(ran: Result<GitOutput, String>) -> Result<Option<i32>, String> {
    match ran {
        Ok(output) => Ok(output.code),
        Err(why) => Err(why),
    }
}

/// What follows the commit: the end, with a word of success or with git's failure.
pub open spec fn after_commit(ran: Result<GitOutput, String>) -> (StageView, ActionView) {
    match commit_result(exit_of(ran)) {
        Ok(()) => (
            StageView::Finished,
            ActionView::Finish { lines: seq!["Commit successful!"@], result: Ok(()) },
        ),
        Err(e) => failed(e),
    }
}

/// The tracker client after `event`: only a session read while the tracker is
/// being asked changes it.
pub open spec fn client_after(app: AppView, event: Event) -> JiraClientView {
    match (app.stage, event) {
        (StageView::Title { phase, .. }, Event::Http(reply)) => JiraClientView {
            session: session_after(app.client.session, phase, reply),
            ..app.client
        },
        _ => app.client,
    }
}

/// The stage that `event` leads to and the action it calls for. An event that the
/// stage was not waiting for ends the run with `Unexpected`.
pub open spec fn turn(app: AppView, event: Event) -> (StageView, ActionView) {
    match (app.stage, event) {
        (StageView::Start, Event::Start) => (
            StageView::Branch,
            ActionView::RunGit { args: branch_args(), capture: true },
        ),
        (StageView::Branch, Event::Git(ran)) => after_branch(app, ran),
        (StageView::Title { jira_id, url, phase }, Event::Http(reply)) => after_reply(
            client_after(app, event),
            jira_id,
            url,
            phase,
            reply,
        ),
        (StageView::Note { jira_id, title }, Event::Answer(typed)) => after_note(
            jira_id,
            title,
            typed,
        ),
        (StageView::Confirm { message }, Event::Answer(typed)) => after_confirm(message, typed),
        (StageView::Commit, Event::Git(ran)) => after_commit(ran),
        _ => failed(AppError::Unexpected),
    }
}

/// The app as `event` leaves it.
pub open spec fn after(app: AppView, event: Event) -> AppView {
    AppView { prefix: app.prefix, client: client_after(app, event), stage: turn(app, event).0 }
}

/// The actions that a run calls for while it takes `events`, one for each event.
pub open spec fn actions_of(app: AppView, events: Seq<Event>) -> Seq<ActionView>
    decreases events.len(),
{
    if events.len() == 0 {
        Seq::empty()
    } else {
        seq![turn(app, events[0]).1] + actions_of(after(app, events[0]), events.drop_first())
    }
}

/// What happens in a run where nothing goes wrong: `git` prints the branch, the
/// tracker accepts the first request and sends the title, the user types a note
/// and a last word, and `git` commits.
pub open spec fn smooth_run(
    ran: Result<GitOutput, String>,
    status: u16,
    title: String,
    note: Option<String>,
    last_word: Option<String>,
    committed: Result<GitOutput, String>,
) -> Seq<Event> {
    seq![
        Event::Start,
        Event::Git(ran),
        Event::Http(Reply::Status(status)),
        Event::Http(Reply::Summary(title)),
        Event::Answer(note),
        Event::Answer(last_word),
        Event::Git(committed),
    ]
}

/// A run where nothing goes wrong asks the tracker once, without logging in,
/// shows id and title, and commits exactly once, with `[id] title note` for the
/// id that the branch names, the title that the tracker sent and the note that
/// the user typed; then it ends well.
pub proof fn lemma_smooth_run_commits_once(
    app: AppView,
    ran: Result<GitOutput, String>,
    status: u16,
    title: String,
    note: Option<String>,
    last_word: Option<String>,
    committed: Result<GitOutput, String>,
)
    requires
        app.stage == StageView::Start,
        current_branch(ran) is Ok,
        jira_id_in(app.prefix, current_branch(ran)->Ok_0) is Ok,
        is_success(status),
        is_yes(typed_answer(last_word, Some("y"@))),
        commit_result(exit_of(committed)) is Ok,
    ensures
        ({
            let jira_id = jira_id_in(app.prefix, current_branch(ran)->Ok_0)->Ok_0;
            let url = issue_url(app.client.base_url, jira_id);
            let message = commit_message(jira_id, title@, typed_answer(note, None));
            actions_of(app, smooth_run(ran, status, title, note, last_word, committed)) == seq![
                ActionView::RunGit { args: branch_args(), capture: true },
                ActionView::Http(RequestView::GetIssue { url, cookie: app.client.session }),
                ActionView::Http(RequestView::ReadIssue),
                ActionView::Ask {
                    lines: seq!["JIRA ID: "@ + jira_id, "JIRA Title: "@ + title@],
                    prompt: prompt_text("Enter additional commit message"@, None),
                    default: None,
                },
                ActionView::Ask {
                    lines: seq![commit_notice(message)],
                    prompt: prompt_text("Do you want to proceed? (y/n)"@, Some("y"@)),
                    default: Some("y"@),
                },
                ActionView::RunGit { args: commit_args(message), capture: false },
                ActionView::Finish { lines: seq!["Commit successful!"@], result: Ok(()) },
            ]
        }),
{
    let events = smooth_run(ran, status, title, note, last_word, committed);
    let jira_id = jira_id_in(app.prefix, current_branch(ran)->Ok_0)->Ok_0;
    let url = issue_url(app.client.base_url, jira_id);
    let message = commit_message(jira_id, title@, typed_answer(note, None));
    let app1 = after(app, events[0]);
    let app2 = after(app1, events[1]);
    let app3 = after(app2, events[2]);
    let app4 = after(app3, events[3]);
    let app5 = after(app4, events[4]);
    let app6 = after(app5, events[5]);
    assert(app1.stage == StageView::Branch);
    assert(app2.stage == StageView::Title { jira_id, url, phase: FetchPhase::FirstGet });
    assert(app3.stage == StageView::Title { jira_id, url, phase: FetchPhase::Issue });
    assert(app4.stage == StageView::Note { jira_id, title: title@ });
    assert(app5.stage == StageView::Confirm { message });
    assert(app6.stage == StageView::Commit);
    let e1 = events.drop_first();
    let e2 = e1.drop_first();
    let e3 = e2.drop_first();
    let e4 = e3.drop_first();
    let e5 = e4.drop_first();
    let e6 = e5.drop_first();
    let e7 = e6.drop_first();
    assert(e1[0] == events[1] && e2[0] == events[2] && e3[0] == events[3] && e4[0] == events[4]
        && e5[0] == events[5] && e6[0] == events[6] && e7.len() == 0);
    assert(actions_of(app6, e6) =~= seq![turn(app6, events[6]).1]) by {
        assert(actions_of(after(app6, events[6]), e7) =~= Seq::<ActionView>::empty());
    }
    assert(actions_of(app5, e5) =~= seq![turn(app5, events[5]).1, turn(app6, events[6]).1]);
    assert(actions_of(app4, e4) =~= seq![
        turn(app4, events[4]).1,
        turn(app5, events[5]).1,
        turn(app6, events[6]).1,
    ]);
    assert(actions_of(app3, e3) =~= seq![
        turn(app3, events[3]).1,
        turn(app4, events[4]).1,
        turn(app5, events[5]).1,
        turn(app6, events[6]).1,
    ]);
    assert(actions_of(app2, e2) =~= seq![
        turn(app2, events[2]).1,
        turn(app3, events[3]).1,
        turn(app4, events[4]).1,
        turn(app5, events[5]).1,
        turn(app6, events[6]).1,
    ]);
    assert(actions_of(app1, e1) =~= seq![
        turn(app1, events[1]).1,
        turn(app2, events[2]).1,
        turn(app3, events[3]).1,
        turn(app4, events[4]).1,
        turn(app5, events[5]).1,
        turn(app6, events[6]).1,
    ]);
    assert(actions_of(app, events) =~= seq![
        turn(app, events[0]).1,
        turn(app1, events[1]).1,
        turn(app2, events[2]).1,
        turn(app3, events[3]).1,
        turn(app4, events[4]).1,
        turn(app5, events[5]).1,
        turn(app6, events[6]).1,
    ]);
}

/// Puts issue id, title and note together: `[id] title note`.
pub fn compose_commit_message(jira_id: &str, title: &str, note: &str) -> (message: String)
    ensures
        message@ == commit_message(jira_id@, title@, note@),
{
    let mut message = String::from_str("[");
    message.append(jira_id);
    message.append("] ");
    message.append(title);
    message.append(" ");
    message.append(note);
    message
}

fn fail(e: AppError) -> (action: Action)
    ensures
        action@ == failed(e).1,
{
    let lines: Vec<String> = Vec::new();
    assert(lines.deep_view() =~= Seq::<Seq<char>>::empty());
    Action::Finish { lines, result: Err(e) }
}

fn finish(line: &str) -> (action: Action)
    ensures
        action@ == (ActionView::Finish { lines: seq![line@], result: Ok(()) }),
{
    let mut lines: Vec<String> = Vec::new();
    lines.push(String::from_str(line));
    assert(lines.deep_view() =~= seq![line@]);
    Action::Finish { lines, result: Ok(()) }
}

impl App {
    /// A run that is ready to start, with the settings in force.
    ///
    /// The settings are put together as `load_config` does it, and the call fails
    /// as that does: with `ConfigMissing` where something required is absent, else
    /// with the reason why the stored password cannot be read.
    pub fn new(stored: &StoredValues, env: &EnvOverrides) -> (r: Result<App, AppError>)
        ensures
            !app_config::is_complete(*stored, *env) ==> r == Err::<App, AppError>(
                AppError::ConfigMissing,
            ),
            app_config::is_complete(*stored, *env) ==> {
                let sealed = stored.encrypted_password->Some_0@;
                &&& forall|secret: Seq<char>|
                    vault::is_blob_of(sealed, secret) <==> (r matches Ok(app)
                        && app@.client.password == secret)
                &&& r matches Err(e) ==> e == vault::decrypt_failure(sealed)
                &&& r matches Ok(app) ==> {
                    &&& app@.stage == StageView::Start
                    &&& app@.client.base_url == app_config::in_force(
                        env.jira_url,
                        stored.jira_url,
                    )->Some_0@
                    &&& app@.client.username == app_config::in_force(
                        env.username,
                        stored.username,
                    )->Some_0@
                    &&& app@.client.session is None
                    &&& app@.prefix == app_config::in_force(
                        env.jira_id_prefix,
                        stored.jira_id_prefix,
                    ).deep_view()
                }
            },
    {
        let config = match load_config(stored, env) {
            Ok(config) => config,
            Err(e) => {
                return Err(e);
            },
        };
        let jira_client = JiraClient::new(
            config.jira_url.clone(),
            config.username.clone(),
            config.password.clone(),
        );
        Ok(App { config, jira_client, git_ops: GitOperations::new(), stage: Stage::Start })
    }

    /// The issue that `branch_name` is about.
    ///
    /// Fails with `ConfigMissing` where no project prefix is configured, and with
    /// `JiraIdNotFound` where the branch holds no issue id of the project.
    pub fn extract_jira_id(&self, branch_name: &str) -> (r: Result<String, AppError>)
        ensures
            match jira_id_in(self@.prefix, branch_name@) {
                Ok(id) => r matches Ok(s) && s@ == id,
                Err(e) => r == Err::<String, AppError>(e),
            },
    {
        match &self.config.jira_id_prefix {
            None => Err(AppError::ConfigMissing),
            Some(prefix) => match extract_jira_id(branch_name, prefix.as_str()) {
                Some(id) => Ok(id),
                None => Err(AppError::JiraIdNotFound),
            },
        }
    }

    /// Takes what has happened and says what to do next.
    ///
    /// A run asks `git` for the branch, the tracker for the title of the issue the
    /// branch names, the user for a note and for a last word, and `git` to commit,
    /// in this order; it ends early on the first failure and when the user says
    /// no. `turn` gives stage and action for every stage and event, and `after`
    /// the app as the event leaves it.
    pub fn run(&mut self, event: Event) -> (action: Action)
        ensures
            final(self)@ == after(old(self)@, event),
            action@ == turn(old(self)@, event).1,
    {
        let mut stage = Stage::Finished;
        core::mem::swap(&mut self.stage, &mut stage);
        match (stage, event) {
            (Stage::Start, Event::Start) => {
                self.stage = Stage::Branch;
                Action::RunGit { args: self.git_ops.branch_command(), capture: true }
            },
            (Stage::Branch, Event::Git(ran)) => {
                let branch = match self.git_ops.get_current_branch(ran) {
                    Ok(branch) => branch,
                    Err(e) => {
                        return fail(e);
                    },
                };
                let jira_id = match self.extract_jira_id(branch.as_str()) {
                    Ok(jira_id) => jira_id,
                    Err(e) => {
                        return fail(e);
                    },
                };
                let (fetch, request) = self.jira_client.get_issue_title(jira_id.as_str());
                self.stage = Stage::Title { jira_id, fetch };
                Action::Http(request)
            },
            (Stage::Title { jira_id, fetch }, Event::Http(reply)) => {
                let mut fetch = fetch;
                match self.jira_client.advance(&mut fetch, reply) {
                    Step::Send(request) => {
                        self.stage = Stage::Title { jira_id, fetch };
                        Action::Http(request)
                    },
                    Step::Done(Err(e)) => fail(e),
                    Step::Done(Ok(title)) => {
                        let mut id_line = String::from_str("JIRA ID: ");
                        id_line.append(jira_id.as_str());
                        let mut title_line = String::from_str("JIRA Title: ");
                        title_line.append(title.as_str());
                        let mut lines: Vec<String> = Vec::new();
                        lines.push(id_line);
                        lines.push(title_line);
                        assert(lines.deep_view() =~= seq![
                            "JIRA ID: "@ + jira_id@,
                            "JIRA Title: "@ + title@,
                        ]);
                        self.stage = Stage::Note { jira_id, title };
                        Action::Ask { lines, prompt: prompt_for_commit_message() }
                    },
                }
            },
            (Stage::Note { jira_id, title }, Event::Answer(typed)) => {
                let note = prompt_for_commit_message().outcome(typed);
                let message = compose_commit_message(
                    jira_id.as_str(),
                    title.as_str(),
                    note.as_str(),
                );
                let (notice, prompt) = confirm_commit(message.as_str());
                let mut lines: Vec<String> = Vec::new();
                lines.push(notice);
                assert(lines.deep_view() =~= seq![commit_notice(message@)]);
                self.stage = Stage::Confirm { message };
                Action::Ask { lines, prompt }
            },
            (Stage::Confirm { message }, Event::Answer(typed)) => {
                let (_, prompt) = confirm_commit(message.as_str());
                let answer = prompt.outcome(typed);
                if is_confirmed(answer.as_str()) {
                    self.stage = Stage::Commit;
                    Action::RunGit {
                        args: self.git_ops.commit_command(message.as_str()),
                        capture: false,
                    }
                } else {
                    finish("Commit cancelled.")
                }
            },
            (Stage::Commit, Event::Git(ran)) => {
                let code = match ran {
                    Ok(output) => Ok(output.code),
                    Err(why) => Err(why),
                };
                match self.git_ops.commit(code) {
                    Ok(()) => finish("Commit successful!"),
                    Err(e) => fail(e),
                }
            },
            _ => fail(AppError::Unexpected),
        }
    }
}

} // verus!
