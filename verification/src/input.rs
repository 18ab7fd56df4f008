//! What the tool asks on the terminal, and what it makes of the answers. Showing
//! a prompt and reading a line are the caller's part.

use vstd::prelude::*;
use vstd::string::*;
use crate::text::{lowercase_of, to_lowercase, trim, trimmed_of};

verus! {

/// A question for the terminal: the text to show, and the answer that an empty
/// line stands for, if it stands for one.
#[derive(Debug, Clone, PartialEq, Eq)]
pub struct Prompt {
    pub text: String,
    pub default: Option<String>,
}

/// The text of a prompt: the question, the default in square brackets if there is
/// one, a colon and a space.
pub open spec fn prompt_text(prompt: Seq<char>, default: Option<Seq<char>>) -> Seq<char> {
    match default {
        Some(d) => prompt + " ["@ + d + "]"@ + ": "@,
        None => prompt + ": "@,
    }
}

/// The answer in a line that has lost the white space around it: the line, or
/// the default where the line is empty and a default exists.
pub open spec fn answer_in(trimmed: Seq<char>, default: Option<Seq<char>>) -> Seq<char> {
    if trimmed.len() == 0 && default is Some {
        default->Some_0
    } else {
        trimmed
    }
}

/// The answer that a typed line gives: the line without the white space around
/// it, or the default where that is empty and a default exists.
pub open spec fn answer_of(line: Seq<char>, default: Option<Seq<char>>) -> Seq<char> {
    answer_in(trimmed_of(line), default)
}

/// The answer that the terminal gave: the answer in the line typed, or an empty
/// one where no line could be read.
pub open spec fn typed_answer(typed: Option<String>, default: Option<Seq<char>>) -> Seq<char> {
    match typed {
        Some(line) => answer_of(line@, default),
        None => Seq::empty(),
    }
}

/// An answer in lower case that lets the commit go ahead: `y`, `yes` or nothing.
pub open spec fn says_yes(lowered: Seq<char>) -> bool {
    lowered == "y"@ || lowered == "yes"@ || lowered.len() == 0
}

/// An answer that lets the commit go ahead: `y` or `yes` in any case, or nothing.
pub open spec fn is_yes(answer: Seq<char>) -> bool {
    says_yes(lowercase_of(answer))
}

/// The first line shown before a commit: the command that is about to run.
pub open spec fn commit_notice(commit_message: Seq<char>) -> Seq<char> {
    "Git commit command: git commit -m \""@ + commit_message + "\""@
}

impl Prompt {
    /// What the user has answered by typing `line`.
    pub fn answer(&self, line: &str) -> (a: String)
        ensures
            a@ == answer_of(line@, self.default.deep_view()),
    {
        self.answer_in_trimmed(trim(line))
    }

    /// The answer in a line that has lost the white space around it: the line,
    /// or the default where the line is empty and the prompt has one.
    pub fn answer_in_trimmed(&self, trimmed: String) -> (a: String)
        ensures
            a@ == answer_in(trimmed@, self.default.deep_view()),
    {
        if trimmed.as_str().is_empty() {
            match &self.default {
                Some(d) => d.clone(),
                None => trimmed,
            }
        } else {
            trimmed
        }
    }

    /// What the user has answered, given what the terminal read: a line, or
    /// nothing where reading failed, which counts as an empty answer.
    pub fn outcome(&self, typed: Option<String>) -> (a: String)
        ensures
            a@ == typed_answer(typed, self.default.deep_view()),
    {
        match typed {
            Some(line) => self.answer(line.as_str()),
            None => String::new(),
        }
    }
}

/// The prompt that asks for a value and offers `default` for an empty answer.
pub fn prompt_for_input(prompt: &str, default: Option<&str>) -> (p: Prompt)
    ensures
        p.text@ == prompt_text(prompt@, default.deep_view()),
        p.default.deep_view() == default.deep_view(),
{
    let mut text = String::from_str(prompt);
    match default {
        Some(d) => {
            text.append(" [");
            text.append(d);
            text.append("]");
            text.append(": ");
            Prompt { text, default: Some(String::from_str(d)) }
        },
        None => {
            text.append(": ");
            Prompt { text, default: None }
        },
    }
}

/// The text shown before a password is read: the question, a colon and a space.
pub fn prompt_for_password(prompt: &str) -> (text: String)
    ensures
        text@ == prompt_text(prompt@, None),
{
    let mut text = String::from_str(prompt);
    text.append(": ");
    text
}

/// The prompt for the note that ends the commit message. It has no default.
pub fn prompt_for_commit_message() -> (p: Prompt)
    ensures
        p.text@ == prompt_text("Enter additional commit message"@, None),
        p.default is None,
{
    prompt_for_input("Enter additional commit message", None)
}

/// What is shown before a commit: the command about to run, and the prompt that
/// asks whether to go ahead, with `y` for an empty answer.
pub fn confirm_commit(commit_message: &str) -> (ask: (String, Prompt))
    ensures
        ask.0@ == commit_notice(commit_message@),
        ask.1.text@ == prompt_text("Do you want to proceed? (y/n)"@, Some("y"@)),
        ask.1.default.deep_view() == Some("y"@),
{
    let mut notice = String::from_str("Git commit command: git commit -m \"");
    notice.append(commit_message);
    notice.append("\"");
    (notice, prompt_for_input("Do you want to proceed? (y/n)", Some("y")))
}

/// Whether `answer` lets the commit go ahead.
pub fn is_confirmed(answer: &str) -> (b: bool)
    ensures
        b == is_yes(answer@),
{
    lowered_says_yes(to_lowercase(answer))
}

/// Whether an answer that is already in lower case lets the commit go ahead: it
/// does when it is `y`, `yes` or empty.
pub fn lowered_says_yes(lowered: String) -> (b: bool)
    ensures
        b == says_yes(lowered@),
{
    lowered == String::from_str("y") || lowered == String::from_str("yes")
        || lowered.as_str().is_empty()
}

} // verus!
