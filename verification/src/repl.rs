//! The interactive session's menu: its selections, the questions that each
//! selection asks, and the job that the answers make.

use crate::commands::{VaultAction, VaultActionView};
use crate::error::VaultError;
use crate::policy::{GenerationPolicy, DEFAULT_COUNT, DEFAULT_LENGTH};
use crate::text::{
    is_empty, number_of, parse_number, parse_yes_no, reads_as, texts, trim, trimmed, yes_no_of,
};
use vstd::prelude::*;
use vstd::string::*;

verus! {

/// One entry of the menu.
#[derive(Clone, Copy, Debug, PartialEq, Eq, Structural)]
pub enum Selection {
    Add,
    Generate,
    List,
    Remove,
    Show,
    UpdateMaster,
    Exit,
}

/// The greeting shown when an interactive session starts.
pub open spec fn welcome_text() -> Seq<char> {
    "Welcome to L🦀CKBOX!"@
}

/// The menu, its seven entries numbered from one.
pub open spec fn menu_text() -> Seq<char> {
    "[1] add password [2] generate random password [3] list passwords [4] remove password [5] show password [6] update master password [7] exit"@
}

/// The prompt for a selection.
pub open spec fn choice_prompt() -> Seq<char> {
    "Enter your choice"@
}

/// The entry that a trimmed line selects, by its number or by its name.
pub open spec fn selection_of(t: Seq<char>) -> Option<Selection> {
    if t == "1"@ || t == "add"@ {
        Some(Selection::Add)
    } else if t == "2"@ || t == "generate"@ {
        Some(Selection::Generate)
    } else if t == "3"@ || t == "list"@ {
        Some(Selection::List)
    } else if t == "4"@ || t == "remove"@ {
        Some(Selection::Remove)
    } else if t == "5"@ || t == "show"@ {
        Some(Selection::Show)
    } else if t == "6"@ || t == "update master"@ {
        Some(Selection::UpdateMaster)
    } else if t == "7"@ || t == "exit"@ {
        Some(Selection::Exit)
    } else {
        None
    }
}

/// Reads a line as a selection; blanks around it do not count.
pub fn parse_selection(line: &String) -> (selection: Option<Selection>)
    ensures
        selection == selection_of(trimmed(line@)),
{
    let t = trim(line);
    if reads_as(&t, "1") || reads_as(&t, "add") {
        Some(Selection::Add)
    } else if reads_as(&t, "2") || reads_as(&t, "generate") {
        Some(Selection::Generate)
    } else if reads_as(&t, "3") || reads_as(&t, "list") {
        Some(Selection::List)
    } else if reads_as(&t, "4") || reads_as(&t, "remove") {
        Some(Selection::Remove)
    } else if reads_as(&t, "5") || reads_as(&t, "show") {
        Some(Selection::Show)
    } else if reads_as(&t, "6") || reads_as(&t, "update master") {
        Some(Selection::UpdateMaster)
    } else if reads_as(&t, "7") || reads_as(&t, "exit") {
        Some(Selection::Exit)
    } else {
        None
    }
}

/// The number of lines that a selection asks for.
pub open spec fn field_count(selection: Selection) -> nat {
    match selection {
        Selection::Add => 3,
        Selection::Generate => 3,
        Selection::List => 1,
        Selection::Remove => 2,
        Selection::Show => 2,
        Selection::UpdateMaster => 0,
        Selection::Exit => 0,
    }
}

/// The question for the line with the given index.
pub open spec fn field_prompt(selection: Selection, index: int) -> Seq<char> {
    match selection {
        Selection::Add => if index == 0 {
            "Service"@
        } else if index == 1 {
            "Username"@
        } else {
            "Password (leave empty to generate one)"@
        },
        Selection::Generate => if index == 0 {
            "Length (leave empty for 16)"@
        } else if index == 1 {
            "Count (leave empty for 1)"@
        } else {
            "Include symbols? (y/n)"@
        },
        Selection::List => "Show passwords? (y/n)"@,
        _ => if index == 0 {
            "Service"@
        } else {
            "Username"@
        },
    }
}

impl Selection {
    /// The number of lines that this selection asks for.
    pub fn fields(&self) -> (n: usize)
        ensures
            n == field_count(*self),
    {
        match self {
            Selection::Add => 3,
            Selection::Generate => 3,
            Selection::List => 1,
            Selection::Remove => 2,
            Selection::Show => 2,
            Selection::UpdateMaster => 0,
            Selection::Exit => 0,
        }
    }

    /// The question for the line with the given index.
    pub fn prompt(&self, index: usize) -> (text: String)
        ensures
            text@ == field_prompt(*self, index as int),
    {
        match self {
            Selection::Add => if index == 0 {
                String::from_str("Service")
            } else if index == 1 {
                String::from_str("Username")
            } else {
                String::from_str("Password (leave empty to generate one)")
            },
            Selection::Generate => if index == 0 {
                String::from_str("Length (leave empty for 16)")
            } else if index == 1 {
                String::from_str("Count (leave empty for 1)")
            } else {
                String::from_str("Include symbols? (y/n)")
            },
            Selection::List => String::from_str("Show passwords? (y/n)"),
            _ => if index == 0 {
                String::from_str("Service")
            } else {
                String::from_str("Username")
            },
        }
    }
}

/// What is to be done once a selection's questions are answered.
pub enum Job {
    Generate { policy: GenerationPolicy },
    Vault { action: VaultAction },
}

/// What a job holds.
pub enum JobView {
    Generate { policy: GenerationPolicy },
    Vault { action: VaultActionView },
}

impl View for Job {
    type V = JobView;

    open spec fn view(&self) -> JobView {
        match *self {
            Job::Generate { policy } => JobView::Generate { policy },
            Job::Vault { action } => JobView::Vault { action: action@ },
        }
    }
}

/// The number that an answer gives: the default where it is empty, else the
/// number it writes, if it writes one.
pub open spec fn number_or(answer: Seq<char>, default: usize) -> Option<usize> {
    if answer.len() == 0 {
        Some(default)
    } else {
        number_of(answer)
    }
}

/// The job that trimmed answers make for a selection.
///
/// Adding, removing and showing need a service. Adding with an empty
/// password asks for a generated one under the standard policy. Generating
/// takes a length, a count and whether to use symbols; the other classes are
/// on. Answers that cannot be read, or the wrong number of them, are
/// `Validation`.
pub open spec fn job_of(selection: Selection, answers: Seq<Seq<char>>) -> Result<
    JobView,
    VaultError,
> {
    if answers.len() != field_count(selection) {
        Err(VaultError::Validation)
    } else {
        match selection {
            Selection::Add => if answers[0].len() == 0 {
                Err(VaultError::Validation)
            } else {
                Ok(
                    JobView::Vault {
                        action: VaultActionView::Add {
                            service: answers[0],
                            username: answers[1],
                            password: if answers[2].len() == 0 {
                                None
                            } else {
                                Some(answers[2])
                            },
                            generate: answers[2].len() == 0,
                            policy: GenerationPolicy::standard_policy(),
                        },
                    },
                )
            },
            Selection::Generate => match (
                number_or(answers[0], DEFAULT_LENGTH),
                number_or(answers[1], DEFAULT_COUNT),
                yes_no_of(answers[2]),
            ) {
                (Some(length), Some(count), Some(symbols)) => Ok(
                    JobView::Generate {
                        policy: GenerationPolicy {
                            length,
                            use_symbols: symbols,
                            use_uppercase: true,
                            use_lowercase: true,
                            use_numbers: true,
                            count,
                        },
                    },
                ),
                _ => Err(VaultError::Validation),
            },
            Selection::List => match yes_no_of(answers[0]) {
                Some(show_passwords) => Ok(
                    JobView::Vault { action: VaultActionView::List { show_passwords } },
                ),
                None => Err(VaultError::Validation),
            },
            Selection::Remove => if answers[0].len() == 0 {
                Err(VaultError::Validation)
            } else {
                Ok(
                    JobView::Vault {
                        action: VaultActionView::Remove {
                            service: answers[0],
                            username: answers[1],
                        },
                    },
                )
            },
            Selection::Show => if answers[0].len() == 0 {
                Err(VaultError::Validation)
            } else {
                Ok(
                    JobView::Vault {
                        action: VaultActionView::Show { service: answers[0], username: answers[1] },
                    },
                )
            },
            Selection::UpdateMaster => Ok(
                JobView::Vault { action: VaultActionView::UpdateMaster { new_master: None } },
            ),
            Selection::Exit => Err(VaultError::Validation),
        }
    }
}

/// Reads an answer as a number, with `default` for an empty answer.
fn parse_number_or(answer: &String, default: usize) -> (n: Option<usize>)
    ensures
        n == number_or(answer@, default),
{
    if is_empty(answer) {
        Some(default)
    } else {
        parse_number(answer)
    }
}

/// Makes the job for a selection from its trimmed answers.
pub fn build_job(selection: Selection, answers: &Vec<String>) -> (job: Result<Job, VaultError>)
    ensures
        match job {
            Ok(j) => job_of(selection, texts(answers@)) == Ok::<JobView, VaultError>(j@),
            Err(e) => job_of(selection, texts(answers@)) == Err::<JobView, VaultError>(e),
        },
{
    let ghost given = texts(answers@);
    if answers.len() != selection.fields() {
        return Err(VaultError::Validation);
    }
    match selection {
        Selection::Add => {
            assert(given[0] == answers[0]@ && given[1] == answers[1]@ && given[2] == answers[2]@);
            if is_empty(&answers[0]) {
                return Err(VaultError::Validation);
            }
            let generate = is_empty(&answers[2]);
            let password = if generate {
                None
            } else {
                Some(answers[2].clone())
            };
            Ok(
                Job::Vault {
                    action: VaultAction::Add {
                        service: answers[0].clone(),
                        username: answers[1].clone(),
                        password,
                        generate,
                        policy: GenerationPolicy::standard(),
                    },
                },
            )
        },
        Selection::Generate => {
            assert(given[0] == answers[0]@ && given[1] == answers[1]@ && given[2] == answers[2]@);
            let length = parse_number_or(&answers[0], DEFAULT_LENGTH);
            let count = parse_number_or(&answers[1], DEFAULT_COUNT);
            let symbols = parse_yes_no(&answers[2]);
            match (length, count, symbols) {
                (Some(length), Some(count), Some(symbols)) => Ok(
                    Job::Generate {
                        policy: GenerationPolicy {
                            length,
                            use_symbols: symbols,
                            use_uppercase: true,
                            use_lowercase: true,
                            use_numbers: true,
                            count,
                        },
                    },
                ),
                _ => Err(VaultError::Validation),
            }
        },
        Selection::List => {
            assert(given[0] == answers[0]@);
            match parse_yes_no(&answers[0]) {
                Some(show_passwords) => Ok(
                    Job::Vault { action: VaultAction::List { show_passwords } },
                ),
                None => Err(VaultError::Validation),
            }
        },
        Selection::Remove => {
            assert(given[0] == answers[0]@ && given[1] == answers[1]@);
            if is_empty(&answers[0]) {
                return Err(VaultError::Validation);
            }
            Ok(
                Job::Vault {
                    action: VaultAction::Remove {
                        service: answers[0].clone(),
                        username: answers[1].clone(),
                    },
                },
            )
        },
        Selection::Show => {
            assert(given[0] == answers[0]@ && given[1] == answers[1]@);
            if is_empty(&answers[0]) {
                return Err(VaultError::Validation);
            }
            Ok(
                Job::Vault {
                    action: VaultAction::Show {
                        service: answers[0].clone(),
                        username: answers[1].clone(),
                    },
                },
            )
        },
        Selection::UpdateMaster => Ok(
            Job::Vault { action: VaultAction::UpdateMaster { new_master: None } },
        ),
        Selection::Exit => Err(VaultError::Validation),
    }
}

} // verus!
