use lockbox::commands::{Args, Command, Plan, VaultAction};
use lockbox::error::VaultError;
use lockbox::policy::GenerationPolicy;
use lockbox::session::{Pending, Session};
use lockbox::shell::{Effect, Event, Message, MessageKind, Reaction};
use lockbox::vault::{Record, SealedVault, Vault};

const MENU: &str = "[1] add password [2] generate random password [3] list passwords [4] remove password [5] show password [6] update master password [7] exit";

fn s(text: &str) -> String {
    text.to_string()
}

fn shown(reaction: &Reaction) -> Vec<(MessageKind, String)> {
    reaction.messages.iter().map(|m| (m.kind, m.text.clone())).collect()
}

fn plain(text: &str) -> (MessageKind, String) {
    (MessageKind::Plain, s(text))
}

fn success(text: &str) -> (MessageKind, String) {
    (MessageKind::Success, s(text))
}

fn error(text: &str) -> (MessageKind, String) {
    (MessageKind::Error, s(text))
}

fn sealed(passphrase: &str, records: &[(&str, &str, &str)]) -> SealedVault {
    SealedVault {
        passphrase: s(passphrase),
        records: records
            .iter()
            .map(|(a, b, c)| Record { service: s(a), username: s(b), password: s(c) })
            .collect(),
    }
}

fn contents(sealed: &SealedVault) -> Vec<(String, String, String)> {
    sealed.records.iter().map(|r| (r.service.clone(), r.username.clone(), r.password.clone())).collect()
}

fn start(command: Command) -> (Session, Reaction) {
    Session::start(Command::map(Args { command }))
}

fn repl() -> (Session, Reaction) {
    start(Command::Repl { file_name: Some(s("test.vault")) })
}

fn line(text: &str) -> Event {
    Event::Line(s(text))
}

#[test]
fn test_run_cli_repl() {
    let (session, reaction) = repl();
    let output: Vec<String> = reaction.messages.iter().map(|m| m.text.clone()).collect();
    assert!(output.contains(&s("Welcome to L🦀CKBOX!")));
    assert!(output.contains(
        &[
            format!("[{}] {} password", "1", "add"),
            format!("[{}] {} random password", "2", "generate"),
            format!("[{}] {} passwords", "3", "list"),
            format!("[{}] {} password", "4", "remove"),
            format!("[{}] {} password", "5", "show"),
            format!("[{}] {} password", "6", "update master"),
            format!("[{}] {}", "7", "exit"),
        ]
        .join(" ")
    ));
    assert!(matches!(reaction.effect, Effect::ReadLine { .. }));
    let (session, reaction) = session.step(line("exit\n"));
    assert!(session.is_over());
    assert!(reaction.messages.is_empty());
    assert!(matches!(reaction.effect, Effect::Stop));
}

#[test]
fn the_interactive_session_greets_and_shows_its_menu() {
    let (session, reaction) = repl();
    assert!(session.is_interactive());
    assert!(!session.is_over());
    assert_eq!(session.open_records(), None);
    assert_eq!(shown(&reaction), vec![plain("Welcome to L🦀CKBOX!"), plain(MENU)]);
    match reaction.effect {
        Effect::ReadLine { prompt } => assert_eq!(prompt, "Enter your choice"),
        _ => panic!("unexpected effect"),
    }
}

#[test]
fn seven_ends_the_session_cleanly() {
    let (session, _) = repl();
    let (session, reaction) = session.step(line("7\n"));
    assert!(session.is_over());
    assert!(reaction.messages.is_empty());
    assert!(matches!(reaction.effect, Effect::Stop));
    assert_eq!(session.open_records(), None);
}

#[test]
fn the_end_of_input_ends_the_session_cleanly() {
    let (session, _) = repl();
    let (session, reaction) = session.step(Event::EndOfInput);
    assert!(session.is_over());
    assert!(reaction.messages.is_empty());
    assert!(matches!(reaction.effect, Effect::Stop));
    let (session, _) = repl();
    let (session, _) = session.step(line("add"));
    let (session, _) = session.step(line("github"));
    let (session, reaction) = session.step(Event::EndOfInput);
    assert!(session.is_over());
    assert!(reaction.messages.is_empty());
    assert!(matches!(reaction.effect, Effect::Stop));
}

#[test]
fn a_session_that_is_over_stays_over() {
    let (session, _) = repl();
    let (session, _) = session.step(line("exit"));
    let (session, reaction) = session.step(line("1"));
    assert!(session.is_over());
    assert!(reaction.messages.is_empty());
    assert!(matches!(reaction.effect, Effect::Stop));
}

#[test]
fn an_unknown_selection_is_an_error_and_the_menu_comes_again() {
    let (session, _) = repl();
    let (session, reaction) = session.step(line("42"));
    assert!(!session.is_over());
    assert_eq!(shown(&reaction), vec![error("Error: invalid input"), plain(MENU)]);
    assert!(matches!(reaction.effect, Effect::ReadLine { .. }));
    let (session, reaction) = session.step(line(""));
    assert!(!session.is_over());
    assert_eq!(shown(&reaction), vec![error("Error: invalid input"), plain(MENU)]);
}

#[test]
fn an_event_that_is_not_waited_for_ends_the_session() {
    let (session, _) = repl();
    let (session, reaction) = session.step(Event::Stored);
    assert!(session.is_over());
    assert!(reaction.messages.is_empty());
    assert!(matches!(reaction.effect, Effect::Stop));
}

#[test]
fn add_with_a_master_reads_storage_then_writes_it() {
    let (session, reaction) = start(Command::Add {
        file_name: Some(s("v")),
        service: s("github"),
        username: Some(s("alice")),
        password: Some(s("secret")),
        master: Some(s("m")),
        generate: false,
        length: 16,
        symbols: false,
        uppercase: true,
        lowercase: true,
        numbers: true,
    });
    assert!(!session.is_interactive());
    assert!(reaction.messages.is_empty());
    match reaction.effect {
        Effect::Load { path } => assert_eq!(path, "v"),
        _ => panic!("unexpected effect"),
    }
    let (session, reaction) = session.step(Event::Loaded(None));
    assert!(reaction.messages.is_empty());
    assert_eq!(session.open_records(), Some(1));
    match reaction.effect {
        Effect::Store { path, sealed } => {
            assert_eq!(path, "v");
            assert_eq!(sealed.passphrase, "m");
            assert_eq!(contents(&sealed), vec![(s("github"), s("alice"), s("secret"))]);
        }
        _ => panic!("unexpected effect"),
    }
    let (session, reaction) = session.step(Event::Stored);
    assert!(session.is_over());
    assert_eq!(shown(&reaction), vec![success("Password added successfully")]);
    assert!(matches!(reaction.effect, Effect::Stop));
}

#[test]
fn a_missing_master_is_asked_for_before_storage_is_read() {
    let (session, reaction) = start(Command::List { file_name: None, master: None, show_passwords: false });
    assert!(reaction.messages.is_empty());
    match reaction.effect {
        Effect::ReadSecret { label } => assert_eq!(label, "master password"),
        _ => panic!("unexpected effect"),
    }
    let (session, reaction) = session.step(Event::Secret(s("m")));
    match reaction.effect {
        Effect::Load { path } => assert_eq!(path, "passwords"),
        _ => panic!("unexpected effect"),
    }
    let (session, reaction) =
        session.step(Event::Loaded(Some(sealed("m", &[("github", "alice", "secret"), ("x", "", "y")]))));
    assert!(session.is_over());
    assert_eq!(
        shown(&reaction),
        vec![
            plain("Service: github, Username: alice, Password: ********"),
            plain("Service: x, Username: , Password: ********"),
        ]
    );
    assert!(matches!(reaction.effect, Effect::Stop));
}

#[test]
fn list_reveals_the_passwords_on_request() {
    let (session, _) = start(Command::List { file_name: None, master: Some(s("m")), show_passwords: true });
    let (_, reaction) = session.step(Event::Loaded(Some(sealed("m", &[("github", "alice", "secret")]))));
    assert_eq!(shown(&reaction), vec![plain("Service: github, Username: alice, Password: secret")]);
}

#[test]
fn a_wrong_master_is_reported_and_nothing_is_done() {
    let (session, _) = start(Command::Remove {
        file_name: None,
        service: s("github"),
        username: Some(s("alice")),
        master: Some(s("wrong")),
    });
    let (session, reaction) = session.step(Event::Loaded(Some(sealed("right", &[("github", "alice", "secret")]))));
    assert!(session.is_over());
    assert_eq!(session.open_records(), None);
    assert_eq!(shown(&reaction), vec![error("Error: wrong master password")]);
    assert!(matches!(reaction.effect, Effect::Stop));
}

#[test]
fn damaged_storage_is_reported() {
    let (session, _) = start(Command::List { file_name: None, master: Some(s("m")), show_passwords: true });
    let (session, reaction) =
        session.step(Event::Loaded(Some(sealed("m", &[("a", "u", "1"), ("a", "u", "2")]))));
    assert!(session.is_over());
    assert_eq!(shown(&reaction), vec![error("Error: the vault file could not be read or written")]);
}

#[test]
fn storage_that_cannot_be_read_is_reported() {
    let (session, _) = start(Command::List { file_name: None, master: Some(s("m")), show_passwords: true });
    let (session, reaction) = session.step(Event::Failed(s("permission denied")));
    assert!(session.is_over());
    assert_eq!(shown(&reaction), vec![error("Error: permission denied")]);
    assert!(matches!(reaction.effect, Effect::Stop));
}

#[test]
fn storage_that_cannot_be_written_is_reported() {
    let (session, _) = start(Command::Remove {
        file_name: None,
        service: s("github"),
        username: Some(s("alice")),
        master: Some(s("m")),
    });
    let (session, reaction) = session.step(Event::Loaded(Some(sealed("m", &[("github", "alice", "secret")]))));
    assert!(matches!(reaction.effect, Effect::Store { .. }));
    let (session, reaction) = session.step(Event::Failed(s("disk full")));
    assert!(session.is_over());
    assert_eq!(session.open_records(), None);
    assert_eq!(shown(&reaction), vec![error("Error: disk full")]);
}

#[test]
fn remove_writes_the_vault_without_the_record() {
    let (session, _) = start(Command::Remove {
        file_name: None,
        service: s("b"),
        username: None,
        master: Some(s("m")),
    });
    let (session, reaction) =
        session.step(Event::Loaded(Some(sealed("m", &[("a", "", "1"), ("b", "", "2"), ("c", "", "3")]))));
    match reaction.effect {
        Effect::Store { sealed, .. } => {
            assert_eq!(contents(&sealed), vec![(s("a"), s(""), s("1")), (s("c"), s(""), s("3"))]);
        }
        _ => panic!("unexpected effect"),
    }
    let (_, reaction) = session.step(Event::Stored);
    assert_eq!(shown(&reaction), vec![plain("Password deleted")]);
}

#[test]
fn remove_of_a_missing_record_writes_nothing() {
    let (session, _) = start(Command::Remove {
        file_name: None,
        service: s("nope"),
        username: Some(s("alice")),
        master: Some(s("m")),
    });
    let (session, reaction) = session.step(Event::Loaded(Some(sealed("m", &[("github", "alice", "secret")]))));
    assert!(session.is_over());
    assert_eq!(session.open_records(), Some(1));
    assert_eq!(shown(&reaction), vec![error("Error: no such entry")]);
    assert!(matches!(reaction.effect, Effect::Stop));
}

#[test]
fn show_gives_the_password_unmasked() {
    let (session, _) = start(Command::Show {
        file_name: None,
        service: s("github"),
        username: Some(s("alice")),
        master: Some(s("m")),
    });
    let (session, reaction) = session.step(Event::Loaded(Some(sealed("m", &[("github", "alice", "secret")]))));
    assert!(session.is_over());
    assert_eq!(shown(&reaction), vec![plain("Password: secret")]);
    let (session, _) = start(Command::Show {
        file_name: None,
        service: s("github"),
        username: Some(s("bob")),
        master: Some(s("m")),
    });
    let (_, reaction) = session.step(Event::Loaded(Some(sealed("m", &[("github", "alice", "secret")]))));
    assert_eq!(shown(&reaction), vec![error("Error: no such entry")]);
}

#[test]
fn add_without_password_is_a_validation_error() {
    let (session, _) = start(Command::Add {
        file_name: None,
        service: s("github"),
        username: None,
        password: None,
        master: Some(s("m")),
        generate: false,
        length: 16,
        symbols: false,
        uppercase: true,
        lowercase: true,
        numbers: true,
    });
    let (session, reaction) = session.step(Event::Loaded(None));
    assert!(session.is_over());
    assert_eq!(shown(&reaction), vec![error("Error: invalid input")]);
    assert!(matches!(reaction.effect, Effect::Stop));
}

#[test]
fn add_with_generate_stores_a_generated_password() {
    let (session, _) = start(Command::Add {
        file_name: None,
        service: s("github"),
        username: Some(s("alice")),
        password: None,
        master: Some(s("m")),
        generate: true,
        length: 30,
        symbols: false,
        uppercase: false,
        lowercase: true,
        numbers: false,
    });
    let (_, reaction) = session.step(Event::Loaded(None));
    match reaction.effect {
        Effect::Store { sealed, .. } => {
            assert_eq!(sealed.records.len(), 1);
            assert_eq!(sealed.records[0].service, "github");
            assert_eq!(sealed.records[0].username, "alice");
            assert_eq!(sealed.records[0].password.chars().count(), 30);
            assert!(sealed.records[0].password.chars().all(|c| c.is_ascii_lowercase()));
        }
        _ => panic!("unexpected effect"),
    }
}

#[test]
fn add_with_generate_and_no_class_fails_before_anything_is_written() {
    let (session, _) = start(Command::Add {
        file_name: None,
        service: s("github"),
        username: Some(s("alice")),
        password: Some(s("given")),
        master: Some(s("m")),
        generate: true,
        length: 30,
        symbols: false,
        uppercase: false,
        lowercase: false,
        numbers: false,
    });
    let (session, reaction) = session.step(Event::Loaded(None));
    assert!(session.is_over());
    assert_eq!(shown(&reaction), vec![error("Error: no character class is enabled")]);
    assert!(matches!(reaction.effect, Effect::Stop));
}

#[test]
fn step_with_takes_the_password_it_is_given() {
    let (session, _) = start(Command::Add {
        file_name: None,
        service: s("github"),
        username: Some(s("alice")),
        password: None,
        master: Some(s("m")),
        generate: true,
        length: 16,
        symbols: false,
        uppercase: true,
        lowercase: true,
        numbers: true,
    });
    let (_, reaction) = session.step_with(Event::Loaded(None), Some(Ok(vec![s("Drawn0000000000x")])));
    match reaction.effect {
        Effect::Store { sealed, .. } => {
            assert_eq!(contents(&sealed), vec![(s("github"), s("alice"), s("Drawn0000000000x"))]);
        }
        _ => panic!("unexpected effect"),
    }
}

#[test]
fn pending_names_the_policy_that_the_generator_needs() {
    let policy = GenerationPolicy { count: 9, ..GenerationPolicy::standard() };
    let pending = Session::begin(Plan::Generate { policy });
    assert_eq!(pending.policy(), Some(policy));
    let act = Session::begin(Plan::Vault {
        path: s("p"),
        master: Some(s("m")),
        action: VaultAction::Add {
            service: s("a"),
            username: s("u"),
            password: None,
            generate: true,
            policy,
        },
    });
    assert_eq!(act.policy(), None);
    let (session, _) = act.finish();
    let pending = session.prepare(Event::Loaded(None));
    assert!(matches!(pending, Pending::Act { .. }));
    assert_eq!(pending.policy(), Some(GenerationPolicy { count: 1, ..policy }));
    let (_, reaction) = pending.complete(Some(Err(VaultError::Validation)));
    assert_eq!(shown(&reaction), vec![error("Error: invalid input")]);
}

#[test]
fn generate_shows_the_passwords_and_needs_no_vault() {
    let (session, reaction) = start(Command::Generate {
        length: 10,
        symbols: false,
        uppercase: false,
        lowercase: false,
        numbers: true,
        count: 3,
    });
    assert!(session.is_over());
    assert_eq!(session.open_records(), None);
    assert!(matches!(reaction.effect, Effect::Stop));
    assert_eq!(reaction.messages.len(), 4);
    for message in &reaction.messages[..3] {
        assert_eq!(message.kind, MessageKind::Plain);
        assert_eq!(message.text.chars().count(), 10);
        assert!(message.text.chars().all(|c| c.is_ascii_digit()));
    }
    assert_eq!(shown(&reaction)[3], success("Random password generated."));
}

#[test]
fn generate_with_no_class_is_a_generation_error() {
    let (session, reaction) = start(Command::Generate {
        length: 10,
        symbols: false,
        uppercase: false,
        lowercase: false,
        numbers: false,
        count: 3,
    });
    assert!(session.is_over());
    assert_eq!(shown(&reaction), vec![error("Error: no character class is enabled")]);
}

#[test]
fn update_master_asks_for_both_passphrases_then_rekeys() {
    let (session, reaction) = start(Command::UpdateMaster { file_name: None, master: None, new_master: None });
    match reaction.effect {
        Effect::ReadSecret { label } => assert_eq!(label, "master password"),
        _ => panic!("unexpected effect"),
    }
    let (session, reaction) = session.step(Event::Secret(s("old")));
    match reaction.effect {
        Effect::ReadSecret { label } => assert_eq!(label, "new master password"),
        _ => panic!("unexpected effect"),
    }
    let (session, reaction) = session.step(Event::Secret(s("new")));
    assert!(matches!(reaction.effect, Effect::Load { .. }));
    let (session, reaction) = session.step(Event::Loaded(Some(sealed("old", &[("a", "u", "1"), ("b", "v", "2")]))));
    match reaction.effect {
        Effect::Store { sealed, .. } => {
            assert_eq!(sealed.passphrase, "new");
            assert_eq!(contents(&sealed), vec![(s("a"), s("u"), s("1")), (s("b"), s("v"), s("2"))]);
            assert!(Vault::open(Some(sealed), s("old")).is_err());
        }
        _ => panic!("unexpected effect"),
    }
    let (session, reaction) = session.step(Event::Stored);
    assert!(session.is_over());
    assert_eq!(shown(&reaction), vec![success("Master password updated successfully")]);
}

#[test]
fn update_master_with_both_given_asks_for_nothing() {
    let (session, reaction) = start(Command::UpdateMaster {
        file_name: None,
        master: Some(s("old")),
        new_master: Some(s("new")),
    });
    assert!(matches!(reaction.effect, Effect::Load { .. }));
    let (_, reaction) = session.step(Event::Loaded(Some(sealed("wrong", &[]))));
    assert_eq!(shown(&reaction), vec![error("Error: wrong master password")]);
    assert!(matches!(reaction.effect, Effect::Stop));
}

#[test]
fn the_interactive_session_adds_then_lists() {
    let (session, _) = repl();
    let (session, reaction) = session.step(line("1\n"));
    match reaction.effect {
        Effect::ReadLine { prompt } => assert_eq!(prompt, "Service"),
        _ => panic!("unexpected effect"),
    }
    let (session, reaction) = session.step(line(" github \n"));
    match reaction.effect {
        Effect::ReadLine { prompt } => assert_eq!(prompt, "Username"),
        _ => panic!("unexpected effect"),
    }
    let (session, reaction) = session.step(line("alice\n"));
    match reaction.effect {
        Effect::ReadLine { prompt } => assert_eq!(prompt, "Password (leave empty to generate one)"),
        _ => panic!("unexpected effect"),
    }
    let (session, reaction) = session.step(line("secret\n"));
    match reaction.effect {
        Effect::ReadSecret { label } => assert_eq!(label, "master password"),
        _ => panic!("unexpected effect"),
    }
    let (session, reaction) = session.step(Event::Secret(s("m")));
    match reaction.effect {
        Effect::Load { path } => assert_eq!(path, "test.vault"),
        _ => panic!("unexpected effect"),
    }
    let (session, reaction) = session.step(Event::Loaded(None));
    match reaction.effect {
        Effect::Store { path, sealed } => {
            assert_eq!(path, "test.vault");
            assert_eq!(contents(&sealed), vec![(s("github"), s("alice"), s("secret"))]);
        }
        _ => panic!("unexpected effect"),
    }
    let (session, reaction) = session.step(Event::Stored);
    assert!(!session.is_over());
    assert_eq!(shown(&reaction), vec![success("Password added successfully"), plain(MENU)]);
    assert_eq!(session.open_records(), Some(1));

    let (session, reaction) = session.step(line("list"));
    match reaction.effect {
        Effect::ReadLine { prompt } => assert_eq!(prompt, "Show passwords? (y/n)"),
        _ => panic!("unexpected effect"),
    }
    let (session, reaction) = session.step(line("n"));
    assert_eq!(
        shown(&reaction),
        vec![plain("Service: github, Username: alice, Password: ********"), plain(MENU)]
    );
    assert!(matches!(reaction.effect, Effect::ReadLine { .. }));
    let (session, _) = session.step(line("3"));
    let (session, reaction) = session.step(line("yes"));
    assert_eq!(
        shown(&reaction),
        vec![plain("Service: github, Username: alice, Password: secret"), plain(MENU)]
    );
    let (session, reaction) = session.step(line("7"));
    assert!(session.is_over());
    assert!(reaction.messages.is_empty());
}

#[test]
fn the_interactive_session_survives_a_wrong_master() {
    let (session, _) = repl();
    let (session, _) = session.step(line("show"));
    let (session, _) = session.step(line("github"));
    let (session, _) = session.step(line("alice"));
    let (session, _) = session.step(Event::Secret(s("wrong")));
    let (session, reaction) = session.step(Event::Loaded(Some(sealed("right", &[("github", "alice", "secret")]))));
    assert!(!session.is_over());
    assert_eq!(session.open_records(), None);
    assert_eq!(shown(&reaction), vec![error("Error: wrong master password"), plain(MENU)]);
    let (session, _) = session.step(line("5"));
    let (session, _) = session.step(line("github"));
    let (session, reaction) = session.step(line("alice"));
    assert!(matches!(reaction.effect, Effect::ReadSecret { .. }));
    let (session, _) = session.step(Event::Secret(s("right")));
    let (_, reaction) = session.step(Event::Loaded(Some(sealed("right", &[("github", "alice", "secret")]))));
    assert_eq!(shown(&reaction), vec![plain("Password: secret"), plain(MENU)]);
}

#[test]
fn the_interactive_session_renders_a_malformed_answer() {
    let (session, _) = repl();
    let (session, _) = session.step(line("2"));
    let (session, _) = session.step(line("sixteen"));
    let (session, _) = session.step(line(""));
    let (session, reaction) = session.step(line(""));
    assert!(!session.is_over());
    assert_eq!(shown(&reaction), vec![error("Error: invalid input"), plain(MENU)]);
    let (session, _) = session.step(line("generate"));
    let (session, _) = session.step(line("8"));
    let (session, _) = session.step(line("2"));
    let (session, reaction) = session.step(line("n"));
    assert!(!session.is_over());
    assert_eq!(reaction.messages.len(), 4);
    assert_eq!(reaction.messages[0].text.chars().count(), 8);
    assert_eq!(reaction.messages[1].text.chars().count(), 8);
    assert_eq!(shown(&reaction)[2], success("Random password generated."));
    assert_eq!(shown(&reaction)[3], plain(MENU));
}

#[test]
fn the_interactive_session_updates_the_master() {
    let (session, _) = repl();
    let (session, reaction) = session.step(line("6"));
    match reaction.effect {
        Effect::ReadSecret { label } => assert_eq!(label, "master password"),
        _ => panic!("unexpected effect"),
    }
    let (session, reaction) = session.step(Event::Secret(s("old")));
    match reaction.effect {
        Effect::ReadSecret { label } => assert_eq!(label, "new master password"),
        _ => panic!("unexpected effect"),
    }
    let (session, _) = session.step(Event::Secret(s("new")));
    let (session, reaction) = session.step(Event::Loaded(Some(sealed("old", &[("a", "u", "1")]))));
    match reaction.effect {
        Effect::Store { sealed, .. } => assert_eq!(sealed.passphrase, "new"),
        _ => panic!("unexpected effect"),
    }
    let (session, reaction) = session.step(Event::Stored);
    assert_eq!(shown(&reaction), vec![success("Master password updated successfully"), plain(MENU)]);
    let (_, reaction) = session.step(line("6"));
    match reaction.effect {
        Effect::ReadSecret { label } => assert_eq!(label, "new master password"),
        _ => panic!("unexpected effect"),
    }
}

#[test]
fn messages_are_built_with_their_kind() {
    let m = Message::plain(s("text"));
    assert_eq!((m.kind, m.text), plain("text"));
    let m = Message::labelled("Password: ", &s("x"));
    assert_eq!((m.kind, m.text), plain("Password: x"));
    let m = Message::success("done");
    assert_eq!((m.kind, m.text), success("done"));
    let m = Message::failure(&s("why"));
    assert_eq!((m.kind, m.text), error("Error: why"));
    let m = Message::failure_of(VaultError::NotFound);
    assert_eq!((m.kind, m.text), error("Error: no such entry"));
}

fn copy(sealed: &SealedVault) -> SealedVault {
    SealedVault::from_fields(&sealed.to_fields()).unwrap()
}

fn drive(command: Command, storage: &mut Option<SealedVault>, input: &[&str]) -> String {
    let mut lines = input.iter();
    let mut output = String::new();
    let (mut session, mut reaction) = start(command);
    loop {
        for message in &reaction.messages {
            output.push_str(&message.text);
            output.push('\n');
        }
        let event = match reaction.effect {
            Effect::Stop => break,
            Effect::ReadLine { .. } => match lines.next() {
                Some(text) => line(text),
                None => Event::EndOfInput,
            },
            Effect::ReadSecret { .. } => Event::Secret(s("password")),
            Effect::Load { .. } => Event::Loaded(storage.as_ref().map(copy)),
            Effect::Store { sealed, .. } => {
                *storage = Some(sealed);
                Event::Stored
            }
        };
        (session, reaction) = session.step(event);
    }
    assert!(session.is_over());
    output
}

fn seeded() -> Option<SealedVault> {
    Some(sealed("test_master_password", &[("service", "username", "password")]))
}

#[test]
fn test_run_cli() {
    let master = || Some(s("test_master_password"));
    let file = || Some(s("temp_file"));

    let mut storage = seeded();
    let output = drive(
        Command::Add {
            file_name: file(),
            service: s("test_service"),
            username: None,
            password: None,
            master: master(),
            generate: true,
            length: 16,
            symbols: false,
            uppercase: true,
            lowercase: true,
            numbers: true,
        },
        &mut storage,
        &[],
    );
    assert!(output.contains("Password added successfully"));
    assert_eq!(storage.as_ref().unwrap().records.len(), 2);

    let mut storage = seeded();
    let output = drive(
        Command::Generate {
            length: 16,
            symbols: false,
            uppercase: true,
            lowercase: true,
            numbers: true,
            count: 1,
        },
        &mut storage,
        &[],
    );
    assert!(output.contains("Random password generated."));

    let mut storage = seeded();
    let output = drive(
        Command::List { file_name: file(), master: master(), show_passwords: true },
        &mut storage,
        &[],
    );
    assert!(output.contains(&format!(
        "Service: {}, Username: {}, Password: {}",
        "service", "username", "password"
    )));

    let mut storage = seeded();
    let output = drive(
        Command::Remove {
            file_name: file(),
            service: s("service"),
            username: Some(s("username")),
            master: master(),
        },
        &mut storage,
        &[],
    );
    assert!(output.contains("Password deleted"));
    assert!(storage.as_ref().unwrap().records.is_empty());

    let mut storage = seeded();
    let output = drive(
        Command::Show {
            file_name: file(),
            service: s("service"),
            username: Some(s("username")),
            master: master(),
        },
        &mut storage,
        &[],
    );
    assert!(output.contains(&format!("Password: {}", "password")));

    let mut storage = seeded();
    let output = drive(
        Command::UpdateMaster {
            file_name: file(),
            master: master(),
            new_master: Some(s("new_master_password")),
        },
        &mut storage,
        &[],
    );
    assert!(output.contains("Master password updated successfully"));
    assert_eq!(storage.as_ref().unwrap().passphrase, "new_master_password");
    assert_eq!(contents(storage.as_ref().unwrap()), vec![(s("service"), s("username"), s("password"))]);
}

#[test]
fn a_whole_interactive_session_runs_to_its_end() {
    let mut storage = None;
    let output = drive(
        Command::Repl { file_name: Some(s("temp_file")) },
        &mut storage,
        &["add", "github", "alice", "secret", "list", "y", "remove", "github", "alice", "3", "", "exit"],
    );
    let expected = [
        "Welcome to L🦀CKBOX!",
        MENU,
        "Password added successfully",
        MENU,
        "Service: github, Username: alice, Password: secret",
        MENU,
        "Password deleted",
        MENU,
        MENU,
        "",
    ]
    .join("\n");
    assert_eq!(output, expected);
    let stored = storage.unwrap();
    assert_eq!(stored.passphrase, "password");
    assert!(stored.records.is_empty());
}

#[test]
fn an_interactive_session_that_only_exits_touches_no_storage() {
    let mut storage = seeded();
    let output = drive(Command::Repl { file_name: None }, &mut storage, &["7\n"]);
    assert_eq!(output, format!("Welcome to L🦀CKBOX!\n{}\n", MENU));
    assert_eq!(contents(storage.as_ref().unwrap()), vec![(s("service"), s("username"), s("password"))]);
    let mut storage = seeded();
    let output = drive(Command::Repl { file_name: None }, &mut storage, &[]);
    assert_eq!(output, format!("Welcome to L🦀CKBOX!\n{}\n", MENU));
    assert_eq!(storage.unwrap().passphrase, "test_master_password");
}
