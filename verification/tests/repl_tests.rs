use lockbox::commands::VaultAction;
use lockbox::error::VaultError;
use lockbox::policy::GenerationPolicy;
use lockbox::repl::{build_job, parse_selection, Job, Selection};

fn s(text: &str) -> String {
    text.to_string()
}

fn answers(texts: &[&str]) -> Vec<String> {
    texts.iter().map(|t| t.to_string()).collect()
}

#[test]
fn a_selection_is_read_by_number_or_name() {
    assert_eq!(parse_selection(&s("1")), Some(Selection::Add));
    assert_eq!(parse_selection(&s("add")), Some(Selection::Add));
    assert_eq!(parse_selection(&s("2")), Some(Selection::Generate));
    assert_eq!(parse_selection(&s("generate")), Some(Selection::Generate));
    assert_eq!(parse_selection(&s("3")), Some(Selection::List));
    assert_eq!(parse_selection(&s("list")), Some(Selection::List));
    assert_eq!(parse_selection(&s("4")), Some(Selection::Remove));
    assert_eq!(parse_selection(&s("remove")), Some(Selection::Remove));
    assert_eq!(parse_selection(&s("5")), Some(Selection::Show));
    assert_eq!(parse_selection(&s("show")), Some(Selection::Show));
    assert_eq!(parse_selection(&s("6")), Some(Selection::UpdateMaster));
    assert_eq!(parse_selection(&s("update master")), Some(Selection::UpdateMaster));
    assert_eq!(parse_selection(&s("7")), Some(Selection::Exit));
    assert_eq!(parse_selection(&s("exit")), Some(Selection::Exit));
}

#[test]
fn blanks_around_a_selection_do_not_count() {
    assert_eq!(parse_selection(&s("7\n")), Some(Selection::Exit));
    assert_eq!(parse_selection(&s("  exit\r\n")), Some(Selection::Exit));
    assert_eq!(parse_selection(&s("\t3 ")), Some(Selection::List));
}

#[test]
fn anything_else_selects_nothing() {
    assert_eq!(parse_selection(&s("")), None);
    assert_eq!(parse_selection(&s("0")), None);
    assert_eq!(parse_selection(&s("8")), None);
    assert_eq!(parse_selection(&s("77")), None);
    assert_eq!(parse_selection(&s("Exit")), None);
    assert_eq!(parse_selection(&s("update  master")), None);
    assert_eq!(parse_selection(&s("quit")), None);
}

#[test]
fn each_selection_asks_its_questions() {
    assert_eq!(Selection::Add.fields(), 3);
    assert_eq!(Selection::Generate.fields(), 3);
    assert_eq!(Selection::List.fields(), 1);
    assert_eq!(Selection::Remove.fields(), 2);
    assert_eq!(Selection::Show.fields(), 2);
    assert_eq!(Selection::UpdateMaster.fields(), 0);
    assert_eq!(Selection::Exit.fields(), 0);
    assert_eq!(Selection::Add.prompt(0), "Service");
    assert_eq!(Selection::Add.prompt(1), "Username");
    assert_eq!(Selection::Add.prompt(2), "Password (leave empty to generate one)");
    assert_eq!(Selection::Generate.prompt(0), "Length (leave empty for 16)");
    assert_eq!(Selection::Generate.prompt(1), "Count (leave empty for 1)");
    assert_eq!(Selection::Generate.prompt(2), "Include symbols? (y/n)");
    assert_eq!(Selection::List.prompt(0), "Show passwords? (y/n)");
    assert_eq!(Selection::Remove.prompt(0), "Service");
    assert_eq!(Selection::Show.prompt(1), "Username");
}

#[test]
fn add_answers_make_an_add_job() {
    match build_job(Selection::Add, &answers(&["github", "alice", "secret"])) {
        Ok(Job::Vault { action: VaultAction::Add { service, username, password, generate, policy } }) => {
            assert_eq!(service, "github");
            assert_eq!(username, "alice");
            assert_eq!(password, Some(s("secret")));
            assert!(!generate);
            assert_eq!(policy, GenerationPolicy::standard());
        }
        _ => panic!("unexpected job"),
    }
    match build_job(Selection::Add, &answers(&["github", "", ""])) {
        Ok(Job::Vault { action: VaultAction::Add { username, password, generate, .. } }) => {
            assert_eq!(username, "");
            assert_eq!(password, None);
            assert!(generate);
        }
        _ => panic!("unexpected job"),
    }
    assert!(matches!(build_job(Selection::Add, &answers(&["", "alice", "p"])), Err(VaultError::Validation)));
    assert!(matches!(build_job(Selection::Add, &answers(&["github", "alice"])), Err(VaultError::Validation)));
}

#[test]
fn generate_answers_make_a_policy() {
    match build_job(Selection::Generate, &answers(&["", "", ""])) {
        Ok(Job::Generate { policy }) => assert_eq!(policy, GenerationPolicy::standard()),
        _ => panic!("unexpected job"),
    }
    match build_job(Selection::Generate, &answers(&["32", "4", "y"])) {
        Ok(Job::Generate { policy }) => assert_eq!(
            policy,
            GenerationPolicy {
                length: 32,
                use_symbols: true,
                use_uppercase: true,
                use_lowercase: true,
                use_numbers: true,
                count: 4,
            }
        ),
        _ => panic!("unexpected job"),
    }
    assert!(matches!(build_job(Selection::Generate, &answers(&["abc", "", ""])), Err(VaultError::Validation)));
    assert!(matches!(build_job(Selection::Generate, &answers(&["8", "-1", ""])), Err(VaultError::Validation)));
    assert!(matches!(build_job(Selection::Generate, &answers(&["8", "1", "perhaps"])), Err(VaultError::Validation)));
}

#[test]
fn the_other_answers_make_their_jobs() {
    assert!(matches!(
        build_job(Selection::List, &answers(&["y"])),
        Ok(Job::Vault { action: VaultAction::List { show_passwords: true } })
    ));
    assert!(matches!(
        build_job(Selection::List, &answers(&[""])),
        Ok(Job::Vault { action: VaultAction::List { show_passwords: false } })
    ));
    assert!(matches!(build_job(Selection::List, &answers(&["what"])), Err(VaultError::Validation)));
    match build_job(Selection::Remove, &answers(&["svc", "u"])) {
        Ok(Job::Vault { action: VaultAction::Remove { service, username } }) => {
            assert_eq!((service, username), (s("svc"), s("u")));
        }
        _ => panic!("unexpected job"),
    }
    match build_job(Selection::Show, &answers(&["svc", ""])) {
        Ok(Job::Vault { action: VaultAction::Show { service, username } }) => {
            assert_eq!((service, username), (s("svc"), s("")));
        }
        _ => panic!("unexpected job"),
    }
    assert!(matches!(build_job(Selection::Remove, &answers(&["", "u"])), Err(VaultError::Validation)));
    assert!(matches!(build_job(Selection::Show, &answers(&["", "u"])), Err(VaultError::Validation)));
    assert!(matches!(
        build_job(Selection::UpdateMaster, &answers(&[])),
        Ok(Job::Vault { action: VaultAction::UpdateMaster { new_master: None } })
    ));
    assert!(matches!(build_job(Selection::Exit, &answers(&[])), Err(VaultError::Validation)));
    assert!(matches!(build_job(Selection::UpdateMaster, &answers(&["x"])), Err(VaultError::Validation)));
}
