use lockbox::error::VaultError;
use lockbox::text::{is_empty, parse_number, parse_yes_no, reads_as, trim};

fn s(text: &str) -> String {
    text.to_string()
}

#[test]
fn trim_drops_blanks_at_both_ends() {
    assert_eq!(trim(&s("  hello \t\r\n")), s("hello"));
    assert_eq!(trim(&s("7\n")), s("7"));
    assert_eq!(trim(&s("update master")), s("update master"));
    assert_eq!(trim(&s(" a  b ")), s("a  b"));
    assert_eq!(trim(&s("")), s(""));
    assert_eq!(trim(&s(" \t \n")), s(""));
    assert_eq!(trim(&s("\u{a0}x\u{a0}")), s("\u{a0}x\u{a0}"));
    assert_eq!(trim(&s(" L🦀 ")), s("L🦀"));
}

#[test]
fn parse_number_reads_decimal_digits() {
    assert_eq!(parse_number(&s("16")), Some(16));
    assert_eq!(parse_number(&s("0")), Some(0));
    assert_eq!(parse_number(&s("007")), Some(7));
    assert_eq!(parse_number(&s("1234567890")), Some(1234567890));
    assert_eq!(parse_number(&usize::MAX.to_string()), Some(usize::MAX));
}

#[test]
fn parse_number_refuses_what_is_no_number() {
    assert_eq!(parse_number(&s("")), None);
    assert_eq!(parse_number(&s("1x")), None);
    assert_eq!(parse_number(&s("-1")), None);
    assert_eq!(parse_number(&s("+1")), None);
    assert_eq!(parse_number(&s(" 1")), None);
    assert_eq!(parse_number(&s("１")), None);
    assert_eq!(parse_number(&s("99999999999999999999999999")), None);
    let mut over = usize::MAX.to_string();
    over.push('0');
    assert_eq!(parse_number(&over), None);
}

#[test]
fn parse_yes_no_reads_the_answer() {
    assert_eq!(parse_yes_no(&s("y")), Some(true));
    assert_eq!(parse_yes_no(&s("yes")), Some(true));
    assert_eq!(parse_yes_no(&s("n")), Some(false));
    assert_eq!(parse_yes_no(&s("no")), Some(false));
    assert_eq!(parse_yes_no(&s("")), Some(false));
    assert_eq!(parse_yes_no(&s("maybe")), None);
    assert_eq!(parse_yes_no(&s("Y")), None);
}

#[test]
fn reads_as_compares_whole_texts() {
    assert!(reads_as(&s("exit"), "exit"));
    assert!(!reads_as(&s("exit "), "exit"));
    assert!(!reads_as(&s("exi"), "exit"));
    assert!(is_empty(&s("")));
    assert!(!is_empty(&s(" ")));
}

#[test]
fn messages_of_different_failures_differ() {
    let all = [
        VaultError::Authentication,
        VaultError::Validation,
        VaultError::NotFound,
        VaultError::Io,
        VaultError::Generation,
    ];
    for a in all {
        for b in all {
            if a != b {
                assert_ne!(a.message(), b.message());
            }
        }
    }
    assert_eq!(VaultError::Authentication.message(), "wrong master password");
    assert_eq!(VaultError::NotFound.message(), "no such entry");
}
