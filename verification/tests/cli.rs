use background_jobs::cli::{answer_from_line, cli_auth_credentials, cli_auth_smtp, parse_index, CliError};
use background_jobs::smtp::auth_mechanism::AuthMechanism;
use background_jobs::smtp::smtp_server::SmtpCredential;

fn offered() -> Vec<AuthMechanism> {
    vec![AuthMechanism::Login, AuthMechanism::Plain, AuthMechanism::XOAuth2]
}

fn chars(s: &str) -> Vec<char> {
    s.chars().collect()
}

#[test]
fn no_mechanism_is_refused() {
    assert!(matches!(cli_auth_smtp(vec![], "0"), Err(CliError::NoMechanisms)));
}

#[test]
fn choice_by_number() {
    assert!(matches!(cli_auth_smtp(offered(), "0"), Ok(AuthMechanism::Login)));
    assert!(matches!(cli_auth_smtp(offered(), "1"), Ok(AuthMechanism::Plain)));
    assert!(matches!(cli_auth_smtp(offered(), " 2\n"), Ok(AuthMechanism::XOAuth2)));
    assert!(matches!(cli_auth_smtp(offered(), "+1"), Ok(AuthMechanism::Plain)));
    assert!(matches!(cli_auth_smtp(offered(), "002"), Ok(AuthMechanism::XOAuth2)));
}

#[test]
fn out_of_range_names_last_choice() {
    assert!(matches!(cli_auth_smtp(offered(), "3"), Err(CliError::OutOfRange(2))));
    assert!(matches!(
        cli_auth_smtp(offered(), "18446744073709551615"),
        Err(CliError::OutOfRange(2))
    ));
}

#[test]
fn not_a_number_is_refused_with_trimmed_answer() {
    for bad in ["", "  ", "-1", "+", "1.0", "one", "1 2", "\u{661}", "18446744073709551616"] {
        match cli_auth_smtp(offered(), &format!(" {}\t", bad)) {
            Err(CliError::InvalidInput(t)) => assert_eq!(t, bad.trim()),
            other => panic!("{:?} gave {:?}", bad, other),
        }
    }
}

#[test]
fn parse_index_agrees_with_std() {
    for s in [
        "0", "7", "+7", "-7", "", "+", "++1", "12a", "a12", "007", "18446744073709551615",
        "18446744073709551616", "99999999999999999999", "+18446744073709551615",
    ] {
        assert_eq!(parse_index(&chars(s)), s.parse::<usize>().ok(), "{:?}", s);
    }
}

#[test]
fn credentials_for_chosen_mechanism() {
    let c = cli_auth_credentials(&AuthMechanism::Plain, vec!["a".to_string(), "b".to_string()]);
    assert!(matches!(c, Ok(SmtpCredential::EmailPassword { .. })));
    let c = cli_auth_credentials(&AuthMechanism::Unknown("X".to_string()), vec![]);
    assert_eq!(c.unwrap_err(), "X");
}

#[test]
fn answer_is_trimmed_line() {
    assert_eq!(answer_from_line("  smtp.gmail.com:587\n"), "smtp.gmail.com:587");
    assert_eq!(answer_from_line("\u{3000}a b\r\n"), "a b");
    assert_eq!(answer_from_line("\n"), "");
    for s in ["x", " \t y \u{2029}", ""] {
        assert_eq!(answer_from_line(s), s.trim());
    }
}

#[test]
fn error_messages() {
    assert_eq!(CliError::NoMechanisms.message(), "Tidak ada metode autentikasi yang tersedia");
    assert_eq!(CliError::InvalidInput("abc".to_string()).message(), "'abc' Invalid input");
    assert_eq!(CliError::InvalidInput("".to_string()).message(), "'' Invalid input");
    assert_eq!(CliError::OutOfRange(2).message(), "Expected 0 - 2");
    assert_eq!(CliError::OutOfRange(0).message(), "Expected 0 - 0");
    for n in [9usize, 10, 99, 100, 12345, usize::MAX] {
        assert_eq!(CliError::OutOfRange(n).message(), format!("Expected 0 - {}", n));
    }
    let e = cli_auth_smtp(offered(), " x ").unwrap_err();
    assert_eq!(e.message(), "'x' Invalid input");
    let e = cli_auth_smtp(offered(), "7").unwrap_err();
    assert_eq!(e.message(), "Expected 0 - 2");
}
