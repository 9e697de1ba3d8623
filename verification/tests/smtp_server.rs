use background_jobs::smtp::auth_mechanism::AuthMechanism;
use background_jobs::smtp::smtp_config::SmtpConfig;
use background_jobs::smtp::smtp_server::{LiveSmtp, SmtpCredential};
use background_jobs::smtp::tcp_com::is_last_line;

fn lines(v: &[&str]) -> Vec<String> {
    v.iter().map(|s| s.to_string()).collect()
}

fn names(v: &[AuthMechanism]) -> Vec<String> {
    v.iter()
        .map(|m| match m {
            AuthMechanism::Unknown(n) => format!("?{}", n),
            other => format!("{:?}", other),
        })
        .collect()
}

#[test]
fn encode_is_standard_base64() {
    assert_eq!(SmtpCredential::encode(&"".to_string()), "");
    assert_eq!(SmtpCredential::encode(&"f".to_string()), "Zg==");
    assert_eq!(SmtpCredential::encode(&"fo".to_string()), "Zm8=");
    assert_eq!(SmtpCredential::encode(&"foo".to_string()), "Zm9v");
    assert_eq!(SmtpCredential::encode(&"foobar".to_string()), "Zm9vYmFy");
    assert_eq!(SmtpCredential::encode(&"\u{fb}\u{ff}".to_string()), "w7vDvw==");
    assert_eq!(SmtpCredential::encode(&"\u{3e}\u{3f}\u{ff}".to_string()), "Pj/Dvw==");
}

#[test]
fn encode_auth_plain() {
    let c = SmtpCredential::new_email_password("user".to_string(), "pass".to_string());
    assert_eq!(c.encode_auth(&AuthMechanism::Plain).unwrap(), "\0dXNlcg==\0cGFzcw==");
    assert_eq!(c.encode_auth(&AuthMechanism::PlainClientToken).unwrap(), "\0dXNlcg==\0cGFzcw==");
    assert!(c.encode_auth(&AuthMechanism::Login).is_none());
    assert!(c.encode_auth(&AuthMechanism::XOAuth2).is_none());
}

#[test]
fn encode_auth_oauth() {
    let c = SmtpCredential::new_oauth("a@b".to_string(), "tok".to_string());
    assert_eq!(
        c.encode_auth(&AuthMechanism::XOAuth).unwrap(),
        "user=YUBi\u{1}auth=OAuth dG9r\u{1}\u{1}"
    );
    assert_eq!(
        c.encode_auth(&AuthMechanism::XOAuth2).unwrap(),
        "user=YUBi\u{1}auth=Bearer dG9r\u{1}\u{1}"
    );
    assert!(c.encode_auth(&AuthMechanism::Plain).is_none());
    assert!(c.encode_auth(&AuthMechanism::OAuthBearer).is_none());
}

#[test]
fn encode_auth_bearer() {
    let c = SmtpCredential::new_oauth_bearer("tok".to_string());
    assert_eq!(
        c.encode_auth(&AuthMechanism::OAuthBearer).unwrap(),
        "n,,\u{1}auth=Bearer dG9r\u{1}\u{1}"
    );
    assert!(c.encode_auth(&AuthMechanism::XOAuth).is_none());
    assert!(c.encode_auth(&AuthMechanism::Unknown("X".to_string())).is_none());
}

#[test]
fn parse_auth_reads_auth_line() {
    let r = LiveSmtp::<()>::parse_auth(&lines(&[
        "250-smtp.example.com at your service\r\n",
        "250-SIZE 35882577\r\n",
        "250-AUTH LOGIN PLAIN XOAUTH2 PLAIN-CLIENTTOKEN OAUTHBEARER XOAUTH\r\n",
        "250 SMTPUTF8\r\n",
    ]));
    assert_eq!(
        names(&r),
        vec!["Login", "Plain", "XOAuth2", "PlainClientToken", "OAuthBearer", "XOAuth"]
    );
}

#[test]
fn parse_auth_keeps_unknown_and_order_across_lines() {
    let r = LiveSmtp::<()>::parse_auth(&lines(&[
        "  250-AUTH CRAM-MD5\t PLAIN  ",
        "250 AUTH LOGIN",
        "250-AUTH\u{a0}LOGIN",
        "250-AUTH GSSAPI\u{2003}XOAUTH",
    ]));
    assert_eq!(names(&r), vec!["?CRAM-MD5", "Plain", "?GSSAPI", "XOAuth"]);
}

#[test]
fn parse_auth_ignores_other_lines() {
    assert!(LiveSmtp::<()>::parse_auth(&lines(&["250-AUTH", "250-AUTH   \r\n", "220 ready", ""])).is_empty());
    assert!(LiveSmtp::<()>::parse_auth(&vec![]).is_empty());
}

#[test]
fn parse_auth_is_line_by_line() {
    let a = lines(&["250-AUTH PLAIN", "250-SIZE 10"]);
    let b = lines(&["250-AUTH LOGIN XOAUTH2"]);
    let mut ab = a.clone();
    ab.extend(b.clone());
    let mut expected = names(&LiveSmtp::<()>::parse_auth(&a));
    expected.extend(names(&LiveSmtp::<()>::parse_auth(&b)));
    assert_eq!(names(&LiveSmtp::<()>::parse_auth(&ab)), expected);
}

#[test]
fn tls_supported_checks_every_line() {
    assert!(LiveSmtp::<()>::tls_supported(&lines(&["250-host", "250-STARTTLS\r\n", "250 OK"])));
    assert!(LiveSmtp::<()>::tls_supported(&lines(&["250 STARTTLS"])));
    assert!(!LiveSmtp::<()>::tls_supported(&lines(&["250-host", " 250-STARTTLS", "250 OK"])));
    assert!(!LiveSmtp::<()>::tls_supported(&vec![]));
}

#[test]
fn tls_ready_reads_last_line() {
    assert!(LiveSmtp::<()>::tls_ready(&lines(&["250 OK", "220 2.0.0 Ready to start TLS"])));
    assert!(!LiveSmtp::<()>::tls_ready(&lines(&["220 go", "454 TLS not available"])));
}

#[test]
fn last_line_has_space_as_fourth_byte() {
    assert!(is_last_line("250 OK\r\n"));
    assert!(!is_last_line("250-SIZE 100\r\n"));
    assert!(!is_last_line("250"));
    assert!(!is_last_line(""));
    assert!(is_last_line("\u{e9}5 x"));
    assert!(!is_last_line("\u{e9} x"));
    assert!(!is_last_line("ab\u{e9}"));
}

#[test]
fn host_name_is_before_first_colon() {
    let c = SmtpConfig::new("smtp.gmail.com:587".to_string());
    assert_eq!(c.host_name(), "smtp.gmail.com");
    let c = SmtpConfig::new("[::1]:25".to_string());
    assert_eq!(c.host_name(), "[");
    let c = SmtpConfig::new(":25".to_string());
    assert_eq!(c.host_name(), "");
}

#[test]
fn config_setters() {
    let mut c = SmtpConfig::new("h:1".to_string());
    assert!(c.auth_mechanism.is_none() && c.credentials.is_none());
    c.set_auth_mech(AuthMechanism::Plain);
    assert!(matches!(c.auth_mechanism, Some(AuthMechanism::Plain)));
    c.set_smtp_credentials(SmtpCredential::new_oauth_bearer("t".to_string()));
    assert!(matches!(c.credentials, Some(SmtpCredential::OAuthBearer { .. })));
    assert_eq!(c.host, "h:1");
}
