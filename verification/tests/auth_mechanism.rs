use background_jobs::smtp::auth_mechanism::AuthMechanism;
use background_jobs::smtp::smtp_server::SmtpCredential;

#[test]
fn new_reads_known_names() {
    assert!(matches!(AuthMechanism::new("PLAIN"), AuthMechanism::Plain));
    assert!(matches!(AuthMechanism::new("PLAIN-CLIENTTOKEN"), AuthMechanism::PlainClientToken));
    assert!(matches!(AuthMechanism::new("LOGIN"), AuthMechanism::Login));
    assert!(matches!(AuthMechanism::new("XOAUTH"), AuthMechanism::XOAuth));
    assert!(matches!(AuthMechanism::new("XOAUTH2"), AuthMechanism::XOAuth2));
    assert!(matches!(AuthMechanism::new("OAUTHBEARER"), AuthMechanism::OAuthBearer));
}

#[test]
fn new_keeps_unknown_names() {
    match AuthMechanism::new("CRAM-MD5") {
        AuthMechanism::Unknown(name) => assert_eq!(name, "CRAM-MD5"),
        other => panic!("unexpected {:?}", other),
    }
    match AuthMechanism::new("plain") {
        AuthMechanism::Unknown(name) => assert_eq!(name, "plain"),
        other => panic!("unexpected {:?}", other),
    }
    match AuthMechanism::new("") {
        AuthMechanism::Unknown(name) => assert_eq!(name, ""),
        other => panic!("unexpected {:?}", other),
    }
}

#[test]
fn auth_commands() {
    assert_eq!(AuthMechanism::Login.auth_command().unwrap(), "AUTH LOGIN\r\n");
    assert_eq!(AuthMechanism::Plain.auth_command().unwrap(), "AUTH PLAIN");
    assert_eq!(AuthMechanism::PlainClientToken.auth_command().unwrap(), "AUTH PLAIN-CLIENTTOKEN");
    assert_eq!(AuthMechanism::XOAuth.auth_command().unwrap(), "AUTH XOAUTH");
    assert_eq!(AuthMechanism::XOAuth2.auth_command().unwrap(), "AUTH XOAUTH2");
    assert_eq!(AuthMechanism::OAuthBearer.auth_command().unwrap(), "AUTH OAUTHBEARER");
    assert!(AuthMechanism::Unknown("GSSAPI".to_string()).auth_command().is_none());
}

#[test]
fn command_is_auth_and_name() {
    for name in ["PLAIN", "PLAIN-CLIENTTOKEN", "XOAUTH", "XOAUTH2", "OAUTHBEARER"] {
        let m = AuthMechanism::new(name);
        assert_eq!(m.auth_command().unwrap(), format!("AUTH {}", name));
    }
    assert_eq!(AuthMechanism::new("LOGIN").auth_command().unwrap(), "AUTH LOGIN\r\n");
}

#[test]
fn labels() {
    assert_eq!(AuthMechanism::Plain.cli_label(), "PLAIN  -> Email + Password (base64)");
    assert_eq!(AuthMechanism::Login.cli_label(), "LOGIN  -> Email + Password (challenge based)");
    assert_eq!(AuthMechanism::XOAuth.cli_label(), "XOAUTH -> OAuth 1.0 token (legacy)");
    assert_eq!(AuthMechanism::XOAuth2.cli_label(), "XOAUTH2 -> OAuth 2.0 access token");
    assert_eq!(
        AuthMechanism::OAuthBearer.cli_label(),
        "OAUTHBEARER -> OAuth 2.0 bearer token (RFC 7628)"
    );
    assert_eq!(
        AuthMechanism::PlainClientToken.cli_label(),
        "PLAIN-CLIENTTOKEN -> Google client token auth"
    );
    assert_eq!(
        AuthMechanism::Unknown("NTLM".to_string()).cli_label(),
        "NTLM -> Unknown mechanism"
    );
}

#[test]
fn prompts_per_mechanism() {
    assert_eq!(
        AuthMechanism::Plain.credential_prompts(),
        vec!["Insert your email / username".to_string(), "Insert your password".to_string()]
    );
    assert_eq!(
        AuthMechanism::XOAuth2.credential_prompts(),
        vec!["Insert your email / username".to_string(), "Insert your OAuth Token".to_string()]
    );
    assert_eq!(AuthMechanism::OAuthBearer.credential_prompts(), vec!["Bearer Token".to_string()]);
    assert!(AuthMechanism::Unknown("X".to_string()).credential_prompts().is_empty());
}

#[test]
fn generate_email_password() {
    let c = AuthMechanism::Login
        .generate_credentials(vec!["me@example.com".to_string(), "secret".to_string()])
        .unwrap();
    match c {
        SmtpCredential::EmailPassword { email, password } => {
            assert_eq!(email, "me@example.com");
            assert_eq!(password, "secret");
        }
        other => panic!("unexpected {:?}", other),
    }
}

#[test]
fn generate_oauth() {
    let c = AuthMechanism::XOAuth
        .generate_credentials(vec!["me@example.com".to_string(), "tok".to_string()])
        .unwrap();
    match c {
        SmtpCredential::OAuth { email, access_token } => {
            assert_eq!(email, "me@example.com");
            assert_eq!(access_token, "tok");
        }
        other => panic!("unexpected {:?}", other),
    }
}

#[test]
fn generate_bearer() {
    let c = AuthMechanism::OAuthBearer.generate_credentials(vec!["tok".to_string()]).unwrap();
    match c {
        SmtpCredential::OAuthBearer { bearer_token } => assert_eq!(bearer_token, "tok"),
        other => panic!("unexpected {:?}", other),
    }
}

#[test]
fn generate_unknown_is_refused_with_name() {
    let r = AuthMechanism::Unknown("DIGEST-MD5".to_string()).generate_credentials(vec![]);
    assert_eq!(r.unwrap_err(), "DIGEST-MD5");
}

#[test]
fn generated_credentials_encode_except_login() {
    for name in ["PLAIN", "PLAIN-CLIENTTOKEN", "XOAUTH", "XOAUTH2", "OAUTHBEARER"] {
        let m = AuthMechanism::new(name);
        let answers: Vec<String> =
            m.credential_prompts().iter().map(|_| "x".to_string()).collect();
        let c = m.generate_credentials(answers).unwrap();
        assert!(c.encode_auth(&m).is_some(), "{}", name);
    }
    let login = AuthMechanism::Login;
    let c = login.generate_credentials(vec!["a".to_string(), "b".to_string()]).unwrap();
    assert!(c.encode_auth(&login).is_none());
}
