//! SASL mechanisms that an SMTP relay advertises.

use vstd::prelude::*;

use crate::smtp::smtp_server::SmtpCredential;

verus! {

/// An authentication mechanism named in a relay's `250-AUTH` line.
#[derive(Debug)]
pub enum AuthMechanism {
    Unknown(String),
    Plain,
    Login,
    XOAuth,
    XOAuth2,
    OAuthBearer,
    PlainClientToken,
}

impl AuthMechanism {
    /// The mechanism that a known name stands for, or `None` for any other name.
    pub open spec fn known_from_name(name: Seq<char>) -> Option<AuthMechanism> {
        if name == "PLAIN"@ {
            Some(AuthMechanism::Plain)
        } else if name == "PLAIN-CLIENTTOKEN"@ {
            Some(AuthMechanism::PlainClientToken)
        } else if name == "LOGIN"@ {
            Some(AuthMechanism::Login)
        } else if name == "XOAUTH"@ {
            Some(AuthMechanism::XOAuth)
        } else if name == "XOAUTH2"@ {
            Some(AuthMechanism::XOAuth2)
        } else if name == "OAUTHBEARER"@ {
            Some(AuthMechanism::OAuthBearer)
        } else {
            None
        }
    }

    /// The name under which a relay advertises the mechanism.
    pub open spec fn name(&self) -> Seq<char> {
        match self {
            AuthMechanism::Plain => "PLAIN"@,
            AuthMechanism::PlainClientToken => "PLAIN-CLIENTTOKEN"@,
            AuthMechanism::Login => "LOGIN"@,
            AuthMechanism::XOAuth => "XOAUTH"@,
            AuthMechanism::XOAuth2 => "XOAUTH2"@,
            AuthMechanism::OAuthBearer => "OAUTHBEARER"@,
            AuthMechanism::Unknown(name) => name@,
        }
    }

    /// The SMTP command that starts authentication with this mechanism.
    pub open spec fn command(&self) -> Option<Seq<char>> {
        match self {
            AuthMechanism::Login => Some("AUTH LOGIN\r\n"@),
            AuthMechanism::Plain => Some("AUTH PLAIN"@),
            AuthMechanism::PlainClientToken => Some("AUTH PLAIN-CLIENTTOKEN"@),
            AuthMechanism::XOAuth => Some("AUTH XOAUTH"@),
            AuthMechanism::XOAuth2 => Some("AUTH XOAUTH2"@),
            AuthMechanism::OAuthBearer => Some("AUTH OAUTHBEARER"@),
            AuthMechanism::Unknown(_) => None,
        }
    }

    /// The line shown for the mechanism when the user chooses one.
    pub open spec fn label(&self) -> Seq<char> {
        match self {
            AuthMechanism::Plain => "PLAIN  -> Email + Password (base64)"@,
            AuthMechanism::Login => "LOGIN  -> Email + Password (challenge based)"@,
            AuthMechanism::XOAuth => "XOAUTH -> OAuth 1.0 token (legacy)"@,
            AuthMechanism::XOAuth2 => "XOAUTH2 -> OAuth 2.0 access token"@,
            AuthMechanism::OAuthBearer => "OAUTHBEARER -> OAuth 2.0 bearer token (RFC 7628)"@,
            AuthMechanism::PlainClientToken => "PLAIN-CLIENTTOKEN -> Google client token auth"@,
            AuthMechanism::Unknown(name) => name@ + " -> Unknown mechanism"@,
        }
    }

    /// The questions asked of the user to build credentials for the mechanism.
    pub open spec fn prompts(&self) -> Seq<Seq<char>> {
        match self {
            AuthMechanism::Plain | AuthMechanism::PlainClientToken | AuthMechanism::Login => seq![
                "Insert your email / username"@,
                "Insert your password"@,
            ],
            AuthMechanism::XOAuth | AuthMechanism::XOAuth2 => seq![
                "Insert your email / username"@,
                "Insert your OAuth Token"@,
            ],
            AuthMechanism::OAuthBearer => seq!["Bearer Token"@],
            AuthMechanism::Unknown(_) => Seq::<Seq<char>>::empty(),
        }
    }

    /// The credentials built from the user's answers to `prompts`, in order;
    /// an unknown mechanism is refused with its name.
    pub open spec fn credentials_from(&self, answers: Seq<String>) -> Result<SmtpCredential, String> {
        match self {
            AuthMechanism::Plain | AuthMechanism::PlainClientToken | AuthMechanism::Login => Ok(
                SmtpCredential::EmailPassword { email: answers[0], password: answers[1] },
            ),
            AuthMechanism::XOAuth | AuthMechanism::XOAuth2 => Ok(
                SmtpCredential::OAuth { email: answers[0], access_token: answers[1] },
            ),
            AuthMechanism::OAuthBearer => Ok(
                SmtpCredential::OAuthBearer { bearer_token: answers[0] },
            ),
            AuthMechanism::Unknown(name) => Err(*name),
        }
    }

    /// The mechanism advertised under `mech`; a name that is not known gives `Unknown`.
    pub fn new(mech: &str) -> (r: Self)
        ensures
            match Self::known_from_name(mech@) {
                Some(k) => r == k,
                None => r matches AuthMechanism::Unknown(name) && name@ == mech@,
            },
    {
        let m: String = mech.to_owned();
        if m == "PLAIN".to_owned() {
            AuthMechanism::Plain
        } else if m == "PLAIN-CLIENTTOKEN".to_owned() {
            AuthMechanism::PlainClientToken
        } else if m == "LOGIN".to_owned() {
            AuthMechanism::Login
        } else if m == "XOAUTH".to_owned() {
            AuthMechanism::XOAuth
        } else if m == "XOAUTH2".to_owned() {
            AuthMechanism::XOAuth2
        } else if m == "OAUTHBEARER".to_owned() {
            AuthMechanism::OAuthBearer
        } else {
            AuthMechanism::Unknown(m)
        }
    }

    /// The command that starts authentication; `None` for an unknown mechanism.
    pub fn auth_command(&self) -> (r: Option<String>)
        ensures
            match r {
                Some(c) => self.command() == Some(c@),
                None => self.command() is None,
            },
    {
        match self {
            AuthMechanism::Login => Some("AUTH LOGIN\r\n".to_owned()),
            AuthMechanism::Plain => Some("AUTH PLAIN".to_owned()),
            AuthMechanism::PlainClientToken => Some("AUTH PLAIN-CLIENTTOKEN".to_owned()),
            AuthMechanism::XOAuth => Some("AUTH XOAUTH".to_owned()),
            AuthMechanism::XOAuth2 => Some("AUTH XOAUTH2".to_owned()),
            AuthMechanism::OAuthBearer => Some("AUTH OAUTHBEARER".to_owned()),
            AuthMechanism::Unknown(_) => None,
        }
    }

    /// The line that describes the mechanism to the user.
    pub fn cli_label(&self) -> (r: String)
        ensures
            r@ == self.label(),
    {
        match self {
            AuthMechanism::Plain => "PLAIN  -> Email + Password (base64)".to_owned(),
            AuthMechanism::Login => "LOGIN  -> Email + Password (challenge based)".to_owned(),
            AuthMechanism::XOAuth => "XOAUTH -> OAuth 1.0 token (legacy)".to_owned(),
            AuthMechanism::XOAuth2 => "XOAUTH2 -> OAuth 2.0 access token".to_owned(),
            AuthMechanism::OAuthBearer => "OAUTHBEARER -> OAuth 2.0 bearer token (RFC 7628)".to_owned(),
            AuthMechanism::PlainClientToken => "PLAIN-CLIENTTOKEN -> Google client token auth".to_owned(),
            AuthMechanism::Unknown(name) => {
                let mut r = name.clone();
                r.append(" -> Unknown mechanism");
                r
            },
        }
    }

    /// The questions to ask the user, in order, before `generate_credentials`.
    pub fn credential_prompts(&self) -> (r: Vec<String>)
        ensures
            r@.map_values(|p: String| p@) == self.prompts(),
    {
        let mut r: Vec<String> = Vec::new();
        match self {
            AuthMechanism::Plain | AuthMechanism::PlainClientToken | AuthMechanism::Login => {
                r.push("Insert your email / username".to_owned());
                r.push("Insert your password".to_owned());
            },
            AuthMechanism::XOAuth | AuthMechanism::XOAuth2 => {
                r.push("Insert your email / username".to_owned());
                r.push("Insert your OAuth Token".to_owned());
            },
            AuthMechanism::OAuthBearer => {
                r.push("Bearer Token".to_owned());
            },
            AuthMechanism::Unknown(_) => {},
        }
        assert(r@.map_values(|p: String| p@) =~= self.prompts());
        r
    }

    /// Credentials for the mechanism from the user's answers to `credential_prompts`;
    /// an unknown mechanism is refused with its name and asks nothing.
    pub fn generate_credentials(&self, answers: Vec<String>) -> (r: Result<SmtpCredential, String>)
        requires
            answers.len() == self.prompts().len(),
        ensures
            r == self.credentials_from(answers@),
    {
        let mut answers = answers;
        let ghost given = answers@;
        match self {
            AuthMechanism::Plain | AuthMechanism::PlainClientToken | AuthMechanism::Login => {
                let password = answers.pop().unwrap();
                let email = answers.pop().unwrap();
                Ok(SmtpCredential::new_email_password(email, password))
            },
            AuthMechanism::XOAuth | AuthMechanism::XOAuth2 => {
                let token = answers.pop().unwrap();
                let email = answers.pop().unwrap();
                Ok(SmtpCredential::new_oauth(email, token))
            },
            AuthMechanism::OAuthBearer => {
                let token = answers.pop().unwrap();
                Ok(SmtpCredential::new_oauth_bearer(token))
            },
            AuthMechanism::Unknown(name) => Err(name.clone()),
        }
    }
}

/// Each known mechanism is read back from the name it is advertised under.
pub proof fn lemma_name_round_trip(m: AuthMechanism)
    requires
        !(m is Unknown),
    ensures
        AuthMechanism::known_from_name(m.name()) == Some(m),
{
    reveal_strlit("PLAIN");
    reveal_strlit("PLAIN-CLIENTTOKEN");
    reveal_strlit("LOGIN");
    reveal_strlit("XOAUTH");
    reveal_strlit("XOAUTH2");
    reveal_strlit("OAUTHBEARER");
    assert("PLAIN"@.len() == 5);
    assert("PLAIN-CLIENTTOKEN"@.len() == 17);
    assert("LOGIN"@.len() == 5);
    assert("XOAUTH"@.len() == 6);
    assert("XOAUTH2"@.len() == 7);
    assert("OAUTHBEARER"@.len() == 11);
    assert("LOGIN"@[0] != "PLAIN"@[0]);
    match m {
        AuthMechanism::Plain => {},
        AuthMechanism::PlainClientToken => {},
        AuthMechanism::Login => {},
        AuthMechanism::XOAuth => {},
        AuthMechanism::XOAuth2 => {},
        AuthMechanism::OAuthBearer => {},
        AuthMechanism::Unknown(_) => {},
    }
}

/// The command that starts authentication is `AUTH`, a space and the
/// mechanism's name, followed by CRLF for LOGIN alone.
pub proof fn lemma_command_names_mechanism(m: AuthMechanism)
    requires
        !(m is Unknown),
    ensures
        m is Login ==> m.command() == Some("AUTH "@ + m.name() + "\r\n"@),
        !(m is Login) ==> m.command() == Some("AUTH "@ + m.name()),
{
    reveal_strlit("AUTH ");
    reveal_strlit("\r\n");
    reveal_strlit("PLAIN");
    reveal_strlit("PLAIN-CLIENTTOKEN");
    reveal_strlit("LOGIN");
    reveal_strlit("XOAUTH");
    reveal_strlit("XOAUTH2");
    reveal_strlit("OAUTHBEARER");
    reveal_strlit("AUTH LOGIN\r\n");
    reveal_strlit("AUTH PLAIN");
    reveal_strlit("AUTH PLAIN-CLIENTTOKEN");
    reveal_strlit("AUTH XOAUTH");
    reveal_strlit("AUTH XOAUTH2");
    reveal_strlit("AUTH OAUTHBEARER");
    assert(m.command()->0 =~= (if m is Login {
        "AUTH "@ + m.name() + "\r\n"@
    } else {
        "AUTH "@ + m.name()
    }));
}

/// Credentials built for a known mechanism other than LOGIN from answers to
/// its prompts are the kind that mechanism encodes: `encode_auth` gives them a
/// payload. (LOGIN is challenge based: it has no initial response.)
pub proof fn lemma_generated_credentials_encode(m: AuthMechanism, answers: Seq<String>)
    requires
        !(m is Unknown),
        !(m is Login),
        answers.len() == m.prompts().len(),
    ensures
        m.credentials_from(answers) matches Ok(c) && c.auth_payload(m) is Some,
{
}

/// Only the six known names are read as known mechanisms, each as the
/// mechanism advertised under it; every other name stays unknown.
pub proof fn lemma_known_names_only(name: Seq<char>, m: AuthMechanism)
    requires
        AuthMechanism::known_from_name(name) == Some(m),
    ensures
        !(m is Unknown),
        name == m.name(),
        name == "PLAIN"@ || name == "PLAIN-CLIENTTOKEN"@ || name == "LOGIN"@ || name == "XOAUTH"@
            || name == "XOAUTH2"@ || name == "OAUTHBEARER"@,
{
}

/// For the password mechanisms (PLAIN, PLAIN-CLIENTTOKEN and LOGIN) the first
/// answer is the address and the second the password; for XOAUTH and XOAUTH2
/// the first is the address and the second the access token; for OAUTHBEARER
/// the one answer is the bearer token.
pub proof fn lemma_answers_fill_credentials(m: AuthMechanism, first: String, second: String)
    ensures
        (m is Plain || m is PlainClientToken || m is Login) ==> m.credentials_from(
            seq![first, second],
        ) == Ok::<SmtpCredential, String>(
            SmtpCredential::EmailPassword { email: first, password: second },
        ),
        (m is XOAuth || m is XOAuth2) ==> m.credentials_from(seq![first, second]) == Ok::<
            SmtpCredential,
            String,
        >(SmtpCredential::OAuth { email: first, access_token: second }),
        m is OAuthBearer ==> m.credentials_from(seq![first]) == Ok::<SmtpCredential, String>(
            SmtpCredential::OAuthBearer { bearer_token: first },
        ),
        m is Unknown ==> m.credentials_from(Seq::<String>::empty()) == Err::<SmtpCredential, String>(
            m->Unknown_0,
        ),
{
}

/// The line that describes a mechanism begins with the name it is advertised
/// under; for an unknown one, the name is followed by ` -> Unknown mechanism`.
pub proof fn lemma_label_begins_with_name(m: AuthMechanism)
    ensures
        m.name().len() <= m.label().len(),
        m.label().take(m.name().len() as int) == m.name(),
        m is Unknown ==> m.label() == m.name() + " -> Unknown mechanism"@,
{
    reveal_strlit("PLAIN");
    reveal_strlit("PLAIN-CLIENTTOKEN");
    reveal_strlit("LOGIN");
    reveal_strlit("XOAUTH");
    reveal_strlit("XOAUTH2");
    reveal_strlit("OAUTHBEARER");
    reveal_strlit("PLAIN  -> Email + Password (base64)");
    reveal_strlit("LOGIN  -> Email + Password (challenge based)");
    reveal_strlit("XOAUTH -> OAuth 1.0 token (legacy)");
    reveal_strlit("XOAUTH2 -> OAuth 2.0 access token");
    reveal_strlit("OAUTHBEARER -> OAuth 2.0 bearer token (RFC 7628)");
    reveal_strlit("PLAIN-CLIENTTOKEN -> Google client token auth");
    assert(m.label().take(m.name().len() as int) =~= m.name());
}

} // verus!
