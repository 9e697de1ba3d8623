//! Credentials, what they are encoded into for each mechanism, and the
//! reading of a relay's capabilities.

use vstd::prelude::*;

use crate::smtp::auth_mechanism::AuthMechanism;
use vstd::utf8::encode_utf8;
use crate::text::{
    lemma_trim_unchanged, lemma_words_single, no_space, is_space,
    from_chars, has_prefix, split_whitespace_chars, starts_with_chars, strip_prefix, strip_prefix_chars,
    to_chars, trim, trim_chars, words,
};

verus! {

/// What the user authenticates with.
#[derive(Debug)]
pub enum SmtpCredential {
    EmailPassword { email: String, password: String },
    OAuth { email: String, access_token: String },
    OAuthBearer { bearer_token: String },
}

impl SmtpCredential {
    /// Credentials made of an address and a password.
    pub fn new_email_password(email: String, password: String) -> (r: Self)
        ensures
            r == (SmtpCredential::EmailPassword { email, password }),
    {
        SmtpCredential::EmailPassword { email, password }
    }

    /// Credentials made of an address and an OAuth access token.
    pub fn new_oauth(email: String, access_token: String) -> (r: Self)
        ensures
            r == (SmtpCredential::OAuth { email, access_token }),
    {
        SmtpCredential::OAuth { email, access_token }
    }

    /// Credentials made of a bearer token.
    pub fn new_oauth_bearer(bearer_token: String) -> (r: Self)
        ensures
            r == (SmtpCredential::OAuthBearer { bearer_token }),
    {
        SmtpCredential::OAuthBearer { bearer_token }
    }
}

/// The character for a six-bit value in the standard base64 alphabet (RFC 4648).
pub open spec fn base64_digit(v: int) -> char {
    if v < 26 {
        (65 + v) as char
    } else if v < 52 {
        (97 + (v - 26)) as char
    } else if v < 62 {
        (48 + (v - 52)) as char
    } else if v == 62 {
        '+'
    } else {
        '/'
    }
}

/// Standard base64 with `=` padding (RFC 4648, section 4) of the bytes `b`.
pub open spec fn base64_encode(b: Seq<u8>) -> Seq<char>
    decreases b.len(),
{
    if b.len() == 0 {
        Seq::<char>::empty()
    } else {
        let x = b[0] as int;
        let y = if b.len() > 1 { b[1] as int } else { 0 };
        let z = if b.len() > 2 { b[2] as int } else { 0 };
        let first = base64_digit(x / 4);
        let second = base64_digit((x % 4) * 16 + y / 16);
        if b.len() == 1 {
            seq![first, second, '=', '=']
        } else if b.len() == 2 {
            seq![first, second, base64_digit((y % 16) * 4), '=']
        } else {
            seq![first, second, base64_digit((y % 16) * 4 + z / 64), base64_digit(z % 64)]
                + base64_encode(b.skip(3))
        }
    }
}

/// Base64 of the UTF-8 bytes of a text.
pub open spec fn base64_text(s: Seq<char>) -> Seq<char> {
    base64_encode(encode_utf8(s))
}

/// A text short enough that its base64 form, a third longer than its UTF-8
/// bytes, can be allocated.
pub open spec fn fits(s: Seq<char>) -> bool {
    encode_utf8(s).len() <= isize::MAX / 2
}

impl SmtpCredential {
    /// Whether every text of the credentials is short enough to encode.
    pub open spec fn fits(&self) -> bool {
        match self {
            SmtpCredential::EmailPassword { email, password } => fits(email@) && fits(password@),
            SmtpCredential::OAuth { email, access_token } => fits(email@) && fits(access_token@),
            SmtpCredential::OAuthBearer { bearer_token } => fits(bearer_token@),
        }
    }

    /// What authenticates these credentials with `mechanism`: the SASL initial
    /// response, with each secret in base64; `None` where the credentials do
    /// not suit the mechanism.
    pub open spec fn auth_payload(&self, mechanism: AuthMechanism) -> Option<Seq<char>> {
        match (self, mechanism) {
            (SmtpCredential::EmailPassword { email, password }, AuthMechanism::Plain) => Some(
                "\0"@ + base64_text(email@) + "\0"@ + base64_text(password@),
            ),
            (SmtpCredential::EmailPassword { email, password }, AuthMechanism::PlainClientToken) =>
                Some("\0"@ + base64_text(email@) + "\0"@ + base64_text(password@)),
            (SmtpCredential::OAuth { email, access_token }, AuthMechanism::XOAuth) => Some(
                "user="@ + base64_text(email@) + "\x01auth=OAuth "@ + base64_text(access_token@)
                    + "\x01\x01"@,
            ),
            (SmtpCredential::OAuth { email, access_token }, AuthMechanism::XOAuth2) => Some(
                "user="@ + base64_text(email@) + "\x01auth=Bearer "@ + base64_text(access_token@)
                    + "\x01\x01"@,
            ),
            (SmtpCredential::OAuthBearer { bearer_token }, AuthMechanism::OAuthBearer) => Some(
                "n,,\x01auth=Bearer "@ + base64_text(bearer_token@) + "\x01\x01"@,
            ),
            _ => None,
        }
    }

    /// Standard base64, with padding, of the UTF-8 bytes of `plain`.
    /// Trusted: base64's `general_purpose::STANDARD.encode`, which uses the RFC 4648
    /// alphabet and pads with `=`; it panics only where the output length overflows
    /// `usize` or cannot be allocated, which the bound on the input rules out.
    #[verifier::external_body]
    pub fn encode(plain: &String) -> (r: String)
        requires
            fits(plain@),
        ensures
            r@ == base64_text(plain@),
    {
        base64::Engine::encode(&base64::engine::general_purpose::STANDARD, plain)
    }

    /// The initial response that authenticates these credentials with `mechanism`;
    /// `None` where they do not suit it.
    pub fn encode_auth(&self, mechanism: &AuthMechanism) -> (r: Option<String>)
        requires
            self.fits(),
        ensures
            match r {
                Some(p) => self.auth_payload(*mechanism) == Some(p@),
                None => self.auth_payload(*mechanism) is None,
            },
    {
        match (self, mechanism) {
            (SmtpCredential::EmailPassword { email, password }, AuthMechanism::Plain)
            | (SmtpCredential::EmailPassword { email, password }, AuthMechanism::PlainClientToken) => {
                let mut r = "\0".to_owned();
                r.append(Self::encode(email).as_str());
                r.append("\0");
                r.append(Self::encode(password).as_str());
                Some(r)
            },
            (SmtpCredential::OAuth { email, access_token }, AuthMechanism::XOAuth) => {
                let mut r = "user=".to_owned();
                r.append(Self::encode(email).as_str());
                r.append("\x01auth=OAuth ");
                r.append(Self::encode(access_token).as_str());
                r.append("\x01\x01");
                Some(r)
            },
            (SmtpCredential::OAuth { email, access_token }, AuthMechanism::XOAuth2) => {
                let mut r = "user=".to_owned();
                r.append(Self::encode(email).as_str());
                r.append("\x01auth=Bearer ");
                r.append(Self::encode(access_token).as_str());
                r.append("\x01\x01");
                Some(r)
            },
            (SmtpCredential::OAuthBearer { bearer_token }, AuthMechanism::OAuthBearer) => {
                let mut r = "n,,\x01auth=Bearer ".to_owned();
                r.append(Self::encode(bearer_token).as_str());
                r.append("\x01\x01");
                Some(r)
            },
            _ => None,
        }
    }
}

/// A connection to an SMTP relay: the stream and the relay's host name.
#[derive(Debug)]
pub struct LiveSmtp<T> {
    pub stream: T,
    pub server_name: String,
}

/// The texts of a list of strings.
pub open spec fn texts(v: Seq<String>) -> Seq<Seq<char>> {
    v.map_values(|s: String| s@)
}

/// The mechanism names that one reply line advertises: the words after
/// `250-AUTH ` in the trimmed line, or none where the line does not begin so.
pub open spec fn line_mechanism_names(line: Seq<char>) -> Seq<Seq<char>> {
    match strip_prefix(trim(line), "250-AUTH "@) {
        Some(rest) => words(rest),
        None => Seq::<Seq<char>>::empty(),
    }
}

/// The mechanism names that the reply lines advertise, line after line.
pub open spec fn advertised_names(lines: Seq<Seq<char>>) -> Seq<Seq<char>>
    decreases lines.len(),
{
    if lines.len() == 0 {
        Seq::<Seq<char>>::empty()
    } else {
        advertised_names(lines.drop_last()) + line_mechanism_names(lines.last())
    }
}

/// Whether `m` is the mechanism that `AuthMechanism::new` gives for `name`.
pub open spec fn named(m: AuthMechanism, name: Seq<char>) -> bool {
    match AuthMechanism::known_from_name(name) {
        Some(k) => m == k,
        None => m matches AuthMechanism::Unknown(n) && n@ == name,
    }
}

/// Whether a reply line announces STARTTLS.
pub open spec fn announces_starttls(line: Seq<char>) -> bool {
    has_prefix(line, "250-STARTTLS"@) || has_prefix(line, "250 STARTTLS"@)
}

impl<T> LiveSmtp<T> {
    /// The mechanisms that the reply lines advertise, in order.
    pub fn parse_auth(bucket_response: &Vec<String>) -> (r: Vec<AuthMechanism>)
        ensures
            r.len() == advertised_names(texts(bucket_response@)).len(),
            forall|i: int|
                0 <= i < r.len() ==> named(
                    #[trigger] r@[i],
                    advertised_names(texts(bucket_response@))[i],
                ),
    {
        let ghost lines = texts(bucket_response@);
        let mut v: Vec<AuthMechanism> = Vec::new();
        let prefix = to_chars("250-AUTH ");
        let mut i: usize = 0;
        while i < bucket_response.len()
            invariant
                i <= bucket_response.len(),
                lines == texts(bucket_response@),
                prefix@ == "250-AUTH "@,
                v.len() == advertised_names(lines.take(i as int)).len(),
                forall|k: int|
                    0 <= k < v.len() ==> named(
                        #[trigger] v@[k],
                        advertised_names(lines.take(i as int))[k],
                    ),
            decreases bucket_response.len() - i,
        {
            let line = to_chars(bucket_response[i].as_str());
            let trimmed = trim_chars(&line);
            let ghost before = advertised_names(lines.take(i as int));
            let ghost base = v@;
            proof {
                assert(lines.take(i + 1).drop_last() =~= lines.take(i as int));
                assert(lines.take(i + 1).last() == line@);
            }
            match strip_prefix_chars(&trimmed, &prefix) {
                Some(rest) => {
                    let ws = split_whitespace_chars(&rest);
                    let ghost names = line_mechanism_names(line@);
                    assert(names == crate::text::char_views(ws@));
                    let mut j: usize = 0;
                    while j < ws.len()
                        invariant
                            j <= ws.len(),
                            names == crate::text::char_views(ws@),
                            v.len() == base.len() + j,
                            base.len() == before.len(),
                            forall|k: int| 0 <= k < base.len() ==> #[trigger] v@[k] == base[k],
                            forall|k: int|
                                0 <= k < base.len() ==> named(#[trigger] base[k], before[k]),
                            forall|k: int|
                                0 <= k < j ==> named(#[trigger] v@[base.len() + k], names[k]),
                        decreases ws.len() - j,
                    {
                        let name = from_chars(ws[j].as_slice());
                        assert(name@ == names[j as int]);
                        v.push(AuthMechanism::new(name.as_str()));
                        j = j + 1;
                    }
                    assert forall|k: int| 0 <= k < v.len() implies named(
                        #[trigger] v@[k],
                        advertised_names(lines.take(i + 1))[k],
                    ) by {
                        if k < base.len() {
                            assert(v@[k] == base[k]);
                        } else {
                            assert(v@[base.len() + (k - base.len())] == v@[k]);
                        }
                    }
                },
                None => {
                    assert(line_mechanism_names(line@) =~= Seq::<Seq<char>>::empty());
                    assert(advertised_names(lines.take(i + 1)) =~= before);
                },
            }
            i = i + 1;
        }
        assert(lines.take(i as int) =~= lines);
        v
    }

    /// Whether the relay offers STARTTLS: some reply line begins with
    /// `250-STARTTLS` or `250 STARTTLS`.
    pub fn tls_supported(responses: &Vec<String>) -> (r: bool)
        ensures
            r == exists|i: int|
                0 <= i < responses.len() && announces_starttls(#[trigger] responses@[i]@),
    {
        let dash = to_chars("250-STARTTLS");
        let space = to_chars("250 STARTTLS");
        let mut i: usize = 0;
        while i < responses.len()
            invariant
                i <= responses.len(),
                dash@ == "250-STARTTLS"@,
                space@ == "250 STARTTLS"@,
                forall|k: int| 0 <= k < i ==> !announces_starttls(#[trigger] responses@[k]@),
            decreases responses.len() - i,
        {
            let line = to_chars(responses[i].as_str());
            if starts_with_chars(&line, &dash) || starts_with_chars(&line, &space) {
                return true;
            }
            i = i + 1;
        }
        false
    }

    /// Whether the relay is ready for the TLS handshake: its last reply line
    /// begins with `220`.
    pub fn tls_ready(responses: &Vec<String>) -> (r: bool)
        requires
            responses.len() > 0,
        ensures
            r == has_prefix(responses@.last()@, "220"@),
    {
        let line = to_chars(responses[responses.len() - 1].as_str());
        let code = to_chars("220");
        starts_with_chars(&line, &code)
    }
}

/// Reply lines are read one by one: the mechanisms advertised by two runs of
/// lines are those of the first run followed by those of the second.
pub proof fn lemma_advertised_names_concat(a: Seq<Seq<char>>, b: Seq<Seq<char>>)
    ensures
        advertised_names(a + b) == advertised_names(a) + advertised_names(b),
    decreases b.len(),
{
    if b.len() == 0 {
        assert(a + b =~= a);
        assert(advertised_names(a) + advertised_names(b) =~= advertised_names(a));
    } else {
        assert((a + b).drop_last() =~= a + b.drop_last());
        assert((a + b).last() == b.last());
        lemma_advertised_names_concat(a, b.drop_last());
        assert(advertised_names(a) + advertised_names(b.drop_last()) + line_mechanism_names(b.last())
            =~= advertised_names(a) + (advertised_names(b.drop_last()) + line_mechanism_names(b.last())));
    }
}

/// A line that does not begin, once trimmed, with `250-AUTH ` advertises nothing.
pub proof fn lemma_other_lines_advertise_nothing(lines: Seq<Seq<char>>, line: Seq<char>)
    requires
        !has_prefix(trim(line), "250-AUTH "@),
    ensures
        advertised_names(lines.push(line)) == advertised_names(lines),
{
    assert(lines.push(line).drop_last() =~= lines);
    assert(advertised_names(lines) + Seq::<Seq<char>>::empty() =~= advertised_names(lines));
}

/// The payloads, for all credentials: PLAIN and PLAIN-CLIENTTOKEN send a NUL,
/// the base64 of the address, a NUL and the base64 of the password, and agree;
/// XOAUTH and XOAUTH2 send `user=` and the base64 of the address, then the
/// token after `auth=OAuth ` or `auth=Bearer `; OAUTHBEARER sends the token
/// after `n,,` and `auth=Bearer `.
pub proof fn lemma_payload_shapes(email: String, secret: String)
    ensures
        (SmtpCredential::EmailPassword { email, password: secret }).auth_payload(
            AuthMechanism::Plain,
        ) == Some("\0"@ + base64_text(email@) + "\0"@ + base64_text(secret@)),
        (SmtpCredential::EmailPassword { email, password: secret }).auth_payload(
            AuthMechanism::PlainClientToken,
        ) == (SmtpCredential::EmailPassword { email, password: secret }).auth_payload(
            AuthMechanism::Plain,
        ),
        (SmtpCredential::EmailPassword { email, password: secret }).auth_payload(
            AuthMechanism::Login,
        ) is None,
        (SmtpCredential::OAuth { email, access_token: secret }).auth_payload(AuthMechanism::XOAuth)
            == Some("user="@ + base64_text(email@) + "\x01auth=OAuth "@ + base64_text(secret@)
            + "\x01\x01"@),
        (SmtpCredential::OAuth { email, access_token: secret }).auth_payload(AuthMechanism::XOAuth2)
            == Some("user="@ + base64_text(email@) + "\x01auth=Bearer "@ + base64_text(secret@)
            + "\x01\x01"@),
        (SmtpCredential::OAuthBearer { bearer_token: secret }).auth_payload(
            AuthMechanism::OAuthBearer,
        ) == Some("n,,\x01auth=Bearer "@ + base64_text(secret@) + "\x01\x01"@),
{
}

/// A line announces STARTTLS exactly when it begins with `250-STARTTLS` or
/// `250 STARTTLS`, whatever follows (a CRLF, more text, or nothing).
pub proof fn lemma_starttls_lines(rest: Seq<char>, line: Seq<char>)
    ensures
        announces_starttls("250-STARTTLS"@ + rest),
        announces_starttls("250 STARTTLS"@ + rest),
        announces_starttls(line) ==> line.take(12) == "250-STARTTLS"@ || line.take(12)
            == "250 STARTTLS"@,
{
    reveal_strlit("250-STARTTLS");
    reveal_strlit("250 STARTTLS");
    assert(("250-STARTTLS"@ + rest).take(12) =~= "250-STARTTLS"@);
    assert(("250 STARTTLS"@ + rest).take(12) =~= "250 STARTTLS"@);
}

/// A reply line ready for the handshake is any line that begins with `220`.
pub proof fn lemma_ready_lines(rest: Seq<char>)
    ensures
        has_prefix("220"@ + rest, "220"@),
{
    assert(("220"@ + rest).take(3) =~= "220"@) by {
        reveal_strlit("220");
    }
    reveal_strlit("220");
}

/// A line `250-AUTH ` followed by one name advertises exactly that name.
pub proof fn lemma_single_name_line(name: Seq<char>)
    requires
        name.len() > 0,
        no_space(name),
    ensures
        line_mechanism_names("250-AUTH "@ + name) == seq![name],
{
    reveal_strlit("250-AUTH ");
    let line = "250-AUTH "@ + name;
    assert(line[0] == '2');
    assert(!is_space('2'));
    assert(line.last() == name.last());
    assert(!is_space(name[name.len() - 1]));
    lemma_trim_unchanged(line);
    assert(line.take(9) =~= "250-AUTH "@);
    assert(line.skip(9) =~= name);
    lemma_words_single(name);
}

/// Base64 turns every three bytes into four characters, the last group padded.
pub proof fn lemma_base64_length(b: Seq<u8>)
    ensures
        base64_encode(b).len() == 4 * ((b.len() + 2) / 3),
    decreases b.len(),
{
    if b.len() > 2 {
        lemma_base64_length(b.skip(3));
    }
}

/// Base64 of bytes that split after a whole number of three-byte groups is the
/// base64 of the first part followed by that of the second.
pub proof fn lemma_base64_concat(a: Seq<u8>, b: Seq<u8>)
    requires
        a.len() % 3 == 0,
    ensures
        base64_encode(a + b) == base64_encode(a) + base64_encode(b),
    decreases a.len(),
{
    if a.len() == 0 {
        assert(a + b =~= b);
        assert(base64_encode(a) + base64_encode(b) =~= base64_encode(b));
    } else {
        lemma_base64_concat(a.skip(3), b);
        assert((a + b).skip(3) =~= a.skip(3) + b);
        assert((a + b)[0] == a[0] && (a + b)[1] == a[1] && (a + b)[2] == a[2]);
        let g = seq![
            base64_digit(a[0] as int / 4),
            base64_digit((a[0] as int % 4) * 16 + a[1] as int / 16),
            base64_digit((a[1] as int % 16) * 4 + a[2] as int / 64),
            base64_digit(a[2] as int % 64),
        ];
        assert(base64_encode(a) == g + base64_encode(a.skip(3)));
        assert(base64_encode(a + b) == g + base64_encode((a + b).skip(3)));
        assert(g + (base64_encode(a.skip(3)) + base64_encode(b)) =~= (g + base64_encode(a.skip(3)))
            + base64_encode(b));
    }
}

} // verus!
