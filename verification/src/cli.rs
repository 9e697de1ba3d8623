//! The choices the user makes at the terminal: which mechanism to
//! authenticate with, and the credentials for it.

use vstd::prelude::*;

use crate::smtp::auth_mechanism::AuthMechanism;
use crate::smtp::smtp_server::SmtpCredential;
use crate::text::{from_chars, to_chars, trim, trim_chars};

verus! {

/// Why a choice of mechanism was refused.
#[derive(Debug)]
pub enum CliError {
    /// The relay advertised no mechanism.
    NoMechanisms,
    /// The answer, trimmed, is not a number.
    InvalidInput(String),
    /// The number is past the last choice, which is given.
    OutOfRange(usize),
}

/// The character of a decimal digit.
pub open spec fn digit_char(d: nat) -> char {
    (48 + d) as char
}

/// The decimal writing of `n`, as `Display` writes an unsigned integer.
pub open spec fn decimal(n: nat) -> Seq<char>
    decreases n,
{
    if n < 10 {
        seq![digit_char(n)]
    } else {
        decimal(n / 10).push(digit_char(n % 10))
    }
}

/// Appends the decimal writing of `n` to `out`.
fn push_decimal(n: usize, out: &mut String)
    ensures
        final(out)@ == old(out)@ + decimal(n as nat),
    decreases n,
{
    if n >= 10 {
        push_decimal(n / 10, out);
    }
    let d: u8 = (n % 10) as u8;
    let c: char = (48u8 + d) as char;
    assert(c == digit_char((n % 10) as nat));
    crate::text::push_char(out, c);
}

impl CliError {
    /// The message that reports the refusal.
    pub open spec fn text(&self) -> Seq<char> {
        match self {
            CliError::NoMechanisms => "Tidak ada metode autentikasi yang tersedia"@,
            CliError::InvalidInput(answer) => "'"@ + answer@ + "' Invalid input"@,
            CliError::OutOfRange(last) => "Expected 0 - "@ + decimal(*last as nat),
        }
    }

    /// The message that reports the refusal.
    pub fn message(&self) -> (r: String)
        ensures
            r@ == self.text(),
    {
        match self {
            CliError::NoMechanisms => "Tidak ada metode autentikasi yang tersedia".to_owned(),
            CliError::InvalidInput(answer) => {
                let mut r = "'".to_owned();
                r.append(answer.as_str());
                r.append("' Invalid input");
                r
            },
            CliError::OutOfRange(last) => {
                let mut r = "Expected 0 - ".to_owned();
                push_decimal(*last, &mut r);
                r
            },
        }
    }
}

/// Whether `c` is an ASCII decimal digit.
pub open spec fn is_digit(c: char) -> bool {
    48 <= c as u32 <= 57
}

/// Whether every character of `d` is a decimal digit.
pub open spec fn all_digits(d: Seq<char>) -> bool {
    forall|k: int| 0 <= k < d.len() ==> is_digit(#[trigger] d[k])
}

/// The number that a string of decimal digits writes.
pub open spec fn digits_value(d: Seq<char>) -> nat
    decreases d.len(),
{
    if d.len() == 0 {
        0
    } else {
        digits_value(d.drop_last()) * 10 + ((d.last() as u32) - 48) as nat
    }
}

/// What `str::parse::<usize>` accepts: an optional `+`, then at least one
/// decimal digit, writing a number that fits in `usize`.
pub open spec fn parse_usize(s: Seq<char>) -> Option<usize> {
    let d = if s.len() > 0 && s[0] == '+' {
        s.drop_first()
    } else {
        s
    };
    if d.len() > 0 && all_digits(d) && digits_value(d) <= usize::MAX {
        Some(digits_value(d) as usize)
    } else {
        None
    }
}

proof fn lemma_digits_value_grows(d: Seq<char>, j: int, k: int)
    requires
        0 <= j <= k <= d.len(),
        forall|m: int| 0 <= m < d.len() ==> is_digit(#[trigger] d[m]),
    ensures
        digits_value(d.take(j)) <= digits_value(d.take(k)),
    decreases k - j,
{
    if j < k {
        lemma_digits_value_grows(d, j, k - 1);
        assert(d.take(k).drop_last() =~= d.take(k - 1));
        assert(d.take(k).last() == d[k - 1]);
    }
}

/// The number that `s` writes, read as `str::parse::<usize>` reads it.
pub fn parse_index(s: &Vec<char>) -> (r: Option<usize>)
    ensures
        r == parse_usize(s@),
{
    let mut start: usize = 0;
    if s.len() > 0 && s[0] == '+' {
        start = 1;
    }
    let ghost d = if s@.len() > 0 && s@[0] == '+' {
        s@.drop_first()
    } else {
        s@
    };
    assert(d =~= s@.skip(start as int));
    if start == s.len() {
        return None;
    }
    let mut value: usize = 0;
    let mut i: usize = start;
    while i < s.len()
        invariant
            start <= i <= s.len(),
            start < s.len(),
            d == s@.skip(start as int),
            d == (if s@.len() > 0 && s@[0] == '+' {
                s@.drop_first()
            } else {
                s@
            }),
            forall|k: int| start <= k < i ==> is_digit(#[trigger] s@[k]),
            value == digits_value(d.take(i - start)),
        decreases s.len() - i,
    {
        let c = s[i];
        let u = c as u32;
        assert(d[i - start] == c);
        if u < 48 || u > 57 {
            assert(!is_digit(d[i - start]));
            return None;
        }
        proof {
            assert(d.take(i - start + 1).drop_last() =~= d.take(i - start));
            assert(d.take(i - start + 1).last() == c);
        }
        let digit = (u - 48) as usize;
        assert(digits_value(d.take(i - start + 1)) == value * 10 + digit);
        match value.checked_mul(10) {
            Some(m) => match m.checked_add(digit) {
                Some(n) => {
                    value = n;
                },
                None => {
                    proof {
                        if all_digits(d) {
                            lemma_digits_value_grows(d, i - start + 1, d.len() as int);
                            assert(d.take(d.len() as int) =~= d);
                        }
                    }
                    return None;
                },
            },
            None => {
                proof {
                    if all_digits(d) {
                        lemma_digits_value_grows(d, i - start + 1, d.len() as int);
                        assert(d.take(d.len() as int) =~= d);
                    }
                }
                return None;
            },
        }
        i = i + 1;
    }
    assert(d.take(i - start) =~= d);
    assert forall|k: int| 0 <= k < d.len() implies is_digit(#[trigger] d[k]) by {
        assert(d[k] == s@[k + start]);
    }
    assert(all_digits(d));
    Some(value)
}

/// The answer that a line typed at the terminal gives: the line without
/// leading and trailing whitespace.
pub fn answer_from_line(line: &str) -> (r: String)
    ensures
        r@ == trim(line@),
{
    from_chars(trim_chars(&to_chars(line)).as_slice())
}

/// The mechanism that the user chose by number, counting from 0, from the
/// ones the relay advertised; `input` is the user's answer.
pub fn cli_auth_smtp(auth_mechs: Vec<AuthMechanism>, input: &str) -> (r: Result<
    AuthMechanism,
    CliError,
>)
    ensures
        auth_mechs.len() == 0 ==> r matches Err(CliError::NoMechanisms),
        auth_mechs.len() > 0 ==> match parse_usize(trim(input@)) {
            None => r matches Err(CliError::InvalidInput(t)) && t@ == trim(input@),
            Some(i) => if i < auth_mechs.len() {
                r == Ok::<AuthMechanism, CliError>(auth_mechs@[i as int])
            } else {
                r matches Err(CliError::OutOfRange(last)) && last == auth_mechs.len() - 1
            },
        },
        r matches Err(e) ==> e.text() == (if auth_mechs.len() == 0 {
            "Tidak ada metode autentikasi yang tersedia"@
        } else if parse_usize(trim(input@)) is None {
            "'"@ + trim(input@) + "' Invalid input"@
        } else {
            "Expected 0 - "@ + decimal((auth_mechs.len() - 1) as nat)
        }),
{
    if auth_mechs.len() == 0 {
        return Err(CliError::NoMechanisms);
    }
    let answer = trim_chars(&to_chars(input));
    match parse_index(&answer) {
        None => Err(CliError::InvalidInput(from_chars(answer.as_slice()))),
        Some(choice) => {
            if choice >= auth_mechs.len() {
                Err(CliError::OutOfRange(auth_mechs.len() - 1))
            } else {
                let mut mechs = auth_mechs;
                Ok(mechs.remove(choice))
            }
        },
    }
}

/// Credentials for the chosen mechanism from the user's answers to its prompts.
pub fn cli_auth_credentials(auth_mechanism: &AuthMechanism, answers: Vec<String>) -> (r: Result<
    SmtpCredential,
    String,
>)
    requires
        answers.len() == auth_mechanism.prompts().len(),
    ensures
        r == auth_mechanism.credentials_from(answers@),
{
    auth_mechanism.generate_credentials(answers)
}

proof fn lemma_decimal_digits(n: nat)
    ensures
        decimal(n).len() > 0,
        all_digits(decimal(n)),
        digits_value(decimal(n)) == n,
    decreases n,
{
    if n < 10 {
        assert((digit_char(n) as u32) == 48 + n);
        assert(decimal(n).drop_last() =~= Seq::<char>::empty());
        assert(decimal(n).last() == digit_char(n));
        assert(digits_value(decimal(n)) == digits_value(decimal(n).drop_last()) * 10 + ((
        decimal(n).last() as u32) - 48) as nat);
    } else {
        lemma_decimal_digits(n / 10);
        let d = decimal(n);
        assert(d.drop_last() == decimal(n / 10));
        assert((digit_char(n % 10) as u32) == 48 + n % 10);
        assert(d.last() == digit_char(n % 10));
        assert(digits_value(d) == digits_value(d.drop_last()) * 10 + ((d.last() as u32) - 48) as nat);
        assert((n / 10) * 10 + n % 10 == n);
        assert forall|k: int| 0 <= k < d.len() implies is_digit(#[trigger] d[k]) by {
            if k < d.len() - 1 {
                assert(d[k] == decimal(n / 10)[k]);
            }
        }
    }
}

/// Reading back the decimal writing of a number gives the number: what
/// `message` writes for `OutOfRange` is what `parse_index` reads.
pub proof fn lemma_parse_decimal(n: usize)
    ensures
        parse_usize(decimal(n as nat)) == Some(n),
{
    lemma_decimal_digits(n as nat);
    let d = decimal(n as nat);
    assert(d[0] != '+') by {
        assert(is_digit(d[0]));
    }
}

/// A number is read the same with or without a leading `+`, and a leading `-`
/// is always refused.
pub proof fn lemma_parse_sign(d: Seq<char>)
    ensures
        d.len() > 0 && d[0] != '+' ==> parse_usize(seq!['+'] + d) == parse_usize(d),
        parse_usize(seq!['-'] + d) is None,
{
    assert((seq!['+'] + d).drop_first() =~= d);
    let m = seq!['-'] + d;
    assert(m[0] == '-');
    assert(!is_digit('-'));
}

} // verus!
