//! Where the relay is, and how to authenticate with it once that is known.

use vstd::prelude::*;

use crate::smtp::auth_mechanism::AuthMechanism;
use crate::smtp::smtp_server::SmtpCredential;
use crate::text::{from_chars, to_chars};

verus! {

/// The relay's `host:port` address, the chosen mechanism and the credentials.
#[derive(Debug)]
pub struct SmtpConfig {
    pub auth_mechanism: Option<AuthMechanism>,
    pub credentials: Option<SmtpCredential>,
    pub host: String,
}

/// The part of an address before its first `:`.
pub open spec fn before_colon(h: Seq<char>) -> Seq<char>
    decreases h.len(),
{
    if h.len() == 0 || h[0] == ':' {
        Seq::<char>::empty()
    } else {
        seq![h[0]] + before_colon(h.drop_first())
    }
}

proof fn lemma_before_colon_take(h: Seq<char>, i: int)
    requires
        0 <= i <= h.len(),
        forall|k: int| 0 <= k < i ==> h[k] != ':',
        i == h.len() || h[i] == ':',
    ensures
        before_colon(h) == h.take(i),
    decreases i,
{
    if i > 0 {
        lemma_before_colon_take(h.drop_first(), i - 1);
        assert(seq![h[0]] + h.drop_first().take(i - 1) =~= h.take(i));
    } else {
        assert(h.take(0) =~= Seq::<char>::empty());
    }
}

impl SmtpConfig {
    /// A configuration for the relay at `host`, with nothing chosen yet.
    pub fn new(host: String) -> (r: Self)
        ensures
            r.host == host,
            r.auth_mechanism is None,
            r.credentials is None,
    {
        Self { host, credentials: None, auth_mechanism: None }
    }

    /// The relay's host name: the address up to its first `:`.
    pub fn host_name(&self) -> (r: String)
        requires
            self.host@.contains(':'),
        ensures
            r@ == before_colon(self.host@),
    {
        let h = to_chars(self.host.as_str());
        let mut i: usize = 0;
        while i < h.len() && h[i] != ':'
            invariant
                i <= h.len(),
                forall|k: int| 0 <= k < i ==> h@[k] != ':',
            decreases h.len() - i,
        {
            i = i + 1;
        }
        proof {
            lemma_before_colon_take(h@, i as int);
        }
        let mut name: Vec<char> = Vec::new();
        let mut k: usize = 0;
        while k < i
            invariant
                k <= i <= h.len(),
                name@ == h@.take(k as int),
            decreases i - k,
        {
            name.push(h[k]);
            k = k + 1;
            assert(name@ =~= h@.take(k as int));
        }
        from_chars(name.as_slice())
    }

    /// Records the mechanism to authenticate with.
    pub fn set_auth_mech(&mut self, auth_mech: AuthMechanism)
        ensures
            final(self).auth_mechanism == Some(auth_mech),
            final(self).credentials == old(self).credentials,
            final(self).host == old(self).host,
    {
        self.auth_mechanism = Some(auth_mech)
    }

    /// Records the credentials to authenticate with.
    pub fn set_smtp_credentials(&mut self, smtp_credentials: SmtpCredential)
        ensures
            final(self).credentials == Some(smtp_credentials),
            final(self).auth_mechanism == old(self).auth_mechanism,
            final(self).host == old(self).host,
    {
        self.credentials = Some(smtp_credentials)
    }
}

/// The host name is the longest stretch at the start of the address with no
/// `:`, and where the address holds a `:` a `:` comes right after it.
pub proof fn lemma_before_colon_shape(h: Seq<char>)
    ensures
        before_colon(h).len() <= h.len(),
        before_colon(h) == h.take(before_colon(h).len() as int),
        !before_colon(h).contains(':'),
        h.contains(':') ==> before_colon(h).len() < h.len() && h[before_colon(h).len() as int]
            == ':',
    decreases h.len(),
{
    if h.len() == 0 || h[0] == ':' {
        assert(h.take(0) =~= Seq::<char>::empty());
    } else {
        lemma_before_colon_shape(h.drop_first());
        let r = before_colon(h.drop_first());
        assert(before_colon(h) == seq![h[0]] + r);
        assert(seq![h[0]] + r =~= h.take((r.len() + 1) as int)) by {
            assert(r =~= h.drop_first().take(r.len() as int));
        }
        if h.contains(':') {
            let k = choose|k: int| 0 <= k < h.len() && h[k] == ':';
            assert(k > 0);
            assert(h.drop_first()[k - 1] == ':');
            assert(h.drop_first().contains(':'));
            assert(h[(r.len() + 1) as int] == h.drop_first()[r.len() as int]);
        }
        assert(!(seq![h[0]] + r).contains(':')) by {
            if (seq![h[0]] + r).contains(':') {
                let k = choose|k: int| 0 <= k < (seq![h[0]] + r).len() && (seq![h[0]] + r)[k] == ':';
                assert(k > 0);
                assert(r[k - 1] == ':');
                assert(r.contains(':'));
            }
        }
    }
}

} // verus!
