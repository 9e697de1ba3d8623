//! The e-mail jobs that clients hand over.

use vstd::prelude::*;

verus! {

/// One e-mail to send.
#[derive(Debug)]
pub struct Email {
    pub to: String,
    pub subject: String,
    pub content: String,
}

impl Email {
    /// The notice given when the e-mail is sent: `Email sending to ` and the address.
    pub fn sending_notice(&self) -> (r: String)
        ensures
            r@ == "Email sending to "@ + self.to@,
    {
        let mut r = "Email sending to ".to_owned();
        r.append(self.to.as_str());
        r
    }
}

} // verus!
