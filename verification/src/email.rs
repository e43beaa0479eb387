//! The e-mails the service sends.
use vstd::prelude::*;
use crate::text::push_str;

verus! {

/// The sender of every e-mail.
pub open spec fn sender_spec() -> Seq<char> {
    "Music Room <noreply@musicroom.app>"@
}

/// The sender of every e-mail.
pub fn sender() -> (r: &'static str)
    ensures
        r@ == sender_spec(),
{
    "Music Room <noreply@musicroom.app>"
}

/// An e-mail: its subject and its plain-text body.
pub struct Email {
    pub subject: String,
    pub body: String,
}

pub open spec fn reset_body_spec(token: Seq<char>) -> Seq<char> {
    "Click on this link to reset your password...\n\nmusicroom://reset-password?token="@ + token
}

pub open spec fn confirmation_body_spec(token: Seq<char>) -> Seq<char> {
    "Please confirm your email address by clicking on this link...\n\nmusicroom://confirm-email?token="@ + token
}

impl Email {
    pub fn new(subject: String, body: String) -> (r: Self)
        ensures
            r.subject == subject,
            r.body == body,
    {
        Email { subject, body }
    }

    /// The e-mail that carries a password-reset link with `token`.
    pub fn for_password_reset(token: &str) -> (r: Self)
        ensures
            r.subject@ == "Reset your password"@,
            r.body@ == reset_body_spec(token@),
    {
        let mut body = String::new();
        push_str(&mut body, "Click on this link to reset your password...\n\nmusicroom://reset-password?token=");
        push_str(&mut body, token);
        Self::new("Reset your password".to_string(), body)
    }

    /// The e-mail that carries an address-confirmation link with `token`.
    pub fn for_email_confirmation(token: &str) -> (r: Self)
        ensures
            r.subject@ == "Confirm your email address"@,
            r.body@ == confirmation_body_spec(token@),
    {
        let mut body = String::new();
        push_str(&mut body, "Please confirm your email address by clicking on this link...\n\nmusicroom://confirm-email?token=");
        push_str(&mut body, token);
        Self::new("Confirm your email address".to_string(), body)
    }
}

} // verus!
