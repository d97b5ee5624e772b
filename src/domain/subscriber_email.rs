use vstd::prelude::*;
use vstd::string::StringExecFns;
use crate::domain::subscriber_name::{is_blank, is_whitespace_char};

verus! {

/// Whether `validator::validate_email` accepts `s` (the HTML5 address grammar).
pub uninterp spec fn is_valid_email(s: Seq<char>) -> bool;

pub open spec fn email_error_text(s: Seq<char>) -> Seq<char> {
    s + " is not a valid subscriber email."@
}

/// Relies on `validator::validate_email` to decide the email grammar; its
/// source rejects any string without an `@` before the grammar is consulted.
#[verifier::external_body]
fn validate_email(s: &str) -> (r: bool)
    ensures
        r == is_valid_email(s@),
        r ==> s@.contains('@'),
{
    validator::validate_email(s)
}

/// The error for a string that is not a valid email: it names the value.
pub fn email_error(s: &str) -> (r: String)
    ensures
        r@ == email_error_text(s@),
{
    String::from_str(s).concat(" is not a valid subscriber email.")
}

/// An email address that satisfies the grammar, valid by construction.
#[derive(Debug)]
pub struct SubscriberEmail(String);

impl View for SubscriberEmail {
    type V = Seq<char>;

    closed spec fn view(&self) -> Seq<char> {
        self.0@
    }
}

impl SubscriberEmail {
    #[verifier::type_invariant]
    spec fn inv(&self) -> bool {
        is_valid_email(self.0@)
    }

    /// Accepts `s` exactly when it satisfies the email grammar, keeping its text.
    pub fn parse(s: String) -> (r: Result<SubscriberEmail, String>)
        ensures
            r is Ok <==> is_valid_email(s@),
            r matches Ok(e) ==> e@ == s@,
            r matches Err(e) ==> e@ == email_error_text(s@),
            s@.len() == 0 || is_blank(s@) || !s@.contains('@') ==> r is Err,
    {
        if validate_email(s.as_str()) {
            proof {
                let k = choose|k: int| 0 <= k < s@.len() && s@[k] == '@';
                assert(!is_whitespace_char(s@[k]));
            }
            Ok(SubscriberEmail(s))
        } else {
            Err(email_error(s.as_str()))
        }
    }

    /// The address's text.
    pub fn as_ref(&self) -> (r: &str)
        ensures
            r@ == self@,
            is_valid_email(r@),
    {
        proof {
            use_type_invariant(self);
        }
        self.0.as_str()
    }
}

} // verus!
