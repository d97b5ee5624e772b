use vstd::prelude::*;
use vstd::string::StringExecFns;
use crate::domain::new_subscriber::NewSubscriber;
use crate::domain::subscriber_email::{email_error_text, is_valid_email, SubscriberEmail};
use crate::domain::subscriber_name::{is_valid_name, name_error_text, SubscriberName};

verus! {

/// The raw registration request: two required text fields.
pub struct FormData {
    pub email: String,
    pub name: String,
}

/// Both fields of `form` are valid.
pub open spec fn is_valid_form(form: FormData) -> bool {
    is_valid_name(form.name@) && is_valid_email(form.email@)
}

/// The error for an invalid form: the name is checked first.
pub open spec fn form_error_text(form: FormData) -> Seq<char> {
    if !is_valid_name(form.name@) {
        name_error_text(form.name@)
    } else {
        email_error_text(form.email@)
    }
}

impl NewSubscriber {
    /// Parses both fields of `form`; fails, with the first invalid field's
    /// error, unless both are valid.
    pub fn from_form(form: FormData) -> (r: Result<NewSubscriber, String>)
        ensures
            r is Ok <==> is_valid_form(form),
            r matches Ok(s) ==> s.name@ == form.name@ && s.email@ == form.email@,
            r matches Err(e) ==> e@ == form_error_text(form),
    {
        let FormData { email, name } = form;
        let name = match SubscriberName::parse(name) {
            Ok(n) => n,
            Err(e) => return Err(e),
        };
        let email = match SubscriberEmail::parse(email) {
            Ok(m) => m,
            Err(e) => return Err(e),
        };
        Ok(NewSubscriber { email, name })
    }
}

/// Parses both fields of the form, as `NewSubscriber::from_form` does.
impl TryFrom<FormData> for NewSubscriber {
    type Error = String;

    fn try_from(value: FormData) -> (r: Result<NewSubscriber, String>)
        ensures
            r is Ok <==> is_valid_form(value),
            r matches Ok(s) ==> s.name@ == value.name@ && s.email@ == value.email@,
            r matches Err(e) ==> e@ == form_error_text(value),
    {
        NewSubscriber::from_form(value)
    }
}

impl vstd::std_specs::convert::TryFromSpecImpl<FormData> for NewSubscriber {
    open spec fn obeys_try_from_spec() -> bool {
        false
    }

    open spec fn try_from_spec(v: FormData) -> Result<NewSubscriber, String> {
        arbitrary()
    }
}

/// Where a new subscriber confirms the subscription.
pub const CONFIRMATION_LINK: &'static str = "https://my-api.com/subscriptions/confirm";

pub open spec fn confirmation_subject() -> Seq<char> {
    "Welcome!"@
}

pub open spec fn confirmation_text_body() -> Seq<char> {
    "Welcome to our newsletter!\nVisit "@ + CONFIRMATION_LINK@ + " to confirm your subscription."@
}

pub open spec fn confirmation_html_body() -> Seq<char> {
    "Welcome to our newsletter!<br />Click <a href=\""@ + CONFIRMATION_LINK@
        + "\">here</a> to confirm your subscription."@
}

/// The message that asks a new subscriber to confirm.
pub struct ConfirmationEmail {
    pub recipient: SubscriberEmail,
    pub subject: String,
    pub html_body: String,
    pub text_body: String,
}

/// The confirmation email for `new_subscriber`, sent to its address.
pub fn confirmation_email(new_subscriber: NewSubscriber) -> (r: ConfirmationEmail)
    ensures
        r.recipient@ == new_subscriber.email@,
        r.subject@ == confirmation_subject(),
        r.html_body@ == confirmation_html_body(),
        r.text_body@ == confirmation_text_body(),
{
    let text_body = String::from_str("Welcome to our newsletter!\nVisit ").concat(
        CONFIRMATION_LINK,
    ).concat(" to confirm your subscription.");
    let html_body = String::from_str("Welcome to our newsletter!<br />Click <a href=\"").concat(
        CONFIRMATION_LINK,
    ).concat("\">here</a> to confirm your subscription.");
    ConfirmationEmail {
        recipient: new_subscriber.email,
        subject: String::from_str("Welcome!"),
        html_body,
        text_body,
    }
}

/// A subscription's status; a new one waits for confirmation.
#[derive(Clone, Copy, Debug, PartialEq, Eq, Structural)]
pub enum SubscriptionStatus {
    PendingConfirmation,
    Confirmed,
}

impl SubscriptionStatus {
    /// The status as the `status` column stores it.
    pub fn as_str(&self) -> (r: &'static str)
        ensures
            *self is PendingConfirmation ==> r@ == "pending_confirmation"@,
            *self is Confirmed ==> r@ == "confirmed"@,
    {
        match self {
            SubscriptionStatus::PendingConfirmation => "pending_confirmation",
            SubscriptionStatus::Confirmed => "confirmed",
        }
    }
}

/// A version 4 UUID, as a big-endian integer: version nibble 4, variant `10`.
pub open spec fn is_v4_uuid(id: u128) -> bool {
    (id >> 76u128) & 0xfu128 == 4 && (id >> 62u128) & 3u128 == 2
}

/// Relies on `uuid::Uuid::new_v4`, a random UUID whose version and variant
/// bits it sets, read back whole by `Uuid::as_u128`.
#[verifier::external_body]
fn new_v4_id() -> (r: u128)
    ensures
        is_v4_uuid(r),
{
    uuid::Uuid::new_v4().as_u128()
}

/// Relies on `chrono::Utc::now`, in microseconds since the Unix epoch; it
/// panics rather than return a time before the epoch.
#[verifier::external_body]
fn now_micros() -> (r: i64)
    ensures
        r >= 0,
{
    chrono::Utc::now().timestamp_micros()
}

/// One row of the `subscriptions` table.
pub struct SubscriptionRecord {
    pub id: u128,
    pub email: String,
    pub name: String,
    /// Microseconds since the Unix epoch, UTC.
    pub subscribed_at: i64,
    pub status: SubscriptionStatus,
}

impl SubscriptionRecord {
    /// The row for `new_subscriber`, with the given id and time, pending
    /// confirmation.
    pub fn pending(new_subscriber: &NewSubscriber, id: u128, subscribed_at: i64) -> (r:
        SubscriptionRecord)
        ensures
            r.id == id,
            r.email@ == new_subscriber.email@,
            r.name@ == new_subscriber.name@,
            r.subscribed_at == subscribed_at,
            r.status == SubscriptionStatus::PendingConfirmation,
    {
        SubscriptionRecord {
            id,
            email: String::from_str(new_subscriber.email.as_ref()),
            name: String::from_str(new_subscriber.name.as_ref()),
            subscribed_at,
            status: SubscriptionStatus::PendingConfirmation,
        }
    }

    /// The row that registering `new_subscriber` writes: a fresh random id,
    /// the current time, pending confirmation.
    pub fn new(new_subscriber: &NewSubscriber) -> (r: SubscriptionRecord)
        ensures
            is_v4_uuid(r.id),
            r.subscribed_at >= 0,
            r.email@ == new_subscriber.email@,
            r.name@ == new_subscriber.name@,
            r.status == SubscriptionStatus::PendingConfirmation,
    {
        let id = new_v4_id();
        let now = now_micros();
        SubscriptionRecord::pending(new_subscriber, id, now)
    }
}

/// How a registration request ends, as the caller sees it.
#[derive(Clone, Copy, Debug, PartialEq, Eq, Structural)]
pub enum Outcome {
    /// Validated, persisted and notified.
    Accepted,
    /// The name or the email was invalid: a client fault.
    Rejected,
    /// Persistence or delivery failed: a server fault.
    Failed,
}

/// Why a valid registration failed; each carries the collaborator's error text.
pub enum Failure {
    Persistence(String),
    Delivery(String),
}

/// One registration request, from validation to its terminal state. Each
/// step is taken once, in order, and the first failure is terminal.
pub enum Registration {
    /// The form was valid; the subscriber is to be persisted.
    Validated(NewSubscriber),
    /// The subscriber was persisted; the confirmation email is to be sent.
    Persisted(ConfirmationEmail),
    Completed,
    /// The form was invalid; carries the validation error.
    Rejected(String),
    Failed(Failure),
}

impl Registration {
    /// Validates the request.
    pub fn receive(form: FormData) -> (r: Registration)
        ensures
            r is Validated <==> is_valid_form(form),
            r matches Registration::Validated(s) ==> s.name@ == form.name@ && s.email@
                == form.email@,
            r is Rejected <==> !is_valid_form(form),
            r matches Registration::Rejected(e) ==> e@ == form_error_text(form),
    {
        match NewSubscriber::from_form(form) {
            Ok(s) => Registration::Validated(s),
            Err(e) => Registration::Rejected(e),
        }
    }

    /// Takes the repository's answer to the insert of the validated
    /// subscriber; in any other state the registration is unchanged.
    pub fn record_persisted(self, result: Result<(), String>) -> (r: Registration)
        ensures
            self matches Registration::Validated(s) ==> match result {
                Ok(_) => r matches Registration::Persisted(m) && m.recipient@ == s.email@
                    && m.subject@ == confirmation_subject() && m.html_body@
                    == confirmation_html_body() && m.text_body@ == confirmation_text_body(),
                Err(e) => r matches Registration::Failed(Failure::Persistence(f)) && f == e,
            },
            !(self is Validated) ==> r == self,
    {
        match self {
            Registration::Validated(s) => match result {
                Ok(_) => Registration::Persisted(confirmation_email(s)),
                Err(e) => Registration::Failed(Failure::Persistence(e)),
            },
            other => other,
        }
    }

    /// Takes the mailer's answer to the confirmation email; in any other
    /// state the registration is unchanged.
    pub fn record_notified(self, result: Result<(), String>) -> (r: Registration)
        ensures
            self is Persisted ==> match result {
                Ok(_) => r is Completed,
                Err(e) => r matches Registration::Failed(Failure::Delivery(f)) && f == e,
            },
            !(self is Persisted) ==> r == self,
    {
        match self {
            Registration::Persisted(_) => match result {
                Ok(_) => Registration::Completed,
                Err(e) => Registration::Failed(Failure::Delivery(e)),
            },
            other => other,
        }
    }

    /// The outcome of a finished registration; `None` while a step is pending.
    pub fn outcome(&self) -> (r: Option<Outcome>)
        ensures
            r == outcome_of(*self),
    {
        match self {
            Registration::Completed => Some(Outcome::Accepted),
            Registration::Rejected(_) => Some(Outcome::Rejected),
            Registration::Failed(_) => Some(Outcome::Failed),
            _ => None,
        }
    }
}

pub open spec fn outcome_of(r: Registration) -> Option<Outcome> {
    match r {
        Registration::Completed => Some(Outcome::Accepted),
        Registration::Rejected(_) => Some(Outcome::Rejected),
        Registration::Failed(_) => Some(Outcome::Failed),
        _ => None,
    }
}

} // verus!
