//! Activation: the token that proves control of an address, the link that
//! carries it, and the email that delivers the link.

use vstd::prelude::*;
use vstd::string::*;
use crate::dto::ActiveEmailDTO;
use crate::error::{result_view, Failure, UserCreationError};
use crate::ident::{fresh_id, id_text, is_random_uuid, uuid_text};

verus! {

/// Issues an activation token. The caller binds it to an email record.
pub fn issue_token() -> (token: u128)
    ensures
        is_random_uuid(token),
{
    fresh_id()
}

/// The activation link under `base`: path `/user/activate` with the two query
/// parameters `token` and `user_id`.
pub open spec fn activation_url(base: Seq<char>, link: ActiveEmailDTO) -> Seq<char> {
    base + "/user/activate?token="@ + uuid_text(link.token) + "&user_id="@ + uuid_text(
        link.user_id,
    )
}

/// Writes the activation link under `base`.
pub fn build_activation_url(base: &str, link: &ActiveEmailDTO) -> (url: String)
    ensures
        url@ == activation_url(base@, *link),
{
    let mut url = String::from_str(base);
    url.append("/user/activate?token=");
    url.append(id_text(link.token).as_str());
    url.append("&user_id=");
    url.append(id_text(link.user_id).as_str());
    url
}

/// What `rocket::http::uri::Absolute::parse` makes of `text`: the parsed URI
/// written out again, or the parse error's message.
pub uninterp spec fn absolute_uri(text: Seq<char>) -> Result<Seq<char>, Seq<char>>;

/// Calls `rocket::http::uri::Absolute::parse` and formats the URI or the
/// error. Trusted: the outcome is a function of the text alone, here named
/// `absolute_uri`.
#[verifier::external_body]
pub(crate) fn parse_absolute(text: &str) -> (parsed: Result<String, String>)
    ensures
        crate::credential::outcome_view(parsed) == absolute_uri(text@),
{
    match rocket::http::uri::Absolute::parse(text) {
        Ok(uri) => Ok(uri.to_string()),
        Err(e) => Err(e.to_string()),
    }
}

/// What a parse outcome amounts to: the address, or `SendEmail` with the
/// parser's message.
pub open spec fn address_of(parsed: Result<Seq<char>, Seq<char>>) -> Result<Seq<char>, Failure> {
    match parsed {
        Ok(address) => Ok(address),
        Err(message) => Err(Failure::SendEmail(message)),
    }
}

/// The view of a checked address.
pub open spec fn address_view(r: Result<String, UserCreationError>) -> Result<Seq<char>, Failure> {
    match r {
        Ok(address) => Ok(address@),
        Err(e) => Err(e@),
    }
}

/// Turns a parse outcome into the address to send, or into `SendEmailError`.
pub fn address_from(parsed: Result<String, String>) -> (r: Result<String, UserCreationError>)
    ensures
        address_view(r) == address_of(crate::credential::outcome_view(parsed)),
{
    match parsed {
        Ok(address) => Ok(address),
        Err(message) => Err(UserCreationError::SendEmailError(message)),
    }
}

/// Parses `text` as an absolute URL: the URL written out again, or the
/// parser's message.
pub fn parse_url(text: &str) -> (parsed: Result<String, String>)
    ensures
        crate::credential::outcome_view(parsed) == absolute_uri(text@),
{
    parse_absolute(text)
}

/// Checks that `text` is an absolute URL.
pub fn validate_url(text: &str) -> (r: Result<String, UserCreationError>)
    ensures
        address_view(r) == address_of(absolute_uri(text@)),
{
    address_from(parse_url(text))
}

/// The activation email: who gets it, under which subject, and what the
/// `sign_up` template is filled with.
pub struct ActivationEmail {
    pub to: String,
    pub subject: String,
    pub template: String,
    pub user_name: String,
    pub activation_url: String,
}

pub struct Mail {
    pub to: Seq<char>,
    pub subject: Seq<char>,
    pub template: Seq<char>,
    pub user_name: Seq<char>,
    pub activation_url: Seq<char>,
}

impl View for ActivationEmail {
    type V = Mail;

    open spec fn view(&self) -> Mail {
        Mail {
            to: self.to@,
            subject: self.subject@,
            template: self.template@,
            user_name: self.user_name@,
            activation_url: self.activation_url@,
        }
    }
}

/// The welcome mail for `user_name` at `to`, carrying `activation_url`.
pub open spec fn welcome(to: Seq<char>, user_name: Seq<char>, activation_url: Seq<char>) -> Mail {
    Mail {
        to,
        subject: "Welcome to the Meisaku!"@,
        template: "sign_up"@,
        user_name,
        activation_url,
    }
}

impl ActivationEmail {
    /// Composes the welcome mail.
    pub fn compose(to: String, user_name: String, activation_url: String) -> (mail:
        ActivationEmail)
        ensures
            mail@ == welcome(to@, user_name@, activation_url@),
    {
        ActivationEmail {
            to,
            subject: String::from_str("Welcome to the Meisaku!"),
            template: String::from_str("sign_up"),
            user_name,
            activation_url,
        }
    }

    /// What the template is filled with: each field's name and its value.
    pub fn template_data(&self) -> (data: Vec<(&'static str, String)>)
        ensures
            data@.len() == 2,
            data@[0].0@ == "user_name"@,
            data@[0].1@ == self@.user_name,
            data@[1].0@ == "activation_url"@,
            data@[1].1@ == self@.activation_url,
    {
        let mut data: Vec<(&'static str, String)> = Vec::new();
        data.push(("user_name", self.user_name.clone()));
        data.push(("activation_url", self.activation_url.clone()));
        data
    }
}

} // verus!
