//! Signing up a participant: the checks on the request, the record that is
//! stored, and the invitation mail that follows a new registration.
use vstd::prelude::*;
use crate::auth::{generate_token, hash_token, is_token_text, request_lookup_key, token_hash};
use crate::ids::{is_v4, new_v4};
use crate::mail::{INVITE_SUBJECT, INVITE_TEMPLATE_NAME};
use crate::text::{concat_texts, is_blank, is_blank_text};

verus! {

/// Settings the handlers read.
#[derive(Clone, Debug)]
pub struct Config {
    /// The address this service is reached at (the `bind` value of the invitation).
    pub addr: String,
    /// The host of the survey front end that invitation links point to.
    pub frontend_addr: String,
}

/// The body of a sign-up request.
#[derive(Clone, Debug)]
pub struct NewParticipantRequest {
    pub email: String,
    pub leak_check: bool,
    pub turnstile_token: String,
}

/// Why a sign-up was refused.
#[derive(Clone, Copy, Debug, PartialEq, Eq, Structural)]
pub enum RegistrationError {
    /// The address is blank or not a valid e-mail address (400).
    InvalidEmail,
    /// The captcha service could not be asked (502).
    CaptchaUnavailable,
    /// The captcha was not solved (403).
    CaptchaRejected,
    /// The participant could not be stored (500).
    StoreFailed,
}

/// HTTP status of each refusal.
pub open spec fn registration_status(e: RegistrationError) -> u16 {
    match e {
        RegistrationError::InvalidEmail => 400,
        RegistrationError::CaptchaUnavailable => 502,
        RegistrationError::CaptchaRejected => 403,
        RegistrationError::StoreFailed => 500,
    }
}

impl RegistrationError {
    /// The HTTP status the refusal is answered with.
    pub fn status(&self) -> (res: u16)
        ensures
            res == registration_status(*self),
    {
        match self {
            RegistrationError::InvalidEmail => 400,
            RegistrationError::CaptchaUnavailable => 502,
            RegistrationError::CaptchaRejected => 403,
            RegistrationError::StoreFailed => 500,
        }
    }
}

/// Whether `email_address::EmailAddress::is_valid` accepts an address.
pub uninterp spec fn email_address_valid(address: Seq<char>) -> bool;

/// Calls `email_address::EmailAddress::is_valid`. Claimed: the answer is a
/// function of the address alone, and an accepted address contains `@` (the
/// crate splits it at its last `@` and refuses it when there is none). The
/// grammar it checks is left unsaid.
#[verifier::external_body]
fn email_is_valid(address: &str) -> (res: bool)
    ensures
        res == email_address_valid(address@),
        res ==> address@.contains('@'),
{
    email_address::EmailAddress::is_valid(address)
}

/// The address is refused when it is blank or not a valid address.
pub open spec fn email_acceptable(address: Seq<char>) -> bool {
    !is_blank_text(address) && email_address_valid(address)
}

/// Checks the address of a sign-up; nothing else is asked before this passes.
pub fn check_email_address(req: &NewParticipantRequest) -> (res: Result<(), RegistrationError>)
    ensures
        res is Ok <==> email_acceptable(req.email@),
        res is Err ==> res == Err::<(), RegistrationError>(RegistrationError::InvalidEmail),
        res is Ok ==> req.email@.contains('@'),
{
    if is_blank(req.email.as_str()) || !email_is_valid(req.email.as_str()) {
        Err(RegistrationError::InvalidEmail)
    } else {
        Ok(())
    }
}

/// Decides on the captcha service's answer: unreachable is a bad gateway, "no" is forbidden.
pub fn check_captcha(answer: Result<bool, ()>) -> (res: Result<(), RegistrationError>)
    ensures
        res == match answer {
            Ok(true) => Ok(()),
            Ok(false) => Err(RegistrationError::CaptchaRejected),
            Err(_) => Err::<(), RegistrationError>(RegistrationError::CaptchaUnavailable),
        },
{
    match answer {
        Ok(true) => Ok(()),
        Ok(false) => Err(RegistrationError::CaptchaRejected),
        Err(_) => Err(RegistrationError::CaptchaUnavailable),
    }
}

/// What is stored for a new participant, with the token that is mailed to them.
#[derive(Debug)]
pub struct PendingRegistration {
    pub id: u128,
    pub email: String,
    pub leak_check: bool,
    /// Sent in the invitation only; never stored.
    pub token: String,
    /// Stored instead of the token.
    pub token_hash: Vec<u8>,
}

/// The record of a sign-up: a fresh id and token, and the hash under which the token is stored.
pub open spec fn is_registration_of(r: PendingRegistration, req: NewParticipantRequest) -> bool {
    &&& is_v4(r.id)
    &&& r.email@ == req.email@
    &&& r.leak_check == req.leak_check
    &&& is_token_text(r.token@)
    &&& r.token_hash@ == token_hash(r.token@)
}

/// Draws the id and token of a new participant.
pub fn new_registration(req: &NewParticipantRequest) -> (res: PendingRegistration)
    ensures
        is_registration_of(res, *req),
{
    let id = new_v4();
    let token = generate_token();
    let token_hash = hash_token(token.as_str());
    PendingRegistration { id, email: req.email.clone(), leak_check: req.leak_check, token, token_hash }
}

/// The link in the invitation: `https://<front end>/survey?token=<token>`.
pub open spec fn survey_url(frontend_addr: Seq<char>, token: Seq<char>) -> Seq<char> {
    "https://"@ + frontend_addr + "/survey?token="@ + token
}

/// An invitation mail to send.
#[derive(Debug)]
pub struct Invitation {
    pub to: String,
    pub subject: String,
    pub template: String,
    /// Placeholder values, in the order they are filled in.
    pub values: Vec<(String, String)>,
}

/// The invitation for a registration: the survey link, this service's address and the token.
pub open spec fn is_invitation_for(inv: Invitation, config: Config, r: PendingRegistration) -> bool {
    &&& inv.to@ == r.email@
    &&& inv.subject@ == INVITE_SUBJECT@
    &&& inv.template@ == INVITE_TEMPLATE_NAME@
    &&& inv.values@.map_values(|p: (String, String)| (p.0@, p.1@)) == seq![
        ("survey"@, survey_url(config.frontend_addr@, r.token@)),
        ("bind"@, config.addr@),
        ("token"@, r.token@),
    ]
}

/// Writes the invitation mail for a stored registration.
pub fn invitation(config: &Config, r: &PendingRegistration) -> (res: Invitation)
    ensures
        is_invitation_for(res, *config, *r),
{
    let a = concat_texts("https://", config.frontend_addr.as_str());
    let b = concat_texts(a.as_str(), "/survey?token=");
    let url = concat_texts(b.as_str(), r.token.as_str());
    let mut values: Vec<(String, String)> = Vec::new();
    values.push(("survey".to_owned(), url));
    values.push(("bind".to_owned(), config.addr.clone()));
    values.push(("token".to_owned(), r.token.clone()));
    let res = Invitation {
        to: r.email.clone(),
        subject: INVITE_SUBJECT.to_owned(),
        template: INVITE_TEMPLATE_NAME.to_owned(),
        values,
    };
    assert(res.values@.map_values(|p: (String, String)| (p.0@, p.1@)) =~= seq![
        ("survey"@, survey_url(config.frontend_addr@, r.token@)),
        ("bind"@, config.addr@),
        ("token"@, r.token@),
    ]);
    res
}

/// What the store's answer to the insert leads to: a failure is refused;
/// otherwise the sign-up succeeds, with an invitation only when the address was new.
pub open spec fn store_outcome(stored: Result<bool, ()>) -> Result<bool, RegistrationError> {
    match stored {
        Err(_) => Err(RegistrationError::StoreFailed),
        Ok(inserted) => Ok(inserted),
    }
}

/// HTTP status of the answer to a sign-up whose insert had this outcome.
pub open spec fn signup_status(outcome: Result<bool, RegistrationError>) -> u16 {
    match outcome {
        Ok(_) => 200,
        Err(e) => registration_status(e),
    }
}

/// Decides on the store's answer to the insert: a failure is refused, a new
/// participant is invited, an address already signed up is not.
pub fn after_store(config: &Config, r: &PendingRegistration, stored: Result<bool, ()>) -> (res:
    Result<Option<Invitation>, RegistrationError>)
    ensures
        match store_outcome(stored) {
            Err(e) => res == Err::<Option<Invitation>, RegistrationError>(e),
            Ok(false) => res matches Ok(None),
            Ok(true) => res matches Ok(Some(inv)) && is_invitation_for(inv, *config, *r),
        },
{
    match stored {
        Err(_) => Err(RegistrationError::StoreFailed),
        Ok(false) => Ok(None),
        Ok(true) => Ok(Some(invitation(config, r))),
    }
}

/// Law: the answer to a sign-up does not tell whether the address was
/// already known: whether the insert added a row or not, it is a success.
pub proof fn law_reply_hides_known_addresses(inserted: bool)
    ensures
        signup_status(store_outcome(Ok(inserted))) == 200,
        signup_status(store_outcome(Ok(inserted))) == signup_status(store_outcome(Ok(!inserted))),
{
}

/// Law: the token a new participant is sent opens their record: a request
/// that carries it is looked up under exactly the hash that was stored.
pub proof fn law_invited_token_opens_record(r: PendingRegistration, req: NewParticipantRequest)
    requires
        is_registration_of(r, req),
    ensures
        request_lookup_key(Some(r.token@)) == Some(r.token_hash@),
{
    crate::auth::law_token_is_url_safe(r.token@);
}

/// Law: an address is refused exactly when it is blank (every character is
/// white space) or the address validator rejects it; nothing else about the
/// address, such as its letter case, counts.
pub proof fn law_email_refused_only_when_blank_or_invalid(a: Seq<char>)
    ensures
        email_acceptable(a) <==> ((exists|i: int| 0 <= i < a.len() && !crate::text::is_white_space(
            #[trigger] a[i],
        )) && email_address_valid(a)),
{
}

} // verus!
