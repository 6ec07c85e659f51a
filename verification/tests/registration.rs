use backend::auth::hash_token;
use backend::registration::{
    after_store, check_captcha, check_email_address, invitation, new_registration, Config,
    NewParticipantRequest, RegistrationError,
};

fn request(email: &str) -> NewParticipantRequest {
    NewParticipantRequest {
        email: email.to_string(),
        leak_check: true,
        turnstile_token: "tok".to_string(),
    }
}

fn config() -> Config {
    Config { addr: "localhost:8443".to_string(), frontend_addr: "survey.example.org".to_string() }
}

#[test]
fn email_checks() {
    assert_eq!(check_email_address(&request("alice@example.org")), Ok(()));
    assert_eq!(check_email_address(&request("   ")), Err(RegistrationError::InvalidEmail));
    assert_eq!(check_email_address(&request("")), Err(RegistrationError::InvalidEmail));
    assert_eq!(check_email_address(&request("not-an-address")), Err(RegistrationError::InvalidEmail));
    assert_eq!(RegistrationError::InvalidEmail.status(), 400);
}

#[test]
fn captcha_answers() {
    assert_eq!(check_captcha(Ok(true)), Ok(()));
    assert_eq!(check_captcha(Ok(false)), Err(RegistrationError::CaptchaRejected));
    assert_eq!(check_captcha(Err(())), Err(RegistrationError::CaptchaUnavailable));
    assert_eq!(RegistrationError::CaptchaRejected.status(), 403);
    assert_eq!(RegistrationError::CaptchaUnavailable.status(), 502);
    assert_eq!(RegistrationError::StoreFailed.status(), 500);
}

#[test]
fn registration_record() {
    let r = new_registration(&request("alice@example.org"));
    assert_eq!(r.email, "alice@example.org");
    assert!(r.leak_check);
    assert_eq!(r.token.len(), 43);
    assert_eq!(r.token_hash, hash_token(&r.token));
    assert_eq!((r.id >> 76) & 0xf, 4);
}

#[test]
fn invitation_values() {
    let r = new_registration(&request("bob@example.org"));
    let inv = invitation(&config(), &r);
    assert_eq!(inv.to, "bob@example.org");
    assert_eq!(inv.template, "templates/invite.html");
    assert_eq!(inv.subject, "Deine Einladung zur Security Awareness Umfrage");
    assert_eq!(
        inv.values,
        vec![
            ("survey".to_string(), format!("https://survey.example.org/survey?token={}", r.token)),
            ("bind".to_string(), "localhost:8443".to_string()),
            ("token".to_string(), r.token.clone()),
        ]
    );
}

#[test]
fn store_outcomes() {
    let r = new_registration(&request("carol@example.org"));
    assert!(matches!(after_store(&config(), &r, Ok(true)), Ok(Some(_))));
    assert!(matches!(after_store(&config(), &r, Ok(false)), Ok(None)));
    assert!(matches!(after_store(&config(), &r, Err(())), Err(RegistrationError::StoreFailed)));
}

#[test]
fn invited_token_opens_record() {
    let r = new_registration(&request("dave@example.org"));
    let inv = invitation(&config(), &r);
    let link = &inv.values[0].1;
    let token = link.rsplit("token=").next().unwrap().to_string();
    assert_eq!(backend::auth::lookup_key_for(Some(token)), Ok(r.token_hash.clone()));
}
