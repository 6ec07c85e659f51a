//! The form sent to the captcha service, and when no question is asked at all.
use vstd::prelude::*;
use crate::text::{is_blank, is_blank_text};

verus! {

/// Address of the captcha verification endpoint.
pub const SITEVERIFY_URL: &'static str = "https://challenges.cloudflare.com/turnstile/v0/siteverify";

/// The form fields of a verification request, or none for a blank token,
/// which is answered "not verified" without asking the service.
pub open spec fn siteverify_fields(
    secret: Seq<char>,
    token: Seq<char>,
    remote_ip: Option<Seq<char>>,
) -> Option<Seq<(Seq<char>, Seq<char>)>> {
    if is_blank_text(token) {
        None
    } else {
        let base = seq![("secret"@, secret), ("response"@, token)];
        Some(
            match remote_ip {
                Some(ip) => base.push(("remoteip"@, ip)),
                None => base,
            },
        )
    }
}

/// Builds the verification form for a captcha token.
pub fn siteverify_form(secret: &str, token: &str, remote_ip: Option<&str>) -> (res: Option<
    Vec<(String, String)>,
>)
    ensures
        res matches Some(v) ==> Some(v@.map_values(|p: (String, String)| (p.0@, p.1@)))
            == siteverify_fields(secret@, token@, match remote_ip {
            Some(ip) => Some(ip@),
            None => None,
        }),
        res is None <==> is_blank_text(token@),
{
    if is_blank(token) {
        return None;
    }
    let mut form: Vec<(String, String)> = Vec::new();
    form.push(("secret".to_owned(), secret.to_owned()));
    form.push(("response".to_owned(), token.to_owned()));
    match remote_ip {
        Some(ip) => form.push(("remoteip".to_owned(), ip.to_owned())),
        None => {},
    }
    let ghost v = form@.map_values(|p: (String, String)| (p.0@, p.1@));
    let ghost base = seq![("secret"@, secret@), ("response"@, token@)];
    assert(v =~= match remote_ip {
        Some(ip) => base.push(("remoteip"@, ip@)),
        None => base,
    });
    Some(form)
}

} // verus!
