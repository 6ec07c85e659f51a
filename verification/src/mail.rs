//! E-mail templates: choosing a template by name, filling its `{{key}}`
//! placeholders, and the header texts of an invitation.
use vstd::prelude::*;
use crate::text::{chars_of, concat_texts, occurs_at, push_char, replace_all, replaced, text_eq};

verus! {

/// The one template the service knows.
pub const INVITE_TEMPLATE_NAME: &'static str = "templates/invite.html";

/// Subject line of the invitation mail.
pub const INVITE_SUBJECT: &'static str = "Deine Einladung zur Security Awareness Umfrage";

/// The templates that can be sent.
#[derive(Clone, Copy, Debug, PartialEq, Eq, Structural)]
pub enum TemplateKind {
    Invite,
}

/// Why a template could not be sent.
#[derive(Debug)]
pub enum MailError {
    /// No template is registered under this name.
    UnknownTemplate { name: String },
}

impl MailError {
    /// The text the error reads as, `Unbekanntes Template: <name>`.
    pub fn message(&self) -> (res: String)
        ensures
            res@ == unknown_template_message(match self {
                MailError::UnknownTemplate { name } => name@,
            }),
    {
        match self {
            MailError::UnknownTemplate { name } => {
                proof {
                    reveal_strlit("Unbekanntes Template: ");
                }
                concat_texts("Unbekanntes Template: ", name.as_str())
            },
        }
    }
}

/// The message of an unknown-template error.
pub open spec fn unknown_template_message(name: Seq<char>) -> Seq<char> {
    "Unbekanntes Template: "@ + name
}

/// Looks a template up by its name; only the invitation is known.
pub fn select_template(name: &str) -> (res: Result<TemplateKind, MailError>)
    ensures
        name@ == INVITE_TEMPLATE_NAME@ ==> res == Ok::<TemplateKind, MailError>(TemplateKind::Invite),
        name@ != INVITE_TEMPLATE_NAME@ ==> (res matches Err(MailError::UnknownTemplate { name: n })
            && n@ == name@),
{
    if text_eq(name, INVITE_TEMPLATE_NAME) {
        Ok(TemplateKind::Invite)
    } else {
        Err(MailError::UnknownTemplate { name: name.to_owned() })
    }
}

/// The marker `{{key}}` that stands for the value of `key` in a template.
pub open spec fn placeholder(key: Seq<char>) -> Seq<char> {
    seq!['{', '{'] + key + seq!['}', '}']
}

/// The views of a list of (key, value) pairs.
pub open spec fn pairs_view(vars: Seq<(String, String)>) -> Seq<(Seq<char>, Seq<char>)> {
    vars.map_values(|p: (String, String)| (p.0@, p.1@))
}

/// The template after each pair, in order, has had every `{{key}}` replaced by its value.
pub open spec fn rendered(t: Seq<char>, vars: Seq<(Seq<char>, Seq<char>)>) -> Seq<char>
    decreases vars.len(),
{
    if vars.len() == 0 {
        t
    } else {
        replaced(rendered(t, vars.drop_last()), placeholder(vars.last().0), vars.last().1)
    }
}

/// Builds the marker `{{key}}`.
pub fn make_placeholder(key: &str) -> (res: String)
    ensures
        res@ == placeholder(key@),
{
    let mut out = String::new();
    push_char(&mut out, '{');
    push_char(&mut out, '{');
    let ks = chars_of(key);
    let mut i: usize = 0;
    while i < ks.len()
        invariant
            i <= ks.len(),
            ks@ == key@,
            out@ == seq!['{', '{'] + key@.take(i as int),
        decreases ks.len() - i,
    {
        push_char(&mut out, ks[i]);
        assert(seq!['{', '{'] + key@.take(i as int) + seq![key@[i as int]] =~= seq!['{', '{']
            + key@.take(i + 1));
        i = i + 1;
    }
    push_char(&mut out, '}');
    push_char(&mut out, '}');
    assert(key@.take(key@.len() as int) =~= key@);
    assert(out@ =~= placeholder(key@));
    out
}

/// Replaces, for each (key, value) pair in turn, every `{{key}}` in the template by the value.
pub fn render_template(template: String, vars: &Vec<(String, String)>) -> (res: String)
    ensures
        res@ == rendered(template@, pairs_view(vars@)),
{
    let ghost pv = pairs_view(vars@);
    let mut cur = template;
    let mut i: usize = 0;
    assert(pv.take(0) =~= Seq::<(Seq<char>, Seq<char>)>::empty());
    while i < vars.len()
        invariant
            i <= vars.len(),
            pv == pairs_view(vars@),
            pv.len() == vars.len(),
            cur@ == rendered(template@, pv.take(i as int)),
        decreases vars.len() - i,
    {
        let key = &vars[i].0;
        let value = &vars[i].1;
        let marker = make_placeholder(key.as_str());
        cur = replace_all(cur.as_str(), marker.as_str(), value.as_str());
        assert(pv.take(i + 1).drop_last() =~= pv.take(i as int));
        assert(pv[i as int] == (key@, value@));
        i = i + 1;
    }
    assert(pv.take(vars.len() as int) =~= pv);
    cur
}

/// The sender as a mail header reads it: `Name <address>`.
pub open spec fn mailbox_text(name: Seq<char>, address: Seq<char>) -> Seq<char> {
    name + " <"@ + address + ">"@
}

/// Formats `from_name <from_email>`.
pub fn sender_mailbox(from_name: &str, from_email: &str) -> (res: String)
    ensures
        res@ == mailbox_text(from_name@, from_email@),
{
    proof {
        reveal_strlit(" <");
        reveal_strlit(">");
    }
    let a = concat_texts(from_name, " <");
    let b = concat_texts(a.as_str(), from_email);
    let c = concat_texts(b.as_str(), ">");
    assert(c@ =~= mailbox_text(from_name@, from_email@));
    c
}

/// A mail ready to hand to the transport.
#[derive(Debug)]
pub struct MailContent {
    /// The sender header, `Name <address>`.
    pub from: String,
    pub to: String,
    pub subject: String,
    /// The HTML body: the template with its placeholders filled in.
    pub html_body: String,
}

/// Puts a mail together: the sender header from the service's name and
/// address, and the body from the template and its values.
pub fn compose_mail(
    from_name: &str,
    from_email: &str,
    to: &str,
    subject: &str,
    template: String,
    vars: &Vec<(String, String)>,
) -> (res: MailContent)
    ensures
        res.from@ == mailbox_text(from_name@, from_email@),
        res.to@ == to@,
        res.subject@ == subject@,
        res.html_body@ == rendered(template@, pairs_view(vars@)),
{
    let from = sender_mailbox(from_name, from_email);
    let html_body = render_template(template, vars);
    MailContent { from, to: to.to_owned(), subject: subject.to_owned(), html_body }
}

} // verus!
