use backend::mail::{
    render_template, select_template, sender_mailbox, MailError, TemplateKind, INVITE_SUBJECT,
    INVITE_TEMPLATE_NAME,
};
use backend::text::{concat_texts, is_blank, replace_all, text_eq};

#[test]
fn blank_texts() {
    assert!(is_blank(""));
    assert!(is_blank(" \t\r\n"));
    assert!(is_blank("\u{3000}\u{00a0}\u{2028}"));
    assert!(!is_blank("  x "));
    assert!(!is_blank("\u{200b}"));
}

#[test]
fn replace_matches_std() {
    assert_eq!(replace_all("aaa", "aa", "b"), "aaa".replace("aa", "b"));
    assert_eq!(replace_all("aaa", "aa", "b"), "ba");
    assert_eq!(replace_all("x{{a}}y{{a}}", "{{a}}", "1"), "x1y1");
    assert_eq!(replace_all("nothing here", "{{a}}", "1"), "nothing here");
    assert_eq!(replace_all("", "a", "b"), "");
    assert_eq!(replace_all("abab", "ab", ""), "");
}

#[test]
fn concat_and_eq() {
    assert_eq!(concat_texts("ab", "cd"), "abcd");
    assert!(text_eq("straße", "straße"));
    assert!(!text_eq("a", "ab"));
}

#[test]
fn render_fills_every_placeholder() {
    let vars = vec![
        ("name".to_string(), "Ada".to_string()),
        ("link".to_string(), "https://x/y".to_string()),
    ];
    let out = render_template("Hallo {{name}}, {{name}}! {{link}} {{other}}".to_string(), &vars);
    assert_eq!(out, "Hallo Ada, Ada! https://x/y {{other}}");
}

#[test]
fn render_applies_pairs_in_order() {
    let vars = vec![
        ("a".to_string(), "{{b}}".to_string()),
        ("b".to_string(), "B".to_string()),
    ];
    assert_eq!(render_template("{{a}}".to_string(), &vars), "B");
    let reversed = vec![
        ("b".to_string(), "B".to_string()),
        ("a".to_string(), "{{b}}".to_string()),
    ];
    assert_eq!(render_template("{{a}}".to_string(), &reversed), "{{b}}");
}

#[test]
fn plain_template_unchanged() {
    let vars = vec![("x".to_string(), "y".to_string())];
    assert_eq!(render_template("<p>{x}</p>".to_string(), &vars), "<p>{x}</p>");
}

#[test]
fn template_without_the_keys_placeholders_unchanged() {
    let vars = vec![
        ("name".to_string(), "Ada".to_string()),
        ("link".to_string(), "L".to_string()),
    ];
    let t = "Hallo {{other}}, {{ name }} {name}".to_string();
    assert_eq!(render_template(t.clone(), &vars), t);
    assert_eq!(render_template(t.clone(), &Vec::new()), t);
}

#[test]
fn render_order_of_plain_pairs_irrelevant() {
    let a = vec![
        ("name".to_string(), "Ada".to_string()),
        ("link".to_string(), "https://x".to_string()),
    ];
    let b = vec![
        ("link".to_string(), "https://x".to_string()),
        ("name".to_string(), "Ada".to_string()),
    ];
    let t = "{{name}}: {{link}} {{unknown}} {{name}}".to_string();
    let ra = render_template(t.clone(), &a);
    assert_eq!(ra, render_template(t, &b));
    assert_eq!(ra, "Ada: https://x {{unknown}} Ada");
}

#[test]
fn template_lookup() {
    assert_eq!(INVITE_TEMPLATE_NAME, "templates/invite.html");
    assert!(matches!(select_template("templates/invite.html"), Ok(TemplateKind::Invite)));
    match select_template("templates/other.html") {
        Err(e) => {
            assert_eq!(e.message(), "Unbekanntes Template: templates/other.html");
            let MailError::UnknownTemplate { name } = e;
            assert_eq!(name, "templates/other.html");
        }
        Ok(_) => panic!("unknown template accepted"),
    }
    assert_eq!(INVITE_SUBJECT, "Deine Einladung zur Security Awareness Umfrage");
}

#[test]
fn sender_header() {
    assert_eq!(sender_mailbox("Awareness Team", "team@example.org"), "Awareness Team <team@example.org>");
}
