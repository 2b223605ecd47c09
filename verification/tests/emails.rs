//! Email address validation and normalization.

use identity_engine::email::UserEmail;

#[test]
fn invalid_user_emails() {
    let invalid_emails = [
        "invalid",
        "invalid@@example.com",
        "invalid@invalid@example.com",
        "user@example-.com",
        "more-than-64-characters-in-the-local-part-is-toooooooooooooo-long@example.com",
        "more-than-254-characters-total-is-tooo-long@example.example.example.example.example.example.example.example.example.example.example.example.example.example.example.example.example.example.example.example.example.example.example.example.example.example.com",
        "user with spaces@example.com",
        ".leading-dot@example.com",
        "trailing-dot.@example.com",
        "adjacent..dots@example.com",
        "\"\"@example.com",
        "\"user-with\nline-break\"@example.com",
        "\"user-with-unbalanced\"quotes\"@example.com",
        "user-with-\"balanced-quotes\"-in-middle@example.com",
        "user-with\\backslash@example.com",
        "user-with-unquoted-escaped\\ special-character@example.com",
        // While technically allowed by RFC 5322, the following forms aren't allowed by RFC 5321
        // and aren't required by any standards-compliant mail server, so there's no reason to
        // allow them. Users submitting these are most likely trying to break things.
        "\"user\".name@example.com",
        "user.\"name\"@example.com",
        "\"user\".\"name\"@example.com",
        " user.name@example.com",
        "user .name@example.com",
        "user. name@example.com",
        "user.name @example.com",
        "user.name@ example.com",
        "user.name@example .com",
        "user.name@example. com",
        "user.name@example.com ",
        "(comment)user@example.com",
        "user(comment)@example.com",
        "user@(comment)example.com",
        "user@example(comment).com",
        "user@example.(comment)com",
        "user@example.com(comment)",
        // The following forms using IP addresses in brackets are valid, but we disallow users
        // from using IP addresses to reduce our attack surface.
        "user@[127.0.0.1]",
        "user@[::1]",
    ];

    for email in invalid_emails {
        assert!(
            UserEmail::from_str(email).is_err(),
            "user email {email:?} should be invalid",
        );
    }
}

#[test]
fn valid_user_emails() {
    let valid_emails = [
        "user-of-a-mail-server-on-a-tld@com",
        "64-characters-in-the-local-part-is-fiiiiiiiiiiiiiiiiiiiiiiiiiine@example.com",
        "\"unnecessarily.quoted.user\"@example.com",
        "\"quoted @ sign\"@example.com",
        "\"quoted user with unnecessary \\escapes\"@example.com",
        "\"quoted user with unnecessary\\ escapes on special characters\"@example.com",
        "\"quoted user with spaces and \\\" escapes\"@example.com",
        // While not allowed by RFC 5321 or RFC 5322, the following forms are allowed with the
        // SMTPUTF8 extension specified by RFC 6531.
        "non-ASCII-in-user-📂🌱@example.com",
        "non-ASCII-in-domain@📂🌱.example.com",
    ];

    for email in valid_emails {
        if let Err(_error) = UserEmail::from_str(email) {
            panic!("user email {email:?} should be valid");
        }
    }
}

/// Ensures users can't sign up multiple times with different forms of the same email.
#[test]
fn user_email_normalization() {
    // The user portion isn't all lowercase or all uppercase when normalized because RFC 5321
    // (section 2.3.11) lets mail servers treat the user portion case-sensitively.
    let normalized_email = "USER.name@examplé.com";

    let equivalent_emails = [
        normalized_email,
        "USER.name@example\u{0301}.com",
        "USER.name@EXAMPLÉ.COM",
        "USER.name@EXAMPLE\u{0301}.COM",
        "USER.name@xn--exampl-gva.com",
        "USER.name@xN--eXaMpL-gVa.CoM",
        r#""USER.name"@examplé.com"#,
        r#""\USER\.name"@examplé.com"#,
    ];

    for email in equivalent_emails {
        let parsed = UserEmail::from_str(email).unwrap_or_else(|_| {
            panic!("normalizing {email:?}");
        });
        assert_eq!(normalized_email, parsed.as_str(), "normalizing {email:?}");
    }

    let normalized_email = r#""a \\\" b\\."@example.com"#;

    let equivalent_emails = [
        normalized_email,
        r#""\a \\\" b\\."@example.com"#,
        r#""\a\ \\\" b\\\."@example.com"#,
    ];

    for email in equivalent_emails {
        let parsed = UserEmail::from_str(email).unwrap_or_else(|_| {
            panic!("normalizing {email:?}");
        });
        assert_eq!(normalized_email, parsed.as_str(), "normalizing {email:?}");
    }
}
