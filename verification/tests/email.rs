use std::borrow::Cow;

use garde::rules::email::{parse_email, InvalidEmail};

#[test]
fn test_parse_email() {
    // Test cases taken from Django
    // https://github.com/django/django/blob/master/tests/validators/tests.py#L48
    let tests = &[
        ("email@here.com", None),
        ("weirder-email@here.and.there.com", None),
        (r#"!def!xyz%abc@example.com"#, None),
        ("email@[127.0.0.1]", None),
        ("email@[2001:dB8::1]", None),
        ("email@[2001:dB8:0:0:0:0:0:1]", None),
        ("email@[::fffF:127.0.0.1]", None),
        ("example@valid-----hyphens.com", None),
        ("example@valid-with-hyphens.com", None),
        ("test@domain.with.idn.tld.उदाहरण.परीक्षा", None),
        (
            r#""test@test"@example.com"#,
            Some(InvalidEmail::InvalidUser),
        ),
        // max length for domain name labels is 63 characters per RFC 1034
        (
            "a@atm.aaaaaaaaaaaaaaaaaaaaaaaaaaaaaaaaaaaaaaaaaaaaaaaaaaaaaaaaaaaaaaa",
            None,
        ),
        (
            "a@aaaaaaaaaaaaaaaaaaaaaaaaaaaaaaaaaaaaaaaaaaaaaaaaaaaaaaaaaaaaaaa.atm",
            None,
        ),
        (
            "a@aaaaaaaaaaaaaaaaaaaaaaaaaaaaaaaaaaaaaaaaaaaaaaaaaaaaaaaaaaaaaaa.bbbbbbbbbb.atm",
            None,
        ),
        // 64 * a
        (
            "a@atm.aaaaaaaaaaaaaaaaaaaaaaaaaaaaaaaaaaaaaaaaaaaaaaaaaaaaaaaaaaaaaaaa",
            Some(InvalidEmail::InvalidDomain),
        ),
        ("", Some(InvalidEmail::Empty)),
        ("abc", Some(InvalidEmail::MissingAt)),
        ("abc@", Some(InvalidEmail::InvalidDomain)),
        ("abc@bar", None),
        ("a @x.cz", Some(InvalidEmail::InvalidUser)),
        ("abc@.com", Some(InvalidEmail::InvalidDomain)),
        (
            "something@@somewhere.com",
            Some(InvalidEmail::InvalidDomain),
        ),
        ("email@127.0.0.1", None),
        ("email@[127.0.0.256]", Some(InvalidEmail::InvalidDomain)),
        ("email@[2001:db8::12345]", Some(InvalidEmail::InvalidDomain)),
        (
            "email@[2001:db8:0:0:0:0:1]",
            Some(InvalidEmail::InvalidDomain),
        ),
        (
            "email@[::ffff:127.0.0.256]",
            Some(InvalidEmail::InvalidDomain),
        ),
        ("example@invalid-.com", Some(InvalidEmail::InvalidDomain)),
        ("example@-invalid.com", Some(InvalidEmail::InvalidDomain)),
        ("example@invalid.com-", Some(InvalidEmail::InvalidDomain)),
        ("example@inv-.alid-.com", Some(InvalidEmail::InvalidDomain)),
        ("example@inv-.-alid.com", Some(InvalidEmail::InvalidDomain)),
        (
            r#"test@example.com\n\n<script src="x.js">"#,
            Some(InvalidEmail::InvalidDomain),
        ),
        (r#""\\\011"@here.com"#, Some(InvalidEmail::InvalidUser)),
        (r#""\\\012"@here.com"#, Some(InvalidEmail::InvalidUser)),
        (
            "trailingdot@shouldfail.com.",
            Some(InvalidEmail::InvalidDomain),
        ),
        // Trailing newlines in username or domain not allowed
        ("a@b.com\n", Some(InvalidEmail::InvalidDomain)),
        ("a\n@b.com", Some(InvalidEmail::InvalidUser)),
        (
            r#""test@test"\n@example.com"#,
            Some(InvalidEmail::InvalidUser),
        ),
        ("a@[127.0.0.1]\n", Some(InvalidEmail::InvalidDomain)),
        // underscores are not allowed
        ("John.Doe@exam_ple.com", Some(InvalidEmail::InvalidDomain)),
    ];

    for (input, expected) in tests {
        // println!("{} - {}", input, expected);
        assert_eq!(
            &parse_email(input).err(),
            expected,
            "Email `{}` was not classified correctly",
            input
        );
    }
}

#[test]
fn test_parse_email_cow() {
    let test: Cow<'static, str> = "email@here.com".into();
    assert!(parse_email(&test).is_ok());
    let test: Cow<'static, str> = String::from("email@here.com").into();
    assert!(parse_email(&test).is_ok());
    let test: Cow<'static, str> = "a@[127.0.0.1]\n".into();
    assert!(parse_email(&test).is_err());
    let test: Cow<'static, str> = String::from("a@[127.0.0.1]\n").into();
    assert!(parse_email(&test).is_err());
}

#[test]
fn test_parse_email_rfc5321() {
    // 65 character local part
    let test = "aaaaaaaaaaaaaaaaaaaaaaaaaaaaaaaaaaaaaaaaaaaaaaaaaaaaaaaaaaaaaaaaa@mail.com";
    assert_eq!(
        parse_email(test).err(),
        Some(InvalidEmail::UserLengthExceeded)
    );
    // 256 character domain part
    let test = "a@aaaaaaaaaaaaaaaaaaaaaaaaaaaaaaaaaaaaaaaaaaaaaaaaaaaaaaaaaaaaaaaaaaaaaaaaaaaaaaaaaaaaaaaaaaaaaaaaaaaaaaaaaaaaaaaaaaaaaaaaaaaaaaaaaaaaaaaaaaaaaaaaaaaaaaaaaaaaaaaaaaaaaaaaaaaaaaaaaaaaaaaaaaaaaaaaaaaaaaaaaaaaaaaaaaaaaaaaaaaaaaaaaaaaaaaaaaaaaaaaaaaaaaaaaaaaaaaa.com";
    assert_eq!(
        parse_email(test).err(),
        Some(InvalidEmail::DomainLengthExceeded)
    );
}
