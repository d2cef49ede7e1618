use std::borrow::Cow;
use std::collections::BTreeMap;

use garde::error::{Error, NoKey};
use garde::i18n::{
    DefaultI18n, I18n, InvalidCreditCard, InvalidEmail, InvalidPhoneNumber, InvalidUrl,
};
use garde::rules::ip::IpKind;
use garde::rules::pattern::{RegexPattern, SyncWrapper};
use garde::rules::{
    alphanumeric, ascii, byte_length, char_count, contains, credit_card, email, grapheme_count,
    inner, ip, keys, length, pattern, phone_number, prefix, range, regex, starts_with, suffix,
    url,
};

fn message(r: Result<(), Error>) -> String {
    r.unwrap_err().message().to_string()
}

#[test]
fn ascii_rule() {
    assert!(ascii::apply(&"plain text", ()).is_ok());
    assert_eq!(message(ascii::apply(&"caf\u{e9}", ())), "not ascii");
    assert!(ascii::apply(&None::<&str>, ()).is_ok());
    assert_eq!(message(ascii::apply(&Some("\u{3b1}"), ())), "not ascii");
}

#[test]
fn alphanumeric_rule() {
    assert!(alphanumeric::apply(&"abc123", ()).is_ok());
    assert!(alphanumeric::apply(&"", ()).is_ok());
    let e = alphanumeric::apply(&"abc 123", ()).unwrap_err();
    assert_eq!(e.message(), "not alphanumeric");
    assert_eq!(e.code(), Some("NOT_ALPHANUMERIC"));
    assert!(alphanumeric::apply(&"\u{e9}t\u{e9}", ()).is_ok());
    assert!(alphanumeric::apply(&"a_b", ()).is_err());
}

#[test]
fn contains_prefix_suffix_rules() {
    assert!(contains::apply(&"hello world", ("o w",)).is_ok());
    assert_eq!(message(contains::apply(&"hello", ("xyz",))), "does not contain \"xyz\"");
    assert!(contains::apply(&"anything", ("",)).is_ok());
    assert!(prefix::apply(&"hello", ("he",)).is_ok());
    assert_eq!(message(prefix::apply(&"hello", ("lo",))), "value does not begin with \"lo\"");
    assert!(suffix::apply(&"hello", ("lo",)).is_ok());
    assert_eq!(message(suffix::apply(&"hello", ("he",))), "does not end with \"he\"");
    assert!(suffix::apply(&None::<String>, ("he",)).is_ok());
}

#[test]
fn length_rules_count_differently() {
    // one grapheme, two chars, three bytes, two UTF-16 code units
    let s = "e\u{301}";
    assert!(grapheme_count::apply(&s, (1, 1)).is_ok());
    assert_eq!(message(char_count::apply(&s, (1, 1))), "character count is greater than 1");
    assert!(char_count::apply(&s, (2, 2)).is_ok());
    assert_eq!(message(byte_length::apply(&s, (1, 2))), "byte length is greater than 2");
    assert_eq!(message(byte_length::apply(&s, (4, 9))), "byte length is lower than 4");
    assert!(byte_length::apply(&s, (3, 3)).is_ok());
    assert_eq!(message(char_count::apply(&s, (3, 9))), "character count is lower than 3");
    assert_eq!(message(grapheme_count::apply(&s, (2, 9))), "grapheme count is lower than 2");
    assert_eq!(message(grapheme_count::apply(&"abc", (0, 2))), "grapheme count is greater than 2");
}

#[test]
fn byte_length_of_byte_containers() {
    let bytes: Vec<u8> = vec![1, 2, 3];
    assert!(byte_length::apply(&bytes, (3, 3)).is_ok());
    assert!(byte_length::apply(&[0u8; 4], (5, 9)).is_err());
    assert!(byte_length::apply(&None::<Vec<u8>>, (5, 9)).is_ok());
}

#[test]
fn utf16_code_units() {
    let smile = "\u{1f600}";
    assert_eq!(message(length::utf16::apply(&smile, (1, 1))), "length is greater than 1");
    assert!(length::utf16::apply(&smile, (2, 2)).is_ok());
    assert_eq!(message(length::utf16::apply(&String::from("ab"), (3, 5))), "length is lower than 3");
    assert!(length::utf16::apply(&Cow::Borrowed("abc"), (3, 3)).is_ok());
}

#[test]
fn check_len_bounds() {
    assert!(length::check_len(5, 5, 5).is_ok());
    assert_eq!(message(length::check_len(4, 5, 9)), "length is lower than 5");
    assert_eq!(message(length::check_len(10, 5, 9)), "length is greater than 9");
}

#[test]
fn range_rule() {
    assert!(range::apply(&5u8, (Some(1), Some(10))).is_ok());
    let e = range::apply(&5u8, (Some(6), None)).unwrap_err();
    assert_eq!(e.code(), Some("INVALID_SIZE"));
    assert_eq!(e.message(), "lower than 6");
    let e = range::apply(&5u8, (None, Some(4))).unwrap_err();
    assert_eq!(e.code(), Some("EXCEEDS_SIZE"));
    assert_eq!(e.message(), "greater than 4");
    assert_eq!(range::apply(&-5i8, (Some(-3), None)).unwrap_err().message(), "lower than -3");
    assert!(range::apply(&i128::MIN, (None, None)).is_ok());
    assert!(range::apply(&u64::MAX, (None, None)).is_ok());
    assert!(range::apply(&None::<u32>, (Some(1), Some(2))).is_ok());
    assert_eq!(
        range::apply(&Some(100u32), (Some(1), Some(2))).unwrap_err().message(),
        "greater than 2"
    );
}

#[test]
fn email_rule() {
    assert!(email::apply(&"user@example.com", ()).is_ok());
    assert_eq!(message(email::apply(&"abc", ())), "not a valid email: value is missing `@`");
    assert_eq!(message(email::apply(&"", ())), "not a valid email: value is empty");
    assert_eq!(
        message(email::apply(&"a b@example.com", ())),
        "not a valid email: user contains unexpected characters"
    );
}

#[test]
fn ip_rule() {
    assert!(ip::apply(&"127.0.0.1", (IpKind::V4,)).is_ok());
    assert!(ip::apply(&"127.0.0.1", (IpKind::Any,)).is_ok());
    assert_eq!(message(ip::apply(&"127.0.0.1", (IpKind::V6,))), "not a valid IPv6 address");
    assert!(ip::apply(&"::1", (IpKind::V6,)).is_ok());
    assert_eq!(message(ip::apply(&"::1", (IpKind::V4,))), "not a valid IPv4 address");
    assert_eq!(message(ip::apply(&"nope", (IpKind::Any,))), "not a valid IP address");
}

#[test]
fn url_rule() {
    assert!(url::apply(&"http://test.com", ()).is_ok());
    assert_eq!(message(url::apply(&"test", ())), "not a valid url: relative URL without a base");
    assert_eq!(message(url::apply(&"http://", ())), "not a valid url: empty host");
    assert!(url::apply(&None::<&str>, ()).is_ok());
}

#[test]
fn credit_card_rule() {
    assert!(credit_card::apply(&"4111111111111111", ()).is_ok());
    assert_eq!(
        message(credit_card::apply(&"4111111111111112", ())),
        "not a valid credit card number: invalid luhn"
    );
    assert_eq!(
        message(credit_card::apply(&"abc", ())),
        "not a valid credit card number: invalid format"
    );
    assert_eq!(
        message(credit_card::apply(&"411", ())),
        "not a valid credit card number: invalid length"
    );
}

#[test]
fn phone_number_rule() {
    assert!(phone_number::apply(&"+14152370800", ()).is_ok());
    let m = message(phone_number::apply(&"not a number", ()));
    assert!(m.starts_with("not a valid phone number"));
    assert!(phone_number::apply(&None::<String>, ()).is_ok());
}

#[test]
fn pattern_rule() {
    let re = RegexPattern::new("^a+$").unwrap();
    assert!(pattern::apply(&"aaa", (&re,)).is_ok());
    assert_eq!(message(pattern::apply(&"aab", (&re,))), "does not match pattern /^a+$/");
    assert!(pattern::apply(&None::<&str>, (&re,)).is_ok());
    assert!(RegexPattern::new("(").is_none());
    let wrapped = SyncWrapper::new(RegexPattern::new("b").unwrap());
    assert!(pattern::apply(&"abc", (&wrapped,)).is_ok());
    assert_eq!(message(pattern::apply(&"xyz", (&wrapped,))), "does not match pattern /b/");
}

#[test]
fn regex_and_starts_with_validators() {
    let re = RegexPattern::new("^[0-9]+$").unwrap();
    assert!(regex::validate("zip", "12345", &re).is_ok());
    assert_eq!(
        message(regex::validate("zip", "12a45", &re)),
        "zip is not valid according to the regular expression /^[0-9]+$/"
    );
    assert!(starts_with::validate("name", "hello", "he").is_ok());
    assert_eq!(message(starts_with::validate("name", "world", "he")), "name must start with he");
}

#[test]
fn inner_visits_items_with_keys() {
    let mut seen = Vec::new();
    inner::apply(&vec![10, 20, 30], |item: &i32, key: &usize| seen.push((*key, *item)));
    assert_eq!(seen, vec![(0, 10), (1, 20), (2, 30)]);

    let mut count = 0;
    inner::apply(&Some(5), |_: &i32, _: &NoKey| count += 1);
    inner::apply(&None::<i32>, |_: &i32, _: &NoKey| count += 1);
    assert_eq!(count, 1);
}

#[test]
fn keys_visits_every_key() {
    let mut map = BTreeMap::new();
    map.insert(String::from("b"), 2);
    map.insert(String::from("a"), 1);
    let mut seen = Vec::new();
    keys::apply(&map, |k: &String| seen.push(k.clone()));
    seen.sort();
    assert_eq!(seen, vec![String::from("a"), String::from("b")]);
}

/// A handler whose every message is the name of its method.
struct Names;

impl I18n for Names {
    fn length_lower_than(&self, _min: usize) -> Cow<'static, str> {
        Cow::Borrowed("length_lower_than")
    }

    fn length_greater_than(&self, _max: usize) -> Cow<'static, str> {
        Cow::Borrowed("length_greater_than")
    }

    fn range_lower_than(&self, _min: &str) -> Cow<'static, str> {
        Cow::Borrowed("range_lower_than")
    }

    fn range_greater_than(&self, _max: &str) -> Cow<'static, str> {
        Cow::Borrowed("range_greater_than")
    }

    fn credit_card_invalid(&self, _reason: InvalidCreditCard) -> Cow<'static, str> {
        Cow::Borrowed("credit_card_invalid")
    }

    fn pattern_no_match(&self, _pattern: &str) -> Cow<'static, str> {
        Cow::Borrowed("pattern_no_match")
    }

    fn contains_missing(&self, _pattern: &str) -> Cow<'static, str> {
        Cow::Borrowed("contains_missing")
    }

    fn url_invalid(&self, _reason: InvalidUrl) -> Cow<'static, str> {
        Cow::Borrowed("url_invalid")
    }

    fn prefix_missing(&self, _pattern: &str) -> Cow<'static, str> {
        Cow::Borrowed("prefix_missing")
    }

    fn suffix_missing(&self, _pattern: &str) -> Cow<'static, str> {
        Cow::Borrowed("suffix_missing")
    }

    fn phone_number_invalid(&self, _reason: InvalidPhoneNumber) -> Cow<'static, str> {
        Cow::Borrowed("phone_number_invalid")
    }

    fn ip_invalid(&self, _kind: IpKind) -> Cow<'static, str> {
        Cow::Borrowed("ip_invalid")
    }

    fn matches_field_mismatch(&self, _field: &str) -> Cow<'static, str> {
        Cow::Borrowed("matches_field_mismatch")
    }

    fn email_invalid(&self, _reason: InvalidEmail) -> Cow<'static, str> {
        Cow::Borrowed("email_invalid")
    }

    fn ascii_invalid(&self) -> Cow<'static, str> {
        Cow::Borrowed("ascii_invalid")
    }

    fn alphanumeric_invalid(&self) -> Cow<'static, str> {
        Cow::Borrowed("alphanumeric_invalid")
    }

    fn required_not_set(&self) -> Cow<'static, str> {
        Cow::Borrowed("required_not_set")
    }
}

#[test]
fn rules_take_messages_from_a_handler() {
    assert_eq!(message(prefix::apply_in(&"hello", ("x",), &Names)), "prefix_missing");
    assert!(prefix::apply_in(&"hello", ("he",), &Names).is_ok());
    assert_eq!(message(suffix::apply_in(&"hello", ("x",), &&Names)), "suffix_missing");
    assert_eq!(message(url::apply_in(&"nope", (), &Names)), "url_invalid");
    assert_eq!(message(credit_card::apply_in(&"abc", (), &Names)), "credit_card_invalid");
    assert_eq!(message(phone_number::apply_in(&"abc", (), &Names)), "phone_number_invalid");
    assert!(url::apply_in(&"http://test.com", (), &Names).is_ok());
}

#[test]
fn default_messages() {
    let d = DefaultI18n;
    assert_eq!(d.length_lower_than(3), "length is lower than 3");
    assert_eq!(d.range_greater_than("7"), "greater than 7");
    assert_eq!(d.ip_invalid(IpKind::V4), "not a valid IPv4 address");
    assert_eq!(d.email_invalid(InvalidEmail::Empty), "not a valid email: value is empty");
    assert_eq!(d.matches_field_mismatch("password"), "does not match password field");
    assert_eq!(d.required_not_set(), "not set");
    assert_eq!(d.phone_number_invalid(InvalidPhoneNumber::Invalid), "not a valid phone number");
    assert_eq!(
        d.phone_number_invalid(InvalidPhoneNumber::TooLong),
        "not a valid phone number: the number is too long"
    );
}

#[test]
fn every_rule_takes_messages_from_a_handler() {
    assert_eq!(message(ascii::apply_in(&"caf\u{e9}", (), &Names)), "ascii_invalid");
    assert!(ascii::apply_in(&"cafe", (), &Names).is_ok());
    let e = alphanumeric::apply_in(&"a-b", (), &Names).unwrap_err();
    assert_eq!(e.message(), "alphanumeric_invalid");
    assert_eq!(e.code(), Some("NOT_ALPHANUMERIC"));
    assert!(alphanumeric::apply_in(&"a1", (), &Names).is_ok());
    assert_eq!(message(contains::apply_in(&"abc", ("x",), &Names)), "contains_missing");
    let re = RegexPattern::new("^a$").unwrap();
    assert_eq!(message(pattern::apply_in(&"b", (&re,), &Names)), "pattern_no_match");
    assert_eq!(message(email::apply_in(&"abc", (), &Names)), "email_invalid");
    assert!(email::apply_in(&"a@b.com", (), &Names).is_ok());
    assert_eq!(message(ip::apply_in(&"x", (IpKind::V4,), &Names)), "ip_invalid");
    let e = range::apply_in(&5u8, (Some(6), None), &Names).unwrap_err();
    assert_eq!(e.message(), "range_lower_than");
    assert_eq!(e.code(), Some("INVALID_SIZE"));
    let e = range::apply_in(&5u8, (None, Some(4)), &Names).unwrap_err();
    assert_eq!(e.message(), "range_greater_than");
    assert_eq!(e.code(), Some("EXCEEDS_SIZE"));
    assert_eq!(message(length::utf16::apply_in(&"ab", (3, 5), &Names)), "length_lower_than");
    assert_eq!(message(length::utf16::apply_in(&"abcdef", (3, 5), &Names)), "length_greater_than");
    assert!(length::utf16::apply_in(&None::<&str>, (3, 5), &Names).is_ok());
    assert_eq!(message(byte_length::apply_in(&"ab", (3, 5), &Names)), "length_lower_than");
    assert_eq!(message(char_count::apply_in(&"abcdef", (3, 5), &Names)), "length_greater_than");
    assert_eq!(message(grapheme_count::apply_in(&"ab", (3, 5), &Names)), "length_lower_than");
}

#[test]
fn any_ip_is_v4_or_v6() {
    for s in ["127.0.0.1", "::1", "x", "1.2.3", "::ffff:1.2.3.4"] {
        let any = ip::apply(&s, (IpKind::Any,)).is_ok();
        let v4 = ip::apply(&s, (IpKind::V4,)).is_ok();
        let v6 = ip::apply(&s, (IpKind::V6,)).is_ok();
        assert_eq!(any, v4 || v6);
    }
}
