use std::collections::VecDeque;

use garde::error::Kind;
use garde::util::MaybeJoin;
use garde::{Error, Path, Report, Unvalidated, Validate};

/// A value that reports one error when it is empty.
#[derive(Debug)]
struct Name(&'static str);

impl Validate for Name {
    type Context = ();

    fn validate_into(&self, _ctx: &(), parent: &Path, report: &mut Report) {
        if self.0.is_empty() {
            report.append(parent.clone(), Error::new("empty"));
        }
    }
}

fn lines(report: &Report) -> Vec<(String, String)> {
    report
        .iter()
        .iter()
        .map(|(p, e)| (p.to_string(), e.message().to_string()))
        .collect()
}

#[test]
fn unit_and_none_are_valid() {
    assert!(().validate().is_ok());
    assert!(None::<Name>.validate().is_ok());
    assert!(Vec::<Name>::new().validate().is_ok());
}

#[test]
fn single_value_reports_at_the_root() {
    let report = Name("").validate().unwrap_err();
    assert_eq!(lines(&report), vec![(String::new(), String::from("empty"))]);
    assert_eq!(report.to_string(), "empty\n");
    assert!(Name("x").validate().is_ok());
}

#[test]
fn list_items_report_at_their_index() {
    let v = vec![Name("a"), Name(""), Name("b"), Name("")];
    let report = v.validate().unwrap_err();
    assert_eq!(
        lines(&report),
        vec![
            (String::from("[1]"), String::from("empty")),
            (String::from("[3]"), String::from("empty")),
        ]
    );
    assert_eq!(report.to_string(), "[1]: empty\n[3]: empty\n");

    let arr = [Name(""), Name("x")];
    assert_eq!(lines(&arr.validate().unwrap_err())[0].0, "[0]");

    let mut dq = VecDeque::new();
    dq.push_back(Name("x"));
    dq.push_back(Name(""));
    assert_eq!(lines(&dq.validate().unwrap_err())[0].0, "[1]");
}

#[test]
fn tuples_report_at_their_position() {
    let t = (Name("a"), Name(""), Name(""));
    let report = t.validate().unwrap_err();
    assert_eq!(
        lines(&report),
        vec![
            (String::from("[1]"), String::from("empty")),
            (String::from("[2]"), String::from("empty")),
        ]
    );
}

#[test]
fn nested_containers_build_nested_paths() {
    let v = vec![vec![Name("x")], vec![Name("y"), Name("")]];
    let report = v.validate().unwrap_err();
    assert_eq!(lines(&report), vec![(String::from("[1][1]"), String::from("empty"))]);

    let boxed = Box::new(Some(Name("")));
    assert_eq!(lines(&boxed.validate().unwrap_err()), vec![(String::new(), String::from("empty"))]);
}

#[test]
fn validate_into_appends_below_parent() {
    let mut report = Report::new();
    report.append(Path::empty(), Error::new("first"));
    let v = vec![Name("")];
    v.validate_into(&(), &Path::new("names"), &mut report);
    assert_eq!(
        lines(&report),
        vec![
            (String::new(), String::from("first")),
            (String::from("names[0]"), String::from("empty")),
        ]
    );
}

#[test]
fn unvalidated_becomes_valid_only_without_errors() {
    let valid = Unvalidated::new(Name("ok")).validate().unwrap();
    assert_eq!((*valid).0, "ok");
    assert_eq!(valid.into_inner().0, "ok");
    let report = Unvalidated::new(Name("")).validate().unwrap_err();
    assert_eq!(report.iter().len(), 1);
    let report = Unvalidated::new(vec![Name(""), Name("")]).validate_with(&()).unwrap_err();
    assert_eq!(report.into_inner().len(), 2);
}

#[test]
fn maybe_join_builds_once() {
    let mut held: Option<Path> = None;
    let mut calls = 0;
    let first = held.maybe_join(
        || {
            calls += 1;
            Path::new("a")
        },
        || 3usize,
    );
    assert_eq!(first.to_string(), "a[3]");
    let second = held.maybe_join(
        || {
            calls += 1;
            Path::new("b")
        },
        || "c",
    );
    assert_eq!(second.to_string(), "a[3]");
    assert_eq!(calls, 1);
    let comps = held.unwrap();
    let comps = comps.__iter();
    assert!(comps[0].0 == Kind::Index);
}
