use garde::error::rc_list::List;
use garde::error::{Error, Kind, Path, Report};

fn items<'a>(list: &'a List<&'static str>) -> Vec<&'static str> {
    let mut out = Vec::new();
    let mut iter = list.iter();
    while let Some(item) = iter.next() {
        out.push(*item);
    }
    out
}

#[test]
fn path_join() {
    let path = Path::new("a").join("b").join("c");
    assert_eq!(path.to_string(), "a.b.c");
}

#[test]
fn rc_list_shenanigans() {
    let list = List::new();
    assert_eq!(list.len(), 0);

    let mut iter = list.iter();
    let item = iter.next();
    drop(iter);
    println!("{item:?}");

    let a = list.append("a");
    let b = list.append("b");
    let c_a = a.append("c");
    let d_c_a = c_a.append("d");

    let mut iter = list.iter();
    let item = iter.next();
    drop(iter);
    println!("{item:?}");

    assert_eq!(a.len(), 1);
    assert_eq!(items(&a), ["a"]);
    assert_eq!(b.len(), 1);
    assert_eq!(items(&b), ["b"]);
    assert_eq!(c_a.len(), 2);
    assert_eq!(items(&c_a), ["c", "a"]);
    assert_eq!(d_c_a.len(), 3);
    assert_eq!(items(&d_c_a), ["d", "c", "a"]);
}

#[test]
fn path_renders_keys_and_indices() {
    let path = Path::new("array").join(0usize).join("c");
    assert_eq!(path.to_string(), "array[0].c");
    let path = Path::new(3usize).join(12usize);
    assert_eq!(path.to_string(), "[3][12]");
    assert_eq!(Path::empty().to_string(), "");
    assert!(Path::empty().is_empty());
    assert_eq!(Path::new("a").join("b").len(), 2);
}

#[test]
fn path_components_newest_first() {
    let path = Path::new("a").join(1usize);
    let comps = path.__iter();
    assert_eq!(comps.len(), 2);
    assert_eq!(comps[0].0, Kind::Index);
    assert_eq!(comps[0].1.as_str(), "1");
    assert_eq!(comps[1].0, Kind::Key);
    assert_eq!(comps[1].1.as_str(), "a");
}

#[test]
fn error_code_and_message() {
    let e = Error::new("lorem");
    assert_eq!(e.code(), None);
    assert_eq!(e.message(), "lorem");
    assert_eq!(e.to_string(), "lorem");
    let e = e.with_code("CODE");
    assert_eq!(e.code(), Some("CODE"));
    assert_eq!(e.to_string(), "[CODE] lorem");
    let mut e = Error::new(String::from("ipsum"));
    e.set_code("X");
    assert_eq!(e.code(), Some("X"));
    assert_eq!(e.message(), "ipsum");
}

#[test]
fn report_collects_in_order() {
    let mut report = Report::new();
    assert!(report.is_empty());
    report.append(Path::new("a").join("b"), Error::new("lol"));
    report.append(Path::empty(), Error::new("top"));
    report.append(Path::new("a").join(0usize), Error::new("pog").with_code("P"));
    assert!(!report.is_empty());
    assert_eq!(report.iter().len(), 3);
    assert_eq!(report.to_string(), "a.b: lol\ntop\na[0]: [P] pog\n");
    let inner = report.into_inner();
    assert_eq!(inner.len(), 3);
    assert_eq!(inner[0].1, Error::new("lol"));
    assert_eq!(inner[2].0.to_string(), "a[0]");
}

#[test]
fn cow_components_are_keys() {
    let path = Path::new(std::borrow::Cow::Borrowed("a")).join(std::borrow::Cow::Owned::<str>(String::from("b")));
    assert_eq!(path.to_string(), "a.b");
}
