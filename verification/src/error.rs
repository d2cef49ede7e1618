//! Error types: [`Error`], the [`Path`] at which it occurred, and the
//! [`Report`] that collects `(Path, Error)` pairs during validation.
use vstd::prelude::*;

use crate::text::{push_str, Describe};

pub mod rc_list;

use self::rc_list::List;

verus! {

/// A single validation error: an optional machine-readable code and a message.
#[derive(Clone, Debug, PartialEq, Eq, PartialOrd, Ord)]
pub struct Error {
    code: Option<String>,
    message: String,
}

/// The mathematical content of an [`Error`].
pub struct ErrorView {
    pub code: Option<Seq<char>>,
    pub message: Seq<char>,
}

impl View for Error {
    type V = ErrorView;

    closed spec fn view(&self) -> ErrorView {
        ErrorView {
            code: match self.code {
                Some(c) => Some(c@),
                None => None,
            },
            message: self.message@,
        }
    }
}

/// What `Error` prints: `[code] message`, or the message alone without a code.
pub open spec fn error_text(e: ErrorView) -> Seq<char> {
    match e.code {
        Some(c) => seq!['['] + c + seq![']', ' '] + e.message,
        None => e.message,
    }
}

/// `r` is an error without code whose message is `m`.
pub open spec fn fails_with(r: Result<(), Error>, m: Seq<char>) -> bool {
    match r {
        Err(e) => e@.code is None && e@.message == m,
        Ok(_) => false,
    }
}

impl Error {
    /// Creates an error with the given message and no code.
    pub fn new<M: Describe>(message: M) -> (r: Self)
        ensures
            r@.code is None,
            r@.message == message.description(),
    {
        Error { code: None, message: message.describe() }
    }

    /// The error code, if one was set.
    pub fn code(&self) -> (r: Option<&str>)
        ensures
            match self@.code {
                Some(c) => r is Some && r.unwrap()@ == c,
                None => r is None,
            },
    {
        match &self.code {
            Some(c) => Some(c.as_str()),
            None => None,
        }
    }

    /// The error message.
    pub fn message(&self) -> (r: &str)
        ensures
            r@ == self@.message,
    {
        self.message.as_str()
    }

    /// Sets the error code, keeping the message.
    pub fn set_code(&mut self, code: &str)
        ensures
            final(self)@.code == Some(code@),
            final(self)@.message == old(self)@.message,
    {
        self.code = Some(crate::text::owned(code));
    }

    /// This error with its code set to `code`.
    pub fn with_code(self, code: &str) -> (r: Self)
        ensures
            r@.code == Some(code@),
            r@.message == self@.message,
    {
        let mut e = self;
        e.set_code(code);
        e
    }

    /// The text that `Display` shows for this error.
    pub fn to_string(&self) -> (r: String)
        ensures
            r@ == error_text(self@),
    {
        let mut s = String::new();
        match &self.code {
            Some(c) => {
                push_str(&mut s, "[");
                push_str(&mut s, c.as_str());
                push_str(&mut s, "] ");
                proof {
                    reveal_strlit("[");
                    reveal_strlit("] ");
                }
            },
            None => {},
        }
        push_str(&mut s, self.message.as_str());
        s
    }
}

/// How a path component is joined onto the path before it.
#[derive(Debug, Clone, Copy, PartialEq, Eq, Structural, PartialOrd, Ord, Hash)]
pub enum Kind {
    NoKey,
    Key,
    Index,
}

/// A path component without a key, for containers that only ever hold a
/// single value (such as `Option`). It renders as the empty string.
pub struct NoKey(());

impl NoKey {
    /// The one value of this type.
    pub closed spec fn only() -> NoKey {
        NoKey(())
    }

    /// Every `NoKey` is the one value of the type.
    pub proof fn lemma_only(k: NoKey)
        ensures
            k == NoKey::only(),
    {
    }
}

impl Default for NoKey {
    fn default() -> (r: Self)
        ensures
            r.description() == Seq::<char>::empty(),
            r == NoKey::only(),
    {
        NoKey(())
    }
}

impl Describe for NoKey {
    open spec fn description(&self) -> Seq<char> {
        Seq::empty()
    }

    fn describe(&self) -> (r: String) {
        String::new()
    }
}

/// A value that can be used as a component of a [`Path`].
pub trait PathComponentKind: Describe {
    /// The kind that `component_kind` returns.
    spec fn kind_of() -> Kind;

    /// How a component of this type is joined onto a path.
    fn component_kind() -> (k: Kind)
        ensures
            k == Self::kind_of(),
    ;
}

impl PathComponentKind for usize {
    open spec fn kind_of() -> Kind {
        Kind::Index
    }

    fn component_kind() -> (k: Kind) {
        Kind::Index
    }
}

impl<'a> PathComponentKind for &'a str {
    open spec fn kind_of() -> Kind {
        Kind::Key
    }

    fn component_kind() -> (k: Kind) {
        Kind::Key
    }
}

impl<'a> PathComponentKind for std::borrow::Cow<'a, str> {
    open spec fn kind_of() -> Kind {
        Kind::Key
    }

    fn component_kind() -> (k: Kind) {
        Kind::Key
    }
}

impl PathComponentKind for String {
    open spec fn kind_of() -> Kind {
        Kind::Key
    }

    fn component_kind() -> (k: Kind) {
        Kind::Key
    }
}

impl PathComponentKind for NoKey {
    open spec fn kind_of() -> Kind {
        Kind::NoKey
    }

    fn component_kind() -> (k: Kind) {
        Kind::NoKey
    }
}

impl<'a, T: PathComponentKind> PathComponentKind for &'a T {
    open spec fn kind_of() -> Kind {
        T::kind_of()
    }

    fn component_kind() -> (k: Kind) {
        T::component_kind()
    }
}

/// The location of a value inside the validated structure, as a list of
/// components from the root outwards.
#[derive(Debug, PartialEq, Eq, PartialOrd, Ord, Hash)]
pub struct Path {
    components: List<(Kind, String)>,
}

/// The mathematical content of a [`Path`]: its components, root first.
pub type PathView = Seq<(Kind, Seq<char>)>;

impl View for Path {
    type V = PathView;

    closed spec fn view(&self) -> PathView {
        self.components@.map_values(|c: (Kind, String)| (c.0, c.1@))
    }
}

/// What is written between component `i - 1` and a component of kind `k` at `i`.
pub open spec fn separator(k: Kind) -> Seq<char> {
    match k {
        Kind::NoKey => Seq::empty(),
        Kind::Key => seq!['.'],
        Kind::Index => seq!['['],
    }
}

/// The text that the component at `i` contributes to the rendering of `cs`.
pub open spec fn path_segment(cs: PathView, i: int) -> Seq<char> {
    let kind = cs[i].0;
    (if i == 0 && kind == Kind::Index { seq!['['] } else { Seq::empty() }) + cs[i].1 + (if kind
        == Kind::Index {
        seq![']']
    } else {
        Seq::empty()
    }) + (if i + 1 < cs.len() { separator(cs[i + 1].0) } else { Seq::empty() })
}

/// The rendering of the first `n` components of `cs`.
pub open spec fn path_text_upto(cs: PathView, n: nat) -> Seq<char>
    decreases n,
{
    if n == 0 {
        Seq::empty()
    } else {
        path_text_upto(cs, (n - 1) as nat) + path_segment(cs, n - 1)
    }
}

/// What `Path` prints, such as `a.b[0].c`.
pub open spec fn path_text(cs: PathView) -> Seq<char> {
    path_text_upto(cs, cs.len())
}

proof fn lemma_path_text_prefix(cs: PathView, x: (Kind, Seq<char>), n: nat)
    requires
        n < cs.len(),
    ensures
        path_text_upto(cs.push(x), n) == path_text_upto(cs, n),
    decreases n,
{
    if n > 0 {
        lemma_path_text_prefix(cs, x, (n - 1) as nat);
        assert(path_segment(cs.push(x), n - 1) == path_segment(cs, n - 1));
    }
}

/// Joining a component onto a path extends its rendering: a key is written
/// after a dot, an index between square brackets and a keyless component
/// as it is; a first component is written without a dot.
pub proof fn path_text_join(cs: PathView, kind: Kind, text: Seq<char>)
    ensures
        path_text(cs.push((kind, text))) == path_text(cs) + (if cs.len() == 0 {
            if kind == Kind::Index {
                seq!['['] + text + seq![']']
            } else {
                text
            }
        } else {
            match kind {
                Kind::NoKey => text,
                Kind::Key => seq!['.'] + text,
                Kind::Index => seq!['['] + text + seq![']'],
            }
        }),
{
    let x = (kind, text);
    let ext = cs.push(x);
    let n = cs.len();
    if n == 0 {
        assert(path_text_upto(ext, 0) =~= Seq::<char>::empty());
        assert(path_text(ext) =~= path_segment(ext, 0));
        assert(path_text(cs) =~= Seq::<char>::empty());
    } else {
        lemma_path_text_prefix(cs, x, (n - 1) as nat);
        assert(path_segment(ext, n - 1) == path_segment(cs, n - 1) + separator(kind));
        assert(path_text_upto(ext, n) == path_text(cs) + separator(kind));
    }
    assert(path_text(cs.push((kind, text))) =~= path_text(cs) + (if cs.len() == 0 {
        if kind == Kind::Index {
            seq!['['] + text + seq![']']
        } else {
            text
        }
    } else {
        match kind {
            Kind::NoKey => text,
            Kind::Key => seq!['.'] + text,
            Kind::Index => seq!['['] + text + seq![']'],
        }
    }));
}

impl Path {
    /// The path with no component.
    pub fn empty() -> (r: Self)
        ensures
            r@ == Seq::<(Kind, Seq<char>)>::empty(),
    {
        let r = Path { components: List::new() };
        assert(r@ =~= Seq::<(Kind, Seq<char>)>::empty());
        r
    }

    /// Number of components.
    pub fn len(&self) -> (r: usize)
        ensures
            r == self@.len(),
    {
        self.components.len()
    }

    /// Whether the path has no component.
    pub fn is_empty(&self) -> (r: bool)
        ensures
            r == (self@.len() == 0),
    {
        self.components.is_empty()
    }

    /// The path made of the single component `component`.
    pub fn new<C: PathComponentKind>(component: C) -> (r: Self)
        ensures
            r@ == seq![(C::kind_of(), component.description())],
    {
        let text = component.describe();
        let r = Path { components: List::new().append((C::component_kind(), text)) };
        assert(r@ =~= seq![(C::kind_of(), component.description())]);
        r
    }

    /// This path extended by `component`; `self` is unchanged.
    pub fn join<C: PathComponentKind>(&self, component: C) -> (r: Self)
        requires
            self@.len() < usize::MAX,
        ensures
            r@ == self@.push((C::kind_of(), component.description())),
    {
        let text = component.describe();
        let r = Path { components: self.components.append((C::component_kind(), text)) };
        assert(r@ =~= self@.push((C::kind_of(), component.description())));
        r
    }

    /// The components, newest (outermost) first, each as its kind and text.
    pub fn __iter(&self) -> (r: Vec<(Kind, &String)>)
        ensures
            r@.len() == self@.len(),
            forall|i: int|
                0 <= i < r@.len() ==> {
                    &&& (#[trigger] r@[i]).0 == self@[self@.len() - 1 - i].0
                    &&& r@[i].1@ == self@[self@.len() - 1 - i].1
                },
    {
        let mut out: Vec<(Kind, &String)> = Vec::new();
        let mut it = self.components.iter();
        let ghost all = self.components@;
        loop
            invariant
                all == self.components@,
                it@ == all.subrange(0, all.len() - out@.len()),
                out@.len() <= all.len(),
                forall|i: int|
                    0 <= i < out@.len() ==> {
                        &&& (#[trigger] out@[i]).0 == all[all.len() - 1 - i].0
                        &&& out@[i].1 == all[all.len() - 1 - i].1
                    },
            ensures
                out@.len() == all.len(),
                forall|i: int|
                    0 <= i < out@.len() ==> {
                        &&& (#[trigger] out@[i]).0 == all[all.len() - 1 - i].0
                        &&& out@[i].1 == all[all.len() - 1 - i].1
                    },
            decreases it@.len(),
        {
            let ghost before = it@;
            match it.next() {
                None => {
                    break ;
                },
                Some(c) => {
                    out.push((c.0, &c.1));
                    assert(it@ =~= all.subrange(0, all.len() - out@.len()));
                },
            }
        }
        out
    }

    /// The text that `Display` shows for this path, such as `a.b[0].c`.
    pub fn to_string(&self) -> (r: String)
        ensures
            r@ == path_text(self@),
    {
        let comps = self.__iter();
        let n = comps.len();
        let ghost cs = self@;
        let mut s = String::new();
        let mut i: usize = 0;
        while i < n
            invariant
                n == comps@.len(),
                n == cs.len(),
                cs == self@,
                i <= n,
                forall|j: int|
                    0 <= j < n ==> {
                        &&& (#[trigger] comps@[j]).0 == cs[n - 1 - j].0
                        &&& comps@[j].1@ == cs[n - 1 - j].1
                    },
                s@ == path_text_upto(cs, i as nat),
            decreases n - i,
        {
            let (kind, text) = comps[n - 1 - i];
            assert(comps@[n - 1 - i as int].0 == cs[i as int].0);
            if i == 0 && kind == Kind::Index {
                push_str(&mut s, "[");
            }
            push_str(&mut s, text.as_str());
            if kind == Kind::Index {
                push_str(&mut s, "]");
            }
            if i + 1 < n {
                let (next, _) = comps[n - 2 - i];
                assert(comps@[n - 2 - i as int].0 == cs[i + 1].0);
                match next {
                    Kind::NoKey => {},
                    Kind::Key => push_str(&mut s, "."),
                    Kind::Index => push_str(&mut s, "["),
                }
            }
            proof {
                reveal_strlit("[");
                reveal_strlit("]");
                reveal_strlit(".");
                assert(s@ =~= path_text_upto(cs, (i + 1) as nat));
            }
            i = i + 1;
        }
        s
    }
}

impl Clone for Path {
    /// A second handle on the same components, in constant time.
    fn clone(&self) -> (r: Self)
        ensures
            r@ == self@,
    {
        Path { components: self.components.clone() }
    }
}

/// A validation report: a flat list of `(Path, Error)` pairs, in the order in
/// which the errors were found. A path may carry any number of errors.
#[derive(Clone, Debug)]
pub struct Report {
    errors: Vec<(Path, Error)>,
}

/// The mathematical content of a [`Report`].
pub type ReportView = Seq<(PathView, ErrorView)>;

impl View for Report {
    type V = ReportView;

    closed spec fn view(&self) -> ReportView {
        self.errors@.map_values(|e: (Path, Error)| (e.0@, e.1@))
    }
}

/// The line that `Report` prints for one entry.
pub open spec fn report_line(entry: (PathView, ErrorView)) -> Seq<char> {
    if entry.0.len() == 0 {
        error_text(entry.1) + seq!['\n']
    } else {
        path_text(entry.0) + seq![':', ' '] + error_text(entry.1) + seq!['\n']
    }
}

/// The rendering of the first `n` entries of a report.
pub open spec fn report_text_upto(r: ReportView, n: nat) -> Seq<char>
    decreases n,
{
    if n == 0 {
        Seq::empty()
    } else {
        report_text_upto(r, (n - 1) as nat) + report_line(r[n - 1])
    }
}

/// What `Report` prints: one line per entry.
pub open spec fn report_text(r: ReportView) -> Seq<char> {
    report_text_upto(r, r.len())
}

impl Report {
    /// An empty report.
    pub fn new() -> (r: Self)
        ensures
            r@ == Seq::<(PathView, ErrorView)>::empty(),
    {
        let r = Report { errors: Vec::new() };
        assert(r@ =~= Seq::<(PathView, ErrorView)>::empty());
        r
    }

    /// Records `error` at `path`, after every entry already recorded.
    pub fn append(&mut self, path: Path, error: Error)
        ensures
            final(self)@ == old(self)@.push((path@, error@)),
    {
        self.errors.push((path, error));
        assert(self@ =~= old(self)@.push((path@, error@)));
    }

    /// The recorded `(Path, Error)` pairs, in order.
    pub fn iter(&self) -> (r: &[(Path, Error)])
        ensures
            r@.map_values(|e: (Path, Error)| (e.0@, e.1@)) == self@,
    {
        self.errors.as_slice()
    }

    /// Whether the report holds no error.
    pub fn is_empty(&self) -> (r: bool)
        ensures
            r == (self@.len() == 0),
    {
        self.errors.len() == 0
    }

    /// The recorded pairs, in order.
    pub fn into_inner(self) -> (r: Vec<(Path, Error)>)
        ensures
            r@.map_values(|e: (Path, Error)| (e.0@, e.1@)) == self@,
    {
        self.errors
    }

    /// The text that `Display` shows for this report: one line per error,
    /// `path: error`, or the error alone at the empty path.
    pub fn to_string(&self) -> (r: String)
        ensures
            r@ == report_text(self@),
    {
        let mut s = String::new();
        let n = self.errors.len();
        let mut i: usize = 0;
        while i < n
            invariant
                n == self.errors@.len(),
                i <= n,
                s@ == report_text_upto(self@, i as nat),
            decreases n - i,
        {
            let (path, error) = &self.errors[i];
            assert(self@[i as int] == (path@, error@));
            if path.is_empty() {
                let e = error.to_string();
                push_str(&mut s, e.as_str());
                push_str(&mut s, "\n");
            } else {
                let p = path.to_string();
                push_str(&mut s, p.as_str());
                push_str(&mut s, ": ");
                let e = error.to_string();
                push_str(&mut s, e.as_str());
                push_str(&mut s, "\n");
            }
            proof {
                reveal_strlit("\n");
                reveal_strlit(": ");
                assert(s@ =~= report_text_upto(self@, (i + 1) as nat));
            }
            i = i + 1;
        }
        s
    }
}

} // verus!
