//! Rendering values as text: the library's counterpart of `Display`.
use vstd::prelude::*;

verus! {

/// The character of a decimal digit `d < 10`.
pub open spec fn digit_char(d: nat) -> char {
    (48 + d) as char
}

/// Decimal representation of a natural number, most significant digit first,
/// without leading zeros.
pub open spec fn decimal(n: nat) -> Seq<char>
    decreases n,
{
    if n < 10 {
        seq![digit_char(n)]
    } else {
        decimal(n / 10).push(digit_char(n % 10))
    }
}

/// Decimal representation of an integer, with a leading `-` when negative.
pub open spec fn signed_decimal(n: int) -> Seq<char> {
    if n < 0 {
        seq!['-'] + decimal((-n) as nat)
    } else {
        decimal(n as nat)
    }
}

/// Appends one character to a string (`String::push`).
#[verifier::external_body]
pub(crate) fn push_char(s: &mut String, c: char)
    ensures
        final(s)@ == old(s)@.push(c),
{
    s.push(c);
}

/// Appends a string slice to a string.
pub fn push_str(s: &mut String, t: &str)
    ensures
        final(s)@ == old(s)@ + t@,
{
    s.append(t);
}

/// Copies a string slice into a new `String`.
pub fn owned(t: &str) -> (r: String)
    ensures
        r@ == t@,
{
    String::from_str(t)
}

fn digit(d: u128) -> (c: char)
    requires
        d < 10,
    ensures
        c == digit_char(d as nat),
{
    let b: u8 = 48u8 + (d as u8);
    b as char
}

/// Decimal text of an unsigned 128-bit integer.
pub fn u128_decimal(n: u128) -> (r: String)
    ensures
        r@ == decimal(n as nat),
    decreases n,
{
    if n < 10 {
        let mut s = String::new();
        push_char(&mut s, digit(n));
        s
    } else {
        let mut s = u128_decimal(n / 10);
        push_char(&mut s, digit(n % 10));
        s
    }
}

/// Decimal text of a signed 128-bit integer.
pub fn i128_decimal(n: i128) -> (r: String)
    ensures
        r@ == signed_decimal(n as int),
{
    if n < 0 {
        let m: u128 = ((-(n + 1)) as u128) + 1;
        let digits = u128_decimal(m);
        let mut s = String::new();
        push_char(&mut s, '-');
        push_str(&mut s, digits.as_str());
        s
    } else {
        u128_decimal(n as u128)
    }
}


/// The characters of a string slice, in order.
pub fn chars_of(s: &str) -> (r: Vec<char>)
    ensures
        r@ == s@,
{
    let mut out: Vec<char> = Vec::new();
    for c in it: s.chars()
        invariant
            it.seq() == s@,
            out@ == s@.take(it.index() as int),
    {
        out.push(c);
    }
    assert(out@ =~= s@);
    out
}


/// `p` occurs in `s` starting at position `i`.
pub open spec fn occurs_at(s: Seq<char>, p: Seq<char>, i: int) -> bool {
    0 <= i && i + p.len() <= s.len() && s.subrange(i, i + p.len()) == p
}

/// `p` occurs somewhere in `s` (the empty sequence occurs in every sequence).
pub open spec fn seq_contains(s: Seq<char>, p: Seq<char>) -> bool {
    exists|i: int| occurs_at(s, p, i)
}

/// `s` begins with `p`.
pub open spec fn seq_starts_with(s: Seq<char>, p: Seq<char>) -> bool {
    occurs_at(s, p, 0)
}

/// `s` ends with `p`.
pub open spec fn seq_ends_with(s: Seq<char>, p: Seq<char>) -> bool {
    occurs_at(s, p, s.len() - p.len())
}

fn matches_at(s: &Vec<char>, p: &Vec<char>, i: usize) -> (r: bool)
    requires
        i + p@.len() <= s@.len(),
    ensures
        r == occurs_at(s@, p@, i as int),
{
    let mut j: usize = 0;
    while j < p.len()
        invariant
            i + p@.len() <= s@.len(),
            j <= p@.len(),
            forall|k: int| 0 <= k < j ==> s@[i + k] == p@[k],
        decreases p@.len() - j,
    {
        assert(i + j < s@.len());
        assert(s@.len() == s.len());
        if s[i + j] != p[j] {
            assert(s@.subrange(i as int, i + p@.len())[j as int] != p@[j as int]);
            return false;
        }
        j = j + 1;
    }
    assert(s@.subrange(i as int, i + p@.len()) =~= p@);
    true
}

/// Whether `p` occurs in `s`.
pub fn str_contains(s: &str, p: &str) -> (r: bool)
    ensures
        r == seq_contains(s@, p@),
{
    let sc = chars_of(s);
    let pc = chars_of(p);
    if pc.len() > sc.len() {
        assert forall|i: int| !occurs_at(s@, p@, i) by {}
        return false;
    }
    let last = sc.len() - pc.len();
    let mut i: usize = 0;
    loop
        invariant
            sc@ == s@,
            pc@ == p@,
            last == sc@.len() - pc@.len(),
            i <= last,
            forall|k: int| 0 <= k < i ==> !occurs_at(s@, p@, k),
        ensures
            forall|k: int| 0 <= k <= last ==> !occurs_at(s@, p@, k),
        decreases last - i,
    {
        if matches_at(&sc, &pc, i) {
            return true;
        }
        if i == last {
            break;
        }
        i = i + 1;
    }
    assert forall|k: int| !occurs_at(s@, p@, k) by {
        if 0 <= k && k + p@.len() <= s@.len() {
            assert(k <= last);
        }
    }
    false
}

/// Whether `s` begins with `p`.
pub fn str_starts_with(s: &str, p: &str) -> (r: bool)
    ensures
        r == seq_starts_with(s@, p@),
{
    let sc = chars_of(s);
    let pc = chars_of(p);
    if pc.len() > sc.len() {
        return false;
    }
    matches_at(&sc, &pc, 0)
}

/// Whether `s` ends with `p`.
pub fn str_ends_with(s: &str, p: &str) -> (r: bool)
    ensures
        r == seq_ends_with(s@, p@),
{
    let sc = chars_of(s);
    let pc = chars_of(p);
    if pc.len() > sc.len() {
        return false;
    }
    matches_at(&sc, &pc, sc.len() - pc.len())
}

/// A value with a textual rendering (what `Display` prints).
pub trait Describe {
    /// The text that `describe` returns.
    spec fn description(&self) -> Seq<char>;

    /// Renders the value as text.
    fn describe(&self) -> (r: String)
        ensures
            r@ == self.description(),
    ;
}

impl Describe for u8 {
    open spec fn description(&self) -> Seq<char> {
        decimal(*self as nat)
    }

    fn describe(&self) -> (r: String) {
        u128_decimal(*self as u128)
    }
}

impl Describe for u16 {
    open spec fn description(&self) -> Seq<char> {
        decimal(*self as nat)
    }

    fn describe(&self) -> (r: String) {
        u128_decimal(*self as u128)
    }
}

impl Describe for u32 {
    open spec fn description(&self) -> Seq<char> {
        decimal(*self as nat)
    }

    fn describe(&self) -> (r: String) {
        u128_decimal(*self as u128)
    }
}

impl Describe for u64 {
    open spec fn description(&self) -> Seq<char> {
        decimal(*self as nat)
    }

    fn describe(&self) -> (r: String) {
        u128_decimal(*self as u128)
    }
}

impl Describe for usize {
    open spec fn description(&self) -> Seq<char> {
        decimal(*self as nat)
    }

    fn describe(&self) -> (r: String) {
        u128_decimal(*self as u128)
    }
}

impl Describe for u128 {
    open spec fn description(&self) -> Seq<char> {
        decimal(*self as nat)
    }

    fn describe(&self) -> (r: String) {
        u128_decimal(*self as u128)
    }
}

impl Describe for i8 {
    open spec fn description(&self) -> Seq<char> {
        signed_decimal(*self as int)
    }

    fn describe(&self) -> (r: String) {
        i128_decimal(*self as i128)
    }
}

impl Describe for i16 {
    open spec fn description(&self) -> Seq<char> {
        signed_decimal(*self as int)
    }

    fn describe(&self) -> (r: String) {
        i128_decimal(*self as i128)
    }
}

impl Describe for i32 {
    open spec fn description(&self) -> Seq<char> {
        signed_decimal(*self as int)
    }

    fn describe(&self) -> (r: String) {
        i128_decimal(*self as i128)
    }
}

impl Describe for i64 {
    open spec fn description(&self) -> Seq<char> {
        signed_decimal(*self as int)
    }

    fn describe(&self) -> (r: String) {
        i128_decimal(*self as i128)
    }
}

impl Describe for isize {
    open spec fn description(&self) -> Seq<char> {
        signed_decimal(*self as int)
    }

    fn describe(&self) -> (r: String) {
        i128_decimal(*self as i128)
    }
}

impl Describe for i128 {
    open spec fn description(&self) -> Seq<char> {
        signed_decimal(*self as int)
    }

    fn describe(&self) -> (r: String) {
        i128_decimal(*self as i128)
    }
}

impl<'a> Describe for &'a str {
    open spec fn description(&self) -> Seq<char> {
        (*self)@
    }

    fn describe(&self) -> (r: String) {
        owned(*self)
    }
}

impl<'a> Describe for std::borrow::Cow<'a, str> {
    open spec fn description(&self) -> Seq<char> {
        self@
    }

    fn describe(&self) -> (r: String) {
        match self {
            std::borrow::Cow::Borrowed(b) => owned(*b),
            std::borrow::Cow::Owned(o) => owned(o.as_str()),
        }
    }
}

impl Describe for String {
    open spec fn description(&self) -> Seq<char> {
        self@
    }

    fn describe(&self) -> (r: String) {
        owned(self.as_str())
    }
}

impl<'a, T: Describe> Describe for &'a T {
    open spec fn description(&self) -> Seq<char> {
        (**self).description()
    }

    fn describe(&self) -> (r: String) {
        (**self).describe()
    }
}

} // verus!
