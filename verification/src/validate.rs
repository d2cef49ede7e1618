//! Core validation traits and types.
use vstd::prelude::*;

use crate::error::{ErrorView, Kind, Path, PathView, Report, ReportView};
use crate::text::decimal;

verus! {

/// The core trait of this crate.
///
/// Validation runs the fields through every validation rule and aggregates
/// the errors into a [`Report`]. Implement [`Validate::validate_into`]; the
/// other methods are derived from it.
pub trait Validate {
    /// A user-provided context, which custom validators receive.
    type Context;

    /// The `(path, error)` pairs that validating this value reports when it
    /// sits at path `parent`, in order. The default, no error at all, is what
    /// an implementation that never reports anything states.
    open spec fn errors_at(&self, ctx: &Self::Context, parent: PathView) -> ReportView {
        Seq::empty()
    }

    /// How many components the paths reported for this value add, at most,
    /// to its own path; none by default.
    open spec fn depth(&self) -> nat {
        0
    }

    /// Validates `self`, returning an `Err` with all errors if it is invalid.
    fn validate_with(&self, ctx: &Self::Context) -> (r: Result<(), Report>)
        requires
            self.depth() <= usize::MAX,
        ensures
            reports(r, self.errors_at(ctx, Seq::empty())),
    {
        let mut report = Report::new();
        let parent = Path::empty();
        self.validate_into(ctx, &parent, &mut report);
        assert(report@ =~= self.errors_at(ctx, Seq::empty()));
        if report.is_empty() {
            Ok(())
        } else {
            Err(report)
        }
    }

    /// Validates `self` with the default context.
    fn validate(&self) -> (r: Result<(), Report>) where Self::Context: Default
        requires
            self.depth() <= usize::MAX,
        ensures
            exists|ctx: Self::Context|
                call_ensures(Self::Context::default, (), ctx) && reports(
                    r,
                    self.errors_at(&ctx, Seq::empty()),
                ),
    {
        let ctx = Self::Context::default();
        self.validate_with(&ctx)
    }

    /// Validates `self` at path `parent`, appending every error to `report`.
    fn validate_into(&self, ctx: &Self::Context, parent: &Path, report: &mut Report)
        requires
            parent@.len() + self.depth() <= usize::MAX,
        ensures
            final(report)@ == old(report)@ + self.errors_at(ctx, parent@),
    ;
}

/// `r` is what validation returns when it finds the errors `errors`: `Ok`
/// when there is none, else a report of exactly these errors.
pub open spec fn reports(r: Result<(), Report>, errors: ReportView) -> bool {
    match r {
        Ok(()) => errors.len() == 0,
        Err(report) => report@ == errors && errors.len() > 0,
    }
}

/// The path of the item at `index` inside a container at `parent`.
pub open spec fn index_path(parent: PathView, index: int) -> PathView {
    parent.push((Kind::Index, decimal(index as nat)))
}

impl Validate for () {
    type Context = ();

    open spec fn errors_at(&self, ctx: &(), parent: PathView) -> ReportView {
        Seq::empty()
    }

    open spec fn depth(&self) -> nat {
        0
    }

    fn validate_into(&self, ctx: &(), parent: &Path, report: &mut Report) {
        assert(report@ =~= old(report)@ + Seq::empty());
    }
}

impl<T: Validate> Validate for Option<T> {
    type Context = T::Context;

    open spec fn errors_at(&self, ctx: &T::Context, parent: PathView) -> ReportView {
        match self {
            Some(value) => value.errors_at(ctx, parent),
            None => Seq::empty(),
        }
    }

    open spec fn depth(&self) -> nat {
        match self {
            Some(value) => value.depth(),
            None => 0,
        }
    }

    fn validate_into(&self, ctx: &T::Context, parent: &Path, report: &mut Report) {
        match self {
            Some(value) => value.validate_into(ctx, parent, report),
            None => {
                assert(report@ =~= old(report)@ + Seq::empty());
            },
        }
    }
}

impl<T: Validate> Validate for Box<T> {
    type Context = T::Context;

    open spec fn errors_at(&self, ctx: &T::Context, parent: PathView) -> ReportView {
        (**self).errors_at(ctx, parent)
    }

    open spec fn depth(&self) -> nat {
        (**self).depth()
    }

    fn validate_into(&self, ctx: &T::Context, parent: &Path, report: &mut Report) {
        (**self).validate_into(ctx, parent, report)
    }
}

impl<'a, T: Validate> Validate for &'a T {
    type Context = T::Context;

    open spec fn errors_at(&self, ctx: &T::Context, parent: PathView) -> ReportView {
        (**self).errors_at(ctx, parent)
    }

    open spec fn depth(&self) -> nat {
        (**self).depth()
    }

    fn validate_into(&self, ctx: &T::Context, parent: &Path, report: &mut Report) {
        (**self).validate_into(ctx, parent, report)
    }
}

/// The errors of the first `n` items of `items`, each at its index below
/// `parent`, in order.
pub open spec fn items_errors<T: Validate>(
    items: Seq<T>,
    ctx: &T::Context,
    parent: PathView,
    n: nat,
) -> ReportView
    decreases n,
{
    if n == 0 {
        Seq::empty()
    } else {
        items_errors(items, ctx, parent, (n - 1) as nat) + items[n - 1].errors_at(
            ctx,
            index_path(parent, n - 1),
        )
    }
}

/// The largest depth among the first `n` items.
pub open spec fn items_depth<T: Validate>(items: Seq<T>, n: nat) -> nat
    decreases n,
{
    if n == 0 {
        0
    } else {
        let d = items[n - 1].depth();
        let rest = items_depth(items, (n - 1) as nat);
        if d > rest {
            d
        } else {
            rest
        }
    }
}

proof fn lemma_items_depth<T: Validate>(items: Seq<T>, n: nat, i: int)
    requires
        0 <= i < n <= items.len(),
    ensures
        items[i].depth() <= items_depth(items, n),
    decreases n,
{
    if i < n - 1 {
        lemma_items_depth(items, (n - 1) as nat, i);
    }
}

/// Validates every item of `items` at its index below `parent`.
fn validate_items<T: Validate>(items: &[T], ctx: &T::Context, parent: &Path, report: &mut Report)
    requires
        parent@.len() + 1 + items_depth(items@, items@.len()) <= usize::MAX,
    ensures
        final(report)@ == old(report)@ + items_errors(items@, ctx, parent@, items@.len()),
{
    let mut i: usize = 0;
    while i < items.len()
        invariant
            i <= items@.len(),
            parent@.len() + 1 + items_depth(items@, items@.len()) <= usize::MAX,
            report@ == old(report)@ + items_errors(items@, ctx, parent@, i as nat),
        decreases items@.len() - i,
    {
        proof {
            lemma_items_depth(items@, items@.len(), i as int);
        }
        let path = parent.join(i);
        items[i].validate_into(ctx, &path, report);
        assert(report@ =~= old(report)@ + items_errors(items@, ctx, parent@, (i + 1) as nat));
        i = i + 1;
    }
}

impl<T: Validate> Validate for Vec<T> {
    type Context = T::Context;

    open spec fn errors_at(&self, ctx: &T::Context, parent: PathView) -> ReportView {
        items_errors(self@, ctx, parent, self@.len())
    }

    open spec fn depth(&self) -> nat {
        1 + items_depth(self@, self@.len())
    }

    fn validate_into(&self, ctx: &T::Context, parent: &Path, report: &mut Report) {
        validate_items(self.as_slice(), ctx, parent, report)
    }
}


impl<T: Validate> Validate for [T] {
    type Context = T::Context;

    open spec fn errors_at(&self, ctx: &T::Context, parent: PathView) -> ReportView {
        items_errors(self@, ctx, parent, self@.len())
    }

    open spec fn depth(&self) -> nat {
        1 + items_depth(self@, self@.len())
    }

    fn validate_into(&self, ctx: &T::Context, parent: &Path, report: &mut Report) {
        validate_items(self, ctx, parent, report)
    }
}

impl<T: Validate, const N: usize> Validate for [T; N] {
    type Context = T::Context;

    open spec fn errors_at(&self, ctx: &T::Context, parent: PathView) -> ReportView {
        items_errors(self@, ctx, parent, self@.len())
    }

    open spec fn depth(&self) -> nat {
        1 + items_depth(self@, self@.len())
    }

    fn validate_into(&self, ctx: &T::Context, parent: &Path, report: &mut Report) {
        validate_items(self.as_slice(), ctx, parent, report)
    }
}

impl<T: Validate> Validate for std::collections::VecDeque<T> {
    type Context = T::Context;

    open spec fn errors_at(&self, ctx: &T::Context, parent: PathView) -> ReportView {
        items_errors(self@, ctx, parent, self@.len())
    }

    open spec fn depth(&self) -> nat {
        1 + items_depth(self@, self@.len())
    }

    fn validate_into(&self, ctx: &T::Context, parent: &Path, report: &mut Report) {
        broadcast use vstd::std_specs::vecdeque::group_vec_dequeue_axioms;

        let mut i: usize = 0;
        while i < self.len()
            invariant
                i <= self@.len(),
                parent@.len() + 1 + items_depth(self@, self@.len()) <= usize::MAX,
                report@ == old(report)@ + items_errors(self@, ctx, parent@, i as nat),
            decreases self@.len() - i,
        {
            proof {
                lemma_items_depth(self@, self@.len(), i as int);
            }
            let path = parent.join(i);
            self[i].validate_into(ctx, &path, report);
            assert(report@ =~= old(report)@ + items_errors(self@, ctx, parent@, (i + 1) as nat));
            i = i + 1;
        }
    }
}

impl<T: Validate> Validate for std::rc::Rc<T> {
    type Context = T::Context;

    open spec fn errors_at(&self, ctx: &T::Context, parent: PathView) -> ReportView {
        (**self).errors_at(ctx, parent)
    }

    open spec fn depth(&self) -> nat {
        (**self).depth()
    }

    fn validate_into(&self, ctx: &T::Context, parent: &Path, report: &mut Report) {
        (**self).validate_into(ctx, parent, report)
    }
}

impl<T: Validate> Validate for std::sync::Arc<T> {
    type Context = T::Context;

    open spec fn errors_at(&self, ctx: &T::Context, parent: PathView) -> ReportView {
        (**self).errors_at(ctx, parent)
    }

    open spec fn depth(&self) -> nat {
        (**self).depth()
    }

    fn validate_into(&self, ctx: &T::Context, parent: &Path, report: &mut Report) {
        (**self).validate_into(ctx, parent, report)
    }
}

impl<'a, T: Validate> Validate for &'a mut T {
    type Context = T::Context;

    open spec fn errors_at(&self, ctx: &T::Context, parent: PathView) -> ReportView {
        (**self).errors_at(ctx, parent)
    }

    open spec fn depth(&self) -> nat {
        (**self).depth()
    }

    fn validate_into(&self, ctx: &T::Context, parent: &Path, report: &mut Report) {
        (**self).validate_into(ctx, parent, report)
    }
}

/// The errors of a list of items: those of each item at its index below
/// `parent`, in the order of the items.
pub open spec fn errors_of_items<T: Validate>(items: Seq<T>, ctx: &T::Context, parent: PathView) -> ReportView {
    Seq::new(
        items.len(),
        |i: int| items[i].errors_at(ctx, parent.push((Kind::Index, decimal(i as nat)))),
    ).flatten()
}

proof fn lemma_items_errors_flatten<T: Validate>(items: Seq<T>, ctx: &T::Context, parent: PathView, n: nat)
    requires
        n <= items.len(),
    ensures
        items_errors(items, ctx, parent, n) == Seq::new(
            n,
            |i: int| items[i].errors_at(ctx, parent.push((Kind::Index, decimal(i as nat)))),
        ).flatten_alt(),
    decreases n,
{
    let g = |i: int| items[i].errors_at(ctx, parent.push((Kind::Index, decimal(i as nat))));
    if n > 0 {
        lemma_items_errors_flatten(items, ctx, parent, (n - 1) as nat);
        assert(Seq::new(n, g).drop_last() =~= Seq::new((n - 1) as nat, g));
    } else {
        assert(Seq::new(0, g).flatten_alt() =~= Seq::<(PathView, ErrorView)>::empty());
    }
}

proof fn lemma_items_errors_are_errors_of_items<T: Validate>(items: Seq<T>, ctx: &T::Context, parent: PathView)
    ensures
        items_errors(items, ctx, parent, items.len()) == errors_of_items(items, ctx, parent),
{
    lemma_items_errors_flatten(items, ctx, parent, items.len());
    Seq::new(
        items.len(),
        |i: int| items[i].errors_at(ctx, parent.push((Kind::Index, decimal(i as nat)))),
    ).lemma_flatten_and_flatten_alt_are_equivalent();
}

/// Validating a vector reports the errors of each item at its index below
/// the vector's path, item after item.
pub proof fn vec_reports_each_item_at_its_index<T: Validate>(v: Vec<T>, ctx: &T::Context, parent: PathView)
    ensures
        v.errors_at(ctx, parent) == errors_of_items(v@, ctx, parent),
{
    lemma_items_errors_are_errors_of_items(v@, ctx, parent);
}

/// Validating a slice reports the errors of each item at its index below
/// the slice's path, item after item.
pub proof fn slice_reports_each_item_at_its_index<'a, T: Validate>(v: &'a [T], ctx: &T::Context, parent: PathView)
    ensures
        v.errors_at(ctx, parent) == errors_of_items(v@, ctx, parent),
{
    lemma_items_errors_are_errors_of_items(v@, ctx, parent);
}

/// Validating an array reports the errors of each item at its index below
/// the array's path, item after item.
pub proof fn array_reports_each_item_at_its_index<T: Validate, const N: usize>(v: [T; N], ctx: &T::Context, parent: PathView)
    ensures
        v.errors_at(ctx, parent) == errors_of_items(v@, ctx, parent),
{
    lemma_items_errors_are_errors_of_items(v@, ctx, parent);
}

/// Validating a double-ended queue reports the errors of each item at its
/// index below the queue's path, item after item.
pub proof fn vec_deque_reports_each_item_at_its_index<T: Validate>(
    v: std::collections::VecDeque<T>,
    ctx: &T::Context,
    parent: PathView,
)
    ensures
        v.errors_at(ctx, parent) == errors_of_items(v@, ctx, parent),
{
    lemma_items_errors_are_errors_of_items(v@, ctx, parent);
}

/// Validating an `Option` reports the errors of the value when there is
/// one, at the same path, and nothing otherwise.
pub proof fn option_reports_the_errors_of_its_value<T: Validate>(o: Option<T>, ctx: &T::Context, parent: PathView)
    ensures
        o matches Some(x) ==> o.errors_at(ctx, parent) == x.errors_at(ctx, parent),
        o is None ==> o.errors_at(ctx, parent).len() == 0,
{
}

/// Validating a tuple of one element reports the errors of that element at
/// index `[0]` below the tuple's path.
pub proof fn tuple_of_one_reports_each_element_at_its_position<A>(t: (A,), ctx: &A::Context, parent: PathView) where A: Validate
    ensures
        t.errors_at(ctx, parent) == t.0.errors_at(ctx, parent.push((Kind::Index, seq!['0']))),
{
    reveal_with_fuel(decimal, 3);
    assert(decimal(10) =~= seq!['1', '0']);
    assert(decimal(11) =~= seq!['1', '1']);
}

/// Validating a tuple of two elements reports, for each position `i` from
/// the first to the last, the errors of its `i`-th element at index `[i]`
/// below the tuple's path.
pub proof fn tuple_of_two_reports_each_element_at_its_position<A, B>(t: (A, B), ctx: &A::Context, parent: PathView) where A: Validate, B: Validate<Context = A::Context>
    ensures
        t.errors_at(ctx, parent) == t.0.errors_at(ctx, parent.push((Kind::Index, seq!['0']))) + t.1.errors_at(ctx, parent.push((Kind::Index, seq!['1']))),
{
    reveal_with_fuel(decimal, 3);
    assert(decimal(10) =~= seq!['1', '0']);
    assert(decimal(11) =~= seq!['1', '1']);
}

/// Validating a tuple of three elements reports, for each position `i` from
/// the first to the last, the errors of its `i`-th element at index `[i]`
/// below the tuple's path.
pub proof fn tuple_of_three_reports_each_element_at_its_position<A, B, C>(t: (A, B, C), ctx: &A::Context, parent: PathView) where A: Validate, B: Validate<Context = A::Context>, C: Validate<Context = A::Context>
    ensures
        t.errors_at(ctx, parent) == t.0.errors_at(ctx, parent.push((Kind::Index, seq!['0']))) + t.1.errors_at(ctx, parent.push((Kind::Index, seq!['1']))) + t.2.errors_at(ctx, parent.push((Kind::Index, seq!['2']))),
{
    reveal_with_fuel(decimal, 3);
    assert(decimal(10) =~= seq!['1', '0']);
    assert(decimal(11) =~= seq!['1', '1']);
}

/// Validating a tuple of four elements reports, for each position `i` from
/// the first to the last, the errors of its `i`-th element at index `[i]`
/// below the tuple's path.
pub proof fn tuple_of_four_reports_each_element_at_its_position<A, B, C, D>(t: (A, B, C, D), ctx: &A::Context, parent: PathView) where A: Validate, B: Validate<Context = A::Context>, C: Validate<Context = A::Context>, D: Validate<Context = A::Context>
    ensures
        t.errors_at(ctx, parent) == t.0.errors_at(ctx, parent.push((Kind::Index, seq!['0']))) + t.1.errors_at(ctx, parent.push((Kind::Index, seq!['1']))) + t.2.errors_at(ctx, parent.push((Kind::Index, seq!['2']))) + t.3.errors_at(ctx, parent.push((Kind::Index, seq!['3']))),
{
    reveal_with_fuel(decimal, 3);
    assert(decimal(10) =~= seq!['1', '0']);
    assert(decimal(11) =~= seq!['1', '1']);
}

/// Validating a tuple of five elements reports, for each position `i` from
/// the first to the last, the errors of its `i`-th element at index `[i]`
/// below the tuple's path.
pub proof fn tuple_of_five_reports_each_element_at_its_position<A, B, C, D, E>(t: (A, B, C, D, E), ctx: &A::Context, parent: PathView) where A: Validate, B: Validate<Context = A::Context>, C: Validate<Context = A::Context>, D: Validate<Context = A::Context>, E: Validate<Context = A::Context>
    ensures
        t.errors_at(ctx, parent) == t.0.errors_at(ctx, parent.push((Kind::Index, seq!['0']))) + t.1.errors_at(ctx, parent.push((Kind::Index, seq!['1']))) + t.2.errors_at(ctx, parent.push((Kind::Index, seq!['2']))) + t.3.errors_at(ctx, parent.push((Kind::Index, seq!['3']))) + t.4.errors_at(ctx, parent.push((Kind::Index, seq!['4']))),
{
    reveal_with_fuel(decimal, 3);
    assert(decimal(10) =~= seq!['1', '0']);
    assert(decimal(11) =~= seq!['1', '1']);
}

/// Validating a tuple of six elements reports, for each position `i` from
/// the first to the last, the errors of its `i`-th element at index `[i]`
/// below the tuple's path.
pub proof fn tuple_of_six_reports_each_element_at_its_position<A, B, C, D, E, F>(t: (A, B, C, D, E, F), ctx: &A::Context, parent: PathView) where A: Validate, B: Validate<Context = A::Context>, C: Validate<Context = A::Context>, D: Validate<Context = A::Context>, E: Validate<Context = A::Context>, F: Validate<Context = A::Context>
    ensures
        t.errors_at(ctx, parent) == t.0.errors_at(ctx, parent.push((Kind::Index, seq!['0']))) + t.1.errors_at(ctx, parent.push((Kind::Index, seq!['1']))) + t.2.errors_at(ctx, parent.push((Kind::Index, seq!['2']))) + t.3.errors_at(ctx, parent.push((Kind::Index, seq!['3']))) + t.4.errors_at(ctx, parent.push((Kind::Index, seq!['4']))) + t.5.errors_at(ctx, parent.push((Kind::Index, seq!['5']))),
{
    reveal_with_fuel(decimal, 3);
    assert(decimal(10) =~= seq!['1', '0']);
    assert(decimal(11) =~= seq!['1', '1']);
}

/// Validating a tuple of seven elements reports, for each position `i` from
/// the first to the last, the errors of its `i`-th element at index `[i]`
/// below the tuple's path.
pub proof fn tuple_of_seven_reports_each_element_at_its_position<A, B, C, D, E, F, G>(t: (A, B, C, D, E, F, G), ctx: &A::Context, parent: PathView) where A: Validate, B: Validate<Context = A::Context>, C: Validate<Context = A::Context>, D: Validate<Context = A::Context>, E: Validate<Context = A::Context>, F: Validate<Context = A::Context>, G: Validate<Context = A::Context>
    ensures
        t.errors_at(ctx, parent) == t.0.errors_at(ctx, parent.push((Kind::Index, seq!['0']))) + t.1.errors_at(ctx, parent.push((Kind::Index, seq!['1']))) + t.2.errors_at(ctx, parent.push((Kind::Index, seq!['2']))) + t.3.errors_at(ctx, parent.push((Kind::Index, seq!['3']))) + t.4.errors_at(ctx, parent.push((Kind::Index, seq!['4']))) + t.5.errors_at(ctx, parent.push((Kind::Index, seq!['5']))) + t.6.errors_at(ctx, parent.push((Kind::Index, seq!['6']))),
{
    reveal_with_fuel(decimal, 3);
    assert(decimal(10) =~= seq!['1', '0']);
    assert(decimal(11) =~= seq!['1', '1']);
}

/// Validating a tuple of eight elements reports, for each position `i` from
/// the first to the last, the errors of its `i`-th element at index `[i]`
/// below the tuple's path.
pub proof fn tuple_of_eight_reports_each_element_at_its_position<A, B, C, D, E, F, G, H>(t: (A, B, C, D, E, F, G, H), ctx: &A::Context, parent: PathView) where A: Validate, B: Validate<Context = A::Context>, C: Validate<Context = A::Context>, D: Validate<Context = A::Context>, E: Validate<Context = A::Context>, F: Validate<Context = A::Context>, G: Validate<Context = A::Context>, H: Validate<Context = A::Context>
    ensures
        t.errors_at(ctx, parent) == t.0.errors_at(ctx, parent.push((Kind::Index, seq!['0']))) + t.1.errors_at(ctx, parent.push((Kind::Index, seq!['1']))) + t.2.errors_at(ctx, parent.push((Kind::Index, seq!['2']))) + t.3.errors_at(ctx, parent.push((Kind::Index, seq!['3']))) + t.4.errors_at(ctx, parent.push((Kind::Index, seq!['4']))) + t.5.errors_at(ctx, parent.push((Kind::Index, seq!['5']))) + t.6.errors_at(ctx, parent.push((Kind::Index, seq!['6']))) + t.7.errors_at(ctx, parent.push((Kind::Index, seq!['7']))),
{
    reveal_with_fuel(decimal, 3);
    assert(decimal(10) =~= seq!['1', '0']);
    assert(decimal(11) =~= seq!['1', '1']);
}

/// Validating a tuple of nine elements reports, for each position `i` from
/// the first to the last, the errors of its `i`-th element at index `[i]`
/// below the tuple's path.
pub proof fn tuple_of_nine_reports_each_element_at_its_position<A, B, C, D, E, F, G, H, I>(t: (A, B, C, D, E, F, G, H, I), ctx: &A::Context, parent: PathView) where A: Validate, B: Validate<Context = A::Context>, C: Validate<Context = A::Context>, D: Validate<Context = A::Context>, E: Validate<Context = A::Context>, F: Validate<Context = A::Context>, G: Validate<Context = A::Context>, H: Validate<Context = A::Context>, I: Validate<Context = A::Context>
    ensures
        t.errors_at(ctx, parent) == t.0.errors_at(ctx, parent.push((Kind::Index, seq!['0']))) + t.1.errors_at(ctx, parent.push((Kind::Index, seq!['1']))) + t.2.errors_at(ctx, parent.push((Kind::Index, seq!['2']))) + t.3.errors_at(ctx, parent.push((Kind::Index, seq!['3']))) + t.4.errors_at(ctx, parent.push((Kind::Index, seq!['4']))) + t.5.errors_at(ctx, parent.push((Kind::Index, seq!['5']))) + t.6.errors_at(ctx, parent.push((Kind::Index, seq!['6']))) + t.7.errors_at(ctx, parent.push((Kind::Index, seq!['7']))) + t.8.errors_at(ctx, parent.push((Kind::Index, seq!['8']))),
{
    reveal_with_fuel(decimal, 3);
    assert(decimal(10) =~= seq!['1', '0']);
    assert(decimal(11) =~= seq!['1', '1']);
}

/// Validating a tuple of ten elements reports, for each position `i` from
/// the first to the last, the errors of its `i`-th element at index `[i]`
/// below the tuple's path.
pub proof fn tuple_of_ten_reports_each_element_at_its_position<A, B, C, D, E, F, G, H, I, J>(t: (A, B, C, D, E, F, G, H, I, J), ctx: &A::Context, parent: PathView) where A: Validate, B: Validate<Context = A::Context>, C: Validate<Context = A::Context>, D: Validate<Context = A::Context>, E: Validate<Context = A::Context>, F: Validate<Context = A::Context>, G: Validate<Context = A::Context>, H: Validate<Context = A::Context>, I: Validate<Context = A::Context>, J: Validate<Context = A::Context>
    ensures
        t.errors_at(ctx, parent) == t.0.errors_at(ctx, parent.push((Kind::Index, seq!['0']))) + t.1.errors_at(ctx, parent.push((Kind::Index, seq!['1']))) + t.2.errors_at(ctx, parent.push((Kind::Index, seq!['2']))) + t.3.errors_at(ctx, parent.push((Kind::Index, seq!['3']))) + t.4.errors_at(ctx, parent.push((Kind::Index, seq!['4']))) + t.5.errors_at(ctx, parent.push((Kind::Index, seq!['5']))) + t.6.errors_at(ctx, parent.push((Kind::Index, seq!['6']))) + t.7.errors_at(ctx, parent.push((Kind::Index, seq!['7']))) + t.8.errors_at(ctx, parent.push((Kind::Index, seq!['8']))) + t.9.errors_at(ctx, parent.push((Kind::Index, seq!['9']))),
{
    reveal_with_fuel(decimal, 3);
    assert(decimal(10) =~= seq!['1', '0']);
    assert(decimal(11) =~= seq!['1', '1']);
}

/// Validating a tuple of eleven elements reports, for each position `i` from
/// the first to the last, the errors of its `i`-th element at index `[i]`
/// below the tuple's path.
pub proof fn tuple_of_eleven_reports_each_element_at_its_position<A, B, C, D, E, F, G, H, I, J, K>(t: (A, B, C, D, E, F, G, H, I, J, K), ctx: &A::Context, parent: PathView) where A: Validate, B: Validate<Context = A::Context>, C: Validate<Context = A::Context>, D: Validate<Context = A::Context>, E: Validate<Context = A::Context>, F: Validate<Context = A::Context>, G: Validate<Context = A::Context>, H: Validate<Context = A::Context>, I: Validate<Context = A::Context>, J: Validate<Context = A::Context>, K: Validate<Context = A::Context>
    ensures
        t.errors_at(ctx, parent) == t.0.errors_at(ctx, parent.push((Kind::Index, seq!['0']))) + t.1.errors_at(ctx, parent.push((Kind::Index, seq!['1']))) + t.2.errors_at(ctx, parent.push((Kind::Index, seq!['2']))) + t.3.errors_at(ctx, parent.push((Kind::Index, seq!['3']))) + t.4.errors_at(ctx, parent.push((Kind::Index, seq!['4']))) + t.5.errors_at(ctx, parent.push((Kind::Index, seq!['5']))) + t.6.errors_at(ctx, parent.push((Kind::Index, seq!['6']))) + t.7.errors_at(ctx, parent.push((Kind::Index, seq!['7']))) + t.8.errors_at(ctx, parent.push((Kind::Index, seq!['8']))) + t.9.errors_at(ctx, parent.push((Kind::Index, seq!['9']))) + t.10.errors_at(ctx, parent.push((Kind::Index, seq!['1', '0']))),
{
    reveal_with_fuel(decimal, 3);
    assert(decimal(10) =~= seq!['1', '0']);
    assert(decimal(11) =~= seq!['1', '1']);
}

/// Validating a tuple of twelve elements reports, for each position `i` from
/// the first to the last, the errors of its `i`-th element at index `[i]`
/// below the tuple's path.
pub proof fn tuple_of_twelve_reports_each_element_at_its_position<A, B, C, D, E, F, G, H, I, J, K, L>(t: (A, B, C, D, E, F, G, H, I, J, K, L), ctx: &A::Context, parent: PathView) where A: Validate, B: Validate<Context = A::Context>, C: Validate<Context = A::Context>, D: Validate<Context = A::Context>, E: Validate<Context = A::Context>, F: Validate<Context = A::Context>, G: Validate<Context = A::Context>, H: Validate<Context = A::Context>, I: Validate<Context = A::Context>, J: Validate<Context = A::Context>, K: Validate<Context = A::Context>, L: Validate<Context = A::Context>
    ensures
        t.errors_at(ctx, parent) == t.0.errors_at(ctx, parent.push((Kind::Index, seq!['0']))) + t.1.errors_at(ctx, parent.push((Kind::Index, seq!['1']))) + t.2.errors_at(ctx, parent.push((Kind::Index, seq!['2']))) + t.3.errors_at(ctx, parent.push((Kind::Index, seq!['3']))) + t.4.errors_at(ctx, parent.push((Kind::Index, seq!['4']))) + t.5.errors_at(ctx, parent.push((Kind::Index, seq!['5']))) + t.6.errors_at(ctx, parent.push((Kind::Index, seq!['6']))) + t.7.errors_at(ctx, parent.push((Kind::Index, seq!['7']))) + t.8.errors_at(ctx, parent.push((Kind::Index, seq!['8']))) + t.9.errors_at(ctx, parent.push((Kind::Index, seq!['9']))) + t.10.errors_at(ctx, parent.push((Kind::Index, seq!['1', '0']))) + t.11.errors_at(ctx, parent.push((Kind::Index, seq!['1', '1']))),
{
    reveal_with_fuel(decimal, 3);
    assert(decimal(10) =~= seq!['1', '0']);
    assert(decimal(11) =~= seq!['1', '1']);
}

/// The larger of two natural numbers.
pub open spec fn max_nat(a: nat, b: nat) -> nat {
    if a > b {
        a
    } else {
        b
    }
}

impl<A> Validate for (A,) where A: Validate {
    type Context = A::Context;

    open spec fn errors_at(&self, ctx: &A::Context, parent: PathView) -> ReportView {
        self.0.errors_at(ctx, index_path(parent, 0))
    }

    open spec fn depth(&self) -> nat {
        1 + self.0.depth()
    }

    fn validate_into(&self, ctx: &A::Context, parent: &Path, report: &mut Report) {
        let path = parent.join(0usize);
        self.0.validate_into(ctx, &path, report);
        assert(report@ =~= old(report)@ + self.errors_at(ctx, parent@));
    }
}

impl<A, B> Validate for (A, B) where A: Validate, B: Validate<Context = A::Context> {
    type Context = A::Context;

    open spec fn errors_at(&self, ctx: &A::Context, parent: PathView) -> ReportView {
        self.0.errors_at(ctx, index_path(parent, 0)) + self.1.errors_at(ctx, index_path(parent, 1))
    }

    open spec fn depth(&self) -> nat {
        1 + max_nat(self.0.depth(), self.1.depth())
    }

    fn validate_into(&self, ctx: &A::Context, parent: &Path, report: &mut Report) {
        let path = parent.join(0usize);
        self.0.validate_into(ctx, &path, report);
        let path = parent.join(1usize);
        self.1.validate_into(ctx, &path, report);
        assert(report@ =~= old(report)@ + self.errors_at(ctx, parent@));
    }
}

impl<A, B, C> Validate for (A, B, C) where A: Validate, B: Validate<Context = A::Context>, C: Validate<Context = A::Context> {
    type Context = A::Context;

    open spec fn errors_at(&self, ctx: &A::Context, parent: PathView) -> ReportView {
        self.0.errors_at(ctx, index_path(parent, 0)) + self.1.errors_at(ctx, index_path(parent, 1)) + self.2.errors_at(ctx, index_path(parent, 2))
    }

    open spec fn depth(&self) -> nat {
        1 + max_nat(self.0.depth(), max_nat(self.1.depth(), self.2.depth()))
    }

    fn validate_into(&self, ctx: &A::Context, parent: &Path, report: &mut Report) {
        let path = parent.join(0usize);
        self.0.validate_into(ctx, &path, report);
        let path = parent.join(1usize);
        self.1.validate_into(ctx, &path, report);
        let path = parent.join(2usize);
        self.2.validate_into(ctx, &path, report);
        assert(report@ =~= old(report)@ + self.errors_at(ctx, parent@));
    }
}

impl<A, B, C, D> Validate for (A, B, C, D) where A: Validate, B: Validate<Context = A::Context>, C: Validate<Context = A::Context>, D: Validate<Context = A::Context> {
    type Context = A::Context;

    open spec fn errors_at(&self, ctx: &A::Context, parent: PathView) -> ReportView {
        self.0.errors_at(ctx, index_path(parent, 0)) + self.1.errors_at(ctx, index_path(parent, 1)) + self.2.errors_at(ctx, index_path(parent, 2)) + self.3.errors_at(ctx, index_path(parent, 3))
    }

    open spec fn depth(&self) -> nat {
        1 + max_nat(self.0.depth(), max_nat(self.1.depth(), max_nat(self.2.depth(), self.3.depth())))
    }

    fn validate_into(&self, ctx: &A::Context, parent: &Path, report: &mut Report) {
        let path = parent.join(0usize);
        self.0.validate_into(ctx, &path, report);
        let path = parent.join(1usize);
        self.1.validate_into(ctx, &path, report);
        let path = parent.join(2usize);
        self.2.validate_into(ctx, &path, report);
        let path = parent.join(3usize);
        self.3.validate_into(ctx, &path, report);
        assert(report@ =~= old(report)@ + self.errors_at(ctx, parent@));
    }
}

impl<A, B, C, D, E> Validate for (A, B, C, D, E) where A: Validate, B: Validate<Context = A::Context>, C: Validate<Context = A::Context>, D: Validate<Context = A::Context>, E: Validate<Context = A::Context> {
    type Context = A::Context;

    open spec fn errors_at(&self, ctx: &A::Context, parent: PathView) -> ReportView {
        self.0.errors_at(ctx, index_path(parent, 0)) + self.1.errors_at(ctx, index_path(parent, 1)) + self.2.errors_at(ctx, index_path(parent, 2)) + self.3.errors_at(ctx, index_path(parent, 3)) + self.4.errors_at(ctx, index_path(parent, 4))
    }

    open spec fn depth(&self) -> nat {
        1 + max_nat(self.0.depth(), max_nat(self.1.depth(), max_nat(self.2.depth(), max_nat(self.3.depth(), self.4.depth()))))
    }

    fn validate_into(&self, ctx: &A::Context, parent: &Path, report: &mut Report) {
        let path = parent.join(0usize);
        self.0.validate_into(ctx, &path, report);
        let path = parent.join(1usize);
        self.1.validate_into(ctx, &path, report);
        let path = parent.join(2usize);
        self.2.validate_into(ctx, &path, report);
        let path = parent.join(3usize);
        self.3.validate_into(ctx, &path, report);
        let path = parent.join(4usize);
        self.4.validate_into(ctx, &path, report);
        assert(report@ =~= old(report)@ + self.errors_at(ctx, parent@));
    }
}

impl<A, B, C, D, E, F> Validate for (A, B, C, D, E, F) where A: Validate, B: Validate<Context = A::Context>, C: Validate<Context = A::Context>, D: Validate<Context = A::Context>, E: Validate<Context = A::Context>, F: Validate<Context = A::Context> {
    type Context = A::Context;

    open spec fn errors_at(&self, ctx: &A::Context, parent: PathView) -> ReportView {
        self.0.errors_at(ctx, index_path(parent, 0)) + self.1.errors_at(ctx, index_path(parent, 1)) + self.2.errors_at(ctx, index_path(parent, 2)) + self.3.errors_at(ctx, index_path(parent, 3)) + self.4.errors_at(ctx, index_path(parent, 4)) + self.5.errors_at(ctx, index_path(parent, 5))
    }

    open spec fn depth(&self) -> nat {
        1 + max_nat(self.0.depth(), max_nat(self.1.depth(), max_nat(self.2.depth(), max_nat(self.3.depth(), max_nat(self.4.depth(), self.5.depth())))))
    }

    fn validate_into(&self, ctx: &A::Context, parent: &Path, report: &mut Report) {
        let path = parent.join(0usize);
        self.0.validate_into(ctx, &path, report);
        let path = parent.join(1usize);
        self.1.validate_into(ctx, &path, report);
        let path = parent.join(2usize);
        self.2.validate_into(ctx, &path, report);
        let path = parent.join(3usize);
        self.3.validate_into(ctx, &path, report);
        let path = parent.join(4usize);
        self.4.validate_into(ctx, &path, report);
        let path = parent.join(5usize);
        self.5.validate_into(ctx, &path, report);
        assert(report@ =~= old(report)@ + self.errors_at(ctx, parent@));
    }
}

impl<A, B, C, D, E, F, G> Validate for (A, B, C, D, E, F, G) where A: Validate, B: Validate<Context = A::Context>, C: Validate<Context = A::Context>, D: Validate<Context = A::Context>, E: Validate<Context = A::Context>, F: Validate<Context = A::Context>, G: Validate<Context = A::Context> {
    type Context = A::Context;

    open spec fn errors_at(&self, ctx: &A::Context, parent: PathView) -> ReportView {
        self.0.errors_at(ctx, index_path(parent, 0)) + self.1.errors_at(ctx, index_path(parent, 1)) + self.2.errors_at(ctx, index_path(parent, 2)) + self.3.errors_at(ctx, index_path(parent, 3)) + self.4.errors_at(ctx, index_path(parent, 4)) + self.5.errors_at(ctx, index_path(parent, 5)) + self.6.errors_at(ctx, index_path(parent, 6))
    }

    open spec fn depth(&self) -> nat {
        1 + max_nat(self.0.depth(), max_nat(self.1.depth(), max_nat(self.2.depth(), max_nat(self.3.depth(), max_nat(self.4.depth(), max_nat(self.5.depth(), self.6.depth()))))))
    }

    fn validate_into(&self, ctx: &A::Context, parent: &Path, report: &mut Report) {
        let path = parent.join(0usize);
        self.0.validate_into(ctx, &path, report);
        let path = parent.join(1usize);
        self.1.validate_into(ctx, &path, report);
        let path = parent.join(2usize);
        self.2.validate_into(ctx, &path, report);
        let path = parent.join(3usize);
        self.3.validate_into(ctx, &path, report);
        let path = parent.join(4usize);
        self.4.validate_into(ctx, &path, report);
        let path = parent.join(5usize);
        self.5.validate_into(ctx, &path, report);
        let path = parent.join(6usize);
        self.6.validate_into(ctx, &path, report);
        assert(report@ =~= old(report)@ + self.errors_at(ctx, parent@));
    }
}

impl<A, B, C, D, E, F, G, H> Validate for (A, B, C, D, E, F, G, H) where A: Validate, B: Validate<Context = A::Context>, C: Validate<Context = A::Context>, D: Validate<Context = A::Context>, E: Validate<Context = A::Context>, F: Validate<Context = A::Context>, G: Validate<Context = A::Context>, H: Validate<Context = A::Context> {
    type Context = A::Context;

    open spec fn errors_at(&self, ctx: &A::Context, parent: PathView) -> ReportView {
        self.0.errors_at(ctx, index_path(parent, 0)) + self.1.errors_at(ctx, index_path(parent, 1)) + self.2.errors_at(ctx, index_path(parent, 2)) + self.3.errors_at(ctx, index_path(parent, 3)) + self.4.errors_at(ctx, index_path(parent, 4)) + self.5.errors_at(ctx, index_path(parent, 5)) + self.6.errors_at(ctx, index_path(parent, 6)) + self.7.errors_at(ctx, index_path(parent, 7))
    }

    open spec fn depth(&self) -> nat {
        1 + max_nat(self.0.depth(), max_nat(self.1.depth(), max_nat(self.2.depth(), max_nat(self.3.depth(), max_nat(self.4.depth(), max_nat(self.5.depth(), max_nat(self.6.depth(), self.7.depth())))))))
    }

    fn validate_into(&self, ctx: &A::Context, parent: &Path, report: &mut Report) {
        let path = parent.join(0usize);
        self.0.validate_into(ctx, &path, report);
        let path = parent.join(1usize);
        self.1.validate_into(ctx, &path, report);
        let path = parent.join(2usize);
        self.2.validate_into(ctx, &path, report);
        let path = parent.join(3usize);
        self.3.validate_into(ctx, &path, report);
        let path = parent.join(4usize);
        self.4.validate_into(ctx, &path, report);
        let path = parent.join(5usize);
        self.5.validate_into(ctx, &path, report);
        let path = parent.join(6usize);
        self.6.validate_into(ctx, &path, report);
        let path = parent.join(7usize);
        self.7.validate_into(ctx, &path, report);
        assert(report@ =~= old(report)@ + self.errors_at(ctx, parent@));
    }
}

impl<A, B, C, D, E, F, G, H, I> Validate for (A, B, C, D, E, F, G, H, I) where A: Validate, B: Validate<Context = A::Context>, C: Validate<Context = A::Context>, D: Validate<Context = A::Context>, E: Validate<Context = A::Context>, F: Validate<Context = A::Context>, G: Validate<Context = A::Context>, H: Validate<Context = A::Context>, I: Validate<Context = A::Context> {
    type Context = A::Context;

    open spec fn errors_at(&self, ctx: &A::Context, parent: PathView) -> ReportView {
        self.0.errors_at(ctx, index_path(parent, 0)) + self.1.errors_at(ctx, index_path(parent, 1)) + self.2.errors_at(ctx, index_path(parent, 2)) + self.3.errors_at(ctx, index_path(parent, 3)) + self.4.errors_at(ctx, index_path(parent, 4)) + self.5.errors_at(ctx, index_path(parent, 5)) + self.6.errors_at(ctx, index_path(parent, 6)) + self.7.errors_at(ctx, index_path(parent, 7)) + self.8.errors_at(ctx, index_path(parent, 8))
    }

    open spec fn depth(&self) -> nat {
        1 + max_nat(self.0.depth(), max_nat(self.1.depth(), max_nat(self.2.depth(), max_nat(self.3.depth(), max_nat(self.4.depth(), max_nat(self.5.depth(), max_nat(self.6.depth(), max_nat(self.7.depth(), self.8.depth()))))))))
    }

    fn validate_into(&self, ctx: &A::Context, parent: &Path, report: &mut Report) {
        let path = parent.join(0usize);
        self.0.validate_into(ctx, &path, report);
        let path = parent.join(1usize);
        self.1.validate_into(ctx, &path, report);
        let path = parent.join(2usize);
        self.2.validate_into(ctx, &path, report);
        let path = parent.join(3usize);
        self.3.validate_into(ctx, &path, report);
        let path = parent.join(4usize);
        self.4.validate_into(ctx, &path, report);
        let path = parent.join(5usize);
        self.5.validate_into(ctx, &path, report);
        let path = parent.join(6usize);
        self.6.validate_into(ctx, &path, report);
        let path = parent.join(7usize);
        self.7.validate_into(ctx, &path, report);
        let path = parent.join(8usize);
        self.8.validate_into(ctx, &path, report);
        assert(report@ =~= old(report)@ + self.errors_at(ctx, parent@));
    }
}

impl<A, B, C, D, E, F, G, H, I, J> Validate for (A, B, C, D, E, F, G, H, I, J) where A: Validate, B: Validate<Context = A::Context>, C: Validate<Context = A::Context>, D: Validate<Context = A::Context>, E: Validate<Context = A::Context>, F: Validate<Context = A::Context>, G: Validate<Context = A::Context>, H: Validate<Context = A::Context>, I: Validate<Context = A::Context>, J: Validate<Context = A::Context> {
    type Context = A::Context;

    open spec fn errors_at(&self, ctx: &A::Context, parent: PathView) -> ReportView {
        self.0.errors_at(ctx, index_path(parent, 0)) + self.1.errors_at(ctx, index_path(parent, 1)) + self.2.errors_at(ctx, index_path(parent, 2)) + self.3.errors_at(ctx, index_path(parent, 3)) + self.4.errors_at(ctx, index_path(parent, 4)) + self.5.errors_at(ctx, index_path(parent, 5)) + self.6.errors_at(ctx, index_path(parent, 6)) + self.7.errors_at(ctx, index_path(parent, 7)) + self.8.errors_at(ctx, index_path(parent, 8)) + self.9.errors_at(ctx, index_path(parent, 9))
    }

    open spec fn depth(&self) -> nat {
        1 + max_nat(self.0.depth(), max_nat(self.1.depth(), max_nat(self.2.depth(), max_nat(self.3.depth(), max_nat(self.4.depth(), max_nat(self.5.depth(), max_nat(self.6.depth(), max_nat(self.7.depth(), max_nat(self.8.depth(), self.9.depth())))))))))
    }

    fn validate_into(&self, ctx: &A::Context, parent: &Path, report: &mut Report) {
        let path = parent.join(0usize);
        self.0.validate_into(ctx, &path, report);
        let path = parent.join(1usize);
        self.1.validate_into(ctx, &path, report);
        let path = parent.join(2usize);
        self.2.validate_into(ctx, &path, report);
        let path = parent.join(3usize);
        self.3.validate_into(ctx, &path, report);
        let path = parent.join(4usize);
        self.4.validate_into(ctx, &path, report);
        let path = parent.join(5usize);
        self.5.validate_into(ctx, &path, report);
        let path = parent.join(6usize);
        self.6.validate_into(ctx, &path, report);
        let path = parent.join(7usize);
        self.7.validate_into(ctx, &path, report);
        let path = parent.join(8usize);
        self.8.validate_into(ctx, &path, report);
        let path = parent.join(9usize);
        self.9.validate_into(ctx, &path, report);
        assert(report@ =~= old(report)@ + self.errors_at(ctx, parent@));
    }
}

impl<A, B, C, D, E, F, G, H, I, J, K> Validate for (A, B, C, D, E, F, G, H, I, J, K) where A: Validate, B: Validate<Context = A::Context>, C: Validate<Context = A::Context>, D: Validate<Context = A::Context>, E: Validate<Context = A::Context>, F: Validate<Context = A::Context>, G: Validate<Context = A::Context>, H: Validate<Context = A::Context>, I: Validate<Context = A::Context>, J: Validate<Context = A::Context>, K: Validate<Context = A::Context> {
    type Context = A::Context;

    open spec fn errors_at(&self, ctx: &A::Context, parent: PathView) -> ReportView {
        self.0.errors_at(ctx, index_path(parent, 0)) + self.1.errors_at(ctx, index_path(parent, 1)) + self.2.errors_at(ctx, index_path(parent, 2)) + self.3.errors_at(ctx, index_path(parent, 3)) + self.4.errors_at(ctx, index_path(parent, 4)) + self.5.errors_at(ctx, index_path(parent, 5)) + self.6.errors_at(ctx, index_path(parent, 6)) + self.7.errors_at(ctx, index_path(parent, 7)) + self.8.errors_at(ctx, index_path(parent, 8)) + self.9.errors_at(ctx, index_path(parent, 9)) + self.10.errors_at(ctx, index_path(parent, 10))
    }

    open spec fn depth(&self) -> nat {
        1 + max_nat(self.0.depth(), max_nat(self.1.depth(), max_nat(self.2.depth(), max_nat(self.3.depth(), max_nat(self.4.depth(), max_nat(self.5.depth(), max_nat(self.6.depth(), max_nat(self.7.depth(), max_nat(self.8.depth(), max_nat(self.9.depth(), self.10.depth()))))))))))
    }

    fn validate_into(&self, ctx: &A::Context, parent: &Path, report: &mut Report) {
        let path = parent.join(0usize);
        self.0.validate_into(ctx, &path, report);
        let path = parent.join(1usize);
        self.1.validate_into(ctx, &path, report);
        let path = parent.join(2usize);
        self.2.validate_into(ctx, &path, report);
        let path = parent.join(3usize);
        self.3.validate_into(ctx, &path, report);
        let path = parent.join(4usize);
        self.4.validate_into(ctx, &path, report);
        let path = parent.join(5usize);
        self.5.validate_into(ctx, &path, report);
        let path = parent.join(6usize);
        self.6.validate_into(ctx, &path, report);
        let path = parent.join(7usize);
        self.7.validate_into(ctx, &path, report);
        let path = parent.join(8usize);
        self.8.validate_into(ctx, &path, report);
        let path = parent.join(9usize);
        self.9.validate_into(ctx, &path, report);
        let path = parent.join(10usize);
        self.10.validate_into(ctx, &path, report);
        assert(report@ =~= old(report)@ + self.errors_at(ctx, parent@));
    }
}

impl<A, B, C, D, E, F, G, H, I, J, K, L> Validate for (A, B, C, D, E, F, G, H, I, J, K, L) where A: Validate, B: Validate<Context = A::Context>, C: Validate<Context = A::Context>, D: Validate<Context = A::Context>, E: Validate<Context = A::Context>, F: Validate<Context = A::Context>, G: Validate<Context = A::Context>, H: Validate<Context = A::Context>, I: Validate<Context = A::Context>, J: Validate<Context = A::Context>, K: Validate<Context = A::Context>, L: Validate<Context = A::Context> {
    type Context = A::Context;

    open spec fn errors_at(&self, ctx: &A::Context, parent: PathView) -> ReportView {
        self.0.errors_at(ctx, index_path(parent, 0)) + self.1.errors_at(ctx, index_path(parent, 1)) + self.2.errors_at(ctx, index_path(parent, 2)) + self.3.errors_at(ctx, index_path(parent, 3)) + self.4.errors_at(ctx, index_path(parent, 4)) + self.5.errors_at(ctx, index_path(parent, 5)) + self.6.errors_at(ctx, index_path(parent, 6)) + self.7.errors_at(ctx, index_path(parent, 7)) + self.8.errors_at(ctx, index_path(parent, 8)) + self.9.errors_at(ctx, index_path(parent, 9)) + self.10.errors_at(ctx, index_path(parent, 10)) + self.11.errors_at(ctx, index_path(parent, 11))
    }

    open spec fn depth(&self) -> nat {
        1 + max_nat(self.0.depth(), max_nat(self.1.depth(), max_nat(self.2.depth(), max_nat(self.3.depth(), max_nat(self.4.depth(), max_nat(self.5.depth(), max_nat(self.6.depth(), max_nat(self.7.depth(), max_nat(self.8.depth(), max_nat(self.9.depth(), max_nat(self.10.depth(), self.11.depth())))))))))))
    }

    fn validate_into(&self, ctx: &A::Context, parent: &Path, report: &mut Report) {
        let path = parent.join(0usize);
        self.0.validate_into(ctx, &path, report);
        let path = parent.join(1usize);
        self.1.validate_into(ctx, &path, report);
        let path = parent.join(2usize);
        self.2.validate_into(ctx, &path, report);
        let path = parent.join(3usize);
        self.3.validate_into(ctx, &path, report);
        let path = parent.join(4usize);
        self.4.validate_into(ctx, &path, report);
        let path = parent.join(5usize);
        self.5.validate_into(ctx, &path, report);
        let path = parent.join(6usize);
        self.6.validate_into(ctx, &path, report);
        let path = parent.join(7usize);
        self.7.validate_into(ctx, &path, report);
        let path = parent.join(8usize);
        self.8.validate_into(ctx, &path, report);
        let path = parent.join(9usize);
        self.9.validate_into(ctx, &path, report);
        let path = parent.join(10usize);
        self.10.validate_into(ctx, &path, report);
        let path = parent.join(11usize);
        self.11.validate_into(ctx, &path, report);
        assert(report@ =~= old(report)@ + self.errors_at(ctx, parent@));
    }
}

/// A value of `T` that passed validation.
///
/// [`Unvalidated::validate`] and [`Unvalidated::validate_with`] create one
/// only after running the validation and finding no error. The third way,
/// [`AsyncUnvalidated::conclude`](crate::AsyncUnvalidated::conclude), is for
/// asynchronous validation, which runs outside this library: it takes the
/// outcome as an argument and marks the value valid whenever that outcome
/// is `Ok(())`, so a `Valid<T>` made there is only as good as the outcome
/// its caller passed in.
#[derive(Debug, Clone, Copy)]
pub struct Valid<T>(T);

impl<T> Valid<T> {
    /// The wrapped value.
    pub closed spec fn value(self) -> T {
        self.0
    }

    /// Marks `value` as validated.
    pub(crate) fn validated(value: T) -> (r: Self)
        ensures
            r.value() == value,
    {
        Valid(value)
    }
}

impl<T: Validate> Valid<T> {
    /// Returns the inner value.
    pub fn into_inner(self) -> (r: T)
        ensures
            r == self.value(),
    {
        self.0
    }
}

impl<T> std::ops::Deref for Valid<T> {
    type Target = T;

    fn deref(&self) -> (r: &T)
        ensures
            *r == self.value(),
    {
        &self.0
    }
}

/// A value of `T` that may be invalid. Use `validate` to turn it into a
/// [`Valid<T>`].
#[derive(Clone, Copy, Default)]
pub struct Unvalidated<T>(T);

impl<T> Unvalidated<T> {
    /// The wrapped value.
    pub closed spec fn value(self) -> T {
        self.0
    }
}

impl<T: Validate> From<T> for Unvalidated<T> {
    fn from(value: T) -> (r: Self)
        ensures
            r.value() == value,
    {
        Unvalidated(value)
    }
}

impl<T: Validate> vstd::std_specs::convert::FromSpecImpl<T> for Unvalidated<T> {
    open spec fn obeys_from_spec() -> bool {
        true
    }

    closed spec fn from_spec(v: T) -> Self {
        Unvalidated(v)
    }
}

impl<T: Validate> Unvalidated<T> {
    /// Wraps `v`.
    pub fn new(v: T) -> (r: Self)
        ensures
            r.value() == v,
    {
        Unvalidated(v)
    }

    /// Validates the value with the default context: the value itself,
    /// marked valid, when no error is found, else every error found.
    pub fn validate(self) -> (r: Result<Valid<T>, Report>) where T::Context: Default
        requires
            self.value().depth() <= usize::MAX,
        ensures
            r matches Ok(valid) ==> valid.value() == self.value(),
            exists|ctx: T::Context|
                call_ensures(T::Context::default, (), ctx) && reports(
                    match r {
                        Ok(_) => Ok(()),
                        Err(report) => Err(report),
                    },
                    self.value().errors_at(&ctx, Seq::empty()),
                ),
    {
        match self.0.validate() {
            Ok(()) => Ok(Valid(self.0)),
            Err(report) => Err(report),
        }
    }

    /// Validates the value with the context `ctx`: the value itself, marked
    /// valid, when no error is found, else every error found.
    pub fn validate_with(self, ctx: &T::Context) -> (r: Result<Valid<T>, Report>)
        requires
            self.value().depth() <= usize::MAX,
        ensures
            match r {
                Ok(valid) => valid.value() == self.value() && self.value().errors_at(
                    ctx,
                    Seq::empty(),
                ).len() == 0,
                Err(report) => report@ == self.value().errors_at(ctx, Seq::empty()) && report@.len()
                    > 0,
            },
    {
        match self.0.validate_with(ctx) {
            Ok(()) => Ok(Valid(self.0)),
            Err(report) => Err(report),
        }
    }
}

} // verus!
