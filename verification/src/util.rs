//! Helpers for building the paths of nested values lazily.
use vstd::prelude::*;

use crate::error::{Path, PathComponentKind};
use crate::text::Describe;

verus! {

/// A path that is built the first time it is asked for and remembered after.
pub trait MaybeJoin {
    /// The path held, or, when there is none yet, the path that `parent`
    /// returns joined with the component that `component` returns, which is
    /// then held for later calls.
    fn maybe_join<C, P, CF>(&mut self, parent: P, component: CF) -> Path where
        C: PathComponentKind,
        P: FnMut() -> Path,
        CF: Fn() -> C,
        requires
            call_requires(parent, ()),
            call_requires(component, ()),
            forall|p: Path| call_ensures(parent, (), p) ==> p@.len() < usize::MAX,
    ;
}

impl MaybeJoin for Option<Path> {
    fn maybe_join<C, P, CF>(&mut self, parent: P, component: CF) -> (r: Path) where
        C: PathComponentKind,
        P: FnMut() -> Path,
        CF: Fn() -> C,
        ensures
            match *old(self) {
                Some(held) => r@ == held@ && *final(self) == *old(self),
                None => exists|p: Path, c: C|
                    {
                        &&& call_ensures(parent, (), p)
                        &&& call_ensures(component, (), c)
                        &&& r@ == p@.push((C::kind_of(), c.description()))
                    },
            },
            *final(self) is Some,
            (*final(self))->Some_0@ == r@,
    {
        match self {
            Some(path) => path.clone(),
            None => {
                let path = join_fresh(parent, component);
                *self = Some(path.clone());
                path
            },
        }
    }
}

/// The path that `parent` returns joined with the component that
/// `component` returns.
fn join_fresh<C, P, CF>(mut parent: P, component: CF) -> (r: Path) where
    C: PathComponentKind,
    P: FnMut() -> Path,
    CF: Fn() -> C,
    requires
        call_requires(parent, ()),
        call_requires(component, ()),
        forall|p: Path| call_ensures(parent, (), p) ==> p@.len() < usize::MAX,
    ensures
        exists|p: Path, c: C|
            {
                &&& call_ensures(parent, (), p)
                &&& call_ensures(component, (), c)
                &&& r@ == p@.push((C::kind_of(), c.description()))
            },
{
    let p = parent();
    let c = component();
    p.join(c)
}

} // verus!
