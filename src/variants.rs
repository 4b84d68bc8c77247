use vstd::prelude::*;

verus! {

/// Applies `f` to the base value `a` and each modifier of `modders`, in order.
pub fn generate_variants<A, B, C, F>(a: A, modders: Vec<B>, f: F) -> (r: Vec<C>)
    where
        F: Fn(&A, B) -> C,
    requires
        forall|i: int| 0 <= i < modders.len() ==> #[trigger] f.requires((&a, modders[i])),
    ensures
        r.len() == modders.len(),
        forall|i: int| 0 <= i < r.len() ==> #[trigger] f.ensures((&a, modders[i]), r[i]),
{
    let ghost orig = modders@;
    let mut rest = modders;
    let mut r: Vec<C> = Vec::new();
    while rest.len() > 0
        invariant
            rest@ == orig.subrange(r.len() as int, orig.len() as int),
            r.len() <= orig.len(),
            forall|i: int| 0 <= i < orig.len() ==> #[trigger] f.requires((&a, orig[i])),
            forall|i: int| 0 <= i < r.len() ==> #[trigger] f.ensures((&a, orig[i]), r[i]),
        decreases rest.len(),
    {
        let b = rest.remove(0);
        let c = f(&a, b);
        r.push(c);
    }
    r
}

} // verus!
