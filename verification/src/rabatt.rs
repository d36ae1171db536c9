//! The discount applicator: a higher-order transformation over a collection
//! of articles.

use vstd::prelude::*;
use crate::artikel::Artikel;

verus! {

/// Applies a caller-supplied pricing function to every article of a
/// collection and returns a new collection: same length and order, each
/// name copied verbatim, each price recomputed by the pricing function.
///
/// The input is only borrowed, so it is never altered. The pricing function
/// is invoked exactly once per input element, in input order; any policy
/// obeying the stated precondition may be plugged in. An empty input yields
/// an empty output.
pub fn apply_discount<P, F: Fn(&Artikel<P>) -> P>(artikel: &Vec<Artikel<P>>, rab_cl: F) -> (rabattiert: Vec<
    Artikel<P>,
>)
    requires
        forall|i: int| 0 <= i < artikel@.len() ==> call_requires(rab_cl, (&artikel@[i],)),
    ensures
        rabattiert@.len() == artikel@.len(),
        forall|i: int|
            0 <= i < artikel@.len() ==> (#[trigger] rabattiert@[i]).name == artikel@[i].name,
        forall|i: int|
            0 <= i < artikel@.len() ==> call_ensures(
                rab_cl,
                (&artikel@[i],),
                (#[trigger] rabattiert@[i]).preis,
            ),
        artikel@.len() == 0 ==> rabattiert@.len() == 0,
{
    let mut rabattiert: Vec<Artikel<P>> = Vec::new();
    let mut j: usize = 0;
    while j < artikel.len()
        invariant
            j <= artikel@.len(),
            rabattiert@.len() == j,
            forall|i: int| 0 <= i < artikel@.len() ==> call_requires(rab_cl, (&artikel@[i],)),
            forall|i: int| 0 <= i < j ==> (#[trigger] rabattiert@[i]).name == artikel@[i].name,
            forall|i: int|
                0 <= i < j ==> call_ensures(
                    rab_cl,
                    (&artikel@[i],),
                    (#[trigger] rabattiert@[i]).preis,
                ),
        decreases artikel@.len() - j,
    {
        let a = &artikel[j];
        let rabatt_preis = rab_cl(a);
        rabattiert.push(Artikel { name: a.name.clone(), preis: rabatt_preis });
        j += 1;
    }
    rabattiert
}

} // verus!
