//! The article type and the price capability.

use vstd::prelude::*;

verus! {

/// A named entity carrying a price.
///
/// The price type is a parameter so that any plain value can serve as a
/// price: an integer amount of cents for the verified aggregate queries, or
/// whatever representation a caller prefers. An article is immutable once
/// constructed; a discount produces new articles and never mutates in place.
pub struct Artikel<P> {
    pub name: String,
    pub preis: P,
}

impl<P> Artikel<P> {
    /// Constructs an article by copying the given name into owned storage
    /// and storing the price verbatim. Total: any name and any price are
    /// accepted, validation is the caller's responsibility.
    pub fn new(name: &str, preis: P) -> (a: Artikel<P>)
        ensures
            a.name@ == name@,
            a.preis == preis,
    {
        Artikel { name: name.to_owned(), preis }
    }
}

/// The capability of reporting a price. A single concrete entity implements
/// it today, but the discount pipeline is stated against the capability so
/// that further priced entities can join it unchanged.
pub trait Price<P> {
    /// The price this entity reports, as a specification-level value.
    spec fn spec_price(&self) -> P;

    /// Returns the entity's current price. Pure: no side effects.
    fn price(&self) -> (p: P)
        ensures
            p == self.spec_price(),
    ;
}

impl<P: Copy> Price<P> for Artikel<P> {
    open spec fn spec_price(&self) -> P {
        self.preis
    }

    fn price(&self) -> (p: P) {
        self.preis
    }
}

} // verus!
