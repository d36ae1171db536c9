//! A small point-of-sale core: named, priced articles, a generic discount
//! transformation, and aggregate queries (total, average, over-threshold
//! count) over integer-cent prices.

pub mod artikel;
pub mod auswertung;
pub mod rabatt;

pub use artikel::Artikel;
pub use artikel::Price;
pub use rabatt::apply_discount;
