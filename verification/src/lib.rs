//! Brewing an espresso and composing a breakfast from it, with the
//! failure of the first stage carried through the second in three
//! different representations.

pub mod quantity;
pub mod recipe;
pub mod simple;
pub mod taxonomy;
pub mod using_anyhow;
