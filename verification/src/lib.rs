//! Haskell-like lazy sequence adaptors: `tails` (every suffix of a sequence,
//! longest first, ending with the empty suffix) and `pairs` (every adjacent
//! overlapping pair of elements), together with the capability trait that
//! attaches them to any forward-traversable sequence.

mod datalist;
mod pairs;
mod rustkell;
mod sources;
mod tails;

pub use datalist::DataList;
pub use pairs::Pairs;
pub use pairs::adjacent_pairs;
pub use pairs::lemma_adjacent_pairs;
pub use rustkell::DupElem;
pub use rustkell::Rustkell;
pub use rustkell::Source;
pub use sources::SliceSource;
pub use sources::VecSource;
pub use tails::Tails;
pub use tails::TailsList;
pub use tails::lemma_suffixes;
pub use tails::suffixes;
