use vstd::prelude::*;

pub mod decode;
pub mod error;
pub mod expiry;
pub mod rates;
pub mod report;
pub mod session;
pub mod wiki;

verus! {

/// The texts of a list of strings.
pub open spec fn string_views(v: Seq<String>) -> Seq<Seq<char>> {
    v.map_values(|s: String| s@)
}

} // verus!
