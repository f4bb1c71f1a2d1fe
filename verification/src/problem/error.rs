use vstd::prelude::*;

verus! {

/// Errors about the consistency of an optimization problem.
#[derive(Debug)]
pub enum ProblemError {
    /// A perimeter references assets that are not part of the problem.
    UnknownAssetsInPerimeter { perimeter_id: u128, asset_ids: Vec<u128> },
    /// An asset can be in at most one balance responsible party perimeter.
    AssetInMultipleBrps { asset_ids: Vec<u128> },
}

} // verus!
