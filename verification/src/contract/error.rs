use vstd::prelude::*;

use crate::error::Error as DomainError;

verus! {

/// Errors met while turning a request into the domain.
#[derive(Debug)]
pub enum Error {
    /// The request holds an asset type the domain cannot model yet, as only
    /// batteries are supported for now.
    UnsupportedAssetType { asset_id: u128 },
    /// The domain refused a value of the request.
    Domain(DomainError),
}

} // verus!
