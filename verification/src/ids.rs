//! Asset identifiers and the trait shared by every registered asset.
use vstd::prelude::*;

verus! {

/// Stable identifier attached to every asset the engine tracks.
pub type AssetId = u128;

/// Anything stored in the asset registry exposes its identifier.
pub trait Asset {
    fn id(&self) -> AssetId;
}

/// Relies on `uuid::Uuid::new_v4` (and `Uuid::as_u128`, which returns the
/// identifier's 128 bits): a freshly drawn random identifier. The value is
/// random, so nothing is promised of it; callers treat it as arbitrary.
#[verifier::external_body]
pub fn generate_id() -> AssetId {
    uuid::Uuid::new_v4().as_u128()
}

} // verus!
