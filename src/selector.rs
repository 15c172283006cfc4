//! The mapping between the two outcome forms of a region selector.
use vstd::prelude::*;
use crate::selection::Region;
use crate::session::OverlayError;

verus! {

/// The outcome with a background from a plain selection: a region is confirmed,
/// a cancellation is no region, any other failure stays a failure.
pub open spec fn outcome_of(r: Result<Region, OverlayError>) -> Result<Option<Region>, OverlayError> {
    match r {
        Ok(region) => Ok(Some(region)),
        Err(OverlayError::Cancelled) => Ok(None),
        Err(e) => Err(e),
    }
}

/// Maps a plain selection to an outcome in which cancelling yields no region.
pub fn outcome_from_select(r: Result<Region, OverlayError>) -> (o: Result<Option<Region>, OverlayError>)
    ensures
        o == outcome_of(r),
{
    match r {
        Ok(region) => Ok(Some(region)),
        Err(OverlayError::Cancelled) => Ok(None),
        Err(e) => Err(e),
    }
}

/// Maps an outcome back to a plain selection: no region is a cancellation.
pub fn region_or_cancelled(r: Result<Option<Region>, OverlayError>) -> (o: Result<Region, OverlayError>)
    ensures
        o == match r {
            Ok(Some(region)) => Ok(region),
            Ok(None) => Err(OverlayError::Cancelled),
            Err(e) => Err(e),
        },
{
    match r {
        Ok(Some(region)) => Ok(region),
        Ok(None) => Err(OverlayError::Cancelled),
        Err(e) => Err(e),
    }
}

} // verus!
