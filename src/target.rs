use vstd::prelude::*;

use crate::error::CaptureError;

verus! {

/// A display or window turned into a capturable item, with the size in
/// pixels that the item reported when it was made.
#[derive(Clone, Copy, Debug, PartialEq, Eq, Structural)]
pub struct CaptureTarget {
    pub handle: isize,
    pub width: i32,
    pub height: i32,
}

/// The size in pixels that a capturable item reports.
#[derive(Clone, Copy, Debug, PartialEq, Eq, Structural)]
pub struct ItemSize {
    pub width: i32,
    pub height: i32,
}

/// The result of wrapping `handle` into a capturable item: `created` is the
/// item's size where the platform made one, `None` where it refused (no
/// interop factory, or a handle that no longer stands for a live source).
pub fn resolve_target(handle: isize, created: Option<ItemSize>) -> (r: Result<CaptureTarget, CaptureError>)
    ensures
        r is Ok <==> created is Some,
        r is Err ==> r == Err::<CaptureTarget, CaptureError>(CaptureError::InteropActivation),
        r is Ok ==> r->Ok_0 == (CaptureTarget { handle, width: created->0.width, height: created->0.height }),
{
    match created {
        Some(size) => Ok(CaptureTarget { handle, width: size.width, height: size.height }),
        None => Err(CaptureError::InteropActivation),
    }
}

} // verus!
