//! Surface Factory: derives a presentation surface from a platform
//! window.
//!
//! A window exposes two accessors — one yielding a display handle, one
//! yielding a window handle — and each may fail independently. The
//! staging decision here takes the two extraction outcomes as plain
//! values: only when both handles are available is a creation request
//! produced for the native call, and every failure is reported through
//! one composite error that preserves which stage failed.

use vstd::prelude::*;

use crate::instance::ApiError;
use crate::instance::Instance;

verus! {

/// A presentation surface: the native surface handle this value owns.
/// It depends on, but does not own, the instance it was derived from,
/// and must be destroyed before that instance.
#[derive(Clone, Copy, Debug, PartialEq, Eq)]
pub struct Surface {
    pub surface: u64,
}

/// Composite surface-creation error, preserving which stage failed.
#[derive(Clone, Copy, Debug, PartialEq, Eq)]
pub enum SurfaceError {
    /// The platform display-handle accessor failed.
    DisplayHandle,
    /// The platform window-handle accessor failed.
    WindowHandle,
    /// The native surface-creation call failed with this status.
    Native(ApiError),
}

/// Everything the native surface-creation call is given: the instance
/// handle and the two raw platform handles.
#[derive(Clone, Copy, Debug, PartialEq, Eq)]
pub struct SurfaceRequest {
    pub instance: u64,
    pub display: u64,
    pub window: u64,
}

/// The staging decision: a request exists exactly when both platform
/// handles were extracted; a missing display handle is reported as the
/// display stage, a missing window handle as the window stage.
pub open spec fn surface_request_of(inst: Instance, display: Option<u64>, window: Option<u64>)
    -> Result<SurfaceRequest, SurfaceError> {
    match display {
        None => Err(SurfaceError::DisplayHandle),
        Some(d) => match window {
            None => Err(SurfaceError::WindowHandle),
            Some(w) => Ok(SurfaceRequest { instance: inst.instance, display: d, window: w }),
        },
    }
}

/// What the native surface-creation outcome yields: the owned surface on
/// success, or the native status wrapped as the creation stage.
pub open spec fn surface_of(result: Result<u64, i32>) -> Result<Surface, SurfaceError> {
    match result {
        Ok(h) => Ok(Surface { surface: h }),
        Err(e) => Err(SurfaceError::Native(ApiError { code: e })),
    }
}

impl Instance {
    /// Stage surface creation from the outcomes of the window's two
    /// handle accessors (`None` where an accessor failed). Only a fully
    /// staged request reaches the native call, so no native surface is
    /// ever allocated on a failed extraction.
    pub fn create_surface(&self, display: Option<u64>, window: Option<u64>) -> (r: Result<
        SurfaceRequest,
        SurfaceError,
    >)
        ensures
            r == surface_request_of(*self, display, window),
    {
        match display {
            None => Err(SurfaceError::DisplayHandle),
            Some(d) => match window {
                None => Err(SurfaceError::WindowHandle),
                Some(w) => Ok(SurfaceRequest { instance: self.instance, display: d, window: w }),
            },
        }
    }
}

impl Surface {
    /// Finish surface creation with the native call's outcome. The
    /// native API returns a non-null handle on success, which the caller
    /// attests.
    pub fn from_native(result: Result<u64, i32>) -> (r: Result<Surface, SurfaceError>)
        requires
            result matches Ok(h) ==> h != 0,
        ensures
            r == surface_of(result),
    {
        match result {
            Ok(h) => Ok(Surface { surface: h }),
            Err(e) => Err(SurfaceError::Native(ApiError { code: e })),
        }
    }

    /// The native surface handle this value owns.
    pub fn handle(&self) -> (h: u64)
        ensures
            h == self.surface,
    {
        self.surface
    }
}

/// A failed display-handle extraction never reaches the native call: the
/// staging outcome is the display-stage error, whatever the window
/// accessor yielded, so no native surface is created.
pub proof fn lemma_display_failure_stops_surface(inst: Instance, window: Option<u64>)
    ensures
        surface_request_of(inst, None, window) == Err::<SurfaceRequest, SurfaceError>(
            SurfaceError::DisplayHandle,
        ),
{
}

} // verus!
