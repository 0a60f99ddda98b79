//! One capture of one rectangle from one display, around a capture primitive
//! that the caller runs.
//!
//! `plan_capture` turns a logical request into the physical rectangle to
//! capture, or rejects it before anything is captured. The caller captures
//! that rectangle once and hands the outcome to `complete_capture`, which
//! wraps a buffer into an artifact and a failure into an error that carries
//! the cause unchanged. `capture_with` does the three steps around a
//! primitive that is handed in. Nothing is retried.

use vstd::prelude::*;
use crate::display::DisplayDescriptor;
use crate::frame::Frame;
use crate::geometry::CaptureRequest;
use crate::geometry::PhysicalRectangle;
use crate::namer::artifact_name;
use crate::namer::artifact_name_spec;
use crate::scale::ScaleTransform;
use crate::transformer::physical_rectangle;
use crate::transformer::to_physical;
use crate::transformer::InvalidTransform;

verus! {

/// Why a capture did not produce a stored artifact. `E` is the error of the
/// outside collaborator that failed.
#[derive(Debug)]
pub enum CaptureError<E> {
    /// The request has no physical rectangle; nothing was captured.
    InvalidTransform {
        display_id: u32,
        request: CaptureRequest,
        transform: ScaleTransform,
        reason: InvalidTransform,
    },
    /// The capture primitive failed on the rectangle.
    CaptureFailed {
        display_id: u32,
        request: CaptureRequest,
        rectangle: PhysicalRectangle,
        transform: ScaleTransform,
        cause: E,
    },
    /// The artifact was captured, and storing it failed.
    PersistenceFailed { display_id: u32, rectangle: PhysicalRectangle, name: String, cause: E },
}

/// A capture that has been decided on and not yet made.
#[derive(Debug)]
pub struct CapturePlan {
    pub display: DisplayDescriptor,
    pub transform: ScaleTransform,
    pub request: CaptureRequest,
    /// The rectangle to hand to the capture primitive.
    pub rectangle: PhysicalRectangle,
    /// The name the artifact will carry.
    pub name: String,
}

impl CapturePlan {
    /// The rectangle is the one the request transforms to, and it is not
    /// empty.
    pub open spec fn wf(self) -> bool {
        &&& physical_rectangle(self.display.rotation, self.transform, self.request) == Ok::<
            PhysicalRectangle,
            InvalidTransform,
        >(self.rectangle)
        &&& self.rectangle.width > 0
        &&& self.rectangle.height > 0
    }
}

/// A captured buffer with the rectangle it was asked for and its name.
#[derive(Debug)]
pub struct CapturedArtifact {
    pub display_id: u32,
    pub rectangle: PhysicalRectangle,
    pub frame: Frame,
    pub name: String,
}

/// What `plan_capture` returns where the request has a physical rectangle.
pub open spec fn is_plan_for(
    plan: CapturePlan,
    display: DisplayDescriptor,
    transform: ScaleTransform,
    request: CaptureRequest,
    label: Seq<char>,
) -> bool {
    &&& plan.wf()
    &&& plan.display == display
    &&& plan.transform == transform
    &&& plan.request == request
    &&& plan.name@ == artifact_name_spec(label, request.size_spec(), display, transform)
}

/// Decides what to capture for `request` on `display`. The artifact's name
/// starts with `label`.
///
/// A request without a physical rectangle is rejected here, with the reason
/// and the values that led to it.
pub fn plan_capture<E>(
    display: &DisplayDescriptor,
    transform: &ScaleTransform,
    request: &CaptureRequest,
    label: &str,
) -> (r: Result<CapturePlan, CaptureError<E>>)
    ensures
        match physical_rectangle(display.rotation, *transform, *request) {
            Ok(rectangle) => r matches Ok(plan) && plan.rectangle == rectangle && is_plan_for(
                plan,
                *display,
                *transform,
                *request,
                label@,
            ),
            Err(reason) => r == Err::<CapturePlan, CaptureError<E>>(
                CaptureError::InvalidTransform {
                    display_id: display.id,
                    request: *request,
                    transform: *transform,
                    reason,
                },
            ),
        },
{
    match to_physical(display, transform, request) {
        Ok(rectangle) => {
            let name = artifact_name(label, request.size(), display, transform);
            Ok(
                CapturePlan {
                    display: *display,
                    transform: *transform,
                    request: *request,
                    rectangle,
                    name,
                },
            )
        },
        Err(reason) => Err(
            CaptureError::InvalidTransform {
                display_id: display.id,
                request: *request,
                transform: *transform,
                reason,
            },
        ),
    }
}

/// Wraps the outcome of capturing the plan's rectangle.
pub fn complete_capture<E>(plan: CapturePlan, outcome: Result<Frame, E>) -> (r: Result<
    CapturedArtifact,
    CaptureError<E>,
>)
    ensures
        r == completion(plan, outcome),
{
    match outcome {
        Ok(frame) => Ok(
            CapturedArtifact {
                display_id: plan.display.id,
                rectangle: plan.rectangle,
                frame,
                name: plan.name,
            },
        ),
        Err(cause) => Err(
            CaptureError::CaptureFailed {
                display_id: plan.display.id,
                request: plan.request,
                rectangle: plan.rectangle,
                transform: plan.transform,
                cause,
            },
        ),
    }
}

/// The artifact for a buffer, and for a failure the error with its cause.
pub open spec fn completion<E>(plan: CapturePlan, outcome: Result<Frame, E>) -> Result<
    CapturedArtifact,
    CaptureError<E>,
> {
    match outcome {
        Ok(frame) => Ok(
            CapturedArtifact {
                display_id: plan.display.id,
                rectangle: plan.rectangle,
                frame,
                name: plan.name,
            },
        ),
        Err(cause) => Err(
            CaptureError::CaptureFailed {
                display_id: plan.display.id,
                request: plan.request,
                rectangle: plan.rectangle,
                transform: plan.transform,
                cause,
            },
        ),
    }
}

/// `r` is what completing a capture of `rectangle` for `request` returns on
/// `outcome`: the artifact around the buffer, or the failure around its
/// cause.
pub open spec fn wraps<E>(
    r: Result<CapturedArtifact, CaptureError<E>>,
    outcome: Result<Frame, E>,
    display: DisplayDescriptor,
    transform: ScaleTransform,
    request: CaptureRequest,
    rectangle: PhysicalRectangle,
    label: Seq<char>,
) -> bool {
    match outcome {
        Ok(frame) => {
            &&& r matches Ok(artifact)
            &&& artifact.display_id == display.id
            &&& artifact.rectangle == rectangle
            &&& artifact.frame == frame
            &&& artifact.name@ == artifact_name_spec(label, request.size_spec(), display, transform)
        },
        Err(cause) => r == Err::<CapturedArtifact, CaptureError<E>>(
            CaptureError::CaptureFailed {
                display_id: display.id,
                request,
                rectangle,
                transform,
                cause,
            },
        ),
    }
}

/// Captures `request` from `display` through `primitive`.
///
/// The primitive is called once, with the physical rectangle of the request,
/// and what it returns is wrapped. For a request without a physical
/// rectangle it is not called at all.
pub fn capture_with<E, F>(
    display: &DisplayDescriptor,
    transform: &ScaleTransform,
    request: &CaptureRequest,
    label: &str,
    primitive: F,
) -> (r: Result<CapturedArtifact, CaptureError<E>>) where
    F: FnOnce(PhysicalRectangle) -> Result<Frame, E>,

    requires
        physical_rectangle(display.rotation, *transform, *request) matches Ok(rectangle)
            ==> call_requires(primitive, (rectangle,)),
    ensures
        match physical_rectangle(display.rotation, *transform, *request) {
            Ok(rectangle) => exists|outcome: Result<Frame, E>|
                call_ensures(primitive, (rectangle,), outcome) && #[trigger] wraps(
                    r,
                    outcome,
                    *display,
                    *transform,
                    *request,
                    rectangle,
                    label@,
                ),
            Err(reason) => r == Err::<CapturedArtifact, CaptureError<E>>(
                CaptureError::InvalidTransform {
                    display_id: display.id,
                    request: *request,
                    transform: *transform,
                    reason,
                },
            ),
        },
{
    let plan = plan_capture::<E>(display, transform, request, label)?;
    let ghost rectangle = plan.rectangle;
    let outcome = primitive(plan.rectangle);
    let r = complete_capture(plan, outcome);
    assert(wraps(r, outcome, *display, *transform, *request, rectangle, label@));
    r
}

/// Passes on the outcome of storing `artifact`: a failure becomes an error
/// that names the artifact and carries the cause unchanged.
pub fn persisted<E>(artifact: &CapturedArtifact, outcome: Result<(), E>) -> (r: Result<
    (),
    CaptureError<E>,
>)
    ensures
        match outcome {
            Ok(_) => r is Ok,
            Err(cause) => r == Err::<(), CaptureError<E>>(
                CaptureError::PersistenceFailed {
                    display_id: artifact.display_id,
                    rectangle: artifact.rectangle,
                    name: artifact.name,
                    cause,
                },
            ),
        },
{
    match outcome {
        Ok(_) => Ok(()),
        Err(cause) => Err(
            CaptureError::PersistenceFailed {
                display_id: artifact.display_id,
                rectangle: artifact.rectangle,
                name: artifact.name.clone(),
                cause,
            },
        ),
    }
}

} // verus!
