//! Conversion of a logical capture request into the physical rectangle to
//! ask the capture primitive for.

use vstd::prelude::*;
use crate::display::DisplayDescriptor;
use crate::display::Rotation;
use crate::geometry::CaptureRequest;
use crate::geometry::PhysicalRectangle;
use crate::scale::ScaleTransform;

verus! {

/// Why a request has no physical rectangle.
#[derive(Clone, Copy, Debug, PartialEq, Eq, Structural)]
pub enum InvalidTransform {
    /// The requested width or height is zero.
    EmptyRequest,
    /// Truncation leaves a physical width or height of zero.
    EmptyResult,
    /// A physical coordinate or extent does not fit in 32 bits.
    OutOfRange,
}

/// The rectangle before orientation fits the capture primitive's integers.
pub open spec fn in_range(transform: ScaleTransform, request: CaptureRequest) -> bool {
    &&& i32::MIN <= transform.physical(request.x as int) <= i32::MAX
    &&& i32::MIN <= transform.physical(request.y as int) <= i32::MAX
    &&& transform.physical(request.width as int) <= u32::MAX
    &&& transform.physical(request.height as int) <= u32::MAX
}

/// The physical rectangle of a request on a display turned by `rotation`:
/// every coordinate and extent is multiplied by the total scale and
/// truncated toward zero, then the extents are exchanged if the rotation
/// exchanges the axes.
pub open spec fn physical_rectangle(
    rotation: Rotation,
    transform: ScaleTransform,
    request: CaptureRequest,
) -> Result<PhysicalRectangle, InvalidTransform> {
    if request.width == 0 || request.height == 0 {
        Err(InvalidTransform::EmptyRequest)
    } else if transform.physical(request.width as int) == 0 || transform.physical(
        request.height as int,
    ) == 0 {
        Err(InvalidTransform::EmptyResult)
    } else if !in_range(transform, request) {
        Err(InvalidTransform::OutOfRange)
    } else {
        Ok(
            (PhysicalRectangle {
                x: transform.physical(request.x as int) as i32,
                y: transform.physical(request.y as int) as i32,
                width: transform.physical(request.width as int) as u32,
                height: transform.physical(request.height as int) as u32,
            }).oriented_spec(rotation),
        )
    }
}

/// The physical rectangle to capture for `request` on `display`.
///
/// Fails without a rectangle when the request is empty; otherwise when
/// truncation would leave an empty rectangle, or when the rectangle leaves
/// the range of the capture primitive's coordinates.
pub fn to_physical(
    display: &DisplayDescriptor,
    transform: &ScaleTransform,
    request: &CaptureRequest,
) -> (r: Result<PhysicalRectangle, InvalidTransform>)
    ensures
        r == physical_rectangle(display.rotation, *transform, *request),
        r matches Ok(rectangle) ==> rectangle.width > 0 && rectangle.height > 0,
{
    if request.width == 0 || request.height == 0 {
        return Err(InvalidTransform::EmptyRequest);
    }
    let width = transform.scale_dimension(request.width);
    let height = transform.scale_dimension(request.height);
    match (width, height) {
        (Some(0), _) | (_, Some(0)) => Err(InvalidTransform::EmptyResult),
        (Some(w), Some(h)) => {
            let x = transform.scale_coordinate(request.x);
            let y = transform.scale_coordinate(request.y);
            match (x, y) {
                (Some(px), Some(py)) => {
                    let upright = PhysicalRectangle { x: px, y: py, width: w, height: h };
                    Ok(upright.oriented(display.rotation))
                },
                _ => Err(InvalidTransform::OutOfRange),
            }
        },
        _ => Err(InvalidTransform::OutOfRange),
    }
}

/// A rectangle that is handed out has a positive width and height.
pub proof fn lemma_rectangle_is_not_empty(
    rotation: Rotation,
    transform: ScaleTransform,
    request: CaptureRequest,
)
    requires
        transform.wf(),
    ensures
        physical_rectangle(rotation, transform, request) matches Ok(rectangle) ==> rectangle.width
            > 0 && rectangle.height > 0,
{
    transform.lemma_total_scale();
    lemma_scaled_is_not_negative(
        request.width as int,
        transform.total_numer(),
        transform.total_denom(),
    );
    lemma_scaled_is_not_negative(
        request.height as int,
        transform.total_numer(),
        transform.total_denom(),
    );
}

/// The rectangle for a display turned by 90 or 270 degrees is the rectangle
/// for the upright display with width and height exchanged, and orienting
/// it for the opposite quarter turn gives the upright rectangle back.
pub proof fn lemma_rotation_exchanges_extents(
    rotation: Rotation,
    transform: ScaleTransform,
    request: CaptureRequest,
)
    requires
        rotation.swaps_axes_spec(),
    ensures
        physical_rectangle(rotation, transform, request) is Ok <==> physical_rectangle(
            Rotation::Deg0,
            transform,
            request,
        ) is Ok,
        physical_rectangle(rotation, transform, request) matches Ok(turned) ==> {
            let upright = physical_rectangle(Rotation::Deg0, transform, request)->Ok_0;
            &&& turned.width == upright.height
            &&& turned.height == upright.width
            &&& turned.x == upright.x
            &&& turned.y == upright.y
            &&& turned.oriented_spec(Rotation::Deg90) == upright
            &&& turned.oriented_spec(Rotation::Deg270) == upright
        },
{
}

proof fn lemma_scaled_is_not_negative(value: int, num: int, den: int)
    by (nonlinear_arith)
    requires
        value >= 0,
        num > 0,
        den > 0,
    ensures
        (value * num) / den >= 0,
{
}

} // verus!
