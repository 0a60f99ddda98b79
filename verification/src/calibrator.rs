//! Measuring the correction that a display needs on top of its nominal
//! scale, from one probe capture.
//!
//! `calibrate_with` probes through a capture primitive that the caller hands
//! in. A caller that captures by itself takes the rectangle from
//! `probe_rectangle` and hands the outcome to `calibrate`. Either way a probe
//! that failed, or that came back empty, degrades to a fixed fallback
//! correction and is never an error.

use vstd::prelude::*;
use crate::display::DisplayDescriptor;
use crate::frame::Frame;
use crate::geometry::PhysicalRectangle;
use crate::scale::product;
use crate::scale::Correction;
use crate::scale::Scale;
use crate::scale::ScaleTransform;

verus! {

/// Side of the probe square, in logical pixels.
pub const REFERENCE_SIZE: u32 = 100;

/// The fallback correction is `FALLBACK_NUMER / FALLBACK_DENOM`: 1.56.
pub const FALLBACK_NUMER: u64 = 156;

pub const FALLBACK_DENOM: u64 = 100;

/// Side of the probe square in physical pixels: the reference size scaled by
/// the nominal scale alone, truncated.
pub open spec fn probe_side(nominal: Scale) -> int {
    (REFERENCE_SIZE * nominal.numer()) / nominal.denom()
}

/// The probe rectangle for a nominal scale whose probe side is in range.
pub open spec fn probe_square(nominal: Scale) -> PhysicalRectangle {
    PhysicalRectangle {
        x: 0,
        y: 0,
        width: probe_side(nominal) as u32,
        height: probe_side(nominal) as u32,
    }
}

/// `correction` is the fallback, exactly.
pub open spec fn is_fallback(correction: Correction) -> bool {
    correction.numer() == FALLBACK_NUMER && correction.denom() == FALLBACK_DENOM
}

/// `correction` is `actual_width / (REFERENCE_SIZE * nominal)`, exactly.
pub open spec fn is_measured(correction: Correction, nominal: Scale, actual_width: int) -> bool {
    &&& correction.numer() == actual_width * nominal.denom()
    &&& correction.denom() == REFERENCE_SIZE * nominal.numer()
}

/// What a probe of the given outcome resolves to: the measured correction
/// for a positive width, the fallback for a failed or empty probe.
pub open spec fn resolves_to(correction: Correction, nominal: Scale, measured_width: Option<u32>) -> bool {
    match measured_width {
        Some(width) => if width > 0 {
            is_measured(correction, nominal, width as int)
        } else {
            is_fallback(correction)
        },
        None => is_fallback(correction),
    }
}

/// The width that a probe outcome measured, if the probe succeeded.
pub open spec fn measured_width<E>(probe: Result<Frame, E>) -> Option<u32> {
    match probe {
        Ok(frame) => Some(frame.width_spec() as u32),
        Err(_) => None,
    }
}

/// The correction used when nothing could be measured.
pub fn fallback_correction() -> (c: Correction)
    ensures
        c.wf(),
        is_fallback(c),
{
    Correction::new(FALLBACK_NUMER, FALLBACK_DENOM).unwrap()
}

/// The rectangle to capture as a probe of `display`: the reference square at
/// the display's origin, scaled by the nominal scale alone. There is none
/// when that square is empty or its side exceeds 32 bits.
pub fn probe_rectangle(display: &DisplayDescriptor) -> (r: Option<PhysicalRectangle>)
    ensures
        r == (if 0 < probe_side(display.nominal_scale) <= u32::MAX {
            Some(probe_square(display.nominal_scale))
        } else {
            None
        }),
{
    let scaled: u64 = product(REFERENCE_SIZE, display.nominal_scale.num());
    let side: u64 = scaled / (display.nominal_scale.den() as u64);
    if 0 < side && side <= u32::MAX as u64 {
        Some(PhysicalRectangle { x: 0, y: 0, width: side as u32, height: side as u32 })
    } else {
        None
    }
}

/// The correction that a probe resolves to. `measured_width` is the width of
/// the buffer that the probe capture returned, or `None` if it failed.
pub fn resolve_correction(nominal: Scale, measured_width: Option<u32>) -> (c: Correction)
    ensures
        c.wf(),
        resolves_to(c, nominal, measured_width),
{
    match measured_width {
        Some(width) if width > 0 => {
            let numer: u64 = product(width, nominal.den());
            let denom: u64 = product(REFERENCE_SIZE, nominal.num());
            assert(width * nominal.denom() > 0 && REFERENCE_SIZE * nominal.numer() > 0)
                by (nonlinear_arith)
                requires
                    width > 0,
                    nominal.denom() > 0,
                    nominal.numer() > 0,
            ;
            Correction::new(numer, denom).unwrap()
        },
        _ => fallback_correction(),
    }
}

/// The transform for `display`, given the outcome of its probe capture.
///
/// A probe that failed resolves to the fallback correction, whatever the
/// failure was. After a probe that measured a positive width, the total
/// scale is that width over the reference size.
pub fn calibrate<E>(display: &DisplayDescriptor, probe: Result<Frame, E>) -> (t: ScaleTransform)
    ensures
        t.wf(),
        t.nominal_scale == display.nominal_scale,
        resolves_to(t.correction_factor, display.nominal_scale, measured_width(probe)),
        probe is Err ==> is_fallback(t.correction_factor),
        probe matches Ok(frame) ==> frame.width_spec() > 0 ==> t.total_numer() * REFERENCE_SIZE
            == frame.width_spec() * t.total_denom(),
{
    let width: Option<u32> = match probe {
        Ok(frame) => Some(frame.width()),
        Err(_) => None,
    };
    let correction = resolve_correction(display.nominal_scale, width);
    let t = ScaleTransform::new(display.nominal_scale, correction);
    proof {
        lemma_measured_total(t, width);
    }
    t
}

/// Calibrates `display` through `primitive`.
///
/// The primitive is called once, with the probe rectangle, and the transform
/// is what its outcome resolves to. A display without a probe rectangle gets
/// the fallback correction and the primitive is not called.
pub fn calibrate_with<E, F>(display: &DisplayDescriptor, primitive: F) -> (t: ScaleTransform) where
    F: FnOnce(PhysicalRectangle) -> Result<Frame, E>,

    requires
        0 < probe_side(display.nominal_scale) <= u32::MAX ==> call_requires(
            primitive,
            (probe_square(display.nominal_scale),),
        ),
    ensures
        t.wf(),
        t.nominal_scale == display.nominal_scale,
        if 0 < probe_side(display.nominal_scale) <= u32::MAX {
            exists|probe: Result<Frame, E>|
                call_ensures(primitive, (probe_square(display.nominal_scale),), probe)
                    && resolves_to(
                    t.correction_factor,
                    display.nominal_scale,
                    #[trigger] measured_width(probe),
                )
        } else {
            is_fallback(t.correction_factor)
        },
{
    match probe_rectangle(display) {
        Some(rectangle) => {
            let probe = primitive(rectangle);
            calibrate(display, probe)
        },
        None => ScaleTransform::new(display.nominal_scale, fallback_correction()),
    }
}

/// With a measured correction the nominal scale cancels: the total scale is
/// the measured width over the reference size.
pub proof fn lemma_measured_total(transform: ScaleTransform, measured_width: Option<u32>)
    requires
        resolves_to(transform.correction_factor, transform.nominal_scale, measured_width),
    ensures
        measured_width matches Some(width) ==> width > 0 ==> transform.total_numer()
            * REFERENCE_SIZE == width * transform.total_denom(),
{
    if let Some(width) = measured_width {
        if width > 0 {
            let n = transform.nominal_scale.numer();
            let d = transform.nominal_scale.denom();
            let w = width as int;
            assert((n * (w * d)) * 100 == w * (d * (100 * n))) by (nonlinear_arith);
        }
    }
}

} // verus!
