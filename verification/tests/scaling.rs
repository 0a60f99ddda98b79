use scaled_capture::calibrator::calibrate;
use scaled_capture::calibrator::calibrate_with;
use scaled_capture::calibrator::fallback_correction;
use scaled_capture::calibrator::probe_rectangle;
use scaled_capture::calibrator::resolve_correction;
use scaled_capture::calibrator::FALLBACK_DENOM;
use scaled_capture::calibrator::FALLBACK_NUMER;
use scaled_capture::calibrator::REFERENCE_SIZE;
use scaled_capture::display::DisplayDescriptor;
use scaled_capture::display::Rotation;
use scaled_capture::frame::Frame;
use scaled_capture::geometry::PhysicalRectangle;
use scaled_capture::scale::Correction;
use scaled_capture::scale::Scale;
use scaled_capture::scale::ScaleTransform;

fn display(num: u32, den: u32, rotation: Rotation) -> DisplayDescriptor {
    DisplayDescriptor {
        id: 7,
        x: 0,
        y: 0,
        width: 1920,
        height: 1080,
        nominal_scale: Scale::new(num, den).unwrap(),
        rotation,
        is_primary: true,
    }
}

fn blank_frame(width: u32, height: u32) -> Frame {
    Frame::new(width, height, vec![0u8; 4 * (width as usize) * (height as usize)]).unwrap()
}

fn with_fallback(num: u32, den: u32) -> ScaleTransform {
    ScaleTransform::new(Scale::new(num, den).unwrap(), fallback_correction())
}

#[test]
fn scale_rejects_zero_parts() {
    assert!(Scale::new(0, 1).is_none());
    assert!(Scale::new(1, 0).is_none());
    assert!(Correction::new(0, 1).is_none());
    assert!(Correction::new(1, 0).is_none());
    let s = Scale::new(125, 100).unwrap();
    assert_eq!((s.num(), s.den()), (125, 100));
    let c = Correction::new(156, 100).unwrap();
    assert_eq!((c.num(), c.den()), (156, 100));
}

#[test]
fn scale_percent_truncates() {
    assert_eq!(Scale::new(125, 100).unwrap().percent(), 125);
    assert_eq!(Scale::new(5, 4).unwrap().percent(), 125);
    assert_eq!(Scale::new(4, 3).unwrap().percent(), 133);
    assert_eq!(Scale::new(1, 300).unwrap().percent(), 0);
    assert_eq!(Scale::new(u32::MAX, 1).unwrap().percent(), 429_496_729_500);
}

#[test]
fn same_value_compares_rationals() {
    let a = Scale::new(125, 100).unwrap();
    assert!(a.same_value(&Scale::new(5, 4).unwrap()));
    assert!(!a.same_value(&Scale::new(126, 100).unwrap()));
    let c = Correction::new(156, 100).unwrap();
    assert!(c.same_value(&Correction::new(39, 25).unwrap()));
    assert!(!c.same_value(&Correction::new(157, 100).unwrap()));
    let big = Correction::new(u64::MAX, u64::MAX - 1).unwrap();
    assert!(!big.same_value(&Correction::new(u64::MAX - 1, u64::MAX).unwrap()));
    assert!(big.same_value(&big));
}

#[test]
fn total_scale_is_the_product() {
    let t = ScaleTransform::new(Scale::new(125, 100).unwrap(), Correction::new(156, 100).unwrap());
    assert_eq!(t.total_num(), 125 * 156);
    assert_eq!(t.total_den(), 100 * 100);
    assert!(t.total_num() > 0 && t.total_den() > 0);
    assert_eq!(t.total_percent(), 195);
    let wide = ScaleTransform::new(
        Scale::new(u32::MAX, u32::MAX).unwrap(),
        Correction::new(u64::MAX, u64::MAX).unwrap(),
    );
    assert_eq!(wide.total_num(), (u32::MAX as u128) * (u64::MAX as u128));
    assert_eq!(wide.total_den(), (u32::MAX as u128) * (u64::MAX as u128));
    assert_eq!(wide.total_percent(), 100);
}

#[test]
fn test_new_scaling_config() {
    let t = calibrate::<String>(&display(125, 100, Rotation::Deg0), Err("no display".to_string()));
    assert!(t.nominal_scale.same_value(&Scale::new(125, 100).unwrap()));
    assert_eq!(t.total_num() * 100, 195 * t.total_den());
}

#[test]
fn test_scale_dimension() {
    let t = with_fallback(1, 1);
    assert_eq!(t.scale_dimension(100), Some(156));
}

#[test]
fn test_scale_coordinate() {
    let t = with_fallback(2, 1);
    assert_eq!(t.scale_coordinate(50), Some(156));
}

#[test]
fn dimensions_truncate() {
    let t = with_fallback(1, 1);
    assert_eq!(t.scale_dimension(1), Some(1));
    assert_eq!(t.scale_dimension(2), Some(3));
    assert_eq!(t.scale_dimension(3), Some(4));
    assert_eq!(t.scale_dimension(0), Some(0));
    let third = ScaleTransform::new(Scale::new(1, 3).unwrap(), Correction::new(1, 1).unwrap());
    assert_eq!(third.scale_dimension(2), Some(0));
    assert_eq!(third.scale_dimension(3), Some(1));
    assert_eq!(third.scale_dimension(100), Some(33));
}

#[test]
fn dimension_out_of_range_is_none() {
    let t = with_fallback(1, 1);
    assert_eq!(t.scale_dimension(u32::MAX), None);
    let one = ScaleTransform::new(Scale::new(1, 1).unwrap(), Correction::new(1, 1).unwrap());
    assert_eq!(one.scale_dimension(u32::MAX), Some(u32::MAX));
    let huge = ScaleTransform::new(
        Scale::new(u32::MAX, 1).unwrap(),
        Correction::new(u64::MAX, 1).unwrap(),
    );
    assert_eq!(huge.scale_dimension(u32::MAX), None);
    assert_eq!(huge.scale_dimension(0), Some(0));
}

#[test]
fn coordinates_truncate_toward_zero() {
    let t = with_fallback(1, 1);
    assert_eq!(t.scale_coordinate(1), Some(1));
    assert_eq!(t.scale_coordinate(-1), Some(-1));
    assert_eq!(t.scale_coordinate(3), Some(4));
    assert_eq!(t.scale_coordinate(-3), Some(-4));
    assert_eq!(t.scale_coordinate(0), Some(0));
    let half = ScaleTransform::new(Scale::new(1, 2).unwrap(), Correction::new(1, 1).unwrap());
    assert_eq!(half.scale_coordinate(-1), Some(0));
    assert_eq!(half.scale_coordinate(-3), Some(-1));
    assert_eq!(half.scale_coordinate(3), Some(1));
}

#[test]
fn coordinate_range_limits() {
    let one = ScaleTransform::new(Scale::new(1, 1).unwrap(), Correction::new(1, 1).unwrap());
    assert_eq!(one.scale_coordinate(i32::MAX), Some(i32::MAX));
    assert_eq!(one.scale_coordinate(i32::MIN), Some(i32::MIN));
    let double = ScaleTransform::new(Scale::new(2, 1).unwrap(), Correction::new(1, 1).unwrap());
    assert_eq!(double.scale_coordinate(i32::MAX), None);
    assert_eq!(double.scale_coordinate(i32::MIN), None);
    assert_eq!(double.scale_coordinate(-(1 << 30)), Some(i32::MIN));
    assert_eq!(double.scale_coordinate(1 << 30), None);
    assert_eq!(double.scale_coordinate((1 << 30) - 1), Some(i32::MAX - 1));
}

#[test]
fn scaling_never_shrinks_from_one_up() {
    let scales = [(1u32, 1u32), (5, 4), (3, 2), (2, 1), (4, 1), (101, 100)];
    for (num, den) in scales {
        let t = ScaleTransform::new(Scale::new(num, den).unwrap(), Correction::new(1, 1).unwrap());
        for w in [1u32, 2, 3, 7, 99, 100, 1000, 65535] {
            assert!(t.scale_dimension(w).unwrap() >= w);
        }
    }
    let below = ScaleTransform::new(Scale::new(99, 100).unwrap(), Correction::new(1, 1).unwrap());
    assert_eq!(below.scale_dimension(100), Some(99));
}

#[test]
fn fallback_is_exactly_one_point_five_six() {
    let c = fallback_correction();
    assert_eq!(c.num(), FALLBACK_NUMER);
    assert_eq!(c.den(), FALLBACK_DENOM);
    assert_eq!((FALLBACK_NUMER, FALLBACK_DENOM), (156, 100));
    assert!(c.same_value(&Correction::new(39, 25).unwrap()));
}

#[test]
fn failed_probe_resolves_to_the_fallback() {
    let d = display(125, 100, Rotation::Deg0);
    let t = calibrate(&d, Err(anyhow::Error::msg("display unreachable")));
    assert_eq!(t.correction_factor.num(), 156);
    assert_eq!(t.correction_factor.den(), 100);
    assert_eq!((t.nominal_scale.num(), t.nominal_scale.den()), (125, 100));
    let c = resolve_correction(d.nominal_scale, None);
    assert_eq!((c.num(), c.den()), (156, 100));
}

#[test]
fn empty_probe_resolves_to_the_fallback() {
    let d = display(2, 1, Rotation::Deg0);
    let c = resolve_correction(d.nominal_scale, Some(0));
    assert_eq!((c.num(), c.den()), (156, 100));
    let t = calibrate::<String>(&d, Ok(blank_frame(0, 0)));
    assert_eq!((t.correction_factor.num(), t.correction_factor.den()), (156, 100));
}

#[test]
fn measured_probe_gives_width_over_scaled_reference() {
    let d = display(125, 100, Rotation::Deg0);
    let c = resolve_correction(d.nominal_scale, Some(195));
    assert_eq!(c.num(), 195 * 100);
    assert_eq!(c.den(), (REFERENCE_SIZE as u64) * 125);
    assert!(c.same_value(&Correction::new(156, 100).unwrap()));
    let t = calibrate::<String>(&d, Ok(blank_frame(195, 3)));
    assert_eq!(t.total_num() * 100, 195 * t.total_den());
    assert_eq!(t.total_percent(), 195);
    assert_eq!(t.scale_dimension(100), Some(195));
}

#[test]
fn measured_probe_at_the_limits() {
    let d = display(u32::MAX, u32::MAX, Rotation::Deg0);
    let c = resolve_correction(d.nominal_scale, Some(u32::MAX));
    assert_eq!(c.num(), (u32::MAX as u64) * (u32::MAX as u64));
    assert_eq!(c.den(), 100 * (u32::MAX as u64));
}

#[test]
fn probe_rectangle_is_the_scaled_reference_square() {
    let r = probe_rectangle(&display(125, 100, Rotation::Deg90));
    assert_eq!(r, Some(PhysicalRectangle { x: 0, y: 0, width: 125, height: 125 }));
    let r = probe_rectangle(&display(4, 3, Rotation::Deg0));
    assert_eq!(r, Some(PhysicalRectangle { x: 0, y: 0, width: 133, height: 133 }));
    assert_eq!(probe_rectangle(&display(1, 101, Rotation::Deg0)), None);
    assert_eq!(probe_rectangle(&display(u32::MAX, 1, Rotation::Deg0)), None);
    let r = probe_rectangle(&display(1, 100, Rotation::Deg0));
    assert_eq!(r, Some(PhysicalRectangle { x: 0, y: 0, width: 1, height: 1 }));
}

#[test]
fn calibrate_with_probes_once() {
    let d = display(125, 100, Rotation::Deg0);
    let mut seen = Vec::new();
    let t = calibrate_with(&d, |rectangle: PhysicalRectangle| {
        seen.push(rectangle);
        Ok::<Frame, String>(blank_frame(195, 195))
    });
    assert_eq!(seen, vec![PhysicalRectangle { x: 0, y: 0, width: 125, height: 125 }]);
    assert_eq!((t.nominal_scale.num(), t.nominal_scale.den()), (125, 100));
    assert_eq!((t.correction_factor.num(), t.correction_factor.den()), (19500, 12500));
    assert_eq!(t.total_percent(), 195);
}

#[test]
fn calibrate_with_falls_back_when_the_probe_fails() {
    let d = display(2, 1, Rotation::Deg90);
    let mut calls = 0;
    let t = calibrate_with(&d, |_rectangle: PhysicalRectangle| {
        calls += 1;
        Err::<Frame, anyhow::Error>(anyhow::Error::msg("permission denied"))
    });
    assert_eq!(calls, 1);
    assert_eq!((t.correction_factor.num(), t.correction_factor.den()), (156, 100));
    assert_eq!(t.total_percent(), 312);
}

#[test]
fn calibrate_with_falls_back_without_a_probe_rectangle() {
    let d = display(1, 1000, Rotation::Deg0);
    let mut calls = 0;
    let t = calibrate_with(&d, |_rectangle: PhysicalRectangle| {
        calls += 1;
        Ok::<Frame, String>(blank_frame(10, 10))
    });
    assert_eq!(calls, 0);
    assert_eq!((t.correction_factor.num(), t.correction_factor.den()), (156, 100));
}
