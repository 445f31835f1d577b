use floating_ui::arrow::{ArrowOptions, ARROW_NAME};
use floating_ui::coords::get_alignment_shift_sign;
use floating_ui::detect_overflow::{get_overflow_contexts, ElementContext};
use floating_ui::offset::{get_offset_directions, offset_skips, OffsetDirections, OFFSET_NAME};
use floating_ui::placement::{Axis, Placement, Side, Strategy};
use floating_ui::shift::{
    get_axis_sides, is_origin_side, shift_checks, shift_enabled, DefaultLimiter, LimitShift,
    LimitShiftOptions, ShiftDataEnabled, ShiftOptions, SHIFT_NAME,
};
use floating_ui::size::{get_size_plan, get_size_sides, SizeOptions, SIZE_NAME};
use floating_ui::viewport::{
    get_viewport_source, ViewportOrigin, ViewportRootBoundary, ViewportSource,
};

#[test]
fn names() {
    assert_eq!(SHIFT_NAME, "shift");
    assert_eq!(SIZE_NAME, "size");
    assert_eq!(OFFSET_NAME, "offset");
    assert_eq!(ARROW_NAME, "arrow");
    assert_eq!(floating_ui::flip::FLIP_NAME, "flip");
}

#[test]
fn shift_data_enabled_set_axis() {
    let enabled = ShiftDataEnabled::default().set_axis(Axis::X, true);
    assert_eq!(enabled, ShiftDataEnabled { x: true, y: false });
    assert_eq!(enabled.set_axis(Axis::Y, true), ShiftDataEnabled { x: true, y: true });
    assert_eq!(shift_enabled(Placement::Bottom, true, false), ShiftDataEnabled { x: true, y: false });
    assert_eq!(shift_enabled(Placement::Left, true, true), ShiftDataEnabled { x: true, y: true });
    assert_eq!(shift_enabled(Placement::Left, true, false), ShiftDataEnabled { x: false, y: true });
}

#[test]
fn shift_options() {
    let options: ShiftOptions<(), DefaultLimiter> = ShiftOptions::default();
    assert_eq!(shift_checks(&options), (true, false));
    let options = options.main_axis(false).cross_axis(true).limiter(DefaultLimiter);
    assert_eq!(shift_checks(&options), (false, true));
    assert!(options.limiter.is_some());
    let limit: LimitShift<u8> = LimitShift::new(LimitShiftOptions::default().offset(3).main_axis(false));
    assert_eq!(limit.options().offset, Some(3));
    assert_eq!(limit.options().main_axis, Some(false));
    assert_eq!(limit.options().cross_axis, None);
}

#[test]
fn axis_sides_and_origin() {
    assert_eq!(get_axis_sides(Axis::X), (Side::Left, Side::Right));
    assert_eq!(get_axis_sides(Axis::Y), (Side::Top, Side::Bottom));
    assert!(is_origin_side(Placement::TopEnd));
    assert!(is_origin_side(Placement::Left));
    assert!(!is_origin_side(Placement::Bottom));
}

#[test]
fn size_sides() {
    assert_eq!(get_size_sides(Placement::Top, None), (Side::Top, Side::Right));
    assert_eq!(get_size_sides(Placement::BottomEnd, None), (Side::Bottom, Side::Left));
    assert_eq!(get_size_sides(Placement::BottomStart, Some(true)), (Side::Bottom, Side::Left));
    assert_eq!(get_size_sides(Placement::RightEnd, None), (Side::Top, Side::Right));
    assert_eq!(get_size_sides(Placement::Left, None), (Side::Bottom, Side::Left));
    let plan = get_size_plan(Placement::Top, None, false);
    assert!(plan.symmetric && plan.limit_alignment_axis_by_side);
    let plan = get_size_plan(Placement::Top, None, true);
    assert!(!plan.symmetric && !plan.limit_alignment_axis_by_side);
    let plan = get_size_plan(Placement::TopStart, None, true);
    assert!(!plan.symmetric && plan.limit_alignment_axis_by_side);
    let options: SizeOptions<(), u8> = SizeOptions::new().apply(1);
    assert_eq!(options.apply, Some(1));
    assert!(SizeOptions::<(), u8>::default().apply.is_none());
}

#[test]
fn offset_directions() {
    assert_eq!(
        get_offset_directions(Placement::TopEnd, true),
        OffsetDirections {
            is_vertical: true,
            main_axis_negated: true,
            cross_axis_negated: true,
            alignment_axis_negated: Some(true),
        }
    );
    assert_eq!(
        get_offset_directions(Placement::Right, true),
        OffsetDirections {
            is_vertical: false,
            main_axis_negated: false,
            cross_axis_negated: false,
            alignment_axis_negated: None,
        }
    );
}

#[test]
fn alignment_shift_signs() {
    assert_eq!(get_alignment_shift_sign(Placement::Top, None), 0);
    assert_eq!(get_alignment_shift_sign(Placement::TopStart, None), -1);
    assert_eq!(get_alignment_shift_sign(Placement::TopEnd, None), 1);
    assert_eq!(get_alignment_shift_sign(Placement::TopStart, Some(true)), 1);
    assert_eq!(get_alignment_shift_sign(Placement::LeftStart, Some(true)), -1);
}

#[test]
fn overflow_contexts() {
    assert_eq!(
        get_overflow_contexts(None, None),
        (ElementContext::Floating, ElementContext::Floating)
    );
    assert_eq!(
        get_overflow_contexts(Some(ElementContext::Reference), Some(true)),
        (ElementContext::Reference, ElementContext::Floating)
    );
    assert_eq!(ElementContext::Floating.alternate(), ElementContext::Reference);
}

#[test]
fn viewport_sources() {
    assert_eq!(
        get_viewport_source(ViewportRootBoundary::Viewport, Strategy::Absolute, false, true),
        ViewportSource { visual_size: true, origin: ViewportOrigin::VisualOffset }
    );
    assert_eq!(
        get_viewport_source(ViewportRootBoundary::Viewport, Strategy::Absolute, true, true),
        ViewportSource { visual_size: true, origin: ViewportOrigin::Zero }
    );
    assert_eq!(
        get_viewport_source(ViewportRootBoundary::LayoutViewport, Strategy::Absolute, true, true),
        ViewportSource { visual_size: false, origin: ViewportOrigin::NegatedVisualOffset }
    );
    assert_eq!(
        get_viewport_source(ViewportRootBoundary::LayoutViewport, Strategy::Fixed, true, false),
        ViewportSource { visual_size: false, origin: ViewportOrigin::Zero }
    );
}

#[test]
fn arrow_options() {
    let options: ArrowOptions<&str, u8> = ArrowOptions::new("a").padding(2).element("b");
    assert_eq!(options.element, "b");
    assert_eq!(options.padding, Some(2));
}

#[test]
fn offset_skips_only_for_same_placement_with_arrow_alignment() {
    assert!(offset_skips(Some(Placement::Top), Placement::Top, true));
    assert!(!offset_skips(Some(Placement::Top), Placement::Top, false));
    assert!(!offset_skips(Some(Placement::Bottom), Placement::Top, true));
    assert!(!offset_skips(None, Placement::Top, true));
}
