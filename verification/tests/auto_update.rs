use floating_ui::auto_update::{plan_auto_update, AutoUpdateOptions, AutoUpdatePlan};

#[test]
fn builders_set_each_option() {
    let options = AutoUpdateOptions::default()
        .ancestor_scroll(false)
        .ancestor_resize(true)
        .element_resize(false)
        .layout_shift(false)
        .animation_frame(true);
    assert_eq!(options.ancestor_scroll, Some(false));
    assert_eq!(options.ancestor_resize, Some(true));
    assert_eq!(options.element_resize, Some(false));
    assert_eq!(options.layout_shift, Some(false));
    assert_eq!(options.animation_frame, Some(true));
}

#[test]
fn default_plan() {
    assert_eq!(
        plan_auto_update(&AutoUpdateOptions::default(), true),
        AutoUpdatePlan {
            ancestor_scroll: true,
            ancestor_resize: true,
            collect_ancestors: true,
            observe_move: true,
            element_resize: true,
            observe_reference_resize: true,
            observe_floating_resize: true,
            animation_frame: false,
        }
    );
}

#[test]
fn plan_without_listeners_or_reference() {
    let options = AutoUpdateOptions::default()
        .ancestor_scroll(false)
        .ancestor_resize(false)
        .animation_frame(true);
    let plan = plan_auto_update(&options, false);
    assert!(!plan.collect_ancestors);
    assert!(!plan.observe_move);
    assert!(!plan.observe_reference_resize);
    assert!(plan.observe_floating_resize);
    assert!(plan.animation_frame);
    let with_reference = plan_auto_update(&options, true);
    assert!(with_reference.observe_move);
    assert!(!with_reference.observe_reference_resize);
}
