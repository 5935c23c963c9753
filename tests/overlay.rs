use overlay_toggle::overlay::{
    apply_op, apply_plan, enforce, enforcement_plan, force_to_top_plan, overlay_behavior_flags,
    overlay_config_value, panel_setup_plan, CollectionBehavior, OverlayOp, Platform, WindowState, MAX_LEVEL,
};

fn drifted() -> WindowState {
    WindowState {
        always_on_top: false,
        all_workspaces: false,
        level: 3,
        behavior: CollectionBehavior {
            full_screen_auxiliary: false,
            can_join_all_spaces: false,
            stationary: false,
            ignores_cycle: false,
        },
        ignores_mouse: true,
        non_activating: true,
        accepts_mouse_moved: true,
        becomes_key_only_if_needed: false,
    }
}

#[test]
fn enforce_restores_overlay_properties() {
    let s = enforce(Platform::MacOs, drifted());
    assert!(s.always_on_top);
    assert!(s.all_workspaces);
    assert_eq!(s.level, MAX_LEVEL);
    assert_eq!(s.behavior, overlay_behavior_flags());
    assert!(!s.ignores_mouse);
    let c = overlay_config_value();
    assert_eq!((s.always_on_top, s.all_workspaces, s.level, s.non_activating), (c.always_on_top, c.all_workspaces, c.level, c.non_activating));
}

#[test]
fn enforce_twice_changes_nothing_more() {
    for p in [Platform::MacOs, Platform::Other] {
        let once = enforce(p, drifted());
        let twice = enforce(p, once);
        assert_eq!(once, twice);
        let thrice = enforce(p, twice);
        assert_eq!(twice, thrice);
    }
}

#[test]
fn other_platform_only_pins_window() {
    let s = enforce(Platform::Other, drifted());
    assert!(s.always_on_top && s.all_workspaces);
    assert_eq!(s.level, 3);
    assert!(s.ignores_mouse);
    assert_eq!(enforcement_plan(Platform::Other).len(), 2);
    assert_eq!(enforcement_plan(Platform::MacOs).len(), 5);
}

#[test]
fn panel_setup_makes_window_non_activating() {
    let mut s = drifted();
    s.non_activating = false;
    s.becomes_key_only_if_needed = true;
    let after = apply_plan(s, &panel_setup_plan());
    assert!(after.non_activating);
    assert!(!after.becomes_key_only_if_needed);
    assert_eq!(after.level, MAX_LEVEL);
}

#[test]
fn force_to_top_plan_orders_calls() {
    let plan = force_to_top_plan(Platform::MacOs, true);
    assert_eq!(plan.len(), 2 + 6 + 5);
    assert_eq!(plan[0], OverlayOp::SetAlwaysOnTop(true));
    assert_eq!(plan[2], OverlayOp::SetNonActivating(true));
    assert_eq!(force_to_top_plan(Platform::MacOs, false).len(), 7);
    assert_eq!(force_to_top_plan(Platform::Other, true).len(), 4);
    let mut s = drifted();
    s.non_activating = false;
    let after = apply_plan(s, &plan);
    assert!(after.non_activating && after.always_on_top && after.level == MAX_LEVEL);
}

#[test]
fn single_call_changes_one_property() {
    let s = apply_op(drifted(), OverlayOp::SetLevel(7));
    let mut expected = drifted();
    expected.level = 7;
    assert_eq!(s, expected);
}
