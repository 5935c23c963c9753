use vstd::prelude::*;

verus! {

/// The highest window level the platform accepts: above fullscreen
/// applications and system UI.
pub const MAX_LEVEL: i32 = 2147483647;

/// How the window takes part in virtual desktops and window cycling.
#[derive(Clone, Copy, Debug, PartialEq, Eq, Structural)]
pub struct CollectionBehavior {
    pub full_screen_auxiliary: bool,
    pub can_join_all_spaces: bool,
    pub stationary: bool,
    pub ignores_cycle: bool,
}

/// The overlay properties the window must have whenever it is visible.
#[derive(Clone, Copy, Debug, PartialEq, Eq, Structural)]
pub struct OverlayConfig {
    pub always_on_top: bool,
    pub all_workspaces: bool,
    pub level: i32,
    pub non_activating: bool,
}

/// The OS-level state of the window that the overlay properties live in.
#[derive(Clone, Copy, Debug, PartialEq, Eq, Structural)]
pub struct WindowState {
    pub always_on_top: bool,
    pub all_workspaces: bool,
    pub level: i32,
    pub behavior: CollectionBehavior,
    pub ignores_mouse: bool,
    pub non_activating: bool,
    pub accepts_mouse_moved: bool,
    pub becomes_key_only_if_needed: bool,
}

/// Which platform the window lives on: only macOS has window levels and
/// collection behaviors to set.
#[derive(Clone, Copy, Debug, PartialEq, Eq, Structural)]
pub enum Platform {
    MacOs,
    Other,
}

/// One platform call on the window.
#[derive(Clone, Copy, Debug, PartialEq, Eq, Structural)]
pub enum OverlayOp {
    SetLevel(i32),
    SetCollectionBehavior(CollectionBehavior),
    SetIgnoresMouseEvents(bool),
    SetAlwaysOnTop(bool),
    SetVisibleOnAllWorkspaces(bool),
    /// Switches the panel's non-activating style on or off.
    SetNonActivating(bool),
    SetAcceptsMouseMovedEvents(bool),
    SetBecomesKeyOnlyIfNeeded(bool),
}

pub open spec fn overlay_behavior() -> CollectionBehavior {
    CollectionBehavior { full_screen_auxiliary: true, can_join_all_spaces: true, stationary: true, ignores_cycle: true }
}

/// The overlay configuration of this system.
pub open spec fn overlay_config() -> OverlayConfig {
    OverlayConfig { always_on_top: true, all_workspaces: true, level: MAX_LEVEL, non_activating: true }
}

/// The part of the window state that the overlay configuration speaks of.
pub open spec fn observed(s: WindowState) -> OverlayConfig {
    OverlayConfig {
        always_on_top: s.always_on_top,
        all_workspaces: s.all_workspaces,
        level: s.level,
        non_activating: s.non_activating,
    }
}

/// The window state has every property that enforcement sets on `p`.
pub open spec fn conforms(p: Platform, s: WindowState) -> bool {
    &&& s.always_on_top
    &&& s.all_workspaces
    &&& p == Platform::MacOs ==> {
        &&& s.level == MAX_LEVEL
        &&& s.behavior == overlay_behavior()
        &&& !s.ignores_mouse
    }
}

pub open spec fn apply(s: WindowState, op: OverlayOp) -> WindowState {
    match op {
        OverlayOp::SetLevel(l) => WindowState { level: l, ..s },
        OverlayOp::SetCollectionBehavior(b) => WindowState { behavior: b, ..s },
        OverlayOp::SetIgnoresMouseEvents(i) => WindowState { ignores_mouse: i, ..s },
        OverlayOp::SetAlwaysOnTop(t) => WindowState { always_on_top: t, ..s },
        OverlayOp::SetVisibleOnAllWorkspaces(w) => WindowState { all_workspaces: w, ..s },
        OverlayOp::SetNonActivating(n) => WindowState { non_activating: n, ..s },
        OverlayOp::SetAcceptsMouseMovedEvents(m) => WindowState { accepts_mouse_moved: m, ..s },
        OverlayOp::SetBecomesKeyOnlyIfNeeded(k) => WindowState { becomes_key_only_if_needed: k, ..s },
    }
}

/// The state after performing `ops` in order.
pub open spec fn apply_all(s: WindowState, ops: Seq<OverlayOp>) -> WindowState
    decreases ops.len(),
{
    if ops.len() == 0 {
        s
    } else {
        apply(apply_all(s, ops.drop_last()), ops.last())
    }
}

/// The calls that (re-)assert the overlay properties on `p`.
pub open spec fn enforcement_ops(p: Platform) -> Seq<OverlayOp> {
    match p {
        Platform::MacOs => seq![
            OverlayOp::SetLevel(MAX_LEVEL),
            OverlayOp::SetCollectionBehavior(overlay_behavior()),
            OverlayOp::SetIgnoresMouseEvents(false),
            OverlayOp::SetAlwaysOnTop(true),
            OverlayOp::SetVisibleOnAllWorkspaces(true),
        ],
        Platform::Other => seq![OverlayOp::SetAlwaysOnTop(true), OverlayOp::SetVisibleOnAllWorkspaces(true)],
    }
}

/// What enforcement leaves behind, in closed form.
pub open spec fn enforced(p: Platform, s: WindowState) -> WindowState {
    match p {
        Platform::MacOs => WindowState {
            level: MAX_LEVEL,
            behavior: overlay_behavior(),
            ignores_mouse: false,
            always_on_top: true,
            all_workspaces: true,
            ..s
        },
        Platform::Other => WindowState { always_on_top: true, all_workspaces: true, ..s },
    }
}

pub fn overlay_behavior_flags() -> (r: CollectionBehavior)
    ensures
        r == overlay_behavior(),
{
    CollectionBehavior { full_screen_auxiliary: true, can_join_all_spaces: true, stationary: true, ignores_cycle: true }
}

/// The overlay configuration of this system.
pub fn overlay_config_value() -> (r: OverlayConfig)
    ensures
        r == overlay_config(),
{
    OverlayConfig { always_on_top: true, all_workspaces: true, level: MAX_LEVEL, non_activating: true }
}

/// The calls that the enforcer makes on `p`, in order.
pub fn enforcement_plan(p: Platform) -> (r: Vec<OverlayOp>)
    ensures
        r@ == enforcement_ops(p),
{
    let mut v: Vec<OverlayOp> = Vec::new();
    match p {
        Platform::MacOs => {
            v.push(OverlayOp::SetLevel(MAX_LEVEL));
            v.push(OverlayOp::SetCollectionBehavior(overlay_behavior_flags()));
            v.push(OverlayOp::SetIgnoresMouseEvents(false));
        },
        Platform::Other => {},
    }
    v.push(OverlayOp::SetAlwaysOnTop(true));
    v.push(OverlayOp::SetVisibleOnAllWorkspaces(true));
    proof {
        assert(v@ =~= enforcement_ops(p));
    }
    v
}

/// The window state after one platform call.
pub fn apply_op(s: WindowState, op: OverlayOp) -> (r: WindowState)
    ensures
        r == apply(s, op),
{
    match op {
        OverlayOp::SetLevel(l) => WindowState { level: l, ..s },
        OverlayOp::SetCollectionBehavior(b) => WindowState { behavior: b, ..s },
        OverlayOp::SetIgnoresMouseEvents(i) => WindowState { ignores_mouse: i, ..s },
        OverlayOp::SetAlwaysOnTop(t) => WindowState { always_on_top: t, ..s },
        OverlayOp::SetVisibleOnAllWorkspaces(w) => WindowState { all_workspaces: w, ..s },
        OverlayOp::SetNonActivating(n) => WindowState { non_activating: n, ..s },
        OverlayOp::SetAcceptsMouseMovedEvents(m) => WindowState { accepts_mouse_moved: m, ..s },
        OverlayOp::SetBecomesKeyOnlyIfNeeded(k) => WindowState { becomes_key_only_if_needed: k, ..s },
    }
}

/// The window state after performing every call of `ops` in order.
pub fn apply_plan(s: WindowState, ops: &Vec<OverlayOp>) -> (r: WindowState)
    ensures
        r == apply_all(s, ops@),
{
    let mut cur = s;
    let mut i: usize = 0;
    while i < ops.len()
        invariant
            i <= ops@.len(),
            cur == apply_all(s, ops@.take(i as int)),
        decreases ops@.len() - i,
    {
        proof {
            assert(ops@.take(i + 1).drop_last() =~= ops@.take(i as int));
        }
        cur = apply_op(cur, ops[i]);
        i = i + 1;
    }
    proof {
        assert(ops@.take(i as int) =~= ops@);
    }
    cur
}

/// Enforcement on a model of the window: the state after the enforcer's calls.
pub fn enforce(p: Platform, s: WindowState) -> (r: WindowState)
    ensures
        r == apply_all(s, enforcement_ops(p)),
        r == enforced(p, s),
        conforms(p, r),
{
    let plan = enforcement_plan(p);
    proof {
        lemma_enforcement_closed_form(p, s);
    }
    apply_plan(s, &plan)
}

/// Performing the enforcement calls yields the closed form `enforced`.
pub proof fn lemma_enforcement_closed_form(p: Platform, s: WindowState)
    ensures
        apply_all(s, enforcement_ops(p)) == enforced(p, s),
{
    let ops = enforcement_ops(p);
    reveal_with_fuel(apply_all, 6);
    match p {
        Platform::MacOs => {
            assert(ops.drop_last() =~= ops.take(4));
            assert(ops.take(4).drop_last() =~= ops.take(3));
            assert(ops.take(3).drop_last() =~= ops.take(2));
            assert(ops.take(2).drop_last() =~= ops.take(1));
            assert(ops.take(1).drop_last() =~= Seq::<OverlayOp>::empty());
        },
        Platform::Other => {
            assert(ops.drop_last() =~= ops.take(1));
            assert(ops.take(1).drop_last() =~= Seq::<OverlayOp>::empty());
        },
    }
}

/// Enforcement is idempotent: on a window that already conforms it changes
/// nothing, so enforcing again after enforcing changes nothing either.
pub proof fn lemma_enforce_idempotent(p: Platform, s: WindowState)
    ensures
        conforms(p, s) ==> apply_all(s, enforcement_ops(p)) == s,
        apply_all(apply_all(s, enforcement_ops(p)), enforcement_ops(p)) == apply_all(s, enforcement_ops(p)),
        observed(apply_all(s, enforcement_ops(p))) == observed(apply_all(apply_all(s, enforcement_ops(p)), enforcement_ops(p))),
{
    lemma_enforcement_closed_form(p, s);
    lemma_enforcement_closed_form(p, enforced(p, s));
}

/// On a window converted to a non-activating panel, enforcement on macOS
/// brings the observed configuration to the overlay configuration.
pub proof fn lemma_enforce_reaches_config(s: WindowState)
    requires
        s.non_activating,
    ensures
        observed(apply_all(s, enforcement_ops(Platform::MacOs))) == overlay_config(),
{
    lemma_enforcement_closed_form(Platform::MacOs, s);
}

/// The calls that turn the window into a non-activating overlay panel, made
/// once at startup and again when the window is forced to the top.
pub open spec fn panel_setup_ops() -> Seq<OverlayOp> {
    seq![
        OverlayOp::SetNonActivating(true),
        OverlayOp::SetLevel(MAX_LEVEL),
        OverlayOp::SetCollectionBehavior(overlay_behavior()),
        OverlayOp::SetAcceptsMouseMovedEvents(true),
        OverlayOp::SetBecomesKeyOnlyIfNeeded(false),
        OverlayOp::SetIgnoresMouseEvents(false),
    ]
}

/// What the panel setup leaves behind, in closed form.
pub open spec fn panel_set_up(s: WindowState) -> WindowState {
    WindowState {
        non_activating: true,
        level: MAX_LEVEL,
        behavior: overlay_behavior(),
        accepts_mouse_moved: true,
        becomes_key_only_if_needed: false,
        ignores_mouse: false,
        ..s
    }
}

/// The calls that force the window to the top: pin it on top and on all
/// workspaces, redo the panel setup where the window is a panel, then enforce.
pub open spec fn force_to_top_ops(p: Platform, is_panel: bool) -> Seq<OverlayOp> {
    seq![OverlayOp::SetAlwaysOnTop(true), OverlayOp::SetVisibleOnAllWorkspaces(true)]
        + (if p == Platform::MacOs && is_panel { panel_setup_ops() } else { Seq::empty() })
        + enforcement_ops(p)
}

/// The panel setup calls, in order.
pub fn panel_setup_plan() -> (r: Vec<OverlayOp>)
    ensures
        r@ == panel_setup_ops(),
{
    let mut v: Vec<OverlayOp> = Vec::new();
    v.push(OverlayOp::SetNonActivating(true));
    v.push(OverlayOp::SetLevel(MAX_LEVEL));
    v.push(OverlayOp::SetCollectionBehavior(overlay_behavior_flags()));
    v.push(OverlayOp::SetAcceptsMouseMovedEvents(true));
    v.push(OverlayOp::SetBecomesKeyOnlyIfNeeded(false));
    v.push(OverlayOp::SetIgnoresMouseEvents(false));
    proof {
        assert(v@ =~= panel_setup_ops());
    }
    v
}

/// The calls that force the window to the top, in order.
pub fn force_to_top_plan(p: Platform, is_panel: bool) -> (r: Vec<OverlayOp>)
    ensures
        r@ == force_to_top_ops(p, is_panel),
{
    let mut v: Vec<OverlayOp> = Vec::new();
    v.push(OverlayOp::SetAlwaysOnTop(true));
    v.push(OverlayOp::SetVisibleOnAllWorkspaces(true));
    if p == Platform::MacOs && is_panel {
        let mut panel = panel_setup_plan();
        v.append(&mut panel);
    }
    let mut enforcement = enforcement_plan(p);
    v.append(&mut enforcement);
    proof {
        assert(v@ =~= force_to_top_ops(p, is_panel));
    }
    v
}

/// Performing `a` and then `b` is performing `a + b`.
pub proof fn lemma_apply_all_concat(s: WindowState, a: Seq<OverlayOp>, b: Seq<OverlayOp>)
    ensures
        apply_all(s, a + b) == apply_all(apply_all(s, a), b),
    decreases b.len(),
{
    if b.len() == 0 {
        assert(a + b =~= a);
    } else {
        assert((a + b).drop_last() =~= a + b.drop_last());
        assert((a + b).last() == b.last());
        lemma_apply_all_concat(s, a, b.drop_last());
    }
}

/// Performing the panel setup calls yields the closed form `panel_set_up`.
pub proof fn lemma_panel_setup_closed_form(s: WindowState)
    ensures
        apply_all(s, panel_setup_ops()) == panel_set_up(s),
{
    let ops = panel_setup_ops();
    reveal_with_fuel(apply_all, 7);
    assert(ops.drop_last() =~= ops.take(5));
    assert(ops.take(5).drop_last() =~= ops.take(4));
    assert(ops.take(4).drop_last() =~= ops.take(3));
    assert(ops.take(3).drop_last() =~= ops.take(2));
    assert(ops.take(2).drop_last() =~= ops.take(1));
    assert(ops.take(1).drop_last() =~= Seq::<OverlayOp>::empty());
}

/// Whatever state the window is in, forcing a panel to the top on macOS
/// leaves it with exactly the overlay configuration.
pub proof fn lemma_force_to_top_reaches_config(s: WindowState)
    ensures
        observed(apply_all(s, force_to_top_ops(Platform::MacOs, true))) == overlay_config(),
        conforms(Platform::MacOs, apply_all(s, force_to_top_ops(Platform::MacOs, true))),
{
    let pin = seq![OverlayOp::SetAlwaysOnTop(true), OverlayOp::SetVisibleOnAllWorkspaces(true)];
    let p = Platform::MacOs;
    lemma_apply_all_concat(s, pin + panel_setup_ops(), enforcement_ops(p));
    lemma_apply_all_concat(s, pin, panel_setup_ops());
    reveal_with_fuel(apply_all, 3);
    assert(pin.drop_last() =~= seq![OverlayOp::SetAlwaysOnTop(true)]);
    assert(seq![OverlayOp::SetAlwaysOnTop(true)].drop_last() =~= Seq::<OverlayOp>::empty());
    let pinned = apply_all(s, pin);
    lemma_panel_setup_closed_form(pinned);
    lemma_enforcement_closed_form(p, panel_set_up(pinned));
}

} // verus!
