use vstd::prelude::*;
use crate::config::{default_view, ConfigView, CrosshairConfig};
use crate::render::{draw_crosshair, render_ops, trunc_div, DrawOp, Rotation};

verus! {

/// Largest client-area or screen side accepted, in pixels.
pub const MAX_SCREEN: i32 = 1000000;

/// Lifecycle of the overlay window.
#[derive(Clone, Copy, Debug, PartialEq, Eq, Structural)]
pub enum Phase {
    /// No window has been asked for.
    Uninitialized,
    /// The owning thread has been asked for and has not reported a window yet.
    Creating,
    /// The window exists and its message loop runs.
    Active,
    /// The window is gone, or was never made; nothing re-creates it.
    Destroyed,
}

/// Why a control operation was refused.
#[derive(Clone, Copy, Debug, PartialEq, Eq, Structural)]
pub enum OverlayError {
    /// A length, offset, color or opacity lies outside the accepted bounds.
    InvalidConfig,
    /// The owning thread was already asked for.
    AlreadyStarted,
    /// The operation belongs to another phase of the lifecycle.
    WrongPhase,
}

/// Top-left corner and side of the square overlay window.
#[derive(Clone, Copy, Debug, PartialEq, Eq, Structural)]
pub struct Placement {
    pub x: i32,
    pub y: i32,
    pub size: i32,
}

/// What the owning thread does to its window after a configuration change.
#[derive(Clone, Copy, Debug, PartialEq, Eq, Structural)]
pub struct WindowChange {
    /// New position and size, when the bounding box changed.
    pub resize: Option<Placement>,
    /// Alpha to apply; reapplied on every change.
    pub alpha: u8,
}

/// The state shared between the callers and the thread that owns the window.
#[derive(Debug)]
pub struct OverlayState {
    phase: Phase,
    window: Option<usize>,
    config: CrosshairConfig,
    window_size: i32,
    pending: bool,
}

/// The value of an [`OverlayState`].
pub struct OverlayView {
    pub phase: Phase,
    /// The native window handle, once published.
    pub window: Option<usize>,
    pub config: ConfigView,
    /// The side the window currently has.
    pub window_size: int,
    /// Whether the configuration changed since the owning thread last applied it.
    pub pending: bool,
}

impl View for OverlayState {
    type V = OverlayView;

    closed spec fn view(&self) -> OverlayView {
        OverlayView {
            phase: self.phase,
            window: self.window,
            config: self.config@,
            window_size: self.window_size as int,
            pending: self.pending,
        }
    }
}

impl OverlayView {
    /// The stored configuration is accepted, and a handle is held exactly while the window is active.
    pub open spec fn wf(self) -> bool {
        &&& self.config.valid()
        &&& (self.window is Some <==> self.phase == Phase::Active)
    }
}

/// The state after `update_config` accepted `c`.
pub open spec fn after_update(s: OverlayView, c: ConfigView) -> OverlayView {
    OverlayView { config: c, pending: true, ..s }
}

/// The state after `toggle_overlay(enabled)`.
pub open spec fn after_toggle(s: OverlayView, enabled: bool) -> OverlayView {
    OverlayView { config: s.config.with_enabled(enabled), ..s }
}

/// The state after the owning thread was asked for.
pub open spec fn after_create(s: OverlayView) -> OverlayView {
    OverlayView { phase: Phase::Creating, ..s }
}

/// The state after the owning thread published the handle of a default-sized window.
pub open spec fn after_window_created(s: OverlayView, handle: usize) -> OverlayView {
    OverlayView {
        phase: Phase::Active,
        window: Some(handle),
        window_size: default_view().bounding_box(),
        pending: true,
        ..s
    }
}

/// The state after the window could not be made, or after it was destroyed.
pub open spec fn after_teardown(s: OverlayView) -> OverlayView {
    OverlayView { phase: Phase::Destroyed, window: None, ..s }
}

/// The state after the owning thread applied the pending configuration.
pub open spec fn after_apply(s: OverlayView) -> OverlayView {
    OverlayView { window_size: s.config.bounding_box(), pending: false, ..s }
}

/// What the owning thread does to its window to apply the pending configuration.
pub open spec fn change_for(s: OverlayView, screen_w: int, screen_h: int) -> WindowChange {
    let b = s.config.bounding_box();
    WindowChange {
        resize: if b != s.window_size {
            Some(centered(screen_w, screen_h, b))
        } else {
            None
        },
        alpha: s.config.alpha() as u8,
    }
}

/// Where a window of side `size` goes to be centered on a screen of the given size.
pub open spec fn centered(screen_w: int, screen_h: int, size: int) -> Placement {
    Placement {
        x: trunc_div(screen_w - size, 2) as i32,
        y: trunc_div(screen_h - size, 2) as i32,
        size: size as i32,
    }
}

fn half_toward_zero(v: i32) -> (r: i32)
    requires
        -2 * MAX_SCREEN <= v <= 2 * MAX_SCREEN,
    ensures
        r == trunc_div(v as int, 2),
{
    if v >= 0 {
        v / 2
    } else {
        0 - ((0 - v) / 2)
    }
}

/// The placement that centers a window of side `size` on the screen.
pub fn centered_placement(screen_w: i32, screen_h: i32, size: i32) -> (p: Placement)
    requires
        0 <= screen_w <= MAX_SCREEN,
        0 <= screen_h <= MAX_SCREEN,
        0 <= size <= MAX_SCREEN,
    ensures
        p == centered(screen_w as int, screen_h as int, size as int),
{
    Placement { x: half_toward_zero(screen_w - size), y: half_toward_zero(screen_h - size), size }
}

impl OverlayState {
    /// A state with no window and the default configuration.
    pub fn new() -> (s: OverlayState)
        ensures
            s@.phase == Phase::Uninitialized,
            s@.window == None::<usize>,
            s@.config == default_view(),
            s@.window_size == default_view().bounding_box(),
            !s@.pending,
            s@.wf(),
    {
        let config = CrosshairConfig::default();
        let window_size = config.bounding_box();
        OverlayState { phase: Phase::Uninitialized, window: None, config, window_size, pending: false }
    }

    pub fn phase(&self) -> (r: Phase)
        ensures
            r == self@.phase,
    {
        self.phase
    }

    pub fn window(&self) -> (r: Option<usize>)
        ensures
            r == self@.window,
    {
        self.window
    }
}

impl Default for OverlayState {
    fn default() -> (s: OverlayState)
        ensures
            s@.phase == Phase::Uninitialized,
            s@.window == None::<usize>,
            s@.config == default_view(),
            s@.window_size == default_view().bounding_box(),
            !s@.pending,
            s@.wf(),
    {
        OverlayState::new()
    }
}

/// Asks for the thread that will own the window. Only the first call succeeds: the
/// state moves from `Uninitialized` to `Creating`, and the caller spawns that thread.
pub fn create_overlay_window(state: &mut OverlayState) -> (r: Result<(), OverlayError>)
    ensures
        old(state)@.phase == Phase::Uninitialized ==> r == Ok::<(), OverlayError>(())
            && final(state)@ == after_create(old(state)@),
        old(state)@.wf() ==> final(state)@.wf(),
        old(state)@.phase != Phase::Uninitialized ==> r == Err::<(), OverlayError>(OverlayError::AlreadyStarted)
            && final(state)@ == old(state)@,
{
    match state.phase {
        Phase::Uninitialized => {
            state.phase = Phase::Creating;
            Ok(())
        },
        _ => Err(OverlayError::AlreadyStarted),
    }
}

/// Where the new window goes: sized from the default configuration's bounding box,
/// centered on the screen.
pub fn creation_placement(screen_w: i32, screen_h: i32) -> (p: Placement)
    requires
        0 <= screen_w <= MAX_SCREEN,
        0 <= screen_h <= MAX_SCREEN,
    ensures
        p == centered(screen_w as int, screen_h as int, default_view().bounding_box()),
{
    let size = CrosshairConfig::default().bounding_box();
    centered_placement(screen_w, screen_h, size)
}

/// Publishes the handle of the window the owning thread made. The window has the
/// default size, so the stored configuration is marked for the owner to apply.
pub fn window_created(state: &mut OverlayState, handle: usize) -> (r: Result<(), OverlayError>)
    ensures
        old(state)@.phase == Phase::Creating ==> r == Ok::<(), OverlayError>(())
            && final(state)@ == after_window_created(old(state)@, handle),
        old(state)@.wf() ==> final(state)@.wf(),
        old(state)@.phase != Phase::Creating ==> r == Err::<(), OverlayError>(OverlayError::WrongPhase)
            && final(state)@ == old(state)@,
{
    match state.phase {
        Phase::Creating => {
            state.phase = Phase::Active;
            state.window = Some(handle);
            state.window_size = CrosshairConfig::default().bounding_box();
            state.pending = true;
            Ok(())
        },
        _ => Err(OverlayError::WrongPhase),
    }
}

/// Records that the window could not be made: the overlay never becomes active.
pub fn creation_failed(state: &mut OverlayState) -> (r: Result<(), OverlayError>)
    ensures
        old(state)@.wf() ==> final(state)@.wf(),
        old(state)@.phase == Phase::Creating ==> r == Ok::<(), OverlayError>(())
            && final(state)@ == after_teardown(old(state)@),
        old(state)@.phase != Phase::Creating ==> r == Err::<(), OverlayError>(OverlayError::WrongPhase)
            && final(state)@ == old(state)@,
{
    match state.phase {
        Phase::Creating => {
            state.phase = Phase::Destroyed;
            state.window = None;
            Ok(())
        },
        _ => Err(OverlayError::WrongPhase),
    }
}

/// Records that the message loop ended: the handle is dropped for good.
pub fn window_destroyed(state: &mut OverlayState) -> (r: Result<(), OverlayError>)
    ensures
        old(state)@.wf() ==> final(state)@.wf(),
        old(state)@.phase == Phase::Active ==> r == Ok::<(), OverlayError>(())
            && final(state)@ == after_teardown(old(state)@),
        old(state)@.phase != Phase::Active ==> r == Err::<(), OverlayError>(OverlayError::WrongPhase)
            && final(state)@ == old(state)@,
{
    match state.phase {
        Phase::Active => {
            state.phase = Phase::Destroyed;
            state.window = None;
            Ok(())
        },
        _ => Err(OverlayError::WrongPhase),
    }
}

/// Replaces the stored configuration wholesale and marks it for the owning thread to
/// apply. A configuration outside the accepted bounds is refused and nothing changes.
/// On success, returns whether a window exists to be told of the change.
pub fn update_config(state: &mut OverlayState, config: CrosshairConfig) -> (r: Result<bool, OverlayError>)
    ensures
        config@.valid() ==> r == Ok::<bool, OverlayError>((old(state)@.window is Some))
            && final(state)@ == after_update(old(state)@, config@),
        old(state)@.wf() ==> final(state)@.wf(),
        !config@.valid() ==> r == Err::<bool, OverlayError>(OverlayError::InvalidConfig)
            && final(state)@ == old(state)@,
{
    if !config.is_valid() {
        return Err(OverlayError::InvalidConfig);
    }
    state.config = config;
    state.pending = true;
    Ok(state.window.is_some())
}

/// Sets only the `enabled` flag of the stored configuration. Returns whether a window
/// exists to be repainted.
pub fn toggle_overlay(state: &mut OverlayState, enabled: bool) -> (r: bool)
    ensures
        r == (old(state)@.window is Some),
        old(state)@.wf() ==> final(state)@.wf(),
        final(state)@ == after_toggle(old(state)@, enabled),
{
    state.config.enabled = enabled;
    state.window.is_some()
}

/// Inverts the `enabled` flag of the stored configuration in one step and returns its
/// new value; nothing else changes.
pub fn flip_enabled(state: &mut OverlayState) -> (r: bool)
    ensures
        r == !old(state)@.config.enabled,
        old(state)@.wf() ==> final(state)@.wf(),
        final(state)@ == after_toggle(old(state)@, r),
{
    let enabled = !state.config.enabled;
    state.config.enabled = enabled;
    enabled
}

/// A copy of the stored configuration.
pub fn get_config(state: &OverlayState) -> (r: CrosshairConfig)
    ensures
        r@ == state@.config,
{
    state.config.duplicate()
}

/// Run by the owning thread when told of a change: when the active window has a
/// configuration still to apply, clears that mark and says what to do to the window.
/// The window is resized, centered on the screen, only when the bounding box changed;
/// the alpha is given every time.
pub fn apply_pending(state: &mut OverlayState, screen_w: i32, screen_h: i32) -> (r: Option<WindowChange>)
    requires
        old(state)@.wf(),
        0 <= screen_w <= MAX_SCREEN,
        0 <= screen_h <= MAX_SCREEN,
    ensures
        final(state)@.wf(),
        !(old(state)@.phase == Phase::Active && old(state)@.pending) ==> r == None::<WindowChange>
            && final(state)@ == old(state)@,
        old(state)@.phase == Phase::Active && old(state)@.pending ==> r == Some(
            change_for(old(state)@, screen_w as int, screen_h as int),
        ) && final(state)@ == after_apply(old(state)@),
{
    if !(state.phase == Phase::Active && state.pending) {
        return None;
    }
    state.pending = false;
    let size = state.config.bounding_box();
    let resize = if size != state.window_size {
        state.window_size = size;
        Some(centered_placement(screen_w, screen_h, size))
    } else {
        None
    };
    Some(WindowChange { resize, alpha: state.config.alpha() })
}

/// The render center of a client area: its middle, moved by the configured offset.
pub open spec fn paint_center(client: int, offset: int) -> int {
    client / 2 + offset
}

/// What the owning thread draws on a paint request, after clearing the client area:
/// the configured reticle around the render center when enabled, nothing otherwise.
pub fn paint(state: &OverlayState, client_w: i32, client_h: i32, rot: Rotation) -> (ops: Vec<DrawOp>)
    requires
        state@.wf(),
        rot.valid(),
        0 <= client_w <= MAX_SCREEN,
        0 <= client_h <= MAX_SCREEN,
    ensures
        state@.config.enabled ==> ops@ == render_ops(
            state@.config,
            paint_center(client_w as int, state@.config.position_x as int),
            paint_center(client_h as int, state@.config.position_y as int),
            rot,
        ),
        !state@.config.enabled ==> ops@.len() == 0,
{
    if !state.config.enabled {
        return Vec::new();
    }
    let cx = client_w / 2 + state.config.position_x;
    let cy = client_h / 2 + state.config.position_y;
    draw_crosshair(&state.config, cx, cy, rot)
}

// ---- laws ----
/// Reading the configuration back after an accepted update gives exactly that configuration.
pub proof fn lemma_update_then_get(s: OverlayView, c: ConfigView)
    requires
        c.valid(),
    ensures
        after_update(s, c).config == c,
        s.wf() ==> after_update(s, c).wf(),
{
}

/// Toggling sets the `enabled` flag and leaves every other field of the configuration,
/// and the rest of the state, as it was.
pub proof fn lemma_toggle_changes_only_enabled(s: OverlayView, enabled: bool)
    ensures
        after_toggle(s, enabled).config.enabled == enabled,
        after_toggle(s, enabled).config.with_enabled(s.config.enabled) == s.config,
        after_toggle(s, enabled).phase == s.phase,
        after_toggle(s, enabled).window == s.window,
        after_toggle(s, enabled).window_size == s.window_size,
        after_toggle(s, enabled).pending == s.pending,
        s.wf() ==> after_toggle(s, enabled).wf(),
{
}

/// Once an accepted configuration is applied to the active window, the window's side is
/// `2 * (size + gap) + 2 * thickness + 20` of that configuration; when that differs from
/// the side it had, the window is resized to it, centered on the screen.
pub proof fn lemma_applied_window_matches_bounding_box(s: OverlayView, c: ConfigView, screen_w: int, screen_h: int)
    requires
        s.wf(),
        s.phase == Phase::Active,
        c.valid(),
    ensures
        after_apply(after_update(s, c)).window_size == 2 * (c.size + c.gap) + 2 * c.thickness + 20,
        c.bounding_box() != s.window_size ==> change_for(after_update(s, c), screen_w, screen_h).resize == Some(
            centered(screen_w, screen_h, 2 * (c.size + c.gap) + 2 * c.thickness + 20),
        ),
        c.bounding_box() == s.window_size ==> change_for(after_update(s, c), screen_w, screen_h).resize
            == None::<Placement>,
        after_apply(after_update(s, c)).wf(),
{
}

} // verus!
