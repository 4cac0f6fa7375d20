use vstd::prelude::*;

verus! {

/// The state this backend tracks of the single main window. The host
/// framework owns the window; it reports whether one exists, whether it
/// is visible, and whether it holds input focus, and it carries the
/// transitions computed here back to the real window.
#[derive(Clone, Copy, PartialEq, Eq, Structural, Debug)]
pub struct WindowState {
    pub exists: bool,
    pub visible: bool,
    pub focused: bool,
}

/// Whether the main window counts as visible: a missing window — and a
/// window whose visibility the host cannot report — counts as hidden.
pub open spec fn spec_is_visible(w: WindowState) -> bool {
    w.exists && w.visible
}

/// The state after a show request: a present window becomes visible and
/// takes input focus; with no main window the request is a no-op.
pub open spec fn spec_show(w: WindowState) -> WindowState {
    if w.exists {
        WindowState { visible: true, focused: true, ..w }
    } else {
        w
    }
}

/// The state after a hide request: a present window becomes hidden and
/// gives up input focus; with no main window the request is a no-op.
pub open spec fn spec_hide(w: WindowState) -> WindowState {
    if w.exists {
        WindowState { visible: false, focused: false, ..w }
    } else {
        w
    }
}

/// The state after a toggle: hide a visible window, show a hidden one.
pub open spec fn spec_toggle(w: WindowState) -> WindowState {
    if spec_is_visible(w) {
        spec_hide(w)
    } else {
        spec_show(w)
    }
}

/// Reports the tracked visibility, hidden by default for a missing window.
pub fn is_main_window_visible(w: &WindowState) -> (r: bool)
    ensures
        r == spec_is_visible(*w),
{
    w.exists && w.visible
}

/// Makes the main window visible and focused; succeeds as a no-op when
/// no main window exists.
pub fn show_main_window(w: &mut WindowState)
    ensures
        *final(w) == spec_show(*old(w)),
{
    if w.exists {
        w.visible = true;
        w.focused = true;
    }
}

/// Hides the main window; succeeds as a no-op when no main window exists.
pub fn hide_main_window(w: &mut WindowState)
    ensures
        *final(w) == spec_hide(*old(w)),
{
    if w.exists {
        w.visible = false;
        w.focused = false;
    }
}

/// Hides the main window if it is visible, else shows and focuses it.
pub fn toggle_main_window(w: &mut WindowState)
    ensures
        *final(w) == spec_toggle(*old(w)),
{
    if is_main_window_visible(w) {
        hide_main_window(w);
    } else {
        show_main_window(w);
    }
}

/// Toggling a hidden-but-present window makes it visible and focused;
/// toggling a visible one hides it; and toggling twice restores the
/// original visibility, whatever the starting state.
pub proof fn lemma_toggle(w: WindowState)
    ensures
        w.exists && !spec_is_visible(w) ==> spec_toggle(w).visible && spec_toggle(w).focused,
        spec_is_visible(w) ==> !spec_toggle(w).visible,
        spec_toggle(spec_toggle(w)).visible == w.visible,
        spec_toggle(spec_toggle(w)).exists == w.exists,
{
}

} // verus!
