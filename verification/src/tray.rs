use vstd::prelude::*;
use crate::window::{WindowState, spec_show, spec_hide, spec_toggle, spec_is_visible,
    show_main_window, hide_main_window};

verus! {

/// The three fixed entries of the tray menu.
#[derive(Clone, Copy, PartialEq, Eq, Structural, Debug)]
pub enum MenuId {
    Show,
    Hide,
    Quit,
}

/// Mouse button of a tray-icon click, as the host reports it.
#[derive(Clone, Copy, PartialEq, Eq, Structural, Debug)]
pub enum TrayButton {
    Left,
    Right,
    Middle,
}

/// Whether the reported click is the press or the release.
#[derive(Clone, Copy, PartialEq, Eq, Structural, Debug)]
pub enum TrayButtonState {
    Up,
    Down,
}

/// A tray or menu event as the host delivers it: a menu selection (with
/// `None` for an id outside the fixed menu), a click on the tray icon,
/// or any other tray event.
#[derive(Clone, Copy, PartialEq, Eq, Structural, Debug)]
pub enum TrayEvent {
    MenuSelect(Option<MenuId>),
    IconClick(TrayButton, TrayButtonState),
    OtherEvent,
}

/// What the host is to do in reaction to a tray event. `Quit` carries
/// the process exit code.
#[derive(Clone, Copy, PartialEq, Eq, Structural, Debug)]
pub enum TrayAction {
    ShowWindow,
    HideWindow,
    Quit(i32),
    Ignore,
}

/// The tray fan-out table: Show and Hide menu entries drive the window,
/// Quit ends the process with exit code 0, a left-click release on the
/// icon toggles the window against its current visibility, and every
/// other event is ignored.
pub open spec fn spec_tray_action(e: TrayEvent, visible: bool) -> TrayAction {
    match e {
        TrayEvent::MenuSelect(Some(MenuId::Show)) => TrayAction::ShowWindow,
        TrayEvent::MenuSelect(Some(MenuId::Hide)) => TrayAction::HideWindow,
        TrayEvent::MenuSelect(Some(MenuId::Quit)) => TrayAction::Quit(0),
        TrayEvent::IconClick(TrayButton::Left, TrayButtonState::Up) => if visible {
            TrayAction::HideWindow
        } else {
            TrayAction::ShowWindow
        },
        _ => TrayAction::Ignore,
    }
}

/// Picks the action for one tray event, given the current visibility of
/// the main window.
pub fn tray_action(e: &TrayEvent, visible: bool) -> (a: TrayAction)
    ensures
        a == spec_tray_action(*e, visible),
{
    match e {
        TrayEvent::MenuSelect(Some(MenuId::Show)) => TrayAction::ShowWindow,
        TrayEvent::MenuSelect(Some(MenuId::Hide)) => TrayAction::HideWindow,
        TrayEvent::MenuSelect(Some(MenuId::Quit)) => TrayAction::Quit(0),
        TrayEvent::IconClick(TrayButton::Left, TrayButtonState::Up) => {
            if visible {
                TrayAction::HideWindow
            } else {
                TrayAction::ShowWindow
            }
        },
        _ => TrayAction::Ignore,
    }
}

/// The window state an action leaves behind: `Quit` and `Ignore` touch
/// the window not at all; window errors inside the handlers are the
/// host's to swallow, so an action never fails.
pub open spec fn spec_apply_action(a: TrayAction, w: WindowState) -> WindowState {
    match a {
        TrayAction::ShowWindow => spec_show(w),
        TrayAction::HideWindow => spec_hide(w),
        TrayAction::Quit(_) => w,
        TrayAction::Ignore => w,
    }
}

/// Carries an action out on the tracked window state.
pub fn apply_tray_action(a: &TrayAction, w: &mut WindowState)
    ensures
        *final(w) == spec_apply_action(*a, *old(w)),
{
    match a {
        TrayAction::ShowWindow => show_main_window(w),
        TrayAction::HideWindow => hide_main_window(w),
        TrayAction::Quit(_) => (),
        TrayAction::Ignore => (),
    }
}

/// A left-click release on the tray icon, dispatched against the
/// window's current visibility, toggles the window: it shows and
/// focuses a hidden window and hides a visible one.
pub proof fn lemma_left_click_toggles(w: WindowState)
    ensures
        spec_apply_action(
            spec_tray_action(TrayEvent::IconClick(TrayButton::Left, TrayButtonState::Up),
                spec_is_visible(w)),
            w,
        ) == spec_toggle(w),
{
}

/// Selecting Quit yields process termination with exit code 0, whatever
/// the window's state, and leaves the window state untouched on the way.
pub proof fn lemma_quit_unconditional(visible: bool, w: WindowState)
    ensures
        spec_tray_action(TrayEvent::MenuSelect(Some(MenuId::Quit)), visible)
            == TrayAction::Quit(0),
        spec_apply_action(TrayAction::Quit(0), w) == w,
{
}

/// Character-wise string comparison, exact for any two strings.
fn str_eq(a: &str, b: &str) -> (r: bool)
    ensures
        r == (a@ == b@),
{
    let alen = a.unicode_len();
    let blen = b.unicode_len();
    if alen != blen {
        return false;
    }
    let mut i: usize = 0;
    while i < alen
        invariant
            alen == a@.len(),
            blen == b@.len(),
            alen == blen,
            i <= alen,
            forall|j: int| 0 <= j < i ==> a@[j] == b@[j],
        decreases alen - i,
    {
        if a.get_char(i) != b.get_char(i) {
            return false;
        }
        i += 1;
    }
    proof {
        assert(a@ =~= b@);
    }
    true
}

/// Maps a menu id string from the host back to the fixed menu entry it
/// names; any other id belongs to no entry of this menu.
pub fn menu_id_of(s: &str) -> (r: Option<MenuId>)
    ensures
        s@ == "show"@ ==> r == Some(MenuId::Show),
        s@ == "hide"@ ==> r == Some(MenuId::Hide),
        s@ == "quit"@ ==> r == Some(MenuId::Quit),
        s@ != "show"@ && s@ != "hide"@ && s@ != "quit"@ ==> r is None,
{
    proof {
        reveal_strlit("show");
        reveal_strlit("hide");
        reveal_strlit("quit");
        assert("show"@[0] == 's');
        assert("hide"@[0] == 'h');
        assert("quit"@[0] == 'q');
        assert("show"@ != "hide"@);
        assert("show"@ != "quit"@);
        assert("hide"@ != "quit"@);
    }
    if str_eq(s, "show") {
        Some(MenuId::Show)
    } else if str_eq(s, "hide") {
        Some(MenuId::Hide)
    } else if str_eq(s, "quit") {
        Some(MenuId::Quit)
    } else {
        None
    }
}

/// The id string under which each fixed menu entry is registered.
pub open spec fn spec_menu_id_str(id: MenuId) -> Seq<char> {
    match id {
        MenuId::Show => "show"@,
        MenuId::Hide => "hide"@,
        MenuId::Quit => "quit"@,
    }
}

/// The registration id string of a menu entry.
pub fn menu_id_str(id: MenuId) -> (s: &'static str)
    ensures
        s@ == spec_menu_id_str(id),
{
    match id {
        MenuId::Show => "show",
        MenuId::Hide => "hide",
        MenuId::Quit => "quit",
    }
}

/// The label each fixed menu entry carries.
pub open spec fn spec_menu_label(id: MenuId) -> Seq<char> {
    match id {
        MenuId::Show => "Show HiroTrack"@,
        MenuId::Hide => "Hide to Tray"@,
        MenuId::Quit => "Quit"@,
    }
}

/// The visible label of a menu entry.
pub fn menu_label(id: MenuId) -> (s: &'static str)
    ensures
        s@ == spec_menu_label(id),
{
    match id {
        MenuId::Show => "Show HiroTrack",
        MenuId::Hide => "Hide to Tray",
        MenuId::Quit => "Quit",
    }
}

/// One entry of the static tray menu.
pub struct TrayMenuItem {
    pub id: MenuId,
    pub label: String,
    pub enabled: bool,
}

/// Builds the static three-entry menu — Show, Hide, Quit, in that order,
/// all enabled, each under its label. It is built once at startup and
/// never changes afterwards.
pub fn tray_menu_items() -> (items: Vec<TrayMenuItem>)
    ensures
        items@.len() == 3,
        items@[0].id == MenuId::Show,
        items@[1].id == MenuId::Hide,
        items@[2].id == MenuId::Quit,
        forall|j: int| 0 <= j < 3 ==> (#[trigger] items@[j]).enabled
            && items@[j].label@ == spec_menu_label(items@[j].id),
{
    let mut items: Vec<TrayMenuItem> = Vec::new();
    items.push(TrayMenuItem {
        id: MenuId::Show,
        label: String::from_str(menu_label(MenuId::Show)),
        enabled: true,
    });
    items.push(TrayMenuItem {
        id: MenuId::Hide,
        label: String::from_str(menu_label(MenuId::Hide)),
        enabled: true,
    });
    items.push(TrayMenuItem {
        id: MenuId::Quit,
        label: String::from_str(menu_label(MenuId::Quit)),
        enabled: true,
    });
    items
}

/// The state this backend tracks of the tray icon: whether the host has
/// one registered, and the tooltip it was last given.
pub struct TrayState {
    pub exists: bool,
    pub tooltip: Option<String>,
}

/// The tray as it is configured at startup: registered, with the
/// application tooltip.
pub fn initial_tray_state() -> (t: TrayState)
    ensures
        t.exists,
        t.tooltip matches Some(s) && s@ == "HiroTrack - Time Tracker"@,
{
    TrayState { exists: true, tooltip: Some(String::from_str("HiroTrack - Time Tracker")) }
}

/// Replaces the tray tooltip; with no tray registered the request is a
/// no-op and still succeeds.
pub fn update_tray_tooltip(t: &mut TrayState, tooltip: String)
    ensures
        final(t).exists == old(t).exists,
        old(t).exists ==> final(t).tooltip == Some(tooltip),
        !old(t).exists ==> final(t).tooltip == old(t).tooltip,
{
    if t.exists {
        t.tooltip = Some(tooltip);
    }
}

} // verus!
