//! Tray and window lifecycle state machine.
//!
//! The agent lives in the system tray. Its externally visible state is the
//! main window's visibility together with whether the process has been
//! terminated. Tray menu selections and window events drive the state; the
//! binary performs the returned action (showing the window, spawning a
//! dispatch call, exiting the process) and the window close interception.

use vstd::prelude::*;
use crate::chars::str_eq;

verus! {

/// The four tray menu selections, as a closed variant set.
#[derive(Clone, Copy, Debug, PartialEq, Eq, Structural)]
pub enum TrayItem {
    Show,
    Start,
    Stop,
    Quit,
}

/// A tray event: a menu click, a double click on the icon, or anything else.
#[derive(Clone, Copy, Debug, PartialEq, Eq, Structural)]
pub enum TrayEvent {
    MenuClick(TrayItem),
    DoubleClick,
    Other,
}

/// A main-window event as far as this agent cares: a close request or not.
#[derive(Clone, Copy, Debug, PartialEq, Eq, Structural)]
pub enum WindowEventKind {
    CloseRequested,
    Other,
}

/// The lifecycle state the tray controller owns.
#[derive(Clone, Copy, Debug, PartialEq, Eq, Structural)]
pub struct PanelState {
    /// Whether the main window is visible (as opposed to hidden in the tray).
    pub window_visible: bool,
    /// Whether the process has been terminated by the quit selection.
    pub terminated: bool,
}

/// What the event loop must do after a transition.
#[derive(Clone, Copy, Debug, PartialEq, Eq, Structural)]
pub enum TrayAction {
    /// Show the main window and give it input focus.
    ShowAndFocus,
    /// Spawn a detached background start-worker dispatch call.
    DispatchStart,
    /// Spawn a detached background stop-worker dispatch call.
    DispatchStop,
    /// Terminate the process immediately.
    Exit,
    /// Do nothing.
    Ignore,
}

/// The transition for a tray event, as a mathematical function.
pub open spec fn tray_step_spec(s: PanelState, e: TrayEvent) -> (PanelState, TrayAction) {
    match e {
        TrayEvent::MenuClick(TrayItem::Show) => (
            PanelState { window_visible: true, ..s },
            TrayAction::ShowAndFocus,
        ),
        TrayEvent::MenuClick(TrayItem::Start) => (s, TrayAction::DispatchStart),
        TrayEvent::MenuClick(TrayItem::Stop) => (s, TrayAction::DispatchStop),
        TrayEvent::MenuClick(TrayItem::Quit) => (
            PanelState { window_visible: s.window_visible, terminated: true },
            TrayAction::Exit,
        ),
        TrayEvent::DoubleClick => (
            PanelState { window_visible: true, ..s },
            TrayAction::ShowAndFocus,
        ),
        TrayEvent::Other => (s, TrayAction::Ignore),
    }
}

/// The transition for a window event: a close request hides the window and
/// is suppressed; the process never terminates on it.
pub open spec fn window_step_spec(s: PanelState, e: WindowEventKind) -> (PanelState, bool) {
    match e {
        WindowEventKind::CloseRequested => (
            (PanelState { window_visible: false, ..s }),
            true,
        ),
        WindowEventKind::Other => (s, false),
    }
}

impl PanelState {
    /// The state at process start: window visible, process running.
    pub fn initial() -> (s: PanelState)
        ensures
            s == (PanelState { window_visible: true, terminated: false }),
    {
        PanelState { window_visible: true, terminated: false }
    }
}

/// Handle a tray event on the current state, returning the new state and
/// the action the event loop must perform.
pub fn handle_tray_event(s: PanelState, e: TrayEvent) -> (r: (PanelState, TrayAction))
    requires
        !s.terminated,
    ensures
        r == tray_step_spec(s, e),
{
    match e {
        TrayEvent::MenuClick(TrayItem::Show) => (
            PanelState { window_visible: true, ..s },
            TrayAction::ShowAndFocus,
        ),
        TrayEvent::MenuClick(TrayItem::Start) => (s, TrayAction::DispatchStart),
        TrayEvent::MenuClick(TrayItem::Stop) => (s, TrayAction::DispatchStop),
        TrayEvent::MenuClick(TrayItem::Quit) => (
            PanelState { window_visible: s.window_visible, terminated: true },
            TrayAction::Exit,
        ),
        TrayEvent::DoubleClick => (
            PanelState { window_visible: true, ..s },
            TrayAction::ShowAndFocus,
        ),
        TrayEvent::Other => (s, TrayAction::Ignore),
    }
}

/// Handle a window event: the returned flag says whether the close must be
/// suppressed (the window was hidden instead of the process closing).
pub fn handle_window_event(s: PanelState, e: WindowEventKind) -> (r: (PanelState, bool))
    requires
        !s.terminated,
    ensures
        r == window_step_spec(s, e),
{
    match e {
        WindowEventKind::CloseRequested => (
            (PanelState { window_visible: false, ..s }),
            true,
        ),
        WindowEventKind::Other => (s, false),
    }
}

/// One entry of the tray menu: a selectable item or a cosmetic separator.
#[derive(Clone, Copy, Debug, PartialEq, Eq, Structural)]
pub enum MenuEntry {
    Item(TrayItem),
    Separator,
}

/// The tray menu, top to bottom.
pub fn tray_menu() -> (m: Vec<MenuEntry>)
    ensures
        m@ == seq![
            MenuEntry::Item(TrayItem::Show),
            MenuEntry::Separator,
            MenuEntry::Item(TrayItem::Start),
            MenuEntry::Item(TrayItem::Stop),
            MenuEntry::Separator,
            MenuEntry::Item(TrayItem::Quit),
        ],
{
    let mut m: Vec<MenuEntry> = Vec::new();
    m.push(MenuEntry::Item(TrayItem::Show));
    m.push(MenuEntry::Separator);
    m.push(MenuEntry::Item(TrayItem::Start));
    m.push(MenuEntry::Item(TrayItem::Stop));
    m.push(MenuEntry::Separator);
    m.push(MenuEntry::Item(TrayItem::Quit));
    proof {
        assert(m@ =~= seq![
            MenuEntry::Item(TrayItem::Show),
            MenuEntry::Separator,
            MenuEntry::Item(TrayItem::Start),
            MenuEntry::Item(TrayItem::Stop),
            MenuEntry::Separator,
            MenuEntry::Item(TrayItem::Quit),
        ]);
    }
    m
}

/// The stable identifier of a menu item.
pub open spec fn menu_item_id_spec(t: TrayItem) -> Seq<char> {
    match t {
        TrayItem::Show => "show"@,
        TrayItem::Start => "start"@,
        TrayItem::Stop => "stop"@,
        TrayItem::Quit => "quit"@,
    }
}

/// The stable identifier of a menu item.
pub fn menu_item_id(t: TrayItem) -> (s: &'static str)
    ensures
        s@ == menu_item_id_spec(t),
{
    match t {
        TrayItem::Show => "show",
        TrayItem::Start => "start",
        TrayItem::Stop => "stop",
        TrayItem::Quit => "quit",
    }
}

/// The label a menu item shows.
pub open spec fn menu_item_label_spec(t: TrayItem) -> Seq<char> {
    match t {
        TrayItem::Show => "Abrir Painel"@,
        TrayItem::Start => "Iniciar Worker"@,
        TrayItem::Stop => "Parar Worker"@,
        TrayItem::Quit => "Sair"@,
    }
}

/// The label a menu item shows.
pub fn menu_item_label(t: TrayItem) -> (s: &'static str)
    ensures
        s@ == menu_item_label_spec(t),
{
    match t {
        TrayItem::Show => "Abrir Painel",
        TrayItem::Start => "Iniciar Worker",
        TrayItem::Stop => "Parar Worker",
        TrayItem::Quit => "Sair",
    }
}

/// Recover a menu item from its identifier: exactly the four known
/// identifiers map to an item, anything else to nothing.
pub fn tray_item_of_id(s: &str) -> (r: Option<TrayItem>)
    ensures
        match r {
            Some(t) => s@ == menu_item_id_spec(t),
            None => forall|t: TrayItem| s@ != menu_item_id_spec(t),
        },
{
    if str_eq(s, "show") {
        Some(TrayItem::Show)
    } else if str_eq(s, "start") {
        Some(TrayItem::Start)
    } else if str_eq(s, "stop") {
        Some(TrayItem::Stop)
    } else if str_eq(s, "quit") {
        Some(TrayItem::Quit)
    } else {
        proof {
            assert forall|t: TrayItem| s@ != menu_item_id_spec(t) by {
                match t {
                    TrayItem::Show => assert(s@ != "show"@),
                    TrayItem::Start => assert(s@ != "start"@),
                    TrayItem::Stop => assert(s@ != "stop"@),
                    TrayItem::Quit => assert(s@ != "quit"@),
                }
            }
        }
        None
    }
}

/// Selecting quit from the tray terminates the process, whatever the state.
pub proof fn lemma_quit_terminates(s: PanelState)
    ensures
        tray_step_spec(s, TrayEvent::MenuClick(TrayItem::Quit)).0.terminated,
        tray_step_spec(s, TrayEvent::MenuClick(TrayItem::Quit)).1 == TrayAction::Exit,
{
}

/// A window close request never terminates the process: it leaves the
/// window hidden, the process running, and the close suppressed.
pub proof fn lemma_close_never_terminates(s: PanelState)
    ensures
        !window_step_spec(s, WindowEventKind::CloseRequested).0.terminated || s.terminated,
        !window_step_spec(s, WindowEventKind::CloseRequested).0.window_visible,
        window_step_spec(s, WindowEventKind::CloseRequested).1,
{
}

/// Quit is the only tray event that terminates the process, and no window
/// event ever does.
pub proof fn lemma_only_quit_terminates(s: PanelState, e: TrayEvent, w: WindowEventKind)
    requires
        !s.terminated,
    ensures
        tray_step_spec(s, e).0.terminated <==> e == TrayEvent::MenuClick(TrayItem::Quit),
        !window_step_spec(s, w).0.terminated,
{
}

} // verus!
