use worker_panel::tray::{
    handle_tray_event, handle_window_event, tray_menu, menu_item_id, menu_item_label,
    tray_item_of_id, MenuEntry, PanelState, TrayAction, TrayEvent, TrayItem, WindowEventKind,
};

#[test]
fn quit_terminates_the_process() {
    let s = PanelState::initial();
    let (s2, a) = handle_tray_event(s, TrayEvent::MenuClick(TrayItem::Quit));
    assert!(s2.terminated);
    assert_eq!(a, TrayAction::Exit);
}

#[test]
fn close_request_hides_and_keeps_running() {
    let s = PanelState::initial();
    let (s2, suppressed) = handle_window_event(s, WindowEventKind::CloseRequested);
    assert!(!s2.terminated);
    assert!(!s2.window_visible);
    assert!(suppressed);
}

#[test]
fn close_then_quit_is_the_only_termination() {
    let s = PanelState::initial();
    let (hidden, _) = handle_window_event(s, WindowEventKind::CloseRequested);
    let (after_start, _) = handle_tray_event(hidden, TrayEvent::MenuClick(TrayItem::Start));
    let (after_stop, _) = handle_tray_event(after_start, TrayEvent::MenuClick(TrayItem::Stop));
    assert!(!after_stop.terminated);
    let (end, a) = handle_tray_event(after_stop, TrayEvent::MenuClick(TrayItem::Quit));
    assert!(end.terminated);
    assert_eq!(a, TrayAction::Exit);
}

#[test]
fn show_makes_the_window_visible_and_is_idempotent() {
    let s = PanelState { window_visible: false, terminated: false };
    let (s2, a) = handle_tray_event(s, TrayEvent::MenuClick(TrayItem::Show));
    assert!(s2.window_visible);
    assert_eq!(a, TrayAction::ShowAndFocus);
    let (s3, a2) = handle_tray_event(s2, TrayEvent::MenuClick(TrayItem::Show));
    assert_eq!(s3, s2);
    assert_eq!(a2, TrayAction::ShowAndFocus);
}

#[test]
fn double_click_acts_as_show() {
    let s = PanelState { window_visible: false, terminated: false };
    let (s2, a) = handle_tray_event(s, TrayEvent::DoubleClick);
    assert!(s2.window_visible);
    assert_eq!(a, TrayAction::ShowAndFocus);
}

#[test]
fn start_and_stop_spawn_dispatch_calls() {
    let s = PanelState::initial();
    let (s2, a) = handle_tray_event(s, TrayEvent::MenuClick(TrayItem::Start));
    assert_eq!(s2, s);
    assert_eq!(a, TrayAction::DispatchStart);
    let (s3, a2) = handle_tray_event(s, TrayEvent::MenuClick(TrayItem::Stop));
    assert_eq!(s3, s);
    assert_eq!(a2, TrayAction::DispatchStop);
}

#[test]
fn other_events_are_ignored() {
    let s = PanelState::initial();
    let (s2, a) = handle_tray_event(s, TrayEvent::Other);
    assert_eq!(s2, s);
    assert_eq!(a, TrayAction::Ignore);
    let (s3, suppressed) = handle_window_event(s, WindowEventKind::Other);
    assert_eq!(s3, s);
    assert!(!suppressed);
}

#[test]
fn menu_layout_matches_the_tray() {
    let m = tray_menu();
    assert_eq!(
        m,
        vec![
            MenuEntry::Item(TrayItem::Show),
            MenuEntry::Separator,
            MenuEntry::Item(TrayItem::Start),
            MenuEntry::Item(TrayItem::Stop),
            MenuEntry::Separator,
            MenuEntry::Item(TrayItem::Quit),
        ]
    );
}

#[test]
fn menu_ids_round_trip() {
    for t in [TrayItem::Show, TrayItem::Start, TrayItem::Stop, TrayItem::Quit] {
        assert_eq!(tray_item_of_id(menu_item_id(t)), Some(t));
    }
    assert_eq!(tray_item_of_id("restart"), None);
    assert_eq!(tray_item_of_id(""), None);
}

#[test]
fn menu_labels() {
    assert_eq!(menu_item_label(TrayItem::Show), "Abrir Painel");
    assert_eq!(menu_item_label(TrayItem::Start), "Iniciar Worker");
    assert_eq!(menu_item_label(TrayItem::Stop), "Parar Worker");
    assert_eq!(menu_item_label(TrayItem::Quit), "Sair");
}
