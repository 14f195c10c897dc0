use renmap::app::{RenmapApp, UiAction, UiEvent};
use renmap::options::{AppInterface, ScanOptions, ScanParas};

#[test]
fn defaults_of_the_window() {
    let app = RenmapApp::default();
    assert_eq!(app.interface, AppInterface::Scan);
    assert!(!app.show_error_message);
    assert_eq!(app.error_message, "");
    assert_eq!(app.status_message, "ready");
    assert_eq!(app.scan_paras.target_addr, "192.168.1.2");
    assert_eq!(app.scan_paras.target_port, "22");
    assert_eq!(app.scan_paras.exclued_target_addr, "");
    assert_eq!(app.scan_paras.exclued_target_port, "");
    assert_eq!(app.scan_paras.timeout, "");
    assert!(!app.scan_paras.in_memory);
    assert!(!app.scan_paras.in_memroy_confirm);
}

#[test]
fn defaults_of_the_parts() {
    let o = ScanOptions::default();
    assert!(!o.fast_mode && !o.slow_mode && !o.no_ping);
    assert_eq!(AppInterface::default(), AppInterface::Scan);
    let p = ScanParas::default();
    assert_eq!(p.scan_options, ScanOptions::default());
}

#[test]
fn set_error_mssage_shows_the_text() {
    let mut app = RenmapApp::default();
    app.set_error_mssage("boom");
    assert!(app.show_error_message);
    assert_eq!(app.error_message, "boom");
    assert_eq!(app.status_message, "ready");
}

#[test]
fn menu_switches_screens() {
    let mut app = RenmapApp::default();
    assert_eq!(app.handle_event(UiEvent::OpenAbout), UiAction::Nothing);
    assert_eq!(app.interface, AppInterface::About);
    assert_eq!(app.handle_event(UiEvent::OpenScan), UiAction::Nothing);
    assert_eq!(app.interface, AppInterface::Scan);
}

#[test]
fn memory_mode_toggle_twice() {
    let mut app = RenmapApp::default();
    app.handle_event(UiEvent::ToggleMemoryMode);
    assert!(app.scan_paras.in_memory);
    assert!(app.scan_paras.in_memroy_confirm);
    app.handle_event(UiEvent::ToggleMemoryMode);
    assert!(!app.scan_paras.in_memory);
    assert!(app.scan_paras.in_memroy_confirm);
    assert!(!app.confirm_dialog_visible());
}

#[test]
fn memory_mode_needs_scan_screen() {
    let mut app = RenmapApp::default();
    app.handle_event(UiEvent::OpenAbout);
    app.handle_event(UiEvent::ToggleMemoryMode);
    assert!(!app.scan_paras.in_memory);
    assert!(!app.scan_paras.in_memroy_confirm);
}

#[test]
fn memory_mode_cancelled() {
    let mut app = RenmapApp::default();
    app.handle_event(UiEvent::ToggleMemoryMode);
    assert!(app.confirm_dialog_visible());
    assert_eq!(app.handle_event(UiEvent::CancelMemoryMode), UiAction::Nothing);
    assert!(!app.scan_paras.in_memory);
    assert!(!app.scan_paras.in_memroy_confirm);
    assert!(!app.confirm_dialog_visible());
}

#[test]
fn memory_mode_confirmed() {
    let mut app = RenmapApp::default();
    app.handle_event(UiEvent::ToggleMemoryMode);
    assert_eq!(app.handle_event(UiEvent::ConfirmMemoryMode), UiAction::DropStoredResults);
    assert!(app.scan_paras.in_memory);
    assert!(!app.scan_paras.in_memroy_confirm);
    assert!(!app.confirm_dialog_visible());
    // the dialog is gone: a second answer changes nothing
    assert_eq!(app.handle_event(UiEvent::ConfirmMemoryMode), UiAction::Nothing);
    assert_eq!(app.handle_event(UiEvent::CancelMemoryMode), UiAction::Nothing);
    assert!(app.scan_paras.in_memory);
}

#[test]
fn confirm_dialog_hidden_on_about_screen() {
    let mut app = RenmapApp::default();
    app.handle_event(UiEvent::ToggleMemoryMode);
    app.handle_event(UiEvent::OpenAbout);
    assert!(!app.confirm_dialog_visible());
    assert_eq!(app.handle_event(UiEvent::ConfirmMemoryMode), UiAction::Nothing);
    app.handle_event(UiEvent::OpenScan);
    assert!(app.confirm_dialog_visible());
}

#[test]
fn error_dismissed_keeps_text() {
    let mut app = RenmapApp::default();
    app.set_error_mssage("disk full");
    app.handle_event(UiEvent::DismissError);
    assert!(!app.show_error_message);
    assert_eq!(app.error_message, "disk full");
}

#[test]
fn start_scan_copies_the_form() {
    let mut app = RenmapApp::default();
    app.scan_paras.target_port = "8080".to_string();
    app.scan_paras.scan_options.no_ping = true;
    let job = app.start_scan();
    assert_eq!(job.target_addr, "192.168.1.2");
    assert_eq!(job.target_port, "8080");
    assert!(job.scan_options.no_ping);
    assert_eq!(app.status_message, "Scanning...");
    assert!(!app.show_error_message);
}

#[test]
fn finish_scan_replies() {
    let mut app = RenmapApp::default();
    app.finish_scan(Ok(String::new()));
    assert!(!app.show_error_message);
    assert_eq!(app.error_message, "");
    app.finish_scan(Ok("invalid IP address syntax".to_string()));
    assert!(app.show_error_message);
    assert_eq!(app.error_message, "invalid IP address syntax");
    let mut other = RenmapApp::default();
    other.finish_scan(Err("receiving on a closed channel".to_string()));
    assert!(other.show_error_message);
    assert_eq!(other.error_message, "receiving on a closed channel");
}
