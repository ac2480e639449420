use std::sync::mpsc;

use screencaster::capture::CaptureArea;
use screencaster::control::{
    toggle_annotation_tools, AnnotationTool, AppMode, FrameBuffer, HotkeyCommand, MyApp, DEFAULT_RECORDING_HEIGHT,
    DEFAULT_RECORDING_WIDTH, PREVIEW_INTERVAL_MILLIS, RECEIVED_FRAMES_KEPT,
};
use screencaster::frame::Frame;
use screencaster::hotkeys::HotkeyAction;
use screencaster::state::user_settings::Theme;

fn numbered(n: u8) -> Frame {
    Frame::new(1, 1, vec![n, n, n, n]).unwrap()
}

#[test]
fn application_starts_as_an_idle_receiver() {
    let app = MyApp::new();
    assert_eq!(app.mode, AppMode::Receiver);
    assert!(!app.is_caster());
    assert!(!app.flags.is_broadcasting());
    assert!(!app.flags.is_recording());
    assert!(!app.flags.is_receiving());
    assert!(app.capture.is_fullscreen());
    assert_eq!(*app.user_settings.get_theme(), Theme::Dark);
    assert_eq!(app.selected_tool, None);
    assert!(!app.preview_running);
    assert!(app.network.get_broadcast_stop_tx().is_none());
}

#[test]
fn theme_toggles_back_and_forth() {
    let mut app = MyApp::new();
    app.toggle_theme();
    assert_eq!(*app.user_settings.get_theme(), Theme::Light);
    app.toggle_theme();
    assert_eq!(*app.user_settings.get_theme(), Theme::Dark);
}

#[test]
fn mode_follows_set_caster() {
    let mut app = MyApp::new();
    app.set_caster(true);
    assert!(app.is_caster());
    assert_eq!(app.mode, AppMode::Caster);
    app.set_caster(false);
    assert!(!app.is_caster());
}

#[test]
fn status_names_what_is_captured() {
    let mut app = MyApp::new();
    assert_eq!(app.get_status_message(), "Fullscreen");
    app.capture.set_fullscreen(false);
    assert_eq!(app.get_status_message(), "Custom Area");
}

#[test]
fn status_lists_what_is_going_on() {
    let mut app = MyApp::new();
    app.flags.set_broadcasting(true);
    assert_eq!(app.get_status_message(), "Broadcasting | Fullscreen");
    app.flags.set_recording(true);
    assert_eq!(app.get_status_message(), "Broadcasting | Recording | Fullscreen");
    app.flags.set_receiving(true);
    app.capture.set_fullscreen(false);
    assert_eq!(app.get_status_message(), "Broadcasting | Recording | Receiving | Custom Area");
    app.flags.set_broadcasting(false);
    app.flags.set_recording(false);
    assert_eq!(app.get_status_message(), "Receiving | Custom Area");
}

#[test]
fn session_area_is_the_valid_area() {
    let mut app = MyApp::new();
    assert_eq!(app.session_capture_area(), None);
    app.capture.set_capture_area(Some(CaptureArea::new(1, 2, 3, 4)), 100, 100);
    assert_eq!(app.session_capture_area(), Some(CaptureArea::new(1, 2, 3, 4)));
    app.capture.set_capture_area(Some(CaptureArea::new(1, 2, 0, 4)), 100, 100);
    assert_eq!(app.session_capture_area(), None);
    app.capture.set_capture_area(None, 100, 100);
    assert_eq!(app.session_capture_area(), None);
}

#[test]
fn broadcast_starts_and_stops() {
    let mut app = MyApp::new();
    app.capture.set_capture_area(Some(CaptureArea::new(100, 100, 800, 600)), 1920, 1080);
    let (tx, rx) = mpsc::channel();
    assert_eq!(app.start_broadcast(tx), Some(CaptureArea::new(100, 100, 800, 600)));
    assert!(app.flags.is_broadcasting());
    assert!(!app.flags.is_recording());
    let stop = app.stop_broadcast().unwrap();
    assert!(!app.flags.is_broadcasting());
    assert!(rx.try_recv().is_err());
    stop.send(()).unwrap();
    assert!(rx.try_recv().is_ok());
}

#[test]
fn stopping_without_a_start_has_nothing_to_signal() {
    let mut app = MyApp::new();
    assert!(app.stop_broadcast().is_none());
    assert!(app.stop_recording().is_none());
    assert!(app.stop_recording_receiver().is_none());
    assert!(app.stop_receiving().is_none());
}

#[test]
fn recording_takes_the_size_of_what_is_captured() {
    let mut app = MyApp::new();
    let (tx, _rx) = mpsc::channel();
    assert_eq!(app.start_recording(tx, 1920, 1080), (None, 1920, 1080));
    assert!(app.flags.is_recording());
    assert!(app.stop_recording().is_some());
    assert!(!app.flags.is_recording());
    app.capture.set_capture_area(Some(CaptureArea::new(10, 20, 300, 200)), 1920, 1080);
    let (tx, rx) = mpsc::channel();
    assert_eq!(app.start_recording(tx, 1920, 1080), (Some(CaptureArea::new(10, 20, 300, 200)), 300, 200));
    app.stop_recording().unwrap().send(()).unwrap();
    assert!(rx.try_recv().is_ok());
}

#[test]
fn receiver_recording_takes_the_shown_size_or_the_default() {
    let mut app = MyApp::new();
    assert_eq!((DEFAULT_RECORDING_WIDTH, DEFAULT_RECORDING_HEIGHT), (1920, 1080));
    let (tx, _rx) = mpsc::channel();
    assert_eq!(app.start_recording_receiver(tx, None), (1920, 1080));
    assert!(app.flags.is_recording());
    let (tx, rx) = mpsc::channel();
    assert_eq!(app.start_recording_receiver(tx, Some((800, 600))), (800, 600));
    app.stop_recording_receiver().unwrap().send(()).unwrap();
    assert!(rx.try_recv().is_ok());
    assert!(!app.flags.is_recording());
}

#[test]
fn receiving_starts_with_the_caster_address() {
    let mut app = MyApp::new();
    app.network.set_address(String::from("10.1.2.3"));
    assert_eq!(app.start_receiving(), "10.1.2.3");
    assert!(app.flags.is_receiving());
    let (tx, rx) = mpsc::channel();
    app.network.set_stop_tx(Some(tx));
    app.stop_receiving().unwrap().send(()).unwrap();
    assert!(rx.try_recv().is_ok());
    assert!(!app.flags.is_receiving());
}

#[test]
fn shortcut_toggles_broadcast_and_recording() {
    let mut app = MyApp::new();
    assert_eq!(app.handle_hotkey_action(HotkeyAction::StartPauseBroadcast), HotkeyCommand::StartBroadcast);
    assert!(!app.flags.is_broadcasting());
    app.flags.set_broadcasting(true);
    assert_eq!(app.handle_hotkey_action(HotkeyAction::StartPauseBroadcast), HotkeyCommand::StopBroadcast);
    assert_eq!(app.handle_hotkey_action(HotkeyAction::StartStopRecording), HotkeyCommand::StartRecording);
    app.flags.set_recording(true);
    assert_eq!(app.handle_hotkey_action(HotkeyAction::StartStopRecording), HotkeyCommand::StopRecording);
}

#[test]
fn shortcut_changes_the_state() {
    let mut app = MyApp::new();
    assert_eq!(app.handle_hotkey_action(HotkeyAction::LockUnlockScreen), HotkeyCommand::Done);
    assert!(app.flags.is_screen_locked());
    assert_eq!(app.handle_hotkey_action(HotkeyAction::LockUnlockScreen), HotkeyCommand::Done);
    assert!(!app.flags.is_screen_locked());
    assert_eq!(app.handle_hotkey_action(HotkeyAction::ToggleAnnotation), HotkeyCommand::Done);
    assert!(app.flags.is_annotation_tools_active());
    assert_eq!(app.handle_hotkey_action(HotkeyAction::QuickCaptureSelection), HotkeyCommand::Done);
    assert!(app.ui_state.is_selecting_area());
    assert_eq!(app.handle_hotkey_action(HotkeyAction::SwitchMonitor), HotkeyCommand::Done);
    assert!(app.ui_state.is_showing_monitor_selection());
    assert_eq!(app.handle_hotkey_action(HotkeyAction::EndSession), HotkeyCommand::Exit);
}

#[test]
fn annotation_tools_toggle() {
    let mut app = MyApp::new();
    toggle_annotation_tools(&mut app);
    assert!(app.flags.is_annotation_tools_active());
    toggle_annotation_tools(&mut app);
    assert!(!app.flags.is_annotation_tools_active());
    app.selected_tool = Some(AnnotationTool::Arrow);
    assert_eq!(app.selected_tool, Some(AnnotationTool::Arrow));
}

#[test]
fn preview_starts_once() {
    let mut app = MyApp::new();
    app.capture.set_capture_area(Some(CaptureArea::new(0, 0, 5, 5)), 10, 10);
    assert_eq!(app.start_caster_preview_thread(), Some(Some(CaptureArea::new(0, 0, 5, 5))));
    assert!(app.preview_running);
    assert_eq!(app.start_caster_preview_thread(), None);
    assert!(app.stop_caster_preview_thread());
    assert!(!app.preview_running);
    assert!(!app.stop_caster_preview_thread());
    app.capture.set_capture_area(None, 10, 10);
    assert_eq!(app.start_caster_preview_thread(), Some(None));
}

#[test]
fn frame_buffer_hands_out_the_oldest_first() {
    let mut buffer = FrameBuffer::new();
    assert_eq!(buffer.len(), 0);
    assert_eq!(buffer.pop(), None);
    buffer.push(numbered(1));
    buffer.push(numbered(2));
    assert_eq!(buffer.len(), 2);
    assert_eq!(buffer.pop(), Some(numbered(1)));
    assert_eq!(buffer.pop(), Some(numbered(2)));
    assert_eq!(buffer.pop(), None);
}

#[test]
fn frame_buffer_keeps_the_newest_twenty() {
    assert_eq!(RECEIVED_FRAMES_KEPT, 20);
    assert_eq!(PREVIEW_INTERVAL_MILLIS, 200);
    let mut buffer = FrameBuffer::new();
    for n in 0..20 {
        buffer.push(numbered(n));
    }
    assert_eq!(buffer.len(), 20);
    buffer.push(numbered(20));
    assert_eq!(buffer.len(), 20);
    assert_eq!(buffer.pop(), Some(numbered(1)));
    buffer.push(numbered(21));
    buffer.push(numbered(22));
    assert_eq!(buffer.len(), 20);
    assert_eq!(buffer.pop(), Some(numbered(3)));
}

#[test]
fn frame_clone_is_equal() {
    let frame = numbered(9);
    assert_eq!(frame.clone(), frame);
}
