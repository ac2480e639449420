//! The control layer: the application's state and what each request of
//! the user changes in it.

use vstd::prelude::*;
use vstd::string::*;
use std::collections::VecDeque;
use std::sync::mpsc::Sender;
use crate::capture::CaptureArea;
use crate::frame::Frame;
use crate::hotkeys::HotkeyAction;
use crate::state::app_flags::{AppFlags, AppFlagsView};
use crate::state::capture_state::{CaptureState, CaptureStateView};
use crate::state::network_state::{NetworkState, NetworkStateView};
use crate::state::ui_state::{UIState, UIStateView};
use crate::state::user_settings::{Theme, UserSettings};

verus! {

/// Which side of the stream this machine is.
#[derive(Clone, Copy, Debug, PartialEq, Eq)]
pub enum AppMode {
    Caster,
    Receiver,
}

/// The tool that draws the next annotation.
#[derive(Clone, Copy, Debug, PartialEq, Eq)]
pub enum AnnotationTool {
    Segment,
    Circle,
    Rectangle,
    Arrow,
    Pencil,
    Highlighter,
    Text,
    Eraser,
    Crop,
}

/// How many received frames are kept for the receiver's recording.
pub const RECEIVED_FRAMES_KEPT: usize = 20;

/// The width of the receiver's recording while nothing has been shown yet.
pub const DEFAULT_RECORDING_WIDTH: usize = 1920;

/// The height of the receiver's recording while nothing has been shown yet.
pub const DEFAULT_RECORDING_HEIGHT: usize = 1080;

/// The time between two frames of the caster's preview, in milliseconds.
pub const PREVIEW_INTERVAL_MILLIS: u64 = 200;

/// The frames after one more has arrived: the oldest leaves when more
/// than `RECEIVED_FRAMES_KEPT` would be kept.
pub open spec fn kept_after(frames: Seq<Frame>, frame: Frame) -> Seq<Frame> {
    let all = frames.push(frame);
    if all.len() > RECEIVED_FRAMES_KEPT {
        all.subrange(1, all.len() as int)
    } else {
        all
    }
}

/// The received frames that wait for the recording, oldest first.
pub struct FrameBuffer {
    frames: VecDeque<Frame>,
}

impl View for FrameBuffer {
    type V = Seq<Frame>;

    closed spec fn view(&self) -> Seq<Frame> {
        self.frames@
    }
}

impl FrameBuffer {
    pub fn new() -> (buffer: FrameBuffer)
        ensures
            buffer@ == Seq::<Frame>::empty(),
    {
        FrameBuffer { frames: VecDeque::new() }
    }

    pub fn len(&self) -> (n: usize)
        ensures
            n == self@.len(),
    {
        self.frames.len()
    }

    /// Takes a frame that has arrived.
    pub fn push(&mut self, frame: Frame)
        ensures
            final(self)@ == kept_after(old(self)@, frame),
    {
        self.frames.push_back(frame);
        if self.frames.len() > RECEIVED_FRAMES_KEPT {
            let _ = self.frames.pop_front();
        }
    }

    /// Hands out the oldest frame.
    pub fn pop(&mut self) -> (frame: Option<Frame>)
        ensures
            match frame {
                Some(f) => old(self)@.len() > 0 && f == old(self)@[0] && final(self)@ == old(self)@.subrange(
                    1,
                    old(self)@.len() as int,
                ),
                None => old(self)@.len() == 0 && final(self)@ == old(self)@,
            },
    {
        self.frames.pop_front()
    }
}

/// What the application has to carry out after a shortcut.
#[derive(Clone, Copy, Debug, PartialEq, Eq)]
pub enum HotkeyCommand {
    StartBroadcast,
    StopBroadcast,
    StartRecording,
    StopRecording,
    /// End the process.
    Exit,
    /// Nothing more: the state has been changed.
    Done,
}

/// The application's state as a mathematical value.
pub struct MyAppView {
    pub mode: AppMode,
    pub network: NetworkStateView,
    pub capture: CaptureStateView,
    pub ui_state: UIStateView,
    pub flags: AppFlagsView,
    pub theme: Theme,
    pub selected_tool: Option<AnnotationTool>,
    pub preview_running: bool,
}

/// The application's state.
pub struct MyApp {
    pub mode: AppMode,
    pub network: NetworkState,
    pub capture: CaptureState,
    pub ui_state: UIState,
    pub flags: AppFlags,
    pub user_settings: UserSettings,
    pub selected_tool: Option<AnnotationTool>,
    pub preview_running: bool,
}

impl View for MyApp {
    type V = MyAppView;

    open spec fn view(&self) -> MyAppView {
        MyAppView {
            mode: self.mode,
            network: self.network@,
            capture: self.capture@,
            ui_state: self.ui_state@,
            flags: self.flags@,
            theme: self.user_settings.theme(),
            selected_tool: self.selected_tool,
            preview_running: self.preview_running,
        }
    }
}

/// The area that a session captures: the chosen one if it holds a pixel,
/// else the whole screen.
pub open spec fn session_area(capture: CaptureStateView) -> Option<CaptureArea> {
    match capture.capture_area {
        Some(area) => if area.valid() {
            Some(area)
        } else {
            None
        },
        None => None,
    }
}

/// The other theme.
pub open spec fn other_theme(theme: Theme) -> Theme {
    match theme {
        Theme::Light => Theme::Dark,
        Theme::Dark => Theme::Light,
    }
}

/// The status line: what is going on, then what is captured, with bars
/// between them.
pub open spec fn status_spec(flags: AppFlagsView, fullscreen: bool) -> Seq<char> {
    (if flags.broadcasting {
        "Broadcasting | "@
    } else {
        Seq::<char>::empty()
    }) + (if flags.recording {
        "Recording | "@
    } else {
        Seq::<char>::empty()
    }) + (if flags.receiving {
        "Receiving | "@
    } else {
        Seq::<char>::empty()
    }) + (if fullscreen {
        "Fullscreen"@
    } else {
        "Custom Area"@
    })
}

/// The state after a shortcut, and what is left to carry out.
pub open spec fn after_hotkey(app: MyAppView, action: HotkeyAction) -> (MyAppView, HotkeyCommand) {
    match action {
        HotkeyAction::StartPauseBroadcast => (
            app,
            if app.flags.broadcasting {
                HotkeyCommand::StopBroadcast
            } else {
                HotkeyCommand::StartBroadcast
            },
        ),
        HotkeyAction::StartStopRecording => (
            app,
            if app.flags.recording {
                HotkeyCommand::StopRecording
            } else {
                HotkeyCommand::StartRecording
            },
        ),
        HotkeyAction::LockUnlockScreen => (
            MyAppView { flags: AppFlagsView { screen_locked: !app.flags.screen_locked, ..app.flags }, ..app },
            HotkeyCommand::Done,
        ),
        HotkeyAction::ToggleAnnotation => (
            MyAppView {
                flags: AppFlagsView { annotation_tools_active: !app.flags.annotation_tools_active, ..app.flags },
                ..app
            },
            HotkeyCommand::Done,
        ),
        HotkeyAction::QuickCaptureSelection => (
            MyAppView { ui_state: UIStateView { selecting_area: true, ..app.ui_state }, ..app },
            HotkeyCommand::Done,
        ),
        HotkeyAction::EndSession => (app, HotkeyCommand::Exit),
        HotkeyAction::SwitchMonitor => (
            MyAppView { ui_state: UIStateView { show_monitor_selection: true, ..app.ui_state }, ..app },
            HotkeyCommand::Done,
        ),
    }
}

impl MyApp {
    /// The application at start: a receiver with nothing going on.
    pub fn new() -> (app: MyApp)
        ensures
            app@.mode == AppMode::Receiver,
            app@.capture == (CaptureStateView {
                capture_area: Some(CaptureArea { x: 0, y: 0, width: 0, height: 0 }),
                fullscreen: true,
            }),
            app@.ui_state == (UIStateView {
                selecting_area: false,
                show_confirmation_dialog: false,
                show_monitor_selection: false,
                show_shortcuts_menu: false,
                show_caster_preview_window: false,
            }),
            app@.flags == (AppFlagsView {
                annotation_tools_active: false,
                recording: false,
                broadcasting: false,
                receiving: false,
                screen_locked: false,
            }),
            app@.theme == Theme::Dark,
            app@.selected_tool is None,
            !app@.preview_running,
            app@.network.stop_tx is None,
            app@.network.broadcast_stop_tx is None,
            app@.network.record_stop_tx is None,
    {
        MyApp {
            mode: AppMode::Receiver,
            network: NetworkState::new(),
            capture: CaptureState::new(),
            ui_state: UIState::new(),
            flags: AppFlags::new(),
            user_settings: UserSettings::new(),
            selected_tool: None,
            preview_running: false,
        }
    }

    /// Switches between the light and the dark theme.
    pub fn toggle_theme(&mut self)
        ensures
            final(self)@ == (MyAppView { theme: other_theme(old(self)@.theme), ..old(self)@ }),
    {
        let next = match self.user_settings.get_theme() {
            Theme::Light => Theme::Dark,
            Theme::Dark => Theme::Light,
        };
        self.user_settings.set_theme(next);
    }

    /// The status line.
    pub fn get_status_message(&self) -> (status: String)
        ensures
            status@ == status_spec(self@.flags, self@.capture.fullscreen),
    {
        let mut status = String::from_str("");
        proof {
            reveal_strlit("");
            assert(status@ =~= Seq::<char>::empty());
        }
        if self.flags.is_broadcasting() {
            status.append("Broadcasting | ");
        }
        if self.flags.is_recording() {
            status.append("Recording | ");
        }
        if self.flags.is_receiving() {
            status.append("Receiving | ");
        }
        if self.capture.is_fullscreen() {
            status.append("Fullscreen");
        } else {
            status.append("Custom Area");
        }
        assert(status@ =~= status_spec(self@.flags, self@.capture.fullscreen));
        status
    }

    pub fn set_caster(&mut self, value: bool)
        ensures
            final(self)@ == (MyAppView {
                mode: if value {
                    AppMode::Caster
                } else {
                    AppMode::Receiver
                },
                ..old(self)@
            }),
    {
        self.mode = if value {
            AppMode::Caster
        } else {
            AppMode::Receiver
        };
    }

    pub fn is_caster(&self) -> (b: bool)
        ensures
            b == (self@.mode == AppMode::Caster),
    {
        match self.mode {
            AppMode::Caster => true,
            AppMode::Receiver => false,
        }
    }

    /// The area that a session started now captures.
    pub fn session_capture_area(&self) -> (area: Option<CaptureArea>)
        ensures
            area == session_area(self@.capture),
    {
        match self.capture.get_capture_area() {
            Some(a) => if a.is_valid() {
                Some(*a)
            } else {
                None
            },
            None => None,
        }
    }

    /// Marks the broadcast as started and keeps the sender of its stop
    /// signal. Returns the area that the broadcast captures.
    pub fn start_broadcast(&mut self, stop_tx: Sender<()>) -> (area: Option<CaptureArea>)
        ensures
            area == session_area(old(self)@.capture),
            final(self)@ == (MyAppView {
                flags: AppFlagsView { broadcasting: true, ..old(self)@.flags },
                network: NetworkStateView { broadcast_stop_tx: Some(stop_tx), ..old(self)@.network },
                ..old(self)@
            }),
    {
        self.flags.set_broadcasting(true);
        let area = self.session_capture_area();
        self.network.set_broadcast_stop_tx(Some(stop_tx));
        area
    }

    /// Marks the broadcast as stopped. Returns the sender on which the
    /// stop signal is to be sent, if a broadcast was started.
    pub fn stop_broadcast(&mut self) -> (stop_tx: Option<Sender<()>>)
        ensures
            stop_tx == old(self)@.network.broadcast_stop_tx,
            final(self)@ == (MyAppView { flags: AppFlagsView { broadcasting: false, ..old(self)@.flags }, ..old(self)@ }),
    {
        self.flags.set_broadcasting(false);
        self.network.get_broadcast_stop_tx()
    }

    /// Marks the recording as started and keeps the sender of its stop
    /// signal. Returns the area to capture and the size of the recording:
    /// the area's, or the display's where the whole screen is captured.
    pub fn start_recording(&mut self, stop_tx: Sender<()>, display_width: usize, display_height: usize) -> (plan: (
        Option<CaptureArea>,
        usize,
        usize,
    ))
        ensures
            plan.0 == session_area(old(self)@.capture),
            (plan.1, plan.2) == match session_area(old(self)@.capture) {
                Some(area) => (area.width, area.height),
                None => (display_width, display_height),
            },
            final(self)@ == (MyAppView {
                flags: AppFlagsView { recording: true, ..old(self)@.flags },
                network: NetworkStateView { record_stop_tx: Some(stop_tx), ..old(self)@.network },
                ..old(self)@
            }),
    {
        self.flags.set_recording(true);
        let area = self.session_capture_area();
        self.network.set_record_stop_tx(Some(stop_tx));
        let size = crate::capture::get_capture_dimensions(&area, display_width, display_height);
        (area, size.0, size.1)
    }

    /// Marks the recording as stopped. Returns the sender on which the
    /// stop signal is to be sent, if a recording was started.
    pub fn stop_recording(&mut self) -> (stop_tx: Option<Sender<()>>)
        ensures
            stop_tx == old(self)@.network.record_stop_tx,
            final(self)@ == (MyAppView { flags: AppFlagsView { recording: false, ..old(self)@.flags }, ..old(self)@ }),
    {
        self.flags.set_recording(false);
        self.network.get_record_stop_tx()
    }

    /// Marks the receiver's recording as started and keeps the sender of
    /// its stop signal. Returns the size of the recording: that of the
    /// image on show, or the default where nothing is shown yet.
    pub fn start_recording_receiver(&mut self, stop_tx: Sender<()>, shown: Option<(usize, usize)>) -> (size: (
        usize,
        usize,
    ))
        ensures
            size == match shown {
                Some(s) => s,
                None => (DEFAULT_RECORDING_WIDTH, DEFAULT_RECORDING_HEIGHT),
            },
            final(self)@ == (MyAppView {
                flags: AppFlagsView { recording: true, ..old(self)@.flags },
                network: NetworkStateView { record_stop_tx: Some(stop_tx), ..old(self)@.network },
                ..old(self)@
            }),
    {
        self.flags.set_recording(true);
        self.network.set_record_stop_tx(Some(stop_tx));
        match shown {
            Some(s) => s,
            None => (DEFAULT_RECORDING_WIDTH, DEFAULT_RECORDING_HEIGHT),
        }
    }

    /// Marks the receiver's recording as stopped. Returns the sender on
    /// which the stop signal is to be sent, if a recording was started.
    pub fn stop_recording_receiver(&mut self) -> (stop_tx: Option<Sender<()>>)
        ensures
            stop_tx == old(self)@.network.record_stop_tx,
            final(self)@ == (MyAppView { flags: AppFlagsView { recording: false, ..old(self)@.flags }, ..old(self)@ }),
    {
        self.flags.set_recording(false);
        self.network.get_record_stop_tx()
    }

    /// Marks the receiving session as started. Returns the address of the
    /// caster to connect to.
    pub fn start_receiving(&mut self) -> (address: String)
        ensures
            address@ == old(self)@.network.address,
            final(self)@ == (MyAppView { flags: AppFlagsView { receiving: true, ..old(self)@.flags }, ..old(self)@ }),
    {
        self.flags.set_receiving(true);
        String::from_str(self.network.get_address())
    }

    /// Marks the receiving session as stopped. Returns the sender on
    /// which the stop signal is to be sent, if one is kept.
    pub fn stop_receiving(&mut self) -> (stop_tx: Option<Sender<()>>)
        ensures
            stop_tx == old(self)@.network.stop_tx,
            final(self)@ == (MyAppView { flags: AppFlagsView { receiving: false, ..old(self)@.flags }, ..old(self)@ }),
    {
        self.flags.set_receiving(false);
        self.network.get_stop_tx()
    }

    /// Applies a shortcut: what only changes the state is done here, what
    /// starts or stops a session or ends the process is handed back.
    pub fn handle_hotkey_action(&mut self, action: HotkeyAction) -> (command: HotkeyCommand)
        ensures
            (final(self)@, command) == after_hotkey(old(self)@, action),
    {
        match action {
            HotkeyAction::StartPauseBroadcast => {
                if self.flags.is_broadcasting() {
                    HotkeyCommand::StopBroadcast
                } else {
                    HotkeyCommand::StartBroadcast
                }
            },
            HotkeyAction::StartStopRecording => {
                if self.flags.is_recording() {
                    HotkeyCommand::StopRecording
                } else {
                    HotkeyCommand::StartRecording
                }
            },
            HotkeyAction::LockUnlockScreen => {
                let new_state = !self.flags.is_screen_locked();
                self.flags.set_screen_locked(new_state);
                HotkeyCommand::Done
            },
            HotkeyAction::ToggleAnnotation => {
                let new_state = !self.flags.is_annotation_tools_active();
                self.flags.set_annotation_tools_active(new_state);
                HotkeyCommand::Done
            },
            HotkeyAction::QuickCaptureSelection => {
                self.ui_state.set_selecting_area(true);
                HotkeyCommand::Done
            },
            HotkeyAction::EndSession => HotkeyCommand::Exit,
            HotkeyAction::SwitchMonitor => {
                self.ui_state.set_showing_monitor_selection(true);
                HotkeyCommand::Done
            },
        }
    }

    /// Asks for the caster's preview. Returns the area to capture for it,
    /// or `None` with nothing changed if the preview is running already.
    pub fn start_caster_preview_thread(&mut self) -> (start: Option<Option<CaptureArea>>)
        ensures
            start == if old(self)@.preview_running {
                None
            } else {
                Some(session_area(old(self)@.capture))
            },
            final(self)@ == (MyAppView { preview_running: true, ..old(self)@ }),
    {
        if self.preview_running {
            return None;
        }
        self.preview_running = true;
        Some(self.session_capture_area())
    }

    /// Ends the caster's preview. Returns whether one was running.
    pub fn stop_caster_preview_thread(&mut self) -> (was_running: bool)
        ensures
            was_running == old(self)@.preview_running,
            final(self)@ == (MyAppView { preview_running: false, ..old(self)@ }),
    {
        let was_running = self.preview_running;
        self.preview_running = false;
        was_running
    }
}

/// Switches the annotation tools on or off.
pub fn toggle_annotation_tools(app: &mut MyApp)
    ensures
        final(app)@ == (MyAppView {
            flags: AppFlagsView {
                annotation_tools_active: !old(app)@.flags.annotation_tools_active,
                ..old(app)@.flags
            },
            ..old(app)@
        }),
{
    let active = app.flags.is_annotation_tools_active();
    app.flags.set_annotation_tools_active(!active);
}

} // verus!
