use global_hotkey::hotkey::{Code, HotKey, Modifiers};
use screencaster::hotkeys::{
    get_shortcuts, is_whitespace, parse_key_combination, HotkeyAction, HotkeyError, HotkeyKey, HotkeyManager,
    HotkeySettings, KeyCombination,
};
use screencaster::transcription::Transcriber;

fn both(key: HotkeyKey) -> KeyCombination {
    KeyCombination { ctrl: true, shift: true, key }
}

#[test]
fn parses_the_default_shortcuts() {
    assert_eq!(parse_key_combination("Ctrl+Shift+B"), Ok(both(HotkeyKey::B)));
    assert_eq!(parse_key_combination("Ctrl+Shift+R"), Ok(both(HotkeyKey::R)));
    assert_eq!(parse_key_combination("Ctrl+Shift+L"), Ok(both(HotkeyKey::L)));
    assert_eq!(parse_key_combination("Ctrl+Shift+A"), Ok(both(HotkeyKey::A)));
    assert_eq!(parse_key_combination("Ctrl+Shift+S"), Ok(both(HotkeyKey::S)));
    assert_eq!(parse_key_combination("Ctrl+Shift+Q"), Ok(both(HotkeyKey::Q)));
    assert_eq!(parse_key_combination("Ctrl+Shift+M"), Ok(both(HotkeyKey::M)));
}

#[test]
fn parses_fewer_modifiers() {
    assert_eq!(parse_key_combination("B"), Ok(KeyCombination { ctrl: false, shift: false, key: HotkeyKey::B }));
    assert_eq!(parse_key_combination("Ctrl+Q"), Ok(KeyCombination { ctrl: true, shift: false, key: HotkeyKey::Q }));
    assert_eq!(parse_key_combination("Shift+M"), Ok(KeyCombination { ctrl: false, shift: true, key: HotkeyKey::M }));
}

#[test]
fn parts_may_come_in_any_order_and_repeat() {
    assert_eq!(parse_key_combination("A+Ctrl"), Ok(KeyCombination { ctrl: true, shift: false, key: HotkeyKey::A }));
    assert_eq!(parse_key_combination("Shift+Shift+S"), Ok(KeyCombination { ctrl: false, shift: true, key: HotkeyKey::S }));
    assert_eq!(parse_key_combination("B+R"), Ok(KeyCombination { ctrl: false, shift: false, key: HotkeyKey::R }));
}

#[test]
fn white_space_around_parts_is_ignored() {
    assert_eq!(parse_key_combination(" Ctrl + Shift + B "), Ok(both(HotkeyKey::B)));
    assert_eq!(parse_key_combination("\tCtrl+\nShift\r+ L"), Ok(both(HotkeyKey::L)));
    assert_eq!(parse_key_combination("\u{a0}Ctrl\u{3000}+Shift+\u{2003}Q"), Ok(both(HotkeyKey::Q)));
}

#[test]
fn rejects_what_is_no_shortcut() {
    let invalid = Err(HotkeyError::InvalidKeyCombination);
    assert_eq!(parse_key_combination(""), invalid);
    assert_eq!(parse_key_combination("Ctrl"), invalid);
    assert_eq!(parse_key_combination("Ctrl+Shift"), invalid);
    assert_eq!(parse_key_combination("Ctrl+Shift+"), invalid);
    assert_eq!(parse_key_combination("+B"), invalid);
    assert_eq!(parse_key_combination("Ctrl++B"), invalid);
    assert_eq!(parse_key_combination("Ctrl+Shift+X"), invalid);
    assert_eq!(parse_key_combination("ctrl+B"), invalid);
    assert_eq!(parse_key_combination("Ctrl+b"), invalid);
    assert_eq!(parse_key_combination("Alt+B"), invalid);
    assert_eq!(parse_key_combination("C trl+B"), invalid);
    assert_eq!(parse_key_combination("Ctrl+BB"), invalid);
    assert_eq!(parse_key_combination("Shif+B"), invalid);
    assert_eq!(parse_key_combination("Ctrl+é"), invalid);
}

#[test]
fn parse_agrees_with_split_and_trim() {
    fn reference(text: &str) -> Option<(bool, bool, char)> {
        let mut ctrl = false;
        let mut shift = false;
        let mut key = None;
        for part in text.split('+') {
            match part.trim() {
                "Ctrl" => ctrl = true,
                "Shift" => shift = true,
                "B" | "R" | "L" | "A" | "S" | "Q" | "M" => key = part.trim().chars().next(),
                _ => return None,
            }
        }
        key.map(|k| (ctrl, shift, k))
    }
    fn letter(key: HotkeyKey) -> char {
        match key {
            HotkeyKey::B => 'B',
            HotkeyKey::R => 'R',
            HotkeyKey::L => 'L',
            HotkeyKey::A => 'A',
            HotkeyKey::S => 'S',
            HotkeyKey::Q => 'Q',
            HotkeyKey::M => 'M',
        }
    }
    let words = ["Ctrl", "Shift", "B", "M", " S", "Q ", "", " ", "X", "Ctrl ", "Sh"];
    for a in words {
        for b in words {
            for c in words {
                for text in [format!("{}", a), format!("{}+{}", a, b), format!("{}+{}+{}", a, b, c)] {
                    let parsed = parse_key_combination(&text).ok().map(|k| (k.ctrl, k.shift, letter(k.key)));
                    assert_eq!(parsed, reference(&text), "{:?}", text);
                }
            }
        }
    }
}

#[test]
fn white_space_is_unicode_white_space() {
    for code in 0u32..0x3100 {
        if let Some(c) = char::from_u32(code) {
            assert_eq!(is_whitespace(c), c.is_whitespace(), "{:?}", c);
        }
    }
    assert!(!is_whitespace('\u{10000}'));
}

#[test]
fn default_settings_bind_seven_shortcuts() {
    let settings = HotkeySettings::new().unwrap();
    assert_eq!(settings.hotkey_map.len(), 7);
    let mut actions: Vec<HotkeyAction> = settings.hotkey_map.values().copied().collect();
    actions.sort_by_key(|a| format!("{:?}", a));
    assert_eq!(
        actions,
        vec![
            HotkeyAction::EndSession,
            HotkeyAction::LockUnlockScreen,
            HotkeyAction::QuickCaptureSelection,
            HotkeyAction::StartPauseBroadcast,
            HotkeyAction::StartStopRecording,
            HotkeyAction::SwitchMonitor,
            HotkeyAction::ToggleAnnotation,
        ]
    );
}

#[test]
fn registered_shortcut_is_found_by_its_identifier() {
    let mut settings = HotkeySettings { hotkey_map: std::collections::HashMap::new() };
    let before = settings.register_hotkey("Ctrl+Q", HotkeyAction::EndSession);
    assert_eq!(before, Ok(KeyCombination { ctrl: true, shift: false, key: HotkeyKey::Q }));
    assert_eq!(settings.hotkey_map.len(), 1);
    let id = *settings.hotkey_map.keys().next().unwrap();
    assert_eq!(settings.action_for(id), Some(HotkeyAction::EndSession));
    assert_eq!(settings.action_for(id.wrapping_add(1)), None);
    settings.register_hotkey("Q + Ctrl", HotkeyAction::SwitchMonitor).unwrap();
    assert_eq!(settings.hotkey_map.len(), 1);
    assert_eq!(settings.action_for(id), Some(HotkeyAction::SwitchMonitor));
    settings.register_hotkey("Shift+Q", HotkeyAction::EndSession).unwrap();
    settings.register_hotkey("Ctrl+M", HotkeyAction::EndSession).unwrap();
    settings.register_hotkey("M", HotkeyAction::EndSession).unwrap();
    assert_eq!(settings.hotkey_map.len(), 4);
}

#[test]
fn identifier_is_the_one_of_the_hotkey_crate() {
    let mut settings = HotkeySettings { hotkey_map: std::collections::HashMap::new() };
    settings.register_hotkey("Ctrl+Shift+B", HotkeyAction::StartPauseBroadcast).unwrap();
    let expected = HotKey::new(Some(Modifiers::CONTROL | Modifiers::SHIFT), Code::KeyB).id();
    assert_eq!(settings.action_for(expected), Some(HotkeyAction::StartPauseBroadcast));
    settings.register_hotkey("R", HotkeyAction::StartStopRecording).unwrap();
    assert_eq!(settings.action_for(HotKey::new(None, Code::KeyR).id()), Some(HotkeyAction::StartStopRecording));
}

#[test]
fn invalid_text_registers_nothing() {
    let mut settings = HotkeySettings::new().unwrap();
    assert_eq!(
        settings.register_hotkey("Ctrl+Alt+Del", HotkeyAction::EndSession),
        Err(HotkeyError::InvalidKeyCombination)
    );
    assert_eq!(settings.hotkey_map.len(), 7);
    assert_eq!(settings.parse_key_combination("Ctrl+Shift+A"), Ok(both(HotkeyKey::A)));
}

#[test]
fn shortcut_menu_lists_names_and_keys() {
    let shortcuts = get_shortcuts();
    let listed: Vec<(&str, &str)> = shortcuts.iter().map(|s| (s.name, s.key_combination)).collect();
    assert_eq!(
        listed,
        vec![
            ("Start/Pause Broadcast", "Ctrl+Shift+B"),
            ("Start/Stop Recording", "Ctrl+Shift+R"),
            ("Lock/Unlock Screen", "Ctrl+Shift+L"),
            ("Toggle Annotation", "Ctrl+Shift+A"),
            ("Quick Capture Selection", "Ctrl+Shift+S"),
            ("End Session", "Ctrl+Shift+Q"),
            ("Switch Monitor", "Ctrl+Shift+M"),
        ]
    );
    for shortcut in &shortcuts {
        assert!(parse_key_combination(shortcut.key_combination).is_ok());
    }
}

#[test]
fn unit_services_can_be_made() {
    let _manager: HotkeyManager = HotkeyManager::new();
    let _transcriber: Transcriber = Transcriber::new();
}
