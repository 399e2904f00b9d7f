use std::cell::RefCell;
use std::rc::Rc;

use global_hotkey::hotkey::{Code, HotKey, Modifiers};
use rust_windows_spotify_widget::hotkey::{
    HotkeyAction, HotkeyCombos, HotkeyEvent, HotkeyListener, HotkeyRegistrar,
    CANNOT_CLEAR_TOGGLE_MESSAGE,
};

/// Accepts every hotkey except those whose id is listed, and records calls.
struct FakeRegistrar {
    refuse: Vec<u32>,
    registered: RefCell<Vec<u32>>,
    unregistered: RefCell<Vec<u32>>,
}

impl FakeRegistrar {
    fn new(refuse: Vec<u32>) -> Self {
        FakeRegistrar { refuse, registered: RefCell::new(Vec::new()), unregistered: RefCell::new(Vec::new()) }
    }
}

impl HotkeyRegistrar for FakeRegistrar {
    fn register(&mut self, hotkey: HotKey, _id: u32) -> Result<(), String> {
        if self.refuse.contains(&hotkey.id()) {
            Err("HotKey already registered".to_string())
        } else {
            self.registered.borrow_mut().push(hotkey.id());
            Ok(())
        }
    }

    fn unregister(&mut self, hotkey: HotKey, _id: u32) {
        self.unregistered.borrow_mut().push(hotkey.id());
    }
}

fn id_of(mods: Modifiers, code: Code) -> u32 {
    HotKey::new(Some(mods), code).id()
}

fn combos(toggle: Option<&str>, play: Option<&str>, next: Option<&str>, prev: Option<&str>) -> HotkeyCombos {
    HotkeyCombos {
        toggle_visibility: toggle.map(|s| s.to_string()),
        play_pause: play.map(|s| s.to_string()),
        next: next.map(|s| s.to_string()),
        previous: prev.map(|s| s.to_string()),
    }
}

fn press(id: u32) -> HotkeyEvent {
    HotkeyEvent { id, pressed: true }
}

#[test]
fn action_labels_keys_and_required() {
    assert_eq!(HotkeyAction::ToggleVisibility.label(), "Show/Hide widget");
    assert_eq!(HotkeyAction::PlayPause.label(), "Play/Pause");
    assert_eq!(HotkeyAction::Next.label(), "Next track");
    assert_eq!(HotkeyAction::Previous.label(), "Previous track");
    assert_eq!(HotkeyAction::ToggleVisibility.env_key(), "HOTKEY_COMBO");
    assert_eq!(HotkeyAction::PlayPause.env_key(), "HOTKEY_PLAY_PAUSE");
    assert_eq!(HotkeyAction::Next.env_key(), "HOTKEY_NEXT");
    assert_eq!(HotkeyAction::Previous.env_key(), "HOTKEY_PREVIOUS");
    assert!(HotkeyAction::ToggleVisibility.required());
    assert!(!HotkeyAction::PlayPause.required());
    assert!(!HotkeyAction::Next.required());
    assert!(!HotkeyAction::Previous.required());
    assert_eq!(HotkeyAction::ALL.len(), 4);
    assert_eq!(HotkeyAction::ALL[0], HotkeyAction::ToggleVisibility);
}

#[test]
fn new_binds_requested_combos() {
    let l = HotkeyListener::new(
        FakeRegistrar::new(vec![]),
        &combos(Some("ctrl+Digit1"), Some("ctrl+Digit2"), Some("  "), None),
    );
    assert_eq!(l.combo_for(HotkeyAction::ToggleVisibility), Some("ctrl+Digit1"));
    assert_eq!(l.combo_for(HotkeyAction::PlayPause), Some("ctrl+Digit2"));
    assert_eq!(l.combo_for(HotkeyAction::Next), None);
    assert_eq!(l.combo_for(HotkeyAction::Previous), None);
    let events = vec![
        press(id_of(Modifiers::CONTROL, Code::Digit2)),
        HotkeyEvent { id: id_of(Modifiers::CONTROL, Code::Digit1), pressed: false },
        press(id_of(Modifiers::CONTROL, Code::Digit1)),
        press(id_of(Modifiers::CONTROL, Code::Digit9)),
    ];
    assert_eq!(l.poll_actions(&events), vec![HotkeyAction::PlayPause, HotkeyAction::ToggleVisibility]);
}

#[test]
fn new_falls_back_to_default_toggle() {
    let l = HotkeyListener::new(FakeRegistrar::new(vec![]), &combos(Some("not a key"), None, None, None));
    assert_eq!(l.combo_for(HotkeyAction::ToggleVisibility), Some("ctrl+shift+period"));
    let l = HotkeyListener::new(FakeRegistrar::new(vec![]), &combos(None, None, None, None));
    assert_eq!(l.combo_for(HotkeyAction::ToggleVisibility), Some("ctrl+shift+period"));
    let shift_ctrl_period = id_of(Modifiers::CONTROL | Modifiers::SHIFT, Code::Period);
    assert_eq!(l.poll_actions(&vec![press(shift_ctrl_period)]), vec![HotkeyAction::ToggleVisibility]);
}

#[test]
fn new_skips_refused_registrations() {
    let refused = id_of(Modifiers::CONTROL, Code::Digit3);
    let l = HotkeyListener::new(
        FakeRegistrar::new(vec![refused]),
        &combos(Some("ctrl+Digit1"), None, Some("ctrl+Digit3"), Some("ctrl+Digit4")),
    );
    assert_eq!(l.combo_for(HotkeyAction::Next), None);
    assert_eq!(l.combo_for(HotkeyAction::Previous), Some("ctrl+Digit4"));
    assert!(l.poll_actions(&vec![press(refused)]).is_empty());
}

#[test]
fn update_combo_rebinds_and_dispatches() {
    let mut l = HotkeyListener::new(FakeRegistrar::new(vec![]), &combos(Some("ctrl+Digit1"), None, Some("ctrl+Digit3"), None));
    let old_id = id_of(Modifiers::CONTROL, Code::Digit3);
    assert_eq!(l.update_combo(HotkeyAction::Next, "ctrl+alt+Period"), Ok(()));
    assert_eq!(l.combo_for(HotkeyAction::Next), Some("ctrl+alt+Period"));
    let new_id = id_of(Modifiers::CONTROL | Modifiers::ALT, Code::Period);
    assert_eq!(l.poll_actions(&vec![press(new_id)]), vec![HotkeyAction::Next]);
    assert!(l.poll_actions(&vec![press(old_id)]).is_empty());
    assert_eq!(l.combo_for(HotkeyAction::ToggleVisibility), Some("ctrl+Digit1"));
}

#[test]
fn update_combo_clears_optional_action() {
    let mut l = HotkeyListener::new(FakeRegistrar::new(vec![]), &combos(Some("ctrl+Digit1"), Some("ctrl+Digit2"), None, None));
    assert_eq!(l.update_combo(HotkeyAction::PlayPause, ""), Ok(()));
    assert_eq!(l.combo_for(HotkeyAction::PlayPause), None);
    assert!(l.poll_actions(&vec![press(id_of(Modifiers::CONTROL, Code::Digit2))]).is_empty());
}

#[test]
fn update_combo_refuses_to_clear_toggle() {
    let mut l = HotkeyListener::new(FakeRegistrar::new(vec![]), &combos(Some("ctrl+Digit1"), None, None, None));
    assert_eq!(l.update_combo(HotkeyAction::ToggleVisibility, "   "), Err(CANNOT_CLEAR_TOGGLE_MESSAGE.to_string()));
    assert_eq!(CANNOT_CLEAR_TOGGLE_MESSAGE, "Show/Hide widget must have a hotkey — it can't be cleared.");
    assert_eq!(l.combo_for(HotkeyAction::ToggleVisibility), Some("ctrl+Digit1"));
}

#[test]
fn update_combo_rejects_unparsable_combo() {
    let mut l = HotkeyListener::new(FakeRegistrar::new(vec![]), &combos(Some("ctrl+Digit1"), None, Some("ctrl+Digit3"), None));
    let r = l.update_combo(HotkeyAction::Next, "ctrl+Nope");
    assert_eq!(
        r,
        Err("failed to register 'ctrl+Nope': 'ctrl+Nope' isn't a recognized key combination (it may already be used by another app or action)".to_string())
    );
    assert_eq!(l.combo_for(HotkeyAction::Next), None);
}

#[test]
fn update_combo_reports_refused_registration() {
    let refused = id_of(Modifiers::SHIFT, Code::KeyQ);
    let mut l = HotkeyListener::new(FakeRegistrar::new(vec![refused]), &combos(Some("ctrl+Digit1"), None, None, None));
    let r = l.update_combo(HotkeyAction::Previous, "shift+KeyQ");
    assert_eq!(
        r,
        Err("failed to register 'shift+KeyQ': HotKey already registered (it may already be used by another app or action)".to_string())
    );
    assert_eq!(l.combo_for(HotkeyAction::Previous), None);
}

/// Refuses the listed ids and records every call in a log the test keeps.
struct Recorder {
    refuse: Vec<u32>,
    log: Rc<RefCell<Vec<(&'static str, u32)>>>,
}

impl HotkeyRegistrar for Recorder {
    fn register(&mut self, hotkey: HotKey, _id: u32) -> Result<(), String> {
        self.log.borrow_mut().push(("register", hotkey.id()));
        if self.refuse.contains(&hotkey.id()) {
            Err("HotKey already registered".to_string())
        } else {
            Ok(())
        }
    }

    fn unregister(&mut self, hotkey: HotKey, _id: u32) {
        self.log.borrow_mut().push(("unregister", hotkey.id()));
    }
}

#[test]
fn new_offers_requested_combos_in_order_then_the_fallback() {
    let toggle = id_of(Modifiers::CONTROL, Code::Digit1);
    let next = id_of(Modifiers::CONTROL, Code::Digit3);
    let fallback = id_of(Modifiers::CONTROL | Modifiers::SHIFT, Code::Period);
    let log = Rc::new(RefCell::new(Vec::new()));
    let l = HotkeyListener::new(
        Recorder { refuse: vec![toggle], log: log.clone() },
        &combos(Some("ctrl+Digit1"), Some("  "), Some("ctrl+Digit3"), Some("ctrl+Nope")),
    );
    // The refused toggle, then Next, then the fallback; blank and unparsable
    // combos are never offered.
    assert_eq!(*log.borrow(), vec![("register", toggle), ("register", next), ("register", fallback)]);
    assert_eq!(l.combo_for(HotkeyAction::ToggleVisibility), Some("ctrl+shift+period"));
    assert_eq!(l.combo_for(HotkeyAction::Next), Some("ctrl+Digit3"));
    assert_eq!(l.combo_for(HotkeyAction::PlayPause), None);
    assert_eq!(l.combo_for(HotkeyAction::Previous), None);
    assert_eq!(l.poll_actions(&vec![press(fallback)]), vec![HotkeyAction::ToggleVisibility]);
}

#[test]
fn new_offers_no_fallback_when_the_toggle_binds() {
    let toggle = id_of(Modifiers::CONTROL, Code::Digit1);
    let log = Rc::new(RefCell::new(Vec::new()));
    let l = HotkeyListener::new(
        Recorder { refuse: vec![], log: log.clone() },
        &combos(Some("ctrl+Digit1"), None, None, None),
    );
    assert_eq!(*log.borrow(), vec![("register", toggle)]);
    assert_eq!(l.combo_for(HotkeyAction::ToggleVisibility), Some("ctrl+Digit1"));
}

#[test]
fn failed_toggle_rebind_keeps_the_old_binding() {
    let refused = id_of(Modifiers::SHIFT, Code::KeyQ);
    let old_id = id_of(Modifiers::CONTROL, Code::Digit1);
    let log = Rc::new(RefCell::new(Vec::new()));
    let mut l = HotkeyListener::new(
        Recorder { refuse: vec![refused], log: log.clone() },
        &combos(Some("ctrl+Digit1"), None, None, None),
    );
    let r = l.update_combo(HotkeyAction::ToggleVisibility, "shift+KeyQ");
    assert_eq!(
        r,
        Err("failed to register 'shift+KeyQ': HotKey already registered (it may already be used by another app or action)".to_string())
    );
    assert_eq!(l.combo_for(HotkeyAction::ToggleVisibility), Some("ctrl+Digit1"));
    assert_eq!(l.poll_actions(&vec![press(old_id)]), vec![HotkeyAction::ToggleVisibility]);
    assert_eq!(
        *log.borrow(),
        vec![("register", old_id), ("unregister", old_id), ("register", refused), ("register", old_id)]
    );
    assert!(l.update_combo(HotkeyAction::ToggleVisibility, "ctrl+Nope").is_err());
    assert_eq!(l.combo_for(HotkeyAction::ToggleVisibility), Some("ctrl+Digit1"));
}
