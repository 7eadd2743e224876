use macro_buddy::config::{ActionType, Config, ConfigError, KeyMacro, MacroFault, MouseButton};
use macro_buddy::engine::{
    plan_macro, EngineError, InputAction, MacroEngine, MacroEngineState, TickDecision,
};

fn keyboard(key: &str, hotkey: &str, enabled: bool) -> KeyMacro {
    KeyMacro {
        action_type: ActionType::Keyboard,
        key: key.to_string(),
        mouse_button: None,
        interval_ms: 1000,
        random_variance_ms: 200,
        toggle_hotkey: hotkey.to_string(),
        enabled_by_default: enabled,
    }
}

fn three_macros() -> Config {
    Config {
        macros: vec![
            keyboard("1", "F1", false),
            keyboard("2", "F2", true),
            KeyMacro {
                action_type: ActionType::Mouse,
                key: String::new(),
                mouse_button: Some(MouseButton::Right),
                interval_ms: 500,
                random_variance_ms: 0,
                toggle_hotkey: "F3".to_string(),
                enabled_by_default: false,
            },
        ],
    }
}

#[test]
fn empty_start_fails_and_valid_start_follows() {
    let mut e = MacroEngineState::new();
    let r = e.start(Config { macros: vec![] });
    assert!(matches!(
        r,
        Err(EngineError::InvalidConfiguration(ConfigError::EmptyConfiguration))
    ));
    assert!(!e.is_running());
    assert!(e.get_status().is_empty());
    assert!(e.start(three_macros()).is_ok());
    assert!(e.is_running());
}

#[test]
fn start_with_duplicate_hotkey_fails() {
    let mut e = MacroEngineState::new();
    let c = Config { macros: vec![keyboard("1", "F5", false), keyboard("2", "F5", false)] };
    assert!(matches!(
        e.start(c),
        Err(EngineError::InvalidConfiguration(ConfigError::DuplicateHotkey { .. }))
    ));
    assert!(!e.is_running());
}

#[test]
fn start_with_duplicate_key_fails() {
    let mut e = MacroEngineState::new();
    let c = Config { macros: vec![keyboard("w", "F5", false), keyboard("w", "F6", false)] };
    assert!(matches!(
        e.start(c),
        Err(EngineError::InvalidConfiguration(ConfigError::DuplicateKey { .. }))
    ));
}

#[test]
fn start_while_running_fails() {
    let mut e = MacroEngineState::new();
    e.start(three_macros()).unwrap();
    let session = e.current_session();
    assert!(matches!(e.start(three_macros()), Err(EngineError::AlreadyRunning)));
    assert_eq!(e.current_session(), session);
    assert_eq!(e.get_status().len(), 3);
}

#[test]
fn status_after_start_follows_configuration() {
    let mut e = MacroEngineState::new();
    e.start(three_macros()).unwrap();
    let st = e.get_status();
    assert_eq!(st.len(), 3);
    for (i, s) in st.iter().enumerate() {
        assert_eq!(s.index, i);
    }
    assert!(!st[0].enabled);
    assert!(st[1].enabled);
    assert!(!st[2].enabled);
    assert_eq!(st[0].key, "1");
    assert_eq!(st[1].toggle_hotkey, "F2");
    assert_eq!(st[2].action_type, ActionType::Mouse);
    assert_eq!(st[2].mouse_button, Some(MouseButton::Right));
}

#[test]
fn toggle_flips_one_entry_and_rejects_bad_index() {
    let mut e = MacroEngineState::new();
    e.start(three_macros()).unwrap();
    assert!(e.toggle_macro(1).is_ok());
    let st = e.get_status();
    assert!(!st[0].enabled);
    assert!(!st[1].enabled);
    assert!(!st[2].enabled);
    assert!(matches!(e.toggle_macro(99), Err(EngineError::InvalidIndex)));
    assert!(e.toggle_macro(1).is_ok());
    assert!(e.get_status()[1].enabled);
}

#[test]
fn toggle_while_idle_is_invalid() {
    let mut e = MacroEngineState::new();
    assert!(matches!(e.toggle_macro(0), Err(EngineError::InvalidIndex)));
}

#[test]
fn stop_clears_status_and_may_repeat() {
    let mut e = MacroEngineState::new();
    e.start(three_macros()).unwrap();
    e.stop();
    assert!(e.get_status().is_empty());
    assert!(!e.is_running());
    e.stop();
    assert!(e.get_status().is_empty());
    assert!(e.start(three_macros()).is_ok());
}

#[test]
fn loops_of_an_old_session_stop() {
    let mut e = MacroEngineState::new();
    e.start(three_macros()).unwrap();
    let first = e.current_session();
    assert!(e.is_session_active(first));
    assert_eq!(e.action_tick(first, 1), TickDecision::Fire);
    assert_eq!(e.action_tick(first, 0), TickDecision::Skip);
    e.stop();
    assert_eq!(e.action_tick(first, 1), TickDecision::Stop);
    e.start(three_macros()).unwrap();
    let second = e.current_session();
    assert_ne!(first, second);
    assert_eq!(e.action_tick(first, 1), TickDecision::Stop);
    assert!(!e.toggle_from_hotkey(first, 1));
    assert!(e.get_status()[1].enabled);
    assert!(e.toggle_from_hotkey(second, 1));
    assert!(!e.get_status()[1].enabled);
    assert_eq!(e.action_tick(second, 1), TickDecision::Skip);
}

#[test]
fn plans_resolve_symbols() {
    let p = plan_macro(0, &keyboard("E", "F10", false)).unwrap();
    assert_eq!(p.action, InputAction::Key('e'));
    assert_eq!(p.hotkey, 10);
    assert_eq!(p.interval_ms, 1000);
    assert_eq!(p.random_variance_ms, 200);
    let c = three_macros();
    let m = plan_macro(2, &c.macros[2]).unwrap();
    assert_eq!(m.action, InputAction::Click(MouseButton::Right));
    assert_eq!(m.hotkey, 3);
}

#[test]
fn unresolved_symbols_stop_one_macro() {
    match plan_macro(4, &keyboard("z", "F1", false)) {
        Err(EngineError::UnresolvedKeySymbol { index, symbol }) => {
            assert_eq!(index, 4);
            assert_eq!(symbol, "z");
        }
        other => panic!("unexpected {:?}", other),
    }
    match plan_macro(1, &keyboard("1", "Home", false)) {
        Err(EngineError::UnresolvedKeySymbol { index, symbol }) => {
            assert_eq!(index, 1);
            assert_eq!(symbol, "Home");
        }
        other => panic!("unexpected {:?}", other),
    }
    let mut m = keyboard("1", "F1", false);
    m.action_type = ActionType::Mouse;
    assert!(matches!(
        plan_macro(2, &m),
        Err(EngineError::InvalidConfiguration(ConfigError::InvalidMacro {
            index: 2,
            fault: MacroFault::MissingMouseButton
        }))
    ));
}

#[test]
fn cli_engine_keeps_its_configuration() {
    let e = MacroEngine::new(three_macros());
    assert_eq!(e.config().macros.len(), 3);
    assert_eq!(e.config().macros[1].key, "2");
}
