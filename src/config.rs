//! Macro definitions and the checks a configuration must pass before the
//! engine runs it.

use vstd::prelude::*;

verus! {

/// Kind of input a macro synthesizes.
#[derive(Clone, Copy, Debug, PartialEq, Eq, Structural)]
pub enum ActionType {
    Keyboard,
    Mouse,
}

impl Default for ActionType {
    fn default() -> (r: Self)
        ensures
            r == ActionType::Keyboard,
    {
        ActionType::Keyboard
    }
}

/// Mouse button a mouse macro clicks.
#[derive(Clone, Copy, Debug, PartialEq, Eq, Structural)]
pub enum MouseButton {
    Left,
    Right,
    Middle,
}

/// One macro: what it fires, how often, and the hotkey that toggles it.
#[derive(Clone, Debug)]
pub struct KeyMacro {
    /// Keyboard or mouse.
    pub action_type: ActionType,
    /// Key symbol to press; used by keyboard macros.
    pub key: String,
    /// Button to click; used by mouse macros.
    pub mouse_button: Option<MouseButton>,
    /// Base interval between firings, in milliseconds.
    pub interval_ms: u64,
    /// Symmetric jitter applied to the interval, in milliseconds.
    pub random_variance_ms: u64,
    /// Hotkey that toggles this macro on and off.
    pub toggle_hotkey: String,
    /// Whether the macro starts enabled.
    pub enabled_by_default: bool,
}

/// The ordered list of macros to run.
#[derive(Clone, Debug)]
pub struct Config {
    pub macros: Vec<KeyMacro>,
}

/// What is wrong with a single macro.
#[derive(Clone, Copy, Debug, PartialEq, Eq, Structural)]
pub enum MacroFault {
    /// A keyboard macro with an empty key.
    EmptyKey,
    /// A mouse macro without a button.
    MissingMouseButton,
    /// A macro with an empty toggle hotkey.
    EmptyHotkey,
}

/// Why a configuration was rejected.
#[derive(Clone, Debug)]
pub enum ConfigError {
    /// The configuration holds no macro.
    EmptyConfiguration,
    /// The macro at `index` is malformed.
    InvalidMacro { index: usize, fault: MacroFault },
    /// Two keyboard macros press the same key.
    DuplicateKey { key: String },
    /// Two macros share a toggle hotkey.
    DuplicateHotkey { hotkey: String },
}

/// The fault of a macro's action part, if any.
pub open spec fn action_fault(m: KeyMacro) -> Option<MacroFault> {
    match m.action_type {
        ActionType::Keyboard => if m.key@.len() == 0 {
            Some(MacroFault::EmptyKey)
        } else {
            None
        },
        ActionType::Mouse => if m.mouse_button is None {
            Some(MacroFault::MissingMouseButton)
        } else {
            None
        },
    }
}

/// The first action fault at index `i` or later.
pub open spec fn first_action_fault(ms: Seq<KeyMacro>, i: int) -> Option<ConfigError>
    decreases ms.len() - i,
{
    if i < 0 || i >= ms.len() {
        None
    } else {
        match action_fault(ms[i]) {
            Some(f) => Some(ConfigError::InvalidMacro { index: i as usize, fault: f }),
            None => first_action_fault(ms, i + 1),
        }
    }
}

/// A keyboard macro with a non-empty key, which takes part in the key check.
pub open spec fn presses_key(m: KeyMacro) -> bool {
    m.action_type == ActionType::Keyboard && m.key@.len() > 0
}

/// Macro `j` presses a key that an earlier keyboard macro already presses.
pub open spec fn key_taken_before(ms: Seq<KeyMacro>, j: int) -> bool {
    presses_key(ms[j]) && exists|k: int| 0 <= k < j && presses_key(ms[k]) && ms[k].key@ == ms[j].key@
}

/// The first duplicate key at index `i` or later.
pub open spec fn first_duplicate_key(ms: Seq<KeyMacro>, i: int) -> Option<ConfigError>
    decreases ms.len() - i,
{
    if i < 0 || i >= ms.len() {
        None
    } else if key_taken_before(ms, i) {
        Some(ConfigError::DuplicateKey { key: ms[i].key })
    } else {
        first_duplicate_key(ms, i + 1)
    }
}

/// Macro `j`'s hotkey is used by an earlier macro.
pub open spec fn hotkey_taken_before(ms: Seq<KeyMacro>, j: int) -> bool {
    exists|k: int| 0 <= k < j && ms[k].toggle_hotkey@ == ms[j].toggle_hotkey@
}

/// The first empty or duplicate hotkey at index `i` or later.
pub open spec fn first_hotkey_error(ms: Seq<KeyMacro>, i: int) -> Option<ConfigError>
    decreases ms.len() - i,
{
    if i < 0 || i >= ms.len() {
        None
    } else if ms[i].toggle_hotkey@.len() == 0 {
        Some(ConfigError::InvalidMacro { index: i as usize, fault: MacroFault::EmptyHotkey })
    } else if hotkey_taken_before(ms, i) {
        Some(ConfigError::DuplicateHotkey { hotkey: ms[i].toggle_hotkey })
    } else {
        first_hotkey_error(ms, i + 1)
    }
}

/// The error a configuration is rejected with, or `None` when it is valid.
/// The checks run in order: emptiness, every macro's action, duplicate keys,
/// then hotkeys; the first failure is reported.
pub open spec fn config_error(ms: Seq<KeyMacro>) -> Option<ConfigError> {
    if ms.len() == 0 {
        Some(ConfigError::EmptyConfiguration)
    } else if first_action_fault(ms, 0) is Some {
        first_action_fault(ms, 0)
    } else if first_duplicate_key(ms, 0) is Some {
        first_duplicate_key(ms, 0)
    } else {
        first_hotkey_error(ms, 0)
    }
}

/// A configuration the engine accepts.
pub open spec fn config_valid(ms: Seq<KeyMacro>) -> bool {
    config_error(ms) is None
}


/// `m` is a macro with exactly these settings.
pub open spec fn macro_is(
    m: KeyMacro,
    action_type: ActionType,
    key: Seq<char>,
    mouse_button: Option<MouseButton>,
    interval_ms: u64,
    random_variance_ms: u64,
    toggle_hotkey: Seq<char>,
) -> bool {
    &&& m.action_type == action_type
    &&& m.key@ == key
    &&& m.mouse_button == mouse_button
    &&& m.interval_ms == interval_ms
    &&& m.random_variance_ms == random_variance_ms
    &&& m.toggle_hotkey@ == toggle_hotkey
    &&& !m.enabled_by_default
}

/// The configuration used when none is stored: key `1` every 1000±200 ms on
/// F9, key `e` every 1500±300 ms on F10, and the left mouse button every
/// 800±150 ms on F11, all disabled at start.
pub open spec fn is_default_config(c: Config) -> bool {
    &&& c.macros@.len() == 3
    &&& macro_is(c.macros@[0], ActionType::Keyboard, "1"@, None, 1000, 200, "F9"@)
    &&& macro_is(c.macros@[1], ActionType::Keyboard, "e"@, None, 1500, 300, "F10"@)
    &&& macro_is(
        c.macros@[2],
        ActionType::Mouse,
        Seq::empty(),
        Some(MouseButton::Left),
        800,
        150,
        "F11"@,
    )
}

impl Default for Config {
    fn default() -> (r: Self)
        ensures
            is_default_config(r),
    {
        Config {
            macros: vec![
                KeyMacro {
                    action_type: ActionType::Keyboard,
                    key: String::from_str("1"),
                    mouse_button: None,
                    interval_ms: 1000,
                    random_variance_ms: 200,
                    toggle_hotkey: String::from_str("F9"),
                    enabled_by_default: false,
                },
                KeyMacro {
                    action_type: ActionType::Keyboard,
                    key: String::from_str("e"),
                    mouse_button: None,
                    interval_ms: 1500,
                    random_variance_ms: 300,
                    toggle_hotkey: String::from_str("F10"),
                    enabled_by_default: false,
                },
                KeyMacro {
                    action_type: ActionType::Mouse,
                    key: String::new(),
                    mouse_button: Some(MouseButton::Left),
                    interval_ms: 800,
                    random_variance_ms: 150,
                    toggle_hotkey: String::from_str("F11"),
                    enabled_by_default: false,
                },
            ],
        }
    }
}

/// Helper: a hotkey used twice at or after `i`, with no empty hotkey, makes
/// the hotkey scan from `i` report a duplicate hotkey.
proof fn lemma_hotkey_scan_finds_duplicate(ms: Seq<KeyMacro>, i: int, j: int)
    requires
        0 <= i <= j < ms.len(),
        hotkey_taken_before(ms, j),
        forall|k: int| 0 <= k < ms.len() ==> ms[k].toggle_hotkey@.len() > 0,
    ensures
        first_hotkey_error(ms, i) matches Some(ConfigError::DuplicateHotkey { .. }),
    decreases j - i,
{
    if !hotkey_taken_before(ms, i) {
        lemma_hotkey_scan_finds_duplicate(ms, i + 1, j);
    }
}

/// Helper: a key pressed twice at or after `i` makes the key scan from `i`
/// report a duplicate key.
proof fn lemma_key_scan_finds_duplicate(ms: Seq<KeyMacro>, i: int, j: int)
    requires
        0 <= i <= j < ms.len(),
        key_taken_before(ms, j),
    ensures
        first_duplicate_key(ms, i) matches Some(ConfigError::DuplicateKey { .. }),
    decreases j - i,
{
    if !key_taken_before(ms, i) {
        lemma_key_scan_finds_duplicate(ms, i + 1, j);
    }
}

/// Helper: with pairwise distinct keyboard keys, the key scan from `i` finds
/// nothing.
proof fn lemma_key_scan_finds_nothing(ms: Seq<KeyMacro>, i: int)
    requires
        0 <= i <= ms.len(),
        forall|a: int, b: int|
            0 <= a < b < ms.len() && ms[a].action_type == ActionType::Keyboard
                && ms[b].action_type == ActionType::Keyboard ==> ms[a].key@ != ms[b].key@,
    ensures
        first_duplicate_key(ms, i) is None,
    decreases ms.len() - i,
{
    if i < ms.len() {
        lemma_key_scan_finds_nothing(ms, i + 1);
    }
}

/// When every macro's action is well formed, keys are not duplicated and no
/// hotkey is empty, two macros sharing a toggle hotkey make the
/// configuration fail with `DuplicateHotkey`.
pub proof fn lemma_shared_hotkey_rejected(ms: Seq<KeyMacro>, i: int, j: int)
    requires
        0 <= i < j < ms.len(),
        ms[i].toggle_hotkey@ == ms[j].toggle_hotkey@,
        first_action_fault(ms, 0) is None,
        first_duplicate_key(ms, 0) is None,
        forall|k: int| 0 <= k < ms.len() ==> ms[k].toggle_hotkey@.len() > 0,
    ensures
        config_error(ms) matches Some(ConfigError::DuplicateHotkey { .. }),
{
    assert(hotkey_taken_before(ms, j));
    lemma_hotkey_scan_finds_duplicate(ms, 0, j);
}

/// When every macro's action is well formed, two keyboard macros pressing
/// the same key make the configuration fail with `DuplicateKey`.
pub proof fn lemma_shared_key_rejected(ms: Seq<KeyMacro>, i: int, j: int)
    requires
        0 <= i < j < ms.len(),
        ms[i].action_type == ActionType::Keyboard,
        ms[j].action_type == ActionType::Keyboard,
        ms[i].key@ == ms[j].key@,
        first_action_fault(ms, 0) is None,
    ensures
        config_error(ms) matches Some(ConfigError::DuplicateKey { .. }),
{
    lemma_first_action_fault_none(ms, 0, i);
    lemma_first_action_fault_none(ms, 0, j);
    assert(presses_key(ms[i]) && presses_key(ms[j]));
    assert(key_taken_before(ms, j));
    lemma_key_scan_finds_duplicate(ms, 0, j);
}

/// Only keyboard macros take part in the key check: when keyboard keys are
/// pairwise distinct, the key fields of mouse macros never cause a
/// `DuplicateKey`, whatever they hold.
pub proof fn lemma_mouse_keys_never_clash(ms: Seq<KeyMacro>)
    requires
        forall|a: int, b: int|
            0 <= a < b < ms.len() && ms[a].action_type == ActionType::Keyboard
                && ms[b].action_type == ActionType::Keyboard ==> ms[a].key@ != ms[b].key@,
    ensures
        first_duplicate_key(ms, 0) is None,
        !(config_error(ms) matches Some(ConfigError::DuplicateKey { .. })),
{
    lemma_key_scan_finds_nothing(ms, 0);
    lemma_other_scans_report_no_duplicate_key(ms, 0);
}

/// Helper: the action scan and the hotkey scan never report a duplicate key.
proof fn lemma_other_scans_report_no_duplicate_key(ms: Seq<KeyMacro>, i: int)
    requires
        0 <= i <= ms.len(),
    ensures
        !(first_action_fault(ms, i) matches Some(ConfigError::DuplicateKey { .. })),
        !(first_hotkey_error(ms, i) matches Some(ConfigError::DuplicateKey { .. })),
    decreases ms.len() - i,
{
    if i < ms.len() {
        lemma_other_scans_report_no_duplicate_key(ms, i + 1);
    }
}

/// Helper: with no action fault found from `i`, the macro at `k >= i` has a
/// well-formed action.
proof fn lemma_first_action_fault_none(ms: Seq<KeyMacro>, i: int, k: int)
    requires
        0 <= i <= k < ms.len(),
        first_action_fault(ms, i) is None,
    ensures
        action_fault(ms[k]) is None,
    decreases k - i,
{
    if i < k {
        lemma_first_action_fault_none(ms, i + 1, k);
    }
}

impl Config {
    /// Chooses the configuration to run from the one found in storage, if
    /// any: a stored configuration is used as it is; otherwise the default
    /// configuration is used, and the second component says it must be
    /// written back to storage.
    pub fn load_or_default(stored: Option<Config>) -> (r: (Config, bool))
        ensures
            stored matches Some(c) ==> r.0 == c && !r.1,
            stored is None ==> is_default_config(r.0) && r.1,
    {
        match stored {
            Some(c) => (c, false),
            None => (Config::default(), true),
        }
    }

    /// Checks the configuration: at least one macro, every keyboard macro
    /// has a key and every mouse macro a button, keyboard keys are pairwise
    /// distinct, and toggle hotkeys are non-empty and pairwise distinct.
    pub fn validate(&self) -> (r: Result<(), ConfigError>)
        ensures
            r is Ok <==> config_valid(self.macros@),
            r matches Err(e) ==> config_error(self.macros@) == Some(e),
    {
        let ghost ms = self.macros@;
        let n = self.macros.len();
        if n == 0 {
            return Err(ConfigError::EmptyConfiguration);
        }
        let mut i: usize = 0;
        while i < n
            invariant
                ms == self.macros@,
                n == ms.len(),
                i <= n,
                first_action_fault(ms, 0) == first_action_fault(ms, i as int),
            decreases n - i,
        {
            let m = &self.macros[i];
            match m.action_type {
                ActionType::Keyboard => {
                    if m.key.as_str().is_empty() {
                        return Err(ConfigError::InvalidMacro { index: i, fault: MacroFault::EmptyKey });
                    }
                },
                ActionType::Mouse => {
                    if m.mouse_button.is_none() {
                        return Err(
                            ConfigError::InvalidMacro { index: i, fault: MacroFault::MissingMouseButton },
                        );
                    }
                },
            }
            i = i + 1;
        }
        let mut j: usize = 0;
        while j < n
            invariant
                ms == self.macros@,
                n == ms.len(),
                j <= n,
                first_action_fault(ms, 0) is None,
                first_duplicate_key(ms, 0) == first_duplicate_key(ms, j as int),
            decreases n - j,
        {
            let m = &self.macros[j];
            if m.action_type == ActionType::Keyboard && !m.key.as_str().is_empty() {
                let mut k: usize = 0;
                while k < j
                    invariant
                        ms == self.macros@,
                        n == ms.len(),
                        k <= j < n,
                        *m == ms[j as int],
                        first_action_fault(ms, 0) is None,
                        first_duplicate_key(ms, 0) == first_duplicate_key(ms, j as int),
                        presses_key(ms[j as int]),
                        forall|q: int|
                            0 <= q < k ==> !(presses_key(ms[q]) && ms[q].key@ == ms[j as int].key@),
                    decreases j - k,
                {
                    let o = &self.macros[k];
                    if o.action_type == ActionType::Keyboard && !o.key.as_str().is_empty() && o.key.eq(&m.key) {
                        assert(presses_key(ms[k as int]) && ms[k as int].key@ == ms[j as int].key@);
                        assert(key_taken_before(ms, j as int));
                        return Err(ConfigError::DuplicateKey { key: m.key.clone() });
                    }
                    k = k + 1;
                }
                assert(!key_taken_before(ms, j as int));
            }
            j = j + 1;
        }
        let mut h: usize = 0;
        while h < n
            invariant
                ms == self.macros@,
                n == ms.len(),
                h <= n,
                first_action_fault(ms, 0) is None,
                first_duplicate_key(ms, 0) is None,
                first_hotkey_error(ms, 0) == first_hotkey_error(ms, h as int),
            decreases n - h,
        {
            let m = &self.macros[h];
            if m.toggle_hotkey.as_str().is_empty() {
                return Err(ConfigError::InvalidMacro { index: h, fault: MacroFault::EmptyHotkey });
            }
            let mut k: usize = 0;
            while k < h
                invariant
                    ms == self.macros@,
                    n == ms.len(),
                    k <= h < n,
                    *m == ms[h as int],
                    m.toggle_hotkey@.len() > 0,
                    first_action_fault(ms, 0) is None,
                    first_duplicate_key(ms, 0) is None,
                    first_hotkey_error(ms, 0) == first_hotkey_error(ms, h as int),
                    forall|q: int| 0 <= q < k ==> ms[q].toggle_hotkey@ != ms[h as int].toggle_hotkey@,
                decreases h - k,
            {
                if self.macros[k].toggle_hotkey.eq(&m.toggle_hotkey) {
                    assert(ms[k as int].toggle_hotkey@ == ms[h as int].toggle_hotkey@);
                    assert(hotkey_taken_before(ms, h as int));
                    return Err(ConfigError::DuplicateHotkey { hotkey: m.toggle_hotkey.clone() });
                }
                k = k + 1;
            }
            assert(!hotkey_taken_before(ms, h as int));
            h = h + 1;
        }
        Ok(())
    }
}

} // verus!
