//! The engine controller: start/stop lifecycle, per-macro toggle states,
//! status snapshots and the decisions each macro's loops take.

use vstd::prelude::*;

use crate::config::{
    config_error, config_valid, ActionType, Config, ConfigError, KeyMacro, MacroFault, MouseButton,
};
use crate::keys::{function_key_number, key_symbol, str_to_key, str_to_keycode};

verus! {

/// Snapshot of one running macro.
#[derive(Clone, Debug)]
pub struct MacroStatus {
    pub index: usize,
    pub enabled: bool,
    pub action_type: ActionType,
    pub key: String,
    pub mouse_button: Option<MouseButton>,
    pub toggle_hotkey: String,
}

/// Errors reported by the engine.
#[derive(Clone, Debug)]
pub enum EngineError {
    /// `start` was called while the engine runs.
    AlreadyRunning,
    /// The configuration given to `start` was rejected.
    InvalidConfiguration(ConfigError),
    /// A toggle addressed a macro that is not running.
    InvalidIndex,
    /// A macro's key or hotkey is not a supported symbol.
    UnresolvedKeySymbol { index: usize, symbol: String },
    /// Synthesizing one input action failed.
    SynthesisFailure { index: usize },
}

/// `s` reports macro `m` at position `i` with toggle state `enabled`.
pub open spec fn status_matches(s: MacroStatus, i: int, m: KeyMacro, enabled: bool) -> bool {
    &&& s.index == i
    &&& s.enabled == enabled
    &&& s.action_type == m.action_type
    &&& s.key == m.key
    &&& s.mouse_button == m.mouse_button
    &&& s.toggle_hotkey == m.toggle_hotkey
}

/// The initial toggle states of a macro list.
pub open spec fn initial_states(ms: Seq<KeyMacro>) -> Seq<bool> {
    Seq::new(ms.len(), |i: int| ms[i].enabled_by_default)
}

/// The session number that follows `s`.
pub open spec fn next_session(s: u64) -> u64 {
    if s == u64::MAX {
        0
    } else {
        (s + 1) as u64
    }
}

/// The input one firing of a macro synthesizes.
#[derive(Clone, Copy, Debug, PartialEq, Eq, Structural)]
pub enum InputAction {
    /// A click of the key for this character.
    Key(char),
    /// A click of this mouse button.
    Click(MouseButton),
}

/// What a macro's loops need once its symbols are resolved.
#[derive(Clone, Copy, Debug, PartialEq, Eq, Structural)]
pub struct MacroPlan {
    pub action: InputAction,
    /// Function-key number of the toggle hotkey.
    pub hotkey: u8,
    pub interval_ms: u64,
    pub random_variance_ms: u64,
}

/// What an action loop does after one wait.
#[derive(Clone, Copy, Debug, PartialEq, Eq, Structural)]
pub enum TickDecision {
    /// Its session is over: leave the loop.
    Stop,
    /// The macro is disabled: wait again without firing.
    Skip,
    /// Fire once, then wait again.
    Fire,
}

/// The plan for macro `m` at position `index`, or why its loops cannot run.
pub open spec fn plan_outcome(index: usize, m: KeyMacro) -> Result<MacroPlan, EngineError> {
    let action = match m.action_type {
        ActionType::Keyboard => match key_symbol(m.key@) {
            Some(c) => Ok(InputAction::Key(c)),
            None => Err(EngineError::UnresolvedKeySymbol { index, symbol: m.key }),
        },
        ActionType::Mouse => match m.mouse_button {
            Some(b) => Ok(InputAction::Click(b)),
            None => Err(
                EngineError::InvalidConfiguration(
                    ConfigError::InvalidMacro { index, fault: MacroFault::MissingMouseButton },
                ),
            ),
        },
    };
    match action {
        Err(e) => Err(e),
        Ok(a) => match function_key_number(m.toggle_hotkey@) {
            Some(h) => Ok(
                MacroPlan {
                    action: a,
                    hotkey: h,
                    interval_ms: m.interval_ms,
                    random_variance_ms: m.random_variance_ms,
                },
            ),
            None => Err(EngineError::UnresolvedKeySymbol { index, symbol: m.toggle_hotkey }),
        },
    }
}

/// Resolves the symbols of macro `m`, at position `index`, before its loops
/// start. An unsupported key or hotkey symbol stops only this macro.
pub fn plan_macro(index: usize, m: &KeyMacro) -> (r: Result<MacroPlan, EngineError>)
    ensures
        r == plan_outcome(index, *m),
{
    let action = match m.action_type {
        ActionType::Keyboard => match str_to_key(m.key.as_str()) {
            Some(c) => InputAction::Key(c),
            None => {
                return Err(EngineError::UnresolvedKeySymbol { index, symbol: m.key.clone() });
            },
        },
        ActionType::Mouse => match m.mouse_button {
            Some(b) => InputAction::Click(b),
            None => {
                return Err(
                    EngineError::InvalidConfiguration(
                        ConfigError::InvalidMacro { index, fault: MacroFault::MissingMouseButton },
                    ),
                );
            },
        },
    };
    match str_to_keycode(m.toggle_hotkey.as_str()) {
        Some(h) => Ok(
            MacroPlan {
                action,
                hotkey: h,
                interval_ms: m.interval_ms,
                random_variance_ms: m.random_variance_ms,
            },
        ),
        None => Err(EngineError::UnresolvedKeySymbol { index, symbol: m.toggle_hotkey.clone() }),
    }
}

/// Engine controller. While running it owns the active configuration and
/// one toggle state per macro; each successful start opens a new session,
/// whose number the loops of that start carry so that loops of an earlier
/// session stop and never touch the current state.
pub struct MacroEngineState {
    config: Option<Config>,
    macro_states: Vec<bool>,
    session: u64,
}

impl MacroEngineState {
    /// The engine is running.
    pub closed spec fn running(&self) -> bool {
        self.config is Some
    }

    /// The running macros, in configuration order; empty when idle.
    pub closed spec fn macros(&self) -> Seq<KeyMacro> {
        match self.config {
            Some(c) => c.macros@,
            None => Seq::empty(),
        }
    }

    /// The toggle state of each running macro.
    pub closed spec fn enabled(&self) -> Seq<bool> {
        self.macro_states@
    }

    /// Number of the current session.
    pub closed spec fn session(&self) -> u64 {
        self.session
    }

    /// One toggle state per running macro.
    pub closed spec fn wf(&self) -> bool {
        self.macro_states@.len() == self.macros().len()
    }

    /// Postcondition of `start`.
    pub open spec fn start_outcome(
        pre: MacroEngineState,
        config: Config,
        post: MacroEngineState,
        r: Result<(), EngineError>,
    ) -> bool {
        if pre.running() {
            r matches Err(EngineError::AlreadyRunning) && post == pre
        } else if !config_valid(config.macros@) {
            &&& r matches Err(EngineError::InvalidConfiguration(e))
            &&& config_error(config.macros@) == Some(e)
            &&& post == pre
        } else {
            &&& r is Ok
            &&& post.running()
            &&& post.macros() == config.macros@
            &&& post.enabled() == initial_states(config.macros@)
            &&& post.session() == next_session(pre.session())
        }
    }

    /// Postcondition of `stop`.
    pub open spec fn stop_outcome(pre: MacroEngineState, post: MacroEngineState) -> bool {
        &&& !post.running()
        &&& post.macros().len() == 0
        &&& post.enabled().len() == 0
        &&& post.session() == pre.session()
    }

    /// Postcondition of `get_status`.
    pub open spec fn status_outcome(e: MacroEngineState, r: Seq<MacroStatus>) -> bool {
        &&& r.len() == e.macros().len()
        &&& forall|i: int| 0 <= i < r.len() ==> status_matches(r[i], i, e.macros()[i], e.enabled()[i])
    }

    /// Postcondition of `toggle_macro`.
    pub open spec fn toggle_outcome(
        pre: MacroEngineState,
        index: usize,
        post: MacroEngineState,
        r: Result<(), EngineError>,
    ) -> bool {
        if index < pre.enabled().len() {
            &&& r is Ok
            &&& post.running() == pre.running()
            &&& post.macros() == pre.macros()
            &&& post.session() == pre.session()
            &&& post.enabled() == pre.enabled().update(index as int, !pre.enabled()[index as int])
        } else {
            r matches Err(EngineError::InvalidIndex) && post == pre
        }
    }

    /// An idle engine.
    pub fn new() -> (r: Self)
        ensures
            r.wf(),
            !r.running(),
            r.macros().len() == 0,
            r.enabled().len() == 0,
            r.session() == 0,
    {
        MacroEngineState { config: None, macro_states: Vec::new(), session: 0 }
    }

    /// Starts the engine with `config`: fails with `AlreadyRunning` while it
    /// runs and with `InvalidConfiguration` when the configuration is
    /// rejected, leaving the state untouched; otherwise stores the
    /// configuration, seeds each toggle state from `enabled_by_default` and
    /// opens a new session.
    pub fn start(&mut self, config: Config) -> (r: Result<(), EngineError>)
        requires
            old(self).wf(),
        ensures
            final(self).wf(),
            Self::start_outcome(*old(self), config, *final(self), r),
    {
        if self.config.is_some() {
            return Err(EngineError::AlreadyRunning);
        }
        match config.validate() {
            Err(e) => {
                return Err(EngineError::InvalidConfiguration(e));
            },
            Ok(()) => {},
        }
        let n = config.macros.len();
        let mut states: Vec<bool> = Vec::with_capacity(n);
        let mut i: usize = 0;
        while i < n
            invariant
                n == config.macros@.len(),
                i <= n,
                states@ == initial_states(config.macros@).subrange(0, i as int),
            decreases n - i,
        {
            states.push(config.macros[i].enabled_by_default);
            i = i + 1;
        }
        assert(states@ == initial_states(config.macros@));
        self.macro_states = states;
        self.config = Some(config);
        self.session = if self.session == u64::MAX {
            0
        } else {
            self.session + 1
        };
        Ok(())
    }

    /// Stops the engine: it is idle afterwards, with no configuration and no
    /// toggle states. Calling it while idle does nothing more.
    pub fn stop(&mut self)
        requires
            old(self).wf(),
        ensures
            final(self).wf(),
            Self::stop_outcome(*old(self), *final(self)),
    {
        self.config = None;
        self.macro_states = Vec::new();
    }

    /// Whether the engine runs.
    pub fn is_running(&self) -> (r: bool)
        ensures
            r == self.running(),
    {
        self.config.is_some()
    }

    /// The number of the current session.
    pub fn current_session(&self) -> (r: u64)
        ensures
            r == self.session(),
    {
        self.session
    }

    /// `session` is the session of the running engine.
    pub open spec fn session_active(&self, session: u64) -> bool {
        self.running() && session == self.session()
    }

    /// What the action loop of macro `index` in `session` does now.
    pub open spec fn tick_decision(&self, session: u64, index: usize) -> TickDecision {
        if !self.session_active(session) {
            TickDecision::Stop
        } else if index < self.enabled().len() && self.enabled()[index as int] {
            TickDecision::Fire
        } else {
            TickDecision::Skip
        }
    }

    /// Whether loops of `session` keep running.
    pub fn is_session_active(&self, session: u64) -> (r: bool)
        ensures
            r == self.session_active(session),
    {
        self.config.is_some() && session == self.session
    }

    /// The decision of the action loop of macro `index` in `session` after a
    /// wait: stop once the session is over, fire when the macro is enabled,
    /// skip otherwise.
    pub fn action_tick(&self, session: u64, index: usize) -> (r: TickDecision)
        requires
            self.wf(),
        ensures
            r == self.tick_decision(session, index),
    {
        if !self.is_session_active(session) {
            TickDecision::Stop
        } else if index < self.macro_states.len() && self.macro_states[index] {
            TickDecision::Fire
        } else {
            TickDecision::Skip
        }
    }

    /// Flips macro `index`'s toggle state on a hotkey press seen by a loop of
    /// `session`; a press seen by a loop of an earlier session changes
    /// nothing. Returns whether the state was flipped.
    pub fn toggle_from_hotkey(&mut self, session: u64, index: usize) -> (r: bool)
        requires
            old(self).wf(),
        ensures
            final(self).wf(),
            r == (old(self).session_active(session) && index < old(self).enabled().len()),
            r ==> Self::toggle_outcome(*old(self), index, *final(self), Ok(())),
            !r ==> *final(self) == *old(self),
    {
        if !self.is_session_active(session) {
            return false;
        }
        self.toggle_macro(index).is_ok()
    }

    /// One status per running macro, in configuration order, with each
    /// toggle state read now; empty when idle.
    pub fn get_status(&self) -> (r: Vec<MacroStatus>)
        requires
            self.wf(),
        ensures
            Self::status_outcome(*self, r@),
    {
        let mut out: Vec<MacroStatus> = Vec::new();
        match &self.config {
            None => {},
            Some(config) => {
                let n = config.macros.len();
                let mut i: usize = 0;
                while i < n
                    invariant
                        self.wf(),
                        self.config == Some(*config),
                        n == self.macros().len(),
                        i <= n,
                        out@.len() == i,
                        forall|j: int|
                            0 <= j < i ==> status_matches(
                                out@[j],
                                j,
                                self.macros()[j],
                                self.enabled()[j],
                            ),
                    decreases n - i,
                {
                    let m = &config.macros[i];
                    out.push(
                        MacroStatus {
                            index: i,
                            enabled: self.macro_states[i],
                            action_type: m.action_type,
                            key: m.key.clone(),
                            mouse_button: m.mouse_button,
                            toggle_hotkey: m.toggle_hotkey.clone(),
                        },
                    );
                    i = i + 1;
                }
            },
        }
        out
    }

    /// Flips the toggle state of running macro `index`; fails with
    /// `InvalidIndex` when no running macro has that index (always while
    /// idle).
    pub fn toggle_macro(&mut self, index: usize) -> (r: Result<(), EngineError>)
        requires
            old(self).wf(),
        ensures
            final(self).wf(),
            Self::toggle_outcome(*old(self), index, *final(self), r),
    {
        if index >= self.macro_states.len() {
            return Err(EngineError::InvalidIndex);
        }
        let current = self.macro_states[index];
        self.macro_states.set(index, !current);
        Ok(())
    }
}

/// Command-line engine: holds the configuration it was built with.
pub struct MacroEngine {
    config: Config,
}

impl MacroEngine {
    /// The configuration this engine runs.
    pub closed spec fn configuration(&self) -> Config {
        self.config
    }

    /// An engine for `config`.
    pub fn new(config: Config) -> (r: Self)
        ensures
            r.configuration() == config,
    {
        MacroEngine { config }
    }

    /// The configuration this engine runs.
    pub fn config(&self) -> (r: &Config)
        ensures
            *r == self.configuration(),
    {
        &self.config
    }
}

/// A start that fails leaves the engine exactly as it was.
pub proof fn lemma_failed_start_changes_nothing(
    pre: MacroEngineState,
    config: Config,
    post: MacroEngineState,
    r: Result<(), EngineError>,
)
    requires
        MacroEngineState::start_outcome(pre, config, post, r),
        r is Err,
    ensures
        post == pre,
{
}

/// On an idle engine, a start with no macros fails with
/// `EmptyConfiguration`, and a following start with a valid configuration
/// succeeds.
pub proof fn lemma_empty_start_then_valid_start(
    e0: MacroEngineState,
    empty: Config,
    e1: MacroEngineState,
    r1: Result<(), EngineError>,
    good: Config,
    e2: MacroEngineState,
    r2: Result<(), EngineError>,
)
    requires
        !e0.running(),
        empty.macros@.len() == 0,
        config_valid(good.macros@),
        MacroEngineState::start_outcome(e0, empty, e1, r1),
        MacroEngineState::start_outcome(e1, good, e2, r2),
    ensures
        r1 matches Err(EngineError::InvalidConfiguration(ConfigError::EmptyConfiguration)),
        e1 == e0,
        r2 is Ok,
        e2.running(),
{
}

/// Right after a successful start, the status lists every macro of the
/// configuration in order, each with its `enabled_by_default` value.
pub proof fn lemma_status_after_start(
    pre: MacroEngineState,
    config: Config,
    post: MacroEngineState,
    st: Seq<MacroStatus>,
)
    requires
        MacroEngineState::start_outcome(pre, config, post, Ok(())),
        MacroEngineState::status_outcome(post, st),
    ensures
        st.len() == config.macros@.len(),
        forall|i: int|
            0 <= i < st.len() ==> st[i].index == i && st[i].enabled
                == config.macros@[i].enabled_by_default && st[i].key == config.macros@[i].key
                && st[i].toggle_hotkey == config.macros@[i].toggle_hotkey,
{
}

/// Toggling a valid index flips that macro's reported state and no other;
/// toggling an index past the running macros fails with `InvalidIndex`.
pub proof fn lemma_toggle_flips_one_status(
    pre: MacroEngineState,
    index: usize,
    post: MacroEngineState,
    r: Result<(), EngineError>,
    before: Seq<MacroStatus>,
    after: Seq<MacroStatus>,
)
    requires
        MacroEngineState::toggle_outcome(pre, index, post, r),
        MacroEngineState::status_outcome(pre, before),
        MacroEngineState::status_outcome(post, after),
        pre.wf(),
    ensures
        index < before.len() ==> r is Ok && after.len() == before.len() && after[index as int].enabled
            == !before[index as int].enabled && forall|i: int|
            0 <= i < after.len() && i != index ==> after[i].enabled == before[i].enabled,
        index >= before.len() ==> r matches Err(EngineError::InvalidIndex),
{
}

/// After a stop the status is empty, and a second stop leaves the engine as
/// the first one did.
pub proof fn lemma_stop_clears_and_repeats(
    e0: MacroEngineState,
    e1: MacroEngineState,
    st: Seq<MacroStatus>,
    e2: MacroEngineState,
)
    requires
        MacroEngineState::stop_outcome(e0, e1),
        MacroEngineState::status_outcome(e1, st),
        MacroEngineState::stop_outcome(e1, e2),
    ensures
        st.len() == 0,
        !e2.running(),
        e2.macros() == e1.macros(),
        e2.enabled() == e1.enabled(),
        e2.session() == e1.session(),
{
}

} // verus!
