//! Mouse module: every few days it adds a wheel scroll line, flips wheel
//! routing and lowers the pointer speed by one step.
use vstd::prelude::*;
use crate::config::{joined_path, join_path, BaseConfig, BaseConfigView, ModuleConfig};
use crate::persist::{
    bool_at, get_bool, get_str, get_u32, get_u64, put_bool, put_str, put_u32, put_u64, str_at,
    table_new, u32_at, u64_at, PersistError, TomlTable,
};
use crate::schedule::{is_due, rearm, rearm_time, DAY};

verus! {

pub const MODULE_NAME: &'static str = "mouse";

/// Seconds between two firings of a fresh module.
pub const DEFAULT_FREQUENCY: u32 = 2 * DAY;

pub const MOUSE_WHEEL_ROUTING_DISABLED: u32 = 0;
pub const MOUSE_WHEEL_ROUTING_ENABLED: u32 = 2;

/// The largest number of lines the system accepts per wheel notch.
pub const MAX_SCROLL_LINES: u32 = 100;

/// The largest pointer speed the system accepts.
pub const MAX_SENSITIVITY: u32 = 20;

#[derive(Clone, Copy, Debug, PartialEq, Eq, Structural)]
pub enum MouseError {
    ScrollLinesOutOfRange,
    SensitivityOutOfRange,
}

pub struct MouseModuleView {
    pub enabled: bool,
    pub next_trigger: u64,
    pub frequency: u32,
    pub module_home: Seq<char>,
}

pub struct MouseModule {
    enabled: bool,
    next_trigger: u64,
    frequency: u32,
    module_home: String,
}

impl View for MouseModule {
    type V = MouseModuleView;

    closed spec fn view(&self) -> MouseModuleView {
        MouseModuleView {
            enabled: self.enabled,
            next_trigger: self.next_trigger,
            frequency: self.frequency,
            module_home: self.module_home@,
        }
    }
}

/// A fresh module under the configuration home `home`: switched on, due at
/// `now`, firing every `DEFAULT_FREQUENCY` seconds.
pub open spec fn fresh_mouse(home: Seq<char>, now: u64) -> MouseModuleView {
    MouseModuleView {
        enabled: true,
        next_trigger: now,
        frequency: DEFAULT_FREQUENCY,
        module_home: joined_path(home, MODULE_NAME@),
    }
}

/// One adjustment of a firing, performed by the caller against the system.
#[derive(Clone, Copy, Debug, PartialEq, Eq, Structural)]
pub enum MouseAction {
    /// Read the wheel scroll lines and set `increase_wheel_scroll_lines` of them.
    IncreaseWheelScrollLines,
    /// Read the wheel routing and set `toggle_mouse_wheel_routing` of it.
    ToggleWheelRouting,
    /// Read the pointer speed and set `decrease_sensitivity` of it, if any.
    DecreaseSensitivity,
}

/// The adjustments of one firing, in the order they are performed.
pub open spec fn firing_actions() -> Seq<MouseAction> {
    seq![
        MouseAction::IncreaseWheelScrollLines,
        MouseAction::ToggleWheelRouting,
        MouseAction::DecreaseSensitivity,
    ]
}

/// The state a table holds, when it holds a valid one.
pub open spec fn mouse_decoded(t: TomlTable) -> Option<MouseModuleView> {
    match (bool_at(t, "enabled"@), u64_at(t, "next_trigger"@), u32_at(t, "frequency"@), str_at(t, "module_home"@)) {
        (Some(enabled), Some(next_trigger), Some(frequency), Some(module_home)) => {
            if frequency > 0 {
                Some(MouseModuleView { enabled, next_trigger, frequency, module_home })
            } else {
                None
            }
        },
        _ => None,
    }
}

/// The scroll lines after one more line is added, or the error for a value
/// the system does not accept.
pub open spec fn increased_scroll_lines(lines: u32) -> Result<u32, MouseError> {
    if lines < MAX_SCROLL_LINES {
        Ok((lines + 1) as u32)
    } else {
        Err(MouseError::ScrollLinesOutOfRange)
    }
}

pub open spec fn toggled_routing(routing: u32) -> u32 {
    if routing == MOUSE_WHEEL_ROUTING_DISABLED {
        MOUSE_WHEEL_ROUTING_ENABLED
    } else {
        MOUSE_WHEEL_ROUTING_DISABLED
    }
}

/// The pointer speed one step lower: nothing to do at the minimum of 1, and an
/// error for a value the system does not accept.
pub open spec fn decreased_sensitivity(sensitivity: u32) -> Result<Option<u32>, MouseError> {
    if sensitivity <= 1 {
        Ok(None)
    } else if sensitivity - 1 > MAX_SENSITIVITY {
        Err(MouseError::SensitivityOutOfRange)
    } else {
        Ok(Some((sensitivity - 1) as u32))
    }
}

impl MouseModule {
    /// Well-formed: the re-arm interval is positive.
    pub open spec fn wf_view(v: MouseModuleView) -> bool {
        v.frequency > 0
    }

    pub fn from_parts(enabled: bool, next_trigger: u64, frequency: u32, module_home: String) -> (r:
        MouseModule)
        ensures
            r@ == (MouseModuleView { enabled, next_trigger, frequency, module_home: module_home@ }),
    {
        MouseModule { enabled, next_trigger, frequency, module_home }
    }

    /// A fresh module: switched on, due at once, firing every `DEFAULT_FREQUENCY` seconds.
    pub fn new_default(base_config: &BaseConfig, now: u64) -> (r: MouseModule)
        ensures
            r@ == fresh_mouse(base_config@.home_dir, now),
            Self::wf_view(r@),
    {
        MouseModule {
            enabled: true,
            next_trigger: now,
            frequency: DEFAULT_FREQUENCY,
            module_home: Self::construct_module_home(base_config.get_home_dir()),
        }
    }

    /// The per-tick entry point. When switched on and due at `now`, the module
    /// fires: it is re-armed one interval after `now`, whatever the adjustments
    /// then give, and returns the adjustments for the caller to perform in
    /// order. Otherwise nothing changes and nothing is to be done.
    pub fn trigger(&mut self, now: u64) -> (r: Vec<MouseAction>)
        ensures
            old(self)@.enabled && is_due(now, old(self)@.next_trigger) ==> {
                &&& r@ == firing_actions()
                &&& final(self)@ == (MouseModuleView {
                    next_trigger: rearm_time(now, old(self)@.frequency as u64),
                    ..old(self)@
                })
            },
            !(old(self)@.enabled && is_due(now, old(self)@.next_trigger)) ==> r@.len() == 0
                && final(self)@ == old(self)@,
            now < old(self)@.next_trigger ==> r@.len() == 0 && final(self)@ == old(self)@,
            Self::wf_view(old(self)@) && r@.len() > 0 && now + old(self)@.frequency <= u64::MAX
                ==> final(self)@.next_trigger > now,
    {
        let mut r: Vec<MouseAction> = Vec::new();
        if !self.enabled || now < self.next_trigger {
            return r;
        }
        let next = rearm(now, self.frequency as u64);
        self.set_next_change(next);
        r.push(MouseAction::IncreaseWheelScrollLines);
        r.push(MouseAction::ToggleWheelRouting);
        r.push(MouseAction::DecreaseSensitivity);
        proof {
            assert(r@ =~= firing_actions());
        }
        r
    }

    /// Lowers the pointer speed read from the system (`None` when it could not
    /// be read) and re-arms the module one interval after `now`, whatever the
    /// outcome.
    pub fn decrease_sensitivity_and_reschedule(
        &mut self,
        sensitivity: Option<u32>,
        now: u64,
    ) -> (r: Result<Option<u32>, MouseError>)
        ensures
            r == match sensitivity {
                Some(s) => decreased_sensitivity(s),
                None => Ok(None),
            },
            final(self)@ == (MouseModuleView {
                next_trigger: rearm_time(now, old(self)@.frequency as u64),
                ..old(self)@
            }),
            Self::wf_view(old(self)@) && now + old(self)@.frequency <= u64::MAX
                ==> final(self)@.next_trigger > now,
    {
        let r = match sensitivity {
            Some(s) => self.decrease_sensitivity(s),
            None => Ok(None),
        };
        let next = rearm(now, self.frequency as u64);
        self.set_next_change(next);
        r
    }

    /// The scroll lines to set after one more line is added.
    pub fn increase_wheel_scroll_lines(&self, lines: u32) -> (r: Result<u32, MouseError>)
        ensures
            r == increased_scroll_lines(lines),
    {
        if lines < MAX_SCROLL_LINES {
            Ok(lines + 1)
        } else {
            Err(MouseError::ScrollLinesOutOfRange)
        }
    }

    /// The wheel routing to set: enabled when it was disabled, else disabled.
    pub fn toggle_mouse_wheel_routing(&self, routing: u32) -> (r: u32)
        ensures
            r == toggled_routing(routing),
    {
        if routing == MOUSE_WHEEL_ROUTING_DISABLED {
            MOUSE_WHEEL_ROUTING_ENABLED
        } else {
            MOUSE_WHEEL_ROUTING_DISABLED
        }
    }

    /// The pointer speed to set, if any, one step below `sensitivity`.
    pub fn decrease_sensitivity(&self, sensitivity: u32) -> (r: Result<Option<u32>, MouseError>)
        ensures
            r == decreased_sensitivity(sensitivity),
    {
        if sensitivity <= 1 {
            Ok(None)
        } else if sensitivity - 1 > MAX_SENSITIVITY {
            Err(MouseError::SensitivityOutOfRange)
        } else {
            Ok(Some(sensitivity - 1))
        }
    }

    pub fn set_next_change(&mut self, next_change: u64)
        ensures
            final(self)@ == (MouseModuleView { next_trigger: next_change, ..old(self)@ }),
    {
        self.next_trigger = next_change;
    }

    pub fn get_next_change(&self) -> (r: u64)
        ensures
            r == self@.next_trigger,
    {
        self.next_trigger
    }

    pub fn get_frequency(&self) -> (r: u32)
        ensures
            r == self@.frequency,
    {
        self.frequency
    }
}

impl ModuleConfig for MouseModule {
    open spec fn spec_module_name() -> Seq<char> {
        MODULE_NAME@
    }

    open spec fn spec_enabled(v: MouseModuleView) -> bool {
        v.enabled
    }

    open spec fn spec_module_home(v: MouseModuleView) -> Seq<char> {
        v.module_home
    }

    open spec fn spec_with_enabled(v: MouseModuleView, enabled: bool) -> MouseModuleView {
        MouseModuleView { enabled, ..v }
    }

    open spec fn spec_with_home(v: MouseModuleView, home: Seq<char>) -> MouseModuleView {
        MouseModuleView { module_home: home, ..v }
    }

    fn get_module_name(&self) -> (r: &'static str) {
        MODULE_NAME
    }

    fn module_name() -> (r: &'static str) {
        MODULE_NAME
    }

    fn get_module_home(&self) -> (r: &String) {
        &self.module_home
    }

    fn get_enabled(&self) -> (r: bool) {
        self.enabled
    }

    fn set_enabled(&mut self, enabled: bool) {
        self.enabled = enabled;
    }

    fn construct_module_home(base_home_path: &String) -> (r: String) {
        join_path(base_home_path.as_str(), MODULE_NAME)
    }

    fn refresh_base_config(&mut self, base_config: &BaseConfig) {
        self.module_home = Self::construct_module_home(base_config.get_home_dir());
    }

    open spec fn spec_valid(v: MouseModuleView) -> bool {
        Self::wf_view(v)
    }

    open spec fn spec_fits(v: MouseModuleView) -> bool {
        v.next_trigger <= i64::MAX
    }

    open spec fn spec_encodes(t: TomlTable, v: MouseModuleView) -> bool {
        &&& bool_at(t, "enabled"@) == Some(v.enabled)
        &&& u64_at(t, "next_trigger"@) == Some(v.next_trigger)
        &&& u32_at(t, "frequency"@) == Some(v.frequency)
        &&& str_at(t, "module_home"@) == Some(v.module_home)
    }

    open spec fn spec_loadable(t: TomlTable) -> bool {
        mouse_decoded(t) is Some
    }

    open spec fn spec_decodes(t: TomlTable, now: u64, v: MouseModuleView) -> bool {
        mouse_decoded(t) == Some(v)
    }

    open spec fn spec_fresh(base: BaseConfigView, now: u64, v: MouseModuleView) -> bool {
        v == fresh_mouse(base.home_dir, now)
    }

    open spec fn spec_same_saved(a: MouseModuleView, b: MouseModuleView) -> bool {
        a == b
    }

    fn default_module(base_config: &BaseConfig, now: u64) -> (r: Self) {
        Self::new_default(base_config, now)
    }

    fn to_table(&self) -> (r: Result<TomlTable, PersistError>) {
        proof {
            reveal_strlit("enabled");
            reveal_strlit("next_trigger");
            reveal_strlit("frequency");
            reveal_strlit("module_home");
            assert("enabled"@.len() == 7);
            assert("next_trigger"@.len() == 12);
            assert("frequency"@.len() == 9);
            assert("module_home"@.len() == 11);
        }
        let mut t = table_new();
        put_bool(&mut t, "enabled", self.enabled);
        put_u64(&mut t, "next_trigger", self.next_trigger)?;
        put_u32(&mut t, "frequency", self.frequency);
        put_str(&mut t, "module_home", &self.module_home);
        Ok(t)
    }

    fn from_table(t: &TomlTable, now: u64) -> (r: Result<Self, PersistError>) {
        let enabled = get_bool(t, "enabled")?;
        let next_trigger = get_u64(t, "next_trigger")?;
        let frequency = get_u32(t, "frequency")?;
        let module_home = get_str(t, "module_home")?;
        if frequency == 0 {
            return Err(PersistError::BadField);
        }
        Ok(MouseModule { enabled, next_trigger, frequency, module_home })
    }

    proof fn lemma_round_trip(t: TomlTable, now: u64, v: MouseModuleView, w: MouseModuleView) {
    }
}

} // verus!
