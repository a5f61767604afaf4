//! Clipboard module: on each tick it runs the tampering sub-scheduler over
//! the clipboard text.
use vstd::prelude::*;
use crate::config::{joined_path, join_path, BaseConfig, BaseConfigView, ModuleConfig};
use crate::persist::{
    bool_at, get_bool, get_str, get_u64, put_bool, put_str, put_u64, str_at, table_new,
    u64_at, PersistError, TomlTable,
};
use crate::random::random_in_range;
use crate::tampering::{
    any_applies, get_tampering_functions, is_default_registry, pass_tamperings, pass_text,
    tamper_pass, ClipboardTampering, ROLL_RANGE,
};

verus! {

pub const MODULE_NAME: &'static str = "clipboard";

pub struct ClipboardModuleView {
    pub enabled: bool,
    pub read_content: bool,
    pub write_content: bool,
    pub home_dir: Seq<char>,
    pub next_tampering_trigger: u64,
    /// The registered transformations; they are not persisted but rebuilt at startup.
    pub tamperings: Seq<ClipboardTampering>,
}

pub struct ClipboardModule {
    enabled: bool,
    read_content: bool,
    write_content: bool,
    home_dir: String,
    next_tampering_trigger: u64,
    tampering_functions: Vec<ClipboardTampering>,
}

impl View for ClipboardModule {
    type V = ClipboardModuleView;

    closed spec fn view(&self) -> ClipboardModuleView {
        ClipboardModuleView {
            enabled: self.enabled,
            read_content: self.read_content,
            write_content: self.write_content,
            home_dir: self.home_dir@,
            next_tampering_trigger: self.next_tampering_trigger,
            tamperings: self.tampering_functions@,
        }
    }
}

/// A pass over `old` with the given rolls leaves `new` and hands back `r`: the
/// text to write back, present exactly when some action was applied.
pub open spec fn pass_outcome(
    old: ClipboardModuleView,
    new: ClipboardModuleView,
    rolls: Seq<u32>,
    now: u64,
    content: Seq<char>,
    r: Option<String>,
) -> bool {
    &&& rolls.len() == old.tamperings.len()
    &&& new == ClipboardModuleView { tamperings: pass_tamperings(old.tamperings, rolls, now), ..old }
    &&& (r is Some <==> any_applies(old.tamperings, rolls, now))
    &&& (r matches Some(s) ==> s@ == pass_text(old.tamperings, rolls, now, content, rolls.len()))
}

/// Every roll is one of the equally likely values `0..ROLL_RANGE`.
pub open spec fn rolls_in_range(rolls: Seq<u32>) -> bool {
    forall|i: int| 0 <= i < rolls.len() ==> #[trigger] rolls[i] < ROLL_RANGE
}

/// The persisted fields of the module that a table holds, when it holds them.
pub open spec fn clipboard_fields_at(t: TomlTable) -> Option<(bool, bool, bool, Seq<char>, u64)> {
    match (
        bool_at(t, "enabled"@),
        bool_at(t, "read_content"@),
        bool_at(t, "write_content"@),
        str_at(t, "home_dir"@),
        u64_at(t, "next_tampering_trigger"@),
    ) {
        (Some(e), Some(rc), Some(wc), Some(h), Some(n)) => Some((e, rc, wc, h, n)),
        _ => None,
    }
}

/// A fresh module under the configuration home `home` at `now`: switched on,
/// reading and writing allowed, with the default registry drawn at `now`.
pub open spec fn is_fresh_clipboard(home: Seq<char>, now: u64, v: ClipboardModuleView) -> bool {
    &&& v.enabled
    &&& v.read_content
    &&& v.write_content
    &&& v.home_dir == joined_path(home, MODULE_NAME@)
    &&& v.next_tampering_trigger == now
    &&& is_default_registry(v.tamperings, now)
}

impl ClipboardModule {
    /// A fresh module: switched on, reading and writing allowed, with the
    /// default transformations registered at `now`.
    pub fn new_default(base_config: &BaseConfig, now: u64) -> (r: ClipboardModule)
        ensures
            is_fresh_clipboard(base_config@.home_dir, now, r@),
    {
        ClipboardModule {
            enabled: true,
            read_content: true,
            write_content: true,
            home_dir: Self::construct_module_home(base_config.get_home_dir()),
            next_tampering_trigger: now,
            tampering_functions: get_tampering_functions(now),
        }
    }

    pub fn get_tamperings(&self) -> (r: &Vec<ClipboardTampering>)
        ensures
            r@ == self@.tamperings,
    {
        &self.tampering_functions
    }

    /// Replaces the registered transformations.
    pub fn set_tamperings(&mut self, tamperings: Vec<ClipboardTampering>)
        ensures
            final(self)@ == (ClipboardModuleView { tamperings: tamperings@, ..old(self)@ }),
    {
        self.tampering_functions = tamperings;
    }

    /// One pass of the sub-scheduler over `content` with one drawn roll per
    /// action: returns the text to write back, or `None` when no action was
    /// applied and the clipboard is to be left alone.
    pub fn tamper_with_rolls(&mut self, content: String, rolls: &Vec<u32>, now: u64) -> (r: Option<
        String,
    >)
        requires
            rolls@.len() == old(self)@.tamperings.len(),
        ensures
            pass_outcome(old(self)@, final(self)@, rolls@, now, content@, r),
    {
        let mut text = content;
        let fired = tamper_pass(&mut self.tampering_functions, &mut text, rolls, now);
        if fired {
            Some(text)
        } else {
            None
        }
    }

    /// One pass of the sub-scheduler over `content`, with a fresh roll drawn
    /// for each action. Whatever the draws, an action whose cooldown has not
    /// elapsed is left untouched.
    pub fn tamper_with_clipboard(&mut self, content: String, now: u64) -> (r: Option<String>)
        ensures
            exists|rolls: Seq<u32>|
                rolls_in_range(rolls) && #[trigger] pass_outcome(
                    old(self)@,
                    final(self)@,
                    rolls,
                    now,
                    content@,
                    r,
                ),
            forall|i: int|
                0 <= i < old(self)@.tamperings.len() && now < old(self)@.tamperings[i].trigger
                    ==> #[trigger] final(self)@.tamperings[i] == old(self)@.tamperings[i],
    {
        let n = self.tampering_functions.len();
        let mut rolls: Vec<u32> = Vec::with_capacity(n);
        let mut i: usize = 0;
        while i < n
            invariant
                i <= n,
                rolls@.len() == i,
                rolls_in_range(rolls@),
            decreases n - i,
        {
            rolls.push(random_in_range(0, ROLL_RANGE));
            i += 1;
        }
        let r = self.tamper_with_rolls(content, &rolls, now);
        r
    }

    /// The per-tick entry point, given the clipboard text (`None` when it could
    /// not be read). A module that is switched off, or a tick without text,
    /// changes nothing and writes nothing.
    pub fn trigger(&mut self, content: Option<String>, now: u64) -> (r: Option<String>)
        ensures
            !old(self)@.enabled || content is None ==> r is None && final(self)@ == old(self)@,
            old(self)@.enabled && content is Some ==> exists|rolls: Seq<u32>|
                rolls_in_range(rolls) && #[trigger] pass_outcome(
                    old(self)@,
                    final(self)@,
                    rolls,
                    now,
                    content->Some_0@,
                    r,
                ),
    {
        if !self.enabled {
            return None;
        }
        match content {
            Some(text) => self.tamper_with_clipboard(text, now),
            None => None,
        }
    }
}

impl ModuleConfig for ClipboardModule {
    open spec fn spec_module_name() -> Seq<char> {
        MODULE_NAME@
    }

    open spec fn spec_enabled(v: ClipboardModuleView) -> bool {
        v.enabled
    }

    open spec fn spec_module_home(v: ClipboardModuleView) -> Seq<char> {
        v.home_dir
    }

    open spec fn spec_with_enabled(v: ClipboardModuleView, enabled: bool) -> ClipboardModuleView {
        ClipboardModuleView { enabled, ..v }
    }

    open spec fn spec_with_home(v: ClipboardModuleView, home: Seq<char>) -> ClipboardModuleView {
        ClipboardModuleView { home_dir: home, ..v }
    }

    fn get_module_name(&self) -> (r: &'static str) {
        MODULE_NAME
    }

    fn module_name() -> (r: &'static str) {
        MODULE_NAME
    }

    fn get_module_home(&self) -> (r: &String) {
        &self.home_dir
    }

    fn get_enabled(&self) -> (r: bool) {
        self.enabled
    }

    fn set_enabled(&mut self, enabled: bool) {
        self.enabled = enabled;
    }

    fn construct_module_home(base_home_path: &String) -> (r: String) {
        join_path(base_home_path.as_str(), MODULE_NAME)
    }

    fn refresh_base_config(&mut self, base_config: &BaseConfig) {
        self.home_dir = Self::construct_module_home(base_config.get_home_dir());
    }

    open spec fn spec_valid(v: ClipboardModuleView) -> bool {
        true
    }

    open spec fn spec_fits(v: ClipboardModuleView) -> bool {
        v.next_tampering_trigger <= i64::MAX
    }

    open spec fn spec_encodes(t: TomlTable, v: ClipboardModuleView) -> bool {
        clipboard_fields_at(t) == Some(
            (v.enabled, v.read_content, v.write_content, v.home_dir, v.next_tampering_trigger),
        )
    }

    open spec fn spec_loadable(t: TomlTable) -> bool {
        clipboard_fields_at(t) is Some
    }

    open spec fn spec_decodes(t: TomlTable, now: u64, v: ClipboardModuleView) -> bool {
        Self::spec_encodes(t, v) && is_default_registry(v.tamperings, now)
    }

    open spec fn spec_fresh(base: BaseConfigView, now: u64, v: ClipboardModuleView) -> bool {
        is_fresh_clipboard(base.home_dir, now, v)
    }

    open spec fn spec_same_saved(a: ClipboardModuleView, b: ClipboardModuleView) -> bool {
        &&& a.enabled == b.enabled
        &&& a.read_content == b.read_content
        &&& a.write_content == b.write_content
        &&& a.home_dir == b.home_dir
        &&& a.next_tampering_trigger == b.next_tampering_trigger
    }

    fn default_module(base_config: &BaseConfig, now: u64) -> (r: Self) {
        Self::new_default(base_config, now)
    }

    fn to_table(&self) -> (r: Result<TomlTable, PersistError>) {
        proof {
            reveal_strlit("enabled");
            reveal_strlit("read_content");
            reveal_strlit("write_content");
            reveal_strlit("home_dir");
            reveal_strlit("next_tampering_trigger");
            assert("enabled"@.len() == 7);
            assert("read_content"@.len() == 12);
            assert("write_content"@.len() == 13);
            assert("home_dir"@.len() == 8);
            assert("next_tampering_trigger"@.len() == 22);
        }
        let mut t = table_new();
        put_bool(&mut t, "enabled", self.enabled);
        put_bool(&mut t, "read_content", self.read_content);
        put_bool(&mut t, "write_content", self.write_content);
        put_str(&mut t, "home_dir", &self.home_dir);
        put_u64(&mut t, "next_tampering_trigger", self.next_tampering_trigger)?;
        Ok(t)
    }

    fn from_table(t: &TomlTable, now: u64) -> (r: Result<Self, PersistError>) {
        let enabled = get_bool(t, "enabled")?;
        let read_content = get_bool(t, "read_content")?;
        let write_content = get_bool(t, "write_content")?;
        let home_dir = get_str(t, "home_dir")?;
        let next_tampering_trigger = get_u64(t, "next_tampering_trigger")?;
        Ok(
            ClipboardModule {
                enabled,
                read_content,
                write_content,
                home_dir,
                next_tampering_trigger,
                tampering_functions: get_tampering_functions(now),
            },
        )
    }

    proof fn lemma_round_trip(t: TomlTable, now: u64, v: ClipboardModuleView, w: ClipboardModuleView) {
    }
}

} // verus!
