//! System sound module: once, it points the sound events of the desktop at
//! the module's own sound files.
use vstd::prelude::*;
use std::ops::Range;
use crate::config::{joined_path, join_path, names_unique, BaseConfig, BaseConfigView, ModuleConfig};
use crate::persist::{
    bool_at, get_bool, get_str, get_texts, get_u32, get_u64, put_bool, put_str, put_texts, put_u32,
    put_u64, str_at, table_new, texts_at, u32_at, u64_at, PersistError, TomlTable,
};
use crate::random::random_in_range;
use crate::schedule::{is_due, rearm, rearm_time, MAN_DAY, MINUTE};

verus! {

pub const MODULE_NAME: &'static str = "syssound";

/// Where the sound files are fetched from.
pub const GITHUB_ROOT: &'static str =
    "https://raw.githubusercontent.com/Jakolcz/evil-things/main/evil-rust/src/syssound/data/";

/// The map that an association list of texts stands for.
pub open spec fn text_map(v: Seq<(String, String)>) -> Map<Seq<char>, Seq<char>>
    decreases v.len(),
{
    if v.len() == 0 {
        Map::empty()
    } else {
        text_map(v.drop_last()).insert(v.last().0@, v.last().1@)
    }
}

pub struct SysSoundModuleView {
    pub changed: bool,
    pub trigger_enabled: bool,
    pub sounds_dir: Seq<char>,
    pub source_http: Seq<char>,
    pub frequency_start: u32,
    pub frequency_end: u32,
    pub sound_mappings: Map<Seq<char>, Seq<char>>,
    pub next_trigger: u64,
}

pub struct SysSoundModule {
    changed: bool,
    trigger_enabled: bool,
    sounds_dir: String,
    source_http: String,
    frequency_range: Range<u32>,
    sound_mappings: Vec<(String, String)>,
    next_trigger: u64,
}

impl View for SysSoundModule {
    type V = SysSoundModuleView;

    closed spec fn view(&self) -> SysSoundModuleView {
        SysSoundModuleView {
            changed: self.changed,
            trigger_enabled: self.trigger_enabled,
            sounds_dir: self.sounds_dir@,
            source_http: self.source_http@,
            frequency_start: self.frequency_range.start,
            frequency_end: self.frequency_range.end,
            sound_mappings: text_map(self.sound_mappings@),
            next_trigger: self.next_trigger,
        }
    }
}

/// The sound events and the files they are pointed at.
pub open spec fn default_mapping_entries() -> Seq<(Seq<char>, Seq<char>)> {
    seq![
        (".Default"@, "onii-chan.wav"@),
        ("DeviceConnect"@, "kimochi.wav"@),
        ("DeviceDisconnect"@, "uwu.wav"@),
        ("DeviceFail"@, "ara-ara.wav"@),
        ("LowBatteryAlarm"@, "turtle.wav"@),
        ("Maximize"@, "ara-ara.wav"@),
        ("Minimize"@, "uwu.wav"@),
        ("SystemAsterisk"@, "onii-chan.wav"@),
        ("WindowsLogon"@, "dobre-rano.wav"@),
        ("WindowsUAC"@, "kimochi.wav"@),
    ]
}

fn push_mapping(v: &mut Vec<(String, String)>, event: &str, sound: &str)
    ensures
        final(v)@.len() == old(v)@.len() + 1,
        forall|i: int| 0 <= i < old(v)@.len() ==> final(v)@[i] == old(v)@[i],
        final(v)@.last().0@ == event@,
        final(v)@.last().1@ == sound@,
{
    v.push((String::from_str(event), String::from_str(sound)));
}

/// The default mappings, in the order listed by `default_mapping_entries`.
pub fn default_sound_mappings() -> (r: Vec<(String, String)>)
    ensures
        names_unique(r@),
        r@.len() == default_mapping_entries().len(),
        forall|i: int|
            0 <= i < r@.len() ==> (#[trigger] r@[i]).0@ == default_mapping_entries()[i].0
                && r@[i].1@ == default_mapping_entries()[i].1,
{
    let mut v: Vec<(String, String)> = Vec::new();
    push_mapping(&mut v, ".Default", "onii-chan.wav");
    push_mapping(&mut v, "DeviceConnect", "kimochi.wav");
    push_mapping(&mut v, "DeviceDisconnect", "uwu.wav");
    push_mapping(&mut v, "DeviceFail", "ara-ara.wav");
    push_mapping(&mut v, "LowBatteryAlarm", "turtle.wav");
    push_mapping(&mut v, "Maximize", "ara-ara.wav");
    push_mapping(&mut v, "Minimize", "uwu.wav");
    push_mapping(&mut v, "SystemAsterisk", "onii-chan.wav");
    push_mapping(&mut v, "WindowsLogon", "dobre-rano.wav");
    push_mapping(&mut v, "WindowsUAC", "kimochi.wav");
    proof {
        reveal_strlit(".Default");
        reveal_strlit("DeviceConnect");
        reveal_strlit("DeviceDisconnect");
        reveal_strlit("DeviceFail");
        reveal_strlit("LowBatteryAlarm");
        reveal_strlit("Maximize");
        reveal_strlit("Minimize");
        reveal_strlit("SystemAsterisk");
        reveal_strlit("WindowsLogon");
        reveal_strlit("WindowsUAC");
        assert forall|i: int, j: int| 0 <= i < j < v@.len() implies v@[i].0@ != v@[j].0@ by {
            assert(v@[i].0@[0] != v@[j].0@[0] || v@[i].0@.len() != v@[j].0@.len()
                || v@[i].0@[6] != v@[j].0@[6] || v@[i].0@[1] != v@[j].0@[1]);
        }
    }
    v
}

/// The state a table holds, when it holds a valid one.
pub open spec fn syssound_decoded(t: TomlTable) -> Option<SysSoundModuleView> {
    match (
        bool_at(t, "changed"@),
        bool_at(t, "trigger_enabled"@),
        str_at(t, "sounds_dir"@),
        str_at(t, "source_http"@),
        u32_at(t, "frequency_range_start"@),
        u32_at(t, "frequency_range_end"@),
        texts_at(t, "sound_mappings"@),
        u64_at(t, "next_trigger"@),
    ) {
        (
            Some(changed),
            Some(trigger_enabled),
            Some(sounds_dir),
            Some(source_http),
            Some(frequency_start),
            Some(frequency_end),
            Some(sound_mappings),
            Some(next_trigger),
        ) => {
            if 0 < frequency_start < frequency_end {
                Some(
                    SysSoundModuleView {
                        changed,
                        trigger_enabled,
                        sounds_dir,
                        source_http,
                        frequency_start,
                        frequency_end,
                        sound_mappings,
                        next_trigger,
                    },
                )
            } else {
                None
            }
        },
        _ => None,
    }
}

/// The map that a list of event and file names stands for.
pub open spec fn entries_map(e: Seq<(Seq<char>, Seq<char>)>) -> Map<Seq<char>, Seq<char>>
    decreases e.len(),
{
    if e.len() == 0 {
        Map::empty()
    } else {
        entries_map(e.drop_last()).insert(e.last().0, e.last().1)
    }
}

proof fn lemma_text_map_entries(v: Seq<(String, String)>, e: Seq<(Seq<char>, Seq<char>)>)
    requires
        v.len() == e.len(),
        forall|i: int| 0 <= i < v.len() ==> (#[trigger] v[i]).0@ == e[i].0 && v[i].1@ == e[i].1,
    ensures
        text_map(v) == entries_map(e),
    decreases v.len(),
{
    if v.len() > 0 {
        lemma_text_map_entries(v.drop_last(), e.drop_last());
    }
}

/// A fresh module under the configuration home `home`, due at `now`.
pub open spec fn fresh_syssound(home: Seq<char>, now: u64) -> SysSoundModuleView {
    SysSoundModuleView {
        changed: false,
        trigger_enabled: true,
        sounds_dir: joined_path(home, MODULE_NAME@),
        source_http: GITHUB_ROOT@,
        frequency_start: MINUTE,
        frequency_end: MAN_DAY,
        sound_mappings: entries_map(default_mapping_entries()),
        next_trigger: now,
    }
}

/// Each event of `mappings` with its sound file located under `dir`.
pub open spec fn located_sounds(mappings: Map<Seq<char>, Seq<char>>, dir: Seq<char>) -> Map<
    Seq<char>,
    Seq<char>,
> {
    mappings.map_values(|f: Seq<char>| joined_path(dir, f))
}

proof fn lemma_text_map_prefix(v: Seq<(String, String)>, i: int)
    requires
        0 <= i < v.len(),
    ensures
        text_map(v.take(i + 1)) == text_map(v.take(i)).insert(v[i].0@, v[i].1@),
{
    assert(v.take(i + 1).drop_last() =~= v.take(i));
}

impl SysSoundModule {
    /// Well-formed: the re-arm range is non-empty and starts above zero.
    pub open spec fn wf_view(v: SysSoundModuleView) -> bool {
        0 < v.frequency_start < v.frequency_end
    }

    pub fn from_parts(
        changed: bool,
        trigger_enabled: bool,
        sounds_dir: String,
        source_http: String,
        frequency_range: Range<u32>,
        sound_mappings: Vec<(String, String)>,
        next_trigger: u64,
    ) -> (r: SysSoundModule)
        ensures
            r@ == (SysSoundModuleView {
                changed,
                trigger_enabled,
                sounds_dir: sounds_dir@,
                source_http: source_http@,
                frequency_start: frequency_range.start,
                frequency_end: frequency_range.end,
                sound_mappings: text_map(sound_mappings@),
                next_trigger,
            }),
    {
        SysSoundModule {
            changed,
            trigger_enabled,
            sounds_dir,
            source_http,
            frequency_range,
            sound_mappings,
            next_trigger,
        }
    }

    /// A fresh module: switched on, sounds not changed yet, the default
    /// mappings, due at `now`, and re-armed by intervals drawn from
    /// `MINUTE..MAN_DAY`.
    pub fn new_default(base_config: &BaseConfig, now: u64) -> (r: SysSoundModule)
        ensures
            r@ == fresh_syssound(base_config@.home_dir, now),
    {
        let mappings = default_sound_mappings();
        proof {
            lemma_text_map_entries(mappings@, default_mapping_entries());
        }
        SysSoundModule {
            changed: false,
            trigger_enabled: true,
            sounds_dir: Self::construct_module_home(base_config.get_home_dir()),
            source_http: String::from_str(GITHUB_ROOT),
            frequency_range: MINUTE..MAN_DAY,
            sound_mappings: mappings,
            next_trigger: now,
        }
    }

    /// The per-tick entry point. When switched on and due at `now`, the module
    /// fires: it is re-armed by an interval drawn from its range, the sounds
    /// are marked changed, and the result tells the caller to apply
    /// `change_sounds`, which is needed only the first time. Otherwise nothing
    /// changes and nothing is to be done.
    pub fn trigger(&mut self, now: u64) -> (r: bool)
        requires
            Self::wf_view(old(self)@),
        ensures
            !(old(self)@.trigger_enabled && is_due(now, old(self)@.next_trigger)) ==> !r
                && final(self)@ == old(self)@,
            now < old(self)@.next_trigger ==> !r && final(self)@ == old(self)@,
            old(self)@.trigger_enabled && is_due(now, old(self)@.next_trigger) ==> {
                &&& r == !old(self)@.changed
                &&& exists|d: u32|
                    old(self)@.frequency_start <= d < old(self)@.frequency_end && final(self)@ == (
                    SysSoundModuleView {
                        changed: true,
                        next_trigger: #[trigger] rearm_time(now, d as u64),
                        ..old(self)@
                    })
            },
            old(self)@.trigger_enabled && is_due(now, old(self)@.next_trigger) && now
                + old(self)@.frequency_end <= u64::MAX ==> final(self)@.next_trigger > now,
    {
        if !self.trigger_enabled || now < self.next_trigger {
            return false;
        }
        let d = random_in_range(self.frequency_range.start, self.frequency_range.end);
        self.next_trigger = rearm(now, d as u64);
        let first = !self.changed;
        self.changed = true;
        first
    }

    pub fn get_next_change(&self) -> (r: u64)
        ensures
            r == self@.next_trigger,
    {
        self.next_trigger
    }

    /// The full path of a sound file in the module's directory.
    pub fn get_full_sound_path(&self, sound: &str) -> (r: String)
        ensures
            r@ == joined_path(self@.sounds_dir, sound@),
    {
        join_path(self.sounds_dir.as_str(), sound)
    }

    /// The registry changes to make: each sound event with the full path of
    /// its sound file.
    pub fn change_sounds(&self) -> (r: Vec<(String, String)>)
        ensures
            text_map(r@) == located_sounds(self@.sound_mappings, self@.sounds_dir),
    {
        let ghost m = self.sound_mappings@;
        let mut r: Vec<(String, String)> = Vec::new();
        let mut i: usize = 0;
        while i < self.sound_mappings.len()
            invariant
                m == self.sound_mappings@,
                i <= m.len(),
                r@.len() == i,
                forall|j: int| 0 <= j < i ==> (#[trigger] r@[j]).0@ == m[j].0@,
                text_map(r@) == located_sounds(text_map(m.take(i as int)), self.sounds_dir@),
            decreases m.len() - i,
        {
            let entry = &self.sound_mappings[i];
            let event = entry.0.clone();
            let path = self.get_full_sound_path(entry.1.as_str());
            let ghost before = r@;
            r.push((event, path));
            proof {
                lemma_text_map_prefix(m, i as int);
                assert(r@.drop_last() =~= before);
                assert(text_map(r@) =~= located_sounds(
                    text_map(m.take(i as int + 1)),
                    self.sounds_dir@,
                ));
            }
            i += 1;
        }
        proof {
            assert(m.take(m.len() as int) =~= m);
        }
        r
    }
}

impl ModuleConfig for SysSoundModule {
    open spec fn spec_module_name() -> Seq<char> {
        MODULE_NAME@
    }

    open spec fn spec_enabled(v: SysSoundModuleView) -> bool {
        v.trigger_enabled
    }

    open spec fn spec_module_home(v: SysSoundModuleView) -> Seq<char> {
        v.sounds_dir
    }

    open spec fn spec_with_enabled(v: SysSoundModuleView, enabled: bool) -> SysSoundModuleView {
        SysSoundModuleView { trigger_enabled: enabled, ..v }
    }

    open spec fn spec_with_home(v: SysSoundModuleView, home: Seq<char>) -> SysSoundModuleView {
        SysSoundModuleView { sounds_dir: home, ..v }
    }

    fn get_module_name(&self) -> (r: &'static str) {
        MODULE_NAME
    }

    fn module_name() -> (r: &'static str) {
        MODULE_NAME
    }

    fn get_module_home(&self) -> (r: &String) {
        &self.sounds_dir
    }

    fn get_enabled(&self) -> (r: bool) {
        self.trigger_enabled
    }

    fn set_enabled(&mut self, enabled: bool) {
        self.trigger_enabled = enabled;
    }

    fn construct_module_home(base_home_path: &String) -> (r: String) {
        join_path(base_home_path.as_str(), MODULE_NAME)
    }

    fn refresh_base_config(&mut self, base_config: &BaseConfig) {
        self.sounds_dir = Self::construct_module_home(base_config.get_home_dir());
    }

    open spec fn spec_valid(v: SysSoundModuleView) -> bool {
        Self::wf_view(v)
    }

    open spec fn spec_fits(v: SysSoundModuleView) -> bool {
        v.next_trigger <= i64::MAX
    }

    open spec fn spec_encodes(t: TomlTable, v: SysSoundModuleView) -> bool {
        &&& bool_at(t, "changed"@) == Some(v.changed)
        &&& bool_at(t, "trigger_enabled"@) == Some(v.trigger_enabled)
        &&& str_at(t, "sounds_dir"@) == Some(v.sounds_dir)
        &&& str_at(t, "source_http"@) == Some(v.source_http)
        &&& u32_at(t, "frequency_range_start"@) == Some(v.frequency_start)
        &&& u32_at(t, "frequency_range_end"@) == Some(v.frequency_end)
        &&& texts_at(t, "sound_mappings"@) == Some(v.sound_mappings)
        &&& u64_at(t, "next_trigger"@) == Some(v.next_trigger)
    }

    open spec fn spec_loadable(t: TomlTable) -> bool {
        syssound_decoded(t) is Some
    }

    open spec fn spec_decodes(t: TomlTable, now: u64, v: SysSoundModuleView) -> bool {
        syssound_decoded(t) == Some(v)
    }

    open spec fn spec_fresh(base: BaseConfigView, now: u64, v: SysSoundModuleView) -> bool {
        v == fresh_syssound(base.home_dir, now)
    }

    open spec fn spec_same_saved(a: SysSoundModuleView, b: SysSoundModuleView) -> bool {
        a == b
    }

    fn default_module(base_config: &BaseConfig, now: u64) -> (r: Self) {
        Self::new_default(base_config, now)
    }

    fn to_table(&self) -> (r: Result<TomlTable, PersistError>) {
        proof {
            reveal_strlit("changed");
            reveal_strlit("trigger_enabled");
            reveal_strlit("sounds_dir");
            reveal_strlit("source_http");
            reveal_strlit("frequency_range_start");
            reveal_strlit("frequency_range_end");
            reveal_strlit("sound_mappings");
            reveal_strlit("next_trigger");
            assert("changed"@.len() == 7);
            assert("trigger_enabled"@.len() == 15);
            assert("sounds_dir"@.len() == 10);
            assert("source_http"@.len() == 11);
            assert("frequency_range_start"@.len() == 21);
            assert("frequency_range_end"@.len() == 19);
            assert("sound_mappings"@.len() == 14);
            assert("next_trigger"@.len() == 12);
        }
        let mut t = table_new();
        put_bool(&mut t, "changed", self.changed);
        put_bool(&mut t, "trigger_enabled", self.trigger_enabled);
        put_str(&mut t, "sounds_dir", &self.sounds_dir);
        put_str(&mut t, "source_http", &self.source_http);
        put_u32(&mut t, "frequency_range_start", self.frequency_range.start);
        put_u32(&mut t, "frequency_range_end", self.frequency_range.end);
        put_texts(&mut t, "sound_mappings", &self.sound_mappings);
        put_u64(&mut t, "next_trigger", self.next_trigger)?;
        Ok(t)
    }

    fn from_table(t: &TomlTable, now: u64) -> (r: Result<Self, PersistError>) {
        let changed = get_bool(t, "changed")?;
        let trigger_enabled = get_bool(t, "trigger_enabled")?;
        let sounds_dir = get_str(t, "sounds_dir")?;
        let source_http = get_str(t, "source_http")?;
        let start = get_u32(t, "frequency_range_start")?;
        let end = get_u32(t, "frequency_range_end")?;
        let sound_mappings = get_texts(t, "sound_mappings")?;
        let next_trigger = get_u64(t, "next_trigger")?;
        if start == 0 || start >= end {
            return Err(PersistError::BadField);
        }
        Ok(
            SysSoundModule {
                changed,
                trigger_enabled,
                sounds_dir,
                source_http,
                frequency_range: start..end,
                sound_mappings,
                next_trigger,
            },
        )
    }

    proof fn lemma_round_trip(t: TomlTable, now: u64, v: SysSoundModuleView, w: SysSoundModuleView) {
    }
}

} // verus!
