//! Process-wide configuration: home directory, tick interval, module switches
//! and the escalating annoyance level, plus the per-tick escalation step.
use vstd::prelude::*;
use crate::persist::{
    toml_table_of, toml_text_of, flags_at, get_flags, get_str, get_u64, get_u8, parse, put_flags,
    put_str, put_u64, put_u8, render, str_at, table_new, toml_model_ok, u64_at, u8_at,
    PersistError, TomlTable,
};
use crate::schedule::{is_due, rearm, rearm_time, SECOND, WEEK};

verus! {

pub const APP_NAME: &'static str = "Evilyn";
pub const CONFIG_FILE_NAME: &'static str = "config";

/// Seconds between two escalations of the annoyance level.
pub const ANNOYANCE_LEVEL_INCREASE_INTERVAL: u32 = 3 * WEEK;

/// Seconds the outer loop waits while it is suspended at annoyance level 0.
pub const SUSPENDED_SLEEP: u64 = 10;

/// `name` appended to the directory `base` as a path component.
pub open spec fn joined_path(base: Seq<char>, name: Seq<char>) -> Seq<char> {
    if base.len() == 0 {
        name
    } else if base.last() == '/' || base.last() == '\\' {
        base + name
    } else {
        base + seq!['/'] + name
    }
}

/// Appends `name` to the directory `base` as a path component.
pub fn join_path(base: &str, name: &str) -> (r: String)
    ensures
        r@ == joined_path(base@, name@),
{
    let n = base.unicode_len();
    let mut r = String::from_str(base);
    if n > 0 {
        let last = base.get_char(n - 1);
        if last != '/' && last != '\\' {
            r.append("/");
        }
    }
    r.append(name);
    proof {
        reveal_strlit("/");
    }
    r
}

/// Whether no name occurs twice in an association list.
pub open spec fn names_unique<V>(v: Seq<(String, V)>) -> bool {
    forall|i: int, j: int| 0 <= i < j < v.len() ==> v[i].0@ != v[j].0@
}

/// The map that an association list of switches stands for.
pub open spec fn flag_map(v: Seq<(String, bool)>) -> Map<Seq<char>, bool>
    decreases v.len(),
{
    if v.len() == 0 {
        Map::empty()
    } else {
        flag_map(v.drop_last()).insert(v.last().0@, v.last().1)
    }
}

proof fn lemma_flag_map_absent(v: Seq<(String, bool)>, k: Seq<char>)
    requires
        forall|i: int| 0 <= i < v.len() ==> v[i].0@ != k,
    ensures
        !flag_map(v).contains_key(k),
    decreases v.len(),
{
    if v.len() > 0 {
        lemma_flag_map_absent(v.drop_last(), k);
    }
}

proof fn lemma_flag_map_at(v: Seq<(String, bool)>, i: int)
    requires
        names_unique(v),
        0 <= i < v.len(),
    ensures
        flag_map(v).contains_key(v[i].0@),
        flag_map(v)[v[i].0@] == v[i].1,
    decreases v.len(),
{
    if i < v.len() - 1 {
        lemma_flag_map_at(v.drop_last(), i);
    }
}

proof fn lemma_flag_map_update(v: Seq<(String, bool)>, i: int, b: bool)
    requires
        names_unique(v),
        0 <= i < v.len(),
    ensures
        flag_map(v.update(i, (v[i].0, b))) == flag_map(v).insert(v[i].0@, b),
    decreases v.len(),
{
    let w = v.update(i, (v[i].0, b));
    if i == v.len() - 1 {
        assert(w.drop_last() =~= v.drop_last());
        lemma_flag_map_absent(v.drop_last(), v[i].0@);
        assert(flag_map(w) =~= flag_map(v).insert(v[i].0@, b));
    } else {
        assert(w.drop_last() =~= v.drop_last().update(i, (v[i].0, b)));
        lemma_flag_map_update(v.drop_last(), i, b);
        assert(flag_map(w) =~= flag_map(v).insert(v[i].0@, b));
    }
}

/// What a `BaseConfig` holds.
pub struct BaseConfigView {
    pub home_dir: Seq<char>,
    pub main_loop_sleep: u64,
    pub module_statuses: Map<Seq<char>, bool>,
    pub annoyance_level: u8,
    pub next_annoyance_level_increase: u64,
}

/// The process-wide configuration shared by all modules.
pub struct BaseConfig {
    home_dir: String,
    main_loop_sleep: u64,
    module_statuses: Vec<(String, bool)>,
    annoyance_level: u8,
    next_annoyance_level_increase: u64,
}

impl View for BaseConfig {
    type V = BaseConfigView;

    closed spec fn view(&self) -> BaseConfigView {
        BaseConfigView {
            home_dir: self.home_dir@,
            main_loop_sleep: self.main_loop_sleep,
            module_statuses: flag_map(self.module_statuses@),
            annoyance_level: self.annoyance_level,
            next_annoyance_level_increase: self.next_annoyance_level_increase,
        }
    }
}

/// Whether a module is switched on: modules without an entry are off.
pub open spec fn status_of(statuses: Map<Seq<char>, bool>, name: Seq<char>) -> bool {
    statuses.contains_key(name) && statuses[name]
}

/// The annoyance level after one escalation: one more, capped at the largest level.
pub open spec fn escalated(level: u8) -> u8 {
    if level < u8::MAX {
        (level + 1) as u8
    } else {
        level
    }
}

impl BaseConfig {
    /// Well-formed: each module name has at most one entry.
    pub closed spec fn wf(&self) -> bool {
        names_unique(self.module_statuses@)
    }

    /// Builds a configuration from its parts; the switches must name each module once.
    pub fn from_parts(
        home_dir: String,
        main_loop_sleep: u64,
        module_statuses: Vec<(String, bool)>,
        annoyance_level: u8,
        next_annoyance_level_increase: u64,
    ) -> (r: BaseConfig)
        requires
            names_unique(module_statuses@),
        ensures
            r.wf(),
            r@.home_dir == home_dir@,
            r@.main_loop_sleep == main_loop_sleep,
            r@.module_statuses == flag_map(module_statuses@),
            r@.annoyance_level == annoyance_level,
            r@.next_annoyance_level_increase == next_annoyance_level_increase,
    {
        BaseConfig {
            home_dir,
            main_loop_sleep,
            module_statuses,
            annoyance_level,
            next_annoyance_level_increase,
        }
    }

    /// A fresh configuration at `now`: a one-second tick, the wallpaper module
    /// switched on, level 1, and the first escalation one interval ahead.
    pub fn new(home_dir: &String, now: u64) -> (r: BaseConfig)
        ensures
            r.wf(),
            r@ == fresh_base(home_dir@, now),
    {
        let mut statuses: Vec<(String, bool)> = Vec::new();
        statuses.push((String::from_str(crate::wallpaper::MODULE_NAME), true));
        let r = BaseConfig {
            home_dir: home_dir.clone(),
            main_loop_sleep: SECOND as u64,
            module_statuses: statuses,
            annoyance_level: 1,
            next_annoyance_level_increase: rearm(now, ANNOYANCE_LEVEL_INCREASE_INTERVAL as u64),
        };
        proof {
            reveal_with_fuel(flag_map, 2);
            assert(r.module_statuses@.drop_last() =~= Seq::<(String, bool)>::empty());
            assert(r@.module_statuses =~= map![crate::wallpaper::MODULE_NAME@ => true]);
        }
        r
    }

    pub fn set_home_dir(&mut self, home_dir: &String)
        ensures
            final(self).wf() == old(self).wf(),
            final(self)@ == (BaseConfigView { home_dir: home_dir@, ..old(self)@ }),
    {
        self.home_dir = home_dir.clone();
    }

    pub fn get_home_dir(&self) -> (r: &String)
        ensures
            r@ == self@.home_dir,
    {
        &self.home_dir
    }

    /// Seconds between two ticks of the outer loop.
    pub fn get_main_loop_sleep(&self) -> (r: u64)
        ensures
            r == self@.main_loop_sleep,
    {
        self.main_loop_sleep
    }

    /// The module switches, each name once.
    pub fn get_module_statuses(&self) -> (r: &Vec<(String, bool)>)
        requires
            self.wf(),
        ensures
            names_unique(r@),
            flag_map(r@) == self@.module_statuses,
    {
        &self.module_statuses
    }

    fn find_module(&self, module_name: &str) -> (r: Option<usize>)
        requires
            self.wf(),
        ensures
            match r {
                Some(i) => i < self.module_statuses@.len() && self.module_statuses@[i as int].0@
                    == module_name@,
                None => {
                    &&& !self@.module_statuses.contains_key(module_name@)
                    &&& forall|j: int|
                        0 <= j < self.module_statuses@.len() ==> self.module_statuses@[j].0@
                            != module_name@
                },
            },
    {
        let name = String::from_str(module_name);
        let mut i: usize = 0;
        while i < self.module_statuses.len()
            invariant
                name@ == module_name@,
                i <= self.module_statuses@.len(),
                forall|j: int| 0 <= j < i ==> self.module_statuses@[j].0@ != module_name@,
            decreases self.module_statuses@.len() - i,
        {
            let entry = &self.module_statuses[i];
            if entry.0.eq(&name) {
                return Some(i);
            }
            i += 1;
        }
        proof {
            lemma_flag_map_absent(self.module_statuses@, module_name@);
        }
        None
    }

    /// Whether the module is switched on; a module without an entry is off.
    pub fn is_module_enabled(&self, module_name: &str) -> (r: bool)
        requires
            self.wf(),
        ensures
            r == status_of(self@.module_statuses, module_name@),
    {
        match self.find_module(module_name) {
            Some(i) => {
                proof {
                    lemma_flag_map_at(self.module_statuses@, i as int);
                }
                self.module_statuses[i].1
            },
            None => false,
        }
    }

    pub fn set_module_enabled(&mut self, module_name: &str, enabled: bool)
        requires
            old(self).wf(),
        ensures
            final(self).wf(),
            final(self)@ == (BaseConfigView {
                module_statuses: old(self)@.module_statuses.insert(module_name@, enabled),
                ..old(self)@
            }),
    {
        match self.find_module(module_name) {
            Some(i) => {
                let ghost v = self.module_statuses@;
                proof {
                    lemma_flag_map_update(v, i as int, enabled);
                }
                let name = self.module_statuses[i].0.clone();
                proof {
                    assert(v.update(i as int, (name, enabled)) =~= v.update(
                        i as int,
                        (v[i as int].0, enabled),
                    ));
                }
                self.module_statuses.set(i, (name, enabled));
            },
            None => {
                let ghost v = self.module_statuses@;
                self.module_statuses.push((String::from_str(module_name), enabled));
                proof {
                    assert(self.module_statuses@.drop_last() =~= v);
                }
            },
        }
    }

    pub fn get_annoyance_level(&self) -> (r: u8)
        ensures
            r == self@.annoyance_level,
    {
        self.annoyance_level
    }

    pub fn get_next_annoyance_level_increase(&self) -> (r: u64)
        ensures
            r == self@.next_annoyance_level_increase,
    {
        self.next_annoyance_level_increase
    }

    pub fn set_next_annoyance_level_increase(&mut self, next_annoyance_level_increase: u64)
        ensures
            final(self).wf() == old(self).wf(),
            final(self)@ == (BaseConfigView { next_annoyance_level_increase, ..old(self)@ }),
    {
        self.next_annoyance_level_increase = next_annoyance_level_increase;
    }

    /// Raises the level by one (capped at the largest level), moves the next
    /// escalation one interval past `now`, and returns the new level.
    pub fn increase_annoyance_level(&mut self, now: u64) -> (r: u8)
        ensures
            final(self).wf() == old(self).wf(),
            final(self)@ == (BaseConfigView {
                annoyance_level: escalated(old(self)@.annoyance_level),
                next_annoyance_level_increase: rearm_time(
                    now,
                    ANNOYANCE_LEVEL_INCREASE_INTERVAL as u64,
                ),
                ..old(self)@
            }),
            r == escalated(old(self)@.annoyance_level),
    {
        self.annoyance_level = self.annoyance_level.saturating_add(1);
        self.next_annoyance_level_increase = rearm(now, ANNOYANCE_LEVEL_INCREASE_INTERVAL as u64);
        self.annoyance_level
    }

    pub fn set_annoyance_level(&mut self, annoyance_level: u8)
        ensures
            final(self).wf() == old(self).wf(),
            final(self)@ == (BaseConfigView { annoyance_level, ..old(self)@ }),
    {
        self.annoyance_level = annoyance_level;
    }
}

/// The capabilities every schedulable module offers: its identity, its home
/// directory under the configuration's home, and its switch.
pub trait ModuleConfig: View + Sized {
    /// The module's name, which is also its directory and file name.
    spec fn spec_module_name() -> Seq<char>;

    spec fn spec_enabled(v: Self::V) -> bool;

    spec fn spec_module_home(v: Self::V) -> Seq<char>;

    /// The state with the switch set to `enabled` and nothing else changed.
    spec fn spec_with_enabled(v: Self::V, enabled: bool) -> Self::V;

    /// The state with the home directory set to `home` and nothing else changed.
    spec fn spec_with_home(v: Self::V, home: Seq<char>) -> Self::V;

    fn get_module_name(&self) -> (r: &'static str)
        ensures
            r@ == Self::spec_module_name(),
    ;

    /// The module's name, without an instance at hand.
    fn module_name() -> (r: &'static str)
        ensures
            r@ == Self::spec_module_name(),
    ;

    fn get_module_home(&self) -> (r: &String)
        ensures
            r@ == Self::spec_module_home(self@),
    ;

    fn get_enabled(&self) -> (r: bool)
        ensures
            r == Self::spec_enabled(self@),
    ;

    fn set_enabled(&mut self, enabled: bool)
        ensures
            final(self)@ == Self::spec_with_enabled(old(self)@, enabled),
    ;

    /// The module's home under the configuration home `base_home_path`.
    fn construct_module_home(base_home_path: &String) -> (r: String)
        ensures
            r@ == joined_path(base_home_path@, Self::spec_module_name()),
    ;

    /// Recomputes the home directory after the configuration home has changed.
    fn refresh_base_config(&mut self, base_config: &BaseConfig)
        ensures
            final(self)@ == Self::spec_with_home(
                old(self)@,
                joined_path(base_config@.home_dir, Self::spec_module_name()),
            ),
    ;

    /// The states the module may be in.
    spec fn spec_valid(v: Self::V) -> bool;

    /// Whether every number of the state fits in a TOML integer.
    spec fn spec_fits(v: Self::V) -> bool;

    /// Whether the table holds every persisted field of the state.
    spec fn spec_encodes(t: TomlTable, v: Self::V) -> bool;

    /// Whether the table holds a valid state.
    spec fn spec_loadable(t: TomlTable) -> bool;

    /// Whether the state is what the table loads as at `now`: the persisted
    /// fields come from the table, the others are rebuilt at `now`.
    spec fn spec_decodes(t: TomlTable, now: u64, v: Self::V) -> bool;

    /// Whether the state is a fresh module for the configuration at `now`.
    spec fn spec_fresh(base: BaseConfigView, now: u64, v: Self::V) -> bool;

    /// Whether two states agree on every persisted field.
    spec fn spec_same_saved(a: Self::V, b: Self::V) -> bool;

    /// A fresh module for the configuration at `now`.
    fn default_module(base_config: &BaseConfig, now: u64) -> (r: Self)
        ensures
            Self::spec_valid(r@),
            Self::spec_fresh(base_config@, now, r@),
    ;

    /// The table the state is saved as.
    fn to_table(&self) -> (r: Result<TomlTable, PersistError>)
        ensures
            r is Ok <==> Self::spec_fits(self@),
            r is Err ==> r == Err::<TomlTable, PersistError>(PersistError::ValueOutOfRange),
            r matches Ok(t) ==> toml_model_ok(t) && Self::spec_encodes(t, self@),
    ;

    /// The state a table holds; what is not persisted is rebuilt at `now`.
    fn from_table(t: &TomlTable, now: u64) -> (r: Result<Self, PersistError>)
        ensures
            r is Ok <==> Self::spec_loadable(*t),
            r is Err ==> r == Err::<Self, PersistError>(PersistError::BadField),
            r matches Ok(m) ==> Self::spec_valid(m@) && Self::spec_decodes(*t, now, m@),
    ;

    /// A valid state read back from its table is loadable and agrees with it
    /// on every persisted field.
    proof fn lemma_round_trip(t: TomlTable, now: u64, v: Self::V, w: Self::V)
        requires
            Self::spec_valid(v),
            Self::spec_encodes(t, v),
        ensures
            Self::spec_loadable(t),
            Self::spec_decodes(t, now, w) ==> Self::spec_same_saved(v, w),
    ;
}

/// How a state came to be: read from its file, or created fresh because there
/// was no usable file (the caller then saves it).
pub enum LoadOutcome<T> {
    Loaded(T),
    CreatedDefault(T),
}

impl<T> LoadOutcome<T> {
    pub open spec fn value(self) -> T {
        match self {
            LoadOutcome::Loaded(v) => v,
            LoadOutcome::CreatedDefault(v) => v,
        }
    }

    pub fn into_inner(self) -> (r: T)
        ensures
            r == self.value(),
    {
        match self {
            LoadOutcome::Loaded(v) => v,
            LoadOutcome::CreatedDefault(v) => v,
        }
    }

    pub fn is_created(&self) -> (r: bool)
        ensures
            r == (self is CreatedDefault),
    {
        match self {
            LoadOutcome::Loaded(_) => false,
            LoadOutcome::CreatedDefault(_) => true,
        }
    }
}

/// Saving a module's valid state and loading it back yields a state equal to
/// it in every persisted field.
pub proof fn lemma_save_load_round_trip<T: ModuleConfig>(t: TomlTable, now: u64, v: T::V, w: T::V)
    requires
        T::spec_valid(v),
        T::spec_encodes(t, v),
        T::spec_decodes(t, now, w),
    ensures
        T::spec_loadable(t),
        T::spec_same_saved(v, w),
{
    T::lemma_round_trip(t, now, v, w);
}

/// Whether `r` is what saving gives for a rendering outcome of the serializer.
pub open spec fn saved_as(rendered: Option<Seq<char>>, r: Result<String, PersistError>) -> bool {
    match rendered {
        Some(s) => r matches Ok(x) && x@ == s,
        None => r == Err::<String, PersistError>(PersistError::Serialize),
    }
}

/// Whether a stored text parses into a table that holds a valid state.
pub open spec fn stored_usable<T: ModuleConfig>(text: Seq<char>) -> bool {
    match toml_table_of(text) {
        Some(t) => T::spec_loadable(t),
        None => false,
    }
}

/// Whether the state is what a stored text loads as at `now`.
pub open spec fn stored_decodes<T: ModuleConfig>(text: Seq<char>, now: u64, v: T::V) -> bool {
    match toml_table_of(text) {
        Some(t) => T::spec_decodes(t, now, v),
        None => false,
    }
}

/// The TOML text a module's state is saved as, in `<module_home>/<name>.toml`:
/// the serializer's rendering of a table that encodes the state.
pub fn save_module_config<T: ModuleConfig>(config: &T) -> (r: Result<String, PersistError>)
    ensures
        !T::spec_fits(config@) ==> r == Err::<String, PersistError>(PersistError::ValueOutOfRange),
        T::spec_fits(config@) ==> exists|t: TomlTable|
            toml_model_ok(t) && T::spec_encodes(t, config@) && saved_as(#[trigger] toml_text_of(t), r),
{
    let t = config.to_table()?;
    render(&t)
}

/// The module state a TOML text holds, with what is not persisted rebuilt at `now`.
pub fn load_config<T: ModuleConfig>(text: &str, now: u64) -> (r: Result<T, PersistError>)
    ensures
        match toml_table_of(text@) {
            None => r == Err::<T, PersistError>(PersistError::Deserialize),
            Some(t) => {
                &&& (r is Ok <==> T::spec_loadable(t))
                &&& (r is Err ==> r == Err::<T, PersistError>(PersistError::BadField))
                &&& (r matches Ok(m) ==> T::spec_valid(m@) && T::spec_decodes(t, now, m@))
            },
        },
{
    let t = parse(text)?;
    T::from_table(&t, now)
}

/// The module state read from the stored text when there is a usable one;
/// otherwise a fresh default, which the caller is to save.
pub fn load_or_initialize<T: ModuleConfig>(base_config: &BaseConfig, stored: Option<&str>, now: u64) -> (r:
    LoadOutcome<T>)
    ensures
        T::spec_valid(r.value()@),
        r is Loaded <==> (stored is Some && stored_usable::<T>(stored->Some_0@)),
        r is Loaded ==> stored_decodes::<T>(stored->Some_0@, now, r.value()@),
        r is CreatedDefault ==> T::spec_fresh(base_config@, now, r.value()@),
{
    match stored {
        Some(text) => match load_config::<T>(text, now) {
            Ok(m) => LoadOutcome::Loaded(m),
            Err(_) => LoadOutcome::CreatedDefault(T::default_module(base_config, now)),
        },
        None => LoadOutcome::CreatedDefault(T::default_module(base_config, now)),
    }
}

/// A fresh configuration for the home directory `home` at `now`.
pub open spec fn fresh_base(home: Seq<char>, now: u64) -> BaseConfigView {
    BaseConfigView {
        home_dir: home,
        main_loop_sleep: SECOND as u64,
        module_statuses: map![crate::wallpaper::MODULE_NAME@ => true],
        annoyance_level: 1,
        next_annoyance_level_increase: rearm_time(now, ANNOYANCE_LEVEL_INCREASE_INTERVAL as u64),
    }
}

/// Whether every number of the configuration fits in a TOML integer.
pub open spec fn base_fits(v: BaseConfigView) -> bool {
    v.main_loop_sleep <= i64::MAX && v.next_annoyance_level_increase <= i64::MAX
}

/// Whether the table holds every field of the configuration.
pub open spec fn base_encodes(t: TomlTable, v: BaseConfigView) -> bool {
    &&& str_at(t, "home_dir"@) == Some(v.home_dir)
    &&& u64_at(t, "main_loop_sleep"@) == Some(v.main_loop_sleep)
    &&& flags_at(t, "module_statuses"@) == Some(v.module_statuses)
    &&& u8_at(t, "annoyance_level"@) == Some(v.annoyance_level)
    &&& u64_at(t, "next_annoyance_level_increase"@) == Some(v.next_annoyance_level_increase)
}

/// The configuration a table holds, when it holds one.
pub open spec fn base_decoded(t: TomlTable) -> Option<BaseConfigView> {
    match (
        str_at(t, "home_dir"@),
        u64_at(t, "main_loop_sleep"@),
        flags_at(t, "module_statuses"@),
        u8_at(t, "annoyance_level"@),
        u64_at(t, "next_annoyance_level_increase"@),
    ) {
        (
            Some(home_dir),
            Some(main_loop_sleep),
            Some(module_statuses),
            Some(annoyance_level),
            Some(next_annoyance_level_increase),
        ) => Some(
            BaseConfigView {
                home_dir,
                main_loop_sleep,
                module_statuses,
                annoyance_level,
                next_annoyance_level_increase,
            },
        ),
        _ => None,
    }
}

/// Saving the configuration and loading it back yields an equal configuration.
pub proof fn lemma_base_round_trip(t: TomlTable, v: BaseConfigView)
    requires
        base_encodes(t, v),
    ensures
        base_decoded(t) == Some(v),
{
}

impl BaseConfig {
    /// The table the configuration is saved as.
    pub fn to_table(&self) -> (r: Result<TomlTable, PersistError>)
        ensures
            r is Ok <==> base_fits(self@),
            r is Err ==> r == Err::<TomlTable, PersistError>(PersistError::ValueOutOfRange),
            r matches Ok(t) ==> toml_model_ok(t) && base_encodes(t, self@),
    {
        proof {
            reveal_strlit("home_dir");
            reveal_strlit("main_loop_sleep");
            reveal_strlit("module_statuses");
            reveal_strlit("annoyance_level");
            reveal_strlit("next_annoyance_level_increase");
            assert("home_dir"@.len() == 8);
            assert("main_loop_sleep"@.len() == 15);
            assert("module_statuses"@.len() == 15);
            assert("annoyance_level"@.len() == 15);
            assert("next_annoyance_level_increase"@.len() == 29);
            assert("main_loop_sleep"@[1] != "module_statuses"@[1]);
            assert("main_loop_sleep"@[0] != "annoyance_level"@[0]);
            assert("module_statuses"@[0] != "annoyance_level"@[0]);
        }
        let mut t = table_new();
        put_str(&mut t, "home_dir", &self.home_dir);
        put_u64(&mut t, "main_loop_sleep", self.main_loop_sleep)?;
        put_flags(&mut t, "module_statuses", &self.module_statuses);
        put_u8(&mut t, "annoyance_level", self.annoyance_level);
        put_u64(&mut t, "next_annoyance_level_increase", self.next_annoyance_level_increase)?;
        Ok(t)
    }

    /// The configuration a table holds.
    pub fn from_table(t: &TomlTable) -> (r: Result<BaseConfig, PersistError>)
        ensures
            match base_decoded(*t) {
                Some(v) => r matches Ok(c) && c.wf() && c@ == v,
                None => r == Err::<BaseConfig, PersistError>(PersistError::BadField),
            },
    {
        let home_dir = get_str(t, "home_dir")?;
        let main_loop_sleep = get_u64(t, "main_loop_sleep")?;
        let module_statuses = get_flags(t, "module_statuses")?;
        let annoyance_level = get_u8(t, "annoyance_level")?;
        let next_annoyance_level_increase = get_u64(t, "next_annoyance_level_increase")?;
        Ok(
            BaseConfig {
                home_dir,
                main_loop_sleep,
                module_statuses,
                annoyance_level,
                next_annoyance_level_increase,
            },
        )
    }
}

/// The home directory of the application under the temporary directory.
pub fn app_home_dir(temp_dir: &str) -> (r: String)
    ensures
        r@ == joined_path(temp_dir@, APP_NAME@),
{
    join_path(temp_dir, APP_NAME)
}

/// The configuration a stored text holds, when it parses and holds one.
pub open spec fn stored_base(text: Seq<char>) -> Option<BaseConfigView> {
    match toml_table_of(text) {
        Some(t) => base_decoded(t),
        None => None,
    }
}

/// The TOML text the configuration is saved as, in `<home_dir>/config.toml`:
/// the serializer's rendering of a table that encodes it.
pub fn save_base_config(config: &BaseConfig) -> (r: Result<String, PersistError>)
    ensures
        !base_fits(config@) ==> r == Err::<String, PersistError>(PersistError::ValueOutOfRange),
        base_fits(config@) ==> exists|t: TomlTable|
            toml_model_ok(t) && base_encodes(t, config@) && saved_as(#[trigger] toml_text_of(t), r),
{
    let t = config.to_table()?;
    render(&t)
}

/// The configuration read from the stored text of `<home_dir>/config.toml`
/// when there is a usable one; otherwise a fresh one, which the caller saves.
pub fn load_base_config(home_dir: &String, stored: Option<&str>, now: u64) -> (r: LoadOutcome<
    BaseConfig,
>)
    ensures
        r.value().wf(),
        r is Loaded <==> (stored is Some && stored_base(stored->Some_0@) is Some),
        r is Loaded ==> stored_base(stored->Some_0@) == Some(r.value()@),
        r is CreatedDefault ==> r.value()@ == fresh_base(home_dir@, now),
{
    match stored {
        Some(text) => match parse(text) {
            Ok(t) => match BaseConfig::from_table(&t) {
                Ok(c) => LoadOutcome::Loaded(c),
                Err(_) => LoadOutcome::CreatedDefault(BaseConfig::new(home_dir, now)),
            },
            Err(_) => LoadOutcome::CreatedDefault(BaseConfig::new(home_dir, now)),
        },
        None => LoadOutcome::CreatedDefault(BaseConfig::new(home_dir, now)),
    }
}

/// The configuration of the application whose home lies under `temp_dir`,
/// given the stored text of its configuration file, if any.
pub fn get_base_config(temp_dir: &String, stored: Option<&str>, now: u64) -> (r: LoadOutcome<
    BaseConfig,
>)
    ensures
        r.value().wf(),
        r is Loaded <==> (stored is Some && stored_base(stored->Some_0@) is Some),
        r is Loaded ==> stored_base(stored->Some_0@) == Some(r.value()@),
        r is CreatedDefault ==> r.value()@ == fresh_base(joined_path(temp_dir@, APP_NAME@), now),
{
    let home = app_home_dir(temp_dir.as_str());
    load_base_config(&home, stored, now)
}

/// What the outer loop does after the escalation step of a tick.
#[derive(Clone, Copy, Debug, PartialEq, Eq, Structural)]
pub enum TickDecision {
    /// Level 0: trigger no module and wait `SUSPENDED_SLEEP` seconds.
    Suspended,
    /// Trigger every module in order, then wait the configured tick interval.
    RunModules,
}

/// The configuration after the escalation step of a tick at `now`.
pub open spec fn after_tick(c: BaseConfigView, now: u64) -> BaseConfigView {
    if is_due(now, c.next_annoyance_level_increase) {
        BaseConfigView {
            annoyance_level: escalated(c.annoyance_level),
            next_annoyance_level_increase: rearm_time(
                now,
                ANNOYANCE_LEVEL_INCREASE_INTERVAL as u64,
            ),
            ..c
        }
    } else {
        c
    }
}

/// One tick of the outer scheduler: escalate the annoyance level when its
/// time has come, then run the modules unless the level is 0.
pub fn scheduler_tick(config: &mut BaseConfig, now: u64) -> (r: TickDecision)
    ensures
        final(config).wf() == old(config).wf(),
        final(config)@ == after_tick(old(config)@, now),
        final(config)@.annoyance_level >= old(config)@.annoyance_level,
        r == TickDecision::Suspended <==> final(config)@.annoyance_level == 0,
{
    if now >= config.get_next_annoyance_level_increase() {
        config.increase_annoyance_level(now);
    }
    if config.get_annoyance_level() == 0 {
        TickDecision::Suspended
    } else {
        TickDecision::RunModules
    }
}

/// The configuration after a run of ticks at the given times, in order.
pub open spec fn after_ticks(c: BaseConfigView, times: Seq<u64>) -> BaseConfigView
    decreases times.len(),
{
    if times.len() == 0 {
        c
    } else {
        after_tick(after_ticks(c, times.drop_last()), times.last())
    }
}

/// Over any run of ticks the annoyance level never goes down; only an outside
/// `set_annoyance_level` lowers it.
pub proof fn lemma_annoyance_never_decreases(c: BaseConfigView, times: Seq<u64>)
    ensures
        after_ticks(c, times).annoyance_level >= c.annoyance_level,
    decreases times.len(),
{
    if times.len() > 0 {
        lemma_annoyance_never_decreases(c, times.drop_last());
    }
}

/// A tick ends at level 0 only when the level already was 0 and no escalation
/// was due: the loop stays suspended until an escalation or an outside change.
pub proof fn lemma_level_zero_suspends(c: BaseConfigView, now: u64)
    requires
        after_tick(c, now).annoyance_level == 0,
    ensures
        c.annoyance_level == 0,
        !is_due(now, c.next_annoyance_level_increase),
{
}

} // verus!
