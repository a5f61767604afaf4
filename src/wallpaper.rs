//! Wallpaper module: at random intervals it switches the desktop wallpaper to
//! one of a few numbered images kept in its directory.
use vstd::prelude::*;
use std::ops::Range;
use crate::config::{joined_path, join_path, BaseConfig, BaseConfigView, ModuleConfig};
use crate::persist::{
    bool_at, get_bool, get_str, get_u32, get_u64, put_bool, put_str, put_u32, put_u64, str_at,
    table_get, table_new, toml_keys, toml_model_ok, toml_strs, u32_at, u64_at, PersistError,
    TomlItem, TomlTable,
};
use crate::random::random_in_range;
use crate::schedule::{is_due, rearm, rearm_time, MAN_DAY, MINUTE};
use crate::text::string_of;

verus! {

pub const MODULE_NAME: &'static str = "wallpaper";

/// Where the images are fetched from: `<root><i>.jpg`.
pub const GITHUB_ROOT: &'static str =
    "https://raw.githubusercontent.com/Jakolcz/evil-things/main/evil-rust/src/wallpaper/data/";

/// Images `0.jpg` up to this count (exclusive) are picked from.
pub const WALLPAPER_COUNT: u8 = 5;

/// Images `0.jpg` up to this count (exclusive) are downloaded.
pub const DOWNLOAD_COUNT: u8 = 10;

pub struct WallpaperModuleView {
    pub enabled: bool,
    pub wallpaper_dir: Seq<char>,
    pub source_http: Seq<char>,
    pub frequency_start: u32,
    pub frequency_end: u32,
    pub original_wallpaper: Option<Seq<char>>,
    pub next_change: u64,
}

pub struct WallpaperModule {
    enabled: bool,
    wallpaper_dir: String,
    source_http: String,
    frequency_range: Range<u32>,
    original_wallpaper: Option<String>,
    next_change: u64,
}

pub open spec fn opt_view(o: Option<String>) -> Option<Seq<char>> {
    match o {
        Some(s) => Some(s@),
        None => None,
    }
}

impl View for WallpaperModule {
    type V = WallpaperModuleView;

    closed spec fn view(&self) -> WallpaperModuleView {
        WallpaperModuleView {
            enabled: self.enabled,
            wallpaper_dir: self.wallpaper_dir@,
            source_http: self.source_http@,
            frequency_start: self.frequency_range.start,
            frequency_end: self.frequency_range.end,
            original_wallpaper: opt_view(self.original_wallpaper),
            next_change: self.next_change,
        }
    }
}

/// An optional text field: absent, or a string.
pub open spec fn opt_str_ok(t: TomlTable, k: Seq<char>) -> bool {
    !toml_keys(t).contains(k) || toml_strs(t).contains_key(k)
}

pub open spec fn opt_str_at(t: TomlTable, k: Seq<char>) -> Option<Seq<char>> {
    if toml_strs(t).contains_key(k) {
        Some(toml_strs(t)[k])
    } else {
        None
    }
}

/// The state a table holds, when it holds a valid one.
pub open spec fn wallpaper_decoded(t: TomlTable) -> Option<WallpaperModuleView> {
    match (
        bool_at(t, "enabled"@),
        str_at(t, "wallpaper_dir"@),
        str_at(t, "source_http"@),
        u32_at(t, "frequency_range_start"@),
        u32_at(t, "frequency_range_end"@),
        u64_at(t, "next_change"@),
    ) {
        (
            Some(enabled),
            Some(wallpaper_dir),
            Some(source_http),
            Some(frequency_start),
            Some(frequency_end),
            Some(next_change),
        ) => {
            if 0 < frequency_start < frequency_end && opt_str_ok(t, "original_wallpaper"@) {
                Some(
                    WallpaperModuleView {
                        enabled,
                        wallpaper_dir,
                        source_http,
                        frequency_start,
                        frequency_end,
                        original_wallpaper: opt_str_at(t, "original_wallpaper"@),
                        next_change,
                    },
                )
            } else {
                None
            }
        },
        _ => None,
    }
}

/// A fresh module under the configuration home `home`, due at `now`.
pub open spec fn fresh_wallpaper(home: Seq<char>, now: u64) -> WallpaperModuleView {
    WallpaperModuleView {
        enabled: true,
        wallpaper_dir: joined_path(home, MODULE_NAME@),
        source_http: GITHUB_ROOT@,
        frequency_start: MINUTE,
        frequency_end: MAN_DAY,
        original_wallpaper: None,
        next_change: now,
    }
}

/// The decimal digit of `i < 10`.
pub open spec fn digit(i: u8) -> char {
    (('0' as u32) + i) as char
}

/// `<i>.jpg`.
pub open spec fn numbered_jpg(i: u8) -> Seq<char> {
    seq![digit(i), '.', 'j', 'p', 'g']
}

pub open spec fn ends_with_jpg(s: Seq<char>) -> bool {
    s.len() >= 4 && s.subrange(s.len() - 4, s.len() as int) == seq!['.', 'j', 'p', 'g']
}

fn numbered_jpg_name(i: u8) -> (r: String)
    requires
        i < 10,
    ensures
        r@ == numbered_jpg(i),
{
    let d = (('0' as u8) + i) as char;
    let v = vec![d, '.', 'j', 'p', 'g'];
    string_of(&v)
}

/// Whether the name ends with `.jpg`.
pub fn is_jpg(name: &str) -> (r: bool)
    ensures
        r == ends_with_jpg(name@),
{
    let n = name.unicode_len();
    if n < 4 {
        return false;
    }
    let r = name.get_char(n - 4) == '.' && name.get_char(n - 3) == 'j' && name.get_char(n - 2)
        == 'p' && name.get_char(n - 1) == 'g';
    proof {
        if r {
            assert(name@.subrange(n - 4, n as int) =~= seq!['.', 'j', 'p', 'g']);
        } else {
            if name@.subrange(n - 4, n as int) == seq!['.', 'j', 'p', 'g'] {
                assert(name@.subrange(n - 4, n as int)[0] == name@[n - 4]);
                assert(name@.subrange(n - 4, n as int)[1] == name@[n - 3]);
                assert(name@.subrange(n - 4, n as int)[2] == name@[n - 2]);
                assert(name@.subrange(n - 4, n as int)[3] == name@[n - 1]);
            }
        }
    }
    r
}

/// Whether a directory holding files of these names has any image to pick.
pub fn has_wallpaper_files(names: &Vec<String>) -> (r: bool)
    ensures
        r == exists|i: int| 0 <= i < names@.len() && ends_with_jpg(#[trigger] names@[i]@),
{
    let mut i: usize = 0;
    while i < names.len()
        invariant
            i <= names@.len(),
            forall|j: int| 0 <= j < i ==> !ends_with_jpg(#[trigger] names@[j]@),
        decreases names@.len() - i,
    {
        if is_jpg(names[i].as_str()) {
            return true;
        }
        i += 1;
    }
    false
}

impl WallpaperModule {
    /// Well-formed: the re-arm range is non-empty and starts above zero.
    pub open spec fn wf_view(v: WallpaperModuleView) -> bool {
        0 < v.frequency_start < v.frequency_end
    }

    pub fn from_parts(
        enabled: bool,
        wallpaper_dir: String,
        source_http: String,
        frequency_range: Range<u32>,
        original_wallpaper: Option<String>,
        next_change: u64,
    ) -> (r: WallpaperModule)
        ensures
            r@ == (WallpaperModuleView {
                enabled,
                wallpaper_dir: wallpaper_dir@,
                source_http: source_http@,
                frequency_start: frequency_range.start,
                frequency_end: frequency_range.end,
                original_wallpaper: opt_view(original_wallpaper),
                next_change,
            }),
    {
        WallpaperModule {
            enabled,
            wallpaper_dir,
            source_http,
            frequency_range,
            original_wallpaper,
            next_change,
        }
    }

    /// A fresh module: switched on, no original wallpaper recorded yet, due at
    /// `now`, and re-armed by intervals drawn from `MINUTE..MAN_DAY`.
    pub fn new_default(base_config: &BaseConfig, now: u64) -> (r: WallpaperModule)
        ensures
            Self::wf_view(r@),
            r@ == fresh_wallpaper(base_config@.home_dir, now),
    {
        WallpaperModule {
            enabled: true,
            wallpaper_dir: Self::construct_module_home(base_config.get_home_dir()),
            source_http: String::from_str(GITHUB_ROOT),
            frequency_range: MINUTE..MAN_DAY,
            original_wallpaper: None,
            next_change: now,
        }
    }

    /// At `now`, when switched on and due, re-arms the module by an interval
    /// drawn from its range and tells the caller to switch the wallpaper.
    /// Otherwise nothing changes.
    pub fn trigger(&mut self, now: u64) -> (r: bool)
        requires
            Self::wf_view(old(self)@),
        ensures
            r == (old(self)@.enabled && is_due(now, old(self)@.next_change)),
            now < old(self)@.next_change ==> !r,
            !r ==> final(self)@ == old(self)@,
            r ==> exists|d: u32|
                old(self)@.frequency_start <= d < old(self)@.frequency_end && final(self)@ == (
                WallpaperModuleView { next_change: #[trigger] rearm_time(now, d as u64), ..old(self)@ }),
            r && now + old(self)@.frequency_end <= u64::MAX ==> final(self)@.next_change > now,
    {
        if !self.enabled || now < self.next_change {
            return false;
        }
        let d = self.get_next_frequency();
        self.set_next_change(rearm(now, d as u64));
        true
    }

    /// Draws a re-arm interval from the module's range.
    pub fn get_next_frequency(&self) -> (r: u32)
        requires
            Self::wf_view(self@),
        ensures
            self@.frequency_start <= r < self@.frequency_end,
    {
        random_in_range(self.frequency_range.start, self.frequency_range.end)
    }

    pub fn get_frequency_range(&self) -> (r: Range<u32>)
        ensures
            r.start == self@.frequency_start,
            r.end == self@.frequency_end,
    {
        self.frequency_range.start..self.frequency_range.end
    }

    pub fn get_next_change(&self) -> (r: u64)
        ensures
            r == self@.next_change,
    {
        self.next_change
    }

    pub fn set_next_change(&mut self, next_change: u64)
        ensures
            final(self)@ == (WallpaperModuleView { next_change, ..old(self)@ }),
    {
        self.next_change = next_change;
    }

    pub fn set_original_wallpaper(&mut self, original_wallpaper: String)
        ensures
            final(self)@ == (WallpaperModuleView {
                original_wallpaper: Some(original_wallpaper@),
                ..old(self)@
            }),
    {
        self.original_wallpaper = Some(original_wallpaper);
    }

    pub fn get_original_wallpaper(&self) -> (r: Option<String>)
        ensures
            opt_view(r) == self@.original_wallpaper,
    {
        match &self.original_wallpaper {
            Some(s) => Some(s.clone()),
            None => None,
        }
    }

    /// Records the wallpaper in place before the first switch; later calls keep
    /// the first record. Returns whether it was recorded now.
    pub fn remember_original_wallpaper(&mut self, current: String) -> (r: bool)
        ensures
            r == (old(self)@.original_wallpaper is None),
            r ==> final(self)@ == (WallpaperModuleView {
                original_wallpaper: Some(current@),
                ..old(self)@
            }),
            !r ==> final(self)@ == old(self)@,
    {
        if self.original_wallpaper.is_none() {
            self.set_original_wallpaper(current);
            true
        } else {
            false
        }
    }

    /// The path of a randomly picked image: `<dir>/<i>.jpg` with `i` below
    /// `WALLPAPER_COUNT`.
    pub fn get_random_wallpaper(&self) -> (r: String)
        ensures
            exists|i: u8|
                i < WALLPAPER_COUNT && r@ == joined_path(
                    self@.wallpaper_dir,
                    #[trigger] numbered_jpg(i),
                ),
    {
        let i = random_in_range(0, WALLPAPER_COUNT as u32) as u8;
        let name = numbered_jpg_name(i);
        join_path(self.wallpaper_dir.as_str(), name.as_str())
    }

    /// The images to fetch, in order: for each `i` below `DOWNLOAD_COUNT`, the
    /// address `<source><i>.jpg` and the destination `<dir>/<i>.jpg`.
    pub fn download_plan(&self) -> (r: Vec<(String, String)>)
        ensures
            r@.len() == DOWNLOAD_COUNT,
            forall|i: int|
                0 <= i < r@.len() ==> {
                    &&& (#[trigger] r@[i]).0@ == self@.source_http + numbered_jpg(i as u8)
                    &&& r@[i].1@ == joined_path(self@.wallpaper_dir, numbered_jpg(i as u8))
                },
    {
        let mut r: Vec<(String, String)> = Vec::new();
        let mut i: u8 = 0;
        while i < DOWNLOAD_COUNT
            invariant
                i <= DOWNLOAD_COUNT,
                r@.len() == i,
                forall|j: int|
                    0 <= j < i ==> {
                        &&& (#[trigger] r@[j]).0@ == self@.source_http + numbered_jpg(j as u8)
                        &&& r@[j].1@ == joined_path(self@.wallpaper_dir, numbered_jpg(j as u8))
                    },
            decreases DOWNLOAD_COUNT - i,
        {
            let name = numbered_jpg_name(i);
            let mut url = self.source_http.clone();
            url.append(name.as_str());
            let dest = join_path(self.wallpaper_dir.as_str(), name.as_str());
            r.push((url, dest));
            i += 1;
        }
        r
    }
}

impl ModuleConfig for WallpaperModule {
    open spec fn spec_module_name() -> Seq<char> {
        MODULE_NAME@
    }

    open spec fn spec_enabled(v: WallpaperModuleView) -> bool {
        v.enabled
    }

    open spec fn spec_module_home(v: WallpaperModuleView) -> Seq<char> {
        v.wallpaper_dir
    }

    open spec fn spec_with_enabled(v: WallpaperModuleView, enabled: bool) -> WallpaperModuleView {
        WallpaperModuleView { enabled, ..v }
    }

    open spec fn spec_with_home(v: WallpaperModuleView, home: Seq<char>) -> WallpaperModuleView {
        WallpaperModuleView { wallpaper_dir: home, ..v }
    }

    fn get_module_name(&self) -> (r: &'static str) {
        MODULE_NAME
    }

    fn module_name() -> (r: &'static str) {
        MODULE_NAME
    }

    fn get_module_home(&self) -> (r: &String) {
        &self.wallpaper_dir
    }

    fn get_enabled(&self) -> (r: bool) {
        self.enabled
    }

    fn set_enabled(&mut self, enabled: bool) {
        self.enabled = enabled;
    }

    fn construct_module_home(base_home_path: &String) -> (r: String) {
        join_path(base_home_path.as_str(), MODULE_NAME)
    }

    fn refresh_base_config(&mut self, base_config: &BaseConfig) {
        self.wallpaper_dir = Self::construct_module_home(base_config.get_home_dir());
    }

    open spec fn spec_valid(v: WallpaperModuleView) -> bool {
        Self::wf_view(v)
    }

    open spec fn spec_fits(v: WallpaperModuleView) -> bool {
        v.next_change <= i64::MAX
    }

    open spec fn spec_encodes(t: TomlTable, v: WallpaperModuleView) -> bool {
        &&& toml_model_ok(t)
        &&& bool_at(t, "enabled"@) == Some(v.enabled)
        &&& str_at(t, "wallpaper_dir"@) == Some(v.wallpaper_dir)
        &&& str_at(t, "source_http"@) == Some(v.source_http)
        &&& u32_at(t, "frequency_range_start"@) == Some(v.frequency_start)
        &&& u32_at(t, "frequency_range_end"@) == Some(v.frequency_end)
        &&& u64_at(t, "next_change"@) == Some(v.next_change)
        &&& match v.original_wallpaper {
            Some(w) => str_at(t, "original_wallpaper"@) == Some(w),
            None => !toml_keys(t).contains("original_wallpaper"@),
        }
    }

    open spec fn spec_loadable(t: TomlTable) -> bool {
        wallpaper_decoded(t) is Some
    }

    open spec fn spec_decodes(t: TomlTable, now: u64, v: WallpaperModuleView) -> bool {
        wallpaper_decoded(t) == Some(v)
    }

    open spec fn spec_fresh(base: BaseConfigView, now: u64, v: WallpaperModuleView) -> bool {
        v == fresh_wallpaper(base.home_dir, now)
    }

    open spec fn spec_same_saved(a: WallpaperModuleView, b: WallpaperModuleView) -> bool {
        a == b
    }

    fn default_module(base_config: &BaseConfig, now: u64) -> (r: Self) {
        Self::new_default(base_config, now)
    }

    fn to_table(&self) -> (r: Result<TomlTable, PersistError>) {
        proof {
            reveal_strlit("enabled");
            reveal_strlit("wallpaper_dir");
            reveal_strlit("source_http");
            reveal_strlit("frequency_range_start");
            reveal_strlit("frequency_range_end");
            reveal_strlit("next_change");
            reveal_strlit("original_wallpaper");
            assert("enabled"@.len() == 7);
            assert("wallpaper_dir"@.len() == 13);
            assert("source_http"@.len() == 11);
            assert("frequency_range_start"@.len() == 21);
            assert("frequency_range_end"@.len() == 19);
            assert("next_change"@.len() == 11);
            assert("original_wallpaper"@.len() == 18);
            assert("source_http"@[0] != "next_change"@[0]);
        }
        let mut t = table_new();
        put_bool(&mut t, "enabled", self.enabled);
        put_str(&mut t, "wallpaper_dir", &self.wallpaper_dir);
        put_str(&mut t, "source_http", &self.source_http);
        put_u32(&mut t, "frequency_range_start", self.frequency_range.start);
        put_u32(&mut t, "frequency_range_end", self.frequency_range.end);
        put_u64(&mut t, "next_change", self.next_change)?;
        match &self.original_wallpaper {
            Some(w) => put_str(&mut t, "original_wallpaper", w),
            None => {},
        }
        Ok(t)
    }

    fn from_table(t: &TomlTable, now: u64) -> (r: Result<Self, PersistError>) {
        let enabled = get_bool(t, "enabled")?;
        let wallpaper_dir = get_str(t, "wallpaper_dir")?;
        let source_http = get_str(t, "source_http")?;
        let start = get_u32(t, "frequency_range_start")?;
        let end = get_u32(t, "frequency_range_end")?;
        let next_change = get_u64(t, "next_change")?;
        if start == 0 || start >= end {
            return Err(PersistError::BadField);
        }
        let original_wallpaper = match table_get(t, "original_wallpaper") {
            None => None,
            Some(TomlItem::Text(w)) => Some(w.clone()),
            Some(_) => {
                return Err(PersistError::BadField);
            },
        };
        Ok(
            WallpaperModule {
                enabled,
                wallpaper_dir,
                source_http,
                frequency_range: start..end,
                original_wallpaper,
                next_change,
            },
        )
    }

    proof fn lemma_round_trip(t: TomlTable, now: u64, v: WallpaperModuleView, w: WallpaperModuleView) {
    }
}

} // verus!
