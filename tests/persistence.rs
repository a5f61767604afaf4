use evil_rust::clipboard::ClipboardModule;
use evil_rust::config::{
    get_base_config, load_base_config, load_config, load_or_initialize, save_base_config,
    save_module_config, BaseConfig, LoadOutcome, ModuleConfig,
};
use evil_rust::mouse::MouseModule;
use evil_rust::persist::PersistError;
use evil_rust::syssound::SysSoundModule;
use evil_rust::wallpaper::WallpaperModule;

const NOW: u64 = 1_700_000_000;

fn base() -> BaseConfig {
    BaseConfig::new(&String::from("/tmp/Evilyn"), NOW)
}

#[test]
fn base_config_round_trip() {
    let mut c = base();
    c.set_module_enabled("mouse", false);
    c.set_module_enabled("clipboard", true);
    c.set_annoyance_level(4);
    let text = save_base_config(&c).unwrap();
    let back = match load_base_config(&String::from("/elsewhere"), Some(&text), NOW + 1) {
        LoadOutcome::Loaded(b) => b,
        LoadOutcome::CreatedDefault(_) => panic!("saved configuration was not loaded"),
    };
    assert_eq!(back.get_home_dir(), "/tmp/Evilyn");
    assert_eq!(back.get_main_loop_sleep(), 1);
    assert_eq!(back.get_annoyance_level(), 4);
    assert_eq!(back.get_next_annoyance_level_increase(), NOW + 1_814_400);
    assert!(back.is_module_enabled("wallpaper"));
    assert!(back.is_module_enabled("clipboard"));
    assert!(!back.is_module_enabled("mouse"));
    assert_eq!(back.get_module_statuses().len(), 3);
}

#[test]
fn missing_or_corrupt_base_config_is_replaced_by_defaults() {
    let home = String::from("/tmp/Evilyn");
    let created = load_base_config(&home, None, NOW);
    assert!(created.is_created());
    let c = created.into_inner();
    assert_eq!(c.get_annoyance_level(), 1);
    assert!(load_base_config(&home, Some("not = [toml"), NOW).is_created());
    assert!(load_base_config(&home, Some("home_dir = 3"), NOW).is_created());
    let via_temp = get_base_config(&String::from("/tmp"), None, NOW).into_inner();
    assert_eq!(via_temp.get_home_dir(), "/tmp/Evilyn");
}

#[test]
fn mouse_round_trip() {
    let mut m = MouseModule::from_parts(false, NOW + 7, 42, String::from("/h/mouse"));
    m.set_enabled(true);
    let text = save_module_config(&m).unwrap();
    let back: MouseModule = load_config(&text, NOW).unwrap();
    assert!(back.get_enabled());
    assert_eq!(back.get_next_change(), NOW + 7);
    assert_eq!(back.get_frequency(), 42);
    assert_eq!(back.get_module_home(), "/h/mouse");
}

#[test]
fn wallpaper_round_trip() {
    for original in [None, Some(String::from("C:\\Windows\\Web\\img0.jpg"))] {
        let w = WallpaperModule::from_parts(
            true,
            String::from("/h/wallpaper"),
            String::from("http://example/"),
            60..600,
            original.clone(),
            NOW + 3,
        );
        let text = save_module_config(&w).unwrap();
        let back: WallpaperModule = load_config(&text, NOW).unwrap();
        assert!(back.get_enabled());
        assert_eq!(back.get_module_home(), "/h/wallpaper");
        assert_eq!(back.get_frequency_range(), 60..600);
        assert_eq!(back.get_original_wallpaper(), original);
        assert_eq!(back.get_next_change(), NOW + 3);
    }
}

#[test]
fn syssound_round_trip() {
    let s = SysSoundModule::default_module(&base(), NOW);
    let text = save_module_config(&s).unwrap();
    let back: SysSoundModule = load_config(&text, NOW).unwrap();
    assert_eq!(back.get_module_home(), "/tmp/Evilyn/syssound");
    let mut a = s.change_sounds();
    let mut b = back.change_sounds();
    a.sort();
    b.sort();
    assert_eq!(a, b);
    let mut fired = back;
    assert!(fired.trigger(NOW));
    let mut again: SysSoundModule = load_config(&save_module_config(&fired).unwrap(), NOW).unwrap();
    assert_eq!(again.get_next_change(), fired.get_next_change());
    assert!(!again.trigger(u64::MAX / 2));
}

#[test]
fn clipboard_round_trip_rebuilds_actions() {
    let mut c = ClipboardModule::default_module(&base(), NOW);
    c.set_enabled(false);
    let text = save_module_config(&c).unwrap();
    let back: ClipboardModule = load_config(&text, NOW + 5).unwrap();
    assert!(!back.get_enabled());
    assert_eq!(back.get_module_home(), "/tmp/Evilyn/clipboard");
    assert_eq!(back.get_tamperings().len(), 5);
    for t in back.get_tamperings() {
        assert!(t.trigger >= NOW + 5 + 300 && t.trigger < NOW + 5 + 14400);
    }
}

#[test]
fn out_of_range_time_is_refused() {
    let m = MouseModule::from_parts(true, u64::MAX, 42, String::from("/h"));
    assert_eq!(save_module_config(&m).err(), Some(PersistError::ValueOutOfRange));
}

#[test]
fn invalid_stored_state_is_refused() {
    let zero = "enabled = true\nnext_trigger = 1\nfrequency = 0\nmodule_home = \"/h\"\n";
    assert_eq!(load_config::<MouseModule>(zero, NOW).err(), Some(PersistError::BadField));
    assert_eq!(load_config::<MouseModule>("enabled = [", NOW).err(), Some(PersistError::Deserialize));
    let negative = "enabled = true\nnext_trigger = -1\nfrequency = 5\nmodule_home = \"/h\"\n";
    assert_eq!(load_config::<MouseModule>(negative, NOW).err(), Some(PersistError::BadField));
}

#[test]
fn load_or_initialize_reports_what_happened() {
    let b = base();
    let created = load_or_initialize::<MouseModule>(&b, None, NOW);
    assert!(created.is_created());
    let text = save_module_config(&created.into_inner()).unwrap();
    let loaded = load_or_initialize::<MouseModule>(&b, Some(&text), NOW + 99);
    assert!(!loaded.is_created());
    assert_eq!(loaded.into_inner().get_next_change(), NOW);
    assert!(load_or_initialize::<MouseModule>(&b, Some("garbage ="), NOW).is_created());
}

#[test]
fn saved_text_is_a_key_value_document() {
    let m = MouseModule::from_parts(true, 10, 42, String::from("/h"));
    let text = save_module_config(&m).unwrap();
    assert!(text.contains("frequency = 42"));
    assert!(text.contains("next_trigger = 10"));
    assert!(text.contains("module_home = \"/h\""));
}
