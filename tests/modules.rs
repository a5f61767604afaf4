use evil_rust::config::{BaseConfig, ModuleConfig};
use evil_rust::mouse::{MouseAction, MouseError, MouseModule};
use evil_rust::syssound::{default_sound_mappings, SysSoundModule};
use evil_rust::wallpaper::{has_wallpaper_files, is_jpg, WallpaperModule, GITHUB_ROOT};

const NOW: u64 = 1_700_000_000;

fn base() -> BaseConfig {
    BaseConfig::new(&String::from("/tmp/Evilyn"), NOW)
}

#[test]
fn module_homes_live_under_the_base_home() {
    let b = base();
    assert_eq!(MouseModule::default_module(&b, NOW).get_module_home(), "/tmp/Evilyn/mouse");
    assert_eq!(WallpaperModule::default_module(&b, NOW).get_module_home(), "/tmp/Evilyn/wallpaper");
    assert_eq!(SysSoundModule::default_module(&b, NOW).get_module_home(), "/tmp/Evilyn/syssound");
    assert_eq!(MouseModule::construct_module_home(&String::from("/x")), "/x/mouse");
}

#[test]
fn refresh_base_config_moves_the_home() {
    let mut b = base();
    let mut m = MouseModule::default_module(&b, NOW);
    b.set_home_dir(&String::from("/new"));
    m.refresh_base_config(&b);
    assert_eq!(m.get_module_home(), "/new/mouse");
    assert_eq!(m.get_module_name(), "mouse");
}

#[test]
fn set_enabled_switches() {
    let mut m = MouseModule::default_module(&base(), NOW);
    assert!(m.get_enabled());
    m.set_enabled(false);
    assert!(!m.get_enabled());
}

#[test]
fn mouse_fires_only_when_due_and_enabled() {
    let mut m = MouseModule::from_parts(true, NOW + 10, 50, String::from("/h"));
    assert!(m.trigger(NOW + 9).is_empty());
    assert_eq!(m.get_next_change(), NOW + 10);
    assert_eq!(
        m.trigger(NOW + 10),
        vec![
            MouseAction::IncreaseWheelScrollLines,
            MouseAction::ToggleWheelRouting,
            MouseAction::DecreaseSensitivity,
        ]
    );
    assert_eq!(m.get_next_change(), NOW + 60);
    let mut off = MouseModule::from_parts(false, 0, 50, String::from("/h"));
    assert!(off.trigger(NOW).is_empty());
    assert_eq!(off.get_next_change(), 0);
}

#[test]
fn mouse_fires_at_most_once_per_interval() {
    let mut m = MouseModule::from_parts(true, NOW, 50, String::from("/h"));
    assert_eq!(m.trigger(NOW).len(), 3);
    assert!(m.trigger(NOW).is_empty());
    assert!(m.trigger(NOW + 49).is_empty());
    assert_eq!(m.trigger(NOW + 50).len(), 3);
    assert_eq!(m.get_next_change(), NOW + 100);
}

#[test]
fn mouse_reschedules_after_sensitivity_change() {
    let mut m = MouseModule::from_parts(true, NOW, 50, String::from("/h"));
    assert_eq!(m.decrease_sensitivity_and_reschedule(Some(10), NOW), Ok(Some(9)));
    assert_eq!(m.get_next_change(), NOW + 50);
    assert_eq!(m.decrease_sensitivity_and_reschedule(None, NOW + 50), Ok(None));
    assert_eq!(m.get_next_change(), NOW + 100);
}

#[test]
fn fresh_mouse_module() {
    let mut m = MouseModule::default_module(&base(), NOW);
    assert_eq!(m.get_frequency(), 2 * 86400);
    assert_eq!(m.get_next_change(), NOW);
    assert_eq!(m.trigger(NOW).len(), 3);
    assert_eq!(m.get_next_change(), NOW + 2 * 86400);
}

#[test]
fn scroll_lines_grow_up_to_the_limit() {
    let m = MouseModule::default_module(&base(), NOW);
    assert_eq!(m.increase_wheel_scroll_lines(3), Ok(4));
    assert_eq!(m.increase_wheel_scroll_lines(99), Ok(100));
    assert_eq!(m.increase_wheel_scroll_lines(100), Err(MouseError::ScrollLinesOutOfRange));
    assert_eq!(m.increase_wheel_scroll_lines(u32::MAX), Err(MouseError::ScrollLinesOutOfRange));
}

#[test]
fn wheel_routing_toggles() {
    let m = MouseModule::default_module(&base(), NOW);
    assert_eq!(m.toggle_mouse_wheel_routing(0), 2);
    assert_eq!(m.toggle_mouse_wheel_routing(2), 0);
    assert_eq!(m.toggle_mouse_wheel_routing(1), 0);
}

#[test]
fn sensitivity_drops_by_one_down_to_one() {
    let m = MouseModule::default_module(&base(), NOW);
    assert_eq!(m.decrease_sensitivity(0), Ok(None));
    assert_eq!(m.decrease_sensitivity(1), Ok(None));
    assert_eq!(m.decrease_sensitivity(2), Ok(Some(1)));
    assert_eq!(m.decrease_sensitivity(21), Ok(Some(20)));
    assert_eq!(m.decrease_sensitivity(22), Err(MouseError::SensitivityOutOfRange));
}

#[test]
fn wallpaper_waits_until_due() {
    let mut w = WallpaperModule::from_parts(true, String::from("/w"), String::from("http://x/"), 60..120, None, NOW + 5);
    assert!(!w.trigger(NOW + 4));
    assert_eq!(w.get_next_change(), NOW + 5);
    assert!(w.trigger(NOW + 5));
    let next = w.get_next_change();
    assert!(next >= NOW + 65 && next < NOW + 125);
    assert!(!w.trigger(NOW + 5));
}

#[test]
fn disabled_wallpaper_never_fires() {
    let mut w = WallpaperModule::from_parts(true, String::from("/w"), String::from("http://x/"), 60..120, None, 0);
    w.set_enabled(false);
    assert!(!w.trigger(NOW));
    assert_eq!(w.get_next_change(), 0);
}

#[test]
fn fresh_wallpaper_module() {
    let w = WallpaperModule::default_module(&base(), NOW);
    assert_eq!(w.get_frequency_range(), 60..28800);
    assert_eq!(w.get_next_change(), NOW);
    assert!(w.get_enabled());
    assert_eq!(w.get_original_wallpaper(), None);
    for _ in 0..100 {
        let f = w.get_next_frequency();
        assert!(f >= 60 && f < 28800);
    }
}

#[test]
fn original_wallpaper_is_recorded_once() {
    let mut w = WallpaperModule::default_module(&base(), NOW);
    assert!(w.remember_original_wallpaper(String::from("C:\\a.jpg")));
    assert!(!w.remember_original_wallpaper(String::from("C:\\b.jpg")));
    assert_eq!(w.get_original_wallpaper(), Some(String::from("C:\\a.jpg")));
    w.set_original_wallpaper(String::from("C:\\c.jpg"));
    assert_eq!(w.get_original_wallpaper(), Some(String::from("C:\\c.jpg")));
}

#[test]
fn random_wallpaper_is_one_of_five() {
    let w = WallpaperModule::from_parts(true, String::from("/w"), String::from("http://x/"), 60..120, None, 0);
    let allowed = ["/w/0.jpg", "/w/1.jpg", "/w/2.jpg", "/w/3.jpg", "/w/4.jpg"];
    for _ in 0..100 {
        let p = w.get_random_wallpaper();
        assert!(allowed.contains(&p.as_str()), "{}", p);
    }
}

#[test]
fn download_plan_lists_ten_images() {
    let w = WallpaperModule::default_module(&base(), NOW);
    let plan = w.download_plan();
    assert_eq!(plan.len(), 10);
    assert_eq!(plan[0].0, format!("{}0.jpg", GITHUB_ROOT));
    assert_eq!(plan[9].0, format!("{}9.jpg", GITHUB_ROOT));
    assert_eq!(plan[3].1, "/tmp/Evilyn/wallpaper/3.jpg");
}

#[test]
fn jpg_detection() {
    assert!(is_jpg("a.jpg"));
    assert!(is_jpg(".jpg"));
    assert!(!is_jpg("jpg"));
    assert!(!is_jpg("a.png"));
    assert!(!has_wallpaper_files(&vec![]));
    assert!(!has_wallpaper_files(&vec![String::from("x.txt")]));
    assert!(has_wallpaper_files(&vec![String::from("x.txt"), String::from("/w/1.jpg")]));
}

#[test]
fn default_sound_mappings_are_ten() {
    let m = default_sound_mappings();
    assert_eq!(m.len(), 10);
    assert_eq!(m[0], (String::from(".Default"), String::from("onii-chan.wav")));
    assert_eq!(m[9], (String::from("WindowsUAC"), String::from("kimochi.wav")));
}

#[test]
fn sounds_change_once_when_due() {
    let mut s = SysSoundModule::default_module(&base(), NOW);
    assert!(s.trigger(NOW));
    let next = s.get_next_change();
    assert!(next >= NOW + 60 && next < NOW + 28800);
    assert!(!s.trigger(next - 1));
    assert_eq!(s.get_next_change(), next);
    assert!(!s.trigger(next));
    assert!(s.get_next_change() > next);
    let mut off = SysSoundModule::default_module(&base(), NOW);
    off.set_enabled(false);
    assert!(!off.trigger(NOW));
    assert_eq!(off.get_next_change(), NOW);
}

#[test]
fn sounds_wait_until_due() {
    let mut s = SysSoundModule::from_parts(
        false,
        true,
        String::from("/s"),
        String::from("http://x/"),
        10..20,
        default_sound_mappings(),
        NOW + 5,
    );
    assert!(!s.trigger(NOW + 4));
    assert_eq!(s.get_next_change(), NOW + 5);
    assert!(s.trigger(NOW + 5));
    let next = s.get_next_change();
    assert!(next >= NOW + 15 && next < NOW + 25);
}

#[test]
fn sound_changes_use_full_paths() {
    let s = SysSoundModule::default_module(&base(), NOW);
    assert_eq!(s.get_full_sound_path("uwu.wav"), "/tmp/Evilyn/syssound/uwu.wav");
    let plan = s.change_sounds();
    assert_eq!(plan.len(), 10);
    assert!(plan.contains(&(String::from("Maximize"), String::from("/tmp/Evilyn/syssound/ara-ara.wav"))));
}
