use evil_rust::config::{
    app_home_dir, join_path, scheduler_tick, BaseConfig, TickDecision,
    ANNOYANCE_LEVEL_INCREASE_INTERVAL, SUSPENDED_SLEEP,
};
use evil_rust::schedule::{due_at, rearm, DAY, HOUR, MAN_DAY, MINUTE, SECOND, WEEK};

const NOW: u64 = 1_700_000_000;

fn fresh() -> BaseConfig {
    BaseConfig::new(&String::from("/tmp/Evilyn"), NOW)
}

#[test]
fn time_units() {
    assert_eq!(SECOND, 1);
    assert_eq!(MINUTE, 60);
    assert_eq!(HOUR, 3600);
    assert_eq!(MAN_DAY, 28800);
    assert_eq!(DAY, 86400);
    assert_eq!(WEEK, 604800);
    assert_eq!(ANNOYANCE_LEVEL_INCREASE_INTERVAL, 1_814_400);
    assert_eq!(SUSPENDED_SLEEP, 10);
}

#[test]
fn due_once_the_mark_is_reached() {
    assert!(!due_at(99, 100));
    assert!(due_at(100, 100));
    assert!(due_at(101, 100));
}

#[test]
fn rearm_adds_and_saturates() {
    assert_eq!(rearm(100, 20), 120);
    assert_eq!(rearm(u64::MAX - 1, 20), u64::MAX);
}

#[test]
fn join_path_adds_one_separator() {
    assert_eq!(join_path("/tmp", "mouse"), "/tmp/mouse");
    assert_eq!(join_path("/tmp/", "mouse"), "/tmp/mouse");
    assert_eq!(join_path("C:\\Temp\\", "mouse"), "C:\\Temp\\mouse");
    assert_eq!(join_path("", "mouse"), "mouse");
    assert_eq!(app_home_dir("/tmp"), "/tmp/Evilyn");
}

#[test]
fn fresh_base_config() {
    let c = fresh();
    assert_eq!(c.get_home_dir(), "/tmp/Evilyn");
    assert_eq!(c.get_main_loop_sleep(), 1);
    assert_eq!(c.get_annoyance_level(), 1);
    assert_eq!(c.get_next_annoyance_level_increase(), NOW + 1_814_400);
    assert!(c.is_module_enabled("wallpaper"));
    assert!(!c.is_module_enabled("mouse"));
    assert_eq!(c.get_module_statuses().len(), 1);
}

#[test]
fn module_switches_update_in_place() {
    let mut c = fresh();
    c.set_module_enabled("mouse", true);
    c.set_module_enabled("wallpaper", false);
    c.set_module_enabled("mouse", false);
    c.set_module_enabled("clipboard", true);
    assert!(!c.is_module_enabled("wallpaper"));
    assert!(!c.is_module_enabled("mouse"));
    assert!(c.is_module_enabled("clipboard"));
    assert!(!c.is_module_enabled("syssound"));
    assert_eq!(c.get_module_statuses().len(), 3);
}

#[test]
fn setters_change_one_field() {
    let mut c = fresh();
    c.set_home_dir(&String::from("/other"));
    c.set_next_annoyance_level_increase(5);
    c.set_annoyance_level(7);
    assert_eq!(c.get_home_dir(), "/other");
    assert_eq!(c.get_next_annoyance_level_increase(), 5);
    assert_eq!(c.get_annoyance_level(), 7);
    assert_eq!(c.get_main_loop_sleep(), 1);
}

#[test]
fn increase_annoyance_level_steps_and_caps() {
    let mut c = fresh();
    assert_eq!(c.increase_annoyance_level(NOW + 10), 2);
    assert_eq!(c.get_next_annoyance_level_increase(), NOW + 10 + 1_814_400);
    c.set_annoyance_level(255);
    assert_eq!(c.increase_annoyance_level(NOW), 255);
}

#[test]
fn tick_before_escalation_keeps_level() {
    let mut c = fresh();
    assert_eq!(scheduler_tick(&mut c, NOW + 1), TickDecision::RunModules);
    assert_eq!(c.get_annoyance_level(), 1);
    assert_eq!(c.get_next_annoyance_level_increase(), NOW + 1_814_400);
}

#[test]
fn tick_at_escalation_raises_level() {
    let mut c = fresh();
    let at = NOW + 1_814_400;
    assert_eq!(scheduler_tick(&mut c, at), TickDecision::RunModules);
    assert_eq!(c.get_annoyance_level(), 2);
    assert_eq!(c.get_next_annoyance_level_increase(), at + 1_814_400);
}

#[test]
fn level_zero_suspends_until_escalation() {
    let mut c = fresh();
    c.set_annoyance_level(0);
    assert_eq!(scheduler_tick(&mut c, NOW), TickDecision::Suspended);
    assert_eq!(scheduler_tick(&mut c, NOW + 100), TickDecision::Suspended);
    assert_eq!(c.get_annoyance_level(), 0);
    assert_eq!(scheduler_tick(&mut c, NOW + 1_814_400), TickDecision::RunModules);
    assert_eq!(c.get_annoyance_level(), 1);
}

#[test]
fn level_never_decreases_over_ticks() {
    let mut c = fresh();
    let mut last = c.get_annoyance_level();
    let mut t = NOW;
    for _ in 0..50 {
        t += 1_000_000;
        scheduler_tick(&mut c, t);
        assert!(c.get_annoyance_level() >= last);
        last = c.get_annoyance_level();
    }
    assert!(last > 1);
}
