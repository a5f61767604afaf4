use evil_rust::clipboard::ClipboardModule;
use evil_rust::config::{BaseConfig, ModuleConfig};
use evil_rust::tampering::{
    apply_tampering, get_initial_tampering_trigger, get_tampering_functions, reverse_string,
    semicolon_to_greek_question_mark, swap_case, tamper_pass, to_lowercase, to_uppercase,
    ClipboardTampering, TamperKind, GREEK_QUESTION_MARK,
};

const NOW: u64 = 1_700_000_000;

fn action(kind: TamperKind, trigger: u64, cooldown: u32) -> ClipboardTampering {
    ClipboardTampering { tamper: kind, trigger, enabled: true, cooldown }
}

fn all_default_kinds_eligible() -> Vec<ClipboardTampering> {
    vec![
        action(TamperKind::ToUppercase, 0, 10),
        action(TamperKind::ToLowercase, 0, 10),
        action(TamperKind::ReverseString, 0, 10),
        action(TamperKind::SwapCase, 0, 10),
        action(TamperKind::SemicolonToGreekQuestionMark, 0, 10),
    ]
}

#[test]
fn uppercase_touches_ascii_letters_only() {
    let mut s = String::from("aBc;1é");
    to_uppercase(&mut s);
    assert_eq!(s, "ABC;1é");
}

#[test]
fn lowercase_touches_ascii_letters_only() {
    let mut s = String::from("AbC;1É");
    to_lowercase(&mut s);
    assert_eq!(s, "abc;1É");
}

#[test]
fn reverse_reverses_characters() {
    let mut s = String::from("ab€d");
    reverse_string(&mut s);
    assert_eq!(s, "d€ba");
    let mut e = String::new();
    reverse_string(&mut e);
    assert_eq!(e, "");
}

#[test]
fn swap_case_swaps_each_character() {
    let mut s = String::from("Hello, Wörld 1");
    swap_case(&mut s);
    assert_eq!(s, "hELLO, wÖRLD 1");
}

#[test]
fn semicolons_become_greek_question_marks() {
    let mut s = String::from("a;b;;");
    semicolon_to_greek_question_mark(&mut s);
    assert_eq!(s, "a\u{37e}b\u{37e}\u{37e}");
    assert_eq!(GREEK_QUESTION_MARK, '\u{37e}');
}

#[test]
fn five_transforms_compose_in_registration_order() {
    let mut s = String::from("Hello;World");
    for kind in [
        TamperKind::ToUppercase,
        TamperKind::ToLowercase,
        TamperKind::ReverseString,
        TamperKind::SwapCase,
        TamperKind::SemicolonToGreekQuestionMark,
    ] {
        apply_tampering(kind, &mut s);
    }
    assert_eq!(s, "DLROW\u{37e}OLLEH");
}

#[test]
fn pass_with_all_actions_proceeding_applies_registration_order() {
    let mut actions = all_default_kinds_eligible();
    let mut text = String::from("Hello;World");
    let rolls = vec![99u32; 5];
    let fired = tamper_pass(&mut actions, &mut text, &rolls, NOW);
    assert!(fired);
    assert_eq!(text, "DLROW\u{37e}OLLEH");
    for a in &actions {
        assert_eq!(a.trigger, NOW + 10);
    }
}

#[test]
fn transforms_do_not_commute() {
    let mut a = String::from("Hello");
    apply_tampering(TamperKind::ToUppercase, &mut a);
    apply_tampering(TamperKind::ToLowercase, &mut a);
    let mut b = String::from("Hello");
    apply_tampering(TamperKind::ToLowercase, &mut b);
    apply_tampering(TamperKind::ToUppercase, &mut b);
    assert_eq!(a, "hello");
    assert_eq!(b, "HELLO");
    assert_ne!(a, b);
}

#[test]
fn action_in_cooldown_is_never_applied() {
    let mut actions = vec![action(TamperKind::ToUppercase, NOW + 1, 10)];
    let mut text = String::from("abc");
    let fired = tamper_pass(&mut actions, &mut text, &vec![99], NOW);
    assert!(!fired);
    assert_eq!(text, "abc");
    assert_eq!(actions[0].trigger, NOW + 1);
}

#[test]
fn low_roll_skips_an_eligible_action() {
    let mut actions = vec![action(TamperKind::ToUppercase, NOW, 10)];
    let mut text = String::from("abc");
    assert!(!tamper_pass(&mut actions, &mut text, &vec![69], NOW));
    assert_eq!(text, "abc");
    assert_eq!(actions[0].trigger, NOW);
    assert!(tamper_pass(&mut actions, &mut text, &vec![70], NOW));
    assert_eq!(text, "ABC");
    assert_eq!(actions[0].trigger, NOW + 10);
}

#[test]
fn disabled_action_is_skipped() {
    let mut actions = vec![ClipboardTampering {
        tamper: TamperKind::ReverseString,
        trigger: 0,
        enabled: false,
        cooldown: 5,
    }];
    let mut text = String::from("abc");
    assert!(!tamper_pass(&mut actions, &mut text, &vec![99], NOW));
    assert_eq!(text, "abc");
}

#[test]
fn actions_cool_down_independently() {
    let mut actions = vec![
        action(TamperKind::ToUppercase, NOW, 100),
        action(TamperKind::ReverseString, NOW + 50, 7),
    ];
    let mut text = String::from("ab");
    assert!(tamper_pass(&mut actions, &mut text, &vec![80, 80], NOW));
    assert_eq!(text, "AB");
    assert_eq!(actions[0].trigger, NOW + 100);
    assert_eq!(actions[1].trigger, NOW + 50);
    assert!(tamper_pass(&mut actions, &mut text, &vec![80, 80], NOW + 60));
    assert_eq!(text, "BA");
    assert_eq!(actions[0].trigger, NOW + 100);
    assert_eq!(actions[1].trigger, NOW + 67);
}

#[test]
fn default_registry_has_five_actions_with_their_cooldowns() {
    let fns = get_tampering_functions(NOW);
    let kinds: Vec<TamperKind> = fns.iter().map(|t| t.tamper).collect();
    assert_eq!(
        kinds,
        vec![
            TamperKind::ToUppercase,
            TamperKind::ToLowercase,
            TamperKind::ReverseString,
            TamperKind::SwapCase,
            TamperKind::SemicolonToGreekQuestionMark,
        ]
    );
    let cooldowns: Vec<u32> = fns.iter().map(|t| t.cooldown).collect();
    assert_eq!(cooldowns, vec![3 * 86400, 5 * 86400, 10 * 86400, 7 * 86400, 86400]);
    for t in &fns {
        assert!(t.enabled);
        assert!(t.trigger >= NOW + 300 && t.trigger < NOW + 14400);
    }
}

#[test]
fn initial_trigger_is_between_five_minutes_and_four_hours_ahead() {
    for _ in 0..200 {
        let t = get_initial_tampering_trigger(NOW);
        assert!(t >= NOW + 300 && t < NOW + 14400);
    }
}

#[test]
fn one_eligible_action_applies_about_thirty_percent_of_the_time() {
    let base = BaseConfig::new(&String::from("/tmp/evilyn"), NOW);
    let mut module = ClipboardModule::default_module(&base, NOW);
    module.set_tamperings(vec![action(TamperKind::ToUppercase, 0, 0)]);
    let trials = 20_000;
    let mut applied = 0;
    for _ in 0..trials {
        if module.tamper_with_clipboard(String::from("abc"), NOW).is_some() {
            applied += 1;
        }
    }
    let rate = applied as f64 / trials as f64;
    assert!(rate > 0.27 && rate < 0.33, "rate {}", rate);
}

#[test]
fn clipboard_pass_writes_back_only_when_something_fired() {
    let base = BaseConfig::new(&String::from("/tmp/evilyn"), NOW);
    let mut module = ClipboardModule::default_module(&base, NOW);
    module.set_tamperings(vec![action(TamperKind::ReverseString, NOW + 100, 10)]);
    assert_eq!(module.tamper_with_rolls(String::from("abc"), &vec![99], NOW), None);
    assert_eq!(
        module.tamper_with_rolls(String::from("abc"), &vec![99], NOW + 100),
        Some(String::from("cba"))
    );
    assert_eq!(module.get_tamperings()[0].trigger, NOW + 110);
}

#[test]
fn clipboard_trigger_does_nothing_when_disabled_or_unread() {
    let base = BaseConfig::new(&String::from("/tmp/evilyn"), NOW);
    let mut module = ClipboardModule::default_module(&base, NOW);
    module.set_tamperings(vec![action(TamperKind::ReverseString, 0, 0)]);
    assert_eq!(module.trigger(None, NOW), None);
    module.set_enabled(false);
    for _ in 0..50 {
        assert_eq!(module.trigger(Some(String::from("abc")), NOW), None);
    }
    assert_eq!(module.get_tamperings()[0].trigger, 0);
}

#[test]
fn pass_over_no_actions_writes_nothing() {
    let mut actions: Vec<ClipboardTampering> = Vec::new();
    let mut text = String::from("abc");
    assert!(!tamper_pass(&mut actions, &mut text, &Vec::new(), NOW));
    assert_eq!(text, "abc");
}
