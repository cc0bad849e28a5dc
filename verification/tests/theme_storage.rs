use loshell::storage::{config_path, get_data_path, Config, TaskData};
use loshell::theme::ThemeName;

#[test]
fn theme_cycle_visits_all_six_and_wraps() {
    let start = ThemeName::Bladerunner;
    let mut seen = vec![start];
    let mut t = start;
    for _ in 0..5 {
        t = t.next();
        assert!(!seen.contains(&t));
        seen.push(t);
    }
    assert_eq!(t.next(), start);
}

#[test]
fn theme_labels() {
    assert_eq!(ThemeName::Bladerunner.label(), "Blade Runner");
    assert_eq!(ThemeName::CatppuccinMocha.label(), "Catppuccin Mocha");
    assert_eq!(ThemeName::Gruvbox.label(), "Gruvbox");
    assert_eq!(ThemeName::TokyoNight.label(), "Tokyo Night");
    assert_eq!(ThemeName::RosePine.label(), "Rose Pine");
    assert_eq!(ThemeName::Monotropic.label(), "Monotropic");
}

#[test]
fn defaults_for_saved_records() {
    assert_eq!(ThemeName::default(), ThemeName::Bladerunner);
    let c = Config::default();
    assert_eq!(c.theme, ThemeName::Bladerunner);
    let d = TaskData::default();
    assert!(d.tasks.is_empty());
    assert_eq!(d.next_id, 0);
}

#[test]
fn storage_paths_end_under_the_app_directory() {
    let p = get_data_path();
    assert!(p.ends_with("/tasks.json"));
    assert!(p.contains("/loshell/"));
    let c = config_path();
    assert!(c.ends_with("/config.json"));
    assert!(c.contains("/loshell/"));
}
