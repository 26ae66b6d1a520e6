use transcendia::commands::{f_s_r, select_region, set_config, startup, OverlayRefresh};
use transcendia::config::{Config, Region};
use transcendia::runtime::TranscendiaRuntime;

fn config_with(region: Option<Region>) -> Config {
    let mut c = Config::default();
    c.region = region;
    c.monitor = 3;
    c.interval = 2;
    c.lang = String::from("fr");
    c
}

fn some_region() -> Region {
    Region { x: 0, y: 0, w: 100, h: 50 }
}

#[test]
fn runtime_is_not_started_before_models_are_ready() {
    let mut rt = TranscendiaRuntime::new(2);
    let plan = startup(&mut rt, &config_with(Some(some_region())), false);
    assert!(plan.launch.is_none());
    assert!(plan.overlay.is_none());
    assert!(!plan.config_window);
    assert!(!rt.is_running());
}

#[test]
fn startup_with_region_starts_runtime_and_overlay() {
    let mut rt = TranscendiaRuntime::new(2);
    let plan = startup(&mut rt, &config_with(Some(some_region())), true);
    let task = plan.launch.unwrap();
    assert_eq!(task.monitor, 3);
    assert_eq!(task.region, some_region());
    assert_eq!(task.language, "fr");
    assert_eq!(task.interval, 2);
    assert_eq!(plan.overlay, Some(some_region()));
    assert!(!plan.config_window);
    assert!(rt.is_running());
}

#[test]
fn startup_without_region_opens_config_window() {
    let mut rt = TranscendiaRuntime::new(2);
    let plan = startup(&mut rt, &config_with(None), true);
    assert!(plan.launch.is_none());
    assert!(plan.overlay.is_none());
    assert!(plan.config_window);
    assert!(!rt.is_running());
}

#[test]
fn finishing_a_selection_twice_launches_once() {
    let mut rt = TranscendiaRuntime::new(2);
    let config = config_with(Some(some_region()));
    let first = f_s_r(&mut rt, &config, true);
    let second = f_s_r(&mut rt, &config, false);
    assert!(first.launch.is_some());
    assert!(first.config_window);
    assert!(second.launch.is_none());
    assert_eq!(second.overlay, Some(some_region()));
    assert!(!second.config_window);
    let none = f_s_r(&mut rt, &config_with(None), false);
    assert!(none.launch.is_none() && none.overlay.is_none() && none.config_window);
}

#[test]
fn selecting_a_region_stops_a_running_overlay() {
    let mut rt = TranscendiaRuntime::new(2);
    rt.start(0, some_region(), String::from("fr"));
    select_region(&mut rt, false);
    assert!(rt.is_running());
    select_region(&mut rt, true);
    assert!(!rt.is_running());
    assert!(rt.stop_pending());
}

#[test]
fn new_settings_reach_the_runtime_without_restart() {
    let mut rt = TranscendiaRuntime::new(2);
    rt.start(0, some_region(), String::from("fr"));
    let mut current = config_with(Some(some_region()));
    let mut new_config = config_with(Some(Region { x: 1, y: 2, w: 3, h: 4 }));
    new_config.interval = 7;
    new_config.lang = String::from("de");
    new_config.blur_background = false;
    let refresh = set_config(&mut rt, &mut current, new_config, true, true);
    assert_eq!(
        refresh,
        OverlayRefresh::Edit { region: Region { x: 1, y: 2, w: 3, h: 4 }, monitor: 3, blur: false }
    );
    assert_eq!(rt.interval(), 7);
    assert_eq!(rt.language(), "de");
    assert!(rt.is_running());
    assert_eq!(current.interval, 7);
    assert_eq!(current.lang, "de");

    let again = config_with(None);
    assert_eq!(set_config(&mut rt, &mut current, again, true, true), OverlayRefresh::Nothing);
    let again = config_with(Some(some_region()));
    assert_eq!(set_config(&mut rt, &mut current, again, true, false), OverlayRefresh::Nothing);
    let again = config_with(Some(some_region()));
    assert_eq!(set_config(&mut rt, &mut current, again, false, true), OverlayRefresh::Notify);
}
