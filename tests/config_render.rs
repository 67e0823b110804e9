use showcase::config::Config;

#[test]
fn ultra_with_debug_renders_name_and_version() {
    assert_eq!(Config::new("ultra").with_debug(true).render(), "ultra v1");
}

#[test]
fn new_config_defaults() {
    let c = Config::new("ultra");
    assert_eq!(c.name, "ultra");
    assert_eq!(c.version, 1);
    assert!(!c.debug);
}

#[test]
fn empty_name_is_accepted() {
    let c = Config::new("");
    assert_eq!(c.render(), " v1");
}

#[test]
fn debug_flag_is_not_rendered() {
    let on = Config::new("x").with_debug(true);
    let off = Config::new("x").with_debug(false);
    assert!(on.debug);
    assert!(!off.debug);
    assert_eq!(on.render(), off.render());
}

#[test]
fn debug_toggles_keep_version_and_name() {
    let mut c = Config::new("svc");
    for flag in [true, false, true, true, false] {
        c = c.with_debug(flag);
        assert_eq!(c.version, 1);
        assert_eq!(c.name, "svc");
        assert_eq!(c.debug, flag);
    }
}

#[test]
fn render_shows_multi_digit_version() {
    let c = Config { name: String::from("big"), version: 4294967295, debug: false };
    assert_eq!(c.render(), "big v4294967295");
    let z = Config { name: String::from("z"), version: 10, debug: true };
    assert_eq!(z.render(), "z v10");
}
