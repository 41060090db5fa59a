use jcode::scroll_step::{configured_scroll_lines, resolve};

fn lines(config_text: Option<&str>) -> f64 {
    f64::from(resolve(config_text))
}

#[test]
fn missing_config_falls_back_to_one_line() {
    assert_eq!(lines(None), 1.0);
    assert_eq!(lines(Some("[keybindings]\nscroll_up = \"ctrl+k\"\n")), 1.0);
}

#[test]
fn configured_value_is_honored() {
    assert_eq!(lines(Some("[keybindings]\nscroll_lines = 5\n")), 5.0);
    // Quoted and comment-trailed forms are common in hand-edited TOML.
    assert_eq!(lines(Some("scroll_lines = \"3\" # coarse\n")), 3.0);
}

#[test]
fn commented_out_value_is_ignored() {
    assert_eq!(lines(Some("# scroll_lines = 9\n")), 1.0);
}

#[test]
fn out_of_range_values_are_clamped_not_obeyed() {
    // Zero would make the scroll keys do nothing at all.
    assert_eq!(lines(Some("scroll_lines = 0\n")), 1.0);
    assert_eq!(lines(Some("scroll_lines = 100000\n")), 200.0);
}

#[test]
fn malformed_value_falls_back_instead_of_panicking() {
    assert_eq!(lines(Some("scroll_lines = wat\n")), 1.0);
    assert_eq!(lines(Some("scroll_lines = -3\n")), 1.0);
}

#[test]
fn every_step_in_range_is_used() {
    for n in 1..=200u32 {
        assert_eq!(resolve(Some(&format!("scroll_lines = {n}"))), n);
    }
}

#[test]
fn only_the_first_setting_counts() {
    assert_eq!(configured_scroll_lines("scroll_lines = 7\nscroll_lines = 9\n"), Some(7));
    // A malformed first setting is not passed over.
    assert_eq!(configured_scroll_lines("scroll_lines = x\nscroll_lines = 9\n"), None);
}

#[test]
fn settings_are_read_tolerantly() {
    assert_eq!(configured_scroll_lines("  scroll_lines=4\r\n"), Some(4));
    assert_eq!(configured_scroll_lines("scroll_lines = '12'"), Some(12));
    assert_eq!(configured_scroll_lines("scroll_lines = +12"), Some(12));
    assert_eq!(configured_scroll_lines("scroll_lines = 1 = 2"), None);
    assert_eq!(configured_scroll_lines("scroll_lines"), None);
    assert_eq!(configured_scroll_lines("my_scroll_lines = 2"), None);
    assert_eq!(configured_scroll_lines("scroll_lines = 4294967295"), Some(200));
    assert_eq!(configured_scroll_lines("scroll_lines = 4294967296"), None);
    assert_eq!(configured_scroll_lines("scroll_lines = # 3"), None);
    assert_eq!(configured_scroll_lines(""), None);
}
