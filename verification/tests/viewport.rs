use scroll_anchor::config::Config;
use scroll_anchor::viewport::{lift_above_margin, shift_offset, EdgeZone, ViewportMeasurement};

fn measured(scroll_offset: i64, content_extent: i64, visible_extent: i64) -> ViewportMeasurement {
    ViewportMeasurement { scroll_offset, content_extent, visible_extent }
}

#[test]
fn default_config_values() {
    let config = Config::default();
    assert_eq!(config.paging_batch_size, 5);
    assert_eq!(config.initial_fill_size, 15);
    assert_eq!(config.edge_margin, 50);
    assert_eq!(config.eviction_count, 5);
    assert!(config.is_valid());
}

#[test]
fn with_edge_margin_changes_the_margin_only() {
    let config = Config::with_edge_margin(80);
    assert_eq!(config, Config { edge_margin: 80, ..Config::default() });
}

#[test]
fn config_with_the_largest_margin_is_not_valid() {
    assert!(!Config::with_edge_margin(i64::MAX).is_valid());
    assert!(Config::with_edge_margin(i64::MAX - 1).is_valid());
    assert!(Config::with_edge_margin(-3).is_valid());
}

#[test]
fn offset_at_or_below_the_margin_is_the_top_zone() {
    assert_eq!(measured(10, 1000, 400).zone(50), EdgeZone::Top);
    assert_eq!(measured(50, 1000, 400).zone(50), EdgeZone::Top);
    assert_eq!(measured(0, 1000, 400).zone(50), EdgeZone::Top);
    assert_eq!(measured(-5, 1000, 400).zone(50), EdgeZone::Top);
}

#[test]
fn offset_near_the_end_is_the_bottom_zone() {
    // 1000 - 400 - 50 = 550
    assert_eq!(measured(550, 1000, 400).zone(50), EdgeZone::Bottom);
    assert_eq!(measured(600, 1000, 400).zone(50), EdgeZone::Bottom);
    assert_eq!(measured(549, 1000, 400).zone(50), EdgeZone::Steady);
}

#[test]
fn offset_between_the_bands_is_steady() {
    assert_eq!(measured(51, 1000, 400).zone(50), EdgeZone::Steady);
    assert_eq!(measured(300, 1000, 400).zone(50), EdgeZone::Steady);
}

#[test]
fn top_is_tested_before_bottom() {
    // Content shorter than the viewport: the offset lies in both bands.
    assert_eq!(measured(20, 300, 400).zone(50), EdgeZone::Top);
    // A reading of zeros, as the surface gives before layout.
    assert_eq!(measured(0, 0, 0).zone(50), EdgeZone::Top);
}

#[test]
fn zone_does_not_overflow_on_extreme_readings() {
    assert_eq!(measured(i64::MAX, i64::MIN, i64::MAX).zone(50), EdgeZone::Bottom);
    assert_eq!(measured(i64::MAX, i64::MAX, i64::MIN).zone(-50), EdgeZone::Steady);
    assert_eq!(measured(i64::MIN, i64::MAX, i64::MIN).zone(i64::MIN), EdgeZone::Top);
}

#[test]
fn centered_is_half_of_the_slack() {
    assert_eq!(measured(0, 1000, 400).centered(), 300);
    assert_eq!(measured(0, 1001, 400).centered(), 300);
    assert_eq!(measured(0, 400, 400).centered(), 0);
    assert_eq!(measured(0, 0, 0).centered(), 0);
}

#[test]
fn centered_rounds_toward_zero_when_the_content_is_short() {
    assert_eq!(measured(0, 300, 400).centered(), -50);
    assert_eq!(measured(0, 299, 400).centered(), -50);
    assert_eq!(measured(0, 0, 1).centered(), 0);
    assert_eq!(measured(0, i64::MIN, i64::MAX).centered(), i64::MIN + 1);
    assert_eq!(measured(0, i64::MAX, i64::MIN).centered(), i64::MAX);
}

#[test]
fn shift_offset_adds_the_growth_of_the_content() {
    assert_eq!(shift_offset(10, 1000, 1250), 260);
    assert_eq!(shift_offset(300, 1250, 1000), 50);
    assert_eq!(shift_offset(300, 1000, 1000), 300);
    assert_eq!(shift_offset(10, 1000, 0), -990);
}

#[test]
fn shift_offset_saturates() {
    assert_eq!(shift_offset(i64::MAX, 0, 1), i64::MAX);
    assert_eq!(shift_offset(i64::MIN, 1, 0), i64::MIN);
    assert_eq!(shift_offset(0, i64::MIN, i64::MAX), i64::MAX);
    assert_eq!(shift_offset(0, i64::MAX, i64::MIN), i64::MIN);
    assert_eq!(shift_offset(i64::MAX, i64::MAX, 0), 0);
}

#[test]
fn lift_above_margin_moves_an_offset_out_of_the_band() {
    assert_eq!(lift_above_margin(10, 50), 51);
    assert_eq!(lift_above_margin(50, 50), 51);
    assert_eq!(lift_above_margin(-990, 50), 51);
    assert_eq!(lift_above_margin(51, 50), 51);
    assert_eq!(lift_above_margin(260, 50), 260);
    assert_eq!(lift_above_margin(i64::MIN, i64::MAX - 1), i64::MAX);
}
