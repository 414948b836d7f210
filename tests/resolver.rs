use monitor_control::probe::ProbeError;
use monitor_control::resolver::{game_mode, level_settings, needs_config, needs_probe, resolve, select_rule, Rule};
use monitor_control::settings::{Args, MonitorSettings, ResolvedAction};
use monitor_control::store::StoreError;

fn args(lvl: u32, read_config: bool, enable_presets: bool) -> Args {
    Args { lvl, read_config, enable_presets }
}

fn pair(brightness: i32, contrast: i32) -> MonitorSettings {
    MonitorSettings::new(brightness, contrast)
}

#[test]
fn levels_on_table_give_fixed_pairs_and_persist() {
    let expected = [pair(0, 0), pair(8, 7), pair(23, 15), pair(50, 50)];
    for (lvl, want) in expected.iter().enumerate() {
        let r = resolve(&args(lvl as u32, false, false), false, Err(StoreError::NotFound));
        assert_eq!(r, ResolvedAction { settings: *want, persist: true });
        assert_eq!(level_settings(lvl as u32), *want);
    }
}

#[test]
fn level_off_table_gives_darkest_pair() {
    let r = resolve(&args(7, false, false), false, Err(StoreError::NotFound));
    assert_eq!(r, ResolvedAction { settings: pair(0, 0), persist: true });
    assert_eq!(level_settings(4), pair(0, 0));
    assert_eq!(level_settings(u32::MAX), pair(0, 0));
}

#[test]
fn default_level_gives_darkest_pair() {
    let r = resolve(&args(0, false, false), true, Ok(pair(30, 40)));
    assert_eq!(r, ResolvedAction { settings: pair(0, 0), persist: true });
}

#[test]
fn preset_on_game_workspace_wins() {
    for lvl in 0..5u32 {
        for read_config in [false, true] {
            let r = resolve(&args(lvl, read_config, true), true, Ok(pair(30, 40)));
            assert_eq!(r, ResolvedAction { settings: pair(50, 50), persist: false });
        }
    }
}

#[test]
fn preset_off_game_workspace_falls_through() {
    let r = resolve(&args(2, false, true), false, Err(StoreError::NotFound));
    assert_eq!(r, ResolvedAction { settings: pair(23, 15), persist: true });
    let r = resolve(&args(2, true, true), false, Ok(pair(30, 40)));
    assert_eq!(r, ResolvedAction { settings: pair(30, 40), persist: false });
}

#[test]
fn game_workspace_without_presets_is_ignored() {
    let r = resolve(&args(1, false, false), true, Err(StoreError::NotFound));
    assert_eq!(r, ResolvedAction { settings: pair(8, 7), persist: true });
}

#[test]
fn read_config_returns_stored_pair() {
    let r = resolve(&args(3, true, false), false, Ok(pair(30, 40)));
    assert_eq!(r, ResolvedAction { settings: pair(30, 40), persist: false });
}

#[test]
fn read_config_missing_or_corrupt_gives_darkest_pair() {
    for e in [StoreError::NotFound, StoreError::Malformed, StoreError::IoFailure] {
        let r = resolve(&args(3, true, false), false, Err(e));
        assert_eq!(r, ResolvedAction { settings: pair(0, 0), persist: false });
    }
}

#[test]
fn rules_are_tried_in_order() {
    assert_eq!(select_rule(&args(0, true, true), true), Rule::Preset);
    assert_eq!(select_rule(&args(0, true, true), false), Rule::FromConfig);
    assert_eq!(select_rule(&args(0, false, true), false), Rule::Level);
    assert!(needs_config(&args(0, true, false), false));
    assert!(!needs_config(&args(0, true, true), true));
    assert!(!needs_config(&args(0, false, false), false));
}

#[test]
fn probe_matters_only_with_presets() {
    assert!(needs_probe(&args(0, false, true)));
    assert!(!needs_probe(&args(0, true, false)));
    assert_eq!(game_mode(&args(0, false, false), Err(ProbeError::Unavailable)), Ok(false));
    assert_eq!(game_mode(&args(0, false, true), Err(ProbeError::Failed)), Err(ProbeError::Failed));
    assert_eq!(game_mode(&args(0, false, true), Ok(true)), Ok(true));
}
