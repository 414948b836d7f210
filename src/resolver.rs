use vstd::prelude::*;

use crate::probe::ProbeError;
use crate::settings::{Args, MonitorSettings, ResolvedAction};
use crate::store::StoreError;

verus! {

/// The value a pair of integers stands for.
pub open spec fn pair(brightness: int, contrast: int) -> MonitorSettings {
    MonitorSettings { brightness: brightness as i32, contrast: contrast as i32 }
}

/// The fixed table of levels; a level off the table means the darkest pair.
pub open spec fn level_table(lvl: u32) -> MonitorSettings {
    if lvl == 1 {
        pair(8, 7)
    } else if lvl == 2 {
        pair(23, 15)
    } else if lvl == 3 {
        pair(50, 50)
    } else {
        pair(0, 0)
    }
}

/// The pair used on the game workspace when presets are enabled.
pub open spec fn preset_settings() -> MonitorSettings {
    pair(50, 50)
}

/// The pair used when nothing better is known.
pub open spec fn fallback_settings() -> MonitorSettings {
    pair(0, 0)
}

/// The rules of the priority chain, in the order in which they are tried.
#[derive(Clone, Copy, Debug, PartialEq, Eq, Structural)]
pub enum Rule {
    Preset,
    FromConfig,
    Level,
}

/// The first rule that matches.
pub open spec fn rule_of(args: Args, is_game: bool) -> Rule {
    if args.enable_presets && is_game {
        Rule::Preset
    } else if args.read_config {
        Rule::FromConfig
    } else {
        Rule::Level
    }
}

/// What a run settles on; `config` is consulted by the config rule alone.
pub open spec fn resolve_spec(
    args: Args,
    is_game: bool,
    config: Result<MonitorSettings, StoreError>,
) -> ResolvedAction {
    match rule_of(args, is_game) {
        Rule::Preset => ResolvedAction { settings: preset_settings(), persist: false },
        Rule::FromConfig => ResolvedAction {
            settings: match config {
                Ok(s) => s,
                Err(_) => fallback_settings(),
            },
            persist: false,
        },
        Rule::Level => ResolvedAction { settings: level_table(args.lvl), persist: true },
    }
}

/// Looks a level up in the fixed table.
pub fn level_settings(lvl: u32) -> (r: MonitorSettings)
    ensures
        r == level_table(lvl),
{
    match lvl {
        1 => MonitorSettings { brightness: 8, contrast: 7 },
        2 => MonitorSettings { brightness: 23, contrast: 15 },
        3 => MonitorSettings { brightness: 50, contrast: 50 },
        _ => MonitorSettings { brightness: 0, contrast: 0 },
    }
}

/// Picks the first rule of the chain that matches.
pub fn select_rule(args: &Args, is_game: bool) -> (r: Rule)
    ensures
        r == rule_of(*args, is_game),
{
    if args.enable_presets && is_game {
        Rule::Preset
    } else if args.read_config {
        Rule::FromConfig
    } else {
        Rule::Level
    }
}

/// Whether the stored record is consulted on these inputs.
pub fn needs_config(args: &Args, is_game: bool) -> (r: bool)
    ensures
        r == (rule_of(*args, is_game) == Rule::FromConfig),
{
    match select_rule(args, is_game) {
        Rule::FromConfig => true,
        _ => false,
    }
}

/// Whether the workspace has to be probed: only presets look at it.
pub fn needs_probe(args: &Args) -> (r: bool)
    ensures
        r == args.enable_presets,
{
    args.enable_presets
}

/// Whether the run is on the game workspace. With presets off the workspace
/// plays no part and counts as not the game one; with presets on, a failed
/// probe fails the run.
pub fn game_mode(args: &Args, probe: Result<bool, ProbeError>) -> (r: Result<bool, ProbeError>)
    ensures
        !args.enable_presets ==> r == Ok::<bool, ProbeError>(false),
        args.enable_presets ==> r == probe,
{
    if args.enable_presets {
        probe
    } else {
        Ok(false)
    }
}

/// Resolves the settings of one run from the inputs, the probe's answer and
/// the outcome of reading the stored record. Never fails: a missing or
/// malformed record gives the darkest pair. Only the level rule persists.
pub fn resolve(args: &Args, is_game: bool, config: Result<MonitorSettings, StoreError>) -> (r:
    ResolvedAction)
    ensures
        r == resolve_spec(*args, is_game, config),
{
    match select_rule(args, is_game) {
        Rule::Preset => ResolvedAction {
            settings: MonitorSettings { brightness: 50, contrast: 50 },
            persist: false,
        },
        Rule::FromConfig => {
            let settings = match config {
                Ok(s) => s,
                Err(_) => MonitorSettings { brightness: 0, contrast: 0 },
            };
            ResolvedAction { settings, persist: false }
        },
        Rule::Level => ResolvedAction { settings: level_settings(args.lvl), persist: true },
    }
}

/// With neither switch set, a level on the table gives its fixed pair and is
/// kept as the new baseline.
pub proof fn lemma_level_on_table(
    lvl: u32,
    is_game: bool,
    config: Result<MonitorSettings, StoreError>,
)
    requires
        lvl <= 3,
    ensures
        ({
            let r = resolve_spec(
                Args { lvl, read_config: false, enable_presets: false },
                is_game,
                config,
            );
            &&& r.persist
            &&& lvl == 0 ==> r.settings == MonitorSettings { brightness: 0, contrast: 0 }
            &&& lvl == 1 ==> r.settings == MonitorSettings { brightness: 8, contrast: 7 }
            &&& lvl == 2 ==> r.settings == MonitorSettings { brightness: 23, contrast: 15 }
            &&& lvl == 3 ==> r.settings == MonitorSettings { brightness: 50, contrast: 50 }
        }),
{
}

/// With neither switch set, a level off the table gives the darkest pair.
pub proof fn lemma_level_off_table(
    lvl: u32,
    is_game: bool,
    config: Result<MonitorSettings, StoreError>,
)
    requires
        lvl > 3,
    ensures
        resolve_spec(Args { lvl, read_config: false, enable_presets: false }, is_game, config)
            == (ResolvedAction {
            settings: MonitorSettings { brightness: 0, contrast: 0 },
            persist: true,
        }),
{
}

/// With presets enabled on the game workspace, the preset pair wins over the
/// level and the stored record, and is not kept.
pub proof fn lemma_preset_wins(lvl: u32, read_config: bool, config: Result<MonitorSettings, StoreError>)
    ensures
        resolve_spec(Args { lvl, read_config, enable_presets: true }, true, config) == (
        ResolvedAction { settings: MonitorSettings { brightness: 50, contrast: 50 }, persist: false }),
{
}

/// Reading the record, when no preset applies, gives the stored pair exactly
/// and does not keep it again.
pub proof fn lemma_config_read(args: Args, is_game: bool, stored: MonitorSettings)
    requires
        args.read_config,
        !(args.enable_presets && is_game),
    ensures
        resolve_spec(args, is_game, Ok(stored)) == (ResolvedAction {
            settings: stored,
            persist: false,
        }),
{
}

/// Reading the record, when no preset applies, falls back to the darkest pair
/// on any error of the store, and does not keep it.
pub proof fn lemma_config_missing(args: Args, is_game: bool, e: StoreError)
    requires
        args.read_config,
        !(args.enable_presets && is_game),
    ensures
        resolve_spec(args, is_game, Err(e)) == (ResolvedAction {
            settings: MonitorSettings { brightness: 0, contrast: 0 },
            persist: false,
        }),
{
}

/// Only the level rule keeps its result as the new baseline.
pub proof fn lemma_persist_only_on_level(
    args: Args,
    is_game: bool,
    config: Result<MonitorSettings, StoreError>,
)
    ensures
        resolve_spec(args, is_game, config).persist == (rule_of(args, is_game) == Rule::Level),
{
}

} // verus!
