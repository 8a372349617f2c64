use crate::config::ConfigFlags;
use crate::decode::{act_at, act_index, lemma_act_positions, Act};
use crate::sampled::SamplePair;
use crate::watchers::{RawSample, WatcherSet};
use vstd::prelude::*;

verus! {

/// What the timer is doing, as far as the rules care.
#[derive(Clone, Copy, Debug, PartialEq, Eq, Structural)]
pub enum TimerPhase {
    NotRunning,
    Running,
    Paused,
    /// A finished run, or a phase the timer did not report: no rule is evaluated.
    Ended,
}

/// The command for the timer that one tick yields.
#[derive(Clone, Copy, Debug, PartialEq, Eq, Structural)]
pub enum Action {
    Nothing,
    Start,
    Split,
    Reset,
}

/// The game went from state 0 to state 4 or 5 and resetting is enabled.
pub open spec fn reset_rule(w: WatcherSet, f: ConfigFlags) -> bool {
    f.reset && match w.state.pair {
        None => false,
        Some(s) => s.old == 0 && (s.current == 4 || s.current == 5),
    }
}

/// A sampled `u8` that has just changed to 1.
pub open spec fn rose_to_one(p: SamplePair<u8>) -> bool {
    p.old != p.current && p.current == 1
}

/// A run starts from an existing save (state 5 to 7), from a fresh game
/// (state 4 while the start indicator turns 1), or as New Game+ (state 6 while the
/// start indicator turns 1 and the completed-game zone select reads 0).
pub open spec fn start_rule(w: WatcherSet, f: ConfigFlags) -> bool {
    match (w.state.pair, w.startindicator.pair, w.zoneselectongamecomplete.pair) {
        (Some(s), Some(si), Some(z)) => {
            ||| f.start_clean_save && s.old == 5 && s.current == 7
            ||| f.start_clean_save && s.current == 4 && rose_to_one(si)
            ||| f.start_new_game_plus && s.current == 6 && rose_to_one(si) && z.current == 0
        },
        _ => false,
    }
}

/// Entering an act splits when the previous act was the one just before it and
/// the toggle for leaving that act is on; leaving for `Default` splits when the
/// death egg toggle is on and the act changed.
pub open spec fn split_rule(w: WatcherSet, f: ConfigFlags) -> bool {
    match w.levelid.pair {
        None => false,
        Some(p) => if p.current == Act::Default {
            f.death_egg && p.old != p.current
        } else {
            act_index(p.current) > 0 && p.old == act_at((act_index(p.current) - 1) as nat)
                && f.split_after(p.old)
        },
    }
}

/// What a tick in `phase` emits: reset before split while a run is live, start
/// only while none is.
pub open spec fn decision(phase: TimerPhase, w: WatcherSet, f: ConfigFlags) -> Action {
    match phase {
        TimerPhase::Running | TimerPhase::Paused => if reset_rule(w, f) {
            Action::Reset
        } else if split_rule(w, f) {
            Action::Split
        } else {
            Action::Nothing
        },
        TimerPhase::NotRunning => if start_rule(w, f) {
            Action::Start
        } else {
            Action::Nothing
        },
        TimerPhase::Ended => Action::Nothing,
    }
}

/// The rules read nothing but the samples and the toggles: the same snapshot
/// gives the same answers however often it is evaluated.
pub proof fn lemma_rules_deterministic(
    phase: TimerPhase,
    w1: WatcherSet,
    w2: WatcherSet,
    f1: ConfigFlags,
    f2: ConfigFlags,
)
    requires
        w1 == w2,
        f1 == f2,
    ensures
        start_rule(w1, f1) == start_rule(w2, f2),
        split_rule(w1, f1) == split_rule(w2, f2),
        reset_rule(w1, f1) == reset_rule(w2, f2),
        decision(phase, w1, f1) == decision(phase, w2, f2),
{
}

/// A tick emits at most one command, and only one that the timer's phase allows:
/// start only when no run is live, split or reset only while one is, and reset
/// wins over split.
pub proof fn lemma_decision_gated(phase: TimerPhase, w: WatcherSet, f: ConfigFlags)
    ensures
        decision(phase, w, f) == Action::Start ==> phase == TimerPhase::NotRunning,
        (decision(phase, w, f) == Action::Split || decision(phase, w, f) == Action::Reset) ==> (
        phase == TimerPhase::Running || phase == TimerPhase::Paused),
        decision(phase, w, f) == Action::Split ==> !reset_rule(w, f),
{
}

/// Entering the act after `a` from `a` splits exactly when the toggle for `a` is
/// on, whatever came before.
pub proof fn lemma_split_on_next_act(w: WatcherSet, f: ConfigFlags, a: Act, b: Act)
    requires
        w.levelid.pair == Some(SamplePair { old: a, current: b }),
        act_index(b) == act_index(a) + 1,
        b != Act::Default,
    ensures
        split_rule(w, f) == f.split_after(a),
{
    lemma_act_positions(a, b);
}

/// Whether the run should be reset.
pub fn reset(watchers: &WatcherSet, settings: &ConfigFlags) -> (r: bool)
    ensures
        r == reset_rule(*watchers, *settings),
{
    match watchers.state.pair {
        None => false,
        Some(s) => settings.reset && s.old == 0 && (s.current == 4 || s.current == 5),
    }
}

/// Whether a run should start.
pub fn start(watchers: &WatcherSet, settings: &ConfigFlags) -> (r: bool)
    ensures
        r == start_rule(*watchers, *settings),
{
    let state = match watchers.state.pair {
        None => return false,
        Some(p) => p,
    };
    let startindicator = match watchers.startindicator.pair {
        None => return false,
        Some(p) => p,
    };
    let zoneselectongamecomplete = match watchers.zoneselectongamecomplete.pair {
        None => return false,
        Some(p) => p,
    };
    let started = startindicator.old != startindicator.current && startindicator.current == 1;
    let from_save = state.old == 5 && state.current == 7;
    let from_clean = state.current == 4 && started;
    let new_game_plus = state.current == 6 && started && zoneselectongamecomplete.current == 0;
    (settings.start_clean_save && (from_save || from_clean)) || (settings.start_new_game_plus
        && new_game_plus)
}

/// Whether the current act transition should split.
pub fn split(watchers: &WatcherSet, settings: &ConfigFlags) -> (r: bool)
    ensures
        r == split_rule(*watchers, *settings),
{
    let p = match watchers.levelid.pair {
        None => return false,
        Some(p) => p,
    };
    match p.current {
        Act::EmeraldHill1 => false,
        Act::EmeraldHill2 => settings.emerald_hill_1 && p.old == Act::EmeraldHill1,
        Act::ChemicalPlant1 => settings.emerald_hill_2 && p.old == Act::EmeraldHill2,
        Act::ChemicalPlant2 => settings.chemical_plant_1 && p.old == Act::ChemicalPlant1,
        Act::AquaticRuin1 => settings.chemical_plant_2 && p.old == Act::ChemicalPlant2,
        Act::AquaticRuin2 => settings.aquatic_ruin_1 && p.old == Act::AquaticRuin1,
        Act::CasinoNight1 => settings.aquatic_ruin_2 && p.old == Act::AquaticRuin2,
        Act::CasinoNight2 => settings.casino_night_1 && p.old == Act::CasinoNight1,
        Act::HillTop1 => settings.casino_night_2 && p.old == Act::CasinoNight2,
        Act::HillTop2 => settings.hill_top_1 && p.old == Act::HillTop1,
        Act::MysticCave1 => settings.hill_top_2 && p.old == Act::HillTop2,
        Act::MysticCave2 => settings.mystic_cave_1 && p.old == Act::MysticCave1,
        Act::OilOcean1 => settings.mystic_cave_2 && p.old == Act::MysticCave2,
        Act::OilOcean2 => settings.oil_ocean_1 && p.old == Act::OilOcean1,
        Act::Metropolis1 => settings.oil_ocean_2 && p.old == Act::OilOcean2,
        Act::Metropolis2 => settings.metropolis_1 && p.old == Act::Metropolis1,
        Act::Metropolis3 => settings.metropolis_2 && p.old == Act::Metropolis2,
        Act::SkyChase => settings.metropolis_3 && p.old == Act::Metropolis3,
        Act::WingFortress => settings.sky_chase && p.old == Act::SkyChase,
        Act::DeathEgg => settings.wing_fortress && p.old == Act::WingFortress,
        Act::Default => settings.death_egg && p.old != p.current,
    }
}

/// The command for the timer in `phase`, from the current samples.
pub fn decide(phase: TimerPhase, watchers: &WatcherSet, settings: &ConfigFlags) -> (r: Action)
    ensures
        r == decision(phase, *watchers, *settings),
{
    match phase {
        TimerPhase::Running | TimerPhase::Paused => if reset(watchers, settings) {
            Action::Reset
        } else if split(watchers, settings) {
            Action::Split
        } else {
            Action::Nothing
        },
        TimerPhase::NotRunning => if start(watchers, settings) {
            Action::Start
        } else {
            Action::Nothing
        },
        TimerPhase::Ended => Action::Nothing,
    }
}

/// One steady-state tick: feeds the reads into the fields, then decides. A tick
/// with a failed read emits nothing.
pub fn tick(
    watchers: &mut WatcherSet,
    sample: &RawSample,
    phase: TimerPhase,
    settings: &ConfigFlags,
) -> (r: Action)
    ensures
        *final(watchers) == old(watchers).next(*sample),
        r == (if sample.complete() {
            decision(phase, *final(watchers), *settings)
        } else {
            Action::Nothing
        }),
{
    if watchers.update(sample) {
        decide(phase, watchers, settings)
    } else {
        Action::Nothing
    }
}

} // verus!
