use sonic2_splitter::{
    decide, reset, split, start, tick, Act, Action, ConfigFlags, RawSample, SamplePair,
    SampledField, TimerPhase, WatcherSet, TAG_ZONES,
};

fn pair<T: Copy>(old: T, current: T) -> SampledField<T> {
    SampledField { pair: Some(SamplePair { old, current }) }
}

fn with_state(old: u8, current: u8) -> WatcherSet {
    let mut w = WatcherSet::new();
    w.state = pair(old, current);
    w.startindicator = pair(0, 0);
    w.zoneselectongamecomplete = pair(0, 0);
    w
}

fn with_level(old: Act, current: Act) -> WatcherSet {
    let mut w = WatcherSet::new();
    w.levelid = pair(old, current);
    w
}

#[test]
fn defaults_are_all_on() {
    let f = ConfigFlags::default();
    assert!(f.start_clean_save && f.start_new_game_plus && f.reset);
    assert!(f.emerald_hill_1 && f.metropolis_3 && f.sky_chase && f.death_egg);
}

#[test]
fn reset_exactly_on_zero_to_four_or_five() {
    let on = ConfigFlags::default();
    for old in 0..=255u8 {
        for current in 0..=255u8 {
            let expected = old == 0 && (current == 4 || current == 5);
            assert_eq!(reset(&with_state(old, current), &on), expected);
        }
    }
}

#[test]
fn reset_disabled_never_fires() {
    let mut off = ConfigFlags::default();
    off.reset = false;
    assert!(!reset(&with_state(0, 4), &off));
    assert!(!reset(&with_state(0, 5), &off));
}

#[test]
fn rules_need_samples() {
    let f = ConfigFlags::default();
    let w = WatcherSet::new();
    assert!(!reset(&w, &f));
    assert!(!start(&w, &f));
    assert!(!split(&w, &f));
}

#[test]
fn start_from_existing_save() {
    let mut f = ConfigFlags::default();
    assert!(start(&with_state(5, 7), &f));
    f.start_clean_save = false;
    assert!(!start(&with_state(5, 7), &f));
}

#[test]
fn start_from_fresh_game() {
    let f = ConfigFlags::default();
    let mut w = with_state(4, 4);
    w.startindicator = pair(0, 1);
    assert!(start(&w, &f));
    w.startindicator = pair(1, 1);
    assert!(!start(&w, &f));
    w.startindicator = pair(0, 2);
    assert!(!start(&w, &f));
}

#[test]
fn start_new_game_plus() {
    let mut f = ConfigFlags::default();
    let mut w = with_state(6, 6);
    w.startindicator = pair(0, 1);
    w.zoneselectongamecomplete = pair(0, 0);
    assert!(start(&w, &f));
    w.zoneselectongamecomplete = pair(0, 1);
    assert!(!start(&w, &f));
    w.zoneselectongamecomplete = pair(0, 0);
    f.start_new_game_plus = false;
    assert!(!start(&w, &f));
    f.start_new_game_plus = true;
    f.start_clean_save = false;
    assert!(start(&w, &f));
}

#[test]
fn split_first_act_boundary() {
    let mut f = ConfigFlags::default();
    let w = with_level(Act::EmeraldHill1, Act::EmeraldHill2);
    assert!(split(&w, &f));
    f.emerald_hill_1 = false;
    assert!(!split(&w, &f));
    let w = with_level(Act::EmeraldHill2, Act::ChemicalPlant1);
    assert!(split(&w, &f));
    f.emerald_hill_2 = false;
    assert!(!split(&w, &f));
}

#[test]
fn split_needs_the_previous_act() {
    let f = ConfigFlags::default();
    assert!(!split(&with_level(Act::EmeraldHill1, Act::ChemicalPlant1), &f));
    assert!(!split(&with_level(Act::ChemicalPlant1, Act::ChemicalPlant1), &f));
    assert!(!split(&with_level(Act::Default, Act::EmeraldHill2), &f));
    assert!(!split(&with_level(Act::DeathEgg, Act::EmeraldHill1), &f));
    assert!(split(&with_level(Act::SkyChase, Act::WingFortress), &f));
    assert!(split(&with_level(Act::WingFortress, Act::DeathEgg), &f));
}

#[test]
fn split_every_boundary_in_order() {
    let f = ConfigFlags::default();
    for b in 1..20u8 {
        let w = with_level(Act::from_level_byte(b - 1), Act::from_level_byte(b));
        assert!(split(&w, &f));
    }
}

#[test]
fn split_on_leaving_for_default() {
    let mut f = ConfigFlags::default();
    assert!(split(&with_level(Act::DeathEgg, Act::Default), &f));
    assert!(split(&with_level(Act::HillTop1, Act::Default), &f));
    assert!(!split(&with_level(Act::Default, Act::Default), &f));
    f.death_egg = false;
    assert!(!split(&with_level(Act::DeathEgg, Act::Default), &f));
}

#[test]
fn decide_follows_timer_phase() {
    let f = ConfigFlags::default();
    let w = with_state(5, 7);
    assert_eq!(decide(TimerPhase::NotRunning, &w, &f), Action::Start);
    assert_eq!(decide(TimerPhase::Running, &w, &f), Action::Nothing);
    assert_eq!(decide(TimerPhase::Ended, &w, &f), Action::Nothing);
    let mut w = with_state(0, 4);
    w.levelid = pair(Act::EmeraldHill1, Act::EmeraldHill2);
    assert_eq!(decide(TimerPhase::Running, &w, &f), Action::Reset);
    assert_eq!(decide(TimerPhase::Paused, &w, &f), Action::Reset);
    w.state = pair(0, 0);
    assert_eq!(decide(TimerPhase::Paused, &w, &f), Action::Split);
    assert_eq!(decide(TimerPhase::NotRunning, &w, &f), Action::Nothing);
}

#[test]
fn evaluation_is_repeatable() {
    let f = ConfigFlags::default();
    let mut w = with_state(5, 7);
    w.levelid = pair(Act::OilOcean2, Act::Metropolis1);
    let before = w;
    for _ in 0..3 {
        assert!(start(&w, &f));
        assert!(split(&w, &f));
        assert!(!reset(&w, &f));
        assert_eq!(decide(TimerPhase::Running, &w, &f), Action::Split);
    }
    assert_eq!(w, before);
}

fn zone_sample(state: u8, level: u8) -> RawSample {
    RawSample {
        state: Some(state),
        levelid: Some(level),
        startindicator: Some(0),
        zoneselectongamecomplete: Some(0),
        zoneindicator: Some(TAG_ZONES),
    }
}

#[test]
fn tick_splits_on_act_change() {
    let f = ConfigFlags::default();
    let mut w = WatcherSet::new();
    assert_eq!(tick(&mut w, &zone_sample(1, 0), TimerPhase::Running, &f), Action::Nothing);
    assert_eq!(tick(&mut w, &zone_sample(1, 1), TimerPhase::Running, &f), Action::Split);
    assert_eq!(tick(&mut w, &zone_sample(1, 1), TimerPhase::Running, &f), Action::Nothing);
}

#[test]
fn tick_with_failed_read_emits_nothing() {
    let f = ConfigFlags::default();
    let mut w = WatcherSet::new();
    tick(&mut w, &zone_sample(1, 0), TimerPhase::Running, &f);
    let mut s = zone_sample(1, 1);
    s.startindicator = None;
    assert_eq!(tick(&mut w, &s, TimerPhase::Running, &f), Action::Nothing);
    assert_eq!(w.levelid.pair, Some(SamplePair { old: Act::EmeraldHill1, current: Act::EmeraldHill2 }));
    assert_eq!(w.startindicator.pair, Some(SamplePair { old: 0, current: 0 }));
}
