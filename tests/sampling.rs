use sonic2_splitter::{
    Act, RawSample, SamplePair, SampledField, WatcherSet, ZoneContext, ACT_COUNT, TAG_ENDING,
    TAG_MAIN_MENU, TAG_SAVE_SELECT, TAG_ZONES,
};

#[test]
fn first_update_fills_both_slots() {
    let mut f: SampledField<u8> = SampledField::new();
    assert_eq!(f.pair, None);
    assert!(!f.changed());
    let p = f.update(7);
    assert_eq!(p, SamplePair { old: 7, current: 7 });
    assert_eq!(f.pair, Some(SamplePair { old: 7, current: 7 }));
    assert!(!f.changed());
}

#[test]
fn later_updates_shift_the_pair() {
    let mut f: SampledField<u8> = SampledField::new();
    f.update(1);
    f.update(2);
    assert_eq!(f.pair, Some(SamplePair { old: 1, current: 2 }));
    assert!(f.changed());
    f.update(2);
    assert_eq!(f.pair, Some(SamplePair { old: 2, current: 2 }));
    assert!(!f.changed());
}

#[test]
fn failed_read_keeps_changed() {
    let mut f: SampledField<u8> = SampledField::new();
    f.update(3);
    f.update(4);
    f.update_opt(None);
    assert!(f.changed());
    assert_eq!(f.pair, Some(SamplePair { old: 3, current: 4 }));
    f.update_opt(Some(4));
    assert!(!f.changed());
    f.update_opt(None);
    assert!(!f.changed());
}

#[test]
fn changed_on_acts_and_zones() {
    let mut a: SampledField<Act> = SampledField::new();
    a.update(Act::HillTop1);
    a.update(Act::HillTop2);
    assert!(a.changed());
    let mut z: SampledField<ZoneContext> = SampledField::new();
    z.update(ZoneContext::Zones);
    z.update(ZoneContext::Zones);
    assert!(!z.changed());
}

#[test]
fn zone_tags_decode() {
    assert_eq!(ZoneContext::from_tag(TAG_MAIN_MENU), ZoneContext::MainMenu);
    assert_eq!(ZoneContext::from_tag(TAG_ZONES), ZoneContext::Zones);
    assert_eq!(ZoneContext::from_tag(TAG_ENDING), ZoneContext::Ending);
    assert_eq!(ZoneContext::from_tag(TAG_SAVE_SELECT), ZoneContext::SaveSelect);
    assert_eq!(ZoneContext::from_tag(0), ZoneContext::Default);
    assert_eq!(ZoneContext::from_tag(0x6E69614E), ZoneContext::Default);
    assert_eq!(ZoneContext::from_tag(u32::MAX), ZoneContext::Default);
}

#[test]
fn zone_tags_are_ascii_words() {
    assert_eq!(TAG_MAIN_MENU, u32::from_le_bytes(*b"Main"));
    assert_eq!(TAG_ZONES, u32::from_le_bytes(*b"Zone"));
    assert_eq!(TAG_ENDING, u32::from_le_bytes(*b"Endi"));
    assert_eq!(TAG_SAVE_SELECT, u32::from_le_bytes(*b"Save"));
}

#[test]
fn level_bytes_decode_in_order() {
    assert_eq!(Act::from_level_byte(0), Act::EmeraldHill1);
    assert_eq!(Act::from_level_byte(1), Act::EmeraldHill2);
    assert_eq!(Act::from_level_byte(2), Act::ChemicalPlant1);
    assert_eq!(Act::from_level_byte(16), Act::Metropolis3);
    assert_eq!(Act::from_level_byte(17), Act::SkyChase);
    assert_eq!(Act::from_level_byte(18), Act::WingFortress);
    assert_eq!(Act::from_level_byte(19), Act::DeathEgg);
    assert_eq!(Act::from_level_byte(20), Act::Default);
    assert_eq!(Act::from_level_byte(255), Act::Default);
    for b in 0..ACT_COUNT {
        assert_eq!(Act::from_level_byte(b).index(), b);
    }
    assert_eq!(Act::Default.index(), 20);
}

fn sample(state: u8, level: u8, start: u8, select: u8, zone: u32) -> RawSample {
    RawSample {
        state: Some(state),
        levelid: Some(level),
        startindicator: Some(start),
        zoneselectongamecomplete: Some(select),
        zoneindicator: Some(zone),
    }
}

#[test]
fn first_tick_samples_every_field() {
    let mut w = WatcherSet::new();
    assert!(w.update(&sample(4, 3, 1, 0, TAG_ZONES)));
    assert_eq!(w.state.pair, Some(SamplePair { old: 4, current: 4 }));
    assert_eq!(w.startindicator.pair, Some(SamplePair { old: 1, current: 1 }));
    assert_eq!(w.zoneselectongamecomplete.pair, Some(SamplePair { old: 0, current: 0 }));
    assert_eq!(
        w.zoneindicator.pair,
        Some(SamplePair { old: ZoneContext::Zones, current: ZoneContext::Zones })
    );
    assert_eq!(
        w.levelid.pair,
        Some(SamplePair { old: Act::ChemicalPlant2, current: Act::ChemicalPlant2 })
    );
}

#[test]
fn main_menu_keeps_act() {
    let mut w = WatcherSet::new();
    w.update(&sample(0, 4, 0, 0, TAG_ZONES));
    w.update(&sample(0, 5, 0, 0, TAG_ZONES));
    assert!(w.update(&sample(0, 12, 0, 0, TAG_MAIN_MENU)));
    assert_eq!(
        w.levelid.pair,
        Some(SamplePair { old: Act::AquaticRuin2, current: Act::AquaticRuin2 })
    );
    assert!(w.update(&sample(0, 200, 0, 0, TAG_SAVE_SELECT)));
    assert_eq!(w.levelid.pair.unwrap().current, Act::AquaticRuin2);
    assert!(w.update(&sample(0, 1, 0, 0, 0x1234_5678)));
    assert_eq!(w.levelid.pair.unwrap().current, Act::AquaticRuin2);
}

#[test]
fn menu_before_any_level_gives_default() {
    let mut w = WatcherSet::new();
    assert!(w.update(&sample(0, 7, 0, 0, TAG_MAIN_MENU)));
    assert_eq!(w.levelid.pair, Some(SamplePair { old: Act::Default, current: Act::Default }));
}

#[test]
fn ending_forces_default() {
    let mut w = WatcherSet::new();
    w.update(&sample(0, 19, 0, 0, TAG_ZONES));
    assert!(w.update(&sample(0, 19, 0, 0, TAG_ENDING)));
    assert_eq!(w.levelid.pair, Some(SamplePair { old: Act::DeathEgg, current: Act::Default }));
}

#[test]
fn unknown_level_byte_is_default() {
    let mut w = WatcherSet::new();
    assert!(w.update(&sample(0, 42, 0, 0, TAG_ZONES)));
    assert_eq!(w.levelid.pair.unwrap().current, Act::Default);
}

#[test]
fn failed_read_skips_tick_and_keeps_field() {
    let mut w = WatcherSet::new();
    w.update(&sample(5, 0, 0, 0, TAG_ZONES));
    let mut s = sample(7, 1, 0, 0, TAG_ZONES);
    s.state = None;
    assert!(!w.update(&s));
    assert_eq!(w.state.pair, Some(SamplePair { old: 5, current: 5 }));
    assert_eq!(
        w.levelid.pair,
        Some(SamplePair { old: Act::EmeraldHill1, current: Act::EmeraldHill2 })
    );
}

#[test]
fn failed_level_read_matters_only_in_levels() {
    let mut w = WatcherSet::new();
    w.update(&sample(0, 2, 0, 0, TAG_ZONES));
    let mut s = sample(0, 0, 0, 0, TAG_ZONES);
    s.levelid = None;
    assert!(!w.update(&s));
    assert_eq!(
        w.levelid.pair,
        Some(SamplePair { old: Act::ChemicalPlant1, current: Act::ChemicalPlant1 })
    );
    let mut s = sample(0, 0, 0, 0, TAG_MAIN_MENU);
    s.levelid = None;
    assert!(w.update(&s));
}

#[test]
fn failed_zone_read_keeps_zone_and_act() {
    let mut w = WatcherSet::new();
    w.update(&sample(0, 2, 0, 0, TAG_ZONES));
    w.update(&sample(0, 3, 0, 0, TAG_ZONES));
    let mut s = sample(0, 4, 0, 0, TAG_ZONES);
    s.zoneindicator = None;
    assert!(!w.update(&s));
    assert_eq!(
        w.levelid.pair,
        Some(SamplePair { old: Act::ChemicalPlant1, current: Act::ChemicalPlant2 })
    );
    assert_eq!(
        w.zoneindicator.pair,
        Some(SamplePair { old: ZoneContext::Zones, current: ZoneContext::Zones })
    );
}
