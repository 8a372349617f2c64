use crate::decode::Act;
use vstd::prelude::*;

verus! {

/// The user's toggles: how runs start, whether they reset, and which act
/// boundaries split. Each field is named for the act whose end it splits on.
#[derive(Clone, Copy, Debug, PartialEq, Eq)]
pub struct ConfigFlags {
    /// Start when a new game begins on a clean or existing save.
    pub start_clean_save: bool,
    /// Start when a New Game+ run begins.
    pub start_new_game_plus: bool,
    /// Reset when the game returns to its title flow.
    pub reset: bool,
    /// Split on leaving EmeraldHill1.
    pub emerald_hill_1: bool,
    /// Split on leaving EmeraldHill2.
    pub emerald_hill_2: bool,
    /// Split on leaving ChemicalPlant1.
    pub chemical_plant_1: bool,
    /// Split on leaving ChemicalPlant2.
    pub chemical_plant_2: bool,
    /// Split on leaving AquaticRuin1.
    pub aquatic_ruin_1: bool,
    /// Split on leaving AquaticRuin2.
    pub aquatic_ruin_2: bool,
    /// Split on leaving CasinoNight1.
    pub casino_night_1: bool,
    /// Split on leaving CasinoNight2.
    pub casino_night_2: bool,
    /// Split on leaving HillTop1.
    pub hill_top_1: bool,
    /// Split on leaving HillTop2.
    pub hill_top_2: bool,
    /// Split on leaving MysticCave1.
    pub mystic_cave_1: bool,
    /// Split on leaving MysticCave2.
    pub mystic_cave_2: bool,
    /// Split on leaving OilOcean1.
    pub oil_ocean_1: bool,
    /// Split on leaving OilOcean2.
    pub oil_ocean_2: bool,
    /// Split on leaving Metropolis1.
    pub metropolis_1: bool,
    /// Split on leaving Metropolis2.
    pub metropolis_2: bool,
    /// Split on leaving Metropolis3.
    pub metropolis_3: bool,
    /// Split on leaving SkyChase.
    pub sky_chase: bool,
    /// Split on leaving WingFortress.
    pub wing_fortress: bool,
    /// Split on leaving DeathEgg.
    pub death_egg: bool,
}

impl ConfigFlags {
    /// Whether leaving act `a` splits.
    pub open spec fn split_after(self, a: Act) -> bool {
        match a {
            Act::EmeraldHill1 => self.emerald_hill_1,
            Act::EmeraldHill2 => self.emerald_hill_2,
            Act::ChemicalPlant1 => self.chemical_plant_1,
            Act::ChemicalPlant2 => self.chemical_plant_2,
            Act::AquaticRuin1 => self.aquatic_ruin_1,
            Act::AquaticRuin2 => self.aquatic_ruin_2,
            Act::CasinoNight1 => self.casino_night_1,
            Act::CasinoNight2 => self.casino_night_2,
            Act::HillTop1 => self.hill_top_1,
            Act::HillTop2 => self.hill_top_2,
            Act::MysticCave1 => self.mystic_cave_1,
            Act::MysticCave2 => self.mystic_cave_2,
            Act::OilOcean1 => self.oil_ocean_1,
            Act::OilOcean2 => self.oil_ocean_2,
            Act::Metropolis1 => self.metropolis_1,
            Act::Metropolis2 => self.metropolis_2,
            Act::Metropolis3 => self.metropolis_3,
            Act::SkyChase => self.sky_chase,
            Act::WingFortress => self.wing_fortress,
            Act::DeathEgg => self.death_egg,
            Act::Default => false,
        }
    }

    /// Every toggle on.
    pub open spec fn all_on(self) -> bool {
        self.start_clean_save
        && self.start_new_game_plus
        && self.reset
        && self.emerald_hill_1
        && self.emerald_hill_2
        && self.chemical_plant_1
        && self.chemical_plant_2
        && self.aquatic_ruin_1
        && self.aquatic_ruin_2
        && self.casino_night_1
        && self.casino_night_2
        && self.hill_top_1
        && self.hill_top_2
        && self.mystic_cave_1
        && self.mystic_cave_2
        && self.oil_ocean_1
        && self.oil_ocean_2
        && self.metropolis_1
        && self.metropolis_2
        && self.metropolis_3
        && self.sky_chase
        && self.wing_fortress
        && self.death_egg
    }
}

impl Default for ConfigFlags {
    /// Every toggle starts on.
    fn default() -> (r: ConfigFlags)
        ensures
            r.all_on(),
    {
        ConfigFlags {
            start_clean_save: true,
            start_new_game_plus: true,
            reset: true,
            emerald_hill_1: true,
            emerald_hill_2: true,
            chemical_plant_1: true,
            chemical_plant_2: true,
            aquatic_ruin_1: true,
            aquatic_ruin_2: true,
            casino_night_1: true,
            casino_night_2: true,
            hill_top_1: true,
            hill_top_2: true,
            mystic_cave_1: true,
            mystic_cave_2: true,
            oil_ocean_1: true,
            oil_ocean_2: true,
            metropolis_1: true,
            metropolis_2: true,
            metropolis_3: true,
            sky_chase: true,
            wing_fortress: true,
            death_egg: true,
        }
    }
}

} // verus!
