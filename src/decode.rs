use vstd::prelude::*;

verus! {

/// Tag of the main menu scene: the ASCII text "Main" read as a little-endian `u32`.
pub const TAG_MAIN_MENU: u32 = 0x6E69614D;

/// Tag of the in-level scenes: "Zone".
pub const TAG_ZONES: u32 = 0x656E6F5A;

/// Tag of the ending scene: "Endi".
pub const TAG_ENDING: u32 = 0x69646E45;

/// Tag of the save-select scene: "Save".
pub const TAG_SAVE_SELECT: u32 = 0x65766153;

/// Number of named acts; level bytes below it name an act.
pub const ACT_COUNT: u8 = 20;

/// Which part of the game is on screen.
#[derive(Clone, Copy, Debug, PartialEq, Eq, Structural)]
pub enum ZoneContext {
    MainMenu,
    Zones,
    Ending,
    SaveSelect,
    Default,
}

/// A stage of the game, in the order a run visits them, then `Default`.
#[derive(Clone, Copy, Debug, PartialEq, Eq, Structural)]
pub enum Act {
    EmeraldHill1,
    EmeraldHill2,
    ChemicalPlant1,
    ChemicalPlant2,
    AquaticRuin1,
    AquaticRuin2,
    CasinoNight1,
    CasinoNight2,
    HillTop1,
    HillTop2,
    MysticCave1,
    MysticCave2,
    OilOcean1,
    OilOcean2,
    Metropolis1,
    Metropolis2,
    Metropolis3,
    SkyChase,
    WingFortress,
    DeathEgg,
    Default,
}

/// The scene a raw zone tag names.
pub open spec fn zone_of_tag(t: u32) -> ZoneContext {
    if t == TAG_MAIN_MENU {
        ZoneContext::MainMenu
    } else if t == TAG_ZONES {
        ZoneContext::Zones
    } else if t == TAG_ENDING {
        ZoneContext::Ending
    } else if t == TAG_SAVE_SELECT {
        ZoneContext::SaveSelect
    } else {
        ZoneContext::Default
    }
}

/// Position of an act in the run's order; `Default` comes last, at 20.
pub open spec fn act_index(a: Act) -> nat {
    match a {
        Act::EmeraldHill1 => 0,
        Act::EmeraldHill2 => 1,
        Act::ChemicalPlant1 => 2,
        Act::ChemicalPlant2 => 3,
        Act::AquaticRuin1 => 4,
        Act::AquaticRuin2 => 5,
        Act::CasinoNight1 => 6,
        Act::CasinoNight2 => 7,
        Act::HillTop1 => 8,
        Act::HillTop2 => 9,
        Act::MysticCave1 => 10,
        Act::MysticCave2 => 11,
        Act::OilOcean1 => 12,
        Act::OilOcean2 => 13,
        Act::Metropolis1 => 14,
        Act::Metropolis2 => 15,
        Act::Metropolis3 => 16,
        Act::SkyChase => 17,
        Act::WingFortress => 18,
        Act::DeathEgg => 19,
        Act::Default => 20,
    }
}

/// The act at position `i` of the run's order; `Default` past the last act.
pub open spec fn act_at(i: nat) -> Act {
    if i == 0 {
        Act::EmeraldHill1
    } else if i == 1 {
        Act::EmeraldHill2
    } else if i == 2 {
        Act::ChemicalPlant1
    } else if i == 3 {
        Act::ChemicalPlant2
    } else if i == 4 {
        Act::AquaticRuin1
    } else if i == 5 {
        Act::AquaticRuin2
    } else if i == 6 {
        Act::CasinoNight1
    } else if i == 7 {
        Act::CasinoNight2
    } else if i == 8 {
        Act::HillTop1
    } else if i == 9 {
        Act::HillTop2
    } else if i == 10 {
        Act::MysticCave1
    } else if i == 11 {
        Act::MysticCave2
    } else if i == 12 {
        Act::OilOcean1
    } else if i == 13 {
        Act::OilOcean2
    } else if i == 14 {
        Act::Metropolis1
    } else if i == 15 {
        Act::Metropolis2
    } else if i == 16 {
        Act::Metropolis3
    } else if i == 17 {
        Act::SkyChase
    } else if i == 18 {
        Act::WingFortress
    } else if i == 19 {
        Act::DeathEgg
    } else {
        Act::Default
    }
}

/// The act a raw level byte names: bytes below 20 name the act at that position.
pub open spec fn act_of_byte(b: u8) -> Act {
    act_at(b as nat)
}

/// Positions and acts correspond one to one: distinct acts have distinct
/// positions, and the act at an act's position is that act.
pub proof fn lemma_act_positions(a: Act, b: Act)
    ensures
        act_index(a) == act_index(b) <==> a == b,
        act_at(act_index(a)) == a,
{
}

impl ZoneContext {
    /// Decodes a raw zone tag; any value but the four known tags is `Default`.
    pub fn from_tag(t: u32) -> (r: ZoneContext)
        ensures
            r == zone_of_tag(t),
    {
        if t == TAG_MAIN_MENU {
            ZoneContext::MainMenu
        } else if t == TAG_ZONES {
            ZoneContext::Zones
        } else if t == TAG_ENDING {
            ZoneContext::Ending
        } else if t == TAG_SAVE_SELECT {
            ZoneContext::SaveSelect
        } else {
            ZoneContext::Default
        }
    }
}

impl Act {
    /// Decodes a raw level byte: 0 to 19 are the acts in order, anything else is `Default`.
    pub fn from_level_byte(b: u8) -> (r: Act)
        ensures
            r == act_of_byte(b),
            b < ACT_COUNT ==> act_index(r) == b as nat,
            b >= ACT_COUNT ==> r == Act::Default,
    {
        let r = match b {
            0 => Act::EmeraldHill1,
            1 => Act::EmeraldHill2,
            2 => Act::ChemicalPlant1,
            3 => Act::ChemicalPlant2,
            4 => Act::AquaticRuin1,
            5 => Act::AquaticRuin2,
            6 => Act::CasinoNight1,
            7 => Act::CasinoNight2,
            8 => Act::HillTop1,
            9 => Act::HillTop2,
            10 => Act::MysticCave1,
            11 => Act::MysticCave2,
            12 => Act::OilOcean1,
            13 => Act::OilOcean2,
            14 => Act::Metropolis1,
            15 => Act::Metropolis2,
            16 => Act::Metropolis3,
            17 => Act::SkyChase,
            18 => Act::WingFortress,
            19 => Act::DeathEgg,
            _ => Act::Default,
        };
        r
    }

    /// Position of this act in the run's order; `Default` is 20.
    pub fn index(&self) -> (r: u8)
        ensures
            r as nat == act_index(*self),
    {
        match self {
            Act::EmeraldHill1 => 0,
            Act::EmeraldHill2 => 1,
            Act::ChemicalPlant1 => 2,
            Act::ChemicalPlant2 => 3,
            Act::AquaticRuin1 => 4,
            Act::AquaticRuin2 => 5,
            Act::CasinoNight1 => 6,
            Act::CasinoNight2 => 7,
            Act::HillTop1 => 8,
            Act::HillTop2 => 9,
            Act::MysticCave1 => 10,
            Act::MysticCave2 => 11,
            Act::OilOcean1 => 12,
            Act::OilOcean2 => 13,
            Act::Metropolis1 => 14,
            Act::Metropolis2 => 15,
            Act::Metropolis3 => 16,
            Act::SkyChase => 17,
            Act::WingFortress => 18,
            Act::DeathEgg => 19,
            Act::Default => 20,
        }
    }
}

} // verus!
