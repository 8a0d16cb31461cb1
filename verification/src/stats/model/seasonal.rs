//! Module for seasonal stats.

use vstd::prelude::*;

verus! {

/// The rank of the player.
#[derive(Copy, Clone, Debug, PartialEq, Eq, PartialOrd, Ord, Hash)]
pub enum Rank {
    Unranked,
    CopperV,
    CopperIV,
    CopperIII,
    CopperII,
    CopperI,
    BronzeV,
    BronzeIV,
    BronzeIII,
    BronzeII,
    BronzeI,
    SilverV,
    SilverIV,
    SilverIII,
    SilverII,
    SilverI,
    GoldIII,
    GoldII,
    GoldI,
    PlatinumIII,
    PlatinumII,
    PlatinumI,
    Diamond,
    Champions,
}

impl Rank {
    /// Returns true if the rank is unranked.
    pub fn is_unranked(self) -> (r: bool)
        ensures
            r == (self is Unranked),
    {
        matches!(self, Rank::Unranked)
    }

    /// Returns true if the rank is copper.
    pub fn is_copper(self) -> (r: bool)
        ensures
            r == (self is CopperI || self is CopperII || self is CopperIII || self is CopperIV
                || self is CopperV),
    {
        matches!(self, Rank::CopperI | Rank::CopperII | Rank::CopperIII | Rank::CopperIV | Rank::CopperV)
    }

    /// Returns true if the rank is bronze.
    pub fn is_bronze(self) -> (r: bool)
        ensures
            r == (self is BronzeI || self is BronzeII || self is BronzeIII || self is BronzeIV
                || self is BronzeV),
    {
        matches!(self, Rank::BronzeI | Rank::BronzeII | Rank::BronzeIII | Rank::BronzeIV | Rank::BronzeV)
    }

    /// Returns true if the rank is silver.
    pub fn is_silver(self) -> (r: bool)
        ensures
            r == (self is SilverI || self is SilverII || self is SilverIII || self is SilverIV
                || self is SilverV),
    {
        matches!(self, Rank::SilverI | Rank::SilverII | Rank::SilverIII | Rank::SilverIV | Rank::SilverV)
    }

    /// Returns true if the rank is gold.
    pub fn is_gold(self) -> (r: bool)
        ensures
            r == (self is GoldI || self is GoldII || self is GoldIII),
    {
        matches!(self, Rank::GoldI | Rank::GoldII | Rank::GoldIII)
    }

    /// Returns true if the rank is platinum.
    pub fn is_platinum(self) -> (r: bool)
        ensures
            r == (self is PlatinumI || self is PlatinumII || self is PlatinumIII),
    {
        matches!(self, Rank::PlatinumI | Rank::PlatinumII | Rank::PlatinumIII)
    }

    /// Returns true if the rank is diamond.
    pub fn is_diamond(self) -> (r: bool)
        ensures
            r == (self is Diamond),
    {
        matches!(self, Rank::Diamond)
    }

    /// Returns true if the rank is champion.
    pub fn is_champion(self) -> (r: bool)
        ensures
            r == (self is Champions),
    {
        matches!(self, Rank::Champions)
    }

    /// The display name of each rank.
    pub open spec fn name_spec(self) -> Seq<char> {
        match self {
            Rank::Unranked => "Unranked"@,
            Rank::CopperV => "Copper V"@,
            Rank::CopperIV => "Copper IV"@,
            Rank::CopperIII => "Copper III"@,
            Rank::CopperII => "Copper II"@,
            Rank::CopperI => "Copper I"@,
            Rank::BronzeV => "Bronze V"@,
            Rank::BronzeIV => "Bronze IV"@,
            Rank::BronzeIII => "Bronze III"@,
            Rank::BronzeII => "Bronze II"@,
            Rank::BronzeI => "Bronze I"@,
            Rank::SilverV => "Silver V"@,
            Rank::SilverIV => "Silver IV"@,
            Rank::SilverIII => "Silver III"@,
            Rank::SilverII => "Silver II"@,
            Rank::SilverI => "Silver I"@,
            Rank::GoldIII => "Gold III"@,
            Rank::GoldII => "Gold II"@,
            Rank::GoldI => "Gold I"@,
            Rank::PlatinumIII => "Platinum III"@,
            Rank::PlatinumII => "Platinum II"@,
            Rank::PlatinumI => "Platinum I"@,
            Rank::Diamond => "Platinum"@,
            Rank::Champions => "Champions"@,
        }
    }

    /// Returns the display name of the rank, exactly as the api client has
    /// always rendered it.
    pub fn name(self) -> (r: &'static str)
        ensures
            r@ == self.name_spec(),
    {
        match self {
            Rank::Unranked => "Unranked",
            Rank::CopperV => "Copper V",
            Rank::CopperIV => "Copper IV",
            Rank::CopperIII => "Copper III",
            Rank::CopperII => "Copper II",
            Rank::CopperI => "Copper I",
            Rank::BronzeV => "Bronze V",
            Rank::BronzeIV => "Bronze IV",
            Rank::BronzeIII => "Bronze III",
            Rank::BronzeII => "Bronze II",
            Rank::BronzeI => "Bronze I",
            Rank::SilverV => "Silver V",
            Rank::SilverIV => "Silver IV",
            Rank::SilverIII => "Silver III",
            Rank::SilverII => "Silver II",
            Rank::SilverI => "Silver I",
            Rank::GoldIII => "Gold III",
            Rank::GoldII => "Gold II",
            Rank::GoldI => "Gold I",
            Rank::PlatinumIII => "Platinum III",
            Rank::PlatinumII => "Platinum II",
            Rank::PlatinumI => "Platinum I",
            Rank::Diamond => "Platinum",
            Rank::Champions => "Champions",
        }
    }
}

/// All seasons available in the api.
#[derive(Copy, Clone, Debug, PartialEq, Eq, PartialOrd, Ord, Hash)]
#[non_exhaustive]
pub enum Season {
    Health,
    BloodOrchid,
    WhiteNoise,
    Chimera,
    ParaBellum,
    GrimSky,
    WindBastion,
    BurntHorizon,
    PhantomSight,
    EmberRise,
    ShiftingTides,
    VoidEdge,
    SteelWave,
    ShadowLegacy,
    /// For new seasons not yet implemented in this client.
    Unknown,
}

impl Season {
    /// Returns the newest season this client knows.
    pub fn current_season() -> (r: Self)
        ensures
            r is ShadowLegacy,
    {
        Season::ShadowLegacy
    }

    /// The numeric id the api uses for each season.
    pub open spec fn id_spec(self) -> u8 {
        match self {
            Season::Health => 6,
            Season::BloodOrchid => 7,
            Season::WhiteNoise => 8,
            Season::Chimera => 9,
            Season::ParaBellum => 10,
            Season::GrimSky => 11,
            Season::WindBastion => 12,
            Season::BurntHorizon => 13,
            Season::PhantomSight => 14,
            Season::EmberRise => 15,
            Season::ShiftingTides => 16,
            Season::VoidEdge => 17,
            Season::SteelWave => 18,
            Season::ShadowLegacy => 19,
            Season::Unknown => 20,
        }
    }

    /// Returns the numeric id the api uses for the season.
    pub fn id(self) -> (r: u8)
        ensures
            r == self.id_spec(),
    {
        match self {
            Season::Health => 6,
            Season::BloodOrchid => 7,
            Season::WhiteNoise => 8,
            Season::Chimera => 9,
            Season::ParaBellum => 10,
            Season::GrimSky => 11,
            Season::WindBastion => 12,
            Season::BurntHorizon => 13,
            Season::PhantomSight => 14,
            Season::EmberRise => 15,
            Season::ShiftingTides => 16,
            Season::VoidEdge => 17,
            Season::SteelWave => 18,
            Season::ShadowLegacy => 19,
            Season::Unknown => 20,
        }
    }

    /// What [`Season::from_id`] returns for each id.
    pub open spec fn from_id_spec(id: u8) -> Option<Season> {
        if id == 6 {
            Some(Season::Health)
        } else if id == 7 {
            Some(Season::BloodOrchid)
        } else if id == 8 {
            Some(Season::WhiteNoise)
        } else if id == 9 {
            Some(Season::Chimera)
        } else if id == 10 {
            Some(Season::ParaBellum)
        } else if id == 11 {
            Some(Season::GrimSky)
        } else if id == 12 {
            Some(Season::WindBastion)
        } else if id == 13 {
            Some(Season::BurntHorizon)
        } else if id == 14 {
            Some(Season::PhantomSight)
        } else if id == 15 {
            Some(Season::EmberRise)
        } else if id == 16 {
            Some(Season::ShiftingTides)
        } else if id == 17 {
            Some(Season::VoidEdge)
        } else if id == 18 {
            Some(Season::SteelWave)
        } else if id == 19 {
            Some(Season::ShadowLegacy)
        } else if id == 20 {
            Some(Season::Unknown)
        } else {
            None
        }
    }

    /// The season for a numeric id of the api, or `None` where the api
    /// documents no season for the id.
    pub fn from_id(id: u8) -> (r: Option<Season>)
        ensures
            r == Self::from_id_spec(id),
            r matches Some(season) ==> season.id_spec() == id,
    {
        match id {
            6 => Some(Season::Health),
            7 => Some(Season::BloodOrchid),
            8 => Some(Season::WhiteNoise),
            9 => Some(Season::Chimera),
            10 => Some(Season::ParaBellum),
            11 => Some(Season::GrimSky),
            12 => Some(Season::WindBastion),
            13 => Some(Season::BurntHorizon),
            14 => Some(Season::PhantomSight),
            15 => Some(Season::EmberRise),
            16 => Some(Season::ShiftingTides),
            17 => Some(Season::VoidEdge),
            18 => Some(Season::SteelWave),
            19 => Some(Season::ShadowLegacy),
            20 => Some(Season::Unknown),
            _ => None,
        }
    }

    /// The display name of each season.
    pub open spec fn name_spec(self) -> Seq<char> {
        match self {
            Season::Health => "Health"@,
            Season::BloodOrchid => "Blood Orchid"@,
            Season::WhiteNoise => "White Noise"@,
            Season::Chimera => "Chimera"@,
            Season::ParaBellum => "Para Bellum"@,
            Season::GrimSky => "Grim Sky"@,
            Season::WindBastion => "Wind Bastion"@,
            Season::BurntHorizon => "Burnt Horizon"@,
            Season::PhantomSight => "Phantom Sight"@,
            Season::EmberRise => "Ember Rise"@,
            Season::ShiftingTides => "Shifting Tides"@,
            Season::VoidEdge => "Void Edge"@,
            Season::SteelWave => "Steel Wave"@,
            Season::ShadowLegacy => "Shadow Legacy"@,
            Season::Unknown => "Unknown"@,
        }
    }

    /// Returns the display name of the season.
    pub fn name(self) -> (r: &'static str)
        ensures
            r@ == self.name_spec(),
    {
        match self {
            Season::Health => "Health",
            Season::BloodOrchid => "Blood Orchid",
            Season::WhiteNoise => "White Noise",
            Season::Chimera => "Chimera",
            Season::ParaBellum => "Para Bellum",
            Season::GrimSky => "Grim Sky",
            Season::WindBastion => "Wind Bastion",
            Season::BurntHorizon => "Burnt Horizon",
            Season::PhantomSight => "Phantom Sight",
            Season::EmberRise => "Ember Rise",
            Season::ShiftingTides => "Shifting Tides",
            Season::VoidEdge => "Void Edge",
            Season::SteelWave => "Steel Wave",
            Season::ShadowLegacy => "Shadow Legacy",
            Season::Unknown => "Unknown",
        }
    }
}

/// The match result.
#[derive(Copy, Clone, Debug, PartialEq, Eq, Hash)]
pub enum MatchResult {
    NotAvailable,
    Win,
    Loss,
    Abandoned,
}

impl MatchResult {
    /// The display name of each match result.
    pub open spec fn name_spec(self) -> Seq<char> {
        match self {
            MatchResult::NotAvailable => "Not Available"@,
            MatchResult::Win => "Win"@,
            MatchResult::Loss => "Loss"@,
            MatchResult::Abandoned => "Abandoned"@,
        }
    }

    /// Returns the display name of the match result.
    pub fn name(self) -> (r: &'static str)
        ensures
            r@ == self.name_spec(),
    {
        match self {
            MatchResult::NotAvailable => "Not Available",
            MatchResult::Win => "Win",
            MatchResult::Loss => "Loss",
            MatchResult::Abandoned => "Abandoned",
        }
    }
}

} // verus!
