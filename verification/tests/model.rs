use r6stats_client::stats::model::{MatchResult, QueueMode, Rank, Season};

#[test]
fn test_rank_predicates() {
    assert!(Rank::Unranked.is_unranked());
    assert!(!Rank::CopperV.is_unranked());

    for rank in [Rank::CopperI, Rank::CopperII, Rank::CopperIII, Rank::CopperIV, Rank::CopperV] {
        assert!(rank.is_copper());
        assert!(!rank.is_bronze());
    }
    for rank in [Rank::BronzeI, Rank::BronzeII, Rank::BronzeIII, Rank::BronzeIV, Rank::BronzeV] {
        assert!(rank.is_bronze());
        assert!(!rank.is_silver());
    }
    for rank in [Rank::SilverI, Rank::SilverII, Rank::SilverIII, Rank::SilverIV, Rank::SilverV] {
        assert!(rank.is_silver());
        assert!(!rank.is_gold());
    }
    for rank in [Rank::GoldI, Rank::GoldII, Rank::GoldIII] {
        assert!(rank.is_gold());
        assert!(!rank.is_platinum());
    }
    for rank in [Rank::PlatinumI, Rank::PlatinumII, Rank::PlatinumIII] {
        assert!(rank.is_platinum());
        assert!(!rank.is_diamond());
    }
    assert!(Rank::Diamond.is_diamond());
    assert!(!Rank::Diamond.is_champion());
    assert!(Rank::Champions.is_champion());
    assert!(!Rank::Champions.is_copper());
}

#[test]
fn test_rank_order() {
    assert!(Rank::Unranked < Rank::CopperV);
    assert!(Rank::CopperI < Rank::BronzeV);
    assert!(Rank::Diamond < Rank::Champions);
}

#[test]
fn test_rank_names() {
    assert_eq!(Rank::Unranked.name(), "Unranked");
    assert_eq!(Rank::CopperIV.name(), "Copper IV");
    assert_eq!(Rank::GoldII.name(), "Gold II");
    assert_eq!(Rank::Champions.name(), "Champions");
}

#[test]
fn test_current_season() {
    assert_eq!(Season::current_season(), Season::ShadowLegacy);
}

#[test]
fn test_season_ids_round_trip() {
    let seasons = [
        Season::Health,
        Season::BloodOrchid,
        Season::WhiteNoise,
        Season::Chimera,
        Season::ParaBellum,
        Season::GrimSky,
        Season::WindBastion,
        Season::BurntHorizon,
        Season::PhantomSight,
        Season::EmberRise,
        Season::ShiftingTides,
        Season::VoidEdge,
        Season::SteelWave,
        Season::ShadowLegacy,
        Season::Unknown,
    ];
    for (offset, season) in seasons.iter().enumerate() {
        let id = 6 + offset as u8;
        assert_eq!(season.id(), id);
        assert_eq!(Season::from_id(id), Some(*season));
    }
    assert_eq!(Season::from_id(0), None);
    assert_eq!(Season::from_id(5), None);
    assert_eq!(Season::from_id(21), None);
}

#[test]
fn test_season_names() {
    assert_eq!(Season::Health.name(), "Health");
    assert_eq!(Season::BloodOrchid.name(), "Blood Orchid");
    assert_eq!(Season::ShadowLegacy.name(), "Shadow Legacy");
    assert_eq!(Season::Unknown.name(), "Unknown");
}

#[test]
fn test_match_result_names() {
    assert_eq!(MatchResult::NotAvailable.name(), "Not Available");
    assert_eq!(MatchResult::Win.name(), "Win");
    assert_eq!(MatchResult::Loss.name(), "Loss");
    assert_eq!(MatchResult::Abandoned.name(), "Abandoned");
}

#[test]
fn test_queue_mode_names() {
    assert_eq!(QueueMode::Casual.name(), "Casual");
    assert_eq!(QueueMode::Ranked.name(), "Ranked");
    assert_eq!(QueueMode::Other.name(), "Other");
}
