use mltd_client::Attribute;
use mltd_client::Category;
use mltd_client::EffectID;
use mltd_client::Evaluation;
use mltd_client::ExtraType;
use mltd_client::IdolType;
use mltd_client::Rarity;

#[test]
fn test_rarity_query_names() {
    assert_eq!(Rarity::N.query_name(), "n");
    assert_eq!(Rarity::R.query_name(), "r");
    assert_eq!(Rarity::SR.query_name(), "sr");
    assert_eq!(Rarity::SSR.query_name(), "ssr");
}

#[test]
fn test_rarity_codes_round_trip() {
    let all = [Rarity::N, Rarity::R, Rarity::SR, Rarity::SSR];
    let codes = [1, 2, 3, 4];
    for (t, c) in all.iter().zip(codes.iter()) {
        assert_eq!(t.code(), *c);
        assert_eq!(Rarity::from_code(*c), Some(*t));
    }
    assert_eq!(Rarity::from_code(0), None);
    assert_eq!(Rarity::from_code(5), None);
}

#[test]
fn test_idol_type_codes_round_trip() {
    let all = [
        IdolType::Princess,
        IdolType::Fairy,
        IdolType::Angel,
        IdolType::All,
        IdolType::Ex,
    ];
    let codes = [1, 2, 3, 4, 5];
    for (t, c) in all.iter().zip(codes.iter()) {
        assert_eq!(t.code(), *c);
        assert_eq!(IdolType::from_code(*c), Some(*t));
    }
    assert_eq!(IdolType::from_code(0), None);
    assert_eq!(IdolType::from_code(6), None);
}

#[test]
fn test_attribute_codes_round_trip() {
    let all = [
        Attribute::Vocal,
        Attribute::Dance,
        Attribute::Visual,
        Attribute::AllAppeal,
        Attribute::Life,
        Attribute::SkillProbability,
    ];
    let codes = [1, 2, 3, 4, 5, 6];
    for (t, c) in all.iter().zip(codes.iter()) {
        assert_eq!(t.code(), *c);
        assert_eq!(Attribute::from_code(*c), Some(*t));
    }
    assert_eq!(Attribute::from_code(0), None);
    assert_eq!(Attribute::from_code(7), None);
}

#[test]
fn test_evaluation_codes_round_trip() {
    let all = [
        Evaluation::All,
        Evaluation::Perfect,
        Evaluation::PerfectGreat,
        Evaluation::Great,
        Evaluation::GreatGoodFastSlow,
        Evaluation::PerfectGreatGood,
        Evaluation::PerfectGreatGoodFastSlow,
        Evaluation::GreatGood,
    ];
    let codes = [0, 1, 2, 3, 4, 5, 6, 7];
    for (t, c) in all.iter().zip(codes.iter()) {
        assert_eq!(t.code(), *c);
        assert_eq!(Evaluation::from_code(*c), Some(*t));
    }
    assert_eq!(Evaluation::from_code(8), None);
    assert_eq!(Evaluation::from_code(-1), None);
}

#[test]
fn test_effect_id_codes_skip_nine() {
    let all = [
        EffectID::ScoreUp,
        EffectID::ComboBonus,
        EffectID::LifeRecovery,
        EffectID::DamageGuard,
        EffectID::ComboContinuation,
        EffectID::EnhancedEvalution,
        EffectID::DoubleBoost,
        EffectID::MultiUp,
        EffectID::OverClock,
        EffectID::OverRondo,
        EffectID::DoubleEffect,
    ];
    let codes = [1, 2, 3, 4, 5, 6, 7, 8, 10, 11, 12];
    for (t, c) in all.iter().zip(codes.iter()) {
        assert_eq!(t.code(), *c);
        assert_eq!(EffectID::from_code(*c), Some(*t));
    }
    assert_eq!(EffectID::OverClock.code(), 10);
    assert_eq!(EffectID::OverRondo.code(), 11);
    assert_eq!(EffectID::DoubleEffect.code(), 12);
    assert_eq!(EffectID::from_code(9), None);
    assert_eq!(EffectID::from_code(0), None);
    assert_eq!(EffectID::from_code(13), None);
}

#[test]
fn test_extra_type_codes_skip_one() {
    let all = [
        ExtraType::NoExtra,
        ExtraType::PSTRankingReward,
        ExtraType::PSTPointReward,
        ExtraType::Fes,
        ExtraType::FirstAnivReward,
        ExtraType::ExtraCard,
        ExtraType::SecondAnivReward,
        ExtraType::ExtraPSTRankingReward,
        ExtraType::ExtraPSTPointReward,
        ExtraType::ThirdAnivReward,
        ExtraType::ExtraPSTRankingReward2,
        ExtraType::ExtraPSTPointReward2,
        ExtraType::ForthAnivReward,
        ExtraType::SecondHairStyle,
    ];
    let codes = [0, 2, 3, 4, 5, 6, 7, 8, 9, 10, 11, 12, 13, 14];
    for (t, c) in all.iter().zip(codes.iter()) {
        assert_eq!(t.code(), *c);
        assert_eq!(ExtraType::from_code(*c), Some(*t));
    }
    assert_eq!(ExtraType::from_code(1), None);
    assert_eq!(ExtraType::from_code(15), None);
}

#[test]
fn test_category_wire_round_trip() {
    let all = [
        Category::Normal1,
        Category::Gasha0,
        Category::Gasha1,
        Category::Gasha2,
        Category::Gasha4,
        Category::Gasha5,
        Category::Event0,
        Category::Event1,
        Category::Event2,
        Category::Event3,
        Category::Event4,
        Category::Event5,
        Category::Other,
    ];
    let names = [
        "normal1", "gasha0", "gasha1", "gasha2", "gasha4", "gasha5", "event0", "event1", "event2",
        "event3", "event4", "event5", "other",
    ];
    for (t, n) in all.iter().zip(names.iter()) {
        assert_eq!(t.wire_name(), *n);
        assert_eq!(Category::from_wire(n), Some(*t));
    }
    assert_eq!(Category::from_wire("gasha3"), None);
    assert_eq!(Category::from_wire(""), None);
}
