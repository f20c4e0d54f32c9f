use mltd_client::CardOption;
use mltd_client::CardType;
use mltd_client::QueryExtraType;
use mltd_client::Rarity;
use mltd_client::cards_endpoint;
use mltd_client::i32_to_string;
use mltd_client::image_url;
use mltd_client::query_params;

#[test]
fn test_variant_suffix_subdir_table() {
    assert_eq!(CardType::FrameAwakened.suffix(), "_0_a");
    assert_eq!(CardType::FrameAwakened.path_subdir(), "card");
    assert_eq!(CardType::FrameNoAwakend.suffix(), "_0_b");
    assert_eq!(CardType::FrameNoAwakend.path_subdir(), "card");
    assert_eq!(CardType::NoFrameAwakened.suffix(), "_1_a");
    assert_eq!(CardType::NoFrameAwakened.path_subdir(), "card");
    assert_eq!(CardType::NoFrameNoAwakend.suffix(), "_1_b");
    assert_eq!(CardType::NoFrameNoAwakend.path_subdir(), "card");
    assert_eq!(CardType::BgNoFrameNoAwakend.suffix(), "_0");
    assert_eq!(CardType::BgNoFrameNoAwakend.path_subdir(), "card_bg");
    assert_eq!(CardType::BgNoFrameAwakened.suffix(), "_1");
    assert_eq!(CardType::BgNoFrameAwakened.path_subdir(), "card_bg");
}

#[test]
fn test_image_url_background_not_awakened() {
    let url = image_url("044miz0254", &CardType::BgNoFrameNoAwakend);
    assert_eq!(url, "https://storage.matsurihi.me/mltd/card_bg/044miz0254_0.png");
}

#[test]
fn test_image_url_each_variant() {
    assert_eq!(
        image_url("044miz0254", &CardType::FrameAwakened),
        "https://storage.matsurihi.me/mltd/card/044miz0254_0_a.png"
    );
    assert_eq!(
        image_url("044miz0254", &CardType::FrameNoAwakend),
        "https://storage.matsurihi.me/mltd/card/044miz0254_0_b.png"
    );
    assert_eq!(
        image_url("044miz0254", &CardType::NoFrameAwakened),
        "https://storage.matsurihi.me/mltd/card/044miz0254_1_a.png"
    );
    assert_eq!(
        image_url("044miz0254", &CardType::NoFrameNoAwakend),
        "https://storage.matsurihi.me/mltd/card/044miz0254_1_b.png"
    );
    assert_eq!(
        image_url("044miz0254", &CardType::BgNoFrameAwakened),
        "https://storage.matsurihi.me/mltd/card_bg/044miz0254_1.png"
    );
}

#[test]
fn test_cards_endpoint() {
    assert_eq!(cards_endpoint(), "https://api.matsurihi.me/mltd/v1/cards");
}

#[test]
fn test_query_params_idol_and_rarity() {
    let option = CardOption {
        idol_id: Some(vec![44]),
        rarity: Some(vec![Rarity::SR]),
        extra_type: None,
    };
    let params = query_params(&option);
    assert_eq!(params.len(), 2);
    assert_eq!(params[0].0, "idolId");
    assert_eq!(params[0].1, "44");
    assert_eq!(params[1].0, "rarity");
    assert_eq!(params[1].1, "sr");
    assert!(params.iter().all(|p| p.0 != "extraType"));
}

#[test]
fn test_query_params_empty_filter() {
    let option = CardOption { idol_id: None, rarity: None, extra_type: None };
    assert_eq!(query_params(&option).len(), 0);
}

#[test]
fn test_query_params_block_order() {
    let option = CardOption {
        idol_id: Some(vec![1, 2]),
        rarity: Some(vec![Rarity::N, Rarity::SSR]),
        extra_type: Some(vec![QueryExtraType::Fes, QueryExtraType::NoExtra]),
    };
    let params = query_params(&option);
    let pairs: Vec<(&str, &str)> = params.iter().map(|p| (p.0.as_str(), p.1.as_str())).collect();
    assert_eq!(
        pairs,
        vec![
            ("idolId", "1"),
            ("idolId", "2"),
            ("rarity", "n"),
            ("rarity", "ssr"),
            ("extraType", "fes"),
            ("extraType", "none"),
        ]
    );
}

#[test]
fn test_query_extra_type_names() {
    assert_eq!(QueryExtraType::NoExtra.query_name(), "none");
    assert_eq!(QueryExtraType::Pst.query_name(), "pst");
    assert_eq!(QueryExtraType::Pstr.query_name(), "pstr");
    assert_eq!(QueryExtraType::Pstp.query_name(), "pstp");
    assert_eq!(QueryExtraType::Fes.query_name(), "fes");
    assert_eq!(QueryExtraType::Aniv.query_name(), "aniv");
    assert_eq!(QueryExtraType::FirstAniv.query_name(), "firstaniv");
    assert_eq!(QueryExtraType::SecondAniv.query_name(), "secondaniv");
    assert_eq!(QueryExtraType::Extra.query_name(), "extra");
}

#[test]
fn test_i32_to_string() {
    assert_eq!(i32_to_string(0), "0");
    assert_eq!(i32_to_string(44), "44");
    assert_eq!(i32_to_string(-17), "-17");
    assert_eq!(i32_to_string(i32::MAX), "2147483647");
    assert_eq!(i32_to_string(i32::MIN), "-2147483648");
}

#[test]
fn test_variant_labels() {
    assert_eq!(CardType::FrameAwakened.label(), "覚醒後・枠有");
    assert_eq!(CardType::FrameNoAwakend.label(), "覚醒前・枠有");
    assert_eq!(CardType::NoFrameAwakened.label(), "覚醒後・枠無");
    assert_eq!(CardType::NoFrameNoAwakend.label(), "覚醒前・枠無");
    assert_eq!(CardType::BgNoFrameAwakened.label(), "覚醒後");
    assert_eq!(CardType::BgNoFrameNoAwakend.label(), "覚醒前");
}
