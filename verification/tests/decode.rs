use mltd_client::Attribute;
use mltd_client::Card;
use mltd_client::Category;
use mltd_client::EffectID;
use mltd_client::Evaluation;
use mltd_client::ExtraType;
use mltd_client::FetchError;
use mltd_client::IdolType;
use mltd_client::Operation;
use mltd_client::Rarity;
use mltd_client::image_response;
use mltd_client::parse_cards_response;

const URL: &str = "https://api.matsurihi.me/mltd/v1/cards";

fn card_with_nulls(idol_id: i32, rarity: i32) -> String {
    format!(
        "{{\"id\":1,\"name\":\"Card A\",\"sortId\":2,\"idolId\":{},\"idolType\":1,\
         \"resourceId\":\"044miz0254\",\"rarity\":{},\"eventId\":null,\"category\":\"gasha0\",\
         \"extraType\":0,\"costume\":null,\"bonusCostume\":null,\"rank5Costume\":null,\
         \"flavorText\":null,\"flavorTextAwakened\":null,\"levelMax\":60,\"levelMaxAwakened\":80,\
         \"vocalMin\":100,\"vocalMax\":200,\"vocalMinAwakened\":150,\"vocalMaxAwakened\":250,\
         \"vocalMasterBonus\":10,\"danceMin\":101,\"danceMax\":201,\"danceMinAwakened\":151,\
         \"danceMaxAwakened\":251,\"danceMasterBonus\":11,\"visualMin\":102,\"visualMax\":202,\
         \"visualMinAwakened\":152,\"visualMaxAwakened\":252,\"visualMasterBonus\":12,\
         \"life\":30,\"masterRankMax\":4,\"centerEffect\":null,\"centerEffectName\":null,\
         \"skill\":null,\"addDate\":null}}",
        idol_id, rarity
    )
}

fn parse_one(body: &str) -> Result<Vec<Card>, FetchError> {
    parse_cards_response(URL, 200, body.as_bytes())
}

#[test]
fn test_card_all_optionals_null() {
    let body = format!("[{}]", card_with_nulls(44, 3));
    let cards = parse_one(&body).unwrap();
    assert_eq!(cards.len(), 1);
    let c = &cards[0];
    assert_eq!(c.id, 1);
    assert_eq!(c.name, "Card A");
    assert_eq!(c.sort_id, 2);
    assert_eq!(c.idol_id, 44);
    assert_eq!(c.idol_type, IdolType::Princess);
    assert_eq!(c.resource_id, "044miz0254");
    assert_eq!(c.rarity, Rarity::SR);
    assert_eq!(c.category, Category::Gasha0);
    assert_eq!(c.extra_type, ExtraType::NoExtra);
    assert_eq!(c.level_max, 60);
    assert_eq!(c.level_max_awakened, 80);
    assert_eq!(c.vocal_min, 100);
    assert_eq!(c.vocal_max, 200);
    assert_eq!(c.vocal_min_awakened, 150);
    assert_eq!(c.vocal_max_awakened, 250);
    assert_eq!(c.vocal_master_bonus, 10);
    assert_eq!(c.dance_master_bonus, 11);
    assert_eq!(c.visual_master_bonus, 12);
    assert_eq!(c.life, 30);
    assert_eq!(c.master_rank_max, 4);
    assert!(c.event_id.is_none());
    assert!(c.costume.is_none());
    assert!(c.bonus_costume.is_none());
    assert!(c.rank5_costume.is_none());
    assert!(c.flavor_text.is_none());
    assert!(c.flavor_text_awakened.is_none());
    assert!(c.center_effect.is_none());
    assert!(c.center_effect_name.is_none());
    assert!(c.skill.is_none());
    assert!(c.add_date.is_none());
}

#[test]
fn test_card_optionals_absent_keys() {
    let body = "[{\"id\":7,\"name\":\"B\",\"sortId\":1,\"idolId\":3,\"idolType\":2,\
        \"resourceId\":\"003x\",\"rarity\":1,\"category\":\"other\",\"extraType\":4,\
        \"levelMax\":1,\"levelMaxAwakened\":2,\"vocalMin\":0,\"vocalMax\":0,\
        \"vocalMinAwakened\":0,\"vocalMaxAwakened\":0,\"vocalMasterBonus\":0,\
        \"danceMin\":0,\"danceMax\":0,\"danceMinAwakened\":0,\"danceMaxAwakened\":0,\
        \"danceMasterBonus\":0,\"visualMin\":0,\"visualMax\":0,\"visualMinAwakened\":0,\
        \"visualMaxAwakened\":0,\"visualMasterBonus\":0,\"life\":1,\"masterRankMax\":0}]";
    let cards = parse_one(body).unwrap();
    assert_eq!(cards.len(), 1);
    let c = &cards[0];
    assert_eq!(c.id, 7);
    assert_eq!(c.extra_type, ExtraType::Fes);
    assert!(c.event_id.is_none());
    assert!(c.costume.is_none());
    assert!(c.skill.is_none());
    assert!(c.add_date.is_none());
}

#[test]
fn test_cards_reflect_idol_and_rarity() {
    let body = format!("[{},{}]", card_with_nulls(44, 3), card_with_nulls(44, 3));
    let cards = parse_one(&body).unwrap();
    assert_eq!(cards.len(), 2);
    for card in &cards {
        assert_eq!(card.idol_id, 44);
        assert_eq!(card.rarity, Rarity::SR);
    }
}

#[test]
fn test_rich_card_decodes() {
    let body = format!(
        "[{{\"id\":9,\"name\":\"C\",\"sortId\":3,\"idolId\":44,\"idolType\":3,\
         \"resourceId\":\"044miz0254\",\"rarity\":4,\"eventId\":120,\"category\":\"event3\",\
         \"extraType\":5,\
         \"costume\":{{\"id\":5,\"name\":\"Dress\",\"description\":\"d\",\
         \"resourceId\":\"c05\",\"modelId\":\"m05\",\"sortId\":8}},\
         \"bonusCostume\":null,\"rank5Costume\":null,\
         \"flavorText\":\"ft\",\"flavorTextAwakened\":\"fta\",\"levelMax\":70,\
         \"levelMaxAwakened\":90,\"vocalMin\":1,\"vocalMax\":2,\"vocalMinAwakened\":3,\
         \"vocalMaxAwakened\":4,\"vocalMasterBonus\":5,\"danceMin\":1,\"danceMax\":2,\
         \"danceMinAwakened\":3,\"danceMaxAwakened\":4,\"danceMasterBonus\":5,\
         \"visualMin\":1,\"visualMax\":2,\"visualMinAwakened\":3,\"visualMaxAwakened\":4,\
         \"visualMasterBonus\":5,\"life\":40,\"masterRankMax\":5,\
         \"centerEffect\":{{\"id\":11,\"description\":\"ce\",\"idolType\":4,\
         \"specificIdolType\":3,\"attribute\":6,\"value\":90,\"songType\":1,\
         \"attribute2\":2,\"value2\":30}},\
         \"centerEffectName\":\"cen\",\
         \"skill\":[{{\"id\":21,\"description\":\"sk\",\"effectId\":10,\"evaluation\":0,\
         \"evaluation2\":7,\"duration\":6,\"interval\":11,\"probability\":40,\
         \"value\":[10,20,30],\"skillName\":\"sn\"}}],\
         \"addDate\":\"2019-06-29T00:00:00+09:00\"}}]"
    );
    let cards = parse_one(&body).unwrap();
    assert_eq!(cards.len(), 1);
    let c = &cards[0];
    assert_eq!(c.rarity, Rarity::SSR);
    assert_eq!(c.event_id, Some(120));
    assert_eq!(c.category, Category::Event3);
    assert_eq!(c.extra_type, ExtraType::FirstAnivReward);
    let costume = c.costume.as_ref().unwrap();
    assert_eq!(costume.id, 5);
    assert_eq!(costume.name, "Dress");
    assert_eq!(costume.resource_id, "c05");
    assert_eq!(costume.model_id, "m05");
    assert_eq!(costume.sort_id, 8);
    assert!(c.bonus_costume.is_none());
    assert_eq!(c.flavor_text.as_deref(), Some("ft"));
    assert_eq!(c.flavor_text_awakened.as_deref(), Some("fta"));
    let ce = c.center_effect.as_ref().unwrap();
    assert_eq!(ce.id, 11);
    assert_eq!(ce.idol_type, IdolType::All);
    assert_eq!(ce.specific_idol_type, Some(IdolType::Angel));
    assert_eq!(ce.attribute, Attribute::SkillProbability);
    assert_eq!(ce.value, 90);
    assert_eq!(ce.song_type, Some(IdolType::Princess));
    assert_eq!(ce.attribute2, Some(Attribute::Dance));
    assert_eq!(ce.value2, Some(30));
    assert_eq!(c.center_effect_name.as_deref(), Some("cen"));
    let skills = c.skill.as_ref().unwrap();
    assert_eq!(skills.len(), 1);
    let sk = &skills[0];
    assert_eq!(sk.id, 21);
    assert_eq!(sk.effect_id, EffectID::OverClock);
    assert_eq!(sk.evaluation, Evaluation::All);
    assert_eq!(sk.evaluation2, Evaluation::GreatGood);
    assert_eq!(sk.duration, 6);
    assert_eq!(sk.interval, 11);
    assert_eq!(sk.probability, 40);
    assert_eq!(sk.value, vec![10, 20, 30]);
    assert_eq!(sk.skill_name.as_deref(), Some("sn"));
    assert_eq!(c.add_date.as_deref(), Some("2019-06-29T00:00:00+09:00"));
}

#[test]
fn test_non_200_is_transport_error() {
    let body = format!("[{}]", card_with_nulls(44, 3));
    match parse_cards_response(URL, 404, body.as_bytes()) {
        Err(FetchError::Transport { url, status }) => {
            assert_eq!(url, URL);
            assert_eq!(status, Some(404));
        },
        _ => panic!("expected a transport error"),
    }
}

#[test]
fn test_image_response_non_200_is_transport_error() {
    let url = "https://storage.matsurihi.me/mltd/card_bg/044miz0254_0.png";
    match image_response(url, 403, vec![1, 2, 3]) {
        Err(FetchError::Transport { url: u, status }) => {
            assert_eq!(u, url);
            assert_eq!(status, Some(403));
        },
        _ => panic!("expected a transport error"),
    }
}

#[test]
fn test_image_response_passes_bytes_through() {
    let url = "https://storage.matsurihi.me/mltd/card_bg/044miz0254_0.png";
    let bytes = vec![0x89, 0x50, 0x4e, 0x47, 0x00, 0xff];
    let out = image_response(url, 200, bytes.clone()).unwrap();
    assert_eq!(out, bytes);
}

#[test]
fn test_invalid_json_is_decoding_error() {
    match parse_one("not json at all") {
        Err(FetchError::Decoding { operation }) => {
            assert_eq!(operation, Operation::CardCatalog);
        },
        _ => panic!("expected a decoding error"),
    }
}

#[test]
fn test_top_level_not_array_is_decoding_error() {
    assert!(matches!(
        parse_one("{\"id\":1}"),
        Err(FetchError::Decoding { .. })
    ));
}

#[test]
fn test_missing_required_field_is_decoding_error() {
    let body = format!("[{}]", card_with_nulls(44, 3).replace("\"life\":30,", ""));
    assert!(matches!(parse_one(&body), Err(FetchError::Decoding { .. })));
}

#[test]
fn test_unknown_rarity_code_rejected() {
    let body = format!("[{}]", card_with_nulls(44, 9));
    assert!(matches!(parse_one(&body), Err(FetchError::Decoding { .. })));
}

#[test]
fn test_unknown_category_rejected() {
    let body = format!("[{}]", card_with_nulls(44, 3).replace("gasha0", "gasha3"));
    assert!(matches!(parse_one(&body), Err(FetchError::Decoding { .. })));
}

#[test]
fn test_fractional_stat_rejected() {
    let body = format!("[{}]", card_with_nulls(44, 3).replace("\"life\":30", "\"life\":30.5"));
    assert!(matches!(parse_one(&body), Err(FetchError::Decoding { .. })));
}

#[test]
fn test_out_of_range_integer_rejected() {
    let body = format!(
        "[{}]",
        card_with_nulls(44, 3).replace("\"id\":1,", "\"id\":99999999999,")
    );
    assert!(matches!(parse_one(&body), Err(FetchError::Decoding { .. })));
}

#[test]
fn test_empty_catalog_decodes_to_no_cards() {
    assert_eq!(parse_one("[]").unwrap().len(), 0);
}
