//! Typed client logic for a card-catalog web service: the card data model
//! with its wire codecs, query-parameter and image-URL derivation, and
//! decoding of catalog responses.

mod card;
mod decode;
mod error;
mod json;
mod model;
mod text;

pub use card::CardOption;
pub use card::CardType;
pub use card::QueryExtraType;
pub use card::cards_endpoint;
pub use card::image_response;
pub use card::image_url;
pub use card::image_url_spec;
pub use card::lemma_variant_table;
pub use card::opt_values;
pub use card::parse_cards_response;
pub use card::query_params;
pub use decode::card_matches;
pub use decode::card_ok;
pub use decode::cards_match;
pub use decode::catalog_ok;
pub use decode::center_effect_matches;
pub use decode::center_effect_ok;
pub use decode::costume_matches;
pub use decode::costume_ok;
pub use decode::lemma_absent_optionals_decode_empty;
pub use decode::lemma_cards_reflect_fields;
pub use decode::skill_matches;
pub use decode::skill_ok;
pub use error::FetchError;
pub use error::Operation;
pub use json::JVal;
pub use json::field_absent;
pub use json::int_field;
pub use json::json_of;
pub use json::obj_field;
pub use json::str_field;
pub use model::Attribute;
pub use model::Card;
pub use model::Category;
pub use model::CenterEffect;
pub use model::Costume;
pub use model::EffectID;
pub use model::Evaluation;
pub use model::ExtraType;
pub use model::IdolType;
pub use model::Rarity;
pub use model::Skill;
pub use model::lemma_attribute_code_faithful;
pub use model::lemma_attribute_round_trip;
pub use model::lemma_category_round_trip;
pub use model::lemma_effect_id_code_faithful;
pub use model::lemma_effect_id_round_trip;
pub use model::lemma_evaluation_code_faithful;
pub use model::lemma_evaluation_round_trip;
pub use model::lemma_extra_type_code_faithful;
pub use model::lemma_extra_type_round_trip;
pub use model::lemma_idol_type_code_faithful;
pub use model::lemma_idol_type_round_trip;
pub use model::lemma_rarity_code_faithful;
pub use model::lemma_rarity_query_names;
pub use model::lemma_rarity_round_trip;
pub use text::dec_digits;
pub use text::dec_int;
pub use text::i32_to_string;
