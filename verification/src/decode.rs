//! Verified decoding of catalog responses into the card model.
//!
//! Each entity has a schema predicate (`..._ok`) saying which modelled JSON
//! nodes conform, and a relation (`..._matches`) pinning the decoded value
//! to the node field by field. Decoding succeeds exactly on conforming
//! nodes and returns the unique matching value.

use vstd::prelude::*;

use crate::json::JVal;
use crate::json::field_absent;
use crate::json::get_field;
use crate::json::get_i32;
use crate::json::get_opt_i32;
use crate::json::get_opt_string;
use crate::json::get_string;
use crate::json::int_field;
use crate::json::jv_as_array;
use crate::json::jv_as_i64;
use crate::json::jv_is_null;
use crate::json::jval_of;
use crate::json::obj_field;
use crate::json::str_field;
use crate::model::Attribute;
use crate::model::Card;
use crate::model::Category;
use crate::model::CenterEffect;
use crate::model::Costume;
use crate::model::EffectID;
use crate::model::Evaluation;
use crate::model::ExtraType;
use crate::model::IdolType;
use crate::model::Rarity;
use crate::model::Skill;

verus! {

/// A required field holding an integer that fits 32 signed bits.
pub open spec fn i32_ok(j: JVal, key: Seq<char>) -> bool {
    int_field(j, key) matches Some(i) && i32::MIN <= i <= i32::MAX
}

/// The field holds exactly this integer.
pub open spec fn i32_is(j: JVal, key: Seq<char>, x: i32) -> bool {
    int_field(j, key) == Some(x as int)
}

/// A required field holding a string.
pub open spec fn str_ok(j: JVal, key: Seq<char>) -> bool {
    str_field(j, key) is Some
}

/// The field holds exactly this string.
pub open spec fn str_is(j: JVal, key: Seq<char>, s: Seq<char>) -> bool {
    str_field(j, key) == Some(s)
}

/// An optional integer field: absent, null, or an integer that fits.
pub open spec fn opt_i32_ok(j: JVal, key: Seq<char>) -> bool {
    field_absent(j, key) || i32_ok(j, key)
}

/// The optional field decodes to exactly this value.
pub open spec fn opt_i32_is(j: JVal, key: Seq<char>, x: Option<i32>) -> bool {
    match x {
        Some(v) => i32_is(j, key, v),
        None => field_absent(j, key),
    }
}

/// An optional string field: absent, null, or a string.
pub open spec fn opt_str_ok(j: JVal, key: Seq<char>) -> bool {
    field_absent(j, key) || str_ok(j, key)
}

/// The optional field decodes to exactly this value.
pub open spec fn opt_str_is(j: JVal, key: Seq<char>, x: Option<String>) -> bool {
    match x {
        Some(s) => str_is(j, key, s@),
        None => field_absent(j, key),
    }
}

/// A conforming costume object.
pub open spec fn costume_ok(j: JVal) -> bool {
    &&& i32_ok(j, "id"@)
    &&& str_ok(j, "name"@)
    &&& str_ok(j, "description"@)
    &&& str_ok(j, "resourceId"@)
    &&& str_ok(j, "modelId"@)
    &&& i32_ok(j, "sortId"@)
}

/// The costume a conforming node decodes to, field by field.
pub open spec fn costume_matches(c: Costume, j: JVal) -> bool {
    &&& i32_is(j, "id"@, c.id)
    &&& str_is(j, "name"@, c.name@)
    &&& str_is(j, "description"@, c.description@)
    &&& str_is(j, "resourceId"@, c.resource_id@)
    &&& str_is(j, "modelId"@, c.model_id@)
    &&& i32_is(j, "sortId"@, c.sort_id)
}

pub(crate) fn decode_costume(v: &serde_json::Value) -> (r: Result<Costume, ()>)
    ensures
        r matches Ok(c) ==> costume_ok(jval_of(*v)) && costume_matches(c, jval_of(*v)),
        r is Err ==> !costume_ok(jval_of(*v)),
{
    let id = match get_i32(v, "id") {
        Some(x) => x,
        None => {
            return Err(());
        },
    };
    let name = match get_string(v, "name") {
        Some(x) => x,
        None => {
            return Err(());
        },
    };
    let description = match get_string(v, "description") {
        Some(x) => x,
        None => {
            return Err(());
        },
    };
    let resource_id = match get_string(v, "resourceId") {
        Some(x) => x,
        None => {
            return Err(());
        },
    };
    let model_id = match get_string(v, "modelId") {
        Some(x) => x,
        None => {
            return Err(());
        },
    };
    let sort_id = match get_i32(v, "sortId") {
        Some(x) => x,
        None => {
            return Err(());
        },
    };
    Ok(Costume { id, name, description, resource_id, model_id, sort_id })
}

/// An optional costume field: absent, null, or a conforming object.
pub open spec fn opt_costume_ok(j: JVal, key: Seq<char>) -> bool {
    match obj_field(j, key) {
        None => true,
        Some(f) => f is Null || costume_ok(f),
    }
}

/// The optional costume field decodes to exactly this value.
pub open spec fn opt_costume_is(j: JVal, key: Seq<char>, x: Option<Costume>) -> bool {
    match x {
        Some(c) => obj_field(j, key) matches Some(f) && costume_matches(c, f),
        None => field_absent(j, key),
    }
}

pub(crate) fn decode_opt_costume(v: &serde_json::Value, key: &str) -> (r: Result<
    Option<Costume>,
    (),
>)
    ensures
        r matches Ok(c) ==> opt_costume_ok(jval_of(*v), key@) && opt_costume_is(
            jval_of(*v),
            key@,
            c,
        ),
        r is Err ==> !opt_costume_ok(jval_of(*v), key@),
{
    match get_field(v, key) {
        None => Ok(None),
        Some(f) => if jv_is_null(f) {
            Ok(None)
        } else {
            match decode_costume(f) {
                Ok(c) => Ok(Some(c)),
                Err(()) => Err(()),
            }
        },
    }
}

/// A conforming center-effect object.
pub open spec fn center_effect_ok(j: JVal) -> bool {
    &&& i32_ok(j, "id"@)
    &&& str_ok(j, "description"@)
    &&& int_field(j, "idolType"@) matches Some(i) && IdolType::spec_from_code(i) is Some
    &&& field_absent(j, "specificIdolType"@) || (int_field(j, "specificIdolType"@) matches Some(i)
        && IdolType::spec_from_code(i) is Some)
    &&& int_field(j, "attribute"@) matches Some(i) && Attribute::spec_from_code(i) is Some
    &&& i32_ok(j, "value"@)
    &&& field_absent(j, "songType"@) || (int_field(j, "songType"@) matches Some(i)
        && IdolType::spec_from_code(i) is Some)
    &&& field_absent(j, "attribute2"@) || (int_field(j, "attribute2"@) matches Some(i)
        && Attribute::spec_from_code(i) is Some)
    &&& opt_i32_ok(j, "value2"@)
}

/// The center effect a conforming node decodes to, field by field.
pub open spec fn center_effect_matches(c: CenterEffect, j: JVal) -> bool {
    &&& i32_is(j, "id"@, c.id)
    &&& str_is(j, "description"@, c.description@)
    &&& int_field(j, "idolType"@) matches Some(i) && IdolType::spec_from_code(i) == Some(
        c.idol_type,
    )
    &&& match c.specific_idol_type {
        Some(t) => int_field(j, "specificIdolType"@) matches Some(i) && IdolType::spec_from_code(i)
            == Some(t),
        None => field_absent(j, "specificIdolType"@),
    }
    &&& int_field(j, "attribute"@) matches Some(i) && Attribute::spec_from_code(i) == Some(
        c.attribute,
    )
    &&& i32_is(j, "value"@, c.value)
    &&& match c.song_type {
        Some(t) => int_field(j, "songType"@) matches Some(i) && IdolType::spec_from_code(i)
            == Some(t),
        None => field_absent(j, "songType"@),
    }
    &&& match c.attribute2 {
        Some(t) => int_field(j, "attribute2"@) matches Some(i) && Attribute::spec_from_code(i)
            == Some(t),
        None => field_absent(j, "attribute2"@),
    }
    &&& opt_i32_is(j, "value2"@, c.value2)
}

fn decode_idol_type(v: &serde_json::Value, key: &str) -> (r: Result<IdolType, ()>)
    ensures
        r matches Ok(t) ==> int_field(jval_of(*v), key@) matches Some(i)
            && IdolType::spec_from_code(i) == Some(t),
        r is Err ==> !(int_field(jval_of(*v), key@) matches Some(i) && IdolType::spec_from_code(i)
            is Some),
{
    match get_i32(v, key) {
        Some(c) => match IdolType::from_code(c) {
            Some(t) => Ok(t),
            None => Err(()),
        },
        None => Err(()),
    }
}

fn decode_opt_idol_type(v: &serde_json::Value, key: &str) -> (r: Result<Option<IdolType>, ()>)
    ensures
        r matches Ok(o) ==> match o {
            Some(t) => int_field(jval_of(*v), key@) matches Some(i) && IdolType::spec_from_code(i)
                == Some(t),
            None => field_absent(jval_of(*v), key@),
        },
        r is Err ==> !(field_absent(jval_of(*v), key@) || (int_field(jval_of(*v), key@)
            matches Some(i) && IdolType::spec_from_code(i) is Some)),
{
    match get_opt_i32(v, key) {
        Ok(None) => Ok(None),
        Ok(Some(c)) => match IdolType::from_code(c) {
            Some(t) => Ok(Some(t)),
            None => Err(()),
        },
        Err(()) => Err(()),
    }
}

fn decode_opt_attribute(v: &serde_json::Value, key: &str) -> (r: Result<Option<Attribute>, ()>)
    ensures
        r matches Ok(o) ==> match o {
            Some(t) => int_field(jval_of(*v), key@) matches Some(i) && Attribute::spec_from_code(i)
                == Some(t),
            None => field_absent(jval_of(*v), key@),
        },
        r is Err ==> !(field_absent(jval_of(*v), key@) || (int_field(jval_of(*v), key@)
            matches Some(i) && Attribute::spec_from_code(i) is Some)),
{
    match get_opt_i32(v, key) {
        Ok(None) => Ok(None),
        Ok(Some(c)) => match Attribute::from_code(c) {
            Some(t) => Ok(Some(t)),
            None => Err(()),
        },
        Err(()) => Err(()),
    }
}

pub(crate) fn decode_center_effect(v: &serde_json::Value) -> (r: Result<CenterEffect, ()>)
    ensures
        r matches Ok(c) ==> center_effect_ok(jval_of(*v)) && center_effect_matches(c, jval_of(*v)),
        r is Err ==> !center_effect_ok(jval_of(*v)),
{
    let id = match get_i32(v, "id") {
        Some(x) => x,
        None => {
            return Err(());
        },
    };
    let description = match get_string(v, "description") {
        Some(x) => x,
        None => {
            return Err(());
        },
    };
    let idol_type = match decode_idol_type(v, "idolType") {
        Ok(t) => t,
        Err(()) => {
            return Err(());
        },
    };
    let specific_idol_type = match decode_opt_idol_type(v, "specificIdolType") {
        Ok(t) => t,
        Err(()) => {
            return Err(());
        },
    };
    let attribute = match get_i32(v, "attribute") {
        Some(c) => match Attribute::from_code(c) {
            Some(t) => t,
            None => {
                return Err(());
            },
        },
        None => {
            return Err(());
        },
    };
    let value = match get_i32(v, "value") {
        Some(x) => x,
        None => {
            return Err(());
        },
    };
    let song_type = match decode_opt_idol_type(v, "songType") {
        Ok(t) => t,
        Err(()) => {
            return Err(());
        },
    };
    let attribute2 = match decode_opt_attribute(v, "attribute2") {
        Ok(t) => t,
        Err(()) => {
            return Err(());
        },
    };
    let value2 = match get_opt_i32(v, "value2") {
        Ok(x) => x,
        Err(()) => {
            return Err(());
        },
    };
    Ok(
        CenterEffect {
            id,
            description,
            idol_type,
            specific_idol_type,
            attribute,
            value,
            song_type,
            attribute2,
            value2,
        },
    )
}

/// A required field holding an array of integers that fit 32 signed bits.
pub open spec fn i32_arr_ok(j: JVal, key: Seq<char>) -> bool {
    obj_field(j, key) matches Some(JVal::Arr(s)) && (forall|i: int|
        0 <= i < s.len() ==> (#[trigger] s[i] matches JVal::Int(x) && i32::MIN <= x <= i32::MAX))
}

/// The field holds exactly these integers, in order.
pub open spec fn i32_arr_is(j: JVal, key: Seq<char>, v: Seq<i32>) -> bool {
    obj_field(j, key) matches Some(JVal::Arr(s)) && s.len() == v.len() && (forall|i: int|
        0 <= i < s.len() ==> #[trigger] s[i] == JVal::Int(v[i] as int))
}

fn decode_i32_array(v: &serde_json::Value, key: &str) -> (r: Result<Vec<i32>, ()>)
    ensures
        r matches Ok(out) ==> i32_arr_ok(jval_of(*v), key@) && i32_arr_is(
            jval_of(*v),
            key@,
            out@,
        ),
        r is Err ==> !i32_arr_ok(jval_of(*v), key@),
{
    let f = match get_field(v, key) {
        Some(f) => f,
        None => {
            return Err(());
        },
    };
    let arr = match jv_as_array(f) {
        Some(a) => a,
        None => {
            return Err(());
        },
    };
    let ghost s = jval_of(*f)->Arr_0;
    let mut out: Vec<i32> = Vec::new();
    let mut i: usize = 0;
    while i < arr.len()
        invariant
            0 <= i <= arr.len(),
            obj_field(jval_of(*v), key@) == Some(jval_of(*f)),
            jval_of(*f) == JVal::Arr(s),
            arr@.len() == s.len(),
            forall|k: int| 0 <= k < s.len() ==> jval_of(#[trigger] arr@[k]) == s[k],
            out@.len() == i,
            forall|k: int| 0 <= k < i ==> #[trigger] s[k] == JVal::Int(out@[k] as int),
        decreases arr.len() - i,
    {
        match jv_as_i64(&arr[i]) {
            Some(x) => {
                if i32::MIN as i64 <= x && x <= i32::MAX as i64 {
                    out.push(x as i32);
                } else {
                    proof {
                        assert(s[i as int] == JVal::Int(x as int));
                        assert(!(s[i as int] matches JVal::Int(y) && i32::MIN <= y <= i32::MAX));
                    }
                    return Err(());
                }
            },
            None => {
                proof {
                    assert(s[i as int] == jval_of(arr@[i as int]));
                    assert(!(s[i as int] matches JVal::Int(y) && i32::MIN <= y <= i32::MAX));
                }
                return Err(());
            },
        }
        i += 1;
    }
    Ok(out)
}

/// A conforming skill object.
pub open spec fn skill_ok(j: JVal) -> bool {
    &&& i32_ok(j, "id"@)
    &&& str_ok(j, "description"@)
    &&& int_field(j, "effectId"@) matches Some(i) && EffectID::spec_from_code(i) is Some
    &&& int_field(j, "evaluation"@) matches Some(i) && Evaluation::spec_from_code(i) is Some
    &&& int_field(j, "evaluation2"@) matches Some(i) && Evaluation::spec_from_code(i) is Some
    &&& i32_ok(j, "duration"@)
    &&& i32_ok(j, "interval"@)
    &&& i32_ok(j, "probability"@)
    &&& i32_arr_ok(j, "value"@)
    &&& opt_str_ok(j, "skillName"@)
}

/// The skill a conforming node decodes to, field by field.
pub open spec fn skill_matches(c: Skill, j: JVal) -> bool {
    &&& i32_is(j, "id"@, c.id)
    &&& str_is(j, "description"@, c.description@)
    &&& int_field(j, "effectId"@) matches Some(i) && EffectID::spec_from_code(i) == Some(
        c.effect_id,
    )
    &&& int_field(j, "evaluation"@) matches Some(i) && Evaluation::spec_from_code(i) == Some(
        c.evaluation,
    )
    &&& int_field(j, "evaluation2"@) matches Some(i) && Evaluation::spec_from_code(i) == Some(
        c.evaluation2,
    )
    &&& i32_is(j, "duration"@, c.duration)
    &&& i32_is(j, "interval"@, c.interval)
    &&& i32_is(j, "probability"@, c.probability)
    &&& i32_arr_is(j, "value"@, c.value@)
    &&& opt_str_is(j, "skillName"@, c.skill_name)
}

pub(crate) fn decode_skill(v: &serde_json::Value) -> (r: Result<Skill, ()>)
    ensures
        r matches Ok(c) ==> skill_ok(jval_of(*v)) && skill_matches(c, jval_of(*v)),
        r is Err ==> !skill_ok(jval_of(*v)),
{
    let id = match get_i32(v, "id") {
        Some(x) => x,
        None => {
            return Err(());
        },
    };
    let description = match get_string(v, "description") {
        Some(x) => x,
        None => {
            return Err(());
        },
    };
    let effect_id = match get_i32(v, "effectId") {
        Some(c) => match EffectID::from_code(c) {
            Some(t) => t,
            None => {
                return Err(());
            },
        },
        None => {
            return Err(());
        },
    };
    let evaluation = match get_i32(v, "evaluation") {
        Some(c) => match Evaluation::from_code(c) {
            Some(t) => t,
            None => {
                return Err(());
            },
        },
        None => {
            return Err(());
        },
    };
    let evaluation2 = match get_i32(v, "evaluation2") {
        Some(c) => match Evaluation::from_code(c) {
            Some(t) => t,
            None => {
                return Err(());
            },
        },
        None => {
            return Err(());
        },
    };
    let duration = match get_i32(v, "duration") {
        Some(x) => x,
        None => {
            return Err(());
        },
    };
    let interval = match get_i32(v, "interval") {
        Some(x) => x,
        None => {
            return Err(());
        },
    };
    let probability = match get_i32(v, "probability") {
        Some(x) => x,
        None => {
            return Err(());
        },
    };
    let value = match decode_i32_array(v, "value") {
        Ok(x) => x,
        Err(()) => {
            return Err(());
        },
    };
    let skill_name = match get_opt_string(v, "skillName") {
        Ok(x) => x,
        Err(()) => {
            return Err(());
        },
    };
    Ok(
        Skill {
            id,
            description,
            effect_id,
            evaluation,
            evaluation2,
            duration,
            interval,
            probability,
            value,
            skill_name,
        },
    )
}

/// An optional skill-list field: absent, null, or an array of conforming
/// skill objects.
pub open spec fn skills_ok(j: JVal, key: Seq<char>) -> bool {
    match obj_field(j, key) {
        None => true,
        Some(f) => f is Null || (f matches JVal::Arr(s) && (forall|i: int|
            0 <= i < s.len() ==> skill_ok(#[trigger] s[i]))),
    }
}

/// The optional skill-list field decodes to exactly these skills, in order.
pub open spec fn skills_is(j: JVal, key: Seq<char>, x: Option<Vec<Skill>>) -> bool {
    match x {
        Some(v) => obj_field(j, key) matches Some(f) && f matches JVal::Arr(s) && v@.len()
            == s.len() && (forall|i: int|
            0 <= i < s.len() ==> skill_matches(#[trigger] v@[i], s[i])),
        None => field_absent(j, key),
    }
}

pub(crate) fn decode_skill_list(v: &serde_json::Value, key: &str) -> (r: Result<
    Option<Vec<Skill>>,
    (),
>)
    ensures
        r matches Ok(x) ==> skills_ok(jval_of(*v), key@) && skills_is(jval_of(*v), key@, x),
        r is Err ==> !skills_ok(jval_of(*v), key@),
{
    let f = match get_field(v, key) {
        Some(f) => f,
        None => {
            return Ok(None);
        },
    };
    if jv_is_null(f) {
        return Ok(None);
    }
    let arr = match jv_as_array(f) {
        Some(a) => a,
        None => {
            return Err(());
        },
    };
    let ghost s = jval_of(*f)->Arr_0;
    let mut out: Vec<Skill> = Vec::new();
    let mut i: usize = 0;
    while i < arr.len()
        invariant
            0 <= i <= arr.len(),
            obj_field(jval_of(*v), key@) == Some(jval_of(*f)),
            !(jval_of(*f) is Null),
            jval_of(*f) == JVal::Arr(s),
            arr@.len() == s.len(),
            forall|k: int| 0 <= k < s.len() ==> jval_of(#[trigger] arr@[k]) == s[k],
            out@.len() == i,
            forall|k: int| 0 <= k < i ==> skill_ok(#[trigger] s[k]),
            forall|k: int| 0 <= k < i ==> skill_matches(#[trigger] out@[k], s[k]),
        decreases arr.len() - i,
    {
        match decode_skill(&arr[i]) {
            Ok(sk) => {
                out.push(sk);
            },
            Err(()) => {
                proof {
                    assert(jval_of(*f)->Arr_0 == s);
                    assert(!skill_ok(jval_of(*f)->Arr_0[i as int]));
                    assert(!skills_ok(jval_of(*v), key@));
                }
                return Err(());
            },
        }
        i += 1;
    }
    Ok(Some(out))
}

/// A conforming card object: every required field present with its
/// documented shape, every optional field absent, null, or conforming.
pub open spec fn card_ok(j: JVal) -> bool {
    &&& i32_ok(j, "id"@)
    &&& str_ok(j, "name"@)
    &&& i32_ok(j, "sortId"@)
    &&& i32_ok(j, "idolId"@)
    &&& int_field(j, "idolType"@) matches Some(i) && IdolType::spec_from_code(i) is Some
    &&& str_ok(j, "resourceId"@)
    &&& int_field(j, "rarity"@) matches Some(i) && Rarity::spec_from_code(i) is Some
    &&& opt_i32_ok(j, "eventId"@)
    &&& str_field(j, "category"@) matches Some(s) && Category::spec_from_wire(s) is Some
    &&& int_field(j, "extraType"@) matches Some(i) && ExtraType::spec_from_code(i) is Some
    &&& opt_costume_ok(j, "costume"@)
    &&& opt_costume_ok(j, "bonusCostume"@)
    &&& opt_costume_ok(j, "rank5Costume"@)
    &&& opt_str_ok(j, "flavorText"@)
    &&& opt_str_ok(j, "flavorTextAwakened"@)
    &&& i32_ok(j, "levelMax"@)
    &&& i32_ok(j, "levelMaxAwakened"@)
    &&& i32_ok(j, "vocalMin"@)
    &&& i32_ok(j, "vocalMax"@)
    &&& i32_ok(j, "vocalMinAwakened"@)
    &&& i32_ok(j, "vocalMaxAwakened"@)
    &&& i32_ok(j, "vocalMasterBonus"@)
    &&& i32_ok(j, "danceMin"@)
    &&& i32_ok(j, "danceMax"@)
    &&& i32_ok(j, "danceMinAwakened"@)
    &&& i32_ok(j, "danceMaxAwakened"@)
    &&& i32_ok(j, "danceMasterBonus"@)
    &&& i32_ok(j, "visualMin"@)
    &&& i32_ok(j, "visualMax"@)
    &&& i32_ok(j, "visualMinAwakened"@)
    &&& i32_ok(j, "visualMaxAwakened"@)
    &&& i32_ok(j, "visualMasterBonus"@)
    &&& i32_ok(j, "life"@)
    &&& i32_ok(j, "masterRankMax"@)
    &&& match obj_field(j, "centerEffect"@) {
        None => true,
        Some(f) => f is Null || center_effect_ok(f),
    }
    &&& opt_str_ok(j, "centerEffectName"@)
    &&& skills_ok(j, "skill"@)
    &&& opt_str_ok(j, "addDate"@)
}

/// The card a conforming node decodes to, field by field.
pub open spec fn card_matches(c: Card, j: JVal) -> bool {
    &&& i32_is(j, "id"@, c.id)
    &&& str_is(j, "name"@, c.name@)
    &&& i32_is(j, "sortId"@, c.sort_id)
    &&& i32_is(j, "idolId"@, c.idol_id)
    &&& int_field(j, "idolType"@) matches Some(i) && IdolType::spec_from_code(i) == Some(
        c.idol_type,
    )
    &&& str_is(j, "resourceId"@, c.resource_id@)
    &&& int_field(j, "rarity"@) matches Some(i) && Rarity::spec_from_code(i) == Some(c.rarity)
    &&& opt_i32_is(j, "eventId"@, c.event_id)
    &&& str_field(j, "category"@) matches Some(s) && Category::spec_from_wire(s) == Some(
        c.category,
    )
    &&& int_field(j, "extraType"@) matches Some(i) && ExtraType::spec_from_code(i) == Some(
        c.extra_type,
    )
    &&& opt_costume_is(j, "costume"@, c.costume)
    &&& opt_costume_is(j, "bonusCostume"@, c.bonus_costume)
    &&& opt_costume_is(j, "rank5Costume"@, c.rank5_costume)
    &&& opt_str_is(j, "flavorText"@, c.flavor_text)
    &&& opt_str_is(j, "flavorTextAwakened"@, c.flavor_text_awakened)
    &&& i32_is(j, "levelMax"@, c.level_max)
    &&& i32_is(j, "levelMaxAwakened"@, c.level_max_awakened)
    &&& i32_is(j, "vocalMin"@, c.vocal_min)
    &&& i32_is(j, "vocalMax"@, c.vocal_max)
    &&& i32_is(j, "vocalMinAwakened"@, c.vocal_min_awakened)
    &&& i32_is(j, "vocalMaxAwakened"@, c.vocal_max_awakened)
    &&& i32_is(j, "vocalMasterBonus"@, c.vocal_master_bonus)
    &&& i32_is(j, "danceMin"@, c.dance_min)
    &&& i32_is(j, "danceMax"@, c.dance_max)
    &&& i32_is(j, "danceMinAwakened"@, c.dance_min_awakened)
    &&& i32_is(j, "danceMaxAwakened"@, c.dance_max_awakened)
    &&& i32_is(j, "danceMasterBonus"@, c.dance_master_bonus)
    &&& i32_is(j, "visualMin"@, c.visual_min)
    &&& i32_is(j, "visualMax"@, c.visual_max)
    &&& i32_is(j, "visualMinAwakened"@, c.visual_min_awakened)
    &&& i32_is(j, "visualMaxAwakened"@, c.visual_max_awakened)
    &&& i32_is(j, "visualMasterBonus"@, c.visual_master_bonus)
    &&& i32_is(j, "life"@, c.life)
    &&& i32_is(j, "masterRankMax"@, c.master_rank_max)
    &&& match c.center_effect {
        Some(ce) => obj_field(j, "centerEffect"@) matches Some(f) && center_effect_matches(ce, f),
        None => field_absent(j, "centerEffect"@),
    }
    &&& opt_str_is(j, "centerEffectName"@, c.center_effect_name)
    &&& skills_is(j, "skill"@, c.skill)
    &&& opt_str_is(j, "addDate"@, c.add_date)
}

pub(crate) fn decode_card(v: &serde_json::Value) -> (r: Result<Card, ()>)
    ensures
        r matches Ok(c) ==> card_ok(jval_of(*v)) && card_matches(c, jval_of(*v)),
        r is Err ==> !card_ok(jval_of(*v)),
{
    let id = match get_i32(v, "id") {
        Some(x) => x,
        None => {
            return Err(());
        },
    };
    let name = match get_string(v, "name") {
        Some(x) => x,
        None => {
            return Err(());
        },
    };
    let sort_id = match get_i32(v, "sortId") {
        Some(x) => x,
        None => {
            return Err(());
        },
    };
    let idol_id = match get_i32(v, "idolId") {
        Some(x) => x,
        None => {
            return Err(());
        },
    };
    let idol_type = match decode_idol_type(v, "idolType") {
        Ok(t) => t,
        Err(()) => {
            return Err(());
        },
    };
    let resource_id = match get_string(v, "resourceId") {
        Some(x) => x,
        None => {
            return Err(());
        },
    };
    let rarity = match get_i32(v, "rarity") {
        Some(c) => match Rarity::from_code(c) {
            Some(t) => t,
            None => {
                return Err(());
            },
        },
        None => {
            return Err(());
        },
    };
    let event_id = match get_opt_i32(v, "eventId") {
        Ok(x) => x,
        Err(()) => {
            return Err(());
        },
    };
    let category = match get_string(v, "category") {
        Some(s) => match Category::from_wire(s.as_str()) {
            Some(t) => t,
            None => {
                return Err(());
            },
        },
        None => {
            return Err(());
        },
    };
    let extra_type = match get_i32(v, "extraType") {
        Some(c) => match ExtraType::from_code(c) {
            Some(t) => t,
            None => {
                return Err(());
            },
        },
        None => {
            return Err(());
        },
    };
    let costume = match decode_opt_costume(v, "costume") {
        Ok(x) => x,
        Err(()) => {
            return Err(());
        },
    };
    let bonus_costume = match decode_opt_costume(v, "bonusCostume") {
        Ok(x) => x,
        Err(()) => {
            return Err(());
        },
    };
    let rank5_costume = match decode_opt_costume(v, "rank5Costume") {
        Ok(x) => x,
        Err(()) => {
            return Err(());
        },
    };
    let flavor_text = match get_opt_string(v, "flavorText") {
        Ok(x) => x,
        Err(()) => {
            return Err(());
        },
    };
    let flavor_text_awakened = match get_opt_string(v, "flavorTextAwakened") {
        Ok(x) => x,
        Err(()) => {
            return Err(());
        },
    };
    let level_max = match get_i32(v, "levelMax") {
        Some(x) => x,
        None => {
            return Err(());
        },
    };
    let level_max_awakened = match get_i32(v, "levelMaxAwakened") {
        Some(x) => x,
        None => {
            return Err(());
        },
    };
    let vocal_min = match get_i32(v, "vocalMin") {
        Some(x) => x,
        None => {
            return Err(());
        },
    };
    let vocal_max = match get_i32(v, "vocalMax") {
        Some(x) => x,
        None => {
            return Err(());
        },
    };
    let vocal_min_awakened = match get_i32(v, "vocalMinAwakened") {
        Some(x) => x,
        None => {
            return Err(());
        },
    };
    let vocal_max_awakened = match get_i32(v, "vocalMaxAwakened") {
        Some(x) => x,
        None => {
            return Err(());
        },
    };
    let vocal_master_bonus = match get_i32(v, "vocalMasterBonus") {
        Some(x) => x,
        None => {
            return Err(());
        },
    };
    let dance_min = match get_i32(v, "danceMin") {
        Some(x) => x,
        None => {
            return Err(());
        },
    };
    let dance_max = match get_i32(v, "danceMax") {
        Some(x) => x,
        None => {
            return Err(());
        },
    };
    let dance_min_awakened = match get_i32(v, "danceMinAwakened") {
        Some(x) => x,
        None => {
            return Err(());
        },
    };
    let dance_max_awakened = match get_i32(v, "danceMaxAwakened") {
        Some(x) => x,
        None => {
            return Err(());
        },
    };
    let dance_master_bonus = match get_i32(v, "danceMasterBonus") {
        Some(x) => x,
        None => {
            return Err(());
        },
    };
    let visual_min = match get_i32(v, "visualMin") {
        Some(x) => x,
        None => {
            return Err(());
        },
    };
    let visual_max = match get_i32(v, "visualMax") {
        Some(x) => x,
        None => {
            return Err(());
        },
    };
    let visual_min_awakened = match get_i32(v, "visualMinAwakened") {
        Some(x) => x,
        None => {
            return Err(());
        },
    };
    let visual_max_awakened = match get_i32(v, "visualMaxAwakened") {
        Some(x) => x,
        None => {
            return Err(());
        },
    };
    let visual_master_bonus = match get_i32(v, "visualMasterBonus") {
        Some(x) => x,
        None => {
            return Err(());
        },
    };
    let life = match get_i32(v, "life") {
        Some(x) => x,
        None => {
            return Err(());
        },
    };
    let master_rank_max = match get_i32(v, "masterRankMax") {
        Some(x) => x,
        None => {
            return Err(());
        },
    };
    let center_effect = match get_field(v, "centerEffect") {
        None => None,
        Some(f) => if jv_is_null(f) {
            None
        } else {
            match decode_center_effect(f) {
                Ok(ce) => Some(ce),
                Err(()) => {
                    return Err(());
                },
            }
        },
    };
    let center_effect_name = match get_opt_string(v, "centerEffectName") {
        Ok(x) => x,
        Err(()) => {
            return Err(());
        },
    };
    let skill = match decode_skill_list(v, "skill") {
        Ok(x) => x,
        Err(()) => {
            return Err(());
        },
    };
    let add_date = match get_opt_string(v, "addDate") {
        Ok(x) => x,
        Err(()) => {
            return Err(());
        },
    };
    Ok(
        Card {
            id,
            name,
            sort_id,
            idol_id,
            idol_type,
            resource_id,
            rarity,
            event_id,
            category,
            extra_type,
            costume,
            bonus_costume,
            rank5_costume,
            flavor_text,
            flavor_text_awakened,
            level_max,
            level_max_awakened,
            vocal_min,
            vocal_max,
            vocal_min_awakened,
            vocal_max_awakened,
            vocal_master_bonus,
            dance_min,
            dance_max,
            dance_min_awakened,
            dance_max_awakened,
            dance_master_bonus,
            visual_min,
            visual_max,
            visual_min_awakened,
            visual_max_awakened,
            visual_master_bonus,
            life,
            master_rank_max,
            center_effect,
            center_effect_name,
            skill,
            add_date,
        },
    )
}

/// A conforming catalog response: an array of conforming card objects.
pub open spec fn catalog_ok(j: JVal) -> bool {
    j matches JVal::Arr(s) && (forall|i: int| 0 <= i < s.len() ==> card_ok(#[trigger] s[i]))
}

/// The cards a conforming catalog decodes to, in the order the service
/// returned them.
pub open spec fn cards_match(cards: Seq<Card>, j: JVal) -> bool {
    j matches JVal::Arr(s) && cards.len() == s.len() && (forall|i: int|
        0 <= i < s.len() ==> card_matches(#[trigger] cards[i], s[i]))
}

pub(crate) fn decode_cards(v: &serde_json::Value) -> (r: Result<Vec<Card>, ()>)
    ensures
        r matches Ok(cs) ==> catalog_ok(jval_of(*v)) && cards_match(cs@, jval_of(*v)),
        r is Err ==> !catalog_ok(jval_of(*v)),
{
    let arr = match jv_as_array(v) {
        Some(a) => a,
        None => {
            return Err(());
        },
    };
    let ghost s = jval_of(*v)->Arr_0;
    let mut out: Vec<Card> = Vec::new();
    let mut i: usize = 0;
    while i < arr.len()
        invariant
            0 <= i <= arr.len(),
            jval_of(*v) == JVal::Arr(s),
            arr@.len() == s.len(),
            forall|k: int| 0 <= k < s.len() ==> jval_of(#[trigger] arr@[k]) == s[k],
            out@.len() == i,
            forall|k: int| 0 <= k < i ==> card_ok(#[trigger] s[k]),
            forall|k: int| 0 <= k < i ==> card_matches(#[trigger] out@[k], s[k]),
        decreases arr.len() - i,
    {
        match decode_card(&arr[i]) {
            Ok(c) => {
                out.push(c);
            },
            Err(()) => {
                proof {
                    assert(jval_of(*v)->Arr_0 == s);
                    assert(!card_ok(jval_of(*v)->Arr_0[i as int]));
                    assert(!catalog_ok(jval_of(*v)));
                }
                return Err(());
            },
        }
        i += 1;
    }
    Ok(out)
}

/// Every decoded card carries exactly the idol identifier and rarity its
/// catalog entry holds: when every entry of the response names one idol and
/// one rarity, every returned card does too.
pub proof fn lemma_cards_reflect_fields(cards: Seq<Card>, j: JVal, idol: i32, rar: Rarity)
    requires
        cards_match(cards, j),
        forall|i: int|
            0 <= i < j->Arr_0.len() ==> int_field(#[trigger] j->Arr_0[i], "idolId"@) == Some(
                idol as int,
            ),
        forall|i: int|
            0 <= i < j->Arr_0.len() ==> int_field(#[trigger] j->Arr_0[i], "rarity"@) == Some(
                rar.code_spec(),
            ),
    ensures
        forall|i: int|
            0 <= i < cards.len() ==> (#[trigger] cards[i]).idol_id == idol && cards[i].rarity
                == rar,
{
    let s = j->Arr_0;
    assert forall|i: int|
        0 <= i < cards.len() implies (#[trigger] cards[i]).idol_id == idol && cards[i].rarity
        == rar by {
        assert(card_matches(cards[i], s[i]));
        assert(int_field(s[i], "idolId"@) == Some(idol as int));
        assert(int_field(s[i], "rarity"@) == Some(rar.code_spec()));
        crate::model::lemma_rarity_round_trip(rar);
    }
}

/// A card entry whose optional fields are all absent or null decodes to a
/// card whose optional fields are all empty, never to defaulted sentinels.
pub proof fn lemma_absent_optionals_decode_empty(c: Card, j: JVal)
    requires
        card_matches(c, j),
        field_absent(j, "eventId"@),
        field_absent(j, "costume"@),
        field_absent(j, "bonusCostume"@),
        field_absent(j, "rank5Costume"@),
        field_absent(j, "flavorText"@),
        field_absent(j, "flavorTextAwakened"@),
        field_absent(j, "centerEffect"@),
        field_absent(j, "centerEffectName"@),
        field_absent(j, "skill"@),
        field_absent(j, "addDate"@),
    ensures
        c.event_id is None,
        c.costume is None,
        c.bonus_costume is None,
        c.rank5_costume is None,
        c.flavor_text is None,
        c.flavor_text_awakened is None,
        c.center_effect is None,
        c.center_effect_name is None,
        c.skill is None,
        c.add_date is None,
{
}

} // verus!

