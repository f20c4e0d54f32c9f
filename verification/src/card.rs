//! Card-catalog queries and image-URL resolution: the filter type and its
//! query-parameter derivation, the visual-variant lookup table, and the CDN
//! URL derivation.

use vstd::prelude::*;

use crate::decode::cards_match;
use crate::decode::catalog_ok;
use crate::decode::decode_cards;
use crate::error::FetchError;
use crate::error::Operation;
use crate::json::json_of;
use crate::json::parse_value;
use crate::model::Card;
use crate::model::Rarity;
use crate::text::dec_int;
use crate::text::i32_to_string;

verus! {

use vstd::string::StringExecFns;

/// A filter over the card catalog. A field left `None` (or an empty list)
/// puts no constraint on that dimension; a non-empty list selects the union
/// of its values.
pub struct CardOption {
    pub idol_id: Option<Vec<i32>>,
    pub rarity: Option<Vec<Rarity>>,
    pub extra_type: Option<Vec<QueryExtraType>>,
}

/// Extra-type selector of a catalog query, carried as a lowercase variant
/// name in the query string.
#[derive(Debug, Clone, Copy, PartialEq, Eq, Structural)]
pub enum QueryExtraType {
    NoExtra,
    Pst,
    Pstr,
    Pstp,
    Fes,
    Aniv,
    FirstAniv,
    SecondAniv,
    Extra,
}

impl QueryExtraType {
    /// The lowercase name used as a query-parameter value.
    pub open spec fn query_name_spec(self) -> Seq<char> {
        match self {
            QueryExtraType::NoExtra => "none"@,
            QueryExtraType::Pst => "pst"@,
            QueryExtraType::Pstr => "pstr"@,
            QueryExtraType::Pstp => "pstp"@,
            QueryExtraType::Fes => "fes"@,
            QueryExtraType::Aniv => "aniv"@,
            QueryExtraType::FirstAniv => "firstaniv"@,
            QueryExtraType::SecondAniv => "secondaniv"@,
            QueryExtraType::Extra => "extra"@,
        }
    }

    /// The lowercase name used as a query-parameter value.
    pub fn query_name(&self) -> (r: &'static str)
        ensures
            r@ == self.query_name_spec(),
    {
        match self {
            QueryExtraType::NoExtra => "none",
            QueryExtraType::Pst => "pst",
            QueryExtraType::Pstr => "pstr",
            QueryExtraType::Pstp => "pstp",
            QueryExtraType::Fes => "fes",
            QueryExtraType::Aniv => "aniv",
            QueryExtraType::FirstAniv => "firstaniv",
            QueryExtraType::SecondAniv => "secondaniv",
            QueryExtraType::Extra => "extra",
        }
    }
}

/// The list a filter field selects: its values when present, nothing when
/// absent.
pub open spec fn opt_values<T>(o: Option<Vec<T>>) -> Seq<T> {
    match o {
        Some(v) => v@,
        None => Seq::empty(),
    }
}

/// The query parameters a filter derives to: one `idolId` pair per selected
/// idol identifier, then one `rarity` pair per selected rarity, then one
/// `extraType` pair per selected extra type.
pub fn query_params(option: &CardOption) -> (r: Vec<(String, String)>)
    ensures
        r@.len() == opt_values(option.idol_id).len() + opt_values(option.rarity).len()
            + opt_values(option.extra_type).len(),
        forall|i: int|
            0 <= i < opt_values(option.idol_id).len() ==> (#[trigger] r@[i]).0@ == "idolId"@
                && r@[i].1@ == dec_int(opt_values(option.idol_id)[i] as int),
        forall|i: int|
            0 <= i < opt_values(option.rarity).len() ==> (#[trigger] r@[opt_values(
                option.idol_id,
            ).len() + i]).0@ == "rarity"@
                && r@[opt_values(option.idol_id).len() + i].1@ == opt_values(
                option.rarity,
            )[i].query_name_spec(),
        forall|i: int|
            0 <= i < opt_values(option.extra_type).len() ==> (#[trigger] r@[opt_values(
                option.idol_id,
            ).len() + opt_values(option.rarity).len() + i]).0@ == "extraType"@
                && r@[opt_values(option.idol_id).len() + opt_values(option.rarity).len() + i].1@
                == opt_values(option.extra_type)[i].query_name_spec(),
{
    let mut r: Vec<(String, String)> = Vec::new();
    if let Some(ids) = &option.idol_id {
        let mut i: usize = 0;
        while i < ids.len()
            invariant
                0 <= i <= ids.len(),
                option.idol_id matches Some(v) && v@ == ids@,
                r@.len() == i,
                forall|k: int|
                    0 <= k < i ==> (#[trigger] r@[k]).0@ == "idolId"@ && r@[k].1@ == dec_int(
                        ids@[k] as int,
                    ),
            decreases ids.len() - i,
        {
            r.push(("idolId".to_owned(), i32_to_string(ids[i])));
            i += 1;
        }
    }
    let base_i: usize = r.len();
    if let Some(rars) = &option.rarity {
        let mut i: usize = 0;
        while i < rars.len()
            invariant
                0 <= i <= rars.len(),
                option.rarity matches Some(v) && v@ == rars@,
                r@.len() == base_i + i,
                base_i == opt_values(option.idol_id).len(),
                forall|k: int|
                    0 <= k < base_i ==> (#[trigger] r@[k]).0@ == "idolId"@ && r@[k].1@ == dec_int(
                        opt_values(option.idol_id)[k] as int,
                    ),
                forall|k: int|
                    0 <= k < i ==> (#[trigger] r@[base_i + k]).0@ == "rarity"@ && r@[base_i + k].1@
                        == rars@[k].query_name_spec(),
            decreases rars.len() - i,
        {
            r.push(("rarity".to_owned(), rars[i].query_name().to_owned()));
            i += 1;
        }
    }
    let base_r: usize = r.len();
    if let Some(exts) = &option.extra_type {
        let mut i: usize = 0;
        while i < exts.len()
            invariant
                0 <= i <= exts.len(),
                option.extra_type matches Some(v) && v@ == exts@,
                r@.len() == base_r + i,
                base_r == opt_values(option.idol_id).len() + opt_values(option.rarity).len(),
                forall|k: int|
                    0 <= k < opt_values(option.idol_id).len() ==> (#[trigger] r@[k]).0@
                        == "idolId"@ && r@[k].1@ == dec_int(opt_values(option.idol_id)[k] as int),
                forall|k: int|
                    0 <= k < opt_values(option.rarity).len() ==> (#[trigger] r@[opt_values(
                        option.idol_id,
                    ).len() + k]).0@ == "rarity"@
                        && r@[opt_values(option.idol_id).len() + k].1@ == opt_values(
                        option.rarity,
                    )[k].query_name_spec(),
                forall|k: int|
                    0 <= k < i ==> (#[trigger] r@[base_r + k]).0@ == "extraType"@ && r@[base_r
                        + k].1@ == exts@[k].query_name_spec(),
            decreases exts.len() - i,
        {
            r.push(("extraType".to_owned(), exts[i].query_name().to_owned()));
            i += 1;
        }
    }
    r
}

/// The card-catalog endpoint queried with the derived parameters.
pub fn cards_endpoint() -> (r: &'static str)
    ensures
        r@ == "https://api.matsurihi.me/mltd/v1/cards"@,
{
    "https://api.matsurihi.me/mltd/v1/cards"
}

/// One of the six presentation forms of a card's artwork.
#[derive(Debug, Clone, Copy, PartialEq, Eq, Structural)]
pub enum CardType {
    FrameNoAwakend,
    NoFrameNoAwakend,
    FrameAwakened,
    NoFrameAwakened,
    BgNoFrameNoAwakend,
    BgNoFrameAwakened,
}

impl CardType {
    /// The filename suffix of this variant; an irregular lookup table, not a
    /// formula.
    pub open spec fn suffix_spec(self) -> Seq<char> {
        match self {
            CardType::FrameAwakened => "_0_a"@,
            CardType::FrameNoAwakend => "_0_b"@,
            CardType::NoFrameAwakened => "_1_a"@,
            CardType::NoFrameNoAwakend => "_1_b"@,
            CardType::BgNoFrameNoAwakend => "_0"@,
            CardType::BgNoFrameAwakened => "_1"@,
        }
    }

    /// The CDN path subdirectory of this variant.
    pub open spec fn path_subdir_spec(self) -> Seq<char> {
        match self {
            CardType::FrameAwakened => "card"@,
            CardType::FrameNoAwakend => "card"@,
            CardType::NoFrameAwakened => "card"@,
            CardType::NoFrameNoAwakend => "card"@,
            CardType::BgNoFrameNoAwakend => "card_bg"@,
            CardType::BgNoFrameAwakened => "card_bg"@,
        }
    }

    /// The filename suffix of this variant.
    pub fn suffix(&self) -> (r: &'static str)
        ensures
            r@ == self.suffix_spec(),
    {
        match self {
            CardType::FrameAwakened => "_0_a",
            CardType::FrameNoAwakend => "_0_b",
            CardType::NoFrameAwakened => "_1_a",
            CardType::NoFrameNoAwakend => "_1_b",
            CardType::BgNoFrameNoAwakend => "_0",
            CardType::BgNoFrameAwakened => "_1",
        }
    }

    /// The CDN path subdirectory of this variant.
    pub fn path_subdir(&self) -> (r: &'static str)
        ensures
            r@ == self.path_subdir_spec(),
    {
        match self {
            CardType::FrameAwakened => "card",
            CardType::FrameNoAwakend => "card",
            CardType::NoFrameAwakened => "card",
            CardType::NoFrameNoAwakend => "card",
            CardType::BgNoFrameNoAwakend => "card_bg",
            CardType::BgNoFrameAwakened => "card_bg",
        }
    }

    /// The human-readable label of this variant.
    pub open spec fn label_spec(self) -> Seq<char> {
        match self {
            CardType::FrameAwakened => "覚醒後・枠有"@,
            CardType::FrameNoAwakend => "覚醒前・枠有"@,
            CardType::NoFrameAwakened => "覚醒後・枠無"@,
            CardType::NoFrameNoAwakend => "覚醒前・枠無"@,
            CardType::BgNoFrameAwakened => "覚醒後"@,
            CardType::BgNoFrameNoAwakend => "覚醒前"@,
        }
    }

    /// The human-readable label of this variant.
    pub fn label(&self) -> (r: &'static str)
        ensures
            r@ == self.label_spec(),
    {
        match self {
            CardType::FrameAwakened => "覚醒後・枠有",
            CardType::FrameNoAwakend => "覚醒前・枠有",
            CardType::NoFrameAwakened => "覚醒後・枠無",
            CardType::NoFrameNoAwakend => "覚醒前・枠無",
            CardType::BgNoFrameAwakened => "覚醒後",
            CardType::BgNoFrameNoAwakend => "覚醒前",
        }
    }
}

/// The visual-variant lookup table, written out pair by pair: each of the
/// six variants maps to exactly the documented (suffix, subdirectory) pair.
pub proof fn lemma_variant_table(t: CardType)
    ensures
        t is FrameAwakened ==> t.suffix_spec() == "_0_a"@ && t.path_subdir_spec() == "card"@,
        t is FrameNoAwakend ==> t.suffix_spec() == "_0_b"@ && t.path_subdir_spec() == "card"@,
        t is NoFrameAwakened ==> t.suffix_spec() == "_1_a"@ && t.path_subdir_spec() == "card"@,
        t is NoFrameNoAwakend ==> t.suffix_spec() == "_1_b"@ && t.path_subdir_spec() == "card"@,
        t is BgNoFrameNoAwakend ==> t.suffix_spec() == "_0"@ && t.path_subdir_spec() == "card_bg"@,
        t is BgNoFrameAwakened ==> t.suffix_spec() == "_1"@ && t.path_subdir_spec() == "card_bg"@,
{
}

/// The CDN URL an artwork request resolves to: the CDN origin, the variant's
/// subdirectory, then `<resource identifier><suffix>.png`.
pub open spec fn image_url_spec(resource_id: Seq<char>, t: CardType) -> Seq<char> {
    "https://storage.matsurihi.me/mltd/"@ + t.path_subdir_spec() + "/"@ + resource_id
        + t.suffix_spec() + ".png"@
}

/// Builds the CDN URL for one card's artwork in one visual variant.
pub fn image_url(resource_id: &str, card_type: &CardType) -> (r: String)
    ensures
        r@ == image_url_spec(resource_id@, *card_type),
{
    let mut s = String::new();
    s.append("https://storage.matsurihi.me/mltd/");
    s.append(card_type.path_subdir());
    s.append("/");
    s.append(resource_id);
    s.append(card_type.suffix());
    s.append(".png");
    proof {
        assert(s@ =~= image_url_spec(resource_id@, *card_type));
    }
    s
}

/// Turns a catalog response into the list of cards it carries. A status
/// other than 200 is a transport error naming the attempted URL and the
/// status, whatever the body holds; a body that is not a conforming catalog
/// is a decoding error; otherwise the result is exactly the decoded cards,
/// in the service's order.
pub fn parse_cards_response(url: &str, status: u16, body: &[u8]) -> (r: Result<
    Vec<Card>,
    FetchError,
>)
    ensures
        status != 200 ==> (r matches Err(e) && e matches FetchError::Transport {
            url: u,
            status: st,
        } && u@ == url@ && st == Some(status)),
        status == 200 ==> (match json_of(body@) {
            Some(j) => if catalog_ok(j) {
                r matches Ok(cards) && cards_match(cards@, j)
            } else {
                r matches Err(e) && e matches FetchError::Decoding { operation } && operation
                    == Operation::CardCatalog
            },
            None => (r matches Err(e) && e matches FetchError::Decoding { operation } && operation
                == Operation::CardCatalog),
        }),
{
    if status != 200 {
        return Err(FetchError::Transport { url: url.to_owned(), status: Some(status) });
    }
    match parse_value(body) {
        None => Err(FetchError::Decoding { operation: Operation::CardCatalog }),
        Some(doc) => match decode_cards(&doc) {
            Ok(cards) => Ok(cards),
            Err(()) => Err(FetchError::Decoding { operation: Operation::CardCatalog }),
        },
    }
}

/// Turns a CDN image response into the raw image bytes. A status other than
/// 200 is a transport error naming the resolved URL and the status; on 200
/// the result is exactly the response body, untouched.
pub fn image_response(url: &str, status: u16, body: Vec<u8>) -> (r: Result<Vec<u8>, FetchError>)
    ensures
        status == 200 ==> (r matches Ok(b) && b@ == body@),
        status != 200 ==> (r matches Err(e) && e matches FetchError::Transport {
            url: u,
            status: st,
        } && u@ == url@ && st == Some(status)),
{
    if status == 200 {
        Ok(body)
    } else {
        Err(FetchError::Transport { url: url.to_owned(), status: Some(status) })
    }
}

} // verus!
