//! The card data model: the entities the catalog service returns and the
//! closed enumerations they use, each with its explicit bidirectional
//! wire-code table.
//!
//! The wire format is owned by the service, not by this crate, so every
//! enumeration carries its documented small-integer (or lowercase-string)
//! code as an explicit table: a `code`/`from_code` pair whose round-trip
//! fidelity is proved below.

use vstd::prelude::*;

verus! {

/// Idol-type classification of a card or effect.
#[derive(Debug, Clone, Copy, PartialEq, Eq, Structural)]
pub enum IdolType {
    Princess,
    Fairy,
    Angel,
    All,
    Ex,
}

impl IdolType {
    /// The documented wire code of this classification.
    pub open spec fn code_spec(self) -> int {
        match self {
            IdolType::Princess => 1,
            IdolType::Fairy => 2,
            IdolType::Angel => 3,
            IdolType::All => 4,
            IdolType::Ex => 5,
        }
    }

    /// The classification a wire code stands for, if any.
    pub open spec fn spec_from_code(c: int) -> Option<IdolType> {
        if c == 1 {
            Some(IdolType::Princess)
        } else if c == 2 {
            Some(IdolType::Fairy)
        } else if c == 3 {
            Some(IdolType::Angel)
        } else if c == 4 {
            Some(IdolType::All)
        } else if c == 5 {
            Some(IdolType::Ex)
        } else {
            None
        }
    }

    pub fn code(&self) -> (r: i32)
        ensures
            r as int == self.code_spec(),
    {
        match self {
            IdolType::Princess => 1,
            IdolType::Fairy => 2,
            IdolType::Angel => 3,
            IdolType::All => 4,
            IdolType::Ex => 5,
        }
    }

    pub fn from_code(c: i32) -> (r: Option<IdolType>)
        ensures
            r == IdolType::spec_from_code(c as int),
    {
        if c == 1 {
            Some(IdolType::Princess)
        } else if c == 2 {
            Some(IdolType::Fairy)
        } else if c == 3 {
            Some(IdolType::Angel)
        } else if c == 4 {
            Some(IdolType::All)
        } else if c == 5 {
            Some(IdolType::Ex)
        } else {
            None
        }
    }
}

/// Decoding an idol-type code that `code` produced gives the value back.
pub proof fn lemma_idol_type_round_trip(t: IdolType)
    ensures
        IdolType::spec_from_code(t.code_spec()) == Some(t),
{
}

/// Every accepted idol-type code encodes back to itself.
pub proof fn lemma_idol_type_code_faithful(c: int)
    ensures
        IdolType::spec_from_code(c) matches Some(t) ==> t.code_spec() == c,
{
}

/// Rarity tier of a card, ordered N < R < SR < SSR on the wire codes.
#[derive(Debug, Clone, Copy, PartialEq, Eq, Structural)]
pub enum Rarity {
    N,
    R,
    SR,
    SSR,
}

impl Rarity {
    /// The documented wire code of this tier.
    pub open spec fn code_spec(self) -> int {
        match self {
            Rarity::N => 1,
            Rarity::R => 2,
            Rarity::SR => 3,
            Rarity::SSR => 4,
        }
    }

    /// The tier a wire code stands for, if any.
    pub open spec fn spec_from_code(c: int) -> Option<Rarity> {
        if c == 1 {
            Some(Rarity::N)
        } else if c == 2 {
            Some(Rarity::R)
        } else if c == 3 {
            Some(Rarity::SR)
        } else if c == 4 {
            Some(Rarity::SSR)
        } else {
            None
        }
    }

    /// The lowercase display form used as a query-parameter value.
    pub open spec fn query_name_spec(self) -> Seq<char> {
        match self {
            Rarity::N => "n"@,
            Rarity::R => "r"@,
            Rarity::SR => "sr"@,
            Rarity::SSR => "ssr"@,
        }
    }

    pub fn code(&self) -> (r: i32)
        ensures
            r as int == self.code_spec(),
    {
        match self {
            Rarity::N => 1,
            Rarity::R => 2,
            Rarity::SR => 3,
            Rarity::SSR => 4,
        }
    }

    pub fn from_code(c: i32) -> (r: Option<Rarity>)
        ensures
            r == Rarity::spec_from_code(c as int),
    {
        if c == 1 {
            Some(Rarity::N)
        } else if c == 2 {
            Some(Rarity::R)
        } else if c == 3 {
            Some(Rarity::SR)
        } else if c == 4 {
            Some(Rarity::SSR)
        } else {
            None
        }
    }

    /// The lowercase display form used as a query-parameter value.
    pub fn query_name(&self) -> (r: &'static str)
        ensures
            r@ == self.query_name_spec(),
    {
        match self {
            Rarity::N => "n",
            Rarity::R => "r",
            Rarity::SR => "sr",
            Rarity::SSR => "ssr",
        }
    }
}

/// The rarity display table: for every tier, the lowercase display form
/// used in query parameters is exactly the documented literal.
pub proof fn lemma_rarity_query_names(t: Rarity)
    ensures
        t is N ==> t.query_name_spec() == "n"@,
        t is R ==> t.query_name_spec() == "r"@,
        t is SR ==> t.query_name_spec() == "sr"@,
        t is SSR ==> t.query_name_spec() == "ssr"@,
{
}

/// Decoding a rarity code that `code` produced gives the value back.
pub proof fn lemma_rarity_round_trip(t: Rarity)
    ensures
        Rarity::spec_from_code(t.code_spec()) == Some(t),
{
}

/// Every accepted rarity code encodes back to itself.
pub proof fn lemma_rarity_code_faithful(c: int)
    ensures
        Rarity::spec_from_code(c) matches Some(t) ==> t.code_spec() == c,
{
}

/// Acquisition-channel classification, carried as a lowercase string on the
/// wire.
#[derive(Debug, Clone, Copy, PartialEq, Eq, Structural)]
pub enum Category {
    Normal1,
    Gasha0,
    Gasha1,
    Gasha2,
    Gasha4,
    Gasha5,
    Event0,
    Event1,
    Event2,
    Event3,
    Event4,
    Event5,
    Other,
}

impl Category {
    /// The documented wire string of this category.
    pub open spec fn wire_name_spec(self) -> Seq<char> {
        match self {
            Category::Normal1 => "normal1"@,
            Category::Gasha0 => "gasha0"@,
            Category::Gasha1 => "gasha1"@,
            Category::Gasha2 => "gasha2"@,
            Category::Gasha4 => "gasha4"@,
            Category::Gasha5 => "gasha5"@,
            Category::Event0 => "event0"@,
            Category::Event1 => "event1"@,
            Category::Event2 => "event2"@,
            Category::Event3 => "event3"@,
            Category::Event4 => "event4"@,
            Category::Event5 => "event5"@,
            Category::Other => "other"@,
        }
    }

    /// The category a wire string stands for, if any.
    pub open spec fn spec_from_wire(s: Seq<char>) -> Option<Category> {
        if s == "normal1"@ {
            Some(Category::Normal1)
        } else if s == "gasha0"@ {
            Some(Category::Gasha0)
        } else if s == "gasha1"@ {
            Some(Category::Gasha1)
        } else if s == "gasha2"@ {
            Some(Category::Gasha2)
        } else if s == "gasha4"@ {
            Some(Category::Gasha4)
        } else if s == "gasha5"@ {
            Some(Category::Gasha5)
        } else if s == "event0"@ {
            Some(Category::Event0)
        } else if s == "event1"@ {
            Some(Category::Event1)
        } else if s == "event2"@ {
            Some(Category::Event2)
        } else if s == "event3"@ {
            Some(Category::Event3)
        } else if s == "event4"@ {
            Some(Category::Event4)
        } else if s == "event5"@ {
            Some(Category::Event5)
        } else if s == "other"@ {
            Some(Category::Other)
        } else {
            None
        }
    }

    /// The documented wire string of this category.
    pub fn wire_name(&self) -> (r: &'static str)
        ensures
            r@ == self.wire_name_spec(),
    {
        match self {
            Category::Normal1 => "normal1",
            Category::Gasha0 => "gasha0",
            Category::Gasha1 => "gasha1",
            Category::Gasha2 => "gasha2",
            Category::Gasha4 => "gasha4",
            Category::Gasha5 => "gasha5",
            Category::Event0 => "event0",
            Category::Event1 => "event1",
            Category::Event2 => "event2",
            Category::Event3 => "event3",
            Category::Event4 => "event4",
            Category::Event5 => "event5",
            Category::Other => "other",
        }
    }

    /// Parses a wire string back into the category it stands for.
    pub fn from_wire(s: &str) -> (r: Option<Category>)
        ensures
            r == Category::spec_from_wire(s@),
    {
        if crate::text::str_eq(s, "normal1") {
            Some(Category::Normal1)
        } else if crate::text::str_eq(s, "gasha0") {
            Some(Category::Gasha0)
        } else if crate::text::str_eq(s, "gasha1") {
            Some(Category::Gasha1)
        } else if crate::text::str_eq(s, "gasha2") {
            Some(Category::Gasha2)
        } else if crate::text::str_eq(s, "gasha4") {
            Some(Category::Gasha4)
        } else if crate::text::str_eq(s, "gasha5") {
            Some(Category::Gasha5)
        } else if crate::text::str_eq(s, "event0") {
            Some(Category::Event0)
        } else if crate::text::str_eq(s, "event1") {
            Some(Category::Event1)
        } else if crate::text::str_eq(s, "event2") {
            Some(Category::Event2)
        } else if crate::text::str_eq(s, "event3") {
            Some(Category::Event3)
        } else if crate::text::str_eq(s, "event4") {
            Some(Category::Event4)
        } else if crate::text::str_eq(s, "event5") {
            Some(Category::Event5)
        } else if crate::text::str_eq(s, "other") {
            Some(Category::Other)
        } else {
            None
        }
    }
}

/// Parsing the wire string that `wire_name` produced gives the category
/// back: the string table is bidirectional.
pub proof fn lemma_category_round_trip(c: Category)
    ensures
        Category::spec_from_wire(c.wire_name_spec()) == Some(c),
{
    broadcast use vstd::string::group_string_axioms;

    reveal_strlit("normal1");
    reveal_strlit("gasha0");
    reveal_strlit("gasha1");
    reveal_strlit("gasha2");
    reveal_strlit("gasha4");
    reveal_strlit("gasha5");
    reveal_strlit("event0");
    reveal_strlit("event1");
    reveal_strlit("event2");
    reveal_strlit("event3");
    reveal_strlit("event4");
    reveal_strlit("event5");
    reveal_strlit("other");
    assert("normal1"@ =~= seq!['n', 'o', 'r', 'm', 'a', 'l', '1']);
    assert("gasha0"@ =~= seq!['g', 'a', 's', 'h', 'a', '0']);
    assert("gasha1"@ =~= seq!['g', 'a', 's', 'h', 'a', '1']);
    assert("gasha2"@ =~= seq!['g', 'a', 's', 'h', 'a', '2']);
    assert("gasha4"@ =~= seq!['g', 'a', 's', 'h', 'a', '4']);
    assert("gasha5"@ =~= seq!['g', 'a', 's', 'h', 'a', '5']);
    assert("event0"@ =~= seq!['e', 'v', 'e', 'n', 't', '0']);
    assert("event1"@ =~= seq!['e', 'v', 'e', 'n', 't', '1']);
    assert("event2"@ =~= seq!['e', 'v', 'e', 'n', 't', '2']);
    assert("event3"@ =~= seq!['e', 'v', 'e', 'n', 't', '3']);
    assert("event4"@ =~= seq!['e', 'v', 'e', 'n', 't', '4']);
    assert("event5"@ =~= seq!['e', 'v', 'e', 'n', 't', '5']);
    assert("other"@ =~= seq!['o', 't', 'h', 'e', 'r']);
}

/// Special reward context of a card.
#[derive(Debug, Clone, Copy, PartialEq, Eq, Structural)]
pub enum ExtraType {
    NoExtra,
    PSTRankingReward,
    PSTPointReward,
    Fes,
    FirstAnivReward,
    ExtraCard,
    SecondAnivReward,
    ExtraPSTRankingReward,
    ExtraPSTPointReward,
    ThirdAnivReward,
    ExtraPSTRankingReward2,
    ExtraPSTPointReward2,
    ForthAnivReward,
    SecondHairStyle,
}

impl ExtraType {
    /// The documented wire code of this reward context; the code set skips 1.
    pub open spec fn code_spec(self) -> int {
        match self {
            ExtraType::NoExtra => 0,
            ExtraType::PSTRankingReward => 2,
            ExtraType::PSTPointReward => 3,
            ExtraType::Fes => 4,
            ExtraType::FirstAnivReward => 5,
            ExtraType::ExtraCard => 6,
            ExtraType::SecondAnivReward => 7,
            ExtraType::ExtraPSTRankingReward => 8,
            ExtraType::ExtraPSTPointReward => 9,
            ExtraType::ThirdAnivReward => 10,
            ExtraType::ExtraPSTRankingReward2 => 11,
            ExtraType::ExtraPSTPointReward2 => 12,
            ExtraType::ForthAnivReward => 13,
            ExtraType::SecondHairStyle => 14,
        }
    }

    /// The reward context a wire code stands for, if any.
    pub open spec fn spec_from_code(c: int) -> Option<ExtraType> {
        if c == 0 {
            Some(ExtraType::NoExtra)
        } else if c == 2 {
            Some(ExtraType::PSTRankingReward)
        } else if c == 3 {
            Some(ExtraType::PSTPointReward)
        } else if c == 4 {
            Some(ExtraType::Fes)
        } else if c == 5 {
            Some(ExtraType::FirstAnivReward)
        } else if c == 6 {
            Some(ExtraType::ExtraCard)
        } else if c == 7 {
            Some(ExtraType::SecondAnivReward)
        } else if c == 8 {
            Some(ExtraType::ExtraPSTRankingReward)
        } else if c == 9 {
            Some(ExtraType::ExtraPSTPointReward)
        } else if c == 10 {
            Some(ExtraType::ThirdAnivReward)
        } else if c == 11 {
            Some(ExtraType::ExtraPSTRankingReward2)
        } else if c == 12 {
            Some(ExtraType::ExtraPSTPointReward2)
        } else if c == 13 {
            Some(ExtraType::ForthAnivReward)
        } else if c == 14 {
            Some(ExtraType::SecondHairStyle)
        } else {
            None
        }
    }

    pub fn code(&self) -> (r: i32)
        ensures
            r as int == self.code_spec(),
    {
        match self {
            ExtraType::NoExtra => 0,
            ExtraType::PSTRankingReward => 2,
            ExtraType::PSTPointReward => 3,
            ExtraType::Fes => 4,
            ExtraType::FirstAnivReward => 5,
            ExtraType::ExtraCard => 6,
            ExtraType::SecondAnivReward => 7,
            ExtraType::ExtraPSTRankingReward => 8,
            ExtraType::ExtraPSTPointReward => 9,
            ExtraType::ThirdAnivReward => 10,
            ExtraType::ExtraPSTRankingReward2 => 11,
            ExtraType::ExtraPSTPointReward2 => 12,
            ExtraType::ForthAnivReward => 13,
            ExtraType::SecondHairStyle => 14,
        }
    }

    pub fn from_code(c: i32) -> (r: Option<ExtraType>)
        ensures
            r == ExtraType::spec_from_code(c as int),
    {
        if c == 0 {
            Some(ExtraType::NoExtra)
        } else if c == 2 {
            Some(ExtraType::PSTRankingReward)
        } else if c == 3 {
            Some(ExtraType::PSTPointReward)
        } else if c == 4 {
            Some(ExtraType::Fes)
        } else if c == 5 {
            Some(ExtraType::FirstAnivReward)
        } else if c == 6 {
            Some(ExtraType::ExtraCard)
        } else if c == 7 {
            Some(ExtraType::SecondAnivReward)
        } else if c == 8 {
            Some(ExtraType::ExtraPSTRankingReward)
        } else if c == 9 {
            Some(ExtraType::ExtraPSTPointReward)
        } else if c == 10 {
            Some(ExtraType::ThirdAnivReward)
        } else if c == 11 {
            Some(ExtraType::ExtraPSTRankingReward2)
        } else if c == 12 {
            Some(ExtraType::ExtraPSTPointReward2)
        } else if c == 13 {
            Some(ExtraType::ForthAnivReward)
        } else if c == 14 {
            Some(ExtraType::SecondHairStyle)
        } else {
            None
        }
    }
}

/// Decoding an extra-type code that `code` produced gives the value back,
/// over the whole non-contiguous code set.
pub proof fn lemma_extra_type_round_trip(t: ExtraType)
    ensures
        ExtraType::spec_from_code(t.code_spec()) == Some(t),
{
}

/// Every accepted extra-type code encodes back to itself.
pub proof fn lemma_extra_type_code_faithful(c: int)
    ensures
        ExtraType::spec_from_code(c) matches Some(t) ==> t.code_spec() == c,
{
}

/// Stat attribute a center effect targets.
#[derive(Debug, Clone, Copy, PartialEq, Eq, Structural)]
pub enum Attribute {
    Vocal,
    Dance,
    Visual,
    AllAppeal,
    Life,
    SkillProbability,
}

impl Attribute {
    /// The documented wire code of this attribute.
    pub open spec fn code_spec(self) -> int {
        match self {
            Attribute::Vocal => 1,
            Attribute::Dance => 2,
            Attribute::Visual => 3,
            Attribute::AllAppeal => 4,
            Attribute::Life => 5,
            Attribute::SkillProbability => 6,
        }
    }

    /// The attribute a wire code stands for, if any.
    pub open spec fn spec_from_code(c: int) -> Option<Attribute> {
        if c == 1 {
            Some(Attribute::Vocal)
        } else if c == 2 {
            Some(Attribute::Dance)
        } else if c == 3 {
            Some(Attribute::Visual)
        } else if c == 4 {
            Some(Attribute::AllAppeal)
        } else if c == 5 {
            Some(Attribute::Life)
        } else if c == 6 {
            Some(Attribute::SkillProbability)
        } else {
            None
        }
    }

    pub fn code(&self) -> (r: i32)
        ensures
            r as int == self.code_spec(),
    {
        match self {
            Attribute::Vocal => 1,
            Attribute::Dance => 2,
            Attribute::Visual => 3,
            Attribute::AllAppeal => 4,
            Attribute::Life => 5,
            Attribute::SkillProbability => 6,
        }
    }

    pub fn from_code(c: i32) -> (r: Option<Attribute>)
        ensures
            r == Attribute::spec_from_code(c as int),
    {
        if c == 1 {
            Some(Attribute::Vocal)
        } else if c == 2 {
            Some(Attribute::Dance)
        } else if c == 3 {
            Some(Attribute::Visual)
        } else if c == 4 {
            Some(Attribute::AllAppeal)
        } else if c == 5 {
            Some(Attribute::Life)
        } else if c == 6 {
            Some(Attribute::SkillProbability)
        } else {
            None
        }
    }
}

/// Decoding an attribute code that `code` produced gives the value back.
pub proof fn lemma_attribute_round_trip(t: Attribute)
    ensures
        Attribute::spec_from_code(t.code_spec()) == Some(t),
{
}

/// Every accepted attribute code encodes back to itself.
pub proof fn lemma_attribute_code_faithful(c: int)
    ensures
        Attribute::spec_from_code(c) matches Some(t) ==> t.code_spec() == c,
{
}

/// Effect kind of a skill; the underlying code set skips 9.
#[derive(Debug, Clone, Copy, PartialEq, Eq, Structural)]
pub enum EffectID {
    ScoreUp,
    ComboBonus,
    LifeRecovery,
    DamageGuard,
    ComboContinuation,
    EnhancedEvalution,
    DoubleBoost,
    MultiUp,
    OverClock,
    OverRondo,
    DoubleEffect,
}

impl EffectID {
    /// The documented wire code of this effect kind; the code set skips 9.
    pub open spec fn code_spec(self) -> int {
        match self {
            EffectID::ScoreUp => 1,
            EffectID::ComboBonus => 2,
            EffectID::LifeRecovery => 3,
            EffectID::DamageGuard => 4,
            EffectID::ComboContinuation => 5,
            EffectID::EnhancedEvalution => 6,
            EffectID::DoubleBoost => 7,
            EffectID::MultiUp => 8,
            EffectID::OverClock => 10,
            EffectID::OverRondo => 11,
            EffectID::DoubleEffect => 12,
        }
    }

    /// The effect kind a wire code stands for, if any.
    pub open spec fn spec_from_code(c: int) -> Option<EffectID> {
        if c == 1 {
            Some(EffectID::ScoreUp)
        } else if c == 2 {
            Some(EffectID::ComboBonus)
        } else if c == 3 {
            Some(EffectID::LifeRecovery)
        } else if c == 4 {
            Some(EffectID::DamageGuard)
        } else if c == 5 {
            Some(EffectID::ComboContinuation)
        } else if c == 6 {
            Some(EffectID::EnhancedEvalution)
        } else if c == 7 {
            Some(EffectID::DoubleBoost)
        } else if c == 8 {
            Some(EffectID::MultiUp)
        } else if c == 10 {
            Some(EffectID::OverClock)
        } else if c == 11 {
            Some(EffectID::OverRondo)
        } else if c == 12 {
            Some(EffectID::DoubleEffect)
        } else {
            None
        }
    }

    pub fn code(&self) -> (r: i32)
        ensures
            r as int == self.code_spec(),
    {
        match self {
            EffectID::ScoreUp => 1,
            EffectID::ComboBonus => 2,
            EffectID::LifeRecovery => 3,
            EffectID::DamageGuard => 4,
            EffectID::ComboContinuation => 5,
            EffectID::EnhancedEvalution => 6,
            EffectID::DoubleBoost => 7,
            EffectID::MultiUp => 8,
            EffectID::OverClock => 10,
            EffectID::OverRondo => 11,
            EffectID::DoubleEffect => 12,
        }
    }

    pub fn from_code(c: i32) -> (r: Option<EffectID>)
        ensures
            r == EffectID::spec_from_code(c as int),
    {
        if c == 1 {
            Some(EffectID::ScoreUp)
        } else if c == 2 {
            Some(EffectID::ComboBonus)
        } else if c == 3 {
            Some(EffectID::LifeRecovery)
        } else if c == 4 {
            Some(EffectID::DamageGuard)
        } else if c == 5 {
            Some(EffectID::ComboContinuation)
        } else if c == 6 {
            Some(EffectID::EnhancedEvalution)
        } else if c == 7 {
            Some(EffectID::DoubleBoost)
        } else if c == 8 {
            Some(EffectID::MultiUp)
        } else if c == 10 {
            Some(EffectID::OverClock)
        } else if c == 11 {
            Some(EffectID::OverRondo)
        } else if c == 12 {
            Some(EffectID::DoubleEffect)
        } else {
            None
        }
    }
}

/// Decoding an effect-kind code that `code` produced gives the value back,
/// over the whole non-contiguous code set.
pub proof fn lemma_effect_id_round_trip(t: EffectID)
    ensures
        EffectID::spec_from_code(t.code_spec()) == Some(t),
{
}

/// Every accepted effect-kind code encodes back to itself.
pub proof fn lemma_effect_id_code_faithful(c: int)
    ensures
        EffectID::spec_from_code(c) matches Some(t) ==> t.code_spec() == c,
{
}

/// Judgment-grade window that triggers a skill.
#[derive(Debug, Clone, Copy, PartialEq, Eq, Structural)]
pub enum Evaluation {
    All,
    Perfect,
    PerfectGreat,
    Great,
    GreatGoodFastSlow,
    PerfectGreatGood,
    PerfectGreatGoodFastSlow,
    GreatGood,
}

impl Evaluation {
    /// The documented wire code of this window.
    pub open spec fn code_spec(self) -> int {
        match self {
            Evaluation::All => 0,
            Evaluation::Perfect => 1,
            Evaluation::PerfectGreat => 2,
            Evaluation::Great => 3,
            Evaluation::GreatGoodFastSlow => 4,
            Evaluation::PerfectGreatGood => 5,
            Evaluation::PerfectGreatGoodFastSlow => 6,
            Evaluation::GreatGood => 7,
        }
    }

    /// The window a wire code stands for, if any.
    pub open spec fn spec_from_code(c: int) -> Option<Evaluation> {
        if c == 0 {
            Some(Evaluation::All)
        } else if c == 1 {
            Some(Evaluation::Perfect)
        } else if c == 2 {
            Some(Evaluation::PerfectGreat)
        } else if c == 3 {
            Some(Evaluation::Great)
        } else if c == 4 {
            Some(Evaluation::GreatGoodFastSlow)
        } else if c == 5 {
            Some(Evaluation::PerfectGreatGood)
        } else if c == 6 {
            Some(Evaluation::PerfectGreatGoodFastSlow)
        } else if c == 7 {
            Some(Evaluation::GreatGood)
        } else {
            None
        }
    }

    pub fn code(&self) -> (r: i32)
        ensures
            r as int == self.code_spec(),
    {
        match self {
            Evaluation::All => 0,
            Evaluation::Perfect => 1,
            Evaluation::PerfectGreat => 2,
            Evaluation::Great => 3,
            Evaluation::GreatGoodFastSlow => 4,
            Evaluation::PerfectGreatGood => 5,
            Evaluation::PerfectGreatGoodFastSlow => 6,
            Evaluation::GreatGood => 7,
        }
    }

    pub fn from_code(c: i32) -> (r: Option<Evaluation>)
        ensures
            r == Evaluation::spec_from_code(c as int),
    {
        if c == 0 {
            Some(Evaluation::All)
        } else if c == 1 {
            Some(Evaluation::Perfect)
        } else if c == 2 {
            Some(Evaluation::PerfectGreat)
        } else if c == 3 {
            Some(Evaluation::Great)
        } else if c == 4 {
            Some(Evaluation::GreatGoodFastSlow)
        } else if c == 5 {
            Some(Evaluation::PerfectGreatGood)
        } else if c == 6 {
            Some(Evaluation::PerfectGreatGoodFastSlow)
        } else if c == 7 {
            Some(Evaluation::GreatGood)
        } else {
            None
        }
    }
}

/// Decoding an evaluation code that `code` produced gives the value back.
pub proof fn lemma_evaluation_round_trip(t: Evaluation)
    ensures
        Evaluation::spec_from_code(t.code_spec()) == Some(t),
{
}

/// Every accepted evaluation code encodes back to itself.
pub proof fn lemma_evaluation_code_faithful(c: int)
    ensures
        Evaluation::spec_from_code(c) matches Some(t) ==> t.code_spec() == c,
{
}

/// A costume attachment of a card.
#[derive(Debug, Clone, PartialEq, Eq)]
pub struct Costume {
    pub id: i32,
    pub name: String,
    pub description: String,
    pub resource_id: String,
    pub model_id: String,
    pub sort_id: i32,
}

/// A passive effect active when the card sits in the center formation slot.
#[derive(Debug, Clone, PartialEq, Eq)]
pub struct CenterEffect {
    pub id: i32,
    pub description: String,
    pub idol_type: IdolType,
    pub specific_idol_type: Option<IdolType>,
    pub attribute: Attribute,
    pub value: i32,
    pub song_type: Option<IdolType>,
    pub attribute2: Option<Attribute>,
    pub value2: Option<i32>,
}

/// An active, probability-triggered skill.
#[derive(Debug, Clone, PartialEq, Eq)]
pub struct Skill {
    pub id: i32,
    pub description: String,
    pub effect_id: EffectID,
    pub evaluation: Evaluation,
    pub evaluation2: Evaluation,
    pub duration: i32,
    pub interval: i32,
    pub probability: i32,
    pub value: Vec<i32>,
    pub skill_name: Option<String>,
}

/// A collectible card as the catalog returns it; never constructed locally,
/// only decoded from a response. The addition timestamp is kept in its wire
/// form, an optional timestamp string.
#[derive(Debug, Clone)]
pub struct Card {
    pub id: i32,
    pub name: String,
    pub sort_id: i32,
    pub idol_id: i32,
    pub idol_type: IdolType,
    pub resource_id: String,
    pub rarity: Rarity,
    pub event_id: Option<i32>,
    pub category: Category,
    pub extra_type: ExtraType,
    pub costume: Option<Costume>,
    pub bonus_costume: Option<Costume>,
    pub rank5_costume: Option<Costume>,
    pub flavor_text: Option<String>,
    pub flavor_text_awakened: Option<String>,
    pub level_max: i32,
    pub level_max_awakened: i32,
    pub vocal_min: i32,
    pub vocal_max: i32,
    pub vocal_min_awakened: i32,
    pub vocal_max_awakened: i32,
    pub vocal_master_bonus: i32,
    pub dance_min: i32,
    pub dance_max: i32,
    pub dance_min_awakened: i32,
    pub dance_max_awakened: i32,
    pub dance_master_bonus: i32,
    pub visual_min: i32,
    pub visual_max: i32,
    pub visual_min_awakened: i32,
    pub visual_max_awakened: i32,
    pub visual_master_bonus: i32,
    pub life: i32,
    pub master_rank_max: i32,
    pub center_effect: Option<CenterEffect>,
    pub center_effect_name: Option<String>,
    pub skill: Option<Vec<Skill>>,
    pub add_date: Option<String>,
}

} // verus!
