//! Paint characteristics that cannot be derived from colour.

use vstd::prelude::*;

use crate::text::{malformed_message, malformed_value_message, str_eq};

verus! {


/// A paint characteristic that cannot be derived from colour: an enumeration of
/// values with a name, a prompt, a list header, and for each value an
/// abbreviation, a full name and a level (its 1-based position).
pub trait CharacteristicIfce: Sized {
    const NAME: &'static str;
    const PROMPT: &'static str;
    const LIST_HEADER_NAME: &'static str;

    /// The text of `NAME`.
    spec fn spec_name_text() -> Seq<char>;

    /// The text of `PROMPT`.
    spec fn spec_prompt_text() -> Seq<char>;

    /// The text of `LIST_HEADER_NAME`.
    spec fn spec_list_header_text() -> Seq<char>;

    /// `NAME`, `PROMPT` and `LIST_HEADER_NAME` hold those texts.
    proof fn lemma_constant_texts()
        ensures
            Self::NAME@ == Self::spec_name_text(),
            Self::PROMPT@ == Self::spec_prompt_text(),
            Self::LIST_HEADER_NAME@ == Self::spec_list_header_text(),
    ;

    /// The number of values.
    spec fn spec_count() -> nat;

    /// The position of a value in declaration order, counting from 1.
    spec fn spec_level(&self) -> nat;

    /// The value at a position, counting from 1.
    spec fn spec_from_level(level: nat) -> Self;

    spec fn spec_abbrev(&self) -> Seq<char>;

    spec fn spec_full(&self) -> Seq<char>;

    /// Levels number the values one to one.
    proof fn lemma_levels()
        ensures
            1 <= Self::spec_count() <= 16,
            forall|v: Self| 1 <= #[trigger] v.spec_level() <= Self::spec_count(),
            forall|v: Self| Self::spec_from_level(#[trigger] v.spec_level()) == v,
            forall|l: nat|
                1 <= l <= Self::spec_count() ==> #[trigger] Self::spec_from_level(l).spec_level()
                    == l,
    ;

    /// Full names are distinct, and no abbreviation is a full name.
    proof fn lemma_names_distinct()
        ensures
            forall|a: Self, b: Self|
                a != b ==> #[trigger] a.spec_full() != #[trigger] b.spec_full(),
            forall|a: Self, b: Self| #[trigger] a.spec_abbrev() != #[trigger] b.spec_full(),
    ;

    /// The full names of all values, in declaration order.
    fn str_values() -> (r: Vec<&'static str>)
        ensures
            r@.len() == Self::spec_count(),
            forall|i: int|
                0 <= i < r@.len() ==> #[trigger] r@[i]@ == Self::spec_from_level(
                    (i + 1) as nat,
                ).spec_full(),
    ;

    fn abbrev(&self) -> (r: &'static str)
        ensures
            r@ == self.spec_abbrev(),
    ;

    fn full(&self) -> (r: &'static str)
        ensures
            r@ == self.spec_full(),
    ;

    /// The position of the value, counting from 1.
    fn level(&self) -> (r: u64)
        ensures
            r == self.spec_level(),
    ;

    /// The value at a position, counting from 1.
    fn from_level(level: u64) -> (r: Self)
        requires
            1 <= level <= Self::spec_count(),
        ensures
            r == Self::spec_from_level(level as nat),
    ;
}


/// The full names of the values of `C`, in order.
pub open spec fn spec_value_names<C: CharacteristicIfce>() -> Seq<Seq<char>> {
    Seq::new(C::spec_count(), |i: int| C::spec_from_level((i + 1) as nat).spec_full())
}

/// The first value, at or after `level` in declaration order, whose
/// abbreviation or full name is `s`.
pub open spec fn spec_parse_from<C: CharacteristicIfce>(s: Seq<char>, level: int) -> Option<C>
    decreases C::spec_count() + 1 - level,
{
    if level < 1 || level > C::spec_count() {
        None
    } else if s == C::spec_from_level(level as nat).spec_abbrev() || s
        == C::spec_from_level(level as nat).spec_full() {
        Some(C::spec_from_level(level as nat))
    } else {
        spec_parse_from::<C>(s, level + 1)
    }
}

/// The value that `s` names: the first, in declaration order, whose
/// abbreviation or full name is `s`.
pub open spec fn spec_parse<C: CharacteristicIfce>(s: Seq<char>) -> Option<C> {
    spec_parse_from::<C>(s, 1)
}

/// What parsing `s` gives: the value it names, or the message that refuses it.
pub open spec fn parse_outcome<C: CharacteristicIfce>(s: Seq<char>, r: Result<C, String>) -> bool {
    match r {
        Ok(v) => spec_parse::<C>(s) == Some(v),
        Err(msg) => spec_parse::<C>(s) is None && msg@ == malformed_message(s, C::spec_name_text()),
    }
}

/// Parses a value of `C` from its abbreviation or its full name.
pub fn parse_characteristic<C: CharacteristicIfce>(string: &str) -> (r: Result<C, String>)
    ensures
        parse_outcome::<C>(string@, r),
{
    proof {
        C::lemma_levels();
    }
    let count: u64 = C::str_values().len() as u64;
    let mut level: u64 = 1;
    while level <= count
        invariant
            count == C::spec_count(),
            count <= 16,
            1 <= level <= count + 1,
            spec_parse::<C>(string@) == spec_parse_from::<C>(string@, level as int),
        decreases count + 1 - level,
    {
        let v = C::from_level(level);
        if str_eq(string, v.abbrev()) || str_eq(string, v.full()) {
            return Ok(v);
        }
        level = level + 1;
    }
    proof {
        C::lemma_constant_texts();
    }
    Err(malformed_value_message(string, C::NAME))
}

proof fn lemma_parse_skips<C: CharacteristicIfce>(s: Seq<char>, from: int, to: int)
    requires
        1 <= from <= to <= C::spec_count() + 1,
        forall|l: int|
            from <= l < to ==> s != #[trigger] C::spec_from_level(l as nat).spec_abbrev() && s
                != C::spec_from_level(l as nat).spec_full(),
    ensures
        spec_parse_from::<C>(s, from) == spec_parse_from::<C>(s, to),
    decreases to - from,
{
    if from < to {
        lemma_parse_skips::<C>(s, from + 1, to);
    }
}

proof fn lemma_parse_abbrev_from<C: CharacteristicIfce>(v: C, from: int)
    requires
        1 <= from <= v.spec_level(),
    ensures
        spec_parse_from::<C>(v.spec_abbrev(), from) matches Some(w) && w.spec_abbrev()
            == v.spec_abbrev(),
    decreases v.spec_level() - from,
{
    C::lemma_levels();
    C::lemma_names_distinct();
    let w = C::spec_from_level(from as nat);
    assert(v.spec_abbrev() != w.spec_full());
    if v.spec_abbrev() != w.spec_abbrev() {
        if from == v.spec_level() {
            assert(w == v);
        }
        lemma_parse_abbrev_from::<C>(v, from + 1);
    }
}

/// Every value is named by its full name: parsing the full name gives the
/// value back.
pub proof fn law_full_name_parses<C: CharacteristicIfce>(v: C)
    ensures
        spec_parse::<C>(v.spec_full()) == Some(v),
{
    C::lemma_levels();
    C::lemma_names_distinct();
    let lv = v.spec_level() as int;
    assert forall|l: int| 1 <= l < lv implies v.spec_full() != #[trigger] C::spec_from_level(
        l as nat,
    ).spec_abbrev() && v.spec_full() != C::spec_from_level(l as nat).spec_full() by {
        let w = C::spec_from_level(l as nat);
        assert(w.spec_level() == l);
        assert(w != v);
    }
    lemma_parse_skips::<C>(v.spec_full(), 1, lv);
}

/// Parsing the abbreviation of a value gives a value with that same
/// abbreviation (the first such value in declaration order).
pub proof fn law_abbreviation_parses<C: CharacteristicIfce>(v: C)
    ensures
        spec_parse::<C>(v.spec_abbrev()) matches Some(w) && w.spec_abbrev() == v.spec_abbrev(),
{
    C::lemma_levels();
    lemma_parse_abbrev_from::<C>(v, 1);
}

/// Only names parse: a string that parses is the abbreviation or the full
/// name of the value it gives.
pub proof fn law_only_names_parse<C: CharacteristicIfce>(s: Seq<char>)
    ensures
        spec_parse::<C>(s) matches Some(v) ==> (s == v.spec_abbrev() || s == v.spec_full()),
{
    lemma_parse_result_named::<C>(s, 1);
}

proof fn lemma_parse_result_named<C: CharacteristicIfce>(s: Seq<char>, from: int)
    ensures
        spec_parse_from::<C>(s, from) matches Some(v) ==> (s == v.spec_abbrev() || s
            == v.spec_full()),
    decreases C::spec_count() + 1 - from,
{
    if 1 <= from <= C::spec_count() {
        lemma_parse_result_named::<C>(s, from + 1);
    }
}

/// Every value has a level between 1 and the number of values, and the
/// level gives the value back.
pub proof fn law_level_round_trip<C: CharacteristicIfce>(v: C)
    ensures
        1 <= v.spec_level() <= C::spec_count(),
        C::spec_from_level(v.spec_level()) == v,
{
    C::lemma_levels();
}

/// The finish of a paint.
#[derive(PartialEq, Eq, Structural, PartialOrd, Ord, Clone, Copy, Debug, Hash)]
pub enum Finish {
    Gloss,
    SemiGloss,
    SemiFlat,
    Flat,
}

impl CharacteristicIfce for Finish {
    const NAME: &'static str = "Finish";
    const PROMPT: &'static str = "Finish:";
    const LIST_HEADER_NAME: &'static str = "Fi.";

    open spec fn spec_name_text() -> Seq<char> {
        "Finish"@
    }

    open spec fn spec_prompt_text() -> Seq<char> {
        "Finish:"@
    }

    open spec fn spec_list_header_text() -> Seq<char> {
        "Fi."@
    }

    proof fn lemma_constant_texts() {
    }

    open spec fn spec_count() -> nat {
        4
    }

    open spec fn spec_level(&self) -> nat {
        match self {
            Finish::Gloss => 1,
            Finish::SemiGloss => 2,
            Finish::SemiFlat => 3,
            Finish::Flat => 4,
        }
    }

    open spec fn spec_from_level(level: nat) -> Self {
        if level == 1 {
            Finish::Gloss
        } else if level == 2 {
            Finish::SemiGloss
        } else if level == 3 {
            Finish::SemiFlat
        } else {
            Finish::Flat
        }
    }

    open spec fn spec_abbrev(&self) -> Seq<char> {
        match self {
            Finish::Gloss => "G"@,
            Finish::SemiGloss => "SG"@,
            Finish::SemiFlat => "SF"@,
            Finish::Flat => "F"@,
        }
    }

    open spec fn spec_full(&self) -> Seq<char> {
        match self {
            Finish::Gloss => "gloss"@,
            Finish::SemiGloss => "semi-gloss"@,
            Finish::SemiFlat => "semi-flat"@,
            Finish::Flat => "flat"@,
        }
    }

    proof fn lemma_levels() {
    }

    proof fn lemma_names_distinct() {
        reveal_strlit("F");
        reveal_strlit("G");
        reveal_strlit("SF");
        reveal_strlit("SG");
        reveal_strlit("flat");
        reveal_strlit("gloss");
        reveal_strlit("semi-flat");
        reveal_strlit("semi-gloss");
        assert("F"@[0] != "G"@[0]);
        assert("F"@.len() != "SF"@.len());
        assert("F"@.len() != "SG"@.len());
        assert("F"@.len() != "flat"@.len());
        assert("F"@.len() != "gloss"@.len());
        assert("F"@.len() != "semi-flat"@.len());
        assert("F"@.len() != "semi-gloss"@.len());
        assert("G"@.len() != "SF"@.len());
        assert("G"@.len() != "SG"@.len());
        assert("G"@.len() != "flat"@.len());
        assert("G"@.len() != "gloss"@.len());
        assert("G"@.len() != "semi-flat"@.len());
        assert("G"@.len() != "semi-gloss"@.len());
        assert("SF"@[1] != "SG"@[1]);
        assert("SF"@.len() != "flat"@.len());
        assert("SF"@.len() != "gloss"@.len());
        assert("SF"@.len() != "semi-flat"@.len());
        assert("SF"@.len() != "semi-gloss"@.len());
        assert("SG"@.len() != "flat"@.len());
        assert("SG"@.len() != "gloss"@.len());
        assert("SG"@.len() != "semi-flat"@.len());
        assert("SG"@.len() != "semi-gloss"@.len());
        assert("flat"@.len() != "gloss"@.len());
        assert("flat"@.len() != "semi-flat"@.len());
        assert("flat"@.len() != "semi-gloss"@.len());
        assert("gloss"@.len() != "semi-flat"@.len());
        assert("gloss"@.len() != "semi-gloss"@.len());
        assert("semi-flat"@.len() != "semi-gloss"@.len());
    }

    fn str_values() -> (r: Vec<&'static str>) {
        let r = vec!["gloss", "semi-gloss", "semi-flat", "flat"];
        r
    }

    fn abbrev(&self) -> (r: &'static str) {
        match self {
            Finish::Gloss => "G",
            Finish::SemiGloss => "SG",
            Finish::SemiFlat => "SF",
            Finish::Flat => "F",
        }
    }

    fn full(&self) -> (r: &'static str) {
        match self {
            Finish::Gloss => "gloss",
            Finish::SemiGloss => "semi-gloss",
            Finish::SemiFlat => "semi-flat",
            Finish::Flat => "flat",
        }
    }

    fn level(&self) -> (r: u64) {
        match self {
            Finish::Gloss => 1,
            Finish::SemiGloss => 2,
            Finish::SemiFlat => 3,
            Finish::Flat => 4,
        }
    }

    fn from_level(level: u64) -> (r: Self) {
        if level == 1 {
            Finish::Gloss
        } else if level == 2 {
            Finish::SemiGloss
        } else if level == 3 {
            Finish::SemiFlat
        } else {
            Finish::Flat
        }
    }
}

impl Default for Finish {
    fn default() -> (r: Self)
        ensures
            r == Finish::Gloss,
    {
        Finish::Gloss
    }
}

impl std::str::FromStr for Finish {
    type Err = String;

    fn from_str(string: &str) -> (r: Result<Finish, String>)
        ensures
            parse_outcome::<Finish>(string@, r),
    {
        parse_characteristic::<Finish>(string)
    }
}

/// The transparency of a paint.
#[derive(PartialEq, Eq, Structural, PartialOrd, Ord, Clone, Copy, Debug, Hash)]
pub enum Transparency {
    Opaque,
    SemiOpaque,
    SemiTransparent,
    Transparent,
    Clear,
}

impl CharacteristicIfce for Transparency {
    const NAME: &'static str = "Transparency";
    const PROMPT: &'static str = "Transparency:";
    const LIST_HEADER_NAME: &'static str = "Tr.";

    open spec fn spec_name_text() -> Seq<char> {
        "Transparency"@
    }

    open spec fn spec_prompt_text() -> Seq<char> {
        "Transparency:"@
    }

    open spec fn spec_list_header_text() -> Seq<char> {
        "Tr."@
    }

    proof fn lemma_constant_texts() {
    }

    open spec fn spec_count() -> nat {
        5
    }

    open spec fn spec_level(&self) -> nat {
        match self {
            Transparency::Opaque => 1,
            Transparency::SemiOpaque => 2,
            Transparency::SemiTransparent => 3,
            Transparency::Transparent => 4,
            Transparency::Clear => 5,
        }
    }

    open spec fn spec_from_level(level: nat) -> Self {
        if level == 1 {
            Transparency::Opaque
        } else if level == 2 {
            Transparency::SemiOpaque
        } else if level == 3 {
            Transparency::SemiTransparent
        } else if level == 4 {
            Transparency::Transparent
        } else {
            Transparency::Clear
        }
    }

    open spec fn spec_abbrev(&self) -> Seq<char> {
        match self {
            Transparency::Opaque => "O"@,
            Transparency::SemiOpaque => "SO"@,
            Transparency::SemiTransparent => "ST"@,
            Transparency::Transparent => "T"@,
            Transparency::Clear => "C"@,
        }
    }

    open spec fn spec_full(&self) -> Seq<char> {
        match self {
            Transparency::Opaque => "opaque"@,
            Transparency::SemiOpaque => "semi-opaque"@,
            Transparency::SemiTransparent => "semi-transparent"@,
            Transparency::Transparent => "transparent"@,
            Transparency::Clear => "clear"@,
        }
    }

    proof fn lemma_levels() {
    }

    proof fn lemma_names_distinct() {
        reveal_strlit("C");
        reveal_strlit("O");
        reveal_strlit("SO");
        reveal_strlit("ST");
        reveal_strlit("T");
        reveal_strlit("clear");
        reveal_strlit("opaque");
        reveal_strlit("semi-opaque");
        reveal_strlit("semi-transparent");
        reveal_strlit("transparent");
        assert("C"@[0] != "O"@[0]);
        assert("C"@.len() != "SO"@.len());
        assert("C"@.len() != "ST"@.len());
        assert("C"@[0] != "T"@[0]);
        assert("C"@.len() != "clear"@.len());
        assert("C"@.len() != "opaque"@.len());
        assert("C"@.len() != "semi-opaque"@.len());
        assert("C"@.len() != "semi-transparent"@.len());
        assert("C"@.len() != "transparent"@.len());
        assert("O"@.len() != "SO"@.len());
        assert("O"@.len() != "ST"@.len());
        assert("O"@[0] != "T"@[0]);
        assert("O"@.len() != "clear"@.len());
        assert("O"@.len() != "opaque"@.len());
        assert("O"@.len() != "semi-opaque"@.len());
        assert("O"@.len() != "semi-transparent"@.len());
        assert("O"@.len() != "transparent"@.len());
        assert("SO"@[1] != "ST"@[1]);
        assert("SO"@.len() != "T"@.len());
        assert("SO"@.len() != "clear"@.len());
        assert("SO"@.len() != "opaque"@.len());
        assert("SO"@.len() != "semi-opaque"@.len());
        assert("SO"@.len() != "semi-transparent"@.len());
        assert("SO"@.len() != "transparent"@.len());
        assert("ST"@.len() != "T"@.len());
        assert("ST"@.len() != "clear"@.len());
        assert("ST"@.len() != "opaque"@.len());
        assert("ST"@.len() != "semi-opaque"@.len());
        assert("ST"@.len() != "semi-transparent"@.len());
        assert("ST"@.len() != "transparent"@.len());
        assert("T"@.len() != "clear"@.len());
        assert("T"@.len() != "opaque"@.len());
        assert("T"@.len() != "semi-opaque"@.len());
        assert("T"@.len() != "semi-transparent"@.len());
        assert("T"@.len() != "transparent"@.len());
        assert("clear"@.len() != "opaque"@.len());
        assert("clear"@.len() != "semi-opaque"@.len());
        assert("clear"@.len() != "semi-transparent"@.len());
        assert("clear"@.len() != "transparent"@.len());
        assert("opaque"@.len() != "semi-opaque"@.len());
        assert("opaque"@.len() != "semi-transparent"@.len());
        assert("opaque"@.len() != "transparent"@.len());
        assert("semi-opaque"@.len() != "semi-transparent"@.len());
        assert("semi-opaque"@[0] != "transparent"@[0]);
        assert("semi-transparent"@.len() != "transparent"@.len());
    }

    fn str_values() -> (r: Vec<&'static str>) {
        let r = vec!["opaque", "semi-opaque", "semi-transparent", "transparent", "clear"];
        r
    }

    fn abbrev(&self) -> (r: &'static str) {
        match self {
            Transparency::Opaque => "O",
            Transparency::SemiOpaque => "SO",
            Transparency::SemiTransparent => "ST",
            Transparency::Transparent => "T",
            Transparency::Clear => "C",
        }
    }

    fn full(&self) -> (r: &'static str) {
        match self {
            Transparency::Opaque => "opaque",
            Transparency::SemiOpaque => "semi-opaque",
            Transparency::SemiTransparent => "semi-transparent",
            Transparency::Transparent => "transparent",
            Transparency::Clear => "clear",
        }
    }

    fn level(&self) -> (r: u64) {
        match self {
            Transparency::Opaque => 1,
            Transparency::SemiOpaque => 2,
            Transparency::SemiTransparent => 3,
            Transparency::Transparent => 4,
            Transparency::Clear => 5,
        }
    }

    fn from_level(level: u64) -> (r: Self) {
        if level == 1 {
            Transparency::Opaque
        } else if level == 2 {
            Transparency::SemiOpaque
        } else if level == 3 {
            Transparency::SemiTransparent
        } else if level == 4 {
            Transparency::Transparent
        } else {
            Transparency::Clear
        }
    }
}

impl Default for Transparency {
    fn default() -> (r: Self)
        ensures
            r == Transparency::Opaque,
    {
        Transparency::Opaque
    }
}

impl std::str::FromStr for Transparency {
    type Err = String;

    fn from_str(string: &str) -> (r: Result<Transparency, String>)
        ensures
            parse_outcome::<Transparency>(string@, r),
    {
        parse_characteristic::<Transparency>(string)
    }
}

/// The permanence of a paint.
#[derive(PartialEq, Eq, Structural, PartialOrd, Ord, Clone, Copy, Debug, Hash)]
pub enum Permanence {
    ExtremelyPermanent,
    Permanent,
    ModeratelyDurable,
    Fugitive,
}

impl CharacteristicIfce for Permanence {
    const NAME: &'static str = "Permanence";
    const PROMPT: &'static str = "Permanence:";
    const LIST_HEADER_NAME: &'static str = "Pe.";

    open spec fn spec_name_text() -> Seq<char> {
        "Permanence"@
    }

    open spec fn spec_prompt_text() -> Seq<char> {
        "Permanence:"@
    }

    open spec fn spec_list_header_text() -> Seq<char> {
        "Pe."@
    }

    proof fn lemma_constant_texts() {
    }

    open spec fn spec_count() -> nat {
        4
    }

    open spec fn spec_level(&self) -> nat {
        match self {
            Permanence::ExtremelyPermanent => 1,
            Permanence::Permanent => 2,
            Permanence::ModeratelyDurable => 3,
            Permanence::Fugitive => 4,
        }
    }

    open spec fn spec_from_level(level: nat) -> Self {
        if level == 1 {
            Permanence::ExtremelyPermanent
        } else if level == 2 {
            Permanence::Permanent
        } else if level == 3 {
            Permanence::ModeratelyDurable
        } else {
            Permanence::Fugitive
        }
    }

    open spec fn spec_abbrev(&self) -> Seq<char> {
        match self {
            Permanence::ExtremelyPermanent => "EP"@,
            Permanence::Permanent => "P"@,
            Permanence::ModeratelyDurable => "MD"@,
            Permanence::Fugitive => "F"@,
        }
    }

    open spec fn spec_full(&self) -> Seq<char> {
        match self {
            Permanence::ExtremelyPermanent => "extremely-permanent"@,
            Permanence::Permanent => "permanent"@,
            Permanence::ModeratelyDurable => "moderately-durable"@,
            Permanence::Fugitive => "fugitive"@,
        }
    }

    proof fn lemma_levels() {
    }

    proof fn lemma_names_distinct() {
        reveal_strlit("EP");
        reveal_strlit("F");
        reveal_strlit("MD");
        reveal_strlit("P");
        reveal_strlit("extremely-permanent");
        reveal_strlit("fugitive");
        reveal_strlit("moderately-durable");
        reveal_strlit("permanent");
        assert("EP"@.len() != "F"@.len());
        assert("EP"@[0] != "MD"@[0]);
        assert("EP"@.len() != "P"@.len());
        assert("EP"@.len() != "extremely-permanent"@.len());
        assert("EP"@.len() != "fugitive"@.len());
        assert("EP"@.len() != "moderately-durable"@.len());
        assert("EP"@.len() != "permanent"@.len());
        assert("F"@.len() != "MD"@.len());
        assert("F"@[0] != "P"@[0]);
        assert("F"@.len() != "extremely-permanent"@.len());
        assert("F"@.len() != "fugitive"@.len());
        assert("F"@.len() != "moderately-durable"@.len());
        assert("F"@.len() != "permanent"@.len());
        assert("MD"@.len() != "P"@.len());
        assert("MD"@.len() != "extremely-permanent"@.len());
        assert("MD"@.len() != "fugitive"@.len());
        assert("MD"@.len() != "moderately-durable"@.len());
        assert("MD"@.len() != "permanent"@.len());
        assert("P"@.len() != "extremely-permanent"@.len());
        assert("P"@.len() != "fugitive"@.len());
        assert("P"@.len() != "moderately-durable"@.len());
        assert("P"@.len() != "permanent"@.len());
        assert("extremely-permanent"@.len() != "fugitive"@.len());
        assert("extremely-permanent"@.len() != "moderately-durable"@.len());
        assert("extremely-permanent"@.len() != "permanent"@.len());
        assert("fugitive"@.len() != "moderately-durable"@.len());
        assert("fugitive"@.len() != "permanent"@.len());
        assert("moderately-durable"@.len() != "permanent"@.len());
    }

    fn str_values() -> (r: Vec<&'static str>) {
        let r = vec!["extremely-permanent", "permanent", "moderately-durable", "fugitive"];
        r
    }

    fn abbrev(&self) -> (r: &'static str) {
        match self {
            Permanence::ExtremelyPermanent => "EP",
            Permanence::Permanent => "P",
            Permanence::ModeratelyDurable => "MD",
            Permanence::Fugitive => "F",
        }
    }

    fn full(&self) -> (r: &'static str) {
        match self {
            Permanence::ExtremelyPermanent => "extremely-permanent",
            Permanence::Permanent => "permanent",
            Permanence::ModeratelyDurable => "moderately-durable",
            Permanence::Fugitive => "fugitive",
        }
    }

    fn level(&self) -> (r: u64) {
        match self {
            Permanence::ExtremelyPermanent => 1,
            Permanence::Permanent => 2,
            Permanence::ModeratelyDurable => 3,
            Permanence::Fugitive => 4,
        }
    }

    fn from_level(level: u64) -> (r: Self) {
        if level == 1 {
            Permanence::ExtremelyPermanent
        } else if level == 2 {
            Permanence::Permanent
        } else if level == 3 {
            Permanence::ModeratelyDurable
        } else {
            Permanence::Fugitive
        }
    }
}

impl Default for Permanence {
    fn default() -> (r: Self)
        ensures
            r == Permanence::Permanent,
    {
        Permanence::Permanent
    }
}

impl std::str::FromStr for Permanence {
    type Err = String;

    fn from_str(string: &str) -> (r: Result<Permanence, String>)
        ensures
            parse_outcome::<Permanence>(string@, r),
    {
        parse_characteristic::<Permanence>(string)
    }
}

/// The fluorescence of a paint.
#[derive(PartialEq, Eq, Structural, PartialOrd, Ord, Clone, Copy, Debug, Hash)]
pub enum Fluorescence {
    Fluorescent,
    SemiFluorescent,
    SemiNonFluorescent,
    NonFluorescent,
}

impl CharacteristicIfce for Fluorescence {
    const NAME: &'static str = "Fluorescence";
    const PROMPT: &'static str = "Fluorescence:";
    const LIST_HEADER_NAME: &'static str = "Fl.";

    open spec fn spec_name_text() -> Seq<char> {
        "Fluorescence"@
    }

    open spec fn spec_prompt_text() -> Seq<char> {
        "Fluorescence:"@
    }

    open spec fn spec_list_header_text() -> Seq<char> {
        "Fl."@
    }

    proof fn lemma_constant_texts() {
    }

    open spec fn spec_count() -> nat {
        4
    }

    open spec fn spec_level(&self) -> nat {
        match self {
            Fluorescence::Fluorescent => 1,
            Fluorescence::SemiFluorescent => 2,
            Fluorescence::SemiNonFluorescent => 3,
            Fluorescence::NonFluorescent => 4,
        }
    }

    open spec fn spec_from_level(level: nat) -> Self {
        if level == 1 {
            Fluorescence::Fluorescent
        } else if level == 2 {
            Fluorescence::SemiFluorescent
        } else if level == 3 {
            Fluorescence::SemiNonFluorescent
        } else {
            Fluorescence::NonFluorescent
        }
    }

    open spec fn spec_abbrev(&self) -> Seq<char> {
        match self {
            Fluorescence::Fluorescent => "F"@,
            Fluorescence::SemiFluorescent => "SF"@,
            Fluorescence::SemiNonFluorescent => "SNF"@,
            Fluorescence::NonFluorescent => "NF"@,
        }
    }

    open spec fn spec_full(&self) -> Seq<char> {
        match self {
            Fluorescence::Fluorescent => "fluorescent"@,
            Fluorescence::SemiFluorescent => "semi-fluorescent"@,
            Fluorescence::SemiNonFluorescent => "semi-non-fluorescent"@,
            Fluorescence::NonFluorescent => "non-fluorescent"@,
        }
    }

    proof fn lemma_levels() {
    }

    proof fn lemma_names_distinct() {
        reveal_strlit("F");
        reveal_strlit("NF");
        reveal_strlit("SF");
        reveal_strlit("SNF");
        reveal_strlit("fluorescent");
        reveal_strlit("non-fluorescent");
        reveal_strlit("semi-fluorescent");
        reveal_strlit("semi-non-fluorescent");
        assert("F"@.len() != "NF"@.len());
        assert("F"@.len() != "SF"@.len());
        assert("F"@.len() != "SNF"@.len());
        assert("F"@.len() != "fluorescent"@.len());
        assert("F"@.len() != "non-fluorescent"@.len());
        assert("F"@.len() != "semi-fluorescent"@.len());
        assert("F"@.len() != "semi-non-fluorescent"@.len());
        assert("NF"@[0] != "SF"@[0]);
        assert("NF"@.len() != "SNF"@.len());
        assert("NF"@.len() != "fluorescent"@.len());
        assert("NF"@.len() != "non-fluorescent"@.len());
        assert("NF"@.len() != "semi-fluorescent"@.len());
        assert("NF"@.len() != "semi-non-fluorescent"@.len());
        assert("SF"@.len() != "SNF"@.len());
        assert("SF"@.len() != "fluorescent"@.len());
        assert("SF"@.len() != "non-fluorescent"@.len());
        assert("SF"@.len() != "semi-fluorescent"@.len());
        assert("SF"@.len() != "semi-non-fluorescent"@.len());
        assert("SNF"@.len() != "fluorescent"@.len());
        assert("SNF"@.len() != "non-fluorescent"@.len());
        assert("SNF"@.len() != "semi-fluorescent"@.len());
        assert("SNF"@.len() != "semi-non-fluorescent"@.len());
        assert("fluorescent"@.len() != "non-fluorescent"@.len());
        assert("fluorescent"@.len() != "semi-fluorescent"@.len());
        assert("fluorescent"@.len() != "semi-non-fluorescent"@.len());
        assert("non-fluorescent"@.len() != "semi-fluorescent"@.len());
        assert("non-fluorescent"@.len() != "semi-non-fluorescent"@.len());
        assert("semi-fluorescent"@.len() != "semi-non-fluorescent"@.len());
    }

    fn str_values() -> (r: Vec<&'static str>) {
        let r = vec!["fluorescent", "semi-fluorescent", "semi-non-fluorescent", "non-fluorescent"];
        r
    }

    fn abbrev(&self) -> (r: &'static str) {
        match self {
            Fluorescence::Fluorescent => "F",
            Fluorescence::SemiFluorescent => "SF",
            Fluorescence::SemiNonFluorescent => "SNF",
            Fluorescence::NonFluorescent => "NF",
        }
    }

    fn full(&self) -> (r: &'static str) {
        match self {
            Fluorescence::Fluorescent => "fluorescent",
            Fluorescence::SemiFluorescent => "semi-fluorescent",
            Fluorescence::SemiNonFluorescent => "semi-non-fluorescent",
            Fluorescence::NonFluorescent => "non-fluorescent",
        }
    }

    fn level(&self) -> (r: u64) {
        match self {
            Fluorescence::Fluorescent => 1,
            Fluorescence::SemiFluorescent => 2,
            Fluorescence::SemiNonFluorescent => 3,
            Fluorescence::NonFluorescent => 4,
        }
    }

    fn from_level(level: u64) -> (r: Self) {
        if level == 1 {
            Fluorescence::Fluorescent
        } else if level == 2 {
            Fluorescence::SemiFluorescent
        } else if level == 3 {
            Fluorescence::SemiNonFluorescent
        } else {
            Fluorescence::NonFluorescent
        }
    }
}

impl Default for Fluorescence {
    fn default() -> (r: Self)
        ensures
            r == Fluorescence::NonFluorescent,
    {
        Fluorescence::NonFluorescent
    }
}

impl std::str::FromStr for Fluorescence {
    type Err = String;

    fn from_str(string: &str) -> (r: Result<Fluorescence, String>)
        ensures
            parse_outcome::<Fluorescence>(string@, r),
    {
        parse_characteristic::<Fluorescence>(string)
    }
}

/// The metallicness of a paint.
#[derive(PartialEq, Eq, Structural, PartialOrd, Ord, Clone, Copy, Debug, Hash)]
pub enum Metallicness {
    Metal,
    Metallic,
    SemiMetallic,
    NonMetallic,
}

impl CharacteristicIfce for Metallicness {
    const NAME: &'static str = "Metallicness";
    const PROMPT: &'static str = "Metallicness:";
    const LIST_HEADER_NAME: &'static str = "Me.";

    open spec fn spec_name_text() -> Seq<char> {
        "Metallicness"@
    }

    open spec fn spec_prompt_text() -> Seq<char> {
        "Metallicness:"@
    }

    open spec fn spec_list_header_text() -> Seq<char> {
        "Me."@
    }

    proof fn lemma_constant_texts() {
    }

    open spec fn spec_count() -> nat {
        4
    }

    open spec fn spec_level(&self) -> nat {
        match self {
            Metallicness::Metal => 1,
            Metallicness::Metallic => 2,
            Metallicness::SemiMetallic => 3,
            Metallicness::NonMetallic => 4,
        }
    }

    open spec fn spec_from_level(level: nat) -> Self {
        if level == 1 {
            Metallicness::Metal
        } else if level == 2 {
            Metallicness::Metallic
        } else if level == 3 {
            Metallicness::SemiMetallic
        } else {
            Metallicness::NonMetallic
        }
    }

    open spec fn spec_abbrev(&self) -> Seq<char> {
        match self {
            Metallicness::Metal => "M"@,
            Metallicness::Metallic => "M"@,
            Metallicness::SemiMetallic => "SM"@,
            Metallicness::NonMetallic => "NM"@,
        }
    }

    open spec fn spec_full(&self) -> Seq<char> {
        match self {
            Metallicness::Metal => "metal"@,
            Metallicness::Metallic => "metallic"@,
            Metallicness::SemiMetallic => "semi-metallic"@,
            Metallicness::NonMetallic => "non-metallic"@,
        }
    }

    proof fn lemma_levels() {
    }

    proof fn lemma_names_distinct() {
        reveal_strlit("M");
        reveal_strlit("NM");
        reveal_strlit("SM");
        reveal_strlit("metal");
        reveal_strlit("metallic");
        reveal_strlit("non-metallic");
        reveal_strlit("semi-metallic");
        assert("M"@.len() != "NM"@.len());
        assert("M"@.len() != "SM"@.len());
        assert("M"@.len() != "metal"@.len());
        assert("M"@.len() != "metallic"@.len());
        assert("M"@.len() != "non-metallic"@.len());
        assert("M"@.len() != "semi-metallic"@.len());
        assert("NM"@[0] != "SM"@[0]);
        assert("NM"@.len() != "metal"@.len());
        assert("NM"@.len() != "metallic"@.len());
        assert("NM"@.len() != "non-metallic"@.len());
        assert("NM"@.len() != "semi-metallic"@.len());
        assert("SM"@.len() != "metal"@.len());
        assert("SM"@.len() != "metallic"@.len());
        assert("SM"@.len() != "non-metallic"@.len());
        assert("SM"@.len() != "semi-metallic"@.len());
        assert("metal"@.len() != "metallic"@.len());
        assert("metal"@.len() != "non-metallic"@.len());
        assert("metal"@.len() != "semi-metallic"@.len());
        assert("metallic"@.len() != "non-metallic"@.len());
        assert("metallic"@.len() != "semi-metallic"@.len());
        assert("non-metallic"@.len() != "semi-metallic"@.len());
    }

    fn str_values() -> (r: Vec<&'static str>) {
        let r = vec!["metal", "metallic", "semi-metallic", "non-metallic"];
        r
    }

    fn abbrev(&self) -> (r: &'static str) {
        match self {
            Metallicness::Metal => "M",
            Metallicness::Metallic => "M",
            Metallicness::SemiMetallic => "SM",
            Metallicness::NonMetallic => "NM",
        }
    }

    fn full(&self) -> (r: &'static str) {
        match self {
            Metallicness::Metal => "metal",
            Metallicness::Metallic => "metallic",
            Metallicness::SemiMetallic => "semi-metallic",
            Metallicness::NonMetallic => "non-metallic",
        }
    }

    fn level(&self) -> (r: u64) {
        match self {
            Metallicness::Metal => 1,
            Metallicness::Metallic => 2,
            Metallicness::SemiMetallic => 3,
            Metallicness::NonMetallic => 4,
        }
    }

    fn from_level(level: u64) -> (r: Self) {
        if level == 1 {
            Metallicness::Metal
        } else if level == 2 {
            Metallicness::Metallic
        } else if level == 3 {
            Metallicness::SemiMetallic
        } else {
            Metallicness::NonMetallic
        }
    }
}

impl Default for Metallicness {
    fn default() -> (r: Self)
        ensures
            r == Metallicness::NonMetallic,
    {
        Metallicness::NonMetallic
    }
}

impl std::str::FromStr for Metallicness {
    type Err = String;

    fn from_str(string: &str) -> (r: Result<Metallicness, String>)
        ensures
            parse_outcome::<Metallicness>(string@, r),
    {
        parse_characteristic::<Metallicness>(string)
    }
}

/// A characteristic of a paint, with its value.
#[derive(PartialEq, Eq, Structural, PartialOrd, Ord, Clone, Copy, Debug, Hash)]
pub enum Characteristic {
    Finish(Finish),
    Transparency(Transparency),
    Permanence(Permanence),
    Fluorescence(Fluorescence),
    Metallicness(Metallicness),
}

impl Characteristic {
    pub open spec fn spec_name(self) -> Seq<char> {
        match self {
            Characteristic::Finish(_) => Finish::spec_name_text(),
            Characteristic::Transparency(_) => Transparency::spec_name_text(),
            Characteristic::Permanence(_) => Permanence::spec_name_text(),
            Characteristic::Fluorescence(_) => Fluorescence::spec_name_text(),
            Characteristic::Metallicness(_) => Metallicness::spec_name_text(),
        }
    }

    pub open spec fn spec_prompt(self) -> Seq<char> {
        match self {
            Characteristic::Finish(_) => Finish::spec_prompt_text(),
            Characteristic::Transparency(_) => Transparency::spec_prompt_text(),
            Characteristic::Permanence(_) => Permanence::spec_prompt_text(),
            Characteristic::Fluorescence(_) => Fluorescence::spec_prompt_text(),
            Characteristic::Metallicness(_) => Metallicness::spec_prompt_text(),
        }
    }

    pub open spec fn spec_list_header_name(self) -> Seq<char> {
        match self {
            Characteristic::Finish(_) => Finish::spec_list_header_text(),
            Characteristic::Transparency(_) => Transparency::spec_list_header_text(),
            Characteristic::Permanence(_) => Permanence::spec_list_header_text(),
            Characteristic::Fluorescence(_) => Fluorescence::spec_list_header_text(),
            Characteristic::Metallicness(_) => Metallicness::spec_list_header_text(),
        }
    }

    pub open spec fn spec_str_values(self) -> Seq<Seq<char>> {
        match self {
            Characteristic::Finish(_) => spec_value_names::<Finish>(),
            Characteristic::Transparency(_) => spec_value_names::<Transparency>(),
            Characteristic::Permanence(_) => spec_value_names::<Permanence>(),
            Characteristic::Fluorescence(_) => spec_value_names::<Fluorescence>(),
            Characteristic::Metallicness(_) => spec_value_names::<Metallicness>(),
        }
    }

    pub open spec fn spec_abbrev(self) -> Seq<char> {
        match self {
            Characteristic::Finish(value) => value.spec_abbrev(),
            Characteristic::Transparency(value) => value.spec_abbrev(),
            Characteristic::Permanence(value) => value.spec_abbrev(),
            Characteristic::Fluorescence(value) => value.spec_abbrev(),
            Characteristic::Metallicness(value) => value.spec_abbrev(),
        }
    }

    pub open spec fn spec_full(self) -> Seq<char> {
        match self {
            Characteristic::Finish(value) => value.spec_full(),
            Characteristic::Transparency(value) => value.spec_full(),
            Characteristic::Permanence(value) => value.spec_full(),
            Characteristic::Fluorescence(value) => value.spec_full(),
            Characteristic::Metallicness(value) => value.spec_full(),
        }
    }

    pub fn name(self) -> (r: &'static str)
        ensures
            r@ == self.spec_name(),
    {
        match self {
            Characteristic::Finish(_) => Finish::NAME,
            Characteristic::Transparency(_) => Transparency::NAME,
            Characteristic::Permanence(_) => Permanence::NAME,
            Characteristic::Fluorescence(_) => Fluorescence::NAME,
            Characteristic::Metallicness(_) => Metallicness::NAME,
        }
    }

    pub fn prompt(self) -> (r: &'static str)
        ensures
            r@ == self.spec_prompt(),
    {
        match self {
            Characteristic::Finish(_) => Finish::PROMPT,
            Characteristic::Transparency(_) => Transparency::PROMPT,
            Characteristic::Permanence(_) => Permanence::PROMPT,
            Characteristic::Fluorescence(_) => Fluorescence::PROMPT,
            Characteristic::Metallicness(_) => Metallicness::PROMPT,
        }
    }

    pub fn list_header_name(self) -> (r: &'static str)
        ensures
            r@ == self.spec_list_header_name(),
    {
        match self {
            Characteristic::Finish(_) => Finish::LIST_HEADER_NAME,
            Characteristic::Transparency(_) => Transparency::LIST_HEADER_NAME,
            Characteristic::Permanence(_) => Permanence::LIST_HEADER_NAME,
            Characteristic::Fluorescence(_) => Fluorescence::LIST_HEADER_NAME,
            Characteristic::Metallicness(_) => Metallicness::LIST_HEADER_NAME,
        }
    }

    pub fn str_values(self) -> (r: Vec<&'static str>)
        ensures
            r@.map_values(|s: &'static str| s@) == self.spec_str_values(),
    {
        match self {
            Characteristic::Finish(_) => {
                let r = Finish::str_values();
                assert(r@.map_values(|s: &'static str| s@) =~= spec_value_names::<Finish>());
                r
            },
            Characteristic::Transparency(_) => {
                let r = Transparency::str_values();
                assert(r@.map_values(|s: &'static str| s@) =~= spec_value_names::<Transparency>());
                r
            },
            Characteristic::Permanence(_) => {
                let r = Permanence::str_values();
                assert(r@.map_values(|s: &'static str| s@) =~= spec_value_names::<Permanence>());
                r
            },
            Characteristic::Fluorescence(_) => {
                let r = Fluorescence::str_values();
                assert(r@.map_values(|s: &'static str| s@) =~= spec_value_names::<Fluorescence>());
                r
            },
            Characteristic::Metallicness(_) => {
                let r = Metallicness::str_values();
                assert(r@.map_values(|s: &'static str| s@) =~= spec_value_names::<Metallicness>());
                r
            },
        }
    }

    pub fn abbrev(self) -> (r: &'static str)
        ensures
            r@ == self.spec_abbrev(),
    {
        match self {
            Characteristic::Finish(value) => value.abbrev(),
            Characteristic::Transparency(value) => value.abbrev(),
            Characteristic::Permanence(value) => value.abbrev(),
            Characteristic::Fluorescence(value) => value.abbrev(),
            Characteristic::Metallicness(value) => value.abbrev(),
        }
    }

    pub fn full(self) -> (r: &'static str)
        ensures
            r@ == self.spec_full(),
    {
        match self {
            Characteristic::Finish(value) => value.full(),
            Characteristic::Transparency(value) => value.full(),
            Characteristic::Permanence(value) => value.full(),
            Characteristic::Fluorescence(value) => value.full(),
            Characteristic::Metallicness(value) => value.full(),
        }
    }
}

/// A kind of paint characteristic.
#[derive(PartialEq, Eq, Structural, PartialOrd, Ord, Clone, Copy, Debug, Hash)]
pub enum CharacteristicType {
    Finish,
    Transparency,
    Permanence,
    Fluorescence,
    Metallicness,
}

impl CharacteristicType {
    pub open spec fn spec_name(self) -> Seq<char> {
        match self {
            CharacteristicType::Finish => Finish::spec_name_text(),
            CharacteristicType::Transparency => Transparency::spec_name_text(),
            CharacteristicType::Permanence => Permanence::spec_name_text(),
            CharacteristicType::Fluorescence => Fluorescence::spec_name_text(),
            CharacteristicType::Metallicness => Metallicness::spec_name_text(),
        }
    }

    pub open spec fn spec_prompt(self) -> Seq<char> {
        match self {
            CharacteristicType::Finish => Finish::spec_prompt_text(),
            CharacteristicType::Transparency => Transparency::spec_prompt_text(),
            CharacteristicType::Permanence => Permanence::spec_prompt_text(),
            CharacteristicType::Fluorescence => Fluorescence::spec_prompt_text(),
            CharacteristicType::Metallicness => Metallicness::spec_prompt_text(),
        }
    }

    pub open spec fn spec_list_header_name(self) -> Seq<char> {
        match self {
            CharacteristicType::Finish => Finish::spec_list_header_text(),
            CharacteristicType::Transparency => Transparency::spec_list_header_text(),
            CharacteristicType::Permanence => Permanence::spec_list_header_text(),
            CharacteristicType::Fluorescence => Fluorescence::spec_list_header_text(),
            CharacteristicType::Metallicness => Metallicness::spec_list_header_text(),
        }
    }

    pub open spec fn spec_str_values(self) -> Seq<Seq<char>> {
        match self {
            CharacteristicType::Finish => spec_value_names::<Finish>(),
            CharacteristicType::Transparency => spec_value_names::<Transparency>(),
            CharacteristicType::Permanence => spec_value_names::<Permanence>(),
            CharacteristicType::Fluorescence => spec_value_names::<Fluorescence>(),
            CharacteristicType::Metallicness => spec_value_names::<Metallicness>(),
        }
    }

    pub fn name(self) -> (r: &'static str)
        ensures
            r@ == self.spec_name(),
    {
        match self {
            CharacteristicType::Finish => Finish::NAME,
            CharacteristicType::Transparency => Transparency::NAME,
            CharacteristicType::Permanence => Permanence::NAME,
            CharacteristicType::Fluorescence => Fluorescence::NAME,
            CharacteristicType::Metallicness => Metallicness::NAME,
        }
    }

    pub fn prompt(self) -> (r: &'static str)
        ensures
            r@ == self.spec_prompt(),
    {
        match self {
            CharacteristicType::Finish => Finish::PROMPT,
            CharacteristicType::Transparency => Transparency::PROMPT,
            CharacteristicType::Permanence => Permanence::PROMPT,
            CharacteristicType::Fluorescence => Fluorescence::PROMPT,
            CharacteristicType::Metallicness => Metallicness::PROMPT,
        }
    }

    pub fn list_header_name(self) -> (r: &'static str)
        ensures
            r@ == self.spec_list_header_name(),
    {
        match self {
            CharacteristicType::Finish => Finish::LIST_HEADER_NAME,
            CharacteristicType::Transparency => Transparency::LIST_HEADER_NAME,
            CharacteristicType::Permanence => Permanence::LIST_HEADER_NAME,
            CharacteristicType::Fluorescence => Fluorescence::LIST_HEADER_NAME,
            CharacteristicType::Metallicness => Metallicness::LIST_HEADER_NAME,
        }
    }

    pub fn str_values(self) -> (r: Vec<&'static str>)
        ensures
            r@.map_values(|s: &'static str| s@) == self.spec_str_values(),
    {
        match self {
            CharacteristicType::Finish => {
                let r = Finish::str_values();
                assert(r@.map_values(|s: &'static str| s@) =~= spec_value_names::<Finish>());
                r
            },
            CharacteristicType::Transparency => {
                let r = Transparency::str_values();
                assert(r@.map_values(|s: &'static str| s@) =~= spec_value_names::<Transparency>());
                r
            },
            CharacteristicType::Permanence => {
                let r = Permanence::str_values();
                assert(r@.map_values(|s: &'static str| s@) =~= spec_value_names::<Permanence>());
                r
            },
            CharacteristicType::Fluorescence => {
                let r = Fluorescence::str_values();
                assert(r@.map_values(|s: &'static str| s@) =~= spec_value_names::<Fluorescence>());
                r
            },
            CharacteristicType::Metallicness => {
                let r = Metallicness::str_values();
                assert(r@.map_values(|s: &'static str| s@) =~= spec_value_names::<Metallicness>());
                r
            },
        }
    }

    /// The text with which the type is displayed.
    pub open spec fn spec_display(self) -> Seq<char> {
        match self {
            CharacteristicType::Finish => "Finish"@,
            CharacteristicType::Transparency => "Transparency"@,
            CharacteristicType::Permanence => "Permanence"@,
            CharacteristicType::Fluorescence => "Fluorescence"@,
            CharacteristicType::Metallicness => " Metallicness"@,
        }
    }

    /// The text with which the type is displayed.
    pub fn display_string(self) -> (r: String)
        ensures
            r@ == self.spec_display(),
    {
        let text = match self {
            CharacteristicType::Finish => "Finish",
            CharacteristicType::Transparency => "Transparency",
            CharacteristicType::Permanence => "Permanence",
            CharacteristicType::Fluorescence => "Fluorescence",
            CharacteristicType::Metallicness => " Metallicness",
        };
        let mut r = String::new();
        r.append(text);
        assert(r@ =~= self.spec_display());
        r
    }
}

/// The level nearest to the mean `sum / parts`, halves rounding up.
pub open spec fn rounded_mean(sum: nat, parts: nat) -> nat
    recommends
        parts > 0,
{
    (2 * sum + parts) / (2 * parts)
}

proof fn lemma_rounded_mean_in_range(sum: nat, parts: nat, count: nat)
    requires
        parts > 0,
        parts <= sum <= parts * count,
    ensures
        1 <= rounded_mean(sum, parts) <= count,
{
    let d = 2 * parts;
    assert(d * 1 <= 2 * sum + parts) by (nonlinear_arith)
        requires
            parts <= sum,
            d == 2 * parts,
    ;
    vstd::arithmetic::div_mod::lemma_div_is_ordered(d as int, (2 * sum + parts) as int, d as int);
    vstd::arithmetic::div_mod::lemma_div_by_self(d as int);
    assert(2 * sum + parts < d * (count + 1)) by (nonlinear_arith)
        requires
            sum <= parts * count,
            d == 2 * parts,
            parts > 0,
    ;
    vstd::arithmetic::div_mod::lemma_multiply_divide_lt((2 * sum + parts) as int, d as int, (count + 1) as int);
}

/// A mean of a single level is that level.
proof fn lemma_rounded_mean_of_one(level: nat, parts: nat)
    requires
        parts > 0,
    ensures
        rounded_mean(level * parts, parts) == level,
{
    assert(2 * (level * parts) + parts == level * (2 * parts) + parts) by (nonlinear_arith);
    vstd::arithmetic::div_mod::lemma_fundamental_div_mod_converse(
        (2 * (level * parts) + parts) as int,
        (2 * parts) as int,
        level as int,
        parts as int,
    );
}

/// The sum of the levels of `adds`, each times its parts.
pub open spec fn added_sum<C: CharacteristicIfce>(adds: Seq<(C, nat)>) -> nat
    decreases adds.len(),
{
    if adds.len() == 0 {
        0
    } else {
        added_sum(adds.drop_last()) + adds.last().0.spec_level() * adds.last().1
    }
}

/// The parts of `adds`, all together.
pub open spec fn added_parts<C: CharacteristicIfce>(adds: Seq<(C, nat)>) -> nat
    decreases adds.len(),
{
    if adds.len() == 0 {
        0
    } else {
        added_parts(adds.drop_last()) + adds.last().1
    }
}

/// The value of a mixture of `adds`: `None` where there are no parts;
/// otherwise the value at the mean of the levels weighted by parts,
/// rounded to the nearest level.
pub open spec fn mixed_value<C: CharacteristicIfce>(adds: Seq<(C, nat)>) -> Option<C> {
    if added_parts(adds) == 0 {
        None
    } else {
        Some(C::spec_from_level(rounded_mean(added_sum(adds), added_parts(adds))))
    }
}

/// The weighted sum of levels lies between the parts times the lowest and
/// times the highest level of the values that have parts.
proof fn lemma_added_sum_bounds<C: CharacteristicIfce>(adds: Seq<(C, nat)>, low: nat, high: nat)
    requires
        forall|i: int|
            0 <= i < adds.len() && adds[i].1 > 0 ==> low <= (#[trigger] adds[i]).0.spec_level()
                <= high,
    ensures
        added_parts(adds) * low <= added_sum(adds) <= added_parts(adds) * high,
    decreases adds.len(),
{
    if adds.len() > 0 {
        let init = adds.drop_last();
        assert forall|i: int|
            0 <= i < init.len() && init[i].1 > 0 implies low <= (#[trigger] init[i]).0.spec_level()
            <= high by {
            assert(init[i] == adds[i]);
        }
        lemma_added_sum_bounds(init, low, high);
        let p = adds.last().1;
        let l = adds.last().0.spec_level();
        assert(adds[adds.len() - 1] == adds.last());
        assert(added_sum(adds) == added_sum(init) + l * p);
        assert(added_parts(adds) == added_parts(init) + p);
        if p > 0 {
            assert(p * low <= l * p <= p * high) by (nonlinear_arith)
                requires
                    low <= l <= high,
            ;
        } else {
            assert(l * p == 0 && p * low == 0 && p * high == 0) by (nonlinear_arith)
                requires
                    p == 0,
            ;
        }
        assert(added_parts(adds) * low == added_parts(init) * low + p * low) by (nonlinear_arith)
            requires
                added_parts(adds) == added_parts(init) + p,
        ;
        assert(added_parts(adds) * high == added_parts(init) * high + p * high) by (nonlinear_arith)
            requires
                added_parts(adds) == added_parts(init) + p,
        ;
    } else {
        assert(added_parts(adds) * low == 0 && added_parts(adds) * high == 0) by (nonlinear_arith)
            requires
                added_parts(adds) == 0,
        ;
    }
}

/// Mixes characteristic values in parts. The mixture's value is the mean of the
/// levels, weighted by parts, rounded to the nearest level.
pub struct CharacteristicMixer<C: CharacteristicIfce> {
    sum: u128,
    total_parts: u64,
    adds: Ghost<Seq<(C, nat)>>,
}

impl<C: CharacteristicIfce> View for CharacteristicMixer<C> {
    /// The values added since the mixer was made or last emptied, with
    /// their parts, in order.
    type V = Seq<(C, nat)>;

    closed spec fn view(&self) -> Seq<(C, nat)> {
        self.adds@
    }
}

impl<C: CharacteristicIfce> CharacteristicMixer<C> {
    #[verifier::type_invariant]
    spec fn well_formed(self) -> bool {
        &&& C::spec_count() <= 16
        &&& self.sum == added_sum(self.adds@)
        &&& self.total_parts == added_parts(self.adds@)
        &&& self.total_parts <= self.sum <= self.total_parts * C::spec_count()
    }

    /// An empty mixer.
    pub fn new() -> (r: Self)
        ensures
            r@ == Seq::<(C, nat)>::empty(),
    {
        proof {
            C::lemma_levels();
        }
        CharacteristicMixer { sum: 0, total_parts: 0, adds: Ghost(Seq::empty()) }
    }

    /// Empties the mixer.
    pub fn reset(&mut self)
        ensures
            final(self)@ == Seq::<(C, nat)>::empty(),
    {
        proof {
            C::lemma_levels();
        }
        *self = CharacteristicMixer { sum: 0, total_parts: 0, adds: Ghost(Seq::empty()) };
    }

    /// The value of the mixture, or `None` while it has no parts.
    pub fn characteristic(&self) -> (r: Option<C>)
        ensures
            r == mixed_value::<C>(self@),
    {
        proof {
            use_type_invariant(self);
        }
        if self.total_parts > 0 {
            let parts = self.total_parts as u128;
            proof {
                lemma_rounded_mean_in_range(self.sum as nat, parts as nat, C::spec_count());
                assert(parts * C::spec_count() <= parts * 16) by (nonlinear_arith)
                    requires
                        C::spec_count() <= 16,
                ;
            }
            let mixture = (2 * self.sum + parts) / (2 * parts);
            Some(C::from_level(mixture as u64))
        } else {
            None
        }
    }

    /// Adds `parts` parts of `value` to the mixture.
    pub fn add(&mut self, value: C, parts: u64)
        requires
            added_parts(old(self)@) + parts <= u64::MAX,
        ensures
            final(self)@ == old(self)@.push((value, parts as nat)),
    {
        proof {
            use_type_invariant(&*self);
            C::lemma_levels();
        }
        let level = value.level();
        let total_parts = self.total_parts + parts;
        proof {
            assert(level * parts <= 16 * parts) by (nonlinear_arith)
                requires
                    level <= 16,
            ;
            assert(self.total_parts * C::spec_count() <= self.total_parts * 16) by (nonlinear_arith)
                requires
                    C::spec_count() <= 16,
            ;
            assert(parts <= level * parts <= parts * C::spec_count()) by (nonlinear_arith)
                requires
                    1 <= level <= C::spec_count(),
            ;
            assert(total_parts * C::spec_count() == self.total_parts * C::spec_count() + parts
                * C::spec_count()) by (nonlinear_arith)
                requires
                    total_parts == self.total_parts + parts,
            ;
        }
        let sum = self.sum + (level as u128) * (parts as u128);
        let ghost adds = self.adds@.push((value, parts as nat));
        proof {
            assert(adds.drop_last() =~= self.adds@);
        }
        *self = CharacteristicMixer { sum, total_parts, adds: Ghost(adds) };
    }
}

impl<C: CharacteristicIfce> Default for CharacteristicMixer<C> {
    fn default() -> (r: Self)
        ensures
            r@ == Seq::<(C, nat)>::empty(),
    {
        Self::new()
    }
}

/// Mixing a single value, in any number of parts, gives that value back.
pub proof fn law_mixing_one_value<C: CharacteristicIfce>(value: C, parts: nat)
    requires
        parts > 0,
    ensures
        mixed_value(seq![(value, parts)]) == Some(value),
{
    C::lemma_levels();
    let adds = seq![(value, parts)];
    assert(adds.drop_last() =~= Seq::<(C, nat)>::empty());
    assert(adds.last() == (value, parts));
    assert(added_sum(adds.drop_last()) == 0);
    assert(added_parts(adds.drop_last()) == 0);
    assert(added_sum(adds) == value.spec_level() * parts);
    assert(added_parts(adds) == parts);
    lemma_rounded_mean_of_one(value.spec_level(), parts);
}

/// A mixer answers, for the values added since it was made or emptied,
/// nothing while they have no parts, and otherwise a value whose level lies
/// between the lowest and the highest level of the added values that have
/// parts: `low` and `high` are any such bounds.
pub proof fn law_mixture_within_range<C: CharacteristicIfce>(adds: Seq<(C, nat)>, low: nat, high: nat)
    requires
        forall|i: int|
            0 <= i < adds.len() && adds[i].1 > 0 ==> low <= (#[trigger] adds[i]).0.spec_level()
                <= high,
    ensures
        mixed_value(adds) is None <==> added_parts(adds) == 0,
        mixed_value(adds) matches Some(v) ==> low <= v.spec_level() <= high,
{
    C::lemma_levels();
    if added_parts(adds) > 0 {
        let parts = added_parts(adds);
        let sum = added_sum(adds);
        lemma_added_sum_bounds(adds, 1, C::spec_count());
        lemma_added_sum_bounds(adds, low, high);
        lemma_rounded_mean_in_range(sum, parts, C::spec_count());
        let m = rounded_mean(sum, parts);
        assert(C::spec_from_level(m).spec_level() == m);
        let d = 2 * parts;
        assert(d * low <= 2 * sum + parts) by (nonlinear_arith)
            requires
                parts * low <= sum,
                d == 2 * parts,
        ;
        vstd::arithmetic::div_mod::lemma_div_is_ordered((d * low) as int, (2 * sum + parts) as int, d as int);
        vstd::arithmetic::div_mod::lemma_div_multiples_vanish(low as int, d as int);
        assert(2 * sum + parts < d * (high + 1)) by (nonlinear_arith)
            requires
                sum <= parts * high,
                d == 2 * parts,
                parts > 0,
        ;
        vstd::arithmetic::div_mod::lemma_multiply_divide_lt((2 * sum + parts) as int, d as int, (high + 1) as int);
    }
}


/// The value of a mixture with parts is at the level nearest to the mean
/// of the levels weighted by parts, a half going up: twice the weighted sum
/// lies between twice the level times the parts, less the parts, and that
/// plus the parts (the upper end left out).
pub proof fn law_mixed_level_nearest<C: CharacteristicIfce>(adds: Seq<(C, nat)>)
    requires
        added_parts(adds) > 0,
    ensures
        mixed_value(adds) matches Some(v) && 2 * v.spec_level() * added_parts(adds) <= 2
            * added_sum(adds) + added_parts(adds) && 2 * added_sum(adds) + added_parts(adds) < 2
            * v.spec_level() * added_parts(adds) + 2 * added_parts(adds),
{
    C::lemma_levels();
    let parts = added_parts(adds);
    let sum = added_sum(adds);
    lemma_added_sum_bounds(adds, 1, C::spec_count());
    assert(parts * 1 == parts);
    lemma_rounded_mean_in_range(sum, parts, C::spec_count());
    let m = rounded_mean(sum, parts);
    assert(C::spec_from_level(m).spec_level() == m);
    let d = 2 * parts;
    let x = 2 * sum + parts;
    vstd::arithmetic::div_mod::lemma_fundamental_div_mod(x as int, d as int);
    let r = x % d;
    assert(0 <= r < d);
    assert(x == d * m + r);
    assert(2 * m * parts == d * m) by (nonlinear_arith)
        requires
            d == 2 * parts,
    ;
}

/// The levels of the values of `Finish` count them in declaration order,
/// from 1: a mixture lands between the values it is mixed from.
pub proof fn law_finish_levels_in_declaration_order()
    ensures
        Finish::Gloss.spec_level() == 1,
        Finish::SemiGloss.spec_level() == 2,
        Finish::SemiFlat.spec_level() == 3,
        Finish::Flat.spec_level() == 4,
{
}

/// The levels of the values of `Transparency` count them in declaration order,
/// from 1: a mixture lands between the values it is mixed from.
pub proof fn law_transparency_levels_in_declaration_order()
    ensures
        Transparency::Opaque.spec_level() == 1,
        Transparency::SemiOpaque.spec_level() == 2,
        Transparency::SemiTransparent.spec_level() == 3,
        Transparency::Transparent.spec_level() == 4,
        Transparency::Clear.spec_level() == 5,
{
}

/// The levels of the values of `Permanence` count them in declaration order,
/// from 1: a mixture lands between the values it is mixed from.
pub proof fn law_permanence_levels_in_declaration_order()
    ensures
        Permanence::ExtremelyPermanent.spec_level() == 1,
        Permanence::Permanent.spec_level() == 2,
        Permanence::ModeratelyDurable.spec_level() == 3,
        Permanence::Fugitive.spec_level() == 4,
{
}

/// The levels of the values of `Fluorescence` count them in declaration order,
/// from 1: a mixture lands between the values it is mixed from.
pub proof fn law_fluorescence_levels_in_declaration_order()
    ensures
        Fluorescence::Fluorescent.spec_level() == 1,
        Fluorescence::SemiFluorescent.spec_level() == 2,
        Fluorescence::SemiNonFluorescent.spec_level() == 3,
        Fluorescence::NonFluorescent.spec_level() == 4,
{
}

/// The levels of the values of `Metallicness` count them in declaration order,
/// from 1: a mixture lands between the values it is mixed from.
pub proof fn law_metallicness_levels_in_declaration_order()
    ensures
        Metallicness::Metal.spec_level() == 1,
        Metallicness::Metallic.spec_level() == 2,
        Metallicness::SemiMetallic.spec_level() == 3,
        Metallicness::NonMetallic.spec_level() == 4,
{
}

} // verus!

